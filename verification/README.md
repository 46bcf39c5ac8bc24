# harborz

The verified core of Harborz, a lightweight music player for handheld
devices. The library holds the player's decisions and text in Verus:

- `decimal`, `util`: decimal rendering, time stamps (`minutes:seconds`),
  placeholders for missing tags, plurals.
- `playback`: the next song of an album, seeking within a song, the position
  label, stream locations of files.
- `now_playing`: what swipes, the back button, selecting a song and a
  started stream lead to.
- `song`, `paths`: songs and collections, and the images beside a song file.
- `metadata`, `html`: Metal Archives search locations, the reading of search
  results and of the image links on a result's page.
- `download`: the search results offered for a download and their images.
- `merge`: choosing rows to merge and what a merge renames.
- `pages`: texts and parameters of the pages.
- `import`: which files an import visits and the time it is marked with.

`app/` is a small command-line front that makes the network and file calls
around the library. `tests/` runs the library on concrete values.
