use harborz::import::{import_mark, is_newer, last_import_nanos, later, relative_song_path, stored_import_time};
use harborz::song::{join_path, Collection, Song, WithImage, WithPath};

fn song(path: &str, title: Option<&str>) -> Song {
    Song {
        id: 1,
        path: String::from(path),
        collection_id: 1,
        title: title.map(String::from),
        artist: None,
        album: None,
        year: None,
        genre: None,
        track_number: None,
        album_volume: None,
        album_artist: None,
        duration: 0,
        lyrics: None,
    }
}

#[test]
fn title_prefers_tag() {
    assert_eq!(song("Opeth/Damnation/01 Windowpane.mp3", Some("Windowpane")).title_str(), Some(String::from("Windowpane")));
    assert_eq!(
        song("Opeth/Damnation/01 Windowpane.mp3", None).title_str(),
        Some(String::from("01 Windowpane.mp3"))
    );
    assert_eq!(song("..", Some("Windowpane")).title_str(), None);
}

#[test]
fn paths_join() {
    assert_eq!(join_path(&String::from("/music"), &String::from("a/b.mp3")), "/music/a/b.mp3");
    assert_eq!(join_path(&String::from("/music"), &String::from("/elsewhere/b.mp3")), "/elsewhere/b.mp3");
    let collection = Collection { id: 1, path: String::from("/music"), modified: None };
    let track = song("Opeth/Damnation/01.mp3", None);
    assert_eq!((&track, &collection).path(), "/music/Opeth/Damnation/01.mp3");
}

#[test]
fn images_beside_and_above() {
    let path = String::from("/music/Opeth/Damnation/01.mp3");
    assert_eq!(path.cover(), Some(String::from("/music/Opeth/Damnation/cover.jpg")));
    assert_eq!(path.logo(), Some(String::from("/music/Opeth/logo.jpg")));
    assert_eq!(path.photo(), Some(String::from("/music/Opeth/photo.jpg")));
    assert_eq!(path.sibling_logo(), Some(String::from("/music/Opeth/Damnation/logo.jpg")));
    assert_eq!(path.sibling_photo(), Some(String::from("/music/Opeth/Damnation/photo.jpg")));
    assert_eq!(String::from("/").cover(), None);
    assert_eq!(String::from("").logo(), None);
}

#[test]
fn import_decisions() {
    assert!(is_newer(5, 3, None));
    assert!(is_newer(5, 3, Some(4)));
    assert!(is_newer(3, 5, Some(4)));
    assert!(!is_newer(3, 4, Some(4)));
    assert_eq!(later(None, Some(3)), Some(3));
    assert_eq!(later(Some(7), None), Some(7));
    assert_eq!(later(Some(7), Some(9)), Some(9));
    assert_eq!(later(None, None), None);
    assert_eq!(later(Some(2), later(Some(9), Some(4))), later(later(Some(2), Some(9)), Some(4)));
    assert_eq!(last_import_nanos(Some(42)), Some(42));
    assert_eq!(last_import_nanos(Some(-1)), Some(u64::MAX as u128));
    assert_eq!(last_import_nanos(None), None);
    assert_eq!(stored_import_time(1_700_000_000_000_000_000), 1_700_000_000_000_000_000i64);
}

#[test]
fn relative_paths() {
    assert_eq!(relative_song_path("/music/Opeth/01.mp3", "/music"), Some(String::from("Opeth/01.mp3")));
    assert_eq!(relative_song_path("/other/01.mp3", "/music"), None);
}

#[test]
fn import_mark_is_latest_file_time() {
    assert_eq!(import_mark(&vec![]), None);
    assert_eq!(import_mark(&vec![(5, 3), (2, 9), (4, 4)]), Some(9));
    let last = 3;
    let files = vec![(4, 1), (2, 6)];
    assert!(files.iter().all(|&(c, m)| is_newer(c, m, Some(last))));
    assert!(import_mark(&files).unwrap() > last);
}
