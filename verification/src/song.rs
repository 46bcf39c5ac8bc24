//! Songs and collections, and the files that sit beside a song.
use vstd::prelude::*;
use vstd::string::*;
use crate::paths::{path_file_name, path_join, path_parent, spec_path_file_name, spec_path_join, spec_path_parent};

verus! {

/// A song of the library, as the database holds it.
#[derive(Debug)]
pub struct Song {
    pub id: i32,
    pub path: String,
    pub collection_id: i32,
    pub title: Option<String>,
    pub artist: Option<String>,
    pub album: Option<String>,
    pub year: Option<i32>,
    pub genre: Option<String>,
    pub track_number: Option<i32>,
    pub album_volume: Option<i32>,
    pub album_artist: Option<String>,
    pub duration: i64,
    pub lyrics: Option<String>,
}

/// A directory of songs: song paths are relative to its path.
#[derive(Debug)]
pub struct Collection {
    pub id: i32,
    pub path: String,
    pub modified: Option<i64>,
}

/// The title a song is shown under: its title tag, else its file name. There
/// is none when the song's path has no file name, whether or not it has a title.
pub open spec fn title_text(title: Option<Seq<char>>, path: Seq<char>) -> Option<Seq<char>> {
    match spec_path_file_name(path) {
        None => None,
        Some(name) => Some(
            match title {
                Some(t) => t,
                None => name,
            },
        ),
    }
}

/// The title tag of an optional string, by its view.
pub open spec fn option_view(s: Option<String>) -> Option<Seq<char>> {
    match s {
        Some(t) => Some(t@),
        None => None,
    }
}

impl Song {
    /// The title a song is shown under.
    pub fn title_str(&self) -> (title: Option<String>)
        ensures
            option_view(title) == title_text(option_view(self.title), self.path@),
    {
        let name = path_file_name(self.path.as_str());
        match name {
            None => None,
            Some(name) => match &self.title {
                Some(t) => Some(t.clone()),
                None => Some(name),
            },
        }
    }
}

/// The full path of a song of a collection.
pub fn join_path(collection_path: &String, song_path: &String) -> (path: String)
    ensures
        path@ == spec_path_join(collection_path@, song_path@),
{
    path_join(collection_path.as_str(), song_path.as_str())
}

/// A pair that names a file.
pub trait WithPath {
    /// The full path of the file.
    fn path(&self) -> String;
}

impl<'a> WithPath for (&'a Song, &'a Collection) {
    fn path(&self) -> (path: String)
        ensures
            path@ == spec_path_join(self.1.path@, self.0.path@),
    {
        join_path(&self.1.path, &self.0.path)
    }
}

/// `file_name` in the directory of `path`.
pub open spec fn beside(path: Seq<char>, file_name: Seq<char>) -> Option<Seq<char>> {
    match spec_path_parent(path) {
        Some(parent) => Some(spec_path_join(parent, file_name)),
        None => None,
    }
}

/// `file_name` in the directory above that of `path`.
pub open spec fn above(path: Seq<char>, file_name: Seq<char>) -> Option<Seq<char>> {
    match spec_path_parent(path) {
        Some(parent) => beside(parent, file_name),
        None => None,
    }
}

fn join_parent(path: &str, file_name: &str) -> (joined: Option<String>)
    ensures
        option_view(joined) == beside(path@, file_name@),
{
    match path_parent(path) {
        Some(parent) => Some(path_join(parent.as_str(), file_name)),
        None => None,
    }
}

fn join_grandparent(path: &str, file_name: &str) -> (joined: Option<String>)
    ensures
        option_view(joined) == above(path@, file_name@),
{
    match path_parent(path) {
        Some(parent) => join_parent(parent.as_str(), file_name),
        None => None,
    }
}

/// The name of an album's cover image.
pub const COVER: &'static str = "cover.jpg";

/// The name of an artist's logo image.
pub const LOGO: &'static str = "logo.jpg";

/// The name of an artist's photo.
pub const PHOTO: &'static str = "photo.jpg";

/// The images that belong to a song file: the album's cover beside it, and
/// the artist's logo and photo one directory up. The "sibling" ones sit
/// beside the given path instead. There is none where a parent is missing.
pub trait WithImage {
    fn cover(&self) -> Option<String>;
    fn logo(&self) -> Option<String>;
    fn sibling_logo(&self) -> Option<String>;
    fn photo(&self) -> Option<String>;
    fn sibling_photo(&self) -> Option<String>;
}

impl WithImage for String {
    fn cover(&self) -> (cover: Option<String>)
        ensures
            option_view(cover) == beside(self@, COVER@),
    {
        join_parent(self.as_str(), COVER)
    }

    fn logo(&self) -> (logo: Option<String>)
        ensures
            option_view(logo) == above(self@, LOGO@),
    {
        join_grandparent(self.as_str(), LOGO)
    }

    fn sibling_logo(&self) -> (logo: Option<String>)
        ensures
            option_view(logo) == beside(self@, LOGO@),
    {
        join_parent(self.as_str(), LOGO)
    }

    fn photo(&self) -> (photo: Option<String>)
        ensures
            option_view(photo) == above(self@, PHOTO@),
    {
        join_grandparent(self.as_str(), PHOTO)
    }

    fn sibling_photo(&self) -> (photo: Option<String>)
        ensures
            option_view(photo) == beside(self@, PHOTO@),
    {
        join_parent(self.as_str(), PHOTO)
    }
}

} // verus!
