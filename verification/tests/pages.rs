use harborz::pages::{action_name, download_heading, download_label, merge_description, merge_heading};
use std::sync::Arc;
use harborz::pages::{album_page_params, song_page_params, year_label};

#[test]
fn year_labels() {
    assert_eq!(year_label(None, None), None);
    assert_eq!(year_label(Some(2001), Some(2001)), Some(String::from("2001")));
    assert_eq!(year_label(Some(1999), Some(2003)), Some(String::from("1999 to 2003")));
}

#[test]
fn page_params() {
    let image = Some(Arc::new(String::from("/music/Opeth/logo.jpg")));
    let artist = Some(Arc::new(String::from("Opeth")));
    assert_eq!(album_page_params(vec![image.clone(), artist.clone()]), (artist.clone(), image.clone()));
    let album = Some(Arc::new(String::from("Damnation")));
    assert_eq!(
        song_page_params(vec![image.clone(), artist.clone(), album.clone()]),
        (album, artist, image)
    );
}

#[test]
fn page_texts() {
    assert_eq!(action_name("start_merge"), "navigation_page.start_merge");
    assert_eq!(download_label("cover"), "Download cover");
    assert_eq!(download_heading("logo & photo"), "Choose the correct logo & photo");
    assert_eq!(merge_heading("Artist"), "Merge Artists");
    assert_eq!(merge_description("Album"), "Choose the correct Album name");
}
