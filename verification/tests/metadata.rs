use harborz::html::HtmlElement;
use harborz::metadata::{
    album_search_results, album_search_row, album_search_uri, artist_search_results, artist_search_row,
    band_search_uri, download_links, id_selector, links_for_ids, SearchError,
};

fn row(cells: &[&str]) -> Vec<String> {
    cells.iter().map(|c| c.to_string()).collect()
}

fn element(id: Option<&str>, href: Option<&str>) -> HtmlElement {
    HtmlElement { text: None, id: id.map(String::from), href: href.map(String::from) }
}

#[test]
fn search_locations() {
    assert_eq!(
        band_search_uri("Iron Maiden"),
        Some(String::from("https://www.metal-archives.com/search/ajax-band-search?field=name&query=Iron+Maiden"))
    );
    assert_eq!(
        album_search_uri("Opeth", "Damnation"),
        Some(String::from(
            "https://www.metal-archives.com/search/ajax-advanced/searching/albums?bandName=Opeth&releaseTitle=Damnation"
        ))
    );
}

#[test]
fn reads_artist_row() {
    let (found, link) = artist_search_row(&row(&[
        "<a href=\"https://www.metal-archives.com/bands/Opeth/755\">Opeth</a>",
        "Progressive Death Metal",
        "Sweden",
    ]))
    .unwrap();
    assert_eq!(found.name, "Opeth");
    assert_eq!(found.genre, "Progressive Death Metal");
    assert_eq!(found.location, "Sweden");
    assert_eq!(link, Some(String::from("https://www.metal-archives.com/bands/Opeth/755")));
}

#[test]
fn reads_album_row() {
    let (found, link) = album_search_row(&row(&[
        "<a href=\"https://www.metal-archives.com/bands/Opeth/755\" title=\"Opeth (SE)\">Opeth</a>",
        "<a href=\"https://www.metal-archives.com/albums/Opeth/Damnation/1017\">Damnation</a> <!-- 7.3 -->",
        "Full-length",
    ]))
    .unwrap();
    assert_eq!(found.artist, "Opeth");
    assert_eq!(found.album, "Damnation");
    assert_eq!(found.album_type, "Full-length");
    assert_eq!(link, Some(String::from("https://www.metal-archives.com/albums/Opeth/Damnation/1017")));
}

#[test]
fn rejects_unexpected_rows() {
    match artist_search_row(&row(&["a", "b"])) {
        Err(SearchError::UnexpectedRow(kept)) => assert_eq!(kept, row(&["a", "b"])),
        other => panic!("unexpected {:?}", other),
    }
    assert!(matches!(album_search_row(&row(&["a", "b", "c", "d"])), Err(SearchError::UnexpectedRow(_))));
}

#[test]
fn rows_without_links_or_text() {
    assert!(matches!(artist_search_row(&row(&["Opeth", "Metal", "Sweden"])), Err(SearchError::MissingLink)));
    assert!(matches!(
        artist_search_row(&row(&["<a href=\"x\"><b>Opeth</b></a>", "Metal", "Sweden"])),
        Err(SearchError::MissingText)
    ));
    assert!(matches!(
        album_search_row(&row(&["Opeth", "<a href=\"y\">Damnation</a>", "Full-length"])),
        Err(SearchError::MissingLink)
    ));
}

#[test]
fn reads_at_most_four_rows() {
    let good = row(&["<a href=\"l\">A</a>", "g", "l"]);
    let rows = vec![good.clone(), row(&["x"]), good.clone(), good.clone(), good.clone(), good.clone()];
    let results = artist_search_results(&rows);
    assert_eq!(results.len(), 4);
    assert!(results[0].is_ok());
    assert!(results[1].is_err());
    assert_eq!(artist_search_results(&vec![good.clone()]).len(), 1);
    assert_eq!(album_search_results(&vec![row(&["<a>A</a>", "<a href=\"c\">B</a>", "EP"]); 5]).len(), 4);
}

#[test]
fn selector_of_ids() {
    assert_eq!(id_selector(&vec![String::from("logo"), String::from("photo")]), "#logo,#photo");
    assert_eq!(id_selector(&vec![String::from("cover")]), "#cover");
    assert_eq!(id_selector(&vec![]), "");
}

#[test]
fn links_handed_out_once_per_id() {
    let found = vec![
        element(Some("logo"), Some("L1")),
        element(Some("photo"), Some("P")),
        element(Some("logo"), Some("L2")),
    ];
    let ids = vec![String::from("logo"), String::from("photo"), String::from("logo"), String::from("cover")];
    assert_eq!(
        links_for_ids(&found, &ids).unwrap(),
        vec![Some(String::from("L2")), Some(String::from("P")), None, None]
    );
    assert!(matches!(
        links_for_ids(&vec![element(Some("logo"), None)], &ids),
        Err(SearchError::IncompleteElement)
    ));
}

#[test]
fn links_on_a_page() {
    let page = "<html><body><a id=\"logo\" href=\"https://img/logo.jpg\">l</a>\
        <a id=\"other\" href=\"https://img/other.jpg\">o</a>\
        <a id=\"photo\" href=\"https://img/photo.jpg\">p</a></body></html>";
    let ids = vec![String::from("logo"), String::from("photo")];
    assert_eq!(
        download_links(page, &ids).unwrap(),
        vec![Some(String::from("https://img/logo.jpg")), Some(String::from("https://img/photo.jpg"))]
    );
    let cover = vec![String::from("cover")];
    assert_eq!(download_links(page, &cover).unwrap(), vec![None]);
    assert!(matches!(download_links(page, &vec![String::from("1bad")]), Err(SearchError::InvalidSelector)));
}
