//! Searching the Metal Archives for artists and albums: the search
//! locations, the reading of the search results, and the choice of the image
//! links on a result's page.
use vstd::prelude::*;
use vstd::string::*;
use crate::html::{
    opt_view, select_in_document, select_in_fragment, spec_select_in_document,
    spec_select_in_fragment, HtmlElement, SpecElement,
};

verus! {

/// An artist found by a search.
#[derive(Debug)]
pub struct ArtistSearch {
    pub name: String,
    pub genre: String,
    pub location: String,
}

/// An album found by a search.
#[derive(Debug)]
pub struct AlbumSearch {
    pub artist: String,
    pub album: String,
    pub album_type: String,
}

/// Why a search result could not be read.
#[derive(Debug)]
pub enum SearchError {
    /// The row does not hold the three expected columns; it is kept.
    UnexpectedRow(Vec<String>),
    /// A column holds no link.
    MissingLink,
    /// A link has no text.
    MissingText,
    /// A selector did not parse.
    InvalidSelector,
    /// A matched element lacks its id or its link.
    IncompleteElement,
    /// A location could not be built.
    InvalidLocation,
}

/// The kind of a `SearchError`, which the reading of a row is stated in.
#[derive(Debug, PartialEq, Eq, Structural)]
pub enum SearchFault {
    UnexpectedRow,
    MissingLink,
    MissingText,
    InvalidSelector,
    IncompleteElement,
    InvalidLocation,
}

/// The kind of an error.
pub open spec fn fault(e: SearchError) -> SearchFault {
    match e {
        SearchError::UnexpectedRow(_) => SearchFault::UnexpectedRow,
        SearchError::MissingLink => SearchFault::MissingLink,
        SearchError::MissingText => SearchFault::MissingText,
        SearchError::InvalidSelector => SearchFault::InvalidSelector,
        SearchError::IncompleteElement => SearchFault::IncompleteElement,
        SearchError::InvalidLocation => SearchFault::InvalidLocation,
    }
}

/// The site searched.
pub const BASE_URI: &'static str = "https://www.metal-archives.com";

/// The location of the artist search.
pub const BAND_SEARCH: &'static str = "/search/ajax-band-search";

/// The location of the album search.
pub const ALBUM_SEARCH: &'static str = "/search/ajax-advanced/searching/albums";

/// The selector of a link.
pub const LINK: &'static str = "a";

/// How many rows of a search response are read.
pub const SEARCH_ROWS: usize = 4;

/// What the `url` crate gives for `input` resolved against `base`, as text;
/// `None` when either does not parse.
pub uninterp spec fn spec_url_join(base: Seq<char>, input: Seq<char>) -> Option<Seq<char>>;

/// What the `url` crate gives for `url` with the query pair `name=value`
/// appended, as text; `None` when `url` does not parse.
pub uninterp spec fn spec_url_append_pair(url: Seq<char>, name: Seq<char>, value: Seq<char>) -> Option<Seq<char>>;

/// Calls `url::Url::parse` on `base` and `url::Url::join` with `input`; the
/// text of the result is claimed to be `spec_url_join` of the two texts.
#[verifier::external_body]
fn url_join(base: &str, input: &str) -> (joined: Option<String>)
    ensures
        opt_view(joined) == spec_url_join(base@, input@),
{
    let base = url::Url::parse(base).ok()?;
    base.join(input).ok().map(|u| u.to_string())
}

/// Calls `url::Url::parse` on `url` and appends `name=value` to its query
/// with `url::Url::query_pairs_mut` and `append_pair`; the text of the result
/// is claimed to be `spec_url_append_pair` of the three texts.
#[verifier::external_body]
fn url_append_pair(url: &str, name: &str, value: &str) -> (appended: Option<String>)
    ensures
        opt_view(appended) == spec_url_append_pair(url@, name@, value@),
{
    let mut url = url::Url::parse(url).ok()?;
    url.query_pairs_mut().append_pair(name, value);
    Some(url.to_string())
}

/// The search location `path` with the query pairs `first` and `second`.
pub open spec fn search_location(
    path: Seq<char>,
    first: (Seq<char>, Seq<char>),
    second: (Seq<char>, Seq<char>),
) -> Option<Seq<char>> {
    match spec_url_join(BASE_URI@, path) {
        None => None,
        Some(joined) => match spec_url_append_pair(joined, first.0, first.1) {
            None => None,
            Some(with_first) => spec_url_append_pair(with_first, second.0, second.1),
        },
    }
}

fn search_uri(path: &str, first: (&str, &str), second: (&str, &str)) -> (uri: Option<String>)
    ensures
        opt_view(uri) == search_location(path@, (first.0@, first.1@), (second.0@, second.1@)),
{
    let joined = url_join(BASE_URI, path)?;
    let with_first = url_append_pair(joined.as_str(), first.0, first.1)?;
    url_append_pair(with_first.as_str(), second.0, second.1)
}

/// A search location is the search path resolved against the site, with
/// the first query pair appended and then the second, whatever their values;
/// it exists exactly when each of these steps succeeds.
pub proof fn law_search_location_appends_both(
    path: Seq<char>,
    first: (Seq<char>, Seq<char>),
    second: (Seq<char>, Seq<char>),
)
    ensures
        spec_url_join(BASE_URI@, path) is None ==> search_location(path, first, second) is None,
        spec_url_join(BASE_URI@, path) matches Some(joined) ==> (spec_url_append_pair(joined, first.0, first.1)
            is None ==> search_location(path, first, second) is None),
        spec_url_join(BASE_URI@, path) matches Some(joined) ==> (spec_url_append_pair(joined, first.0, first.1)
            matches Some(with_first) ==> search_location(path, first, second) == spec_url_append_pair(
            with_first,
            second.0,
            second.1,
        )),
{
}

/// The location that searches artists by name.
pub fn band_search_uri(artist: &str) -> (uri: Option<String>)
    ensures
        opt_view(uri) == search_location(BAND_SEARCH@, ("field"@, "name"@), ("query"@, artist@)),
        match spec_url_join(BASE_URI@, BAND_SEARCH@) {
            None => opt_view(uri) is None,
            Some(joined) => match spec_url_append_pair(joined, "field"@, "name"@) {
                None => opt_view(uri) is None,
                Some(with_first) => opt_view(uri) == spec_url_append_pair(with_first, "query"@, artist@),
            },
        },
{
    proof { law_search_location_appends_both(BAND_SEARCH@, ("field"@, "name"@), ("query"@, artist@)); }
    search_uri(BAND_SEARCH, ("field", "name"), ("query", artist))
}

/// The location that searches albums by artist and title.
pub fn album_search_uri(artist: &str, album: &str) -> (uri: Option<String>)
    ensures
        opt_view(uri) == search_location(ALBUM_SEARCH@, ("bandName"@, artist@), ("releaseTitle"@, album@)),
        match spec_url_join(BASE_URI@, ALBUM_SEARCH@) {
            None => opt_view(uri) is None,
            Some(joined) => match spec_url_append_pair(joined, "bandName"@, artist@) {
                None => opt_view(uri) is None,
                Some(with_first) => opt_view(uri) == spec_url_append_pair(with_first, "releaseTitle"@, album@),
            },
        },
{
    proof { law_search_location_appends_both(ALBUM_SEARCH@, ("bandName"@, artist@), ("releaseTitle"@, album@)); }
    search_uri(ALBUM_SEARCH, ("bandName", artist), ("releaseTitle", album))
}

/// The rows of a search response that are read: the first `SEARCH_ROWS`.
pub open spec fn read_rows(rows: Seq<Vec<String>>) -> Seq<Vec<String>> {
    if rows.len() <= SEARCH_ROWS {
        rows
    } else {
        rows.take(SEARCH_ROWS as int)
    }
}

/// The text and link of the first link in an HTML fragment.
pub open spec fn first_link(fragment: Seq<char>) -> Result<(Seq<char>, Option<Seq<char>>), SearchFault> {
    match spec_select_in_fragment(fragment, LINK@) {
        None => Err(SearchFault::InvalidSelector),
        Some(found) => if found.len() == 0 {
            Err(SearchFault::MissingLink)
        } else {
            match found[0].0 {
                None => Err(SearchFault::MissingText),
                Some(text) => Ok((text, found[0].2)),
            }
        },
    }
}

fn read_first_link(fragment: &str) -> (link: Result<(String, Option<String>), SearchError>)
    ensures
        match (link, first_link(fragment@)) {
            (Ok((text, href)), Ok((t, h))) => text@ == t && opt_view(href) == h,
            (Err(e), Err(f)) => fault(e) == f,
            _ => false,
        },
{
    match select_in_fragment(fragment, LINK) {
        None => Err(SearchError::InvalidSelector),
        Some(found) => {
            if found.len() == 0 {
                Err(SearchError::MissingLink)
            } else {
                let first: &HtmlElement = &found[0];
                match &first.text {
                    None => Err(SearchError::MissingText),
                    Some(text) => Ok((text.clone(), first.href.clone())),
                }
            }
        },
    }
}

/// An artist search row read: name, genre, location and the link to the
/// artist's page. A row holds the artist's link, its genre and its location.
pub open spec fn artist_row(row: Seq<String>) -> Result<(Seq<char>, Seq<char>, Seq<char>, Option<Seq<char>>), SearchFault> {
    if row.len() != 3 {
        Err(SearchFault::UnexpectedRow)
    } else {
        match first_link(row[0]@) {
            Err(e) => Err(e),
            Ok((name, link)) => Ok((name, row[1]@, row[2]@, link)),
        }
    }
}

/// An album search row read: artist, album, album type and the link to the
/// album's page. A row holds the artist's link, the album's link and its type.
pub open spec fn album_row(row: Seq<String>) -> Result<(Seq<char>, Seq<char>, Seq<char>, Option<Seq<char>>), SearchFault> {
    if row.len() != 3 {
        Err(SearchFault::UnexpectedRow)
    } else {
        match first_link(row[1]@) {
            Err(e) => Err(e),
            Ok((album, link)) => match first_link(row[0]@) {
                Err(e) => Err(e),
                Ok((artist, _)) => Ok((artist, album, row[2]@, link)),
            },
        }
    }
}

/// Whether a read row agrees with its reading: the same fields, or the same
/// error (an unexpected row keeping the row itself).
pub open spec fn artist_read(
    row: Seq<String>,
    read: Result<(ArtistSearch, Option<String>), SearchError>,
) -> bool {
    match (read, artist_row(row)) {
        (Ok((found, link)), Ok((name, genre, location, href))) => found.name@ == name && found.genre@ == genre
            && found.location@ == location && opt_view(link) == href,
        (Err(SearchError::UnexpectedRow(kept)), Err(f)) => f == SearchFault::UnexpectedRow && kept@ == row,
        (Err(e), Err(f)) => fault(e) == f,
        _ => false,
    }
}

/// Whether a read album row agrees with its reading.
pub open spec fn album_read(
    row: Seq<String>,
    read: Result<(AlbumSearch, Option<String>), SearchError>,
) -> bool {
    match (read, album_row(row)) {
        (Ok((found, link)), Ok((artist, album, album_type, href))) => found.artist@ == artist && found.album@
            == album && found.album_type@ == album_type && opt_view(link) == href,
        (Err(SearchError::UnexpectedRow(kept)), Err(f)) => f == SearchFault::UnexpectedRow && kept@ == row,
        (Err(e), Err(f)) => fault(e) == f,
        _ => false,
    }
}

fn clone_row(row: &Vec<String>) -> (copy: Vec<String>)
    ensures
        copy@ == row@,
{
    let mut copy: Vec<String> = Vec::new();
    let mut i: usize = 0;
    while i < row.len()
        invariant
            i <= row@.len(),
            copy@ == row@.take(i as int),
        decreases row@.len() - i,
    {
        copy.push(row[i].clone());
        i = i + 1;
        assert(copy@ =~= row@.take(i as int));
    }
    assert(row@.take(row@.len() as int) =~= row@);
    copy
}

/// Reads one row of an artist search: the artist found and the link to its page.
pub fn artist_search_row(row: &Vec<String>) -> (read: Result<(ArtistSearch, Option<String>), SearchError>)
    ensures
        artist_read(row@, read),
{
    if row.len() != 3 {
        return Err(SearchError::UnexpectedRow(clone_row(row)));
    }
    match read_first_link(row[0].as_str()) {
        Err(e) => Err(e),
        Ok((name, link)) => Ok(
            (ArtistSearch { name, genre: row[1].clone(), location: row[2].clone() }, link),
        ),
    }
}

/// Reads one row of an album search: the album found and the link to its page.
pub fn album_search_row(row: &Vec<String>) -> (read: Result<(AlbumSearch, Option<String>), SearchError>)
    ensures
        album_read(row@, read),
{
    if row.len() != 3 {
        return Err(SearchError::UnexpectedRow(clone_row(row)));
    }
    match read_first_link(row[1].as_str()) {
        Err(e) => Err(e),
        Ok((album, link)) => match read_first_link(row[0].as_str()) {
            Err(e) => Err(e),
            Ok((artist, _)) => Ok((AlbumSearch { artist, album, album_type: row[2].clone() }, link)),
        },
    }
}

/// Reads the rows of an artist search response, the first `SEARCH_ROWS` of
/// them, in order.
pub fn artist_search_results(rows: &Vec<Vec<String>>) -> (results: Vec<Result<(ArtistSearch, Option<String>), SearchError>>)
    ensures
        results@.len() == read_rows(rows@).len(),
        forall|i: int| 0 <= i < results@.len() ==> artist_read(#[trigger] rows@[i]@, results@[i]),
{
    let count = if rows.len() < SEARCH_ROWS { rows.len() } else { SEARCH_ROWS };
    let mut results: Vec<Result<(ArtistSearch, Option<String>), SearchError>> = Vec::new();
    let mut i: usize = 0;
    while i < count
        invariant
            count <= rows@.len(),
            count == read_rows(rows@).len(),
            i <= count,
            results@.len() == i,
            forall|k: int| 0 <= k < i ==> artist_read(#[trigger] rows@[k]@, results@[k]),
        decreases count - i,
    {
        results.push(artist_search_row(&rows[i]));
        i = i + 1;
    }
    results
}

/// Reads the rows of an album search response, the first `SEARCH_ROWS` of
/// them, in order.
pub fn album_search_results(rows: &Vec<Vec<String>>) -> (results: Vec<Result<(AlbumSearch, Option<String>), SearchError>>)
    ensures
        results@.len() == read_rows(rows@).len(),
        forall|i: int| 0 <= i < results@.len() ==> album_read(#[trigger] rows@[i]@, results@[i]),
{
    let count = if rows.len() < SEARCH_ROWS { rows.len() } else { SEARCH_ROWS };
    let mut results: Vec<Result<(AlbumSearch, Option<String>), SearchError>> = Vec::new();
    let mut i: usize = 0;
    while i < count
        invariant
            count <= rows@.len(),
            count == read_rows(rows@).len(),
            i <= count,
            results@.len() == i,
            forall|k: int| 0 <= k < i ==> album_read(#[trigger] rows@[k]@, results@[k]),
        decreases count - i,
    {
        results.push(album_search_row(&rows[i]));
        i = i + 1;
    }
    results
}


/// The views of a list of strings.
pub open spec fn texts(v: Seq<String>) -> Seq<Seq<char>> {
    v.map_values(|s: String| s@)
}

/// The selector that matches elements by any of `ids`: `#id` for each,
/// separated by commas.
pub open spec fn id_selector_text(ids: Seq<Seq<char>>) -> Seq<char>
    decreases ids.len(),
{
    if ids.len() == 0 {
        Seq::empty()
    } else if ids.len() == 1 {
        seq!['#'] + ids[0]
    } else {
        id_selector_text(ids.drop_last()) + seq![',', '#'] + ids.last()
    }
}

/// The selector that matches elements by any of `ids`.
pub fn id_selector(ids: &Vec<String>) -> (selector: String)
    ensures
        selector@ == id_selector_text(texts(ids@)),
{
    let mut selector = String::new();
    let mut i: usize = 0;
    while i < ids.len()
        invariant
            i <= ids@.len(),
            selector@ == id_selector_text(texts(ids@.take(i as int))),
        decreases ids@.len() - i,
    {
        let ghost before = ids@.take(i as int);
        let ghost old_selector = selector@;
        proof { reveal_strlit("#"); reveal_strlit(","); }
        if i > 0 {
            selector.append(",");
        }
        selector.append("#");
        selector.append(ids[i].as_str());
        i = i + 1;
        proof {
            let now = ids@.take(i as int);
            let t = texts(now);
            assert(now.drop_last() =~= before);
            assert(t.drop_last() =~= texts(before));
            assert(t.len() == i);
            assert(t.last() == ids@[i - 1]@);
            if i == 1 {
                assert(old_selector =~= Seq::<char>::empty());
                assert(t[0] == ids@[0]@);
                assert(selector@ =~= seq!['#'] + t[0]);
            } else {
                assert(selector@ =~= old_selector + seq![',', '#'] + t.last());
            }
        }
    }
    assert(ids@.take(ids@.len() as int) =~= ids@);
    selector
}

/// Whether every matched element has an id and a link.
pub open spec fn complete(found: Seq<SpecElement>) -> bool {
    forall|i: int| 0 <= i < found.len() ==> (#[trigger] found[i]).1 is Some && found[i].2 is Some
}

/// The link of the last matched element with the id `id`.
pub open spec fn last_link(found: Seq<SpecElement>, id: Seq<char>) -> Option<Seq<char>>
    decreases found.len(),
{
    if found.len() == 0 {
        None
    } else if found.last().1 == Some(id) {
        found.last().2
    } else {
        last_link(found.drop_last(), id)
    }
}

/// Whether the id asked for at `k` was asked for before.
pub open spec fn asked_before(ids: Seq<Seq<char>>, k: int) -> bool {
    exists|j: int| 0 <= j < k && ids[j] == ids[k]
}

/// The link handed out for the `k`-th id asked for: the last element with
/// that id gives its link to the first request for it, and a later request
/// for the same id gets none.
pub open spec fn link_for(found: Seq<SpecElement>, ids: Seq<Seq<char>>, k: int) -> Option<Seq<char>> {
    if asked_before(ids, k) {
        None
    } else {
        last_link(found, ids[k])
    }
}

/// Whether `links` hands out the links of `found` for `ids`.
pub open spec fn links_handed_out(found: Seq<SpecElement>, ids: Seq<Seq<char>>, links: Seq<Option<String>>) -> bool {
    &&& links.len() == ids.len()
    &&& forall|k: int| 0 <= k < links.len() ==> opt_view(#[trigger] links[k]) == link_for(found, ids, k)
}

fn all_complete(found: &Vec<HtmlElement>) -> (ok: bool)
    ensures
        ok == complete(crate::html::elements_view(found@)),
{
    let mut i: usize = 0;
    while i < found.len()
        invariant
            i <= found@.len(),
            forall|j: int| 0 <= j < i ==> (#[trigger] found@[j]).id is Some && found@[j].href is Some,
        decreases found@.len() - i,
    {
        if found[i].id.is_none() || found[i].href.is_none() {
            proof {
                let v = crate::html::elements_view(found@);
                assert(!(v[i as int].1 is Some && v[i as int].2 is Some));
            }
            return false;
        }
        i = i + 1;
    }
    proof {
        let v = crate::html::elements_view(found@);
        assert forall|j: int| 0 <= j < v.len() implies (#[trigger] v[j]).1 is Some && v[j].2 is Some by {
            assert(found@[j].id is Some && found@[j].href is Some);
        }
    }
    true
}

fn was_asked_before(ids: &Vec<String>, k: usize) -> (before: bool)
    requires
        k < ids@.len(),
    ensures
        before == asked_before(texts(ids@), k as int),
{
    let mut j: usize = 0;
    while j < k
        invariant
            j <= k < ids@.len(),
            forall|m: int| 0 <= m < j ==> ids@[m]@ != ids@[k as int]@,
        decreases k - j,
    {
        if ids[j] == ids[k] {
            proof { assert(texts(ids@)[j as int] == texts(ids@)[k as int]); }
            return true;
        }
        j = j + 1;
    }
    proof {
        let t = texts(ids@);
        assert forall|m: int| 0 <= m < k implies t[m] != t[k as int] by {
            assert(ids@[m]@ != ids@[k as int]@);
        }
    }
    false
}

fn last_link_of(found: &Vec<HtmlElement>, id: &String) -> (link: Option<String>)
    ensures
        opt_view(link) == last_link(crate::html::elements_view(found@), id@),
{
    let ghost all = crate::html::elements_view(found@);
    let mut link: Option<String> = None;
    let mut i: usize = 0;
    while i < found.len()
        invariant
            i <= found@.len(),
            all == crate::html::elements_view(found@),
            opt_view(link) == last_link(all.take(i as int), id@),
        decreases found@.len() - i,
    {
        proof {
            assert(all.take(i + 1).drop_last() =~= all.take(i as int));
            assert(all.take(i + 1).last() == all[i as int]);
            assert(all[i as int] == crate::html::element_view(found@[i as int]));
        }
        let matches = match &found[i].id {
            Some(found_id) => found_id.eq(id),
            None => false,
        };
        if matches {
            link = found[i].href.clone();
        }
        i = i + 1;
    }
    assert(all.take(found@.len() as int) =~= all);
    link
}

/// The links of the matched elements handed out for the ids asked for, in
/// their order; an error when a matched element lacks its id or its link.
pub fn links_for_ids(found: &Vec<HtmlElement>, ids: &Vec<String>) -> (links: Result<Vec<Option<String>>, SearchError>)
    ensures
        match links {
            Ok(v) => complete(crate::html::elements_view(found@)) && links_handed_out(
                crate::html::elements_view(found@),
                texts(ids@),
                v@,
            ),
            Err(e) => !complete(crate::html::elements_view(found@)) && e is IncompleteElement,
        },
{
    if !all_complete(found) {
        return Err(SearchError::IncompleteElement);
    }
    let mut links: Vec<Option<String>> = Vec::new();
    let mut k: usize = 0;
    while k < ids.len()
        invariant
            k <= ids@.len(),
            links@.len() == k,
            forall|m: int| 0 <= m < k ==> opt_view(#[trigger] links@[m]) == link_for(
                crate::html::elements_view(found@),
                texts(ids@),
                m,
            ),
        decreases ids@.len() - k,
    {
        if was_asked_before(ids, k) {
            links.push(None);
        } else {
            let link = last_link_of(found, &ids[k]);
            proof { assert(texts(ids@)[k as int] == ids@[k as int]@); }
            links.push(link);
        }
        k = k + 1;
    }
    Ok(links)
}

/// A page's link for an id is handed out at most once, however often the id
/// is asked for.
pub proof fn law_link_handed_out_once(found: Seq<SpecElement>, ids: Seq<Seq<char>>, j: int, k: int)
    requires
        0 <= j < k < ids.len(),
        ids[j] == ids[k],
    ensures
        link_for(found, ids, k) is None,
{
    assert(asked_before(ids, k));
}

/// The links on a page for the ids asked for: the elements with those ids
/// hand out their links as `links_for_ids` says.
pub open spec fn page_links(page: Seq<char>, ids: Seq<Seq<char>>) -> Option<Seq<SpecElement>> {
    spec_select_in_document(page, id_selector_text(ids))
}

/// Reads, on the page of a search result, the links of the elements with
/// the ids asked for, in their order.
pub fn download_links(page: &str, ids: &Vec<String>) -> (links: Result<Vec<Option<String>>, SearchError>)
    ensures
        match page_links(page@, texts(ids@)) {
            None => links matches Err(e) && e is InvalidSelector,
            Some(found) => match links {
                Ok(v) => complete(found) && links_handed_out(found, texts(ids@), v@),
                Err(e) => !complete(found) && e is IncompleteElement,
            },
        },
{
    let selector = id_selector(ids);
    match select_in_document(page, selector.as_str()) {
        None => Err(SearchError::InvalidSelector),
        Some(found) => links_for_ids(&found, ids),
    }
}

} // verus!
