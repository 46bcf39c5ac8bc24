//! What the artist, album and song pages show and carry.
use std::sync::Arc;
use vstd::prelude::*;
use vstd::string::*;
use crate::decimal::{signed_decimal, signed_digits};

verus! {

/// The years of an album: one year when its songs agree, else the range.
pub open spec fn year_text(min_year: i32, max_year: i32) -> Seq<char> {
    if min_year == max_year {
        signed_digits(min_year as int)
    } else {
        signed_digits(min_year as int) + " to "@ + signed_digits(max_year as int)
    }
}

/// The year line of an album row, from the least and greatest year of its
/// songs; none when its songs have no year.
pub fn year_label(min_year: Option<i32>, max_year: Option<i32>) -> (label: Option<String>)
    requires
        min_year is Some ==> max_year is Some,
    ensures
        match min_year {
            None => label is None,
            Some(low) => label matches Some(l) && l@ == year_text(low, max_year->0),
        },
{
    match min_year {
        None => None,
        Some(low) => {
            let high = max_year.unwrap();
            if low == high {
                Some(signed_decimal(low as i64))
            } else {
                proof { reveal_strlit(" to "); }
                let text = signed_decimal(low as i64).concat(" to ");
                Some(text.concat(signed_decimal(high as i64).as_str()))
            }
        },
    }
}

/// The parameters of an albums page, last first: the artist, then the artist's image path.
pub fn album_page_params(params: Vec<Option<Arc<String>>>) -> (split: (Option<Arc<String>>, Option<Arc<String>>))
    requires
        params@.len() >= 2,
    ensures
        split == (params@[params@.len() - 1], params@[params@.len() - 2]),
{
    let mut params = params;
    let last = params.pop().unwrap();
    let before = params.pop().unwrap();
    (last, before)
}

/// The parameters of a songs page, last first: the album, the artist, then the cover path.
pub fn song_page_params(params: Vec<Option<Arc<String>>>)
    -> (split: (Option<Arc<String>>, Option<Arc<String>>, Option<Arc<String>>))
    requires
        params@.len() >= 3,
    ensures
        split == (params@[params@.len() - 1], params@[params@.len() - 2], params@[params@.len() - 3]),
{
    let mut params = params;
    let last = params.pop().unwrap();
    let middle = params.pop().unwrap();
    let first = params.pop().unwrap();
    (last, middle, first)
}

/// The action group of a page.
pub const NAVIGATION_PAGE: &'static str = "navigation_page";

/// The full name of a page action.
pub fn action_name(name: &str) -> (full: String)
    ensures
        full@ == NAVIGATION_PAGE@ + seq!['.'] + name@,
{
    proof { reveal_strlit("."); }
    let group = String::from_str(NAVIGATION_PAGE);
    let dotted = group.concat(".");
    dotted.concat(name)
}

/// The label of a menu button that downloads `what`.
pub fn download_label(what: &str) -> (label: String)
    ensures
        label@ == "Download "@ + what@,
{
    let label = String::from_str("Download ");
    label.concat(what)
}

/// The heading of the dialog that offers the downloaded `what`.
pub fn download_heading(what: &str) -> (heading: String)
    ensures
        heading@ == "Choose the correct "@ + what@,
{
    let heading = String::from_str("Choose the correct ");
    heading.concat(what)
}

/// The heading of a merge of `entity`s, on its menu button and dialog.
pub fn merge_heading(entity: &str) -> (heading: String)
    ensures
        heading@ == "Merge "@ + entity@ + seq!['s'],
{
    proof { reveal_strlit("s"); }
    let heading = String::from_str("Merge ");
    heading.concat(entity).concat("s")
}

/// The description of the dialog that asks which name a merge keeps.
pub fn merge_description(entity: &str) -> (description: String)
    ensures
        description@ == "Choose the correct "@ + entity@ + " name"@,
{
    let description = String::from_str("Choose the correct ");
    description.concat(entity).concat(" name")
}

} // verus!
