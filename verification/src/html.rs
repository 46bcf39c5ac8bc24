//! What the metadata logic reads of HTML, through the `scraper` crate.
use vstd::prelude::*;

verus! {

/// An element that a selector matched, as plain text: its first child node
/// when that is text, its `id` and its `href` attribute.
#[derive(Debug)]
pub struct HtmlElement {
    pub text: Option<String>,
    pub id: Option<String>,
    pub href: Option<String>,
}

/// The text, id and href of a matched element.
pub type SpecElement = (Option<Seq<char>>, Option<Seq<char>>, Option<Seq<char>>);

/// An optional string by its view.
pub open spec fn opt_view(s: Option<String>) -> Option<Seq<char>> {
    match s {
        Some(t) => Some(t@),
        None => None,
    }
}

/// A matched element by its view.
pub open spec fn element_view(e: HtmlElement) -> SpecElement {
    (opt_view(e.text), opt_view(e.id), opt_view(e.href))
}

/// Matched elements by their views.
pub open spec fn elements_view(es: Seq<HtmlElement>) -> Seq<SpecElement> {
    es.map_values(|e: HtmlElement| element_view(e))
}

/// What `scraper` selects, in the order in which `Html::select` walks its
/// tree, with `selector` in `fragment`
/// parsed as an HTML fragment; `None` when the selector does not parse.
pub uninterp spec fn spec_select_in_fragment(fragment: Seq<char>, selector: Seq<char>) -> Option<Seq<SpecElement>>;

/// What `scraper` selects, in the order in which `Html::select` walks its
/// tree, with `selector` in `document`
/// parsed as an HTML document; `None` when the selector does not parse.
pub uninterp spec fn spec_select_in_document(document: Seq<char>, selector: Seq<char>) -> Option<Seq<SpecElement>>;

/// Calls `scraper::Html::parse_fragment` and, with the selector that
/// `scraper::Selector::parse` makes of `selector`, `Html::select`, and reads
/// each match's first child as text, its id and its href. The result is
/// claimed to be `spec_select_in_fragment` of the two texts.
#[verifier::external_body]
pub(crate) fn select_in_fragment(fragment: &str, selector: &str) -> (found: Option<Vec<HtmlElement>>)
    ensures
        found matches Some(v) ==> spec_select_in_fragment(fragment@, selector@) == Some(elements_view(v@)),
        found is None ==> spec_select_in_fragment(fragment@, selector@) is None,
{
    let selector = scraper::Selector::parse(selector).ok()?;
    let html = scraper::Html::parse_fragment(fragment);
    Some(html.select(&selector).map(|e| HtmlElement {
        text: e.first_child().and_then(|c| c.value().as_text().map(|t| t.to_string())),
        id: e.value().id().map(|i| i.to_string()),
        href: e.value().attr("href").map(|h| h.to_string()),
    }).collect())
}

/// Calls `scraper::Html::parse_document` and, with the selector that
/// `scraper::Selector::parse` makes of `selector`, `Html::select`, and reads
/// each match's first child as text, its id and its href. The result is
/// claimed to be `spec_select_in_document` of the two texts.
#[verifier::external_body]
pub(crate) fn select_in_document(document: &str, selector: &str) -> (found: Option<Vec<HtmlElement>>)
    ensures
        found matches Some(v) ==> spec_select_in_document(document@, selector@) == Some(elements_view(v@)),
        found is None ==> spec_select_in_document(document@, selector@) is None,
{
    let selector = scraper::Selector::parse(selector).ok()?;
    let html = scraper::Html::parse_document(document);
    Some(html.select(&selector).map(|e| HtmlElement {
        text: e.first_child().and_then(|c| c.value().as_text().map(|t| t.to_string())),
        id: e.value().id().map(|i| i.to_string()),
        href: e.value().attr("href").map(|h| h.to_string()),
    }).collect())
}

} // verus!
