//! Queries on markup. The `scraper` crate answers them: it reads the markup
//! into a tree and matches CSS selectors against it. Nothing in this module
//! is proved; each function states what is taken on trust.

use vstd::prelude::*;

verus! {

/// Whether `scraper::Selector::parse` takes `selector` for a selector group.
pub uninterp spec fn selector_accepted(selector: Seq<char>) -> bool;

/// The elements that `selector` matches in `markup`, read as a whole
/// document: each as the markup `scraper::ElementRef::html` writes for it,
/// in the order in which `scraper::Html::select` yields them.
pub uninterp spec fn document_matches(markup: Seq<char>, selector: Seq<char>) -> Seq<Seq<char>>;

/// The elements that `selector` matches in `markup`, read as a fragment:
/// each as the text nodes below it that `scraper::ElementRef::text` yields,
/// in the order in which `scraper::Html::select` yields the elements.
pub uninterp spec fn fragment_texts(markup: Seq<char>, selector: Seq<char>) -> Seq<
    Seq<Seq<char>>,
>;

/// Calls `scraper::Selector::parse` and tells whether it returned a selector.
/// Taken on trust: the answer depends on the selector's text alone.
#[verifier::external_body]
pub(crate) fn selector_compiles(selector: &str) -> (accepted: bool)
    ensures
        accepted == selector_accepted(selector@),
{
    scraper::Selector::parse(selector).is_ok()
}

/// Reads `markup` with `scraper::Html::parse_document`, runs
/// `scraper::Html::select` with `selector` over it and writes each element
/// found with `scraper::ElementRef::html`. Taken on trust: the elements found
/// and their order depend on the two texts alone. A selector that is not
/// accepted is left out, since there is nothing to select with.
#[verifier::external_body]
pub(crate) fn select_in_document(markup: &str, selector: &str) -> (found: Vec<String>)
    requires
        selector_accepted(selector@),
    ensures
        found.deep_view() == document_matches(markup@, selector@),
{
    let compiled = scraper::Selector::parse(selector).unwrap();
    let document = scraper::Html::parse_document(markup);
    document.select(&compiled).map(|element| element.html()).collect()
}

/// Reads `markup` with `scraper::Html::parse_fragment`, runs
/// `scraper::Html::select` with `selector` over it and collects the text
/// nodes of each element found with `scraper::ElementRef::text`. Taken on
/// trust: the elements found, their text nodes and the order of both depend
/// on the two texts alone. A selector that is not accepted is left out.
#[verifier::external_body]
pub(crate) fn select_text_in_fragment(markup: &str, selector: &str) -> (found: Vec<Vec<String>>)
    requires
        selector_accepted(selector@),
    ensures
        found.deep_view() == fragment_texts(markup@, selector@),
{
    let compiled = scraper::Selector::parse(selector).unwrap();
    let fragment = scraper::Html::parse_fragment(markup);
    fragment.select(&compiled).map(|element| element.text().map(String::from).collect()).collect()
}

} // verus!
