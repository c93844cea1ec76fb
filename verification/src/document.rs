//! A search page as a lookup reads it, and the decision what it answers.

use crate::sense::{formatted_senses, get_meanings, SenseNode, SenseView};
use crate::text::{first_or_empty, first_text};
use vstd::prelude::*;

verus! {

/// What a lookup found.
#[derive(Debug, Clone, PartialEq, Eq)]
pub enum ParseLinkResult {
    /// The word was not found, and the page suggests these spellings instead
    /// (possibly none), in the order of the page.
    ResultList(Vec<String>),
    /// The word was found: one text for each of its senses, in the order of
    /// the page. There is at least one.
    MeaningsList(Vec<String>),
    /// The page holds neither senses nor a list of suggestions.
    Empty,
}

/// The mathematical content of a [`ParseLinkResult`].
pub ghost enum ParseLinkResultView {
    ResultList(Seq<Seq<char>>),
    MeaningsList(Seq<Seq<char>>),
    Empty,
}

impl View for ParseLinkResult {
    type V = ParseLinkResultView;

    open spec fn view(&self) -> ParseLinkResultView {
        match self {
            ParseLinkResult::ResultList(words) => ParseLinkResultView::ResultList(
                words.deep_view(),
            ),
            ParseLinkResult::MeaningsList(meanings) => ParseLinkResultView::MeaningsList(
                meanings.deep_view(),
            ),
            ParseLinkResult::Empty => ParseLinkResultView::Empty,
        }
    }
}

impl ParseLinkResultView {
    /// A list of meanings is never empty.
    pub open spec fn well_formed(self) -> bool {
        self matches ParseLinkResultView::MeaningsList(meanings) ==> meanings.len() > 0
    }
}

/// What a search page holds, as far as a lookup reads it.
#[derive(Debug, Clone, PartialEq, Eq)]
pub struct Document {
    /// The sense elements of the page, in the order in which they were found.
    pub senses: Vec<SenseNode>,
    /// The suggestion links of the first result list of the page, in the
    /// order in which they were found and each given by its text nodes;
    /// `None` where the page has no result list.
    pub result_list: Option<Vec<Vec<String>>>,
}

/// The mathematical content of a [`Document`].
pub ghost struct DocumentView {
    pub senses: Seq<SenseView>,
    pub result_list: Option<Seq<Seq<Seq<char>>>>,
}

impl View for Document {
    type V = DocumentView;

    open spec fn view(&self) -> DocumentView {
        DocumentView {
            senses: self.senses.deep_view(),
            result_list: self.result_list.deep_view(),
        }
    }
}

/// The spelling each suggestion link shows: its first text node, or the
/// empty text where it has none.
pub open spec fn suggested_words(links: Seq<Seq<Seq<char>>>) -> Seq<Seq<char>> {
    Seq::new(links.len(), |i: int| first_or_empty(links[i]))
}

/// The suggestions of a page: `None` without a result list, else the words
/// of its links.
pub open spec fn result_list_of(document: DocumentView) -> Option<Seq<Seq<char>>> {
    match document.result_list {
        Some(links) => Some(suggested_words(links)),
        None => None,
    }
}

/// The meanings of a page: `None` without a sense, else the text of each.
pub open spec fn meanings_of(document: DocumentView) -> Option<Seq<Seq<char>>> {
    if document.senses.len() == 0 {
        None
    } else {
        Some(formatted_senses(document.senses))
    }
}

/// The answer of a page. Senses come before suggestions: a page that holds
/// both answers with its senses.
pub open spec fn classified(document: DocumentView) -> ParseLinkResultView {
    match meanings_of(document) {
        Some(meanings) => ParseLinkResultView::MeaningsList(meanings),
        None => match result_list_of(document) {
            Some(words) => ParseLinkResultView::ResultList(words),
            None => ParseLinkResultView::Empty,
        },
    }
}

/// The suggested spellings of a page, where it has a result list.
pub fn parse_result_list_by_document(document: &Document) -> (found: Option<Vec<String>>)
    ensures
        found.deep_view() == result_list_of(document@),
{
    match &document.result_list {
        Some(links) => {
            let mut res: Vec<String> = Vec::new();
            let mut i: usize = 0;
            while i < links.len()
                invariant
                    i <= links.len(),
                    res.deep_view() == suggested_words(links.deep_view().take(i as int)),
                decreases links.len() - i,
            {
                let ghost before = res.deep_view();
                let word = first_text(&links[i]);
                res.push(word);
                proof {
                    let all = links.deep_view();
                    assert(res.deep_view() =~= before.push(first_or_empty(all[i as int])));
                    assert(res.deep_view() =~= suggested_words(all.take(i + 1)));
                }
                i += 1;
            }
            proof {
                assert(links.deep_view().take(i as int) == links.deep_view());
            }
            Some(res)
        },
        None => None,
    }
}

/// The meanings of a page, where it has a sense.
pub fn parse_meanings_by_document(document: &Document) -> (found: Option<Vec<String>>)
    ensures
        found.deep_view() == meanings_of(document@),
{
    if document.senses.len() == 0 {
        return None;
    }
    Some(get_meanings(&document.senses))
}

/// Decides what a page answers: with its senses where it has any, else with
/// the suggestions of its result list where it has one, else with nothing.
pub fn classify(document: &Document) -> (result: ParseLinkResult)
    ensures
        result@ == classified(document@),
        result@.well_formed(),
        document@.senses.len() > 0 ==> result@ == ParseLinkResultView::MeaningsList(
            formatted_senses(document@.senses),
        ) && formatted_senses(document@.senses).len() == document@.senses.len(),
        document@.senses.len() == 0 ==> (document@.result_list matches Some(links) ==> result@
            == ParseLinkResultView::ResultList(suggested_words(links)) && suggested_words(
            links,
        ).len() == links.len()),
        document@.senses.len() == 0 && document@.result_list is None ==> result@
            == ParseLinkResultView::Empty,
{
    let result_list_res = parse_result_list_by_document(document);
    let meanings_list_res = parse_meanings_by_document(document);
    if let Some(meaning_res) = meanings_list_res {
        return ParseLinkResult::MeaningsList(meaning_res);
    }
    if let Some(result_res) = result_list_res {
        return ParseLinkResult::ResultList(result_res);
    }
    ParseLinkResult::Empty
}

} // verus!
