//! From the markup of a search page to what a lookup reads of it.

use crate::document::{classified, classify, Document, DocumentView, ParseLinkResult};
use crate::markup::{
    document_matches, fragment_texts, select_in_document, select_text_in_fragment,
    selector_accepted, selector_compiles,
};
use crate::sense::{SenseNode, SenseView};
use vstd::prelude::*;

verus! {

/// Selects the list that holds suggested spellings.
pub const RESULT_LIST_SELECTOR: &'static str = "ul.result-list";

/// Selects, inside a result list, the link of each suggested spelling.
pub const SUGGESTION_SELECTOR: &'static str = "li > a.dym-link";

/// Selects the senses of an entry.
pub const SENSE_SELECTOR: &'static str = "li.sense";

/// Selects, inside a sense, its label.
pub const LABEL_SELECTOR: &'static str = "span.labels";

/// Selects, inside a sense, its definition.
pub const DEFINITION_SELECTOR: &'static str = "span.def";

/// Selects, inside a sense, the items of its examples list.
pub const EXAMPLE_SELECTOR: &'static str = "ul.examples > li";

/// The selectors that a sense is read with can be used.
pub open spec fn sense_selectors_accepted() -> bool {
    &&& selector_accepted(LABEL_SELECTOR@)
    &&& selector_accepted(DEFINITION_SELECTOR@)
    &&& selector_accepted(EXAMPLE_SELECTOR@)
}

/// All selectors that a page is read with can be used.
pub open spec fn selectors_accepted() -> bool {
    &&& selector_accepted(RESULT_LIST_SELECTOR@)
    &&& selector_accepted(SUGGESTION_SELECTOR@)
    &&& selector_accepted(SENSE_SELECTOR@)
    &&& sense_selectors_accepted()
}

/// What a lookup reads of a sense, given the markup of its element.
pub open spec fn sense_of(fragment: Seq<char>) -> SenseView {
    SenseView {
        labels: fragment_texts(fragment, LABEL_SELECTOR@),
        definitions: fragment_texts(fragment, DEFINITION_SELECTOR@),
        examples: fragment_texts(fragment, EXAMPLE_SELECTOR@),
    }
}

/// What a lookup reads of each sense, given the markup of their elements.
pub open spec fn senses_of(fragments: Seq<Seq<char>>) -> Seq<SenseView> {
    Seq::new(fragments.len(), |i: int| sense_of(fragments[i]))
}

/// What a lookup reads of a page, given its markup. Of several result lists
/// only the first is read.
pub open spec fn document_of(body: Seq<char>) -> DocumentView {
    let lists = document_matches(body, RESULT_LIST_SELECTOR@);
    DocumentView {
        senses: senses_of(document_matches(body, SENSE_SELECTOR@)),
        result_list: if lists.len() == 0 {
            None
        } else {
            Some(fragment_texts(lists[0], SUGGESTION_SELECTOR@))
        },
    }
}

/// Tells whether all selectors that a page is read with can be used. They
/// are fixed, so one call settles it for every page.
pub fn selectors_ready() -> (ready: bool)
    ensures
        ready == selectors_accepted(),
{
    selector_compiles(RESULT_LIST_SELECTOR) && selector_compiles(SUGGESTION_SELECTOR)
        && selector_compiles(SENSE_SELECTOR) && selector_compiles(LABEL_SELECTOR)
        && selector_compiles(DEFINITION_SELECTOR) && selector_compiles(EXAMPLE_SELECTOR)
}

/// Reads a sense from the markup of its element.
pub fn read_sense(fragment: &str) -> (sense: SenseNode)
    requires
        sense_selectors_accepted(),
    ensures
        sense@ == sense_of(fragment@),
{
    SenseNode {
        labels: select_text_in_fragment(fragment, LABEL_SELECTOR),
        definitions: select_text_in_fragment(fragment, DEFINITION_SELECTOR),
        examples: select_text_in_fragment(fragment, EXAMPLE_SELECTOR),
    }
}

/// Reads the senses and the first result list of a page from its markup.
pub fn read_document(body: &str) -> (document: Document)
    requires
        selectors_accepted(),
    ensures
        document@ == document_of(body@),
{
    let lists = select_in_document(body, RESULT_LIST_SELECTOR);
    let result_list = if lists.len() == 0 {
        None
    } else {
        Some(select_text_in_fragment(lists[0].as_str(), SUGGESTION_SELECTOR))
    };
    let fragments = select_in_document(body, SENSE_SELECTOR);
    let mut senses: Vec<SenseNode> = Vec::new();
    let mut i: usize = 0;
    while i < fragments.len()
        invariant
            selectors_accepted(),
            i <= fragments.len(),
            senses.deep_view() == senses_of(fragments.deep_view().take(i as int)),
        decreases fragments.len() - i,
    {
        let ghost before = senses.deep_view();
        let sense = read_sense(fragments[i].as_str());
        senses.push(sense);
        proof {
            let all = fragments.deep_view();
            assert(senses.deep_view() =~= before.push(sense_of(all[i as int])));
            assert(senses.deep_view() =~= senses_of(all.take(i + 1)));
        }
        i += 1;
    }
    proof {
        assert(fragments.deep_view().take(i as int) == fragments.deep_view());
    }
    Document { senses, result_list }
}

/// Answers a lookup from the markup of its search page: `None` where the
/// selectors cannot be used, else what the page answers.
pub fn parse_page(body: &str) -> (answer: Option<ParseLinkResult>)
    ensures
        answer is Some <==> selectors_accepted(),
        answer matches Some(result) ==> result@ == classified(document_of(body@))
            && result@.well_formed(),
{
    if !selectors_ready() {
        return None;
    }
    let document = read_document(body);
    Some(classify(&document))
}

} // verus!
