//! What holds of every page and every sense, proved from the definitions.

use crate::document::{classified, suggested_words, DocumentView, ParseLinkResultView};
use crate::markup::{document_matches, fragment_texts};
use crate::page::{document_of, RESULT_LIST_SELECTOR, SENSE_SELECTOR, SUGGESTION_SELECTOR};
use crate::sense::{formatted_sense, formatted_senses, SenseNode, SenseView};
use crate::text::first_or_empty;
use vstd::prelude::*;

verus! {

/// A page with at least one sense answers with meanings, one for each sense
/// and in their order, whether or not it also holds a result list.
pub proof fn senses_answer_with_meanings(document: DocumentView)
    requires
        document.senses.len() >= 1,
    ensures
        classified(document) == ParseLinkResultView::MeaningsList(
            formatted_senses(document.senses),
        ),
        formatted_senses(document.senses).len() == document.senses.len(),
        forall|i: int|
            0 <= i < document.senses.len() ==> #[trigger] formatted_senses(document.senses)[i]
                == formatted_sense(document.senses[i]),
{
}

/// A page without a sense and with a result list answers with the words of
/// its suggestion links, one for each link and in their order. A result list
/// without links answers with no words, which is not the empty answer.
pub proof fn result_list_answers_with_suggestions(
    document: DocumentView,
    links: Seq<Seq<Seq<char>>>,
)
    requires
        document.senses.len() == 0,
        document.result_list == Some(links),
    ensures
        classified(document) == ParseLinkResultView::ResultList(suggested_words(links)),
        classified(document) != ParseLinkResultView::Empty,
        suggested_words(links).len() == links.len(),
        forall|i: int|
            0 <= i < links.len() ==> #[trigger] suggested_words(links)[i] == first_or_empty(
                links[i],
            ),
{
}

/// A page without a sense and without a result list gives the empty answer,
/// and no other page does.
pub proof fn empty_answer_means_neither(document: DocumentView)
    ensures
        classified(document) == ParseLinkResultView::Empty <==> document.senses.len() == 0
            && document.result_list is None,
{
}

/// Every answer is well formed: a list of meanings is never empty.
pub proof fn answers_are_well_formed(document: DocumentView)
    ensures
        classified(document).well_formed(),
{
}

/// The text of a sense depends on what the sense holds and on nothing else:
/// two senses that hold the same are shown as the same text, so formatting
/// one sense twice gives one text.
pub proof fn formatting_is_deterministic(first: SenseNode, second: SenseNode)
    requires
        first@ == second@,
    ensures
        formatted_sense(first@) == formatted_sense(second@),
{
}

/// Meanings follow their senses: putting senses before or after others
/// changes neither their meanings nor the order of these.
pub proof fn meanings_keep_their_order(before: Seq<SenseView>, after: Seq<SenseView>)
    ensures
        formatted_senses(before + after) == formatted_senses(before) + formatted_senses(after),
{
    assert(formatted_senses(before + after) =~= formatted_senses(before) + formatted_senses(
        after,
    ));
}

/// Taking a sense away takes its meaning away and leaves the others where
/// they were, relative to each other.
pub proof fn meanings_without_one_sense(senses: Seq<SenseView>, at: int)
    requires
        0 <= at < senses.len(),
    ensures
        formatted_senses(senses.remove(at)) == formatted_senses(senses).remove(at),
{
    assert(formatted_senses(senses.remove(at)) =~= formatted_senses(senses).remove(at));
}

/// Suggested words follow their links: putting links before or after others
/// changes neither their words nor the order of these.
pub proof fn suggestions_keep_their_order(
    before: Seq<Seq<Seq<char>>>,
    after: Seq<Seq<Seq<char>>>,
)
    ensures
        suggested_words(before + after) == suggested_words(before) + suggested_words(after),
{
    assert(suggested_words(before + after) =~= suggested_words(before) + suggested_words(after));
}

/// Taking a link away takes its word away and leaves the others where they
/// were, relative to each other.
pub proof fn suggestions_without_one_link(links: Seq<Seq<Seq<char>>>, at: int)
    requires
        0 <= at < links.len(),
    ensures
        suggested_words(links.remove(at)) == suggested_words(links).remove(at),
{
    assert(suggested_words(links.remove(at)) =~= suggested_words(links).remove(at));
}

/// What a page with senses answers does not depend on anything but them.
pub proof fn meanings_ignore_the_rest(first: DocumentView, second: DocumentView)
    requires
        first.senses == second.senses,
        first.senses.len() >= 1,
    ensures
        classified(first) == classified(second),
{
}

/// A page in whose markup the sense selector finds elements answers with
/// one meaning for each of them.
pub proof fn markup_with_senses(body: Seq<char>)
    requires
        document_matches(body, SENSE_SELECTOR@).len() >= 1,
    ensures
        classified(document_of(body)) matches ParseLinkResultView::MeaningsList(meanings)
            && meanings.len() == document_matches(body, SENSE_SELECTOR@).len(),
{
}

/// A page in whose markup the sense selector finds nothing and the result
/// list selector finds a list answers with one word for each suggestion link
/// of the first such list.
pub proof fn markup_with_result_list(body: Seq<char>)
    requires
        document_matches(body, SENSE_SELECTOR@).len() == 0,
        document_matches(body, RESULT_LIST_SELECTOR@).len() >= 1,
    ensures
        classified(document_of(body)) matches ParseLinkResultView::ResultList(words)
            && words.len() == fragment_texts(
            document_matches(body, RESULT_LIST_SELECTOR@)[0],
            SUGGESTION_SELECTOR@,
        ).len(),
{
}

/// A page in whose markup neither selector finds anything gives the empty
/// answer.
pub proof fn markup_with_neither(body: Seq<char>)
    requires
        document_matches(body, SENSE_SELECTOR@).len() == 0,
        document_matches(body, RESULT_LIST_SELECTOR@).len() == 0,
    ensures
        classified(document_of(body)) == ParseLinkResultView::Empty,
{
}

} // verus!
