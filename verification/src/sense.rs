//! One sense of a dictionary entry, and the text it is shown as.

use crate::text::{first_or_empty, first_text, join_text, joined};
use vstd::prelude::*;
use vstd::string::StringExecFns;

verus! {

/// Stands between the definition of a sense and its example lines.
pub const EXAMPLES_HEADING: &'static str = "\n\n Examples:\n";

/// Joins the text nodes of a definition.
pub const DEFINITION_GAP: &'static str = " ";

/// Joins the text nodes of one example, and ends its line.
pub const LINE_END: &'static str = "\n";

/// What a sense element of a page holds, as far as a lookup reads it: the
/// text nodes of its parts, the parts in the order in which they were found
/// and the text nodes of each in document order.
#[derive(Debug, Clone, PartialEq, Eq)]
pub struct SenseNode {
    /// One entry for each label element, holding its text nodes.
    pub labels: Vec<Vec<String>>,
    /// One entry for each definition element, holding its text nodes.
    pub definitions: Vec<Vec<String>>,
    /// One entry for each item of an examples list, holding its text nodes.
    pub examples: Vec<Vec<String>>,
}

/// The mathematical content of a [`SenseNode`].
pub ghost struct SenseView {
    pub labels: Seq<Seq<Seq<char>>>,
    pub definitions: Seq<Seq<Seq<char>>>,
    pub examples: Seq<Seq<Seq<char>>>,
}

impl View for SenseNode {
    type V = SenseView;

    open spec fn view(&self) -> SenseView {
        SenseView {
            labels: self.labels.deep_view(),
            definitions: self.definitions.deep_view(),
            examples: self.examples.deep_view(),
        }
    }
}

impl DeepView for SenseNode {
    type V = SenseView;

    open spec fn deep_view(&self) -> SenseView {
        self@
    }
}

/// The label of a sense: the first text node of its first label element.
/// Further label elements are ignored, and so are further text nodes.
pub open spec fn label_text(labels: Seq<Seq<Seq<char>>>) -> Seq<char> {
    if labels.len() == 0 {
        Seq::empty()
    } else {
        first_or_empty(labels[0])
    }
}

/// The definition of a sense: the text nodes of its first definition element,
/// a single space between each two. Further definition elements are ignored.
pub open spec fn definition_text(definitions: Seq<Seq<Seq<char>>>) -> Seq<char> {
    if definitions.len() == 0 {
        Seq::empty()
    } else {
        joined(definitions[0], DEFINITION_GAP@)
    }
}

/// One line for each example: its text nodes with a newline between each two,
/// and a newline at the end.
pub open spec fn example_lines(examples: Seq<Seq<Seq<char>>>) -> Seq<char>
    decreases examples.len(),
{
    if examples.len() == 0 {
        Seq::empty()
    } else {
        example_lines(examples.drop_last()) + joined(examples.last(), LINE_END@) + LINE_END@
    }
}

/// The text a sense is shown as: label, definition, heading and example
/// lines, in this order and with nothing between them.
pub open spec fn formatted_sense(sense: SenseView) -> Seq<char> {
    label_text(sense.labels) + definition_text(sense.definitions) + EXAMPLES_HEADING@
        + example_lines(sense.examples)
}

/// The texts of several senses, each at the place of its sense.
pub open spec fn formatted_senses(senses: Seq<SenseView>) -> Seq<Seq<char>> {
    Seq::new(senses.len(), |i: int| formatted_sense(senses[i]))
}

/// The text of a label element, given its text nodes: the first of them, or
/// the empty string.
pub fn process_label(label: &Vec<String>) -> (label_first: String)
    ensures
        label_first@ == first_or_empty(label.deep_view()),
{
    first_text(label)
}

/// The example lines of a sense, given the text nodes of each example.
pub fn process_examples_ul(examples: &Vec<Vec<String>>) -> (res: String)
    ensures
        res@ == example_lines(examples.deep_view()),
{
    let mut res = String::new();
    let mut i: usize = 0;
    while i < examples.len()
        invariant
            i <= examples.len(),
            res@ == example_lines(examples.deep_view().take(i as int)),
        decreases examples.len() - i,
    {
        let line = join_text(&examples[i], LINE_END);
        res.append(line.as_str());
        res.append(LINE_END);
        proof {
            let all = examples.deep_view();
            assert(all.take(i + 1).drop_last() == all.take(i as int));
            assert(all.take(i + 1).last() == examples[i as int].deep_view());
        }
        i += 1;
    }
    proof {
        assert(examples.deep_view().take(i as int) == examples.deep_view());
    }
    res
}

/// Formats one sense.
pub fn handle_sense_html(element: &SenseNode) -> (res: String)
    ensures
        res@ == formatted_sense(element@),
{
    let mut res = String::new();
    if element.labels.len() > 0 {
        let label = process_label(&element.labels[0]);
        res.append(label.as_str());
    }
    if element.definitions.len() > 0 {
        let definition = join_text(&element.definitions[0], DEFINITION_GAP);
        res.append(definition.as_str());
    }
    res.append(EXAMPLES_HEADING);
    let examples = process_examples_ul(&element.examples);
    res.append(examples.as_str());
    res
}

/// Formats each sense, in the order given.
pub fn get_meanings(meanings_html: &Vec<SenseNode>) -> (res: Vec<String>)
    ensures
        res.deep_view() == formatted_senses(meanings_html.deep_view()),
{
    let mut res: Vec<String> = Vec::new();
    let mut i: usize = 0;
    while i < meanings_html.len()
        invariant
            i <= meanings_html.len(),
            res.deep_view() == formatted_senses(meanings_html.deep_view().take(i as int)),
        decreases meanings_html.len() - i,
    {
        let ghost before = res.deep_view();
        let sense_string = handle_sense_html(&meanings_html[i]);
        res.push(sense_string);
        proof {
            let all = meanings_html.deep_view();
            assert(res.deep_view() =~= before.push(formatted_sense(all[i as int])));
            assert(res.deep_view() =~= formatted_senses(all.take(i + 1)));
        }
        i += 1;
    }
    proof {
        assert(meanings_html.deep_view().take(i as int) == meanings_html.deep_view());
    }
    res
}

} // verus!
