use oxford_lookup::sense::{
    get_meanings, handle_sense_html, process_examples_ul, process_label, SenseNode,
};
use oxford_lookup::text::{first_text, join_text};

fn texts(parts: &[&str]) -> Vec<String> {
    parts.iter().map(|p| p.to_string()).collect()
}

fn sense(labels: &[&[&str]], definitions: &[&[&str]], examples: &[&[&str]]) -> SenseNode {
    SenseNode {
        labels: labels.iter().map(|l| texts(l)).collect(),
        definitions: definitions.iter().map(|d| texts(d)).collect(),
        examples: examples.iter().map(|e| texts(e)).collect(),
    }
}

#[test]
fn join_of_nothing_is_empty() {
    assert_eq!(join_text(&texts(&[]), ", "), "");
}

#[test]
fn join_of_one_part_has_no_separator() {
    assert_eq!(join_text(&texts(&["alone"]), ", "), "alone");
}

#[test]
fn join_puts_separator_between_parts_only() {
    assert_eq!(join_text(&texts(&["a", "b", "c"]), ", "), "a, b, c");
}

#[test]
fn join_keeps_empty_parts() {
    assert_eq!(join_text(&texts(&["", "x", ""]), "-"), "-x-");
}

#[test]
fn first_text_of_nothing_is_empty() {
    assert_eq!(first_text(&texts(&[])), "");
}

#[test]
fn first_text_takes_the_first_node() {
    assert_eq!(first_text(&texts(&["first", "second"])), "first");
}

#[test]
fn label_is_its_first_text_node() {
    assert_eq!(process_label(&texts(&["countable", ", ", "formal"])), "countable");
}

#[test]
fn label_without_text_is_empty() {
    assert_eq!(process_label(&texts(&[])), "");
}

#[test]
fn examples_of_nothing_are_empty() {
    assert_eq!(process_examples_ul(&Vec::new()), "");
}

#[test]
fn each_example_ends_its_line() {
    let examples = vec![texts(&["She ran."]), texts(&["He sprinted."])];
    assert_eq!(process_examples_ul(&examples), "She ran.\nHe sprinted.\n");
}

#[test]
fn text_nodes_of_one_example_are_joined_by_newlines() {
    let examples = vec![texts(&["She ", "ran", "."]), texts(&["He sprinted."])];
    assert_eq!(process_examples_ul(&examples), "She \nran\n.\nHe sprinted.\n");
}

#[test]
fn example_without_text_is_an_empty_line() {
    let examples = vec![texts(&[]), texts(&["x"])];
    assert_eq!(process_examples_ul(&examples), "\nx\n");
}

#[test]
fn sense_with_label_and_definition_and_no_examples() {
    let node = sense(&[&["countable"]], &[&["a thing"]], &[]);
    assert_eq!(handle_sense_html(&node), "countablea thing\n\n Examples:\n");
}

#[test]
fn sense_without_label_with_two_examples() {
    let node = sense(&[], &[&["to run fast"]], &[&["She ran."], &["He sprinted."]]);
    assert_eq!(
        handle_sense_html(&node),
        "to run fast\n\n Examples:\nShe ran.\nHe sprinted.\n"
    );
}

#[test]
fn sense_with_nothing_is_the_heading_alone() {
    let node = sense(&[], &[], &[]);
    assert_eq!(handle_sense_html(&node), "\n\n Examples:\n");
}

#[test]
fn definition_text_nodes_are_joined_by_single_spaces() {
    let node = sense(&[], &[&["to move", "quickly", "on foot"]], &[]);
    assert_eq!(handle_sense_html(&node), "to move quickly on foot\n\n Examples:\n");
}

#[test]
fn only_the_first_label_and_definition_count() {
    let node = sense(
        &[&["formal", "rare"], &["informal"]],
        &[&["one"], &["two"]],
        &[&["e"]],
    );
    assert_eq!(handle_sense_html(&node), "formalone\n\n Examples:\ne\n");
}

#[test]
fn label_element_without_text_adds_nothing() {
    let node = sense(&[&[]], &[&["plain"]], &[]);
    assert_eq!(handle_sense_html(&node), "plain\n\n Examples:\n");
}

#[test]
fn formatting_twice_gives_the_same_text() {
    let node = sense(&[&["l"]], &[&["d", "e"]], &[&["x", "y"], &["z"]]);
    let first = handle_sense_html(&node);
    let second = handle_sense_html(&node);
    assert_eq!(first, second);
    assert_eq!(first, "ld e\n\n Examples:\nx\ny\nz\n");
}

#[test]
fn meanings_keep_the_order_of_the_senses() {
    let a = sense(&[], &[&["a"]], &[]);
    let b = sense(&[], &[&["b"]], &[]);
    let c = sense(&[], &[&["c"]], &[]);
    let forward = get_meanings(&vec![a.clone(), b.clone(), c.clone()]);
    assert_eq!(
        forward,
        vec!["a\n\n Examples:\n", "b\n\n Examples:\n", "c\n\n Examples:\n"]
    );
    let without_middle = get_meanings(&vec![a, c]);
    assert_eq!(without_middle, vec!["a\n\n Examples:\n", "c\n\n Examples:\n"]);
}

#[test]
fn meanings_of_no_senses_are_none() {
    assert_eq!(get_meanings(&Vec::new()), Vec::<String>::new());
}
