use oxford_lookup::document::{
    classify, parse_meanings_by_document, parse_result_list_by_document, Document,
    ParseLinkResult,
};
use oxford_lookup::sense::SenseNode;

fn texts(parts: &[&str]) -> Vec<String> {
    parts.iter().map(|p| p.to_string()).collect()
}

fn defined(definition: &str) -> SenseNode {
    SenseNode {
        labels: Vec::new(),
        definitions: vec![texts(&[definition])],
        examples: Vec::new(),
    }
}

fn links(words: &[&[&str]]) -> Vec<Vec<String>> {
    words.iter().map(|w| texts(w)).collect()
}

#[test]
fn page_with_senses_answers_with_one_meaning_each() {
    let document = Document {
        senses: vec![defined("one"), defined("two"), defined("three")],
        result_list: None,
    };
    assert_eq!(
        classify(&document),
        ParseLinkResult::MeaningsList(vec![
            "one\n\n Examples:\n".to_string(),
            "two\n\n Examples:\n".to_string(),
            "three\n\n Examples:\n".to_string(),
        ])
    );
}

#[test]
fn senses_come_before_suggestions() {
    let document = Document {
        senses: vec![defined("found")],
        result_list: Some(links(&[&["other"]])),
    };
    assert_eq!(
        classify(&document),
        ParseLinkResult::MeaningsList(vec!["found\n\n Examples:\n".to_string()])
    );
}

#[test]
fn page_with_result_list_answers_with_its_words_in_order() {
    let document = Document {
        senses: Vec::new(),
        result_list: Some(links(&[&["inconvenience"], &["inconvenient"], &["convenience"]])),
    };
    assert_eq!(
        classify(&document),
        ParseLinkResult::ResultList(vec![
            "inconvenience".to_string(),
            "inconvenient".to_string(),
            "convenience".to_string(),
        ])
    );
}

#[test]
fn suggestion_is_the_first_text_node_of_its_link() {
    let document = Document {
        senses: Vec::new(),
        result_list: Some(links(&[&["bold", " tail"], &[], &["plain"]])),
    };
    assert_eq!(
        classify(&document),
        ParseLinkResult::ResultList(vec![
            "bold".to_string(),
            String::new(),
            "plain".to_string(),
        ])
    );
}

#[test]
fn result_list_without_links_is_not_the_empty_answer() {
    let document = Document { senses: Vec::new(), result_list: Some(Vec::new()) };
    let answer = classify(&document);
    assert_eq!(answer, ParseLinkResult::ResultList(Vec::new()));
    assert_ne!(answer, ParseLinkResult::Empty);
}

#[test]
fn page_with_neither_gives_the_empty_answer() {
    let document = Document { senses: Vec::new(), result_list: None };
    assert_eq!(classify(&document), ParseLinkResult::Empty);
}

#[test]
fn meanings_of_a_page_without_senses_are_absent() {
    let document = Document { senses: Vec::new(), result_list: Some(links(&[&["w"]])) };
    assert_eq!(parse_meanings_by_document(&document), None);
}

#[test]
fn meanings_of_a_page_with_senses_are_present() {
    let document = Document { senses: vec![defined("d")], result_list: None };
    assert_eq!(
        parse_meanings_by_document(&document),
        Some(vec!["d\n\n Examples:\n".to_string()])
    );
}

#[test]
fn result_list_of_a_page_without_one_is_absent() {
    let document = Document { senses: vec![defined("d")], result_list: None };
    assert_eq!(parse_result_list_by_document(&document), None);
}

#[test]
fn result_list_is_read_even_beside_senses() {
    let document = Document {
        senses: vec![defined("d")],
        result_list: Some(links(&[&["a"], &["b"]])),
    };
    assert_eq!(
        parse_result_list_by_document(&document),
        Some(vec!["a".to_string(), "b".to_string()])
    );
}

#[test]
fn answer_does_not_depend_on_what_surrounds_the_senses() {
    let senses = vec![defined("first"), defined("second")];
    let bare = Document { senses: senses.clone(), result_list: None };
    let crowded = Document { senses, result_list: Some(links(&[&["x"], &["y"]])) };
    assert_eq!(classify(&bare), classify(&crowded));
}

#[test]
fn classifying_twice_gives_the_same_answer() {
    let document = Document {
        senses: Vec::new(),
        result_list: Some(links(&[&["again"]])),
    };
    assert_eq!(classify(&document), classify(&document));
}
