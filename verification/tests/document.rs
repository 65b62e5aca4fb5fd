use editor_core::{Document, Row};

#[test]
fn row_keeps_the_text_it_was_built_from() {
    let row = Row::from("fn main() {}");
    assert_eq!(row.as_str(), "fn main() {}");
}

#[test]
fn row_may_be_empty() {
    let row = Row::from("");
    assert_eq!(row.as_str(), "");
}

#[test]
fn row_keeps_characters_outside_ascii() {
    let row = Row::from("na\u{ef}ve \u{2014} \u{1f600}");
    assert_eq!(row.as_str(), "na\u{ef}ve \u{2014} \u{1f600}");
    assert_eq!(row.as_str().chars().count(), 9);
}

#[test]
fn row_converts_through_into() {
    let row: Row = "tab\there".into();
    assert_eq!(row.as_str(), "tab\there");
}

#[test]
fn opened_document_is_not_empty() {
    assert!(!Document::open().is_empty());
}

#[test]
fn opened_document_greets_in_its_first_row() {
    let document = Document::open();
    let row = document.row(0);
    assert!(row.is_some());
    assert_eq!(row.map(|row| row.as_str()), Some("Hello there!"));
}

#[test]
fn opened_document_has_exactly_one_row() {
    let document = Document::open();
    assert!(document.row(0).is_some());
    assert!(document.row(1).is_none());
    assert!(document.row(2).is_none());
}

#[test]
fn row_past_the_end_is_absent() {
    let document = Document::open();
    assert!(document.row(17).is_none());
    assert!(document.row(usize::MAX).is_none());
}

#[test]
fn row_returns_the_same_row_on_every_call() {
    let document = Document::open();
    let first = document.row(0).map(|row| row.as_str());
    let second = document.row(0).map(|row| row.as_str());
    assert_eq!(first, second);
    assert_eq!(second, Some("Hello there!"));
}

#[test]
fn two_opened_documents_hold_the_same_text() {
    let left = Document::open();
    let right = Document::open();
    assert_eq!(
        left.row(0).map(|row| row.as_str()),
        right.row(0).map(|row| row.as_str())
    );
}

#[test]
fn default_document_is_empty() {
    let document = Document::default();
    assert!(document.is_empty());
}

#[test]
fn default_document_has_no_row() {
    let document = Document::default();
    assert!(document.row(0).is_none());
    assert!(document.row(1).is_none());
    assert!(document.row(usize::MAX).is_none());
}
