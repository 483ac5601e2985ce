use clippy_insights::annotation::{Annotation, Annotations, ValidationError};
use clippy_insights::severity::{classify, severity_label, Severity};

#[test]
fn classify_note_is_low() {
    assert_eq!(classify("note"), Severity::Low);
}

#[test]
fn classify_help_is_low() {
    assert_eq!(classify("help"), Severity::Low);
}

#[test]
fn classify_warning_is_medium() {
    assert_eq!(classify("warning"), Severity::Medium);
}

#[test]
fn classify_error_is_high() {
    assert_eq!(classify("error"), Severity::High);
}

#[test]
fn classify_unknown_is_medium() {
    assert_eq!(classify("ice"), Severity::Medium);
    assert_eq!(classify("future-level"), Severity::Medium);
}

#[test]
fn classify_empty_is_medium() {
    assert_eq!(classify(""), Severity::Medium);
}

#[test]
fn severity_labels_match_wire_format() {
    assert_eq!(severity_label(Severity::Low), "LOW");
    assert_eq!(severity_label(Severity::Medium), "MEDIUM");
    assert_eq!(severity_label(Severity::High), "HIGH");
}

#[test]
fn build_round_trips_message_and_severity() {
    let a = Annotation::build("unused variable".to_owned(), Some(Severity::Medium), None, None)
        .unwrap();
    assert_eq!(a.message(), "unused variable");
    assert_eq!(a.severity(), Severity::Medium);
    assert_eq!(a.path(), &None);
    assert_eq!(a.line(), None);
}

#[test]
fn build_round_trips_location() {
    let a = Annotation::build(
        "m".to_owned(),
        Some(Severity::High),
        Some("src/lib.rs".to_owned()),
        Some(3),
    )
    .unwrap();
    assert_eq!(a.message(), "m");
    assert_eq!(a.severity(), Severity::High);
    assert_eq!(a.path(), &Some("src/lib.rs".to_owned()));
    assert_eq!(a.line(), Some(3));
}

#[test]
fn build_rejects_empty_message() {
    let r = Annotation::build("".to_owned(), Some(Severity::Low), None, None);
    assert_eq!(r.unwrap_err(), ValidationError::EmptyMessage);
}

#[test]
fn build_rejects_empty_message_whatever_else_is_given() {
    let r = Annotation::build("".to_owned(), None, Some("a.rs".to_owned()), None);
    assert_eq!(r.unwrap_err(), ValidationError::EmptyMessage);
    let r = Annotation::build("".to_owned(), Some(Severity::High), Some("a.rs".to_owned()), Some(1));
    assert_eq!(r.unwrap_err(), ValidationError::EmptyMessage);
}

#[test]
fn build_rejects_missing_severity() {
    let r = Annotation::build("m".to_owned(), None, None, None);
    assert_eq!(r.unwrap_err(), ValidationError::MissingSeverity);
}

#[test]
fn build_rejects_path_without_line() {
    let r = Annotation::build("m".to_owned(), Some(Severity::Low), Some("a.rs".to_owned()), None);
    assert_eq!(r.unwrap_err(), ValidationError::IncompleteLocation);
}

#[test]
fn build_rejects_line_without_path() {
    let r = Annotation::build("m".to_owned(), Some(Severity::Low), None, Some(7));
    assert_eq!(r.unwrap_err(), ValidationError::IncompleteLocation);
}

#[test]
fn wrapping_empty_batch_is_valid() {
    let batch = Annotations::new(Vec::new());
    assert_eq!(batch.len(), 0);
    assert!(batch.items().is_empty());
}

#[test]
fn wrapping_keeps_items_and_order() {
    let first = Annotation::build("first".to_owned(), Some(Severity::Low), None, None).unwrap();
    let second = Annotation::build("second".to_owned(), Some(Severity::High), None, None).unwrap();
    let batch = Annotations::new(vec![first, second]);
    assert_eq!(batch.len(), 2);
    assert_eq!(batch.items()[0].message(), "first");
    assert_eq!(batch.items()[1].message(), "second");
}
