use dehydrate::prompt::{bulk_choice, bulk_choice_of, consent_given, is_consent, BulkChoice};

#[test]
fn consent_answers() {
    assert!(is_consent("y\n"));
    assert!(is_consent("Y"));
    assert!(is_consent("  y  "));
    assert!(is_consent("\n"));
    assert!(is_consent(""));
    assert!(!is_consent("N\n"));
    assert!(!is_consent("yes"));
    assert!(!is_consent("n"));
}

#[test]
fn consent_from_prepared_text() {
    assert!(consent_given("Y", "y"));
    assert!(consent_given("", ""));
    assert!(!consent_given("Yes", "yes"));
}

#[test]
fn bulk_choices() {
    assert_eq!(bulk_choice("a\n"), BulkChoice::GenerateAll);
    assert_eq!(bulk_choice(" A "), BulkChoice::GenerateAll);
    assert_eq!(bulk_choice("l"), BulkChoice::AskEach);
    assert_eq!(bulk_choice("n"), BulkChoice::Skip);
    assert_eq!(bulk_choice(""), BulkChoice::Skip);
    assert_eq!(bulk_choice_of("L"), BulkChoice::AskEach);
    assert_eq!(bulk_choice_of("l"), BulkChoice::Skip);
}
