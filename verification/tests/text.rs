use site24x7_exporter::decode::{
    field_path_string, index_path_string, member, SchemaFault,
};
use site24x7_exporter::json::JsonValue;
use site24x7_exporter::text::{decimal_string, join, split_first, text_eq};

#[test]
fn texts_are_compared_by_their_characters() {
    assert!(text_eq("", ""));
    assert!(text_eq("London - UK", "London - UK"));
    assert!(!text_eq("London - UK", "London - UX"));
    assert!(!text_eq("a", "ab"));
    assert!(!text_eq("ab", "a"));
    assert!(text_eq("Zürich ✓", "Zürich ✓"));
    assert!(!text_eq("Zürich", "Zurich"));
}

#[test]
fn split_at_first_separator() {
    assert_eq!(split_first("a.b.c", '.'), ("a".to_string(), Some("b.c".to_string())));
    assert_eq!(split_first("abc", '.'), ("abc".to_string(), None));
    assert_eq!(split_first("", '.'), (String::new(), None));
    assert_eq!(split_first(".", '.'), (String::new(), Some(String::new())));
    assert_eq!(split_first("é✓:ü", ':'), ("é✓".to_string(), Some("ü".to_string())));
}

#[test]
fn numbers_in_decimal() {
    assert_eq!(decimal_string(0), "0");
    assert_eq!(decimal_string(7), "7");
    assert_eq!(decimal_string(10), "10");
    assert_eq!(decimal_string(1234567890), "1234567890");
    assert_eq!(decimal_string(usize::MAX), usize::MAX.to_string());
}

#[test]
fn paths_are_joined() {
    assert_eq!(join("a", "b"), "ab");
    assert_eq!(field_path_string(".", "data"), "data");
    assert_eq!(field_path_string("data", "monitors"), "data.monitors");
    assert_eq!(index_path_string("data.monitors", 12), "data.monitors[12]");
}

#[test]
fn first_member_of_a_name_is_found() {
    let members = vec![
        ("a".to_string(), JsonValue::Number(Some(1))),
        ("b".to_string(), JsonValue::Null),
        ("a".to_string(), JsonValue::Number(Some(2))),
    ];
    assert_eq!(member(&members, "a"), Some(&JsonValue::Number(Some(1))));
    assert_eq!(member(&members, "b"), Some(&JsonValue::Null));
    assert_eq!(member(&members, "c"), None);
}

#[test]
fn faults_in_words() {
    assert_eq!(SchemaFault::MissingField.message(), "missing field");
    assert_eq!(SchemaFault::NotAnObject.message(), "invalid type: expected an object");
    assert_eq!(SchemaFault::NotAnArray.message(), "invalid type: expected an array");
    assert_eq!(SchemaFault::NotText.message(), "invalid type: expected a string");
    assert_eq!(SchemaFault::NotUnsigned.message(), "invalid type: expected an unsigned integer");
    assert_eq!(
        SchemaFault::BadTimestamp.message(),
        "invalid timestamp: expected YYYY-MM-DDThh:mm:ss[.ffffff]+hhmm"
    );
    assert_eq!(
        SchemaFault::NoLocations.message(),
        "invalid length: expected at least one location"
    );
}
