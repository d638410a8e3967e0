use anything_runtime::event_tags_in;
use anything_runtime::event_types_in;

#[test]
fn types_condition_quotes_and_joins() {
    let sql = event_types_in(&["wee", "woo"], &[]);
    assert_eq!(sql, "event_type IN ('wee','woo')");
}

#[test]
fn types_condition_honors_exclusions() {
    let sql = event_types_in(&["created", "updated", "deleted"], &["updated"]);
    assert_eq!(sql, "event_type IN ('created','deleted')");
}

#[test]
fn types_condition_of_nothing_is_empty_list() {
    let sql = event_types_in(&[], &["anything"]);
    assert_eq!(sql, "event_type IN ()");
}

#[test]
fn types_condition_can_exclude_everything() {
    let sql = event_types_in(&["a", "b"], &["a", "b"]);
    assert_eq!(sql, "event_type IN ()");
}

#[test]
fn tags_condition_quotes_and_joins() {
    let sql = event_tags_in(vec!["bob".to_string()]);
    assert_eq!(sql, "tags IN ('bob')");

    let sql = event_tags_in(vec!["bob".to_string(), "alice".to_string()]);
    assert_eq!(sql, "tags IN ('bob','alice')");
}

#[test]
fn tags_condition_of_nothing_is_empty_list() {
    let sql = event_tags_in(vec![]);
    assert_eq!(sql, "tags IN ()");
}
