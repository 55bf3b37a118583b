use v2board_application::filter_dsl::{
    escape_like_pattern, ColumnKind, FilterOperator, FilterValue,
};

#[test]
fn like_literal_escaping_wraps_and_escapes_every_sql_wildcard() {
    assert_eq!(escape_like_pattern("50%_a\\b"), "%50\\%\\_a\\\\b%");
}

#[test]
fn null_is_always_a_valid_eq_neq_value_regardless_of_kind() {
    for kind in [
        ColumnKind::Boolean,
        ColumnKind::Integer,
        ColumnKind::Timestamp,
        ColumnKind::Text,
        ColumnKind::Email,
    ] {
        assert!(kind.accepts(FilterOperator::Eq, &FilterValue::Null));
        assert!(kind.accepts(FilterOperator::Neq, &FilterValue::Null));
    }
}

#[test]
fn like_is_closed_to_text_email_and_integer_kinds() {
    let value = FilterValue::Text("x".into());
    assert!(ColumnKind::Text.accepts(FilterOperator::Like, &value));
    assert!(ColumnKind::Email.accepts(FilterOperator::Like, &value));
    assert!(ColumnKind::Integer.accepts(FilterOperator::Like, &value));
    assert!(!ColumnKind::Timestamp.accepts(FilterOperator::Like, &value));
    assert!(!ColumnKind::Boolean.accepts(FilterOperator::Like, &value));
}

#[test]
fn range_operators_are_closed_to_number_like_kinds() {
    let value = FilterValue::Integer(1);
    for operator in [
        FilterOperator::Gt,
        FilterOperator::Gte,
        FilterOperator::Lt,
        FilterOperator::Lte,
    ] {
        assert!(ColumnKind::Integer.accepts(operator, &value));
        assert!(ColumnKind::Timestamp.accepts(operator, &value));
        assert!(!ColumnKind::Text.accepts(operator, &value));
        assert!(!ColumnKind::Email.accepts(operator, &value));
        assert!(!ColumnKind::Boolean.accepts(operator, &value));
    }
}

#[test]
fn in_requires_a_non_empty_array_matching_the_column_kind() {
    assert!(ColumnKind::Text.accepts(FilterOperator::In, &FilterValue::Texts(vec!["a".into()])));
    assert!(!ColumnKind::Text.accepts(FilterOperator::In, &FilterValue::Texts(Vec::new())));
    assert!(!ColumnKind::Integer.accepts(FilterOperator::In, &FilterValue::Texts(vec!["a".into()])));
}

#[test]
fn escaping_leaves_plain_text_alone_but_wraps_it() {
    assert_eq!(escape_like_pattern("abc"), "%abc%");
    assert_eq!(escape_like_pattern(""), "%%");
}

#[test]
fn in_accepts_boolean_and_integer_lists_only_on_their_kinds() {
    assert!(ColumnKind::Boolean.accepts(FilterOperator::In, &FilterValue::Booleans(vec![true])));
    assert!(ColumnKind::Timestamp.accepts(FilterOperator::In, &FilterValue::Integers(vec![1, 2])));
    assert!(!ColumnKind::Timestamp.accepts(FilterOperator::In, &FilterValue::Integers(Vec::new())));
    assert!(!ColumnKind::Email.accepts(FilterOperator::In, &FilterValue::Null));
}
