//! Tests for the supporting models: the set of value types, the integer
//! plausibility predicate, the catalog, and the bound-value state.

use query_algebrizer::clauses::ConjoiningClauses;
use query_algebrizer::query::Variable;
use query_algebrizer::schema::Schema;
use query_algebrizer::types::{TypedValue, ValueType, ValueTypeSet};

fn var(name: &str) -> Variable {
    Variable::new(String::from(name))
}

#[test]
fn empty_set_contains_nothing_and_is_empty() {
    let s = ValueTypeSet::none();
    assert!(s.is_empty());
    assert!(!s.contains(ValueType::Ref));
    assert!(!s.contains(ValueType::Keyword));
}

#[test]
fn any_set_contains_every_type() {
    let s = ValueTypeSet::any();
    assert!(!s.is_empty());
    let all = vec![
        ValueType::Ref,
        ValueType::Long,
        ValueType::Double,
        ValueType::String,
        ValueType::Boolean,
        ValueType::Instant,
        ValueType::Uuid,
        ValueType::Keyword,
    ];
    for t in all {
        assert!(s.contains(t));
    }
}

#[test]
fn singleton_set_contains_exactly_its_type() {
    let s = ValueTypeSet::of_one(ValueType::Instant);
    assert!(s.contains(ValueType::Instant));
    assert!(!s.contains(ValueType::Long));
    assert!(!s.is_empty());
}

#[test]
fn of_longs_is_ref_and_long() {
    let s = ValueTypeSet::of_longs();
    assert!(s.contains(ValueType::Ref));
    assert!(s.contains(ValueType::Long));
    assert!(!s.contains(ValueType::Double));
    assert_eq!(
        s,
        ValueTypeSet::of_one(ValueType::Ref).union(&ValueTypeSet::of_one(ValueType::Long))
    );
}

#[test]
fn of_keywords_is_ref_and_keyword() {
    let s = ValueTypeSet::of_keywords();
    assert!(s.contains(ValueType::Ref));
    assert!(s.contains(ValueType::Keyword));
    assert!(!s.contains(ValueType::String));
}

#[test]
fn union_collects_members_of_both_sets() {
    let s = ValueTypeSet::of_one(ValueType::Boolean).union(&ValueTypeSet::of_one(ValueType::Uuid));
    assert!(s.contains(ValueType::Boolean));
    assert!(s.contains(ValueType::Uuid));
    assert!(!s.contains(ValueType::Ref));
    let t = s.union(&ValueTypeSet::none());
    assert_eq!(s, t);
}

#[test]
fn reference_range_is_the_non_negative_integers() {
    assert!(ValueType::Ref.accommodates_integer(0));
    assert!(ValueType::Ref.accommodates_integer(42));
    assert!(ValueType::Ref.accommodates_integer(i64::MAX));
    assert!(!ValueType::Ref.accommodates_integer(-1));
    assert!(!ValueType::Ref.accommodates_integer(i64::MIN));
}

#[test]
fn catalog_returns_first_entry_for_a_name() {
    let mut schema = Schema::new();
    schema.add_ident(String::from("a"), 1);
    schema.add_ident(String::from("b"), 2);
    schema.add_ident(String::from("a"), 3);
    assert_eq!(schema.get_entid(&String::from("a")), Some(1));
    assert_eq!(schema.get_entid(&String::from("b")), Some(2));
    assert_eq!(schema.get_entid(&String::from("c")), None);
}

#[test]
fn input_variables_are_tracked_by_name() {
    let mut cc = ConjoiningClauses::new();
    assert!(!cc.is_input_variable(&var("?a")));
    cc.declare_input_variable(var("?a"));
    assert!(cc.is_input_variable(&var("?a")));
    assert!(!cc.is_input_variable(&var("?b")));
}

#[test]
fn bound_values_are_looked_up_by_name() {
    let mut cc = ConjoiningClauses::new();
    assert_eq!(cc.bound_value(&var("?a")), None);
    cc.bind_value(var("?a"), TypedValue::Keyword(String::from("k")));
    assert_eq!(
        cc.bound_value(&var("?a")),
        Some(TypedValue::Keyword(String::from("k")))
    );
    assert_eq!(cc.bound_value(&var("?b")), None);
}

#[test]
fn variables_compare_by_name() {
    assert_eq!(var("?a"), var("?a"));
    assert_ne!(var("?a"), var("?b"));
    let v = var("?a");
    let w = v.clone();
    assert_eq!(v, w);
}
