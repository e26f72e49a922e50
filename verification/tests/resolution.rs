//! Scenario tests for the resolution engine: one concrete case per decision
//! of the decision tables, per error variant, and per constant round trip.

use query_algebrizer::clauses::ConjoiningClauses;
use query_algebrizer::convert::ValueConversion;
use query_algebrizer::errors::AlgebrizerError;
use query_algebrizer::query::{FnArg, NonIntegerConstant, Variable};
use query_algebrizer::schema::Schema;
use query_algebrizer::types::{EmptyBecause, TypedValue, ValueType, ValueTypeSet};

fn var(name: &str) -> Variable {
    Variable::new(String::from(name))
}

fn union(a: ValueTypeSet, b: ValueTypeSet) -> ValueTypeSet {
    a.union(&b)
}

fn of_two(a: ValueType, b: ValueType) -> ValueTypeSet {
    union(ValueTypeSet::of_one(a), ValueTypeSet::of_one(b))
}

#[test]
fn empty_known_types_is_impossible_for_any_argument() {
    let cc = ConjoiningClauses::new();
    let schema = Schema::new();
    let v = var("?x");
    let empty = ValueTypeSet::none();
    let args = vec![
        FnArg::EntidOrInteger(42),
        FnArg::IdentOrKeyword(String::from("foo")),
        FnArg::Variable(var("?y")),
        FnArg::Constant(NonIntegerConstant::Boolean(true)),
        FnArg::Vector(vec![]),
        FnArg::SrcVar(String::from("$")),
    ];
    for arg in args {
        let r = cc.typed_value_from_arg(&schema, &v, arg, empty);
        assert_eq!(
            r,
            Ok(ValueConversion::Impossible(EmptyBecause::TypeMismatch {
                var: var("?x"),
                existing: ValueTypeSet::none(),
                desired: ValueTypeSet::any(),
            }))
        );
    }
}

#[test]
fn ambiguous_integer_defaults_to_long() {
    // Reference range covers 42, and both readings are admissible.
    let cc = ConjoiningClauses::new();
    let schema = Schema::new();
    let v = var("?x");
    let kt = of_two(ValueType::Ref, ValueType::Long);
    let r = cc.typed_value_from_arg(&schema, &v, FnArg::EntidOrInteger(42), kt);
    assert_eq!(r, Ok(ValueConversion::Val(TypedValue::Long(42))));
}

#[test]
fn integer_resolves_to_ref_when_only_ref_admissible() {
    let cc = ConjoiningClauses::new();
    let schema = Schema::new();
    let v = var("?x");
    let kt = ValueTypeSet::of_one(ValueType::Ref);
    let r = cc.typed_value_from_arg(&schema, &v, FnArg::EntidOrInteger(42), kt);
    assert_eq!(r, Ok(ValueConversion::Val(TypedValue::Ref(42))));
}

#[test]
fn integer_resolves_to_long_when_ref_not_admissible() {
    let cc = ConjoiningClauses::new();
    let schema = Schema::new();
    let v = var("?x");
    let kt = ValueTypeSet::of_one(ValueType::Long);
    let r = cc.typed_value_from_arg(&schema, &v, FnArg::EntidOrInteger(-5), kt);
    assert_eq!(r, Ok(ValueConversion::Val(TypedValue::Long(-5))));
}

#[test]
fn integer_out_of_reference_range_is_impossible() {
    // -5 is outside the reference range but Ref is required.
    let cc = ConjoiningClauses::new();
    let schema = Schema::new();
    let v = var("?x");
    let kt = ValueTypeSet::of_one(ValueType::Ref);
    let r = cc.typed_value_from_arg(&schema, &v, FnArg::EntidOrInteger(-5), kt);
    assert_eq!(
        r,
        Ok(ValueConversion::Impossible(EmptyBecause::TypeMismatch {
            var: var("?x"),
            existing: kt,
            desired: ValueTypeSet::of_longs(),
        }))
    );
}

#[test]
fn integer_against_disjoint_types_is_impossible() {
    let cc = ConjoiningClauses::new();
    let schema = Schema::new();
    let v = var("?x");
    let kt = ValueTypeSet::of_one(ValueType::String);
    let r = cc.typed_value_from_arg(&schema, &v, FnArg::EntidOrInteger(7), kt);
    assert_eq!(
        r,
        Ok(ValueConversion::Impossible(EmptyBecause::TypeMismatch {
            var: var("?x"),
            existing: kt,
            desired: ValueTypeSet::of_longs(),
        }))
    );
}

#[test]
fn keyword_only_resolves_keyword() {
    let cc = ConjoiningClauses::new();
    let schema = Schema::new();
    let v = var("?x");
    let kt = ValueTypeSet::of_one(ValueType::Keyword);
    let r = cc.typed_value_from_arg(&schema, &v, FnArg::IdentOrKeyword(String::from("foo")), kt);
    assert_eq!(
        r,
        Ok(ValueConversion::Val(TypedValue::Keyword(String::from("foo"))))
    );
}

#[test]
fn ambiguous_ident_defaults_to_keyword_even_when_catalog_knows_it() {
    // The catalog maps the name, yet the keyword reading wins: the catalog
    // is not consulted under ambiguity.
    let cc = ConjoiningClauses::new();
    let mut schema = Schema::new();
    schema.add_ident(String::from("foo"), 17);
    let v = var("?x");
    let kt = of_two(ValueType::Ref, ValueType::Keyword);
    let r = cc.typed_value_from_arg(&schema, &v, FnArg::IdentOrKeyword(String::from("foo")), kt);
    assert_eq!(
        r,
        Ok(ValueConversion::Val(TypedValue::Keyword(String::from("foo"))))
    );
}

#[test]
fn ident_resolves_through_catalog_when_keyword_not_admissible() {
    let cc = ConjoiningClauses::new();
    let mut schema = Schema::new();
    schema.add_ident(String::from("foo"), 17);
    let v = var("?x");
    let kt = ValueTypeSet::of_one(ValueType::Ref);
    let r = cc.typed_value_from_arg(&schema, &v, FnArg::IdentOrKeyword(String::from("foo")), kt);
    assert_eq!(r, Ok(ValueConversion::Val(TypedValue::Ref(17))));
}

#[test]
fn catalog_miss_is_unresolved_ident_not_an_error() {
    let cc = ConjoiningClauses::new();
    let mut schema = Schema::new();
    schema.add_ident(String::from("foo"), 17);
    let v = var("?x");
    let kt = ValueTypeSet::of_one(ValueType::Ref);
    let r = cc.typed_value_from_arg(&schema, &v, FnArg::IdentOrKeyword(String::from("bar")), kt);
    assert_eq!(
        r,
        Ok(ValueConversion::Impossible(EmptyBecause::UnresolvedIdent(
            String::from("bar")
        )))
    );
}

#[test]
fn ident_against_disjoint_types_is_impossible() {
    let cc = ConjoiningClauses::new();
    let schema = Schema::new();
    let v = var("?x");
    let kt = ValueTypeSet::of_one(ValueType::Boolean);
    let r = cc.typed_value_from_arg(&schema, &v, FnArg::IdentOrKeyword(String::from("foo")), kt);
    assert_eq!(
        r,
        Ok(ValueConversion::Impossible(EmptyBecause::TypeMismatch {
            var: var("?x"),
            existing: kt,
            desired: ValueTypeSet::of_keywords(),
        }))
    );
}

#[test]
fn undeclared_variable_is_unbound_error() {
    let cc = ConjoiningClauses::new();
    let schema = Schema::new();
    let v = var("?x");
    let kt = ValueTypeSet::any();
    let r = cc.typed_value_from_arg(&schema, &v, FnArg::Variable(var("?y")), kt);
    assert_eq!(r, Err(AlgebrizerError::UnboundVariable(String::from("?y"))));
}

#[test]
fn declared_but_unsupplied_variable_is_unbound_error() {
    let mut cc = ConjoiningClauses::new();
    cc.declare_input_variable(var("?y"));
    let schema = Schema::new();
    let v = var("?x");
    let kt = ValueTypeSet::any();
    let r = cc.typed_value_from_arg(&schema, &v, FnArg::Variable(var("?y")), kt);
    assert_eq!(r, Err(AlgebrizerError::UnboundVariable(String::from("?y"))));
}

#[test]
fn bound_variable_resolves_to_its_value() {
    let mut cc = ConjoiningClauses::new();
    cc.declare_input_variable(var("?y"));
    cc.bind_value(var("?y"), TypedValue::Long(99));
    let schema = Schema::new();
    let v = var("?x");
    let kt = ValueTypeSet::any();
    let r = cc.typed_value_from_arg(&schema, &v, FnArg::Variable(var("?y")), kt);
    assert_eq!(r, Ok(ValueConversion::Val(TypedValue::Long(99))));
}

#[test]
fn rebinding_a_variable_shadows_the_older_value() {
    let mut cc = ConjoiningClauses::new();
    cc.declare_input_variable(var("?y"));
    cc.bind_value(var("?y"), TypedValue::Long(1));
    cc.bind_value(var("?y"), TypedValue::Long(2));
    let schema = Schema::new();
    let v = var("?x");
    let kt = ValueTypeSet::any();
    let r = cc.typed_value_from_arg(&schema, &v, FnArg::Variable(var("?y")), kt);
    assert_eq!(r, Ok(ValueConversion::Val(TypedValue::Long(2))));
}

#[test]
fn big_integer_constant_is_unsupported() {
    let cc = ConjoiningClauses::new();
    let schema = Schema::new();
    let v = var("?x");
    let kt = ValueTypeSet::any();
    let arg = FnArg::Constant(NonIntegerConstant::BigInteger(String::from(
        "340282366920938463463374607431768211456",
    )));
    let r = cc.typed_value_from_arg(&schema, &v, arg, kt);
    assert_eq!(r, Err(AlgebrizerError::UnsupportedBigInteger));
}

#[test]
fn vector_is_invalid_ground_constant() {
    let cc = ConjoiningClauses::new();
    let schema = Schema::new();
    let v = var("?x");
    let kt = ValueTypeSet::any();
    let arg = FnArg::Vector(vec![FnArg::EntidOrInteger(1)]);
    let r = cc.typed_value_from_arg(&schema, &v, arg, kt);
    assert_eq!(r, Err(AlgebrizerError::InvalidGroundConstant));
}

#[test]
fn src_var_is_invalid_ground_constant() {
    let cc = ConjoiningClauses::new();
    let schema = Schema::new();
    let v = var("?x");
    let kt = ValueTypeSet::any();
    let arg = FnArg::SrcVar(String::from("$"));
    let r = cc.typed_value_from_arg(&schema, &v, arg, kt);
    assert_eq!(r, Err(AlgebrizerError::InvalidGroundConstant));
}

#[test]
fn constants_round_trip_under_their_own_type() {
    let cc = ConjoiningClauses::new();
    let schema = Schema::new();
    let v = var("?x");
    let cases = vec![
        (
            NonIntegerConstant::Boolean(true),
            ValueType::Boolean,
            TypedValue::Boolean(true),
        ),
        (
            NonIntegerConstant::Instant(1_493_395_200_000_000),
            ValueType::Instant,
            TypedValue::Instant(1_493_395_200_000_000),
        ),
        (
            NonIntegerConstant::Uuid(0x0077_ce48_5bbe_4445_a867_7e2b_6f15_7dfa),
            ValueType::Uuid,
            TypedValue::Uuid(0x0077_ce48_5bbe_4445_a867_7e2b_6f15_7dfa),
        ),
        (
            NonIntegerConstant::Float(1.5f64.to_bits()),
            ValueType::Double,
            TypedValue::Double(1.5f64.to_bits()),
        ),
        (
            NonIntegerConstant::Text(String::from("hello")),
            ValueType::String,
            TypedValue::String(String::from("hello")),
        ),
    ];
    for (constant, t, expected) in cases {
        let kt = ValueTypeSet::of_one(t);
        let r = cc.typed_value_from_arg(&schema, &v, FnArg::Constant(constant), kt);
        assert_eq!(r, Ok(ValueConversion::Val(expected)));
    }
}

#[test]
fn boolean_against_string_is_impossible() {
    let cc = ConjoiningClauses::new();
    let schema = Schema::new();
    let v = var("?x");
    let kt = ValueTypeSet::of_one(ValueType::String);
    let arg = FnArg::Constant(NonIntegerConstant::Boolean(true));
    let r = cc.typed_value_from_arg(&schema, &v, arg, kt);
    assert_eq!(
        r,
        Ok(ValueConversion::Impossible(EmptyBecause::TypeMismatch {
            var: var("?x"),
            existing: kt,
            desired: ValueTypeSet::of_one(ValueType::Boolean),
        }))
    );
}
