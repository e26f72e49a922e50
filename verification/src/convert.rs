//! The resolution engine: conversion of `FnArg`s to `TypedValue`s.
//!
//! Given the types already admissible for the destination variable, one
//! argument, and read access to the catalog and to already-bound input
//! values, the engine either resolves the argument to a typed value or
//! reports, as data, why the clause can never match. Only a malformed query
//! (an unbound variable, an impossible argument shape) or an unimplemented
//! feature takes the error channel.

use vstd::prelude::*;
use crate::clauses::ConjoiningClauses;
use crate::errors::AlgebrizerError;
use crate::query::{FnArg, NonIntegerConstant, Variable};
use crate::schema::Schema;
use crate::types::{EmptyBecause, TypedValue, ValueType, ValueTypeSet};

verus! {

/// The outcome of resolving one argument: a resolved typed value, or the
/// reason the clause is statically unsatisfiable. `Impossible` is a normal
/// planning outcome, not an error: the caller prunes the clause and goes on.
#[derive(Clone, Debug, PartialEq, Eq)]
pub enum ValueConversion {
    Val(TypedValue),
    Impossible(EmptyBecause),
}

/// The outcome for an integer literal `x`, ambiguous between an entity
/// reference and a plain integer. The decision table, in order: if both
/// readings are admissible and the literal is a plausible reference, the
/// ambiguity defaults to the plain integer; if only the reference reading is
/// admissible, the literal must be a plausible reference or the clause can
/// never match; if neither reading is admissible, the clause can never
/// match.
pub open spec fn resolve_entid_or_integer_spec(
    var: Variable,
    known_types: ValueTypeSet,
    x: i64,
) -> ValueConversion {
    let plausible_ref = ValueType::Ref.accommodates_integer_spec(x);
    let has_ref = known_types.contains_spec(ValueType::Ref);
    let has_long = known_types.contains_spec(ValueType::Long);
    if plausible_ref && has_ref && has_long {
        ValueConversion::Val(TypedValue::Long(x))
    } else if plausible_ref && has_ref && !has_long {
        ValueConversion::Val(TypedValue::Ref(x))
    } else if !has_ref && has_long {
        ValueConversion::Val(TypedValue::Long(x))
    } else {
        ValueConversion::Impossible(
            EmptyBecause::TypeMismatch {
                var,
                existing: known_types,
                desired: ValueTypeSet::of_longs_spec(),
            },
        )
    }
}

/// The outcome for a symbolic name `x`, ambiguous between an identifier to
/// look up in the catalog and a keyword kept as a literal symbol. Whenever
/// the keyword reading is admissible it wins and the catalog is left alone;
/// only when the name must be an identifier is it looked up, and a catalog
/// miss means the clause can never match.
pub open spec fn resolve_ident_or_keyword_spec(
    schema: Schema,
    var: Variable,
    known_types: ValueTypeSet,
    x: String,
) -> ValueConversion {
    let has_ref = known_types.contains_spec(ValueType::Ref);
    let has_keyword = known_types.contains_spec(ValueType::Keyword);
    if has_keyword {
        ValueConversion::Val(TypedValue::Keyword(x))
    } else if has_ref {
        match schema.entid_spec(x@) {
            Some(e) => ValueConversion::Val(TypedValue::Ref(e)),
            None => ValueConversion::Impossible(EmptyBecause::UnresolvedIdent(x)),
        }
    } else {
        ValueConversion::Impossible(
            EmptyBecause::TypeMismatch {
                var,
                existing: known_types,
                desired: ValueTypeSet::of_keywords_spec(),
            },
        )
    }
}

/// The outcome for a reference to another query variable `v`: the value it
/// was bound to, if `v` is a declared input and a value was supplied;
/// otherwise the hard error naming `v`.
pub open spec fn resolve_variable_spec(cc: ConjoiningClauses, v: Variable) -> Result<
    ValueConversion,
    AlgebrizerError,
> {
    if !cc.is_input_spec(v@) {
        Err(AlgebrizerError::UnboundVariable(v.name))
    } else {
        match cc.bound_value_spec(v@) {
            Some(value) => Ok(ValueConversion::Val(value)),
            None => Err(AlgebrizerError::UnboundVariable(v.name)),
        }
    }
}

/// The single value type an unambiguous constant can denote.
pub open spec fn constant_value_type(c: NonIntegerConstant) -> ValueType
    recommends
        !(c is BigInteger),
{
    match c {
        NonIntegerConstant::Boolean(_) => ValueType::Boolean,
        NonIntegerConstant::Instant(_) => ValueType::Instant,
        NonIntegerConstant::Uuid(_) => ValueType::Uuid,
        NonIntegerConstant::Float(_) => ValueType::Double,
        NonIntegerConstant::Text(_) => ValueType::String,
        NonIntegerConstant::BigInteger(_) => ValueType::Long,
    }
}

/// The typed value an unambiguous constant resolves to: the same payload,
/// under the matching tag.
pub open spec fn constant_typed_value(c: NonIntegerConstant) -> TypedValue
    recommends
        !(c is BigInteger),
{
    match c {
        NonIntegerConstant::Boolean(x) => TypedValue::Boolean(x),
        NonIntegerConstant::Instant(x) => TypedValue::Instant(x),
        NonIntegerConstant::Uuid(x) => TypedValue::Uuid(x),
        NonIntegerConstant::Float(x) => TypedValue::Double(x),
        NonIntegerConstant::Text(x) => TypedValue::String(x),
        NonIntegerConstant::BigInteger(_) => TypedValue::Long(0),
    }
}

/// The outcome for a constant literal: a big-integer constant is an
/// unimplemented feature and fails loudly; any other constant resolves to
/// its own typed value when its type is admissible, and otherwise the clause
/// can never match.
pub open spec fn resolve_constant_spec(
    var: Variable,
    known_types: ValueTypeSet,
    c: NonIntegerConstant,
) -> Result<ValueConversion, AlgebrizerError> {
    if c is BigInteger {
        Err(AlgebrizerError::UnsupportedBigInteger)
    } else if known_types.contains_spec(constant_value_type(c)) {
        Ok(ValueConversion::Val(constant_typed_value(c)))
    } else {
        Ok(
            ValueConversion::Impossible(
                EmptyBecause::TypeMismatch {
                    var,
                    existing: known_types,
                    desired: ValueTypeSet::of_one_spec(constant_value_type(c)),
                },
            ),
        )
    }
}

/// The outcome of resolving `arg` against the types admissible for `var`.
/// An already-empty admissible set short-circuits: the clause was proven
/// vacuous by an earlier step, and no further work or catalog access
/// happens.
pub open spec fn resolve_spec(
    cc: ConjoiningClauses,
    schema: Schema,
    var: Variable,
    arg: FnArg,
    known_types: ValueTypeSet,
) -> Result<ValueConversion, AlgebrizerError> {
    if known_types.is_empty_spec() {
        Ok(
            ValueConversion::Impossible(
                EmptyBecause::TypeMismatch {
                    var,
                    existing: known_types,
                    desired: ValueTypeSet::any_spec(),
                },
            ),
        )
    } else {
        match arg {
            FnArg::EntidOrInteger(x) => Ok(resolve_entid_or_integer_spec(var, known_types, x)),
            FnArg::IdentOrKeyword(x) => Ok(
                resolve_ident_or_keyword_spec(schema, var, known_types, x),
            ),
            FnArg::Variable(v) => resolve_variable_spec(cc, v),
            FnArg::Constant(c) => resolve_constant_spec(var, known_types, c),
            FnArg::Vector(_) => Err(AlgebrizerError::InvalidGroundConstant),
            FnArg::SrcVar(_) => Err(AlgebrizerError::InvalidGroundConstant),
        }
    }
}

/// With an empty admissible set, resolution returns the type-mismatch
/// contradiction — existing types empty, desired types unrestricted —
/// whatever shape the argument takes.
pub proof fn lemma_empty_types_always_impossible(
    cc: ConjoiningClauses,
    schema: Schema,
    var: Variable,
    arg: FnArg,
    known_types: ValueTypeSet,
)
    requires
        known_types.is_empty_spec(),
    ensures
        resolve_spec(cc, schema, var, arg, known_types) == Ok::<ValueConversion, AlgebrizerError>(
            ValueConversion::Impossible(
                EmptyBecause::TypeMismatch {
                    var,
                    existing: known_types,
                    desired: ValueTypeSet::any_spec(),
                },
            ),
        ),
{
}

/// An integer literal within reference range, with both the reference and
/// the plain-integer reading admissible, always resolves to the plain
/// integer, never to the reference: the default is deterministic.
pub proof fn lemma_integer_ambiguity_defaults_to_long(
    cc: ConjoiningClauses,
    schema: Schema,
    var: Variable,
    known_types: ValueTypeSet,
    x: i64,
)
    requires
        known_types.contains_spec(ValueType::Ref),
        known_types.contains_spec(ValueType::Long),
        ValueType::Ref.accommodates_integer_spec(x),
    ensures
        resolve_spec(cc, schema, var, FnArg::EntidOrInteger(x), known_types) == Ok::<
            ValueConversion,
            AlgebrizerError,
        >(ValueConversion::Val(TypedValue::Long(x))),
{
}

/// A symbolic name, with both the identifier and the keyword reading
/// admissible, always resolves to the keyword carrying the name itself.
pub proof fn lemma_ident_ambiguity_defaults_to_keyword(
    cc: ConjoiningClauses,
    schema: Schema,
    var: Variable,
    known_types: ValueTypeSet,
    x: String,
)
    requires
        known_types.contains_spec(ValueType::Ref),
        known_types.contains_spec(ValueType::Keyword),
    ensures
        resolve_spec(cc, schema, var, FnArg::IdentOrKeyword(x), known_types) == Ok::<
            ValueConversion,
            AlgebrizerError,
        >(ValueConversion::Val(TypedValue::Keyword(x))),
{
}

/// Whenever the keyword reading of a symbolic name is admissible, the
/// outcome is the same under every catalog: resolution decides without
/// consulting it.
pub proof fn lemma_keyword_reading_consults_no_catalog(
    cc: ConjoiningClauses,
    schema1: Schema,
    schema2: Schema,
    var: Variable,
    known_types: ValueTypeSet,
    x: String,
)
    requires
        known_types.contains_spec(ValueType::Keyword),
    ensures
        resolve_spec(cc, schema1, var, FnArg::IdentOrKeyword(x), known_types) == resolve_spec(
            cc,
            schema2,
            var,
            FnArg::IdentOrKeyword(x),
            known_types,
        ),
{
}

/// Round trip for the unambiguous constants: with the admissible set
/// holding exactly the constant's own type, resolution returns the matching
/// typed value with a payload equal to the input literal.
pub proof fn lemma_constant_round_trip(
    cc: ConjoiningClauses,
    schema: Schema,
    var: Variable,
    c: NonIntegerConstant,
)
    requires
        !(c is BigInteger),
    ensures
        resolve_spec(
            cc,
            schema,
            var,
            FnArg::Constant(c),
            ValueTypeSet::of_one_spec(constant_value_type(c)),
        ) == Ok::<ValueConversion, AlgebrizerError>(
            ValueConversion::Val(constant_typed_value(c)),
        ),
{
    let known_types = ValueTypeSet::of_one_spec(constant_value_type(c));
    assert(known_types.contains_spec(constant_value_type(c)));
    assert(!known_types.is_empty_spec());
}

/// A symbolic name that must resolve as an identifier but is absent from
/// the catalog yields the unresolved-identifier reason naming it — a normal
/// planning outcome, never a hard error.
pub proof fn lemma_catalog_miss_is_impossible_not_error(
    cc: ConjoiningClauses,
    schema: Schema,
    var: Variable,
    known_types: ValueTypeSet,
    x: String,
)
    requires
        known_types.contains_spec(ValueType::Ref),
        !known_types.contains_spec(ValueType::Keyword),
        schema.entid_spec(x@) is None,
    ensures
        resolve_spec(cc, schema, var, FnArg::IdentOrKeyword(x), known_types) == Ok::<
            ValueConversion,
            AlgebrizerError,
        >(ValueConversion::Impossible(EmptyBecause::UnresolvedIdent(x))),
{
}

/// A variable argument that was never declared as an input, or was declared
/// but has no value supplied yet, is a hard error naming the variable.
/// (With an already-empty admissible set the short-circuit answers first,
/// so that case is left out here.)
pub proof fn lemma_unbound_variable_is_hard_error(
    cc: ConjoiningClauses,
    schema: Schema,
    var: Variable,
    known_types: ValueTypeSet,
    v: Variable,
)
    requires
        !known_types.is_empty_spec(),
        !cc.is_input_spec(v@) || cc.bound_value_spec(v@) is None,
    ensures
        resolve_spec(cc, schema, var, FnArg::Variable(v), known_types) == Err::<
            ValueConversion,
            AlgebrizerError,
        >(AlgebrizerError::UnboundVariable(v.name)),
{
}

/// Coerce an unambiguous constant's typed value `value`, of value type `t`,
/// against the admissible set: the value itself when `t` is admissible,
/// otherwise the type-mismatch reason desiring exactly `t`.
fn coerce_to_typed_value(
    var: &Variable,
    known_types: ValueTypeSet,
    t: ValueType,
    value: TypedValue,
) -> (r: ValueConversion)
    ensures
        r == (if known_types.contains_spec(t) {
            ValueConversion::Val(value)
        } else {
            ValueConversion::Impossible(
                EmptyBecause::TypeMismatch {
                    var: *var,
                    existing: known_types,
                    desired: ValueTypeSet::of_one_spec(t),
                },
            )
        }),
{
    if !known_types.contains(t) {
        ValueConversion::Impossible(
            EmptyBecause::TypeMismatch {
                var: var.clone(),
                existing: known_types,
                desired: ValueTypeSet::of_one(t),
            },
        )
    } else {
        ValueConversion::Val(value)
    }
}

impl ConjoiningClauses {
    /// Convert the provided `FnArg` to a `TypedValue`, or report why the
    /// clause can never match. The conversion depends on, and can fail
    /// because of, the types already admissible for the variable `var` this
    /// argument will be bound to, and the existing binding of a variable
    /// argument. Neither `known_types`, the catalog, nor the bound-value map
    /// is mutated; narrowing the variable's types from the outcome is the
    /// caller's responsibility.
    pub fn typed_value_from_arg(
        &self,
        schema: &Schema,
        var: &Variable,
        arg: FnArg,
        known_types: ValueTypeSet,
    ) -> (r: Result<ValueConversion, AlgebrizerError>)
        ensures
            r == resolve_spec(*self, *schema, *var, arg, known_types),
    {
        if known_types.is_empty() {
            // If this happens, the pattern has already failed: do no
            // further work.
            return Ok(
                ValueConversion::Impossible(
                    EmptyBecause::TypeMismatch {
                        var: var.clone(),
                        existing: known_types,
                        desired: ValueTypeSet::any(),
                    },
                ),
            );
        }
        match arg {
            // Integer literals are potentially ambiguous: a plain integer
            // or an entity reference.
            FnArg::EntidOrInteger(x) => {
                match (ValueType::Ref.accommodates_integer(x), known_types.contains(
                    ValueType::Ref,
                ), known_types.contains(ValueType::Long)) {
                    (true, true, true) => {
                        // Ambiguous: default to the plain integer.
                        Ok(ValueConversion::Val(TypedValue::Long(x)))
                    },
                    (true, true, false) => {
                        // This can only be a reference.
                        Ok(ValueConversion::Val(TypedValue::Ref(x)))
                    },
                    (_, false, true) => {
                        // This can only be a plain integer.
                        Ok(ValueConversion::Val(TypedValue::Long(x)))
                    },
                    (false, true, _) => {
                        // Not a plausible reference, but a reference is the
                        // type to which this must conform.
                        Ok(
                            ValueConversion::Impossible(
                                EmptyBecause::TypeMismatch {
                                    var: var.clone(),
                                    existing: known_types,
                                    desired: ValueTypeSet::of_longs(),
                                },
                            ),
                        )
                    },
                    (_, false, false) => {
                        // Non-overlapping type sets.
                        Ok(
                            ValueConversion::Impossible(
                                EmptyBecause::TypeMismatch {
                                    var: var.clone(),
                                    existing: known_types,
                                    desired: ValueTypeSet::of_longs(),
                                },
                            ),
                        )
                    },
                }
            },
            // Symbolic names are potentially ambiguous: an identifier or a
            // keyword. Whoever definitely wants an identifier looked up
            // should do so before running the query.
            FnArg::IdentOrKeyword(x) => {
                match (known_types.contains(ValueType::Ref), known_types.contains(
                    ValueType::Keyword,
                )) {
                    (true, true) => {
                        // Ambiguous: default to the keyword, without
                        // touching the catalog.
                        Ok(ValueConversion::Val(TypedValue::Keyword(x)))
                    },
                    (true, false) => {
                        // This can only be an identifier: look it up.
                        match schema.get_entid(&x) {
                            Some(e) => Ok(ValueConversion::Val(TypedValue::Ref(e))),
                            None => Ok(
                                ValueConversion::Impossible(EmptyBecause::UnresolvedIdent(x)),
                            ),
                        }
                    },
                    (false, true) => Ok(ValueConversion::Val(TypedValue::Keyword(x))),
                    (false, false) => Ok(
                        ValueConversion::Impossible(
                            EmptyBecause::TypeMismatch {
                                var: var.clone(),
                                existing: known_types,
                                desired: ValueTypeSet::of_keywords(),
                            },
                        ),
                    ),
                }
            },
            FnArg::Variable(in_var) => {
                if !self.is_input_variable(&in_var) {
                    return Err(AlgebrizerError::UnboundVariable(in_var.name));
                }
                match self.bound_value(&in_var) {
                    // The value is already known if the variable was bound.
                    Some(value) => Ok(ValueConversion::Val(value)),
                    // The variable was declared as an input but has not yet
                    // been provided: values contributed by later stages are
                    // not supported here.
                    None => Err(AlgebrizerError::UnboundVariable(in_var.name)),
                }
            },
            FnArg::Constant(c) => {
                match c {
                    // Arbitrary-precision integers are not yet supported by
                    // the value model.
                    NonIntegerConstant::BigInteger(_) => Err(AlgebrizerError::UnsupportedBigInteger),
                    // The remaining constants are unambiguous.
                    NonIntegerConstant::Boolean(x) => Ok(
                        coerce_to_typed_value(
                            var,
                            known_types,
                            ValueType::Boolean,
                            TypedValue::Boolean(x),
                        ),
                    ),
                    NonIntegerConstant::Instant(x) => Ok(
                        coerce_to_typed_value(
                            var,
                            known_types,
                            ValueType::Instant,
                            TypedValue::Instant(x),
                        ),
                    ),
                    NonIntegerConstant::Uuid(x) => Ok(
                        coerce_to_typed_value(
                            var,
                            known_types,
                            ValueType::Uuid,
                            TypedValue::Uuid(x),
                        ),
                    ),
                    NonIntegerConstant::Float(x) => Ok(
                        coerce_to_typed_value(
                            var,
                            known_types,
                            ValueType::Double,
                            TypedValue::Double(x),
                        ),
                    ),
                    NonIntegerConstant::Text(x) => Ok(
                        coerce_to_typed_value(
                            var,
                            known_types,
                            ValueType::String,
                            TypedValue::String(x),
                        ),
                    ),
                }
            },
            // These make no sense in this position.
            FnArg::Vector(_) => Err(AlgebrizerError::InvalidGroundConstant),
            FnArg::SrcVar(_) => Err(AlgebrizerError::InvalidGroundConstant),
        }
    }
}

} // verus!
