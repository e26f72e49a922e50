//! The value type model: the closed set of semantic value types, a compact
//! set-of-types representation, and the typed values that resolution
//! produces.

use vstd::prelude::*;
use crate::query::Variable;

verus! {

/// The closed set of semantic value types a query value may take.
#[derive(Clone, Copy, Debug, PartialEq, Eq, Structural)]
pub enum ValueType {
    Ref,
    Long,
    Double,
    String,
    Boolean,
    Instant,
    Uuid,
    Keyword,
}

impl ValueType {
    /// Whether an integer literal can denote a value of this type. A
    /// reference identifier lives in the catalog's non-negative id space, so
    /// only a non-negative literal is a plausible reference.
    pub open spec fn accommodates_integer_spec(self, x: i64) -> bool {
        match self {
            ValueType::Ref => 0 <= x,
            ValueType::Long => true,
            ValueType::Double => true,
            ValueType::Boolean => x == 0 || x == 1,
            _ => false,
        }
    }

    /// True iff the integer literal `x` falls within the legal range of a
    /// value of this type.
    pub fn accommodates_integer(self, x: i64) -> (r: bool)
        ensures
            r == self.accommodates_integer_spec(x),
    {
        match self {
            ValueType::Ref => 0 <= x,
            ValueType::Long => true,
            ValueType::Double => true,
            ValueType::Boolean => x == 0 || x == 1,
            _ => false,
        }
    }
}

/// An immutable set over `ValueType`, one membership flag per type.
///
/// The empty set does not mean "no constraint": it is the contradiction
/// state, recording that no type at all is admissible. "No restriction" is
/// the full set, `any()`.
#[derive(Clone, Copy, Debug, PartialEq, Eq, Structural)]
pub struct ValueTypeSet {
    pub has_ref: bool,
    pub has_long: bool,
    pub has_double: bool,
    pub has_string: bool,
    pub has_boolean: bool,
    pub has_instant: bool,
    pub has_uuid: bool,
    pub has_keyword: bool,
}

impl ValueTypeSet {
    /// Membership of `t` in the set.
    pub open spec fn contains_spec(self, t: ValueType) -> bool {
        match t {
            ValueType::Ref => self.has_ref,
            ValueType::Long => self.has_long,
            ValueType::Double => self.has_double,
            ValueType::String => self.has_string,
            ValueType::Boolean => self.has_boolean,
            ValueType::Instant => self.has_instant,
            ValueType::Uuid => self.has_uuid,
            ValueType::Keyword => self.has_keyword,
        }
    }

    /// The set as a mathematical set of value types.
    pub open spec fn view(self) -> Set<ValueType> {
        Set::new(|t: ValueType| self.contains_spec(t))
    }

    /// The set holds no type at all: the contradiction state.
    pub open spec fn is_empty_spec(self) -> bool {
        !self.has_ref && !self.has_long && !self.has_double && !self.has_string
            && !self.has_boolean && !self.has_instant && !self.has_uuid && !self.has_keyword
    }

    pub open spec fn none_spec() -> ValueTypeSet {
        ValueTypeSet {
            has_ref: false,
            has_long: false,
            has_double: false,
            has_string: false,
            has_boolean: false,
            has_instant: false,
            has_uuid: false,
            has_keyword: false,
        }
    }

    pub open spec fn any_spec() -> ValueTypeSet {
        ValueTypeSet {
            has_ref: true,
            has_long: true,
            has_double: true,
            has_string: true,
            has_boolean: true,
            has_instant: true,
            has_uuid: true,
            has_keyword: true,
        }
    }

    pub open spec fn of_one_spec(t: ValueType) -> ValueTypeSet {
        ValueTypeSet {
            has_ref: t == ValueType::Ref,
            has_long: t == ValueType::Long,
            has_double: t == ValueType::Double,
            has_string: t == ValueType::String,
            has_boolean: t == ValueType::Boolean,
            has_instant: t == ValueType::Instant,
            has_uuid: t == ValueType::Uuid,
            has_keyword: t == ValueType::Keyword,
        }
    }

    /// Ref together with Long: the two types an integer literal can denote.
    pub open spec fn of_longs_spec() -> ValueTypeSet {
        ValueTypeSet {
            has_ref: true,
            has_long: true,
            has_double: false,
            has_string: false,
            has_boolean: false,
            has_instant: false,
            has_uuid: false,
            has_keyword: false,
        }
    }

    /// Ref together with Keyword: the two types a symbolic name can denote.
    pub open spec fn of_keywords_spec() -> ValueTypeSet {
        ValueTypeSet {
            has_ref: true,
            has_long: false,
            has_double: false,
            has_string: false,
            has_boolean: false,
            has_instant: false,
            has_uuid: false,
            has_keyword: true,
        }
    }

    pub open spec fn union_spec(self, other: ValueTypeSet) -> ValueTypeSet {
        ValueTypeSet {
            has_ref: self.has_ref || other.has_ref,
            has_long: self.has_long || other.has_long,
            has_double: self.has_double || other.has_double,
            has_string: self.has_string || other.has_string,
            has_boolean: self.has_boolean || other.has_boolean,
            has_instant: self.has_instant || other.has_instant,
            has_uuid: self.has_uuid || other.has_uuid,
            has_keyword: self.has_keyword || other.has_keyword,
        }
    }

    /// The empty set: no type is admissible.
    pub fn none() -> (r: ValueTypeSet)
        ensures
            r == Self::none_spec(),
    {
        ValueTypeSet {
            has_ref: false,
            has_long: false,
            has_double: false,
            has_string: false,
            has_boolean: false,
            has_instant: false,
            has_uuid: false,
            has_keyword: false,
        }
    }

    /// The full set: no restriction on the type.
    pub fn any() -> (r: ValueTypeSet)
        ensures
            r == Self::any_spec(),
    {
        ValueTypeSet {
            has_ref: true,
            has_long: true,
            has_double: true,
            has_string: true,
            has_boolean: true,
            has_instant: true,
            has_uuid: true,
            has_keyword: true,
        }
    }

    /// The singleton set holding exactly `t`.
    pub fn of_one(t: ValueType) -> (r: ValueTypeSet)
        ensures
            r == Self::of_one_spec(t),
            forall|u: ValueType| r.contains_spec(u) <==> u == t,
    {
        ValueTypeSet {
            has_ref: matches!(t, ValueType::Ref),
            has_long: matches!(t, ValueType::Long),
            has_double: matches!(t, ValueType::Double),
            has_string: matches!(t, ValueType::String),
            has_boolean: matches!(t, ValueType::Boolean),
            has_instant: matches!(t, ValueType::Instant),
            has_uuid: matches!(t, ValueType::Uuid),
            has_keyword: matches!(t, ValueType::Keyword),
        }
    }

    /// Ref together with Long.
    pub fn of_longs() -> (r: ValueTypeSet)
        ensures
            r == Self::of_longs_spec(),
    {
        ValueTypeSet {
            has_ref: true,
            has_long: true,
            has_double: false,
            has_string: false,
            has_boolean: false,
            has_instant: false,
            has_uuid: false,
            has_keyword: false,
        }
    }

    /// Ref together with Keyword.
    pub fn of_keywords() -> (r: ValueTypeSet)
        ensures
            r == Self::of_keywords_spec(),
    {
        ValueTypeSet {
            has_ref: true,
            has_long: false,
            has_double: false,
            has_string: false,
            has_boolean: false,
            has_instant: false,
            has_uuid: false,
            has_keyword: true,
        }
    }

    /// Membership test.
    pub fn contains(&self, t: ValueType) -> (r: bool)
        ensures
            r == self.contains_spec(t),
    {
        match t {
            ValueType::Ref => self.has_ref,
            ValueType::Long => self.has_long,
            ValueType::Double => self.has_double,
            ValueType::String => self.has_string,
            ValueType::Boolean => self.has_boolean,
            ValueType::Instant => self.has_instant,
            ValueType::Uuid => self.has_uuid,
            ValueType::Keyword => self.has_keyword,
        }
    }

    /// Whether the set is the contradiction state.
    pub fn is_empty(&self) -> (r: bool)
        ensures
            r == self.is_empty_spec(),
            r <==> forall|t: ValueType| !self.contains_spec(t),
    {
        proof {
            if self.is_empty_spec() {
                assert(forall|t: ValueType| !self.contains_spec(t));
            } else {
                assert(!(forall|t: ValueType| !self.contains_spec(t))) by {
                    if self.has_ref {
                        assert(self.contains_spec(ValueType::Ref));
                    } else if self.has_long {
                        assert(self.contains_spec(ValueType::Long));
                    } else if self.has_double {
                        assert(self.contains_spec(ValueType::Double));
                    } else if self.has_string {
                        assert(self.contains_spec(ValueType::String));
                    } else if self.has_boolean {
                        assert(self.contains_spec(ValueType::Boolean));
                    } else if self.has_instant {
                        assert(self.contains_spec(ValueType::Instant));
                    } else if self.has_uuid {
                        assert(self.contains_spec(ValueType::Uuid));
                    } else {
                        assert(self.contains_spec(ValueType::Keyword));
                    }
                }
            }
        }
        !self.has_ref && !self.has_long && !self.has_double && !self.has_string
            && !self.has_boolean && !self.has_instant && !self.has_uuid && !self.has_keyword
    }

    /// The union of the two sets.
    pub fn union(&self, other: &ValueTypeSet) -> (r: ValueTypeSet)
        ensures
            r == self.union_spec(*other),
            forall|t: ValueType|
                r.contains_spec(t) <==> (self.contains_spec(t) || other.contains_spec(t)),
    {
        ValueTypeSet {
            has_ref: self.has_ref || other.has_ref,
            has_long: self.has_long || other.has_long,
            has_double: self.has_double || other.has_double,
            has_string: self.has_string || other.has_string,
            has_boolean: self.has_boolean || other.has_boolean,
            has_instant: self.has_instant || other.has_instant,
            has_uuid: self.has_uuid || other.has_uuid,
            has_keyword: self.has_keyword || other.has_keyword,
        }
    }
}

/// A concrete value paired with its resolved type: the stable output currency
/// of the resolution engine.
///
/// A `Double` carries the IEEE-754 bit pattern of its floating-point payload;
/// the core never interprets the bits, it only carries them. An `Instant` is
/// a timestamp in microseconds since the epoch, a `Uuid` a 128-bit
/// identifier.
#[derive(Debug, PartialEq, Eq)]
pub enum TypedValue {
    Ref(i64),
    Long(i64),
    Double(u64),
    String(String),
    Boolean(bool),
    Instant(i64),
    Uuid(u128),
    Keyword(String),
}

impl Clone for TypedValue {
    /// An exact copy: the clone is equal to the original.
    fn clone(&self) -> (res: Self)
        ensures
            res == *self,
    {
        match self {
            TypedValue::Ref(x) => TypedValue::Ref(*x),
            TypedValue::Long(x) => TypedValue::Long(*x),
            TypedValue::Double(x) => TypedValue::Double(*x),
            TypedValue::String(s) => TypedValue::String(s.clone()),
            TypedValue::Boolean(x) => TypedValue::Boolean(*x),
            TypedValue::Instant(x) => TypedValue::Instant(*x),
            TypedValue::Uuid(x) => TypedValue::Uuid(*x),
            TypedValue::Keyword(s) => TypedValue::Keyword(s.clone()),
        }
    }
}

/// Why a clause is statically unsatisfiable, carried as data rather than
/// thrown, so callers can prune the clause and aggregate reasons.
#[derive(Clone, Debug, PartialEq, Eq)]
pub enum EmptyBecause {
    /// The types already admissible for `var` (`existing`) do not meet the
    /// types the argument could take (`desired`).
    TypeMismatch { var: Variable, existing: ValueTypeSet, desired: ValueTypeSet },
    /// A symbolic name had to resolve as an identifier but the catalog has no
    /// entry for it.
    UnresolvedIdent(String),
}

} // verus!
