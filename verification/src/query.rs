//! The argument model: the syntactic forms a function argument may take when
//! it reaches the resolution engine, and the query variables they refer to.

use vstd::prelude::*;

verus! {

/// A named query variable. Variables are compared by name alone; the name is
/// never mutated once the variable is built.
#[derive(Debug)]
pub struct Variable {
    pub name: String,
}

impl View for Variable {
    type V = Seq<char>;

    open spec fn view(&self) -> Seq<char> {
        self.name@
    }
}

impl Variable {
    pub fn new(name: String) -> (r: Variable)
        ensures
            r@ == name@,
    {
        Variable { name }
    }
}

impl Clone for Variable {
    /// An exact copy: the clone is equal to the original.
    fn clone(&self) -> (res: Self)
        ensures
            res == *self,
    {
        Variable { name: self.name.clone() }
    }
}

impl PartialEq for Variable {
    /// Variables are equal exactly when their names spell the same.
    fn eq(&self, other: &Variable) -> (r: bool)
        ensures
            r == (self@ == other@),
    {
        self.name == other.name
    }
}

impl vstd::std_specs::cmp::PartialEqSpecImpl for Variable {
    open spec fn obeys_eq_spec() -> bool {
        true
    }

    open spec fn eq_spec(&self, other: &Variable) -> bool {
        self@ == other@
    }
}

impl Eq for Variable {

}

/// A strongly-typed constant literal: an argument form that is not ambiguous
/// between two value types.
///
/// A `Float` carries the IEEE-754 bit pattern of its payload; the core never
/// interprets the bits. A `BigInteger` carries the decimal text of an
/// arbitrary-precision literal, a form the value model does not yet support.
#[derive(Clone, Debug, PartialEq, Eq)]
pub enum NonIntegerConstant {
    Boolean(bool),
    Instant(i64),
    Uuid(u128),
    Float(u64),
    Text(String),
    BigInteger(String),
}

/// One function-argument position of a parsed query clause, as the parser
/// hands it over: possibly ambiguous, not yet type-checked. Consumed
/// exactly once by the resolution engine.
#[derive(Debug, PartialEq, Eq)]
pub enum FnArg {
    /// An integer literal: an entity reference or a plain integer.
    EntidOrInteger(i64),
    /// A symbolic name: an identifier to look up in the catalog, or a
    /// keyword kept as a literal symbol.
    IdentOrKeyword(String),
    /// A reference to another query variable.
    Variable(Variable),
    /// An unambiguous constant literal.
    Constant(NonIntegerConstant),
    /// A nested list: structurally invalid in this position.
    Vector(Vec<FnArg>),
    /// A source-variable marker: structurally invalid in this position.
    SrcVar(String),
}

} // verus!
