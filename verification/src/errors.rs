//! Hard failures of algebrization. These indicate a malformed query or an
//! unimplemented feature, never a mere "this clause can't match": the latter
//! is reported as data, through `convert::ValueConversion::Impossible`.

use vstd::prelude::*;

verus! {

/// The error channel of the resolution engine. An error aborts
/// algebrization of the query; structured unsatisfiability never takes this
/// channel.
#[derive(Clone, Debug, PartialEq, Eq)]
pub enum AlgebrizerError {
    /// A variable was used as an argument without being declared as an
    /// input, or was declared but had no value supplied yet. Carries the
    /// variable's name.
    UnboundVariable(String),
    /// The argument's shape (a nested vector, a source-variable marker) is
    /// syntactically impossible in this position.
    InvalidGroundConstant,
    /// An arbitrary-precision integer constant: the value model does not
    /// support these yet, and the limitation must fail loudly rather than
    /// mis-convert.
    UnsupportedBigInteger,
}

} // verus!
