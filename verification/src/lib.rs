//! Constraint-resolution core of a Datalog-style query algebrizer.
//!
//! The algebrizer turns a parsed query's function-argument literals and
//! variables into concrete, type-checked values. A single surface literal can
//! denote more than one semantic value type (an integer may be an entity
//! reference or a plain integer), and the right reading depends on the set of
//! types already known to be admissible for the destination variable. The
//! resolution engine in [`convert`] settles that ambiguity deterministically,
//! detects genuine type contradictions, and reports a statically
//! unsatisfiable clause as data rather than as an error, so the surrounding
//! algebrizer can prune the clause and continue.

pub mod clauses;
pub mod convert;
pub mod errors;
pub mod query;
pub mod schema;
pub mod types;
