//! Operator core of an authorization policy language: the built-in unary and
//! binary operators, the runtime values they act on, the entity store they
//! consult, and the errors they report.

pub mod ops;
pub mod value;
pub mod error;
pub mod entities;
pub mod eval;
pub mod laws;
