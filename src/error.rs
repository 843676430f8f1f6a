//! Evaluation failures.

use vstd::prelude::*;

use crate::ops::Operator;
use crate::value::{EntityUid, ValueKind};

verus! {

/// Why applying an operator failed.
#[derive(Debug)]
pub enum EvalError {
    /// An operand does not have the type that the operator needs.
    TypeError { op: Operator, expected: ValueKind, got: ValueKind },
    /// Integer arithmetic or negation left the 64-bit signed range.
    Overflow { op: Operator },
    /// `getTag` named a tag that the entity does not have.
    TagNotFound { entity: EntityUid, tag: String },
    /// The entity store does not know the entity.
    UnknownEntity { entity: EntityUid },
}

} // verus!
