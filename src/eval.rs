//! Applying the built-in operators to runtime values.

use vstd::prelude::*;

use crate::entities::{has_ancestor, lists_ancestor, find_tag, tag_value, Entities};
use crate::error::EvalError;
use crate::ops::{BinaryOp, Operator, UnaryOp};
use crate::value::{
    all_contained, all_elements_in, contained_in, element_in, identical, kind_of, uid_eq,
    value_eq, values_equal, EntityUid, Value, ValueKind,
};

verus! {

/// The type error for operand `v` of `op`, which needed a value of kind `expected`.
pub open spec fn type_error(op: Operator, expected: ValueKind, v: Value) -> Result<Value, EvalError> {
    Err(EvalError::TypeError { op, expected, got: kind_of(v) })
}

/// What a unary operator gives on `v`.
pub open spec fn unary_result(op: UnaryOp, v: Value) -> Result<Value, EvalError> {
    match op {
        UnaryOp::Not => match v {
            Value::Bool(b) => Ok(Value::Bool(!b)),
            _ => type_error(Operator::Unary(op), ValueKind::Bool, v),
        },
        UnaryOp::Neg => match v {
            Value::Long(n) => if n == i64::MIN {
                Err(EvalError::Overflow { op: Operator::Unary(op) })
            } else {
                Ok(Value::Long((-n) as i64))
            },
            _ => type_error(Operator::Unary(op), ValueKind::Long, v),
        },
        UnaryOp::IsEmpty => match v {
            Value::SetOf(xs) => Ok(Value::Bool(xs@.len() == 0)),
            _ => type_error(Operator::Unary(op), ValueKind::SetOf, v),
        },
    }
}

/// Applies a unary operator.
pub fn apply_unary(op: UnaryOp, operand: &Value) -> (r: Result<Value, EvalError>)
    ensures
        r == unary_result(op, *operand),
{
    match op {
        UnaryOp::Not => match operand {
            Value::Bool(b) => Ok(Value::Bool(!*b)),
            _ => Err(EvalError::TypeError { op: Operator::Unary(op), expected: ValueKind::Bool, got: operand.kind() }),
        },
        UnaryOp::Neg => match operand {
            Value::Long(n) => if *n == i64::MIN {
                Err(EvalError::Overflow { op: Operator::Unary(op) })
            } else {
                Ok(Value::Long(-*n))
            },
            _ => Err(EvalError::TypeError { op: Operator::Unary(op), expected: ValueKind::Long, got: operand.kind() }),
        },
        UnaryOp::IsEmpty => match operand {
            Value::SetOf(xs) => Ok(Value::Bool(xs.len() == 0)),
            _ => Err(EvalError::TypeError { op: Operator::Unary(op), expected: ValueKind::SetOf, got: operand.kind() }),
        },
    }
}

/// The exact result of integer `op` on `a` and `b`.
pub open spec fn arith(op: BinaryOp, a: int, b: int) -> int {
    match op {
        BinaryOp::Add => a + b,
        BinaryOp::Sub => a - b,
        _ => a * b,
    }
}

/// `i` is the first element of `rs` that is not an entity.
pub open spec fn is_first_non_entity(rs: Seq<Value>, i: int) -> bool {
    &&& 0 <= i < rs.len()
    &&& !(rs[i] is Entity)
    &&& forall|k: int| 0 <= k < i ==> (#[trigger] rs[k]) is Entity
}

/// Some element of `rs` is not an entity.
pub open spec fn has_non_entity(rs: Seq<Value>) -> bool {
    exists|i: int| 0 <= i < rs.len() && !(#[trigger] rs[i] is Entity)
}

/// What `in` gives for entity `lu` and a set `rs` of operands.
pub open spec fn in_set_result(es: Entities, lu: EntityUid, rs: Seq<Value>) -> Result<Value, EvalError> {
    if has_non_entity(rs) {
        type_error(
            Operator::Binary(BinaryOp::In),
            ValueKind::Entity,
            rs[choose|i: int| is_first_non_entity(rs, i)],
        )
    } else if exists|i: int| 0 <= i < rs.len() && uid_eq(lu, #[trigger] rs[i]->Entity_0) {
        Ok(Value::Bool(true))
    } else if rs.len() == 0 {
        Ok(Value::Bool(false))
    } else {
        match es.lookup(lu) {
            None => Err(EvalError::UnknownEntity { entity: lu }),
            Some(d) => Ok(Value::Bool(
                exists|i: int| 0 <= i < rs.len() && has_ancestor(d, #[trigger] rs[i]->Entity_0),
            )),
        }
    }
}

/// Some element of `ys` equals some element of `xs`.
pub open spec fn shares_element(xs: Seq<Value>, ys: Seq<Value>) -> bool {
    exists|j: int| 0 <= j < ys.len() && contained_in(#[trigger] ys[j], xs)
}

/// What a binary operator gives on `l` and `r`, with the entity store `es`.
pub open spec fn binary_result(op: BinaryOp, l: Value, r: Value, es: Entities) -> Result<Value, EvalError> {
    let o = Operator::Binary(op);
    match op {
        BinaryOp::Eq => Ok(Value::Bool(value_eq(l, r))),
        BinaryOp::Less | BinaryOp::LessEq => match (l, r) {
            (Value::Long(a), Value::Long(b)) => Ok(Value::Bool(
                if op == BinaryOp::Less { a < b } else { a <= b },
            )),
            (Value::Long(_), _) => type_error(o, ValueKind::Long, r),
            _ => type_error(o, ValueKind::Long, l),
        },
        BinaryOp::Add | BinaryOp::Sub | BinaryOp::Mul => match (l, r) {
            (Value::Long(a), Value::Long(b)) => {
                let m = arith(op, a as int, b as int);
                if i64::MIN <= m <= i64::MAX {
                    Ok(Value::Long(m as i64))
                } else {
                    Err(EvalError::Overflow { op: o })
                }
            },
            (Value::Long(_), _) => type_error(o, ValueKind::Long, r),
            _ => type_error(o, ValueKind::Long, l),
        },
        BinaryOp::In => match l {
            Value::Entity(lu) => match r {
                Value::Entity(ru) => if uid_eq(lu, ru) {
                    Ok(Value::Bool(true))
                } else {
                    match es.lookup(lu) {
                        None => Err(EvalError::UnknownEntity { entity: lu }),
                        Some(d) => Ok(Value::Bool(has_ancestor(d, ru))),
                    }
                },
                Value::SetOf(rs) => in_set_result(es, lu, rs@),
                _ => type_error(o, ValueKind::Entity, r),
            },
            _ => type_error(o, ValueKind::Entity, l),
        },
        BinaryOp::Contains => match l {
            Value::SetOf(xs) => Ok(Value::Bool(contained_in(r, xs@))),
            _ => type_error(o, ValueKind::SetOf, l),
        },
        BinaryOp::ContainsAll | BinaryOp::ContainsAny => match (l, r) {
            (Value::SetOf(xs), Value::SetOf(ys)) => Ok(Value::Bool(
                if op == BinaryOp::ContainsAll {
                    all_contained(ys@, xs@)
                } else {
                    shares_element(xs@, ys@)
                },
            )),
            (Value::SetOf(_), _) => type_error(o, ValueKind::SetOf, r),
            _ => type_error(o, ValueKind::SetOf, l),
        },
        BinaryOp::GetTag | BinaryOp::HasTag => match (l, r) {
            (Value::Entity(u), Value::Str(t)) => match es.lookup(u) {
                None => Err(EvalError::UnknownEntity { entity: u }),
                Some(d) => match tag_value(d.tags@, t@) {
                    Some(v) => if op == BinaryOp::GetTag {
                        Ok(v)
                    } else {
                        Ok(Value::Bool(true))
                    },
                    None => if op == BinaryOp::GetTag {
                        Err(EvalError::TagNotFound { entity: u, tag: t })
                    } else {
                        Ok(Value::Bool(false))
                    },
                },
            },
            (Value::Entity(_), _) => type_error(o, ValueKind::Str, r),
            _ => type_error(o, ValueKind::Entity, l),
        },
    }
}

/// `r` is the outcome `s`, with a value in it copied identically.
pub open spec fn same_outcome(r: Result<Value, EvalError>, s: Result<Value, EvalError>) -> bool {
    match r {
        Ok(v) => s is Ok && identical(s->Ok_0, v),
        Err(e) => s == Err::<Value, EvalError>(e),
    }
}

/// The type error for operand `v` of `op`.
fn type_error_of(op: Operator, expected: ValueKind, v: &Value) -> (r: Result<Value, EvalError>)
    ensures
        r == type_error(op, expected, *v),
{
    Err(EvalError::TypeError { op, expected, got: v.kind() })
}

/// `in` for entity `lu` and the elements `rs` of a set.
fn in_set(lu: &EntityUid, rs: &Vec<Value>, es: &Entities) -> (r: Result<Value, EvalError>)
    ensures
        r == in_set_result(*es, *lu, rs@),
{
    let mut i: usize = 0;
    while i < rs.len()
        invariant
            i <= rs@.len(),
            forall|k: int| 0 <= k < i ==> (#[trigger] rs@[k]) is Entity,
        decreases rs.len() - i,
    {
        if !(rs[i].kind() == ValueKind::Entity) {
            proof {
                assert(is_first_non_entity(rs@, i as int));
                let j = choose|j: int| is_first_non_entity(rs@, j);
                if j < i {
                    assert(rs@[j] is Entity);
                } else if j > i {
                    assert(rs@[i as int] is Entity);
                }
            }
            return type_error_of(Operator::Binary(BinaryOp::In), ValueKind::Entity, &rs[i]);
        }
        i = i + 1;
    }
    let mut i: usize = 0;
    while i < rs.len()
        invariant
            i <= rs@.len(),
            !has_non_entity(rs@),
            forall|k: int| 0 <= k < i ==> !uid_eq(*lu, (#[trigger] rs@[k])->Entity_0),
        decreases rs.len() - i,
    {
        match &rs[i] {
            Value::Entity(u) => {
                if lu.same(u) {
                    return Ok(Value::Bool(true));
                }
            },
            _ => {},
        }
        i = i + 1;
    }
    if rs.len() == 0 {
        return Ok(Value::Bool(false));
    }
    match es.find(lu) {
        None => Err(EvalError::UnknownEntity { entity: lu.copy() }),
        Some(idx) => {
            let d = &es.entries[idx];
            let mut i: usize = 0;
            while i < rs.len()
                invariant
                    i <= rs@.len(),
                    !has_non_entity(rs@),
                    rs@.len() > 0,
                    es.lookup(*lu) == Some(*d),
                    forall|k: int| 0 <= k < rs@.len() ==> !uid_eq(*lu, (#[trigger] rs@[k])->Entity_0),
                    forall|k: int| 0 <= k < i ==> !has_ancestor(*d, (#[trigger] rs@[k])->Entity_0),
                decreases rs.len() - i,
            {
                match &rs[i] {
                    Value::Entity(u) => {
                        if lists_ancestor(d, u) {
                            assert(has_ancestor(*d, rs@[i as int]->Entity_0));
                            return Ok(Value::Bool(true));
                        }
                    },
                    _ => {},
                }
                i = i + 1;
            }
            Ok(Value::Bool(false))
        },
    }
}

/// Whether some element of `ys` equals some element of `xs`.
fn any_element_in(xs: &Vec<Value>, ys: &Vec<Value>) -> (r: bool)
    ensures
        r == shares_element(xs@, ys@),
{
    let mut j: usize = 0;
    while j < ys.len()
        invariant
            j <= ys@.len(),
            forall|m: int| 0 <= m < j ==> !contained_in(#[trigger] ys@[m], xs@),
        decreases ys.len() - j,
    {
        if element_in(&ys[j], xs) {
            return true;
        }
        j = j + 1;
    }
    false
}

/// Applies a binary operator, consulting `entities` for `in`, `getTag` and `hasTag`.
pub fn apply_binary(op: BinaryOp, left: &Value, right: &Value, entities: &Entities) -> (r: Result<
    Value,
    EvalError,
>)
    ensures
        same_outcome(r, binary_result(op, *left, *right, *entities)),
        op != BinaryOp::GetTag ==> r == binary_result(op, *left, *right, *entities),
{
    let o = Operator::Binary(op);
    match op {
        BinaryOp::Eq => Ok(Value::Bool(values_equal(left, right))),
        BinaryOp::Less | BinaryOp::LessEq => match (left, right) {
            (Value::Long(a), Value::Long(b)) => Ok(Value::Bool(
                if op == BinaryOp::Less { *a < *b } else { *a <= *b },
            )),
            (Value::Long(_), _) => type_error_of(o, ValueKind::Long, right),
            _ => type_error_of(o, ValueKind::Long, left),
        },
        BinaryOp::Add | BinaryOp::Sub | BinaryOp::Mul => match (left, right) {
            (Value::Long(a), Value::Long(b)) => {
                let m = if op == BinaryOp::Add {
                    a.checked_add(*b)
                } else if op == BinaryOp::Sub {
                    a.checked_sub(*b)
                } else {
                    a.checked_mul(*b)
                };
                match m {
                    Some(v) => Ok(Value::Long(v)),
                    None => Err(EvalError::Overflow { op: o }),
                }
            },
            (Value::Long(_), _) => type_error_of(o, ValueKind::Long, right),
            _ => type_error_of(o, ValueKind::Long, left),
        },
        BinaryOp::In => match left {
            Value::Entity(lu) => match right {
                Value::Entity(ru) => if lu.same(ru) {
                    Ok(Value::Bool(true))
                } else {
                    match entities.find(lu) {
                        None => Err(EvalError::UnknownEntity { entity: lu.copy() }),
                        Some(idx) => Ok(Value::Bool(lists_ancestor(&entities.entries[idx], ru))),
                    }
                },
                Value::SetOf(rs) => in_set(lu, rs, entities),
                _ => type_error_of(o, ValueKind::Entity, right),
            },
            _ => type_error_of(o, ValueKind::Entity, left),
        },
        BinaryOp::Contains => match left {
            Value::SetOf(xs) => Ok(Value::Bool(element_in(right, xs))),
            _ => type_error_of(o, ValueKind::SetOf, left),
        },
        BinaryOp::ContainsAll | BinaryOp::ContainsAny => match (left, right) {
            (Value::SetOf(xs), Value::SetOf(ys)) => Ok(Value::Bool(
                if op == BinaryOp::ContainsAll {
                    all_elements_in(ys, xs)
                } else {
                    any_element_in(xs, ys)
                },
            )),
            (Value::SetOf(_), _) => type_error_of(o, ValueKind::SetOf, right),
            _ => type_error_of(o, ValueKind::SetOf, left),
        },
        BinaryOp::GetTag | BinaryOp::HasTag => match (left, right) {
            (Value::Entity(u), Value::Str(t)) => match entities.tags_of(u) {
                Err(e) => Err(e),
                Ok(tags) => {
                    match find_tag(tags, t) {
                        Some(k) => if op == BinaryOp::GetTag {
                            Ok(tags[k].1.deep_copy())
                        } else {
                            Ok(Value::Bool(true))
                        },
                        None => if op == BinaryOp::GetTag {
                            Err(EvalError::TagNotFound { entity: u.copy(), tag: t.clone() })
                        } else {
                            Ok(Value::Bool(false))
                        },
                    }
                },
            },
            (Value::Entity(_), _) => type_error_of(o, ValueKind::Str, right),
            _ => type_error_of(o, ValueKind::Entity, left),
        },
    }
}

} // verus!
