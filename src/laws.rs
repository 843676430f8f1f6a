//! Laws that hold of the operators over all inputs.

use vstd::prelude::*;

use crate::entities::{has_ancestor, tag_value, Entities};
use crate::error::EvalError;
use crate::eval::{arith, binary_result, unary_result};
use crate::ops::{
    binary_of_token, binary_token, unary_of_token, unary_token, BinaryOp, Operator, UnaryOp,
};
use crate::value::{
    all_contain, all_contained, all_attrs_contain, all_attrs_contained, attr_contained,
    attr_contains, contained_in, contains_eq, kind_of, value_eq, EntityUid, Value,
};

verus! {

/// Equality of values of different runtime types is `false`, never an error.
pub proof fn lemma_eq_across_kinds(a: Value, b: Value, es: Entities)
    requires
        kind_of(a) != kind_of(b),
    ensures
        binary_result(BinaryOp::Eq, a, b, es) == Ok::<Value, EvalError>(Value::Bool(false)),
{
}

/// Every value equals itself.
pub proof fn lemma_eq_reflexive(v: Value)
    ensures
        value_eq(v, v),
    decreases v,
{
    match v {
        Value::SetOf(xs) => {
            assert forall|i: int| 0 <= i < xs@.len() implies contained_in(#[trigger] xs@[i], xs@) by {
                assert(decreases_to!(v => xs[i]));
                lemma_eq_reflexive(xs@[i]);
            }
            assert forall|j: int| 0 <= j < xs@.len() implies contains_eq(xs@, #[trigger] xs@[j]) by {
                assert(decreases_to!(v => xs[j]));
                lemma_eq_reflexive(xs@[j]);
            }
            assert(all_contained(xs@, xs@));
            assert(all_contain(xs@, xs@));
        },
        Value::Record(xs) => {
            assert forall|i: int| 0 <= i < xs@.len() implies attr_contained(
                (#[trigger] xs@[i]).0@,
                xs@[i].1,
                xs@,
            ) by {
                assert(decreases_to!(v => xs[i].1));
                lemma_eq_reflexive(xs@[i].1);
            }
            assert forall|j: int| 0 <= j < xs@.len() implies attr_contains(
                xs@,
                (#[trigger] xs@[j]).0@,
                xs@[j].1,
            ) by {
                assert(decreases_to!(v => xs[j].1));
                lemma_eq_reflexive(xs@[j].1);
            }
            assert(all_attrs_contained(xs@, xs@));
            assert(all_attrs_contain(xs@, xs@));
        },
        _ => {},
    }
}

/// The equality operator gives `true` on a value and itself.
pub proof fn lemma_eq_operator_reflexive(v: Value, es: Entities)
    ensures
        binary_result(BinaryOp::Eq, v, v, es) == Ok::<Value, EvalError>(Value::Bool(true)),
{
    lemma_eq_reflexive(v);
}

/// Two sets whose elements are the same values are equal, whatever the order
/// of the elements and however often each is repeated.
pub proof fn lemma_set_eq_same_members(xs: Vec<Value>, ys: Vec<Value>, es: Entities)
    requires
        forall|i: int| #![trigger xs@[i]] 0 <= i < xs@.len() ==> exists|j: int| 0 <= j < ys@.len() && xs@[i] == #[trigger] ys@[j],
        forall|j: int| #![trigger ys@[j]] 0 <= j < ys@.len() ==> exists|i: int| 0 <= i < xs@.len() && #[trigger] xs@[i] == ys@[j],
    ensures
        binary_result(BinaryOp::Eq, Value::SetOf(xs), Value::SetOf(ys), es)
            == Ok::<Value, EvalError>(Value::Bool(true)),
{
    assert forall|i: int| 0 <= i < xs@.len() implies contained_in(#[trigger] xs@[i], ys@) by {
        let j = choose|j: int| 0 <= j < ys@.len() && xs@[i] == ys@[j];
        lemma_eq_reflexive(xs@[i]);
        assert(value_eq(xs@[i], ys@[j]));
    }
    assert forall|j: int| 0 <= j < ys@.len() implies contains_eq(xs@, #[trigger] ys@[j]) by {
        let i = choose|i: int| 0 <= i < xs@.len() && xs@[i] == ys@[j];
        lemma_eq_reflexive(ys@[j]);
        assert(value_eq(xs@[i], ys@[j]));
    }
    assert(all_contained(xs@, ys@));
    assert(all_contain(xs@, ys@));
}

/// Checked arithmetic on longs fails with an overflow exactly when the exact
/// result leaves the 64-bit signed range, and otherwise gives the exact result.
pub proof fn lemma_arith_exact(op: BinaryOp, a: i64, b: i64, es: Entities)
    requires
        op == BinaryOp::Add || op == BinaryOp::Sub || op == BinaryOp::Mul,
    ensures
        ({
            let m = arith(op, a as int, b as int);
            let r = binary_result(op, Value::Long(a), Value::Long(b), es);
            &&& (r == Err::<Value, EvalError>(EvalError::Overflow { op: Operator::Binary(op) }))
                <==> !(i64::MIN <= m <= i64::MAX)
            &&& i64::MIN <= m <= i64::MAX ==> r == Ok::<Value, EvalError>(Value::Long(m as i64))
        }),
{
}

/// Negating the least long overflows.
pub proof fn lemma_neg_min_overflows()
    ensures
        unary_result(UnaryOp::Neg, Value::Long(i64::MIN)) == Err::<Value, EvalError>(
            EvalError::Overflow { op: Operator::Unary(UnaryOp::Neg) },
        ),
{
}

/// Negating any other long twice gives it back.
pub proof fn lemma_neg_involutive(x: i64)
    requires
        x != i64::MIN,
    ensures
        unary_result(UnaryOp::Neg, Value::Long(x)) is Ok,
        unary_result(UnaryOp::Neg, unary_result(UnaryOp::Neg, Value::Long(x))->Ok_0)
            == Ok::<Value, EvalError>(Value::Long(x)),
{
}

/// A set is empty exactly when it has no elements.
pub proof fn lemma_is_empty(xs: Vec<Value>)
    ensures
        unary_result(UnaryOp::IsEmpty, Value::SetOf(xs)) == Ok::<Value, EvalError>(
            Value::Bool(xs@.len() == 0),
        ),
{
}

/// A set contains a value exactly when some element equals it.
pub proof fn lemma_contains_member(xs: Vec<Value>, x: Value, es: Entities)
    ensures
        binary_result(BinaryOp::Contains, Value::SetOf(xs), x, es) == Ok::<Value, EvalError>(
            Value::Bool(exists|j: int| #![trigger xs@[j]] 0 <= j < xs@.len() && value_eq(x, xs@[j])),
        ),
{
}

/// A set contains every element of another exactly when each element of the
/// other equals one of its own; every set contains all of the empty set.
pub proof fn lemma_contains_all(xs: Vec<Value>, ys: Vec<Value>, es: Entities)
    ensures
        binary_result(BinaryOp::ContainsAll, Value::SetOf(xs), Value::SetOf(ys), es)
            == Ok::<Value, EvalError>(Value::Bool(
            forall|j: int| #![trigger ys@[j]] 0 <= j < ys@.len() ==> contained_in(ys@[j], xs@),
        )),
        ys@.len() == 0 ==> binary_result(BinaryOp::ContainsAll, Value::SetOf(xs), Value::SetOf(ys), es)
            == Ok::<Value, EvalError>(Value::Bool(true)),
{
}

/// Two sets share an element exactly when some element of the second equals
/// some element of the first; no set shares an element with the empty set.
pub proof fn lemma_contains_any(xs: Vec<Value>, ys: Vec<Value>, es: Entities)
    ensures
        binary_result(BinaryOp::ContainsAny, Value::SetOf(xs), Value::SetOf(ys), es)
            == Ok::<Value, EvalError>(Value::Bool(
            exists|j: int, i: int| #![trigger ys@[j], xs@[i]] 0 <= j < ys@.len() && 0 <= i < xs@.len()
                && value_eq(ys@[j], xs@[i]),
        )),
        ys@.len() == 0 ==> binary_result(BinaryOp::ContainsAny, Value::SetOf(xs), Value::SetOf(ys), es)
            == Ok::<Value, EvalError>(Value::Bool(false)),
{
    let r = exists|j: int, i: int| #![trigger ys@[j], xs@[i]] 0 <= j < ys@.len() && 0 <= i < xs@.len()
                && value_eq(ys@[j], xs@[i]);
    if r {
        let (j, i) = choose|j: int, i: int| #![trigger ys@[j], xs@[i]] 0 <= j < ys@.len() && 0 <= i < xs@.len()
                && value_eq(ys@[j], xs@[i]);
        assert(contained_in(ys@[j], xs@));
    }
}

/// Every entity is in itself, whether or not the store knows it.
pub proof fn lemma_in_reflexive(e: EntityUid, es: Entities)
    ensures
        binary_result(BinaryOp::In, Value::Entity(e), Value::Entity(e), es)
            == Ok::<Value, EvalError>(Value::Bool(true)),
{
}

/// In a store whose ancestor lists are transitively closed, an entity is in
/// every set that holds an ancestor of one of its ancestors.
pub proof fn lemma_in_transitive(
    child: EntityUid,
    parent: EntityUid,
    grandparent: EntityUid,
    rs: Vec<Value>,
    k: int,
    es: Entities,
)
    requires
        es.ancestors_closed(),
        es.lookup(child) is Some,
        has_ancestor(es.lookup(child)->0, parent),
        es.lookup(parent) is Some,
        has_ancestor(es.lookup(parent)->0, grandparent),
        forall|i: int| 0 <= i < rs@.len() ==> (#[trigger] rs@[i]) is Entity,
        0 <= k < rs@.len(),
        rs@[k] == Value::Entity(grandparent),
    ensures
        binary_result(BinaryOp::In, Value::Entity(child), Value::SetOf(rs), es)
            == Ok::<Value, EvalError>(Value::Bool(true)),
{
    assert(has_ancestor(es.lookup(child)->0, grandparent));
    assert(has_ancestor(es.lookup(child)->0, rs@[k]->Entity_0));
}

/// `hasTag` gives `false`, and `getTag` fails naming the entity and the tag,
/// on a known entity without that tag.
pub proof fn lemma_missing_tag(e: EntityUid, t: String, es: Entities)
    requires
        es.lookup(e) is Some,
        tag_value(es.lookup(e)->0.tags@, t@) is None,
    ensures
        binary_result(BinaryOp::HasTag, Value::Entity(e), Value::Str(t), es)
            == Ok::<Value, EvalError>(Value::Bool(false)),
        binary_result(BinaryOp::GetTag, Value::Entity(e), Value::Str(t), es)
            == Err::<Value, EvalError>(EvalError::TagNotFound { entity: e, tag: t }),
{
}

/// Reading the token of a unary operator gives the operator back.
pub proof fn lemma_unary_token_round_trip(op: UnaryOp)
    ensures
        unary_of_token(unary_token(op)) == Some(op),
{
    assert forall|b: UnaryOp| b != op implies unary_token(b) != unary_token(op) by {
        let (s, t) = (unary_token(b), unary_token(op));
        if s == t {
            assert(s.len() == t.len() && s[0] == t[0]);
        }
    }
}

/// Reading the token of a binary operator gives the operator back.
pub proof fn lemma_binary_token_round_trip(op: BinaryOp)
    ensures
        binary_of_token(binary_token(op)) == Some(op),
{
    assert forall|b: BinaryOp| b != op implies binary_token(b) != binary_token(op) by {
        lemma_binary_tokens_distinct(b, op);
    }
}

/// Distinct binary operators have distinct tokens: the length, the first and
/// the last character tell them apart.
proof fn lemma_binary_tokens_distinct(a: BinaryOp, b: BinaryOp)
    requires
        a != b,
    ensures
        binary_token(a) != binary_token(b),
{
    let (s, t) = (binary_token(a), binary_token(b));
    if s == t {
        assert(s.len() == t.len() && s[0] == t[0] && s[s.len() - 1] == t[t.len() - 1]);
    }
}

} // verus!
