//! Runtime values, their total equality, and exact copies.

use vstd::prelude::*;

verus! {

/// A namespaced entity identifier, such as `User::"alice"`.
#[derive(Debug)]
pub struct EntityUid {
    /// The entity type, such as `User` or `Photo`.
    pub entity_type: String,
    /// The identifier within the type, such as `alice`.
    pub id: String,
}

/// The runtime type of a value.
#[derive(Debug, PartialEq, Eq, Structural, Clone, Copy, Hash)]
pub enum ValueKind {
    Bool,
    Long,
    Str,
    SetOf,
    Entity,
    Record,
}

/// A runtime value.
///
/// A set is held as a vector of its elements; the order of the elements and
/// repeated elements carry no meaning. A record is held as a vector of
/// attribute names and values.
#[derive(Debug)]
pub enum Value {
    Bool(bool),
    Long(i64),
    Str(String),
    SetOf(Vec<Value>),
    Entity(EntityUid),
    Record(Vec<(String, Value)>),
}

/// Two entity identifiers name the same entity.
pub open spec fn uid_eq(a: EntityUid, b: EntityUid) -> bool {
    a.entity_type@ == b.entity_type@ && a.id@ == b.id@
}

impl EntityUid {
    /// Builds an identifier from its type and id.
    pub fn new(entity_type: &str, id: &str) -> (r: EntityUid)
        ensures
            r.entity_type@ == entity_type@,
            r.id@ == id@,
    {
        EntityUid { entity_type: String::from_str(entity_type), id: String::from_str(id) }
    }

    /// An equal copy.
    pub fn copy(&self) -> (r: EntityUid)
        ensures
            r == *self,
    {
        EntityUid { entity_type: self.entity_type.clone(), id: self.id.clone() }
    }

    /// Whether both identifiers name the same entity.
    pub fn same(&self, other: &EntityUid) -> (r: bool)
        ensures
            r == uid_eq(*self, *other),
    {
        self.entity_type == other.entity_type && self.id == other.id
    }
}

/// The runtime type of `v`.
pub open spec fn kind_of(v: Value) -> ValueKind {
    match v {
        Value::Bool(_) => ValueKind::Bool,
        Value::Long(_) => ValueKind::Long,
        Value::Str(_) => ValueKind::Str,
        Value::SetOf(_) => ValueKind::SetOf,
        Value::Entity(_) => ValueKind::Entity,
        Value::Record(_) => ValueKind::Record,
    }
}

/// Total equality of values: values of different types are unequal; sets are
/// equal when each element of either is equal to some element of the other;
/// records are equal when each attribute of either has an attribute of the same
/// name and an equal value in the other.
pub open spec fn value_eq(a: Value, b: Value) -> bool
    decreases a, 0int,
{
    match a {
        Value::Bool(x) => b matches Value::Bool(y) && x == y,
        Value::Long(x) => b matches Value::Long(y) && x == y,
        Value::Str(x) => b matches Value::Str(y) && x@ == y@,
        Value::Entity(x) => b matches Value::Entity(y) && uid_eq(x, y),
        Value::SetOf(xs) => b matches Value::SetOf(ys) && all_contained(xs@, ys@)
            && all_contain(xs@, ys@),
        Value::Record(xs) => b matches Value::Record(ys) && all_attrs_contained(xs@, ys@)
            && all_attrs_contain(xs@, ys@),
    }
}

/// `x` equals some element of `ys`.
pub open spec fn contained_in(x: Value, ys: Seq<Value>) -> bool
    decreases x, 1int,
{
    exists|j: int| #![trigger ys[j]] 0 <= j < ys.len() && value_eq(x, ys[j])
}

/// Every element of `xs` equals some element of `ys`.
pub open spec fn all_contained(xs: Seq<Value>, ys: Seq<Value>) -> bool
    decreases xs, 1int,
{
    forall|i: int| #![trigger xs[i]] 0 <= i < xs.len() ==> contained_in(xs[i], ys)
}

/// Some element of `xs` equals `y`.
pub open spec fn contains_eq(xs: Seq<Value>, y: Value) -> bool
    decreases xs, 1int,
{
    exists|i: int| #![trigger xs[i]] 0 <= i < xs.len() && value_eq(xs[i], y)
}

/// Every element of `ys` is equalled by some element of `xs`.
pub open spec fn all_contain(xs: Seq<Value>, ys: Seq<Value>) -> bool
    decreases xs, 2int,
{
    forall|j: int| #![trigger ys[j]] 0 <= j < ys.len() ==> contains_eq(xs, ys[j])
}

/// `ys` has an attribute named `name` whose value equals `x`.
pub open spec fn attr_contained(name: Seq<char>, x: Value, ys: Seq<(String, Value)>) -> bool
    decreases x, 1int,
{
    exists|j: int| #![trigger ys[j]] 0 <= j < ys.len() && ys[j].0@ == name && value_eq(x, ys[j].1)
}

/// Every attribute of `xs` has an attribute of the same name and an equal value in `ys`.
pub open spec fn all_attrs_contained(xs: Seq<(String, Value)>, ys: Seq<(String, Value)>) -> bool
    decreases xs, 1int,
{
    forall|i: int| #![trigger xs[i]] 0 <= i < xs.len() ==> attr_contained(xs[i].0@, xs[i].1, ys)
}

/// `xs` has an attribute named `name` whose value equals `y`.
pub open spec fn attr_contains(xs: Seq<(String, Value)>, name: Seq<char>, y: Value) -> bool
    decreases xs, 1int,
{
    exists|i: int| #![trigger xs[i]] 0 <= i < xs.len() && xs[i].0@ == name && value_eq(xs[i].1, y)
}

/// Every attribute of `ys` has an attribute of the same name and an equal value in `xs`.
pub open spec fn all_attrs_contain(xs: Seq<(String, Value)>, ys: Seq<(String, Value)>) -> bool
    decreases xs, 2int,
{
    forall|j: int| #![trigger ys[j]] 0 <= j < ys.len() ==> attr_contains(xs, ys[j].0@, ys[j].1)
}

/// Structural identity: the same variant, the same scalars and characters, and
/// identical elements in the same order.
pub open spec fn identical(a: Value, b: Value) -> bool
    decreases a,
{
    match a {
        Value::Bool(x) => b matches Value::Bool(y) && x == y,
        Value::Long(x) => b matches Value::Long(y) && x == y,
        Value::Str(x) => b matches Value::Str(y) && x@ == y@,
        Value::Entity(x) => b matches Value::Entity(y) && x == y,
        Value::SetOf(xs) => b matches Value::SetOf(ys) && xs.len() == ys.len()
            && forall|i: int| #![trigger xs[i]] 0 <= i < xs.len() ==> identical(xs[i], ys[i]),
        Value::Record(xs) => b matches Value::Record(ys) && xs.len() == ys.len()
            && forall|i: int| #![trigger xs[i]] 0 <= i < xs.len() ==> xs[i].0@ == ys[i].0@
                && identical(xs[i].1, ys[i].1),
    }
}

/// Whether some element of `ys` equals `x`.
pub fn element_in(x: &Value, ys: &Vec<Value>) -> (r: bool)
    ensures
        r == contained_in(*x, ys@),
    decreases x, 1int,
{
    let mut j: usize = 0;
    while j < ys.len()
        invariant
            j <= ys.len(),
            forall|m: int| #![trigger ys@[m]] 0 <= m < j ==> !value_eq(*x, ys@[m]),
        decreases ys.len() - j,
    {
        if values_equal(x, &ys[j]) {
            return true;
        }
        j = j + 1;
    }
    false
}

/// Whether every element of `xs` equals some element of `ys`.
pub fn all_elements_in(xs: &Vec<Value>, ys: &Vec<Value>) -> (r: bool)
    ensures
        r == all_contained(xs@, ys@),
    decreases xs, 2int,
{
    let mut i: usize = 0;
    while i < xs.len()
        invariant
            i <= xs.len(),
            forall|k: int| #![trigger xs@[k]] 0 <= k < i ==> contained_in(xs@[k], ys@),
        decreases xs.len() - i,
    {
        proof { assert(decreases_to!(*xs => xs[i as int])); }
        if !element_in(&xs[i], ys) {
            return false;
        }
        i = i + 1;
    }
    true
}

/// Whether some element of `xs` equals `y`.
fn has_equal_element(xs: &Vec<Value>, y: &Value) -> (r: bool)
    ensures
        r == contains_eq(xs@, *y),
    decreases xs, 1int,
{
    let mut i: usize = 0;
    while i < xs.len()
        invariant
            i <= xs.len(),
            forall|m: int| #![trigger xs@[m]] 0 <= m < i ==> !value_eq(xs@[m], *y),
        decreases xs.len() - i,
    {
        proof { assert(decreases_to!(*xs => xs[i as int])); }
        if values_equal(&xs[i], y) {
            return true;
        }
        i = i + 1;
    }
    false
}

/// Whether every element of `ys` is equalled by some element of `xs`.
fn all_have_equal(xs: &Vec<Value>, ys: &Vec<Value>) -> (r: bool)
    ensures
        r == all_contain(xs@, ys@),
    decreases xs, 2int,
{
    let mut j: usize = 0;
    while j < ys.len()
        invariant
            j <= ys.len(),
            forall|m: int| #![trigger ys@[m]] 0 <= m < j ==> contains_eq(xs@, ys@[m]),
        decreases ys.len() - j,
    {
        if !has_equal_element(xs, &ys[j]) {
            return false;
        }
        j = j + 1;
    }
    true
}

/// Whether `ys` has an attribute named `name` whose value equals `x`.
fn attr_in(name: &String, x: &Value, ys: &Vec<(String, Value)>) -> (r: bool)
    ensures
        r == attr_contained(name@, *x, ys@),
    decreases x, 1int,
{
    let mut j: usize = 0;
    while j < ys.len()
        invariant
            j <= ys.len(),
            forall|m: int| #![trigger ys@[m]] 0 <= m < j ==> !(ys@[m].0@ == name@ && value_eq(*x, ys@[m].1)),
        decreases ys.len() - j,
    {
        if ys[j].0 == *name && values_equal(x, &ys[j].1) {
            return true;
        }
        j = j + 1;
    }
    false
}

/// Whether every attribute of `xs` has a counterpart in `ys`.
fn all_attrs_in(xs: &Vec<(String, Value)>, ys: &Vec<(String, Value)>) -> (r: bool)
    ensures
        r == all_attrs_contained(xs@, ys@),
    decreases xs, 2int,
{
    let mut i: usize = 0;
    while i < xs.len()
        invariant
            i <= xs.len(),
            forall|k: int| #![trigger xs@[k]] 0 <= k < i ==> attr_contained(xs@[k].0@, xs@[k].1, ys@),
        decreases xs.len() - i,
    {
        proof { assert(decreases_to!(*xs => xs[i as int].1)); }
        if !attr_in(&xs[i].0, &xs[i].1, ys) {
            return false;
        }
        i = i + 1;
    }
    true
}

/// Whether `xs` has an attribute named `name` whose value equals `y`.
fn has_equal_attr(xs: &Vec<(String, Value)>, name: &String, y: &Value) -> (r: bool)
    ensures
        r == attr_contains(xs@, name@, *y),
    decreases xs, 1int,
{
    let mut i: usize = 0;
    while i < xs.len()
        invariant
            i <= xs.len(),
            forall|m: int| #![trigger xs@[m]] 0 <= m < i ==> !(xs@[m].0@ == name@ && value_eq(xs@[m].1, *y)),
        decreases xs.len() - i,
    {
        proof { assert(decreases_to!(*xs => xs[i as int].1)); }
        if xs[i].0 == *name && values_equal(&xs[i].1, y) {
            return true;
        }
        i = i + 1;
    }
    false
}

/// Whether every attribute of `ys` has a counterpart in `xs`.
fn all_attrs_have_equal(xs: &Vec<(String, Value)>, ys: &Vec<(String, Value)>) -> (r: bool)
    ensures
        r == all_attrs_contain(xs@, ys@),
    decreases xs, 2int,
{
    let mut j: usize = 0;
    while j < ys.len()
        invariant
            j <= ys.len(),
            forall|m: int| #![trigger ys@[m]] 0 <= m < j ==> attr_contains(xs@, ys@[m].0@, ys@[m].1),
        decreases ys.len() - j,
    {
        if !has_equal_attr(xs, &ys[j].0, &ys[j].1) {
            return false;
        }
        j = j + 1;
    }
    true
}

/// Total equality of two values.
pub fn values_equal(a: &Value, b: &Value) -> (r: bool)
    ensures
        r == value_eq(*a, *b),
    decreases a, 0int,
{
    match a {
        Value::Bool(x) => match b {
            Value::Bool(y) => *x == *y,
            _ => false,
        },
        Value::Long(x) => match b {
            Value::Long(y) => *x == *y,
            _ => false,
        },
        Value::Str(x) => match b {
            Value::Str(y) => *x == *y,
            _ => false,
        },
        Value::Entity(x) => match b {
            Value::Entity(y) => x.same(y),
            _ => false,
        },
        Value::SetOf(xs) => match b {
            Value::SetOf(ys) => all_elements_in(xs, ys) && all_have_equal(xs, ys),
            _ => false,
        },
        Value::Record(xs) => match b {
            Value::Record(ys) => all_attrs_in(xs, ys) && all_attrs_have_equal(xs, ys),
            _ => false,
        },
    }
}

/// Identical copies of the elements, in order.
fn copy_elements(xs: &Vec<Value>) -> (r: Vec<Value>)
    ensures
        r@.len() == xs@.len(),
        forall|k: int| #![trigger xs@[k]] 0 <= k < xs@.len() ==> identical(xs@[k], r@[k]),
    decreases xs,
{
    let mut out: Vec<Value> = Vec::new();
    let mut i: usize = 0;
    while i < xs.len()
        invariant
            i <= xs.len(),
            out@.len() == i,
            forall|k: int| #![trigger xs@[k]] 0 <= k < i ==> identical(xs@[k], out@[k]),
        decreases xs.len() - i,
    {
        proof { assert(decreases_to!(*xs => xs[i as int])); }
        let c = xs[i].deep_copy();
        out.push(c);
        i = i + 1;
    }
    out
}

/// Identical copies of the attributes, in order.
fn copy_attrs(xs: &Vec<(String, Value)>) -> (r: Vec<(String, Value)>)
    ensures
        r@.len() == xs@.len(),
        forall|k: int| #![trigger xs@[k]] 0 <= k < xs@.len() ==> xs@[k].0@ == r@[k].0@
            && identical(xs@[k].1, r@[k].1),
    decreases xs,
{
    let mut out: Vec<(String, Value)> = Vec::new();
    let mut i: usize = 0;
    while i < xs.len()
        invariant
            i <= xs.len(),
            out@.len() == i,
            forall|k: int| #![trigger xs@[k]] 0 <= k < i ==> xs@[k].0@ == out@[k].0@
                && identical(xs@[k].1, out@[k].1),
        decreases xs.len() - i,
    {
        proof { assert(decreases_to!(*xs => xs[i as int].1)); }
        let c = xs[i].1.deep_copy();
        out.push((xs[i].0.clone(), c));
        i = i + 1;
    }
    out
}

impl Value {
    /// The runtime type of this value.
    pub fn kind(&self) -> (r: ValueKind)
        ensures
            r == kind_of(*self),
    {
        match self {
            Value::Bool(_) => ValueKind::Bool,
            Value::Long(_) => ValueKind::Long,
            Value::Str(_) => ValueKind::Str,
            Value::SetOf(_) => ValueKind::SetOf,
            Value::Entity(_) => ValueKind::Entity,
            Value::Record(_) => ValueKind::Record,
        }
    }

    /// A structurally identical copy.
    pub fn deep_copy(&self) -> (r: Value)
        ensures
            identical(*self, r),
        decreases self,
    {
        match self {
            Value::Bool(b) => Value::Bool(*b),
            Value::Long(n) => Value::Long(*n),
            Value::Str(s) => Value::Str(s.clone()),
            Value::Entity(u) => Value::Entity(u.copy()),
            Value::SetOf(xs) => Value::SetOf(copy_elements(xs)),
            Value::Record(xs) => Value::Record(copy_attrs(xs)),
        }
    }
}

} // verus!
