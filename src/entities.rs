//! The read-only entity store: each entity's ancestors and tags.

use vstd::prelude::*;

use crate::error::EvalError;
use crate::value::{uid_eq, EntityUid, Value};

verus! {

/// What the store holds of one entity.
#[derive(Debug)]
pub struct EntityData {
    /// The entity.
    pub uid: EntityUid,
    /// Its ancestors in the hierarchy, expected to be transitively closed.
    pub ancestors: Vec<EntityUid>,
    /// Its tags, by name; the first entry of a name counts.
    pub tags: Vec<(String, Value)>,
}

/// The entity store; the first entry of an entity counts.
#[derive(Debug)]
pub struct Entities {
    pub entries: Vec<EntityData>,
}

/// `i` is the first entry of `es` for `uid`.
pub open spec fn is_first_entry(es: Seq<EntityData>, uid: EntityUid, i: int) -> bool {
    &&& 0 <= i < es.len()
    &&& uid_eq(es[i].uid, uid)
    &&& forall|k: int| 0 <= k < i ==> !uid_eq(#[trigger] es[k].uid, uid)
}

/// `i` is the first tag of `tags` named `name`.
pub open spec fn is_first_tag(tags: Seq<(String, Value)>, name: Seq<char>, i: int) -> bool {
    &&& 0 <= i < tags.len()
    &&& tags[i].0@ == name
    &&& forall|k: int| 0 <= k < i ==> (#[trigger] tags[k]).0@ != name
}

/// The value of the tag named `name`, if any.
pub open spec fn tag_value(tags: Seq<(String, Value)>, name: Seq<char>) -> Option<Value> {
    if exists|i: int| is_first_tag(tags, name, i) {
        Some(tags[choose|i: int| is_first_tag(tags, name, i)].1)
    } else {
        None
    }
}

/// `a` is among the ancestors of `d`.
pub open spec fn has_ancestor(d: EntityData, a: EntityUid) -> bool {
    exists|i: int| 0 <= i < d.ancestors.len() && uid_eq(#[trigger] d.ancestors[i], a)
}

impl Entities {
    /// What the store holds of `uid`, if anything.
    pub open spec fn lookup(self, uid: EntityUid) -> Option<EntityData> {
        if exists|i: int| is_first_entry(self.entries@, uid, i) {
            Some(self.entries@[choose|i: int| is_first_entry(self.entries@, uid, i)])
        } else {
            None
        }
    }

    /// Every ancestor of an ancestor of an entity is an ancestor of that entity.
    pub open spec fn ancestors_closed(self) -> bool {
        forall|u: EntityUid, a: EntityUid, g: EntityUid|
            #![trigger self.lookup(u), self.lookup(a), has_ancestor(self.lookup(u)->0, g)]
            self.lookup(u) is Some && has_ancestor(self.lookup(u)->0, a)
                && self.lookup(a) is Some && has_ancestor(self.lookup(a)->0, g)
                ==> has_ancestor(self.lookup(u)->0, g)
    }

    /// The position of what the store holds of `uid`.
    pub fn find(&self, uid: &EntityUid) -> (r: Option<usize>)
        ensures
            match r {
                Some(i) => is_first_entry(self.entries@, *uid, i as int)
                    && self.lookup(*uid) == Some(self.entries@[i as int]),
                None => self.lookup(*uid) is None,
            },
    {
        let mut i: usize = 0;
        while i < self.entries.len()
            invariant
                i <= self.entries@.len(),
                forall|k: int| 0 <= k < i ==> !uid_eq(#[trigger] self.entries@[k].uid, *uid),
            decreases self.entries.len() - i,
        {
            if self.entries[i].uid.same(uid) {
                proof {
                    let j = choose|j: int| is_first_entry(self.entries@, *uid, j);
                    assert(is_first_entry(self.entries@, *uid, i as int));
                    if j < i {
                        assert(!uid_eq(self.entries@[j].uid, *uid));
                    } else if j > i {
                        assert(!uid_eq(self.entries@[i as int].uid, *uid));
                    }
                }
                return Some(i);
            }
            i = i + 1;
        }
        None
    }

    /// The ancestors of `uid`, or an error naming it when the store does not know it.
    pub fn ancestors_of(&self, uid: &EntityUid) -> (r: Result<&Vec<EntityUid>, EvalError>)
        ensures
            match r {
                Ok(a) => self.lookup(*uid) is Some && *a == self.lookup(*uid)->0.ancestors,
                Err(e) => self.lookup(*uid) is None && e == EvalError::UnknownEntity { entity: *uid },
            },
    {
        match self.find(uid) {
            Some(i) => Ok(&self.entries[i].ancestors),
            None => Err(EvalError::UnknownEntity { entity: uid.copy() }),
        }
    }

    /// The tags of `uid`, or an error naming it when the store does not know it.
    pub fn tags_of(&self, uid: &EntityUid) -> (r: Result<&Vec<(String, Value)>, EvalError>)
        ensures
            match r {
                Ok(t) => self.lookup(*uid) is Some && *t == self.lookup(*uid)->0.tags,
                Err(e) => self.lookup(*uid) is None && e == EvalError::UnknownEntity { entity: *uid },
            },
    {
        match self.find(uid) {
            Some(i) => Ok(&self.entries[i].tags),
            None => Err(EvalError::UnknownEntity { entity: uid.copy() }),
        }
    }
}

/// The position of the tag named `name`.
pub fn find_tag(tags: &Vec<(String, Value)>, name: &String) -> (r: Option<usize>)
    ensures
        match r {
            Some(i) => is_first_tag(tags@, name@, i as int)
                && tag_value(tags@, name@) == Some(tags@[i as int].1),
            None => tag_value(tags@, name@) is None,
        },
{
    let mut i: usize = 0;
    while i < tags.len()
        invariant
            i <= tags@.len(),
            forall|k: int| 0 <= k < i ==> (#[trigger] tags@[k]).0@ != name@,
        decreases tags.len() - i,
    {
        if tags[i].0 == *name {
            proof {
                let j = choose|j: int| is_first_tag(tags@, name@, j);
                assert(is_first_tag(tags@, name@, i as int));
                if j < i {
                    assert(tags@[j].0@ != name@);
                } else if j > i {
                    assert(tags@[i as int].0@ != name@);
                }
            }
            return Some(i);
        }
        i = i + 1;
    }
    None
}

/// Whether `a` is among the ancestors of `d`.
pub fn lists_ancestor(d: &EntityData, a: &EntityUid) -> (r: bool)
    ensures
        r == has_ancestor(*d, *a),
{
    let mut i: usize = 0;
    while i < d.ancestors.len()
        invariant
            i <= d.ancestors@.len(),
            forall|k: int| 0 <= k < i ==> !uid_eq(#[trigger] d.ancestors@[k], *a),
        decreases d.ancestors.len() - i,
    {
        if d.ancestors[i].same(a) {
            return true;
        }
        i = i + 1;
    }
    false
}

} // verus!
