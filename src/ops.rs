//! The operator enumerations, their canonical tokens, and the reading of a
//! token back into an operator.

use vstd::prelude::*;

verus! {

/// Built-in operators with exactly one argument.
#[derive(Debug, PartialEq, Eq, Structural, Clone, Copy, Hash)]
pub enum UnaryOp {
    /// Logical negation; the argument must be a boolean.
    Not,
    /// Integer negation; the argument must be a long.
    Neg,
    /// Emptiness test; the argument must be a set.
    IsEmpty,
}

/// Built-in operators with exactly two arguments.
#[derive(Debug, PartialEq, Eq, Structural, Clone, Copy, Hash)]
pub enum BinaryOp {
    /// Total equality: values of different types are unequal, never an error.
    Eq,
    /// `<` on longs.
    Less,
    /// `<=` on longs.
    LessEq,
    /// Checked addition of longs.
    Add,
    /// Checked subtraction of longs.
    Sub,
    /// Checked multiplication of longs.
    Mul,
    /// Hierarchy membership of an entity in an entity or in any entity of a set.
    In,
    /// Set membership.
    Contains,
    /// Whether the first set contains every element of the second.
    ContainsAll,
    /// Whether the two sets share an element.
    ContainsAny,
    /// The value of a tag of an entity.
    GetTag,
    /// Whether an entity has a tag.
    HasTag,
}

/// Either kind of operator, as named in evaluation errors.
#[derive(Debug, PartialEq, Eq, Structural, Clone, Copy, Hash)]
pub enum Operator {
    Unary(UnaryOp),
    Binary(BinaryOp),
}

/// Canonical token of a unary operator.
pub open spec fn unary_token(op: UnaryOp) -> Seq<char> {
    match op {
        UnaryOp::Not => seq!['!'],
        UnaryOp::Neg => seq!['-'],
        UnaryOp::IsEmpty => seq!['i', 's', 'E', 'm', 'p', 't', 'y'],
    }
}

/// Canonical token of a binary operator.
pub open spec fn binary_token(op: BinaryOp) -> Seq<char> {
    match op {
        BinaryOp::Eq => seq!['=', '='],
        BinaryOp::Less => seq!['<'],
        BinaryOp::LessEq => seq!['<', '='],
        BinaryOp::Add => seq!['+'],
        BinaryOp::Sub => seq!['-'],
        BinaryOp::Mul => seq!['*'],
        BinaryOp::In => seq!['i', 'n'],
        BinaryOp::Contains => seq!['c', 'o', 'n', 't', 'a', 'i', 'n', 's'],
        BinaryOp::ContainsAll => seq!['c', 'o', 'n', 't', 'a', 'i', 'n', 's', 'A', 'l', 'l'],
        BinaryOp::ContainsAny => seq!['c', 'o', 'n', 't', 'a', 'i', 'n', 's', 'A', 'n', 'y'],
        BinaryOp::GetTag => seq!['g', 'e', 't', 'T', 'a', 'g'],
        BinaryOp::HasTag => seq!['h', 'a', 's', 'T', 'a', 'g'],
    }
}

/// The unary operator whose token is `s`, if any.
pub open spec fn unary_of_token(s: Seq<char>) -> Option<UnaryOp> {
    if s == unary_token(UnaryOp::Not) {
        Some(UnaryOp::Not)
    } else if s == unary_token(UnaryOp::Neg) {
        Some(UnaryOp::Neg)
    } else if s == unary_token(UnaryOp::IsEmpty) {
        Some(UnaryOp::IsEmpty)
    } else {
        None
    }
}

/// The binary operator whose token is `s`, if any.
pub open spec fn binary_of_token(s: Seq<char>) -> Option<BinaryOp> {
    if s == binary_token(BinaryOp::Eq) {
        Some(BinaryOp::Eq)
    } else if s == binary_token(BinaryOp::Less) {
        Some(BinaryOp::Less)
    } else if s == binary_token(BinaryOp::LessEq) {
        Some(BinaryOp::LessEq)
    } else if s == binary_token(BinaryOp::Add) {
        Some(BinaryOp::Add)
    } else if s == binary_token(BinaryOp::Sub) {
        Some(BinaryOp::Sub)
    } else if s == binary_token(BinaryOp::Mul) {
        Some(BinaryOp::Mul)
    } else if s == binary_token(BinaryOp::In) {
        Some(BinaryOp::In)
    } else if s == binary_token(BinaryOp::Contains) {
        Some(BinaryOp::Contains)
    } else if s == binary_token(BinaryOp::ContainsAll) {
        Some(BinaryOp::ContainsAll)
    } else if s == binary_token(BinaryOp::ContainsAny) {
        Some(BinaryOp::ContainsAny)
    } else if s == binary_token(BinaryOp::GetTag) {
        Some(BinaryOp::GetTag)
    } else if s == binary_token(BinaryOp::HasTag) {
        Some(BinaryOp::HasTag)
    } else {
        None
    }
}

/// Whether the characters of `s` are exactly `t`.
fn chars_are(s: &str, t: &str) -> (r: bool)
    ensures
        r == (s@ == t@),
{
    let n = s.unicode_len();
    let m = t.unicode_len();
    if n != m {
        return false;
    }
    let mut i: usize = 0;
    while i < n
        invariant
            n == s@.len(),
            m == t@.len(),
            n == m,
            i <= n,
            forall|k: int| 0 <= k < i ==> s@[k] == t@[k],
        decreases n - i,
    {
        if s.get_char(i) != t.get_char(i) {
            return false;
        }
        i = i + 1;
    }
    assert(s@ =~= t@);
    true
}

/// A string holding the characters of a literal.
fn owned(lit: &str) -> (r: String)
    ensures
        r@ == lit@,
{
    String::from_str(lit)
}

impl UnaryOp {
    /// The canonical token, as written in policy text.
    pub fn to_string(&self) -> (r: String)
        ensures
            r@ == unary_token(*self),
    {
        match self {
            UnaryOp::Not => {
                proof { reveal_strlit("!"); }
                let r = owned("!");
                assert(r@ =~= unary_token(*self));
                r
            },
            UnaryOp::Neg => {
                proof { reveal_strlit("-"); }
                let r = owned("-");
                assert(r@ =~= unary_token(*self));
                r
            },
            UnaryOp::IsEmpty => {
                proof { reveal_strlit("isEmpty"); }
                let r = owned("isEmpty");
                assert(r@ =~= unary_token(*self));
                r
            },
        }
    }

    /// The operator written as `s` in unary position, if any.
    pub fn parse(s: &str) -> (r: Option<UnaryOp>)
        ensures
            r == unary_of_token(s@),
    {
        proof {
            reveal_strlit("!");
            assert("!"@ =~= unary_token(UnaryOp::Not));
            reveal_strlit("-");
            assert("-"@ =~= unary_token(UnaryOp::Neg));
            reveal_strlit("isEmpty");
            assert("isEmpty"@ =~= unary_token(UnaryOp::IsEmpty));
        }
        if chars_are(s, "!") {
            return Some(UnaryOp::Not);
        }
        if chars_are(s, "-") {
            return Some(UnaryOp::Neg);
        }
        if chars_are(s, "isEmpty") {
            return Some(UnaryOp::IsEmpty);
        }
        None
    }
}

impl BinaryOp {
    /// The canonical token, as written in policy text.
    pub fn to_string(&self) -> (r: String)
        ensures
            r@ == binary_token(*self),
    {
        match self {
            BinaryOp::Eq => {
                proof { reveal_strlit("=="); }
                let r = owned("==");
                assert(r@ =~= binary_token(*self));
                r
            },
            BinaryOp::Less => {
                proof { reveal_strlit("<"); }
                let r = owned("<");
                assert(r@ =~= binary_token(*self));
                r
            },
            BinaryOp::LessEq => {
                proof { reveal_strlit("<="); }
                let r = owned("<=");
                assert(r@ =~= binary_token(*self));
                r
            },
            BinaryOp::Add => {
                proof { reveal_strlit("+"); }
                let r = owned("+");
                assert(r@ =~= binary_token(*self));
                r
            },
            BinaryOp::Sub => {
                proof { reveal_strlit("-"); }
                let r = owned("-");
                assert(r@ =~= binary_token(*self));
                r
            },
            BinaryOp::Mul => {
                proof { reveal_strlit("*"); }
                let r = owned("*");
                assert(r@ =~= binary_token(*self));
                r
            },
            BinaryOp::In => {
                proof { reveal_strlit("in"); }
                let r = owned("in");
                assert(r@ =~= binary_token(*self));
                r
            },
            BinaryOp::Contains => {
                proof { reveal_strlit("contains"); }
                let r = owned("contains");
                assert(r@ =~= binary_token(*self));
                r
            },
            BinaryOp::ContainsAll => {
                proof { reveal_strlit("containsAll"); }
                let r = owned("containsAll");
                assert(r@ =~= binary_token(*self));
                r
            },
            BinaryOp::ContainsAny => {
                proof { reveal_strlit("containsAny"); }
                let r = owned("containsAny");
                assert(r@ =~= binary_token(*self));
                r
            },
            BinaryOp::GetTag => {
                proof { reveal_strlit("getTag"); }
                let r = owned("getTag");
                assert(r@ =~= binary_token(*self));
                r
            },
            BinaryOp::HasTag => {
                proof { reveal_strlit("hasTag"); }
                let r = owned("hasTag");
                assert(r@ =~= binary_token(*self));
                r
            },
        }
    }

    /// The operator written as `s` in binary position, if any.
    pub fn parse(s: &str) -> (r: Option<BinaryOp>)
        ensures
            r == binary_of_token(s@),
    {
        proof {
            reveal_strlit("==");
            assert("=="@ =~= binary_token(BinaryOp::Eq));
            reveal_strlit("<");
            assert("<"@ =~= binary_token(BinaryOp::Less));
            reveal_strlit("<=");
            assert("<="@ =~= binary_token(BinaryOp::LessEq));
            reveal_strlit("+");
            assert("+"@ =~= binary_token(BinaryOp::Add));
            reveal_strlit("-");
            assert("-"@ =~= binary_token(BinaryOp::Sub));
            reveal_strlit("*");
            assert("*"@ =~= binary_token(BinaryOp::Mul));
            reveal_strlit("in");
            assert("in"@ =~= binary_token(BinaryOp::In));
            reveal_strlit("contains");
            assert("contains"@ =~= binary_token(BinaryOp::Contains));
            reveal_strlit("containsAll");
            assert("containsAll"@ =~= binary_token(BinaryOp::ContainsAll));
            reveal_strlit("containsAny");
            assert("containsAny"@ =~= binary_token(BinaryOp::ContainsAny));
            reveal_strlit("getTag");
            assert("getTag"@ =~= binary_token(BinaryOp::GetTag));
            reveal_strlit("hasTag");
            assert("hasTag"@ =~= binary_token(BinaryOp::HasTag));
        }
        if chars_are(s, "==") {
            return Some(BinaryOp::Eq);
        }
        if chars_are(s, "<") {
            return Some(BinaryOp::Less);
        }
        if chars_are(s, "<=") {
            return Some(BinaryOp::LessEq);
        }
        if chars_are(s, "+") {
            return Some(BinaryOp::Add);
        }
        if chars_are(s, "-") {
            return Some(BinaryOp::Sub);
        }
        if chars_are(s, "*") {
            return Some(BinaryOp::Mul);
        }
        if chars_are(s, "in") {
            return Some(BinaryOp::In);
        }
        if chars_are(s, "contains") {
            return Some(BinaryOp::Contains);
        }
        if chars_are(s, "containsAll") {
            return Some(BinaryOp::ContainsAll);
        }
        if chars_are(s, "containsAny") {
            return Some(BinaryOp::ContainsAny);
        }
        if chars_are(s, "getTag") {
            return Some(BinaryOp::GetTag);
        }
        if chars_are(s, "hasTag") {
            return Some(BinaryOp::HasTag);
        }
        None
    }
}

} // verus!
