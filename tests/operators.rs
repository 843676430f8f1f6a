use cedar_ops::entities::{EntityData, Entities};
use cedar_ops::error::EvalError;
use cedar_ops::eval::{apply_binary, apply_unary};
use cedar_ops::ops::{BinaryOp, Operator, UnaryOp};
use cedar_ops::value::{values_equal, EntityUid, Value, ValueKind};

fn uid(t: &str, id: &str) -> EntityUid {
    EntityUid::new(t, id)
}

fn long(n: i64) -> Value {
    Value::Long(n)
}

fn set(xs: Vec<Value>) -> Value {
    Value::SetOf(xs)
}

fn ent(t: &str, id: &str) -> Value {
    Value::Entity(uid(t, id))
}

fn text(s: &str) -> Value {
    Value::Str(String::from(s))
}

fn no_entities() -> Entities {
    Entities { entries: Vec::new() }
}

fn data(u: EntityUid, ancestors: Vec<EntityUid>, tags: Vec<(String, Value)>) -> EntityData {
    EntityData { uid: u, ancestors, tags }
}

/// alice is in admins, admins is in staff; the ancestor lists are closed.
fn org() -> Entities {
    Entities {
        entries: vec![
            data(
                uid("User", "alice"),
                vec![uid("Group", "admins"), uid("Org", "staff")],
                vec![(String::from("level"), long(3))],
            ),
            data(uid("Group", "admins"), vec![uid("Org", "staff")], Vec::new()),
            data(uid("Org", "staff"), Vec::new(), Vec::new()),
            data(uid("Photo", "1"), Vec::new(), Vec::new()),
        ],
    }
}

fn binary(op: BinaryOp, l: &Value, r: &Value, es: &Entities) -> Result<Value, EvalError> {
    apply_binary(op, l, r, es)
}

fn expect_bool(r: Result<Value, EvalError>) -> bool {
    match r {
        Ok(Value::Bool(b)) => b,
        other => panic!("expected a boolean, got {:?}", other),
    }
}

fn expect_long(r: Result<Value, EvalError>) -> i64 {
    match r {
        Ok(Value::Long(n)) => n,
        other => panic!("expected a long, got {:?}", other),
    }
}

const UNARY: [UnaryOp; 3] = [UnaryOp::Not, UnaryOp::Neg, UnaryOp::IsEmpty];

const BINARY: [BinaryOp; 12] = [
    BinaryOp::Eq,
    BinaryOp::Less,
    BinaryOp::LessEq,
    BinaryOp::Add,
    BinaryOp::Sub,
    BinaryOp::Mul,
    BinaryOp::In,
    BinaryOp::Contains,
    BinaryOp::ContainsAll,
    BinaryOp::ContainsAny,
    BinaryOp::GetTag,
    BinaryOp::HasTag,
];

#[test]
fn unary_tokens() {
    assert_eq!(UnaryOp::Not.to_string(), "!");
    assert_eq!(UnaryOp::Neg.to_string(), "-");
    assert_eq!(UnaryOp::IsEmpty.to_string(), "isEmpty");
}

#[test]
fn binary_tokens() {
    let expected = [
        "==", "<", "<=", "+", "-", "*", "in", "contains", "containsAll", "containsAny", "getTag",
        "hasTag",
    ];
    for (op, tok) in BINARY.iter().zip(expected.iter()) {
        assert_eq!(op.to_string(), *tok);
    }
}

#[test]
fn tokens_read_back() {
    for op in UNARY.iter() {
        assert_eq!(UnaryOp::parse(&op.to_string()), Some(*op));
    }
    for op in BINARY.iter() {
        assert_eq!(BinaryOp::parse(&op.to_string()), Some(*op));
    }
}

#[test]
fn unknown_tokens_are_refused() {
    assert_eq!(UnaryOp::parse("not"), None);
    assert_eq!(UnaryOp::parse(""), None);
    assert_eq!(BinaryOp::parse("!"), None);
    assert_eq!(BinaryOp::parse("contain"), None);
    assert_eq!(BinaryOp::parse("containsall"), None);
    assert_eq!(BinaryOp::parse("=="), Some(BinaryOp::Eq));
}

#[test]
fn not_negates_booleans() {
    assert!(!expect_bool(apply_unary(UnaryOp::Not, &Value::Bool(true))));
    assert!(expect_bool(apply_unary(UnaryOp::Not, &Value::Bool(false))));
}

#[test]
fn not_refuses_a_long() {
    match apply_unary(UnaryOp::Not, &long(1)) {
        Err(EvalError::TypeError { op, expected, got }) => {
            assert_eq!(op, Operator::Unary(UnaryOp::Not));
            assert_eq!(expected, ValueKind::Bool);
            assert_eq!(got, ValueKind::Long);
        },
        other => panic!("unexpected {:?}", other),
    }
}

#[test]
fn neg_of_longs() {
    assert_eq!(expect_long(apply_unary(UnaryOp::Neg, &long(5))), -5);
    assert_eq!(expect_long(apply_unary(UnaryOp::Neg, &long(i64::MAX))), -i64::MAX);
    let once = apply_unary(UnaryOp::Neg, &long(-42)).unwrap();
    assert_eq!(expect_long(apply_unary(UnaryOp::Neg, &once)), -42);
}

#[test]
fn neg_of_minimum_overflows() {
    match apply_unary(UnaryOp::Neg, &long(i64::MIN)) {
        Err(EvalError::Overflow { op }) => assert_eq!(op, Operator::Unary(UnaryOp::Neg)),
        other => panic!("unexpected {:?}", other),
    }
}

#[test]
fn neg_refuses_a_string() {
    assert!(matches!(
        apply_unary(UnaryOp::Neg, &text("1")),
        Err(EvalError::TypeError { expected: ValueKind::Long, got: ValueKind::Str, .. })
    ));
}

#[test]
fn is_empty_on_sets() {
    assert!(expect_bool(apply_unary(UnaryOp::IsEmpty, &set(vec![]))));
    assert!(!expect_bool(apply_unary(UnaryOp::IsEmpty, &set(vec![long(1)]))));
    assert!(matches!(
        apply_unary(UnaryOp::IsEmpty, &long(0)),
        Err(EvalError::TypeError { expected: ValueKind::SetOf, got: ValueKind::Long, .. })
    ));
}

#[test]
fn eq_across_types_is_false() {
    let es = no_entities();
    assert!(!expect_bool(binary(BinaryOp::Eq, &long(1), &text("1"), &es)));
    assert!(!expect_bool(binary(BinaryOp::Eq, &Value::Bool(true), &long(1), &es)));
    assert!(!expect_bool(binary(BinaryOp::Eq, &set(vec![]), &Value::Record(vec![]), &es)));
    assert!(!expect_bool(binary(BinaryOp::Eq, &ent("User", "a"), &text("a"), &es)));
}

#[test]
fn eq_is_reflexive() {
    let es = no_entities();
    let vals = vec![
        Value::Bool(false),
        long(-7),
        text("x"),
        ent("User", "alice"),
        set(vec![long(1), set(vec![text("a")])]),
        Value::Record(vec![(String::from("k"), long(2))]),
    ];
    for v in vals.iter() {
        assert!(expect_bool(binary(BinaryOp::Eq, v, v, &es)));
    }
}

#[test]
fn set_eq_ignores_order_and_repeats() {
    let es = no_entities();
    let a = set(vec![long(1), long(2), long(3)]);
    let b = set(vec![long(3), long(1), long(2), long(1)]);
    assert!(expect_bool(binary(BinaryOp::Eq, &a, &b, &es)));
    let c = set(vec![long(1), long(2)]);
    assert!(!expect_bool(binary(BinaryOp::Eq, &a, &c, &es)));
    assert!(values_equal(&b, &a));
}

#[test]
fn record_eq_by_keys_and_values() {
    let es = no_entities();
    let a = Value::Record(vec![(String::from("x"), long(1)), (String::from("y"), text("b"))]);
    let b = Value::Record(vec![(String::from("y"), text("b")), (String::from("x"), long(1))]);
    let c = Value::Record(vec![(String::from("x"), long(1)), (String::from("y"), text("c"))]);
    let d = Value::Record(vec![(String::from("x"), long(1))]);
    assert!(expect_bool(binary(BinaryOp::Eq, &a, &b, &es)));
    assert!(!expect_bool(binary(BinaryOp::Eq, &a, &c, &es)));
    assert!(!expect_bool(binary(BinaryOp::Eq, &a, &d, &es)));
}

#[test]
fn entity_eq_by_type_and_id() {
    let es = no_entities();
    assert!(expect_bool(binary(BinaryOp::Eq, &ent("User", "a"), &ent("User", "a"), &es)));
    assert!(!expect_bool(binary(BinaryOp::Eq, &ent("User", "a"), &ent("Group", "a"), &es)));
}

#[test]
fn comparisons_of_longs() {
    let es = no_entities();
    assert!(expect_bool(binary(BinaryOp::Less, &long(1), &long(2), &es)));
    assert!(!expect_bool(binary(BinaryOp::Less, &long(2), &long(2), &es)));
    assert!(expect_bool(binary(BinaryOp::LessEq, &long(2), &long(2), &es)));
    assert!(!expect_bool(binary(BinaryOp::LessEq, &long(3), &long(2), &es)));
    assert!(matches!(
        binary(BinaryOp::Less, &long(1), &text("2"), &es),
        Err(EvalError::TypeError { expected: ValueKind::Long, got: ValueKind::Str, .. })
    ));
    assert!(matches!(
        binary(BinaryOp::LessEq, &Value::Bool(true), &text("2"), &es),
        Err(EvalError::TypeError { expected: ValueKind::Long, got: ValueKind::Bool, .. })
    ));
}

#[test]
fn arithmetic_is_exact_in_range() {
    let es = no_entities();
    assert_eq!(expect_long(binary(BinaryOp::Add, &long(2), &long(3), &es)), 5);
    assert_eq!(expect_long(binary(BinaryOp::Sub, &long(2), &long(3), &es)), -1);
    assert_eq!(expect_long(binary(BinaryOp::Mul, &long(-4), &long(3), &es)), -12);
    assert_eq!(expect_long(binary(BinaryOp::Add, &long(i64::MAX - 1), &long(1), &es)), i64::MAX);
    assert_eq!(expect_long(binary(BinaryOp::Sub, &long(i64::MIN + 1), &long(1), &es)), i64::MIN);
}

#[test]
fn add_overflow_is_reported() {
    let es = no_entities();
    match binary(BinaryOp::Add, &long(9223372036854775807), &long(1), &es) {
        Err(EvalError::Overflow { op }) => assert_eq!(op, Operator::Binary(BinaryOp::Add)),
        other => panic!("unexpected {:?}", other),
    }
}

#[test]
fn sub_and_mul_overflow_are_reported() {
    let es = no_entities();
    assert!(matches!(
        binary(BinaryOp::Sub, &long(i64::MIN), &long(1), &es),
        Err(EvalError::Overflow { op: Operator::Binary(BinaryOp::Sub) })
    ));
    assert!(matches!(
        binary(BinaryOp::Mul, &long(i64::MAX / 2 + 1), &long(2), &es),
        Err(EvalError::Overflow { op: Operator::Binary(BinaryOp::Mul) })
    ));
    assert!(matches!(
        binary(BinaryOp::Mul, &long(-1), &long(i64::MIN), &es),
        Err(EvalError::Overflow { op: Operator::Binary(BinaryOp::Mul) })
    ));
}

#[test]
fn arithmetic_refuses_non_longs() {
    let es = no_entities();
    assert!(matches!(
        binary(BinaryOp::Add, &text("1"), &long(1), &es),
        Err(EvalError::TypeError { expected: ValueKind::Long, got: ValueKind::Str, .. })
    ));
    assert!(matches!(
        binary(BinaryOp::Mul, &long(1), &set(vec![]), &es),
        Err(EvalError::TypeError { expected: ValueKind::Long, got: ValueKind::SetOf, .. })
    ));
}

#[test]
fn in_is_reflexive_even_for_unknown_entities() {
    let es = no_entities();
    let e = ent("User", "bob");
    assert!(expect_bool(binary(BinaryOp::In, &e, &e, &es)));
    assert!(expect_bool(binary(BinaryOp::In, &e, &set(vec![ent("User", "bob")]), &es)));
}

#[test]
fn in_follows_the_hierarchy() {
    let es = org();
    let alice = ent("User", "alice");
    assert!(expect_bool(binary(BinaryOp::In, &alice, &set(vec![ent("Group", "admins")]), &es)));
    assert!(expect_bool(binary(BinaryOp::In, &alice, &ent("Org", "staff"), &es)));
    assert!(expect_bool(binary(BinaryOp::In, &alice, &set(vec![ent("Photo", "1"), ent("Org", "staff")]), &es)));
    assert!(!expect_bool(binary(BinaryOp::In, &alice, &ent("Photo", "1"), &es)));
    assert!(!expect_bool(binary(BinaryOp::In, &ent("Org", "staff"), &ent("User", "alice"), &es)));
    assert!(!expect_bool(binary(BinaryOp::In, &alice, &set(vec![]), &es)));
}

#[test]
fn in_reports_type_errors() {
    let es = org();
    let alice = ent("User", "alice");
    assert!(matches!(
        binary(BinaryOp::In, &alice, &set(vec![ent("Group", "admins"), long(1)]), &es),
        Err(EvalError::TypeError { expected: ValueKind::Entity, got: ValueKind::Long, .. })
    ));
    assert!(matches!(
        binary(BinaryOp::In, &alice, &set(vec![alice_again(), text("x"), long(1)]), &es),
        Err(EvalError::TypeError { expected: ValueKind::Entity, got: ValueKind::Str, .. })
    ));
    assert!(matches!(
        binary(BinaryOp::In, &text("alice"), &alice, &es),
        Err(EvalError::TypeError { expected: ValueKind::Entity, got: ValueKind::Str, .. })
    ));
    assert!(matches!(
        binary(BinaryOp::In, &alice, &long(3), &es),
        Err(EvalError::TypeError { expected: ValueKind::Entity, got: ValueKind::Long, .. })
    ));
}

fn alice_again() -> Value {
    ent("User", "alice")
}

#[test]
fn in_reports_unknown_entities() {
    let es = org();
    match binary(BinaryOp::In, &ent("User", "eve"), &ent("Group", "admins"), &es) {
        Err(EvalError::UnknownEntity { entity }) => {
            assert_eq!(entity.entity_type, "User");
            assert_eq!(entity.id, "eve");
        },
        other => panic!("unexpected {:?}", other),
    }
}

#[test]
fn contains_uses_total_equality() {
    let es = no_entities();
    let s = set(vec![long(1), text("a"), set(vec![long(2), long(3)])]);
    assert!(expect_bool(binary(BinaryOp::Contains, &s, &long(1), &es)));
    assert!(expect_bool(binary(BinaryOp::Contains, &s, &set(vec![long(3), long(2)]), &es)));
    assert!(!expect_bool(binary(BinaryOp::Contains, &s, &text("1"), &es)));
    assert!(!expect_bool(binary(BinaryOp::Contains, &set(vec![]), &long(1), &es)));
    assert!(matches!(
        binary(BinaryOp::Contains, &long(1), &long(1), &es),
        Err(EvalError::TypeError { expected: ValueKind::SetOf, got: ValueKind::Long, .. })
    ));
}

#[test]
fn contains_all_of_sets() {
    let es = no_entities();
    let s = set(vec![long(1), long(2), long(3)]);
    assert!(expect_bool(binary(BinaryOp::ContainsAll, &s, &set(vec![long(2), long(3)]), &es)));
    assert!(!expect_bool(binary(BinaryOp::ContainsAll, &s, &set(vec![long(2), long(4)]), &es)));
    assert!(expect_bool(binary(BinaryOp::ContainsAll, &s, &set(vec![]), &es)));
    assert!(expect_bool(binary(BinaryOp::ContainsAll, &set(vec![]), &set(vec![]), &es)));
    assert!(matches!(
        binary(BinaryOp::ContainsAll, &s, &long(2), &es),
        Err(EvalError::TypeError { expected: ValueKind::SetOf, got: ValueKind::Long, .. })
    ));
}

#[test]
fn contains_any_of_sets() {
    let es = no_entities();
    let s = set(vec![long(1), long(2), long(3)]);
    assert!(expect_bool(binary(BinaryOp::ContainsAny, &s, &set(vec![long(9), long(3)]), &es)));
    assert!(!expect_bool(binary(BinaryOp::ContainsAny, &s, &set(vec![long(9)]), &es)));
    assert!(!expect_bool(binary(BinaryOp::ContainsAny, &s, &set(vec![]), &es)));
    assert!(matches!(
        binary(BinaryOp::ContainsAny, &text("s"), &s, &es),
        Err(EvalError::TypeError { expected: ValueKind::SetOf, got: ValueKind::Str, .. })
    ));
}

#[test]
fn tags_are_read() {
    let es = org();
    let alice = ent("User", "alice");
    assert!(expect_bool(binary(BinaryOp::HasTag, &alice, &text("level"), &es)));
    assert_eq!(expect_long(binary(BinaryOp::GetTag, &alice, &text("level"), &es)), 3);
}

#[test]
fn missing_tag_is_false_or_an_error() {
    let es = org();
    let photo = ent("Photo", "1");
    assert!(!expect_bool(binary(BinaryOp::HasTag, &photo, &text("owner"), &es)));
    match binary(BinaryOp::GetTag, &photo, &text("owner"), &es) {
        Err(EvalError::TagNotFound { entity, tag }) => {
            assert_eq!(entity.entity_type, "Photo");
            assert_eq!(entity.id, "1");
            assert_eq!(tag, "owner");
        },
        other => panic!("unexpected {:?}", other),
    }
}

#[test]
fn tags_of_unknown_entities_and_wrong_types() {
    let es = org();
    assert!(matches!(
        binary(BinaryOp::HasTag, &ent("User", "eve"), &text("level"), &es),
        Err(EvalError::UnknownEntity { .. })
    ));
    assert!(matches!(
        binary(BinaryOp::GetTag, &ent("User", "alice"), &long(1), &es),
        Err(EvalError::TypeError { expected: ValueKind::Str, got: ValueKind::Long, .. })
    ));
    assert!(matches!(
        binary(BinaryOp::HasTag, &text("alice"), &text("level"), &es),
        Err(EvalError::TypeError { expected: ValueKind::Entity, got: ValueKind::Str, .. })
    ));
}

#[test]
fn get_tag_copies_nested_values() {
    let inner = set(vec![text("r"), Value::Record(vec![(String::from("n"), long(7))])]);
    let es = Entities {
        entries: vec![data(uid("Doc", "d"), Vec::new(), vec![(String::from("acl"), inner)])],
    };
    let got = binary(BinaryOp::GetTag, &ent("Doc", "d"), &text("acl"), &es).unwrap();
    let expected = set(vec![Value::Record(vec![(String::from("n"), long(7))]), text("r")]);
    assert!(values_equal(&got, &expected));
    match got {
        Value::SetOf(xs) => assert_eq!(xs.len(), 2),
        other => panic!("unexpected {:?}", other),
    }
}

#[test]
fn first_entry_of_an_entity_counts() {
    let es = Entities {
        entries: vec![
            data(uid("User", "a"), vec![uid("Group", "g")], Vec::new()),
            data(uid("User", "a"), Vec::new(), Vec::new()),
        ],
    };
    assert!(expect_bool(binary(BinaryOp::In, &ent("User", "a"), &ent("Group", "g"), &es)));
}

#[test]
fn deep_copy_is_equal() {
    let v = set(vec![long(1), set(vec![text("a"), ent("User", "x")])]);
    let c = v.deep_copy();
    assert!(values_equal(&v, &c));
    assert_eq!(c.kind(), ValueKind::SetOf);
}

#[test]
fn store_lookups() {
    let es = org();
    let anc = es.ancestors_of(&uid("User", "alice")).unwrap();
    assert_eq!(anc.len(), 2);
    assert_eq!(anc[0].id, "admins");
    assert_eq!(es.tags_of(&uid("User", "alice")).unwrap().len(), 1);
    assert!(matches!(es.ancestors_of(&uid("User", "eve")), Err(EvalError::UnknownEntity { .. })));
    assert!(matches!(es.tags_of(&uid("Group", "nobody")), Err(EvalError::UnknownEntity { .. })));
    assert_eq!(es.find(&uid("Org", "staff")), Some(2));
}
