use say::BooleanType;
use say::DataType;
use say::DictType;
use say::Kind;
use say::ListType;
use say::LiteralType;
use say::Number;
use say::NumberType;
use say::StringType;
use say::Validator;
use say::Value;

fn text(s: &str) -> Value {
    Value::String(s.to_owned())
}

fn samples() -> Vec<Value> {
    vec![
        Value::Null,
        Value::Bool(false),
        Value::Number(Number::PosInt(7)),
        text("seven"),
        Value::Array(vec![]),
        Value::Object(vec![]),
    ]
}

fn nodes(nullable: bool) -> Vec<(DataType, Kind)> {
    vec![
        (
            DataType::Dict(Box::new(DictType {
                optional: false,
                nullable,
                fields: vec![],
                any_fields: None,
                others: None,
            })),
            Kind::Object,
        ),
        (
            DataType::List(Box::new(ListType {
                optional: false,
                nullable,
                element_type: DataType::Boolean(Box::new(BooleanType { optional: false, nullable: false })),
                limit: None,
            })),
            Kind::Array,
        ),
        (
            DataType::String(Box::new(StringType { optional: false, nullable, length: None, regex: None })),
            Kind::String,
        ),
        (
            DataType::Literal(Box::new(LiteralType {
                optional: false,
                nullable,
                candidate: vec!["seven".to_owned()],
            })),
            Kind::String,
        ),
        (DataType::Boolean(Box::new(BooleanType { optional: false, nullable })), Kind::Bool),
        (
            DataType::Number(Box::new(NumberType { optional: false, nullable, max: None, min: None })),
            Kind::Number,
        ),
    ]
}

#[test]
fn kind_of_each_value() {
    let kinds: Vec<Kind> = samples().iter().map(|v| v.kind()).collect();
    assert_eq!(
        kinds,
        vec![Kind::Null, Kind::Bool, Kind::Number, Kind::String, Kind::Array, Kind::Object]
    );
}

#[test]
fn type_check_passes_only_the_expected_kind() {
    for (node, expected) in nodes(false) {
        for value in samples() {
            assert_eq!(value.kind() == expected, node.validate_type(&value));
        }
    }
}

#[test]
fn type_check_of_a_nullable_node_also_passes_null() {
    for (node, expected) in nodes(true) {
        for value in samples() {
            let kind = value.kind();
            assert_eq!(kind == expected || kind == Kind::Null, node.validate_type(&value));
        }
    }
}

#[test]
fn null_conforms_exactly_to_nullable_nodes() {
    for (node, _) in nodes(true) {
        assert_eq!(true, node.nullable());
        assert_eq!(true, node.validate(&Value::Null));
    }
    for (node, _) in nodes(false) {
        assert_eq!(false, node.nullable());
        assert_eq!(false, node.validate(&Value::Null));
    }
}

#[test]
fn optional_flag_is_read_from_each_variant() {
    let node = DataType::Boolean(Box::new(BooleanType { optional: true, nullable: false }));
    assert_eq!(true, node.optional());
    assert_eq!(false, node.nullable());
    for (node, _) in nodes(true) {
        assert_eq!(false, node.optional());
    }
}

#[test]
fn literal_without_candidates_rejects_every_string() {
    let literal = LiteralType { optional: false, nullable: false, candidate: vec![] };
    assert_eq!(false, literal.validate(&text("")));
    assert_eq!(false, literal.validate(&text("a")));
}

#[test]
fn literal_match_is_exact() {
    let literal = LiteralType {
        optional: false,
        nullable: false,
        candidate: vec!["Red".to_owned(), "green".to_owned()],
    };
    assert_eq!(true, literal.validate(&text("Red")));
    assert_eq!(false, literal.validate(&text("red")));
    assert_eq!(false, literal.validate(&text("Red ")));
    assert_eq!(false, literal.validate(&text("gree")));
    assert_eq!(true, literal.validate(&text("green")));
    assert_eq!(false, literal.validate(&Value::Number(Number::PosInt(1))));
}

#[test]
fn string_length_counts_characters_not_bytes() {
    let string = StringType { optional: false, nullable: false, length: Some(10), regex: None };
    // ten characters in thirty bytes
    assert_eq!(true, string.validate(&text("中文中文中文中文中文")));
    // eleven characters
    assert_eq!(false, string.validate(&text("中文中文中文中文中文中")));
    // ten characters in forty bytes
    assert_eq!(true, string.validate(&text("👍👍👍👍👍👍👍👍👍👍")));
    assert_eq!(false, string.validate(&text("👍👍👍👍👍👍👍👍👍👍!")));
}

#[test]
fn string_length_zero_takes_only_the_empty_string() {
    let string = StringType { optional: false, nullable: false, length: Some(0), regex: None };
    assert_eq!(true, string.validate(&text("")));
    assert_eq!(false, string.validate(&text("a")));
}

#[test]
fn string_regex_is_anchored_at_both_ends() {
    let string = StringType {
        optional: false,
        nullable: false,
        length: None,
        regex: Some("[0-9]+".to_owned()),
    };
    assert_eq!(false, string.validate(&text("emoji👍123")));
    assert_eq!(true, string.validate(&text("1234567890")));
    assert_eq!(false, string.validate(&text("123abc")));
    assert_eq!(false, string.validate(&text("abc123")));
    assert_eq!(false, string.validate(&text("123\n")));
}

#[test]
fn string_regex_with_alternatives_is_anchored_as_a_whole() {
    let string = StringType {
        optional: false,
        nullable: false,
        length: None,
        regex: Some("cat|dog".to_owned()),
    };
    assert_eq!(true, string.validate(&text("cat")));
    assert_eq!(true, string.validate(&text("dog")));
    assert_eq!(false, string.validate(&text("catfish")));
    assert_eq!(false, string.validate(&text("hotdog")));
}

#[test]
fn string_length_and_regex_must_both_hold() {
    let string = StringType {
        optional: false,
        nullable: false,
        length: Some(3),
        regex: Some("[a-z]*".to_owned()),
    };
    assert_eq!(true, string.validate(&text("abc")));
    assert_eq!(false, string.validate(&text("abcd")));
    assert_eq!(false, string.validate(&text("ab1")));
}

fn booleans(n: usize) -> Value {
    Value::Array((0..n).map(|_| Value::Bool(true)).collect())
}

fn list(limit: Option<u64>) -> ListType {
    ListType {
        optional: false,
        nullable: false,
        element_type: DataType::Boolean(Box::new(BooleanType { optional: false, nullable: false })),
        limit,
    }
}

#[test]
fn list_limit_is_inclusive() {
    assert_eq!(true, list(Some(3)).validate(&booleans(0)));
    assert_eq!(true, list(Some(3)).validate(&booleans(2)));
    assert_eq!(true, list(Some(3)).validate(&booleans(3)));
    assert_eq!(false, list(Some(3)).validate(&booleans(4)));
    assert_eq!(true, list(Some(0)).validate(&booleans(0)));
    assert_eq!(false, list(Some(0)).validate(&booleans(1)));
    assert_eq!(true, list(None).validate(&booleans(100)));
}

#[test]
fn list_fails_on_a_bad_element_at_any_position() {
    let bad = Value::Number(Number::PosInt(1));
    assert_eq!(
        false,
        list(None).validate(&Value::Array(vec![bad, Value::Bool(true), Value::Bool(true)]))
    );
    let bad = Value::Number(Number::PosInt(1));
    assert_eq!(
        false,
        list(None).validate(&Value::Array(vec![Value::Bool(true), bad, Value::Bool(true)]))
    );
    let bad = Value::Number(Number::PosInt(1));
    assert_eq!(
        false,
        list(None).validate(&Value::Array(vec![Value::Bool(true), Value::Bool(false), bad]))
    );
}

#[test]
fn list_of_lists_is_validated_in_depth() {
    let outer = ListType {
        optional: false,
        nullable: false,
        element_type: DataType::List(Box::new(list(Some(1)))),
        limit: None,
    };
    assert_eq!(true, outer.validate(&Value::Array(vec![booleans(1), booleans(0)])));
    assert_eq!(false, outer.validate(&Value::Array(vec![booleans(1), booleans(2)])));
}

fn flag(optional: bool) -> DataType {
    DataType::Boolean(Box::new(BooleanType { optional, nullable: false }))
}

fn object(members: Vec<(&str, Value)>) -> Value {
    Value::Object(members.into_iter().map(|(name, value)| (name.to_owned(), value)).collect())
}

#[test]
fn dict_rejects_a_member_that_nothing_governs() {
    let dict = DictType {
        optional: false,
        nullable: false,
        fields: vec![("a".to_owned(), flag(false))],
        any_fields: None,
        others: None,
    };
    assert_eq!(true, dict.validate(&object(vec![("a", Value::Bool(true))])));
    assert_eq!(false, dict.validate(&object(vec![("b", Value::Bool(true))])));
    assert_eq!(
        false,
        dict.validate(&object(vec![("a", Value::Bool(true)), ("b", Value::Bool(true))]))
    );
}

#[test]
fn dict_validates_the_value_of_a_declared_field() {
    let dict = DictType {
        optional: false,
        nullable: false,
        fields: vec![("a".to_owned(), flag(false))],
        any_fields: None,
        others: None,
    };
    assert_eq!(false, dict.validate(&object(vec![("a", Value::Number(Number::PosInt(1)))])));
    assert_eq!(false, dict.validate(&object(vec![("a", Value::Null)])));
}

#[test]
fn dict_requires_the_fields_that_are_not_optional() {
    let dict = DictType {
        optional: false,
        nullable: false,
        fields: vec![("must".to_owned(), flag(false)), ("may".to_owned(), flag(true))],
        any_fields: None,
        others: None,
    };
    assert_eq!(false, dict.validate(&object(vec![])));
    assert_eq!(false, dict.validate(&object(vec![("may", Value::Bool(true))])));
    assert_eq!(true, dict.validate(&object(vec![("must", Value::Bool(true))])));
    assert_eq!(
        true,
        dict.validate(&object(vec![("may", Value::Bool(false)), ("must", Value::Bool(true))]))
    );
}

#[test]
fn dict_falls_back_on_any_fields_and_then_on_others() {
    let dict = DictType {
        optional: false,
        nullable: false,
        fields: vec![("a".to_owned(), flag(true))],
        any_fields: Some(vec![(
            "x".to_owned(),
            DataType::Number(Box::new(NumberType { optional: false, nullable: false, max: None, min: None })),
        )]),
        others: Some(DataType::String(Box::new(StringType {
            optional: false,
            nullable: false,
            length: Some(2),
            regex: None,
        }))),
    };
    // governed by `fields`
    assert_eq!(true, dict.validate(&object(vec![("a", Value::Bool(true))])));
    assert_eq!(false, dict.validate(&object(vec![("a", text("no"))])));
    // governed by `any_fields`, which is never required
    assert_eq!(true, dict.validate(&object(vec![("x", Value::Number(Number::PosInt(3)))])));
    assert_eq!(false, dict.validate(&object(vec![("x", text("3"))])));
    assert_eq!(true, dict.validate(&object(vec![])));
    // governed by `others`
    assert_eq!(true, dict.validate(&object(vec![("y", text("ok"))])));
    assert_eq!(false, dict.validate(&object(vec![("y", text("too long"))])));
    assert_eq!(false, dict.validate(&object(vec![("y", Value::Bool(true))])));
}

#[test]
fn dict_governor_picks_the_node_by_name() {
    let dict = DictType {
        optional: false,
        nullable: false,
        fields: vec![("a".to_owned(), flag(true))],
        any_fields: Some(vec![("x".to_owned(), flag(false))]),
        others: None,
    };
    assert_eq!(Some(true), dict.governor(&"a".to_owned()).map(|node| node.optional()));
    assert_eq!(Some(false), dict.governor(&"x".to_owned()).map(|node| node.optional()));
    assert_eq!(true, dict.governor(&"y".to_owned()).is_none());
    assert_eq!(true, dict.validate_member(&"a".to_owned(), &Value::Bool(true)));
    assert_eq!(false, dict.validate_member(&"y".to_owned(), &Value::Bool(true)));
}

#[test]
fn nested_dict_is_validated_in_depth() {
    let inner = DictType {
        optional: false,
        nullable: true,
        fields: vec![("on".to_owned(), flag(false))],
        any_fields: None,
        others: None,
    };
    let outer = DictType {
        optional: false,
        nullable: false,
        fields: vec![("inner".to_owned(), DataType::Dict(Box::new(inner)))],
        any_fields: None,
        others: None,
    };
    assert_eq!(
        true,
        outer.validate(&object(vec![("inner", object(vec![("on", Value::Bool(true))]))]))
    );
    assert_eq!(true, outer.validate(&object(vec![("inner", Value::Null)])));
    assert_eq!(false, outer.validate(&object(vec![("inner", object(vec![]))])));
    assert_eq!(
        false,
        outer.validate(&object(vec![("inner", object(vec![("on", text("yes"))]))]))
    );
}

#[test]
fn no_value_is_ever_coerced() {
    let number = NumberType { optional: false, nullable: false, max: None, min: None };
    assert_eq!(false, number.validate(&text("3")));
    let boolean = BooleanType { optional: false, nullable: false };
    assert_eq!(false, boolean.validate(&text("true")));
    assert_eq!(false, boolean.validate(&Value::Number(Number::PosInt(1))));
    let string = StringType { optional: false, nullable: false, length: None, regex: None };
    assert_eq!(false, string.validate(&Value::Number(Number::PosInt(3))));
}

#[test]
fn validating_twice_gives_the_same_verdict() {
    let string = StringType {
        optional: false,
        nullable: false,
        length: Some(4),
        regex: Some("[a-z]+".to_owned()),
    };
    for value in [text("abc"), text("abcde"), text("ABC"), Value::Null] {
        let first = string.validate(&value);
        let second = string.validate(&value);
        assert_eq!(first, second);
    }
    let dict = DictType {
        optional: false,
        nullable: false,
        fields: vec![("a".to_owned(), flag(false))],
        any_fields: None,
        others: None,
    };
    let value = object(vec![("a", Value::Bool(true))]);
    assert_eq!(dict.validate(&value), dict.validate(&value));
    assert_eq!(dict.report(&value), dict.report(&value));
}
