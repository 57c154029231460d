use say::dict::check_entries;
use say::dict::contains_key;
use say::schema::distinct;
use say::schema::position;
use say::validator::check_kind;
use say::BooleanType;
use say::DataType;
use say::DefectKind;
use say::Kind;
use say::NumberType;
use say::SchemaError;
use say::Step;
use say::Value;

fn flag() -> DataType {
    DataType::Boolean(Box::new(BooleanType { optional: false, nullable: false }))
}

fn entries(names: &[&str]) -> Vec<(String, DataType)> {
    names.iter().map(|name| (name.to_string(), flag())).collect()
}

#[test]
fn position_finds_the_first_entry_with_the_name() {
    let list = entries(&["a", "b", "a", "c"]);
    assert_eq!(Some(0), position(&list, &"a".to_owned()));
    assert_eq!(Some(1), position(&list, &"b".to_owned()));
    assert_eq!(Some(3), position(&list, &"c".to_owned()));
    assert_eq!(None, position(&list, &"d".to_owned()));
    assert_eq!(None, position(&entries(&[]), &"a".to_owned()));
}

#[test]
fn distinct_tells_whether_a_name_repeats() {
    assert_eq!(true, distinct(&entries(&[])));
    assert_eq!(true, distinct(&entries(&["a"])));
    assert_eq!(true, distinct(&entries(&["a", "b", "c"])));
    assert_eq!(false, distinct(&entries(&["a", "b", "a"])));
    assert_eq!(false, distinct(&entries(&["a", "b", "b"])));
    assert_eq!(true, distinct(&entries(&["a", "A"])));
}

#[test]
fn contains_key_looks_for_a_member() {
    let members = vec![("a".to_owned(), Value::Null), ("b".to_owned(), Value::Bool(true))];
    assert_eq!(true, contains_key(&members, &"a".to_owned()));
    assert_eq!(true, contains_key(&members, &"b".to_owned()));
    assert_eq!(false, contains_key(&members, &"c".to_owned()));
    assert_eq!(false, contains_key(&vec![], &"a".to_owned()));
}

#[test]
fn check_kind_compares_kinds() {
    assert_eq!(true, check_kind(Kind::Bool, false, &Value::Bool(true)));
    assert_eq!(false, check_kind(Kind::Bool, false, &Value::Null));
    assert_eq!(true, check_kind(Kind::Bool, true, &Value::Null));
    assert_eq!(false, check_kind(Kind::Bool, true, &Value::Array(vec![])));
    assert_eq!(true, check_kind(Kind::Null, false, &Value::Null));
}

#[test]
fn check_entries_names_the_entry_at_fault() {
    let bad = DataType::Number(Box::new(NumberType {
        optional: false,
        nullable: false,
        max: Some(0),
        min: Some(1),
    }));
    let list = vec![("a".to_owned(), flag()), ("b".to_owned(), bad)];
    assert_eq!(
        Err(SchemaError { path: vec![Step::Field("b".to_owned())], kind: DefectKind::MinAboveMax }),
        check_entries(&list, false)
    );
    assert_eq!(
        Err(SchemaError {
            path: vec![Step::AnyField("b".to_owned())],
            kind: DefectKind::MinAboveMax
        }),
        check_entries(&list, true)
    );
    assert_eq!(Ok(()), check_entries(&entries(&["a", "b"]), false));
}
