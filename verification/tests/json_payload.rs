use tauri_mcp::error::PayloadProblem;
use tauri_mcp::json::Json;
use tauri_mcp::payload::{
    bool_or, int_or, optional_bool, optional_int, optional_text, required_int, required_text,
};

fn obj(entries: Vec<(&str, Json)>) -> Json {
    Json::Object(entries.into_iter().map(|(k, v)| (k.to_string(), v)).collect())
}

fn text(s: &str) -> Json {
    Json::Text(s.to_string())
}

#[test]
fn get_finds_member_by_key() {
    let v = obj(vec![("a", Json::Int(1)), ("b", text("two")), ("c", Json::Null)]);
    assert_eq!(v.get("a"), Some(&Json::Int(1)));
    assert_eq!(v.get("b"), Some(&text("two")));
    assert_eq!(v.get("c"), Some(&Json::Null));
    assert_eq!(v.get("d"), None);
    assert_eq!(v.get(""), None);
}

#[test]
fn get_takes_first_of_repeated_keys() {
    let v = obj(vec![("k", Json::Int(1)), ("k", Json::Int(2))]);
    assert_eq!(v.get("k"), Some(&Json::Int(1)));
}

#[test]
fn get_on_non_object_is_none() {
    assert_eq!(Json::Null.get("a"), None);
    assert_eq!(text("a").get("a"), None);
    assert_eq!(Json::Array(vec![Json::Int(1)]).get("0"), None);
    assert_eq!(Json::Bool(true).get("a"), None);
}

#[test]
fn accessors_tell_the_kinds_apart() {
    assert_eq!(text("x").as_text(), Some(&"x".to_string()));
    assert_eq!(Json::Int(3).as_text(), None);
    assert_eq!(Json::Bool(true).as_bool(), Some(true));
    assert_eq!(Json::Bool(false).as_bool(), Some(false));
    assert_eq!(Json::Null.as_bool(), None);
    assert_eq!(Json::Int(-7).as_int(), Some(-7));
    assert_eq!(Json::Decimal("1.5".to_string()).as_int(), None);
    assert!(Json::Null.is_null());
    assert!(!Json::Int(0).is_null());
    assert!(obj(vec![]).is_object());
    assert!(!Json::Array(vec![]).is_object());
}

#[test]
fn duplicate_copies_nested_values() {
    let v = obj(vec![
        ("list", Json::Array(vec![Json::Int(1), text("b"), Json::Array(vec![Json::Null])])),
        ("inner", obj(vec![("x", Json::Bool(true)), ("y", Json::Decimal("2.50".to_string()))])),
    ]);
    assert_eq!(v.duplicate(), v);
    assert_eq!(v.clone(), v);
    assert_eq!(Json::Null.duplicate(), Json::Null);
}

#[test]
fn builders_make_the_values() {
    assert_eq!(Json::text("hi"), text("hi"));
    assert_eq!(Json::text_or_null(&Some("a".to_string())), text("a"));
    assert_eq!(Json::text_or_null(&None), Json::Null);
    assert_eq!(
        Json::object(vec![("k".to_string(), Json::Int(1))]),
        Json::Object(vec![("k".to_string(), Json::Int(1))])
    );
    assert_eq!(Json::array(vec![Json::Int(1)]), Json::Array(vec![Json::Int(1)]));
}

#[test]
fn required_text_reads_or_names_the_field() {
    let v = obj(vec![("name", text("n")), ("num", Json::Int(1))]);
    assert_eq!(required_text(&v, "name"), Ok("n".to_string()));
    assert_eq!(required_text(&v, "gone"), Err(PayloadProblem::MissingField("gone".to_string())));
    assert_eq!(required_text(&v, "num"), Err(PayloadProblem::WrongType("num".to_string())));
}

#[test]
fn optional_text_takes_absent_and_null() {
    let v = obj(vec![("a", text("x")), ("b", Json::Null), ("c", Json::Bool(true))]);
    assert_eq!(optional_text(&v, "a"), Ok(Some("x".to_string())));
    assert_eq!(optional_text(&v, "b"), Ok(None));
    assert_eq!(optional_text(&v, "zzz"), Ok(None));
    assert_eq!(optional_text(&v, "c"), Err(PayloadProblem::WrongType("c".to_string())));
}

#[test]
fn bool_or_uses_default_only_when_absent() {
    let v = obj(vec![("t", Json::Bool(true)), ("n", Json::Null), ("s", text("true"))]);
    assert_eq!(bool_or(&v, "t", false), Ok(true));
    assert_eq!(bool_or(&v, "absent", false), Ok(false));
    assert_eq!(bool_or(&v, "absent", true), Ok(true));
    assert_eq!(bool_or(&v, "n", false), Err(PayloadProblem::WrongType("n".to_string())));
    assert_eq!(bool_or(&v, "s", false), Err(PayloadProblem::WrongType("s".to_string())));
}

#[test]
fn optional_bool_takes_absent_and_null() {
    let v = obj(vec![("t", Json::Bool(false)), ("n", Json::Null), ("i", Json::Int(1))]);
    assert_eq!(optional_bool(&v, "t"), Ok(Some(false)));
    assert_eq!(optional_bool(&v, "n"), Ok(None));
    assert_eq!(optional_bool(&v, "absent"), Ok(None));
    assert_eq!(optional_bool(&v, "i"), Err(PayloadProblem::WrongType("i".to_string())));
}

#[test]
fn required_int_checks_presence_type_and_range() {
    let v = obj(vec![
        ("n", Json::Int(5)),
        ("big", Json::Int(1 << 40)),
        ("d", Json::Decimal("5.0".to_string())),
    ]);
    assert_eq!(required_int(&v, "n", 0, 10), Ok(5));
    assert_eq!(required_int(&v, "n", 5, 5), Ok(5));
    assert_eq!(required_int(&v, "n", 6, 10), Err(PayloadProblem::WrongType("n".to_string())));
    assert_eq!(required_int(&v, "n", 0, 4), Err(PayloadProblem::WrongType("n".to_string())));
    assert_eq!(
        required_int(&v, "big", 0, u32::MAX as i128),
        Err(PayloadProblem::WrongType("big".to_string()))
    );
    assert_eq!(required_int(&v, "d", 0, 10), Err(PayloadProblem::WrongType("d".to_string())));
    assert_eq!(required_int(&v, "x", 0, 10), Err(PayloadProblem::MissingField("x".to_string())));
}

#[test]
fn optional_int_takes_absent_and_null() {
    let v = obj(vec![("n", Json::Int(-3)), ("z", Json::Null), ("t", text("3"))]);
    assert_eq!(optional_int(&v, "n", -10, 10), Ok(Some(-3)));
    assert_eq!(optional_int(&v, "n", 0, 10), Err(PayloadProblem::WrongType("n".to_string())));
    assert_eq!(optional_int(&v, "z", 0, 10), Ok(None));
    assert_eq!(optional_int(&v, "absent", 0, 10), Ok(None));
    assert_eq!(optional_int(&v, "t", 0, 10), Err(PayloadProblem::WrongType("t".to_string())));
}

#[test]
fn int_or_uses_default_only_when_absent() {
    let v = obj(vec![("n", Json::Int(7)), ("z", Json::Null)]);
    assert_eq!(int_or(&v, "n", 0, 10, 20), Ok(7));
    assert_eq!(int_or(&v, "absent", 0, 10, 20), Ok(20));
    assert_eq!(int_or(&v, "z", 0, 10, 20), Err(PayloadProblem::WrongType("z".to_string())));
    assert_eq!(int_or(&v, "n", 8, 10, 20), Err(PayloadProblem::WrongType("n".to_string())));
}

#[test]
fn plain_values_have_their_json_text() {
    assert_eq!(Json::Null.plain_text(), Some("null".to_string()));
    assert_eq!(Json::Bool(true).plain_text(), Some("true".to_string()));
    assert_eq!(Json::Bool(false).plain_text(), Some("false".to_string()));
    assert_eq!(Json::Int(0).plain_text(), Some("0".to_string()));
    assert_eq!(Json::Int(42).plain_text(), Some("42".to_string()));
    assert_eq!(Json::Int(-42).plain_text(), Some("-42".to_string()));
    assert_eq!(Json::Decimal("1.5e3".to_string()).plain_text(), Some("1.5e3".to_string()));
    assert_eq!(text("a").plain_text(), None);
    assert_eq!(Json::Array(vec![]).plain_text(), None);
    assert_eq!(obj(vec![]).plain_text(), None);
}

#[test]
fn plain_text_agrees_with_the_json_writer() {
    for n in [0i64, 1, -1, 9, 10, -10, 12345, i64::MAX, i64::MIN] {
        let written = serde_json::Value::Number(serde_json::Number::from(n)).to_string();
        assert_eq!(Json::Int(n as i128).plain_text(), Some(written));
    }
    let big = serde_json::Value::Number(serde_json::Number::from(u64::MAX)).to_string();
    assert_eq!(Json::Int(u64::MAX as i128).plain_text(), Some(big));
    assert_eq!(Json::Null.plain_text(), Some(serde_json::Value::Null.to_string()));
    assert_eq!(Json::Bool(true).plain_text(), Some(serde_json::Value::Bool(true).to_string()));
    assert_eq!(Json::Bool(false).plain_text(), Some(serde_json::Value::Bool(false).to_string()));
}

#[test]
fn quoted_text_is_handed_in_only_for_what_has_an_inside() {
    assert_eq!(Json::Int(5).quoted_text("five"), "5");
    assert_eq!(Json::Null.quoted_text("nothing"), "null");
    assert_eq!(Json::Array(vec![Json::Int(5)]).quoted_text("[5]"), "[5]");
    assert_eq!(obj(vec![]).quoted_text("{}"), "{}");
    assert_eq!(text("a").quoted_text("\"a\""), "\"a\"");
}
