use sqlapi::sniff::{extract_type_from_string, parse_type, query_payload};
use sqlapi::template::{compile, parse_query, replace_variables_in_query, TemplateError};
use sqlapi::value::{ColType, JsonValue};
use sqlapi::values::ValueMap;
use sqlapi::webhook::{replace_variables_with_values, resolve_path};

fn names(v: &[&str]) -> Vec<String> {
    v.iter().map(|s| s.to_string()).collect()
}

#[test]
fn test() {
    assert_eq!(parse_type("1"), "number");
    assert_eq!(parse_type("1.2"), "number");
    assert_eq!(parse_type("true"), "bool");
    assert_eq!(parse_type("false"), "bool");
    assert_eq!(parse_type("Hello "), "string");
}

#[test]
fn mod_test1() {
    assert_eq!(
        parse_query("SELECT * FROM todos where user_id=${userId};"),
        Ok(names(&["userId"]))
    )
}

#[test]
fn mod_test2() {
    let query = "SELECT * FROM todos where user_id=${userId};";
    let parmas = parse_query(query).unwrap();

    assert_eq!(
        replace_variables_in_query(query, parmas),
        String::from("SELECT * FROM todos where user_id=?;")
    )
}

#[test]
fn mod_test3() {
    assert_eq!(
        parse_query("INSERT INTO todos VALUES (${title}, ${isCompleted}, ${.userId});"),
        Ok(names(&["title", "isCompleted", ".userId"]))
    )
}

#[test]
fn mod_test4() {
    let query = "INSERT INTO todos VALUES (${title}, ${isCompleted}, ${.userId});";
    let parmas = parse_query(query).unwrap();

    assert_eq!(
        replace_variables_in_query(query, parmas),
        String::from("INSERT INTO todos VALUES (?, ?, ?);")
    )
}

#[test]
fn test_replace_variables_with_values() {
    let out = "
        {  \"header\": {   \"test\": ${.USER_EMAIL},   \"res\": ${res.0.name}  },  \"body\": {   \"fname\": \"bhavin\",   \"lname\": \"sojitra\",   \"id\": ${.USER_ID},   \"role\": ${.USER_ROLE}  },  \"query\": {   \"ok\": \"there\",   \"roleId\": ${roleId}  } }
    ";

    let mut values = ValueMap::new();
    let d1 = vec![(
        "name".to_string(),
        ColType::String(Some("bhavin sojitra".to_string())),
    )];
    let a1 = vec![ColType::Object(Some(d1))];

    values.insert("res".to_string(), Some(ColType::Array(Some(a1))));
    values.insert("roleId".to_string(), Some(ColType::Integer(Some(1))));

    let res = replace_variables_with_values(out, &values);

    assert!(res.contains("\"res\": \"bhavin sojitra\""));
    assert!(res.contains("\"roleId\": 1 "));
    assert!(res.contains("\"test\": ,"));
    assert!(res.contains("\"id\": ,"));
    assert!(!res.contains("${"));
}

#[test]
fn simple_query_compiles() {
    let (params, sql) = compile("SELECT * FROM todos WHERE user_id=${userId};").unwrap();
    assert_eq!(params, names(&["userId"]));
    assert_eq!(sql, "SELECT * FROM todos WHERE user_id=?;");
}

#[test]
fn round_trip_counts_placeholders() {
    let (params, sql) = compile("UPDATE t SET a=${a}, b=${b}, c=${a} WHERE id=${.USER_ID}").unwrap();
    assert_eq!(params, names(&["a", "b", "a", ".USER_ID"]));
    assert_eq!(sql.matches('?').count(), 4);
    assert_eq!(sql, "UPDATE t SET a=?, b=?, c=? WHERE id=?");
    let (none, same) = compile("SELECT 1").unwrap();
    assert!(none.is_empty());
    assert_eq!(same, "SELECT 1");
}

#[test]
fn compile_is_idempotent() {
    let (_, once) = compile("INSERT INTO t VALUES (${title}, ${.userId})").unwrap();
    let (params, twice) = compile(&once).unwrap();
    assert!(params.is_empty());
    assert_eq!(once, twice);
}

#[test]
fn malformed_placeholders_are_errors() {
    assert_eq!(
        compile("SELECT ${abc"),
        Err(TemplateError::MalformedPlaceholder(7))
    );
    assert_eq!(
        compile("SELECT ${1} FROM t"),
        Err(TemplateError::MalformedPlaceholder(7))
    );
    assert_eq!(
        parse_query("a ${x y}"),
        Err(TemplateError::MalformedPlaceholder(2))
    );
}

#[test]
fn replace_keeps_unlisted_placeholders() {
    let out = replace_variables_in_query("${a} ${b} ${a}", names(&["a"]));
    assert_eq!(out, "? ${b} ?");
}

#[test]
fn path_resolution_reaches_nested_values() {
    let mut values = ValueMap::new();
    let row = vec![("name".to_string(), ColType::String(Some("ada".to_string())))];
    values.insert(
        "res".to_string(),
        Some(ColType::Array(Some(vec![ColType::Object(Some(row))]))),
    );
    match resolve_path(&values, "res.0.name") {
        Some(ColType::String(Some(s))) => assert_eq!(s, "ada"),
        other => panic!("unexpected {:?}", other),
    }
    assert!(resolve_path(&values, "res.1.name").is_none());
    assert!(resolve_path(&values, "res.x").is_none());
    assert!(resolve_path(&values, "missing").is_none());
    assert_eq!(
        replace_variables_with_values("{\"n\": ${res.0.name}, \"m\": ${res.1.name}}", &values),
        "{\"n\": \"ada\", \"m\": }"
    );
}

#[test]
fn rendering_writes_each_cell_kind() {
    let mut values = ValueMap::new();
    values.insert("i".to_string(), Some(ColType::Integer(Some(-42))));
    values.insert("u".to_string(), Some(ColType::UnsignedInteger(Some(18446744073709551615))));
    values.insert("b".to_string(), Some(ColType::Bool(Some(false))));
    values.insert("r".to_string(), Some(ColType::Real(Some("1.5".to_string()))));
    values.insert("n".to_string(), Some(ColType::String(None)));
    values.insert(".USER_ID".to_string(), Some(ColType::Integer(Some(7))));
    let out = replace_variables_with_values("${i} ${u} ${b} ${r} ${n} ${.USER_ID}", &values);
    assert_eq!(out, "-42 18446744073709551615 false 1.5 null 7");
}

#[test]
fn sniffer_classifies_whole_values() {
    assert_eq!(parse_type("trueish"), "string");
    assert_eq!(parse_type(".5"), "string");
    assert_eq!(parse_type("12ab"), "string");
    assert_eq!(parse_type("1.2.3"), "string");
    assert_eq!(parse_type("-5"), "number");
    assert_eq!(parse_type("1e3"), "number");
    assert_eq!(parse_type(""), "null");
    assert_eq!(parse_type(" x"), "string");
}

#[test]
fn extracted_values_follow_the_sniffer() {
    assert!(matches!(extract_type_from_string("true"), JsonValue::Bool(true)));
    assert!(matches!(extract_type_from_string("false"), JsonValue::Bool(false)));
    assert!(matches!(extract_type_from_string("trueish"), JsonValue::String(t) if t == "trueish"));
    assert!(matches!(extract_type_from_string("1.50"), JsonValue::Number(t) if t == "1.5"));
    assert!(matches!(extract_type_from_string("12"), JsonValue::Number(t) if t == "12"));
    assert!(matches!(extract_type_from_string("12abc"), JsonValue::String(t) if t == "12abc"));
    assert!(matches!(extract_type_from_string(""), JsonValue::Null));
    assert!(matches!(extract_type_from_string("Hello"), JsonValue::String(t) if t == "Hello"));
}

#[test]
fn query_payload_builds_an_object() {
    let pairs = vec![
        ("id".to_string(), "3".to_string()),
        ("name".to_string(), "ada".to_string()),
        ("code".to_string(), "3x".to_string()),
    ];
    match query_payload(&pairs) {
        JsonValue::Object(es) => {
            assert_eq!(es.len(), 3);
            assert_eq!(es[0].0, "id");
            assert!(matches!(&es[0].1, JsonValue::Number(t) if t == "3"));
            assert!(matches!(&es[1].1, JsonValue::String(t) if t == "ada"));
            assert!(matches!(&es[2].1, JsonValue::String(t) if t == "3x"));
        }
        other => panic!("unexpected {:?}", other),
    }
}
