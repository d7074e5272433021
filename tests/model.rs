use sqlapi::access_diff::remaining_ids;
use sqlapi::api_model::credentials;
use sqlapi::editor::{get_coordinates, get_current_word, replace_current_word};
use sqlapi::routing::{query_name_of, route_path};
use sqlapi::storage::{file_url, generated_file_name, storage_access, StorageOp};
use sqlapi::token::{hash_password, password_matches, TokenFile, Utils};
use sqlapi::model::{User, UserStorage};
use sqlapi::value::{
    cell_of_json, check_bindable, column_kind, decode, CellError, CellKind, ColType, Conn, DbType, Dispatch,
    JsonValue, RawValue,
};

#[test]
fn query_test1() {
    let arr1 = vec![1, 2];
    let arr2 = vec![1, 3];

    let (insertable, deletable) = remaining_ids(arr1, arr2);

    assert_eq!(insertable, vec![3]);
    assert_eq!(deletable, vec![2]);
}

#[test]
fn remaining_ids_with_empty_sides() {
    assert_eq!(remaining_ids(vec![], vec![4, 5]), (vec![4, 5], vec![]));
    assert_eq!(remaining_ids(vec![4, 5], vec![]), (vec![], vec![4, 5]));
    assert_eq!(remaining_ids(vec![1, 4, 6], vec![2, 4, 7]), (vec![2, 7], vec![1, 6]));
}

#[test]
fn editor_test1() {
    let text = "se";
    let cursor = 2;
    let res = get_current_word(text, cursor);
    assert_eq!(res, Some("se".to_string()));
}

#[test]
fn editor_test2() {
    let text = "SELECT * fr";
    let cursor = 11;
    let res = get_current_word(text, cursor);
    assert_eq!(res, Some("fr".to_string()));
}

#[test]
fn editor_test3() {
    let text = "SELECT * from test";
    let cursor = 10;
    let res = get_current_word(text, cursor);
    assert_eq!(res, Some("f".to_string()));
}

#[test]
fn no_word_after_a_space() {
    assert_eq!(get_current_word("SELECT ", 7), None);
    assert_eq!(get_current_word("", 0), None);
    assert_eq!(get_current_word("ab\n", 3), Some("ab".to_string()));
}

#[test]
fn replacing_the_current_word() {
    assert_eq!(replace_current_word("SELECT * fr", 11, "FROM"), "SELECT * FROM");
    assert_eq!(replace_current_word("SELECT * fr x", 10, "FROM"), "SELECT * FROM x");
    assert_eq!(replace_current_word("se", 2, "SELECT"), "SELECT");
}

#[test]
fn coordinates_count_lines_and_columns() {
    assert_eq!(get_coordinates("ab\ncd", 4), (1, 1));
    assert_eq!(get_coordinates("ab\ncd", 2), (2, 0));
    assert_eq!(get_coordinates("ab", 10), (2, 0));
}

#[test]
fn decoding_follows_the_column_type() {
    assert_eq!(decode(DbType::Sqlite, "INTEGER", RawValue::Int(5)), Ok(ColType::Integer(Some(5))));
    assert_eq!(decode(DbType::Sqlite, "INTEGER", RawValue::Null), Ok(ColType::Integer(None)));
    assert_eq!(decode(DbType::Sqlite, "TEXT", RawValue::Null), Ok(ColType::String(None)));
    assert_eq!(
        decode(DbType::Mysql, "BIGINT UNSIGNED", RawValue::UInt(9)),
        Ok(ColType::UnsignedInteger(Some(9)))
    );
    assert_eq!(
        decode(DbType::Mysql, "JSON", RawValue::Text("{}".to_string())),
        Ok(ColType::Json(Some("{}".to_string())))
    );
    assert_eq!(
        decode(DbType::Sqlite, "DATE", RawValue::Text("2024-01-02".to_string())),
        Ok(ColType::Date(Some("2024-01-02".to_string())))
    );
    assert_eq!(
        decode(DbType::Sqlite, "BLOB", RawValue::Null),
        Err(CellError::UnsupportedColumnType)
    );
    assert_eq!(
        decode(DbType::Mysql, "DATE", RawValue::Null),
        Err(CellError::UnsupportedColumnType)
    );
    assert_eq!(
        decode(DbType::Sqlite, "INTEGER", RawValue::Text("5".to_string())),
        Err(CellError::ValueMismatch)
    );
    assert_eq!(column_kind(DbType::Mysql, "TIMESTAMP"), Ok(CellKind::UnsignedInteger));
    assert_eq!(column_kind(DbType::Sqlite, "NUMERIC"), Ok(CellKind::Real));
}

#[test]
fn binding_checks_every_argument_first() {
    let args = vec![ColType::Integer(Some(1)), ColType::UnsignedInteger(Some(2)), ColType::Json(None)];
    assert_eq!(check_bindable(DbType::Mysql, Dispatch::Execute, &args), Ok(()));
    assert_eq!(
        check_bindable(DbType::Mysql, Dispatch::QueryAll, &args),
        Err(CellError::UnsupportedBindType(2))
    );
    assert_eq!(
        check_bindable(DbType::Sqlite, Dispatch::Execute, &args),
        Err(CellError::UnsupportedBindType(1))
    );
    let dated = vec![ColType::Date(Some("2024-01-02".to_string()))];
    assert_eq!(check_bindable(DbType::Mysql, Dispatch::QueryAll, &dated), Ok(()));
    assert_eq!(
        check_bindable(DbType::Mysql, Dispatch::Execute, &dated),
        Err(CellError::UnsupportedBindType(0))
    );
    assert_eq!(check_bindable(DbType::Sqlite, Dispatch::Execute, &dated), Ok(()));
    assert_eq!(
        check_bindable(DbType::Mysql, Dispatch::Execute, &vec![ColType::Object(None)]),
        Err(CellError::UnsupportedBindType(0))
    );
}

#[test]
fn json_values_become_cells() {
    let v = JsonValue::Object(vec![
        ("a".to_string(), JsonValue::Null),
        ("b".to_string(), JsonValue::Array(vec![JsonValue::Number("2".to_string())])),
    ]);
    assert_eq!(
        cell_of_json(&v),
        ColType::Object(Some(vec![
            ("a".to_string(), ColType::Bool(None)),
            ("b".to_string(), ColType::Array(Some(vec![ColType::Real(Some("2".to_string()))]))),
        ]))
    );
    assert_eq!(
        ColType::get_col_type_from_value(JsonValue::String("s".to_string())),
        ColType::String(Some("s".to_string()))
    );
}

#[test]
fn faulted_connection_fails_fast() {
    assert_eq!(Conn::new(DbType::Mysql, None).ready(), Ok(DbType::Mysql));
    assert_eq!(
        Conn::new(DbType::Sqlite, Some("unreachable".to_string())).ready(),
        Err("unreachable".to_string())
    );
    assert_eq!(DbType::default(), DbType::Sqlite);
    assert_eq!(DbType::Mysql.label(), "MYSQL");
}

#[test]
fn routes_encode_slashes() {
    assert_eq!(route_path("/api/todos/all"), "/api/todos_all");
    assert_eq!(route_path("/health"), "/health");
    assert_eq!(query_name_of("todos_all"), "todos/all");
}

#[test]
fn storage_permissions() {
    let u = UserStorage { id: 4, role_id: Some(1), can_read: true, can_write: false, can_delete: true };
    assert_eq!(storage_access(&Some(u), StorageOp::Token).unwrap(), 4);
    let refused = storage_access(&Some(u), StorageOp::Upload).unwrap_err();
    assert_eq!(refused.status, 401);
    assert_eq!(refused.message, "Unauthorized to upload file");
    assert_eq!(storage_access(&None, StorageOp::Delete).unwrap_err().message, "please login first");
}

#[test]
fn stored_file_names_keep_the_extension() {
    assert_eq!(generated_file_name("abc", "photo.v2.png"), "abc.png");
    assert_eq!(generated_file_name("abc", "README"), "abc.README");
    assert_eq!(file_url("t0k"), "http://localhost:3456/storage/get?token=t0k");
}

#[test]
fn password_hashes_are_sha256_hex() {
    let h = hash_password("password".to_string());
    assert_eq!(h, "5e884898da28047151d0e56f8dc6292773603d0d6aabbdd62a11ef721d1542d8");
    assert!(password_matches("password".to_string(), &h));
    assert!(!password_matches("Password".to_string(), &h));
}

#[test]
fn token_claims_expire_later() {
    let utils = Utils { auth_secret: "a".to_string(), storage_secret: "b".to_string() };
    let user = User { id: 3, email: "e@x".to_string(), password: "p".to_string(), role: None };
    let c = utils.auth_claims(&user, 1000).unwrap();
    assert_eq!((c.iat, c.exp, c.user.id), (1000, 87400, 3));
    assert!(utils.auth_claims(&user, usize::MAX).is_none());
    let f = TokenFile { unique_name: "u.png".to_string() };
    let s = utils.storage_claims(f.clone(), 1000, 60).unwrap();
    assert_eq!((s.iat, s.exp), (1000, 1060));
    assert!(utils.storage_claims(f, 10, -20).is_none());
}

#[test]
fn credentials_need_two_strings() {
    let body = JsonValue::Object(vec![
        ("email".to_string(), JsonValue::String("e@x".to_string())),
        ("password".to_string(), JsonValue::String("p".to_string())),
    ]);
    let c = credentials(&body).unwrap();
    assert_eq!((c.email.as_str(), c.password.as_str()), ("e@x", "p"));
    let partial = JsonValue::Object(vec![("email".to_string(), JsonValue::String("e@x".to_string()))]);
    assert!(credentials(&partial).is_none());
}
