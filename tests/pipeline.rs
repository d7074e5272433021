use sqlapi::binding::{claim_of, resolve_args, BindError, Claim};
use sqlapi::model::{RoleAccess, User, Webhook};
use sqlapi::pipeline::{
    authorize, dispatch_of, fault_status, method_allowed, prepare, rows_value, webhook_applies,
    webhook_method, webhook_outcome, Access, Fault, HttpMethod,
};
use sqlapi::template::TemplateError;
use sqlapi::value::{CellError, ColType, DbType, Dispatch, JsonValue};
use sqlapi::values::ValueMap;
use sqlapi::values::build_values;

fn user(id: i64) -> User {
    User {
        id,
        email: "ada@example.com".to_string(),
        password: "x".to_string(),
        role: Some("admin".to_string()),
    }
}

fn object(members: Vec<(&str, JsonValue)>) -> JsonValue {
    JsonValue::Object(members.into_iter().map(|(k, v)| (k.to_string(), v)).collect())
}

#[test]
fn mixed_identity_and_client_params_bind_in_order() {
    let body = object(vec![("title", JsonValue::String("x".to_string()))]);
    let p = prepare(
        DbType::Sqlite,
        Dispatch::Execute,
        "INSERT INTO t VALUES (${title}, ${.userId})",
        &Some(user(7)),
        &body,
    )
    .unwrap();
    assert_eq!(p.sql, "INSERT INTO t VALUES (?, ?)");
    assert_eq!(p.args.len(), 2);
    assert_eq!(p.args[0], ColType::String(Some("x".to_string())));
    assert_eq!(p.args[1], ColType::Integer(Some(7)));
}

#[test]
fn client_payload_cannot_supply_identity_claims() {
    let body = object(vec![
        (".USER_ID", JsonValue::Number("99".to_string())),
        ("title", JsonValue::String("x".to_string())),
    ]);
    let params = vec![".USER_ID".to_string()];
    let cells = resolve_args(&params, &Some(user(7)), &body).unwrap();
    assert_eq!(cells[0], ColType::Integer(Some(7)));
    assert_eq!(
        resolve_args(&params, &None, &body),
        Err(BindError::MissingParameter(0))
    );
    let values = build_values(&vec![".USER_ID".to_string(), "title".to_string()], &None, &body);
    assert!(values.get(".USER_ID").is_none());
    assert!(values.get("title").is_some());
}

#[test]
fn claims_are_matched_ignoring_case_and_underscores() {
    assert_eq!(claim_of(".USER_ID"), Some(Claim::UserId));
    assert_eq!(claim_of(".userId"), Some(Claim::UserId));
    assert_eq!(claim_of(".user_email"), Some(Claim::UserEmail));
    assert_eq!(claim_of(".USER_ROLE"), Some(Claim::UserRole));
    assert_eq!(claim_of(".USER_NAME"), None);
    assert_eq!(claim_of("USER_ID"), None);
}

#[test]
fn missing_parameter_is_a_bind_fault() {
    let body = object(vec![("a", JsonValue::Bool(true))]);
    let r = prepare(DbType::Sqlite, Dispatch::QueryAll, "SELECT ${a}, ${b}", &None, &body);
    assert!(matches!(r, Err(Fault::Bind(BindError::MissingParameter(1)))));
    assert_eq!(fault_status(&r.unwrap_err()), 400);
}

#[test]
fn malformed_template_is_a_compile_fault() {
    let r = prepare(DbType::Mysql, Dispatch::QueryAll, "SELECT ${a", &None, &JsonValue::Null);
    assert!(matches!(
        r,
        Err(Fault::Compile(TemplateError::MalformedPlaceholder(7)))
    ));
}

#[test]
fn json_cells_are_refused_by_second_engine_reads() {
    let body = object(vec![("a", JsonValue::Number("1".to_string()))]);
    let ok = prepare(DbType::Mysql, Dispatch::QueryAll, "SELECT ${a}", &None, &body).unwrap();
    assert_eq!(ok.args[0], ColType::Real(Some("1".to_string())));
}

#[test]
fn structured_arguments_cannot_be_bound() {
    let body = object(vec![("a", JsonValue::Array(vec![]))]);
    let r = prepare(DbType::Sqlite, Dispatch::QueryAll, "SELECT ${a}", &None, &body);
    assert!(matches!(
        r,
        Err(Fault::BindType(CellError::UnsupportedBindType(0)))
    ));
}

#[test]
fn role_gating_denies_an_unlisted_role() {
    let list = vec![RoleAccess { role_id: 2 }, RoleAccess { role_id: 3 }];
    assert_eq!(authorize(&list, Some(Some(5))), Access::Denied);
    assert_eq!(fault_status(&Fault::Auth), 401);
    assert_eq!(authorize(&list, Some(Some(3))), Access::Granted);
    assert_eq!(authorize(&list, Some(None)), Access::Denied);
    assert_eq!(authorize(&list, None), Access::Denied);
    assert_eq!(authorize(&vec![], None), Access::Public);
}

#[test]
fn verbs_and_dispatch() {
    assert!(method_allowed("get", HttpMethod::Get));
    assert!(!method_allowed("get", HttpMethod::Post));
    assert!(!method_allowed("fetch", HttpMethod::Get));
    assert_eq!(dispatch_of(HttpMethod::Get), Dispatch::QueryAll);
    assert_eq!(dispatch_of(HttpMethod::Delete), Dispatch::Execute);
    assert_eq!(fault_status(&Fault::NotFound), 404);
}

#[test]
fn webhook_decisions() {
    let w = Webhook {
        id: 1,
        name: "notify".to_string(),
        exec_type: "post".to_string(),
        action: "after".to_string(),
        url: "http://localhost/hook".to_string(),
        args: "{}".to_string(),
        is_returned: true,
    };
    assert!(webhook_applies(&w, "after"));
    assert!(!webhook_applies(&w, "before"));
    assert_eq!(webhook_method(&w), Ok(HttpMethod::Post));
    assert_eq!(webhook_outcome(true, Some(204)), Ok(()));
    assert_eq!(webhook_outcome(true, Some(503)), Err(Fault::Webhook(503)));
    assert_eq!(webhook_outcome(true, None), Err(Fault::Webhook(400)));
    assert_eq!(webhook_outcome(false, Some(503)), Ok(()));
}

#[test]
fn result_rows_become_the_res_value() {
    let rows = vec![vec![("id".to_string(), ColType::Integer(Some(1)))]];
    let v = rows_value(rows);
    let mut values = ValueMap::new();
    values.insert("res".to_string(), Some(v));
    assert_eq!(
        sqlapi::webhook::replace_variables_with_values("${res.0.id}", &values),
        "1"
    );
}
