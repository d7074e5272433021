//! The decisions of one API request, stage by stage: match the query
//! definition, check the caller's role, compile and bind the template, decide
//! how it runs, and judge each webhook's outcome. The caller performs the I/O
//! between the stages.

use vstd::prelude::*;
use crate::binding::{bound_cell, lemma_bound_kind, resolvable, resolve_args, BindError};
use crate::model::{RoleAccess, User, Webhook};
use crate::template::{compile, compile_spec, views, TemplateError};
use crate::text::str_eq;
use crate::value::{bindable, check_bindable, CellError, ColType, DbType, Dispatch, JsonValue};

verus! {

/// The HTTP verbs a query definition can be served under.
#[derive(Debug, Clone, Copy, PartialEq, Eq, Structural)]
pub enum HttpMethod {
    Get,
    Post,
    Put,
    Delete,
}

/// The verb a stored `exec_type` names, if any.
pub open spec fn verb_spec(exec_type: Seq<char>) -> Option<HttpMethod> {
    if exec_type == "get"@ {
        Some(HttpMethod::Get)
    } else if exec_type == "post"@ {
        Some(HttpMethod::Post)
    } else if exec_type == "put"@ {
        Some(HttpMethod::Put)
    } else if exec_type == "delete"@ {
        Some(HttpMethod::Delete)
    } else {
        None
    }
}

/// The verb a stored `exec_type` names, if any.
pub fn verb_of(exec_type: &str) -> (r: Option<HttpMethod>)
    ensures
        r == verb_spec(exec_type@),
{
    if str_eq(exec_type, "get") {
        Some(HttpMethod::Get)
    } else if str_eq(exec_type, "post") {
        Some(HttpMethod::Post)
    } else if str_eq(exec_type, "put") {
        Some(HttpMethod::Put)
    } else if str_eq(exec_type, "delete") {
        Some(HttpMethod::Delete)
    } else {
        None
    }
}

/// Whether a request with `method` may reach a query stored with `exec_type`.
pub fn method_allowed(exec_type: &str, method: HttpMethod) -> (r: bool)
    ensures
        r == (verb_spec(exec_type@) == Some(method)),
{
    match verb_of(exec_type) {
        Some(m) => m == method,
        None => false,
    }
}

pub fn dispatch_of(method: HttpMethod) -> (r: Dispatch)
    ensures
        r == (if method == HttpMethod::Get { Dispatch::QueryAll } else { Dispatch::Execute }),
{
    match method {
        HttpMethod::Get => Dispatch::QueryAll,
        _ => Dispatch::Execute,
    }
}

/// The outcome of the role check.
#[derive(Debug, Clone, Copy, PartialEq, Eq, Structural)]
pub enum Access {
    /// The whitelist is empty: anyone may call, and no identity is passed on.
    Public,
    /// The caller's role is on the whitelist.
    Granted,
    /// No caller, a caller without a role, or a role not on the whitelist.
    Denied,
}

pub open spec fn role_listed(list: Seq<RoleAccess>, role: i64) -> bool {
    exists|k: int| 0 <= k < list.len() && (#[trigger] list[k]).role_id == role
}

pub open spec fn access_spec(list: Seq<RoleAccess>, caller_role: Option<Option<i64>>) -> Access {
    if list.len() == 0 {
        Access::Public
    } else {
        match caller_role {
            Some(Some(r)) => if role_listed(list, r) { Access::Granted } else { Access::Denied },
            _ => Access::Denied,
        }
    }
}

/// Checks a caller against a query's role whitelist. `caller_role` is `None`
/// when no valid identity came with the request, and `Some(None)` for a
/// caller whose role could not be resolved.
pub fn authorize(role_access: &Vec<RoleAccess>, caller_role: Option<Option<i64>>) -> (r: Access)
    ensures
        r == access_spec(role_access@, caller_role),
{
    if role_access.len() == 0 {
        return Access::Public;
    }
    match caller_role {
        Some(Some(role)) => {
            let mut k: usize = 0;
            while k < role_access.len()
                invariant
                    k <= role_access@.len(),
                    role_access@.len() > 0,
                    caller_role == Some(Some(role)),
                    forall|m: int| 0 <= m < k ==> (#[trigger] role_access@[m]).role_id != role,
                decreases role_access@.len() - k,
            {
                if role_access[k].role_id == role {
                    assert(role_listed(role_access@, role) && role_access@[k as int].role_id == role);
                    return Access::Granted;
                }
                k = k + 1;
            }
            Access::Denied
        },
        _ => Access::Denied,
    }
}

/// Why a request failed.
#[derive(Debug, PartialEq, Eq, Structural)]
pub enum Fault {
    /// The database could not be reached.
    Connectivity,
    /// The stored template is malformed.
    Compile(TemplateError),
    /// A parameter resolved to nothing.
    Bind(BindError),
    /// An argument cannot be bound to a statement.
    BindType(CellError),
    /// The driver refused the statement.
    Execution,
    /// No caller, or a caller whose role may not call the query.
    Auth,
    /// No query of that name and verb, or no row.
    NotFound,
    /// A webhook whose outcome counts failed with this status.
    Webhook(u16),
}

pub open spec fn status_spec(f: Fault) -> u16 {
    match f {
        Fault::Connectivity => 500,
        Fault::Compile(_) => 400,
        Fault::Bind(_) => 400,
        Fault::BindType(_) => 400,
        Fault::Execution => 400,
        Fault::Auth => 401,
        Fault::NotFound => 404,
        Fault::Webhook(s) => s,
    }
}

/// The HTTP status a fault is answered with.
pub fn fault_status(f: &Fault) -> (r: u16)
    ensures
        r == status_spec(*f),
{
    match f {
        Fault::Connectivity => 500,
        Fault::Compile(_) => 400,
        Fault::Bind(_) => 400,
        Fault::BindType(_) => 400,
        Fault::Execution => 400,
        Fault::Auth => 401,
        Fault::NotFound => 404,
        Fault::Webhook(s) => *s,
    }
}

/// A statement ready to run: the compiled SQL, the template's parameter names
/// and the cells bound to them, in order.
#[derive(Debug)]
pub struct Prepared {
    pub sql: String,
    pub params: Vec<String>,
    pub args: Vec<ColType>,
}

/// Compiles a query's template and binds its parameters for a request whose
/// statement runs as `dispatch`. Fails on a malformed template, then on the
/// first parameter that resolves to nothing, then on the first parameter whose
/// cell the engine cannot bind; nothing is bound unless every cell can be.
/// Where the template compiles and every parameter resolves to a bindable
/// cell, it succeeds.
pub fn prepare(
    db: DbType,
    dispatch: Dispatch,
    template: &str,
    user: &Option<User>,
    data: &JsonValue,
) -> (r: Result<Prepared, Fault>)
    ensures
        compile_spec(template@) matches Err(p) ==> r == Err::<Prepared, Fault>(
            Fault::Compile(TemplateError::MalformedPlaceholder(p as usize)),
        ),
        compile_spec(template@) matches Ok(c) ==> match r {
            Ok(pr) => {
                &&& pr.sql@ == c.1
                &&& views(pr.params@) == c.0
                &&& pr.args@.len() == pr.params@.len()
                &&& forall|i: int|
                    0 <= i < pr.params@.len() ==> bound_cell(
                        (#[trigger] pr.params@[i])@,
                        *user,
                        *data,
                        pr.args@[i],
                    ) && bindable(db, dispatch, pr.args@[i].spec_kind())
            },
            Err(Fault::Bind(BindError::MissingParameter(i))) => {
                &&& i < c.0.len()
                &&& !resolvable(c.0[i as int], *user, *data)
                &&& forall|j: int| 0 <= j < i ==> resolvable(#[trigger] c.0[j], *user, *data)
            },
            Err(Fault::BindType(CellError::UnsupportedBindType(i))) => {
                &&& i < c.0.len()
                &&& forall|j: int| 0 <= j < c.0.len() ==> resolvable(#[trigger] c.0[j], *user, *data)
                &&& forall|x: ColType|
                    #[trigger] bound_cell(c.0[i as int], *user, *data, x) ==> !bindable(
                        db,
                        dispatch,
                        x.spec_kind(),
                    )
            },
            _ => false,
        },
        compile_spec(template@) matches Ok(c) && (forall|j: int|
            0 <= j < c.0.len() ==> resolvable(#[trigger] c.0[j], *user, *data)) && (forall|
            j: int,
            x: ColType,
        |
            0 <= j < c.0.len() && #[trigger] bound_cell(c.0[j], *user, *data, x) ==> bindable(
                db,
                dispatch,
                x.spec_kind(),
            )) ==> r is Ok,
{
    let (params, sql) = match compile(template) {
        Ok(c) => c,
        Err(e) => return Err(Fault::Compile(e)),
    };
    let args = match resolve_args(&params, user, data) {
        Ok(a) => a,
        Err(e) => {
            proof {
                if let BindError::MissingParameter(i) = e {
                    assert(views(params@)[i as int] == params@[i as int]@);
                    assert forall|j: int| 0 <= j < i implies resolvable(
                        #[trigger] views(params@)[j],
                        *user,
                        *data,
                    ) by {
                        assert(views(params@)[j] == params@[j]@);
                    }
                }
            }
            return Err(Fault::Bind(e));
        },
    };
    match check_bindable(db, dispatch, &args) {
        Ok(()) => {},
        Err(e) => {
            proof {
                if let CellError::UnsupportedBindType(i) = e {
                    let name = views(params@)[i as int];
                    assert(name == params@[i as int]@);
                    assert(bound_cell(name, *user, *data, args@[i as int]));
                    assert forall|x: ColType| #[trigger] bound_cell(name, *user, *data, x) implies !bindable(
                        db,
                        dispatch,
                        x.spec_kind(),
                    ) by {
                        lemma_bound_kind(name, *user, *data, args@[i as int], x);
                    }
                    assert forall|j: int| 0 <= j < views(params@).len() implies resolvable(
                        #[trigger] views(params@)[j],
                        *user,
                        *data,
                    ) by {
                        assert(views(params@)[j] == params@[j]@);
                    }
                }
            }
            return Err(Fault::BindType(e));
        },
    }
    Ok(Prepared { sql, params, args })
}

/// Whether a webhook runs in this phase (`before` or `after`).
pub fn webhook_applies(w: &Webhook, phase: &str) -> (r: bool)
    ensures
        r == (w.action@ == phase@),
{
    str_eq(w.action.as_str(), phase)
}

/// The verb a webhook is called with; a webhook with an unknown verb stops the
/// request.
pub fn webhook_method(w: &Webhook) -> (r: Result<HttpMethod, Fault>)
    ensures
        match verb_spec(w.exec_type@) {
            Some(m) => r == Ok::<HttpMethod, Fault>(m),
            None => r == Err::<HttpMethod, Fault>(Fault::Webhook(400)),
        },
{
    match verb_of(w.exec_type.as_str()) {
        Some(m) => Ok(m),
        None => Err(Fault::Webhook(400)),
    }
}

/// Judges a webhook call: `status` is the response status, or `None` when no
/// response came. Only a webhook whose outcome counts can fail the request,
/// and it does on a missing response or a status outside 200..=299.
pub fn webhook_outcome(is_returned: bool, status: Option<u16>) -> (r: Result<(), Fault>)
    ensures
        !is_returned ==> r is Ok,
        is_returned ==> match status {
            None => r == Err::<(), Fault>(Fault::Webhook(400)),
            Some(s) => if 200 <= s <= 299 {
                r is Ok
            } else {
                r == Err::<(), Fault>(Fault::Webhook(s))
            },
        },
{
    if !is_returned {
        return Ok(());
    }
    match status {
        None => Err(Fault::Webhook(400)),
        Some(s) => if 200 <= s && s <= 299 {
            Ok(())
        } else {
            Err(Fault::Webhook(s))
        },
    }
}

/// The `res` value the after-phase webhooks see: the decoded rows, each as an
/// object of its columns.
pub fn rows_value(rows: Vec<Vec<(String, ColType)>>) -> (r: ColType)
    ensures
        r matches ColType::Array(Some(v)) && v@.len() == rows@.len() && forall|i: int|
            0 <= i < rows@.len() ==> v@[i] == ColType::Object(Some(#[trigger] rows@[i])),
{
    let mut out: Vec<ColType> = Vec::new();
    let mut rows = rows;
    let ghost all = rows@;
    while rows.len() > 0
        invariant
            out@.len() <= all.len(),
            rows@ == all.subrange(out@.len() as int, all.len() as int),
            forall|i: int| 0 <= i < out@.len() ==> out@[i] == ColType::Object(Some(#[trigger] all[i])),
        decreases rows@.len(),
    {
        let row = rows.remove(0);
        out.push(ColType::Object(Some(row)));
    }
    ColType::Array(Some(out))
}

} // verus!
