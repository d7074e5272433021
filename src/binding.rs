//! Turning the parameter names of a compiled template into typed cells: the
//! reserved identity claims come from the authenticated caller alone, every
//! other name from the request payload.

use vstd::prelude::*;
use crate::model::User;
use crate::text::{chars_of, str_eq};
use crate::value::{cell_of_json, json_cell, ColType, JsonValue};

verus! {

/// The three identity claims a template may name.
#[derive(Debug, Clone, Copy, PartialEq, Eq, Structural)]
pub enum Claim {
    UserId,
    UserEmail,
    UserRole,
}

/// A parameter that resolves to nothing.
#[derive(Debug, PartialEq, Eq, Structural)]
pub enum BindError {
    /// The position of the parameter in the template's list.
    MissingParameter(usize),
}

/// The index of the first entry with key `key`, looking from `i` on.
pub open spec fn first_key_from<V>(es: Seq<(String, V)>, key: Seq<char>, i: int) -> Option<int>
    decreases es.len() - i,
{
    if i < 0 || i >= es.len() {
        None
    } else if es[i].0@ == key {
        Some(i)
    } else {
        first_key_from(es, key, i + 1)
    }
}

pub proof fn lemma_first_key_from<V>(es: Seq<(String, V)>, key: Seq<char>, i: int)
    requires
        0 <= i,
    ensures
        first_key_from(es, key, i) matches Some(j) ==> i <= j < es.len() && es[j].0@ == key,
        first_key_from(es, key, i) is None ==> forall|j: int| i <= j < es.len() ==> (#[trigger] es[j]).0@ != key,
    decreases es.len() - i,
{
    if i < es.len() && es[i].0@ != key {
        lemma_first_key_from(es, key, i + 1);
    }
}

pub open spec fn first_key<V>(es: Seq<(String, V)>, key: Seq<char>) -> Option<int> {
    first_key_from(es, key, 0)
}

/// The member `key` of a JSON object; nothing for any other value.
pub open spec fn json_get(data: JsonValue, key: Seq<char>) -> Option<JsonValue> {
    match data {
        JsonValue::Object(es) => match first_key(es@, key) {
            Some(i) => Some(es@[i].1),
            None => None,
        },
        _ => None,
    }
}

/// A name that starts with `.` is reserved for identity claims.
pub open spec fn is_reserved(p: Seq<char>) -> bool {
    p.len() > 0 && p[0] == '.'
}

/// `s` without its underscores.
pub open spec fn strip_underscores(s: Seq<char>) -> Seq<char>
    decreases s.len(),
{
    if s.len() == 0 {
        s
    } else if s.last() == '_' {
        strip_underscores(s.drop_last())
    } else {
        strip_underscores(s.drop_last()).push(s.last())
    }
}

/// `a` is `up` with any of its letters written as in `low`.
pub open spec fn same_ignoring_case(a: Seq<char>, up: Seq<char>, low: Seq<char>) -> bool {
    a.len() == up.len() && a.len() == low.len() && forall|k: int|
        0 <= k < a.len() ==> a[k] == up[k] || a[k] == low[k]
}

/// The claim a reserved name stands for: `.USER_ID`, `.USER_EMAIL` and
/// `.USER_ROLE`, in any case and with any underscores.
pub open spec fn claim_spec(p: Seq<char>) -> Option<Claim> {
    let t = strip_underscores(p);
    if same_ignoring_case(t, ".USERID"@, ".userid"@) {
        Some(Claim::UserId)
    } else if same_ignoring_case(t, ".USEREMAIL"@, ".useremail"@) {
        Some(Claim::UserEmail)
    } else if same_ignoring_case(t, ".USERROLE"@, ".userrole"@) {
        Some(Claim::UserRole)
    } else {
        None
    }
}

/// The cell a claim gives for a caller.
pub open spec fn claim_cell(c: Claim, u: User) -> ColType {
    match c {
        Claim::UserId => ColType::Integer(Some(u.id)),
        Claim::UserEmail => ColType::String(Some(u.email)),
        Claim::UserRole => ColType::String(u.role),
    }
}

/// Whether parameter `p` resolves: a reserved name to a claim of a present
/// caller, any other name to a member of the payload.
pub open spec fn resolvable(p: Seq<char>, user: Option<User>, data: JsonValue) -> bool {
    if is_reserved(p) {
        user is Some && claim_spec(p) is Some
    } else {
        json_get(data, p) is Some
    }
}

/// `c` is the cell that parameter `p` binds to.
pub open spec fn bound_cell(p: Seq<char>, user: Option<User>, data: JsonValue, c: ColType) -> bool {
    if is_reserved(p) {
        user matches Some(u) && claim_spec(p) matches Some(cl) && c == claim_cell(cl, u)
    } else {
        json_get(data, p) matches Some(v) && json_cell(v, c)
    }
}

fn strip_chars(s: &Vec<char>) -> (r: Vec<char>)
    ensures
        r@ == strip_underscores(s@),
{
    let mut r: Vec<char> = Vec::new();
    let mut i: usize = 0;
    while i < s.len()
        invariant
            i <= s@.len(),
            r@ == strip_underscores(s@.subrange(0, i as int)),
        decreases s@.len() - i,
    {
        assert(s@.subrange(0, i + 1).drop_last() == s@.subrange(0, i as int));
        if s[i] != '_' {
            r.push(s[i]);
        }
        i = i + 1;
    }
    assert(s@.subrange(0, s@.len() as int) == s@);
    r
}

fn case_eq(a: &Vec<char>, up: &str, low: &str) -> (r: bool)
    ensures
        r == same_ignoring_case(a@, up@, low@),
{
    let n = a.len();
    if n != up.unicode_len() || n != low.unicode_len() {
        return false;
    }
    let mut k: usize = 0;
    while k < n
        invariant
            n == a@.len() == up@.len() == low@.len(),
            k <= n,
            forall|m: int| 0 <= m < k ==> a@[m] == up@[m] || a@[m] == low@[m],
        decreases n - k,
    {
        if a[k] != up.get_char(k) && a[k] != low.get_char(k) {
            return false;
        }
        k = k + 1;
    }
    true
}

/// The claim a name stands for, if any.
pub fn claim_of(p: &str) -> (r: Option<Claim>)
    ensures
        r == claim_spec(p@),
{
    let t = strip_chars(&chars_of(p));
    if case_eq(&t, ".USERID", ".userid") {
        Some(Claim::UserId)
    } else if case_eq(&t, ".USEREMAIL", ".useremail") {
        Some(Claim::UserEmail)
    } else if case_eq(&t, ".USERROLE", ".userrole") {
        Some(Claim::UserRole)
    } else {
        None
    }
}

/// The cell a claim gives for a caller.
pub fn claim_value(c: Claim, u: &User) -> (r: ColType)
    ensures
        r == claim_cell(c, *u),
{
    match c {
        Claim::UserId => ColType::Integer(Some(u.id)),
        Claim::UserEmail => ColType::String(Some(u.email.clone())),
        Claim::UserRole => ColType::String(
            match &u.role {
                Some(r) => Some(r.clone()),
                None => None,
            },
        ),
    }
}

/// The index of the first entry with key `key`.
pub fn find_key<V>(es: &Vec<(String, V)>, key: &str) -> (r: Option<usize>)
    ensures
        r matches Some(i) ==> first_key(es@, key@) == Some(i as int) && i < es@.len() && es@[i as int].0@
            == key@,
        r is None ==> first_key(es@, key@) is None,
{
    proof {
        lemma_first_key_from(es@, key@, 0);
    }
    let mut i: usize = 0;
    while i < es.len()
        invariant
            i <= es@.len(),
            first_key(es@, key@) == first_key_from(es@, key@, i as int),
        decreases es@.len() - i,
    {
        if str_eq(es[i].0.as_str(), key) {
            return Some(i);
        }
        i = i + 1;
    }
    None
}

/// The member `key` of a JSON object.
pub fn json_member<'a>(data: &'a JsonValue, key: &str) -> (r: Option<&'a JsonValue>)
    ensures
        match json_get(*data, key@) {
            Some(v) => r matches Some(x) && *x == v,
            None => r is None,
        },
{
    match data {
        JsonValue::Object(es) => match find_key(es, key) {
            Some(i) => {
                Some(&es[i].1)
            },
            None => None,
        },
        _ => None,
    }
}

fn starts_with_dot(p: &str) -> (r: bool)
    ensures
        r == is_reserved(p@),
{
    p.unicode_len() > 0 && p.get_char(0) == '.'
}

/// Resolves one parameter, or says that it resolves to nothing.
pub fn resolve_param(p: &str, user: &Option<User>, data: &JsonValue) -> (r: Option<ColType>)
    ensures
        r is Some <==> resolvable(p@, *user, *data),
        r matches Some(c) ==> bound_cell(p@, *user, *data, c),
{
    if starts_with_dot(p) {
        match user {
            Some(u) => match claim_of(p) {
                Some(c) => Some(claim_value(c, u)),
                None => None,
            },
            None => None,
        }
    } else {
        match json_member(data, p) {
            Some(v) => Some(cell_of_json(v)),
            None => None,
        }
    }
}

/// The cells to bind, one per parameter and in the parameters' order. The
/// first parameter that resolves to nothing is an error.
pub fn resolve_args(params: &Vec<String>, user: &Option<User>, data: &JsonValue) -> (r: Result<
    Vec<ColType>,
    BindError,
>)
    ensures
        r is Ok <==> forall|i: int| 0 <= i < params@.len() ==> resolvable((#[trigger] params@[i])@, *user, *data),
        r matches Ok(cells) ==> cells@.len() == params@.len() && forall|i: int|
            0 <= i < params@.len() ==> bound_cell((#[trigger] params@[i])@, *user, *data, cells@[i]),
        r matches Err(e) ==> e matches BindError::MissingParameter(i) && i < params@.len() && !resolvable(
            params@[i as int]@,
            *user,
            *data,
        ) && forall|j: int| 0 <= j < i ==> resolvable((#[trigger] params@[j])@, *user, *data),
{
    let mut cells: Vec<ColType> = Vec::new();
    let mut i: usize = 0;
    while i < params.len()
        invariant
            i <= params@.len(),
            cells@.len() == i,
            forall|j: int| 0 <= j < i ==> resolvable((#[trigger] params@[j])@, *user, *data),
            forall|j: int| 0 <= j < i ==> bound_cell((#[trigger] params@[j])@, *user, *data, cells@[j]),
        decreases params@.len() - i,
    {
        match resolve_param(params[i].as_str(), user, data) {
            Some(c) => {
                cells.push(c);
            },
            None => {
                return Err(BindError::MissingParameter(i));
            },
        }
        i = i + 1;
    }
    Ok(cells)
}

/// A reserved parameter binds to the same cell whatever the payload holds:
/// only the authenticated caller decides it.
pub proof fn lemma_identity_isolation(
    p: Seq<char>,
    user: Option<User>,
    d1: JsonValue,
    d2: JsonValue,
    c: ColType,
)
    requires
        is_reserved(p),
    ensures
        resolvable(p, user, d1) == resolvable(p, user, d2),
        bound_cell(p, user, d1, c) == bound_cell(p, user, d2, c),
        user is None ==> !resolvable(p, user, d1),
{
}

/// Every cell a parameter can bind to has the same tag.
pub proof fn lemma_bound_kind(p: Seq<char>, user: Option<User>, data: JsonValue, c1: ColType, c2: ColType)
    requires
        bound_cell(p, user, data, c1),
        bound_cell(p, user, data, c2),
    ensures
        c1.spec_kind() == c2.spec_kind(),
{
    if !is_reserved(p) {
        let v = json_get(data, p)->Some_0;
        match v {
            JsonValue::Array(_) => {
                assert(c1 is Array && c2 is Array);
            },
            JsonValue::Object(_) => {
                assert(c1 is Object && c2 is Object);
            },
            _ => {},
        }
    }
}

/// Whatever two payloads hold, a reserved parameter is bound to one and the
/// same cell under both: the caller's claim.
pub proof fn lemma_reserved_cell_determined(
    p: Seq<char>,
    user: Option<User>,
    d1: JsonValue,
    d2: JsonValue,
    c1: ColType,
    c2: ColType,
)
    requires
        is_reserved(p),
        bound_cell(p, user, d1, c1),
        bound_cell(p, user, d2, c2),
    ensures
        c1 == c2,
        user matches Some(u) && claim_spec(p) matches Some(cl) && c1 == claim_cell(cl, u),
{
}

} // verus!
