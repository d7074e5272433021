//! What the authentication and storage endpoints read from and write to
//! their callers, and how a sign-up or login body is read.

use vstd::prelude::*;
use crate::binding::{json_get, json_member};
use crate::value::JsonValue;

verus! {

#[derive(Debug, Clone)]
pub struct AuthUser {
    pub id: i64,
    pub email: String,
    pub password: String,
    pub role: String,
}

#[derive(Debug, Clone)]
pub struct RegisterUserSchema {
    pub email: String,
    pub password: String,
}

#[derive(Debug, Clone)]
pub struct LoginUserSchema {
    pub email: String,
    pub password: String,
}

/// What a successful login answers with.
#[derive(Debug, Clone)]
pub struct ResponseUser {
    pub id: i64,
    pub email: String,
    pub token: String,
    pub role: Option<String>,
}

/// A stored file as the storage endpoints list it.
#[derive(Debug, Clone)]
pub struct Storage {
    pub id: i64,
    pub filename: String,
    pub uniquename: String,
}

#[derive(Debug, Clone, Copy)]
pub struct DeleteFileSchema {
    pub id: i64,
}

#[derive(Debug, Clone, Copy)]
pub struct GetFileSchema {
    pub id: i64,
}

/// The email and password of a sign-up or login body: both members must be
/// present and be strings.
pub open spec fn credentials_spec(body: JsonValue) -> Option<(Seq<char>, Seq<char>)> {
    match (json_get(body, "email"@), json_get(body, "password"@)) {
        (Some(JsonValue::String(e)), Some(JsonValue::String(p))) => Some((e@, p@)),
        _ => None,
    }
}

/// Reads the email and password of a sign-up or login body; nothing where
/// either is missing or is not a string ("Insufficient parameters").
pub fn credentials(body: &JsonValue) -> (r: Option<LoginUserSchema>)
    ensures
        match credentials_spec(*body) {
            Some(c) => r matches Some(s) && s.email@ == c.0 && s.password@ == c.1,
            None => r is None,
        },
{
    let email = json_member(body, "email");
    let password = json_member(body, "password");
    match (email, password) {
        (Some(JsonValue::String(e)), Some(JsonValue::String(p))) => Some(
            LoginUserSchema { email: e.clone(), password: p.clone() },
        ),
        _ => None,
    }
}

} // verus!
