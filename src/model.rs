//! The stored entities: roles, users, query definitions, webhooks, migrations
//! and uploaded files, plus the administrator's working state.

use vstd::prelude::*;

verus! {

/// Paging offsets of the administrator's user and file lists.
#[derive(Debug, Clone)]
pub struct Offset {
    pub user: i64,
    pub storage: i64,
}

/// Search terms of the administrator's user and file lists.
#[derive(Debug, Clone)]
pub struct SearchTerm {
    pub user: String,
    pub storage: String,
}

/// Edits that the administrator has made and not yet saved.
#[derive(Debug, Clone)]
pub struct Temp {
    pub query_access: Vec<QueryAccess>,
    pub query_string: String,
    pub query_written: bool,
    pub query_access_update: bool,
    pub selected_role_access_id: Option<i64>,
    pub restart_required: bool,
    pub up_migration_string: String,
    pub down_migration_string: String,
    pub up_migration_written: bool,
    pub down_migration_written: bool,
    pub editor_popup_active: bool,
    pub webhook_query: Vec<WebhookQuery>,
    pub webhook_query_update: bool,
}

/// A role. The `can_*` flags gate file storage, not queries.
#[derive(Debug, Clone)]
pub struct Role {
    pub id: i64,
    pub name: String,
    pub is_default: bool,
    pub can_read: bool,
    pub can_write: bool,
    pub can_delete: bool,
}

#[derive(Debug, Clone)]
pub struct RoleName {
    pub id: i64,
    pub name: String,
}

/// One row of a query's role whitelist.
#[derive(Debug, Clone, Copy)]
pub struct RoleAccess {
    pub role_id: i64,
}

#[derive(Debug, Clone)]
pub struct UserRoleAccess {
    pub role_id: i64,
    pub name: String,
    pub is_selected: bool,
}

#[derive(Debug, Clone)]
pub struct Migration {
    pub id: i64,
    pub name: String,
    pub up_query: String,
    pub down_query: String,
}

#[derive(Debug, Clone)]
pub struct MigrationName {
    pub id: i64,
    pub name: String,
    pub executed: bool,
}

#[derive(Debug, Clone)]
pub struct MigrationUp {
    pub id: i64,
    pub up_query: String,
}

#[derive(Debug, Clone)]
pub struct MigrationDown {
    pub id: i64,
    pub down_query: String,
}

/// An authenticated caller: the identity that the reserved claims read.
#[derive(Debug, Clone)]
pub struct User {
    pub id: i64,
    pub email: String,
    pub password: String,
    pub role: Option<String>,
}

/// A caller of the file storage, with the flags of their role.
#[derive(Debug, Clone, Copy)]
pub struct UserStorage {
    pub id: i64,
    pub role_id: Option<i64>,
    pub can_read: bool,
    pub can_write: bool,
    pub can_delete: bool,
}

/// A user with the role they resolve to, the default one where none is set.
#[derive(Debug, Clone)]
pub struct UserId {
    pub id: i64,
    pub email: String,
    pub password: String,
    pub role_id: Option<i64>,
    pub role_name: Option<String>,
}

/// A query definition: its routing name and its HTTP verb.
#[derive(Debug, Clone)]
pub struct Query {
    pub id: i64,
    pub name: String,
    pub exec_type: String,
}

#[derive(Debug, Clone)]
pub struct QueryName {
    pub id: i64,
    pub name: String,
}

#[derive(Debug, Clone)]
pub struct QueryAccess {
    pub id: i64,
    pub name: String,
    pub has_access: bool,
}

/// The SQL template of a query definition.
#[derive(Debug, Clone)]
pub struct QueryString {
    pub query: String,
}

#[derive(Debug, Clone)]
pub struct WebhookName {
    pub id: i64,
    pub name: String,
}

/// A webhook: an outbound call made before or after a query runs.
#[derive(Debug, Clone)]
pub struct Webhook {
    pub id: i64,
    pub name: String,
    pub exec_type: String,
    pub action: String,
    pub url: String,
    pub args: String,
    pub is_returned: bool,
}

#[derive(Debug, Clone)]
pub struct WebhookQuery {
    pub id: i64,
    pub name: String,
    pub is_connected: bool,
}

#[derive(Debug, Clone)]
pub struct DefaultRole {
    pub role: Option<String>,
}

/// The record of an uploaded file.
#[derive(Debug, Clone)]
pub struct Storage {
    pub id: i64,
    pub file_name: String,
    pub unique_name: String,
}

/// Where the database lives.
#[derive(Debug, Clone)]
pub struct Setup {
    pub dbpath: String,
}

/// Server settings: allowed origins and the two token secrets.
#[derive(Debug, Clone)]
pub struct Config {
    pub ips: String,
    pub auth_secret: String,
    pub storage_secret: String,
}

/// One user id, as counted by the administrator's user list.
#[derive(Debug, Clone, Copy)]
pub struct TotalUsers {
    pub id: i64,
}

/// The sections of the administrator's dashboard.
#[derive(Debug, Clone, Copy, PartialEq, Eq, Structural)]
pub enum Sidebar {
    Config,
    Role,
    User,
    Query,
    Webhook,
    Migration,
    Api,
    Quit,
}

impl Sidebar {
    /// The section's title.
    pub fn label(&self) -> (r: &'static str)
        ensures
            r@ == (match self {
                Sidebar::Config => "CONFIG"@,
                Sidebar::Role => "ROLE"@,
                Sidebar::User => "USER"@,
                Sidebar::Query => "QUERY"@,
                Sidebar::Webhook => "WEBHOOK"@,
                Sidebar::Migration => "MIGRATION"@,
                Sidebar::Api => "API"@,
                Sidebar::Quit => "QUIT"@,
            }),
    {
        match self {
            Sidebar::Config => "CONFIG",
            Sidebar::Role => "ROLE",
            Sidebar::User => "USER",
            Sidebar::Query => "QUERY",
            Sidebar::Webhook => "WEBHOOK",
            Sidebar::Migration => "MIGRATION",
            Sidebar::Api => "API",
            Sidebar::Quit => "QUIT",
        }
    }
}

} // verus!
