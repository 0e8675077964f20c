//! Data model: the process record kept by the registry, the lifecycle status
//! enum, and the plain request / response shapes of the service surface.

use vstd::prelude::*;

verus! {

/// Lifecycle state of a tracked process.
///
/// A record starts `Running`. It leaves the registry either through an
/// explicit stop (`Stopped`) or when its monitor observes it dead
/// (`Exited` when an exit code was captured, otherwise `Stopped`).
#[derive(Clone, Copy, Debug, PartialEq, Eq, Structural)]
pub enum ProcessStatus {
    Running,
    Exited,
    Stopped,
}

/// Text form of a status, as published on notification channels and carried
/// in status responses.
pub open spec fn status_label(s: ProcessStatus) -> Seq<char> {
    match s {
        ProcessStatus::Running => "Running"@,
        ProcessStatus::Exited => "Exited"@,
        ProcessStatus::Stopped => "Stopped"@,
    }
}

impl ProcessStatus {
    /// The text form of this status.
    pub fn label(&self) -> (r: &'static str)
        ensures
            r@ == status_label(*self),
    {
        match self {
            ProcessStatus::Running => "Running",
            ProcessStatus::Exited => "Exited",
            ProcessStatus::Stopped => "Stopped",
        }
    }
}

/// One tracked launched process: the record held by the registry.
pub struct ProcessInfo {
    /// OS process id of the directly spawned child.
    pub pid: u32,
    /// OS pids believed to be descendants of `pid`. Refreshed by discovery
    /// passes; a snapshot, not guaranteed exhaustive at every instant.
    pub child_pids: Vec<u32>,
    /// Lifecycle state. Removal from the registry, not this field, is the
    /// authoritative signal that monitoring has ceased.
    pub status: ProcessStatus,
    /// Exit code, captured only on natural exit when available.
    pub exit_code: Option<i32>,
}

/// Status report for one tracked process, as returned to callers.
#[derive(Debug)]
pub struct ProcessStatusResponse {
    pub status: String,
    pub pid: u32,
    pub exit_code: Option<i32>,
}

/// Request to launch the executable registered for an application.
pub struct ExecuteRequest {
    pub application_id: String,
}

/// A session token presented by a caller; validated outside the library.
pub struct SessionGuard(pub String);

/// A stored user account.
pub struct User {
    pub id: String,
    pub username: String,
    pub email: String,
    pub pass_hash: String,
}

/// Registration data for a new user account.
pub struct UserInit {
    pub username: String,
    pub email: String,
    pub password: String,
    pub role: String,
}

/// Login credentials.
pub struct Login {
    pub username: String,
    pub password: String,
}

/// Logout request.
pub struct Logout {
    pub username: String,
    pub email: String,
    pub password: String,
}

/// A stored login session.
#[allow(non_snake_case)]
pub struct Session {
    pub id: String,
    pub userId: String,
    pub startTime: String,
    pub endTime: String,
}

/// Request to reset another user's password.
pub struct ResetPasswordForm {
    pub target: String,
    pub password: String,
}

/// Request to set the caller's own password.
pub struct SetPasswordForm {
    pub new_password: String,
}

/// Metadata for registering an application.
pub struct ApplicationEntry {
    pub name: String,
    pub description: String,
    pub user_id: String,
    pub contact: Option<String>,
    pub executable_path: String,
    pub arguments: Option<String>,
    pub category_ids: Option<Vec<String>>,
}

/// Launch instructions stored for an application.
pub struct InstructionsEntry {
    pub id: String,
    pub path: String,
    pub arguments: Option<String>,
}

/// Partial update of an application's metadata.
pub struct ApplicationUpdateForm {
    pub id: String,
    pub name: Option<String>,
    pub description: Option<String>,
    pub user_id: Option<String>,
    pub executable_path: Option<String>,
    pub arguments: Option<String>,
}

/// Full application metadata, with its categories.
pub struct ApplicationDetails {
    pub id: String,
    pub user_id: String,
    pub contact: Option<String>,
    pub name: String,
    pub description: String,
    pub categories: Vec<CategoryDetails>,
}

/// Launch instructions, as returned to callers.
#[derive(Clone)]
pub struct InstructionsDetails {
    pub path: String,
    pub arguments: Option<String>,
}

/// Metadata for creating a category.
pub struct CategoryEntry {
    pub name: String,
    pub description: Option<String>,
}

/// Full category metadata.
pub struct CategoryDetails {
    pub id: String,
    pub name: String,
    pub description: Option<String>,
}

} // verus!
