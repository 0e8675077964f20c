//! Route tables: the HTTP and WebSocket paths each part of the service
//! mounts. The web layer turns each path into a mounted handler; the tables
//! themselves are plain data, pinned down here.

use vstd::prelude::*;

verus! {

/// The paths of the program-management surface, in mount order: execution
/// control, application and category management, and the two WebSocket
/// streams.
pub fn execution_routes() -> (r: Vec<&'static str>)
    ensures
        r@.len() == 12,
        r@[0]@ == "/api/execute"@,
        r@[1]@ == "/api/process/<identifier>/stop"@,
        r@[2]@ == "/api/applications/add"@,
        r@[3]@ == "/api/applications/update"@,
        r@[4]@ == "/api/applications/remove/<application_id>"@,
        r@[5]@ == "/api/applications/<application_id>"@,
        r@[6]@ == "/api/applications"@,
        r@[7]@ == "/api/categories/add"@,
        r@[8]@ == "/api/categories/<category_id>/delete"@,
        r@[9]@ == "/api/categories"@,
        r@[10]@ == "/ws/process/<process_id>"@,
        r@[11]@ == "/ws/process_count"@,
{
    let mut r: Vec<&'static str> = Vec::new();
    r.push("/api/execute");
    r.push("/api/process/<identifier>/stop");
    r.push("/api/applications/add");
    r.push("/api/applications/update");
    r.push("/api/applications/remove/<application_id>");
    r.push("/api/applications/<application_id>");
    r.push("/api/applications");
    r.push("/api/categories/add");
    r.push("/api/categories/<category_id>/delete");
    r.push("/api/categories");
    r.push("/ws/process/<process_id>");
    r.push("/ws/process_count");
    r
}

/// The paths of the user-management surface, in mount order.
pub fn user_management_routes() -> (r: Vec<&'static str>)
    ensures
        r@.len() == 11,
        r@[0]@ == "/api/session-validate"@,
        r@[1]@ == "/api/user/search/all"@,
        r@[2]@ == "/api/user/search/<username>"@,
        r@[3]@ == "/api/user/info"@,
        r@[4]@ == "/api/role/search/<username>"@,
        r@[5]@ == "/api/user/register"@,
        r@[6]@ == "/api/user/login"@,
        r@[7]@ == "/api/user/logout"@,
        r@[8]@ == "/api/password/reset"@,
        r@[9]@ == "/api/user/set-password"@,
        r@[10]@ == "/api/user/delete"@,
{
    let mut r: Vec<&'static str> = Vec::new();
    r.push("/api/session-validate");
    r.push("/api/user/search/all");
    r.push("/api/user/search/<username>");
    r.push("/api/user/info");
    r.push("/api/role/search/<username>");
    r.push("/api/user/register");
    r.push("/api/user/login");
    r.push("/api/user/logout");
    r.push("/api/password/reset");
    r.push("/api/user/set-password");
    r.push("/api/user/delete");
    r
}

/// The user-search path group.
pub struct UserSearchPaths;

impl UserSearchPaths {
    /// The root path under which user searches are mounted.
    pub fn paths() -> (r: Vec<&'static str>)
        ensures
            r@.len() == 1,
            r@[0]@ == "/api/user/search"@,
    {
        let mut r: Vec<&'static str> = Vec::new();
        r.push("/api/user/search");
        r
    }
}

} // verus!
