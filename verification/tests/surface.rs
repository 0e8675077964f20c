use mangrove::models::ApplicationDetails;
use mangrove::models::ApplicationEntry;
use mangrove::models::CategoryDetails;
use mangrove::models::ExecuteRequest;
use mangrove::models::InstructionsDetails;
use mangrove::models::Login;
use mangrove::models::ProcessInfo;
use mangrove::models::ProcessStatus;
use mangrove::models::Session;
use mangrove::models::SessionGuard;
use mangrove::models::User;
use mangrove::routes::execution_routes;
use mangrove::routes::user_management_routes;
use mangrove::routes::UserSearchPaths;

#[test]
fn status_labels() {
    assert_eq!(ProcessStatus::Running.label(), "Running");
    assert_eq!(ProcessStatus::Exited.label(), "Exited");
    assert_eq!(ProcessStatus::Stopped.label(), "Stopped");
}

#[test]
fn process_info_holds_record() {
    let info = ProcessInfo {
        pid: 77,
        child_pids: vec![78, 79],
        status: ProcessStatus::Running,
        exit_code: None,
    };
    assert_eq!(info.pid, 77);
    assert_eq!(info.child_pids, vec![78, 79]);
    assert_eq!(info.status, ProcessStatus::Running);
    assert_eq!(info.exit_code, None);
}

#[test]
fn execution_route_table() {
    let routes = execution_routes();
    assert_eq!(routes.len(), 12);
    assert_eq!(routes[0], "/api/execute");
    assert_eq!(routes[1], "/api/process/<identifier>/stop");
    assert_eq!(routes[6], "/api/applications");
    assert_eq!(routes[10], "/ws/process/<process_id>");
    assert_eq!(routes[11], "/ws/process_count");
}

#[test]
fn user_management_route_table() {
    let routes = user_management_routes();
    assert_eq!(routes.len(), 11);
    assert_eq!(routes[0], "/api/session-validate");
    assert_eq!(routes[6], "/api/user/login");
    assert_eq!(routes[10], "/api/user/delete");
}

#[test]
fn user_search_paths() {
    assert_eq!(UserSearchPaths::paths(), vec!["/api/user/search"]);
}

#[test]
fn model_shapes_carry_plain_values() {
    let user = User {
        id: String::from("u-1"),
        username: String::from("admin"),
        email: String::from("admin@example.com"),
        pass_hash: String::from("stored-hash"),
    };
    assert_eq!(user.username, "admin");

    let login = Login {
        username: String::from("admin"),
        password: String::from("password123"),
    };
    assert_eq!(login.username, user.username);

    let session = Session {
        id: String::from("s-1"),
        userId: user.id.clone(),
        startTime: String::from("2024-01-01T00:00:00Z"),
        endTime: String::from("2024-01-01T01:00:00Z"),
    };
    assert_eq!(session.userId, "u-1");

    let guard = SessionGuard(session.id.clone());
    assert_eq!(guard.0, "s-1");

    let request = ExecuteRequest {
        application_id: String::from("app-1"),
    };
    assert_eq!(request.application_id, "app-1");

    let entry = ApplicationEntry {
        name: String::from("Calculator"),
        description: String::from("A calculator."),
        user_id: user.id.clone(),
        contact: None,
        executable_path: String::from("/usr/bin/calc"),
        arguments: Some(String::from("--fast")),
        category_ids: Some(vec![String::from("cat-1")]),
    };
    let details = ApplicationDetails {
        id: String::from("app-1"),
        user_id: entry.user_id.clone(),
        contact: entry.contact.clone(),
        name: entry.name.clone(),
        description: entry.description.clone(),
        categories: vec![CategoryDetails {
            id: String::from("cat-1"),
            name: String::from("Utilities"),
            description: None,
        }],
    };
    assert_eq!(details.categories.len(), 1);

    let instructions = InstructionsDetails {
        path: entry.executable_path.clone(),
        arguments: entry.arguments.clone(),
    };
    assert_eq!(instructions.clone().path, "/usr/bin/calc");
}
