use agent_pipeline::backend::{AgentBackendDeveloper, CodeRequest};
use agent_pipeline::basic_agent::AgentState;
use agent_pipeline::error::AgentError;
use agent_pipeline::factsheet::{FactSheet, RouteObject};

fn route(path: &str, method: &str, dynamic: &str) -> RouteObject {
    RouteObject {
        route: path.to_string(),
        method: method.to_string(),
        is_route_dynamic: dynamic.to_string(),
    }
}

/// Brings a fresh developer to `UnitTesting` with code on the sheet.
fn dev_at_unit_testing(sheet: &mut FactSheet) -> AgentBackendDeveloper {
    let mut dev = AgentBackendDeveloper::new();
    dev.record_initial_code(sheet, "fn main() {}".to_string());
    assert_eq!(dev.attributes.state, AgentState::Working);
    dev.record_revised_code(sheet, "fn main() { /* improved */ }".to_string());
    assert_eq!(dev.attributes.state, AgentState::UnitTesting);
    dev
}

#[test]
fn bug_count_grows_on_failures_and_resets_on_success() {
    let mut sheet = FactSheet::new("build a to-do API".to_string());
    let mut dev = dev_at_unit_testing(&mut sheet);
    assert_eq!(dev.bug_count, 0);

    let r1 = dev.handle_build_result(Err("error: expected `;`".to_string()));
    assert_eq!(r1, Ok(()));
    assert_eq!(dev.bug_count, 1);
    assert_eq!(dev.bug_errors, Some("error: expected `;`".to_string()));
    assert_eq!(dev.attributes.state, AgentState::Working);

    dev.record_revised_code(&mut sheet, "fn main() { /* repaired */ }".to_string());
    let r2 = dev.handle_build_result(Err("error: mismatched types".to_string()));
    assert_eq!(r2, Ok(()));
    assert_eq!(dev.bug_count, 2);

    dev.record_revised_code(&mut sheet, "fn main() { /* repaired again */ }".to_string());
    let r3 = dev.handle_build_result(Ok(()));
    assert_eq!(r3, Ok(()));
    assert_eq!(dev.bug_count, 0);
    assert_eq!(dev.attributes.state, AgentState::UnitTesting);
}

#[test]
fn third_consecutive_failure_is_fatal() {
    let mut sheet = FactSheet::new("build a to-do API".to_string());
    let mut dev = dev_at_unit_testing(&mut sheet);

    assert_eq!(dev.handle_build_result(Err("first".to_string())), Ok(()));
    dev.record_revised_code(&mut sheet, "try 2".to_string());
    assert_eq!(dev.handle_build_result(Err("second".to_string())), Ok(()));
    dev.record_revised_code(&mut sheet, "try 3".to_string());

    let fatal = dev.handle_build_result(Err("third".to_string()));
    assert_eq!(fatal, Err(AgentError::TooManyBuildFailures));
    assert_eq!(dev.bug_count, 3);
}

#[test]
fn working_request_picks_improvement_or_repair() {
    let mut sheet = FactSheet::new("build a to-do API".to_string());
    let mut dev = AgentBackendDeveloper::new();
    dev.record_initial_code(&mut sheet, "fn main() {}".to_string());
    assert!(matches!(dev.working_request(), CodeRequest::Improve));

    dev.record_revised_code(&mut sheet, "v2".to_string());
    dev.handle_build_result(Err("error: missing crate".to_string()))
        .unwrap();
    match dev.working_request() {
        CodeRequest::FixBugs(errors) => assert_eq!(errors, "error: missing crate".to_string()),
        CodeRequest::Improve => panic!("a recorded failure must ask for a repair"),
    }
}

#[test]
fn declined_confirmation_is_fatal() {
    let mut sheet = FactSheet::new("build a to-do API".to_string());
    let dev = dev_at_unit_testing(&mut sheet);
    assert_eq!(dev.handle_confirmation(true), Ok(()));
    assert_eq!(dev.handle_confirmation(false), Err(AgentError::OperatorDeclined));
}

#[test]
fn route_filter_keeps_only_static_get_routes() {
    let mut sheet = FactSheet::new("build a to-do API".to_string());
    let dev = dev_at_unit_testing(&mut sheet);

    let routes = vec![
        route("/items", "get", "false"),
        route("/items/:id", "get", "true"),
        route("/items", "post", "false"),
    ];
    dev.process_route_schema(&mut sheet, routes);

    let kept = sheet.api_endpoints_schema.as_ref().expect("schema must be stored");
    assert_eq!(kept.len(), 1);
    assert_eq!(kept[0].route, "/items".to_string());
    assert_eq!(kept[0].method, "get".to_string());
    assert_eq!(kept[0].is_route_dynamic, "false".to_string());
}

#[test]
fn route_filter_is_case_and_spelling_sensitive() {
    let mut sheet = FactSheet::new("build a to-do API".to_string());
    let dev = dev_at_unit_testing(&mut sheet);

    let routes = vec![
        route("/a", "GET", "false"),
        route("/b", "get", "False"),
        route("/c", "get", "false"),
    ];
    dev.process_route_schema(&mut sheet, routes);

    let kept = sheet.api_endpoints_schema.as_ref().unwrap();
    assert_eq!(kept.len(), 1);
    assert_eq!(kept[0].route, "/c".to_string());
}

#[test]
fn endpoint_checks_demand_200_from_every_route() {
    let mut sheet = FactSheet::new("build a to-do API".to_string());
    let mut dev = dev_at_unit_testing(&mut sheet);
    dev.handle_build_result(Ok(())).unwrap();
    dev.process_route_schema(
        &mut sheet,
        vec![route("/items", "get", "false"), route("/health", "get", "false")],
    );

    let verdict = dev.handle_endpoint_statuses(&sheet, &vec![Some(200u16), Some(200u16)]);
    assert_eq!(verdict, Ok(()));
    assert_eq!(dev.attributes.state, AgentState::Finished);
}

#[test]
fn endpoint_check_failure_is_fatal() {
    let mut sheet = FactSheet::new("build a to-do API".to_string());
    let mut dev = dev_at_unit_testing(&mut sheet);
    dev.handle_build_result(Ok(())).unwrap();
    dev.process_route_schema(
        &mut sheet,
        vec![route("/items", "get", "false"), route("/health", "get", "false")],
    );

    let verdict = dev.handle_endpoint_statuses(&sheet, &vec![Some(404u16), Some(200u16)]);
    assert_eq!(verdict, Err(AgentError::EndpointUnreachable));
    assert_ne!(dev.attributes.state, AgentState::Finished);

    let errored = dev.handle_endpoint_statuses(&sheet, &vec![Some(200u16), None]);
    assert_eq!(errored, Err(AgentError::EndpointUnreachable));
    assert_ne!(dev.attributes.state, AgentState::Finished);
}
