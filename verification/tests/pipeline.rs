use agent_pipeline::backend::CodeRequest;
use agent_pipeline::basic_agent::{AgentState, BasicAgent};
use agent_pipeline::error::AgentError;
use agent_pipeline::factsheet::{ProjectScope, RouteObject};
use agent_pipeline::general::{extend_ai_functions, require_decoded, resolve_oracle_attempts};
use agent_pipeline::llm::{APIChoice, APIMessage, APIResponse, first_choice_content};
use agent_pipeline::manager::{AgentRole, ManagingAgent};

fn route(path: &str, method: &str, dynamic: &str) -> RouteObject {
    RouteObject {
        route: path.to_string(),
        method: method.to_string(),
        is_route_dynamic: dynamic.to_string(),
    }
}

#[test]
fn manager_starts_with_description_only_and_ordered_roles() {
    let mut manager = ManagingAgent::new("a to-do list web service".to_string());
    assert_eq!(manager.attributes.position, "Project Manager".to_string());
    assert_eq!(manager.factsheet.project_description, "a to-do list web service".to_string());
    assert!(manager.factsheet.project_scope.is_none());
    assert!(manager.factsheet.external_urls.is_none());
    assert!(manager.factsheet.backend_code.is_none());
    assert!(manager.factsheet.api_endpoints_schema.is_none());
    assert!(manager.agents.is_empty());

    manager.create_agent();
    assert_eq!(manager.agents.len(), 2);
    assert!(matches!(manager.agents[0], AgentRole::Architect(_)));
    assert!(matches!(manager.agents[1], AgentRole::BackendDeveloper(_)));
}

#[test]
fn run_succeeds_when_build_and_both_routes_pass() {
    let mut manager = ManagingAgent::new(
        "build a to-do API with create, list, and complete operations".to_string(),
    );
    manager.create_agent();

    let ManagingAgent { factsheet, agents, .. } = &mut manager;
    let mut roles_run: Vec<&str> = Vec::new();

    for role in agents.iter_mut() {
        match role {
            AgentRole::Architect(arch) => {
                roles_run.push("architect");
                let needs_urls = arch
                    .handle_scope(factsheet, ProjectScope { is_external_urls_required: false });
                assert!(!needs_urls);
                assert_eq!(arch.attributes.state, AgentState::Finished);
            }
            AgentRole::BackendDeveloper(dev) => {
                roles_run.push("backend");
                dev.record_initial_code(factsheet, "fn main() { /* v1 */ }".to_string());
                assert!(matches!(dev.working_request(), CodeRequest::Improve));
                dev.record_revised_code(factsheet, "fn main() { /* v2 */ }".to_string());
                dev.handle_confirmation(true).unwrap();
                dev.handle_build_result(Ok(())).unwrap();
                assert_eq!(dev.bug_count, 0);

                dev.process_route_schema(
                    factsheet,
                    vec![
                        route("/items", "get", "false"),
                        route("/health", "get", "false"),
                        route("/items", "post", "false"),
                        route("/items/:id", "get", "true"),
                    ],
                );
                let checks = factsheet.api_endpoints_schema.clone().unwrap();
                assert_eq!(checks.len(), 2);

                let statuses = vec![Some(200u16); checks.len()];
                dev.handle_endpoint_statuses(factsheet, &statuses).unwrap();
                assert_eq!(dev.attributes.state, AgentState::Finished);
            }
        }
    }

    assert_eq!(roles_run, vec!["architect", "backend"]);
    let schema = manager.factsheet.api_endpoints_schema.unwrap();
    assert_eq!(schema.len(), 2);
    assert_eq!(schema[0].route, "/items".to_string());
    assert_eq!(schema[1].route, "/health".to_string());
    assert_eq!(manager.factsheet.backend_code, Some("fn main() { /* v2 */ }".to_string()));
    assert!(manager.factsheet.external_urls.is_none());
}

#[test]
fn run_aborts_when_a_route_answers_404() {
    let mut manager = ManagingAgent::new(
        "build a to-do API with create, list, and complete operations".to_string(),
    );
    manager.create_agent();

    let ManagingAgent { factsheet, agents, .. } = &mut manager;
    let mut fatal: Option<AgentError> = None;

    'run: for role in agents.iter_mut() {
        match role {
            AgentRole::Architect(arch) => {
                arch.handle_scope(factsheet, ProjectScope { is_external_urls_required: false });
            }
            AgentRole::BackendDeveloper(dev) => {
                dev.record_initial_code(factsheet, "fn main() { /* v1 */ }".to_string());
                dev.record_revised_code(factsheet, "fn main() { /* v2 */ }".to_string());
                dev.handle_confirmation(true).unwrap();
                dev.handle_build_result(Ok(())).unwrap();
                dev.process_route_schema(
                    factsheet,
                    vec![route("/items", "get", "false"), route("/health", "get", "false")],
                );
                // the built server answers 404 on /items
                let verdict =
                    dev.handle_endpoint_statuses(factsheet, &vec![Some(404u16), Some(200u16)]);
                match verdict {
                    Ok(()) => {}
                    Err(e) => {
                        fatal = Some(e);
                        break 'run;
                    }
                }
                assert_ne!(dev.attributes.state, AgentState::Finished);
            }
        }
    }

    assert_eq!(fatal, Some(AgentError::EndpointUnreachable));
}

#[test]
fn oracle_transport_policy_retries_exactly_once() {
    assert_eq!(
        resolve_oracle_attempts(Some("first answer".to_string()), None),
        Ok("first answer".to_string())
    );
    assert_eq!(
        resolve_oracle_attempts(None, Some("second answer".to_string())),
        Ok("second answer".to_string())
    );
    assert_eq!(
        resolve_oracle_attempts(None, None),
        Err(AgentError::OracleTransport)
    );
}

#[test]
fn malformed_structured_output_is_fatal() {
    assert_eq!(require_decoded(Some(7u32)), Ok(7u32));
    assert_eq!(require_decoded::<u32>(None), Err(AgentError::OracleDecode));
}

#[test]
fn framed_prompt_has_the_exact_shape() {
    let msg = extend_ai_functions("fn convert_user_input_to_goal(input)", "build a to-do API");
    assert_eq!(msg.role, "system".to_string());
    let expected = format!(
        "FUNCTION {} \
         \n    INSTRUCTION: You are a function printer. You ONLY print the results of functions.\
         \n    Nothing else. No commentary. Here is the input to the function {}.\
         \n    Print out what the function will return.",
        "fn convert_user_input_to_goal(input)", "build a to-do API"
    );
    assert_eq!(msg.content, expected);
}

#[test]
fn first_choice_is_the_answer_taken() {
    let resp = APIResponse {
        choices: vec![
            APIChoice { message: APIMessage { content: "alpha".to_string() } },
            APIChoice { message: APIMessage { content: "beta".to_string() } },
        ],
    };
    assert_eq!(first_choice_content(&resp), "alpha".to_string());
}

#[test]
fn basic_agent_lifecycle() {
    let mut agent = BasicAgent::new("objective text".to_string(), "Some Position".to_string());
    assert_eq!(agent.get_objective(), &"objective text".to_string());
    assert_eq!(agent.get_position(), &"Some Position".to_string());
    assert_eq!(agent.get_state(), &AgentState::Discovery);
    assert!(agent.get_memory().is_empty());

    agent.update_state(AgentState::Working);
    assert_eq!(agent.get_state(), &AgentState::Working);
}
