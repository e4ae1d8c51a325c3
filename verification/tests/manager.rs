use auto_gippity::models::agent_basic::basic_agent::{AgentState, BasicAgent};
use auto_gippity::models::agents::agent_architect::AgentSolutionArchitect;
use auto_gippity::models::agents::agent_protocol::{
    AgentAction, AgentEvent, AgentStep, AiFunction, ExecutionError,
};
use auto_gippity::models::agents::agent_traits::{
    FactSheet, ProjectScope, RouteObject, SpecialFunctions,
};
use auto_gippity::models::agents_manager::managing_agent::{Agent, ManagingAgent};
use auto_gippity::models::general::llm::Message;
use serde_json::Value;

const REQUEST: &str = "build a website show current crypto currencies prices (BTC, ETH, SOL ....), and provides time based on internet timezone.";
const GOAL: &str = "build a website that shows crypto prices and the time";

fn quiet(action: AgentAction) -> AgentStep {
    AgentStep { issue: None, action }
}

fn text(s: &str) -> AgentEvent {
    AgentEvent::Text(s.to_string())
}

fn scope(urls: bool) -> ProjectScope {
    ProjectScope {
        is_crud_required: false,
        is_user_login_and_logout: false,
        is_external_urls_required: urls,
    }
}

fn time_route() -> RouteObject {
    RouteObject {
        route: "/time".to_string(),
        is_route_dynamic: "false".to_string(),
        method: "GET".to_string(),
        request_body: Value::String("None".to_string()),
        response: Value::Null,
    }
}

#[test]
fn new_manager_has_an_empty_fact_sheet() {
    let manager = ManagingAgent::new(REQUEST.to_string());
    let attributes = manager.get_attributes();
    assert_eq!(attributes.objective, "Manage the project to build excellent website for the user");
    assert_eq!(attributes.position, "Project Manager");
    assert_eq!(attributes.state, AgentState::Discovery);
    assert!(attributes.memory.is_empty());
    assert_eq!(manager.factsheet(), &FactSheet::new(String::new()));
}

#[test]
fn fact_sheet_starts_with_the_description_only() {
    let factsheet = FactSheet::new(GOAL.to_string());
    assert_eq!(
        factsheet,
        FactSheet {
            project_description: GOAL.to_string(),
            project_scope: None,
            external_urls: None,
            backend_code: None,
            api_endpoint_schema: None,
        }
    );
}

#[test]
fn basic_agent_starts_in_discovery_and_moves_on_request() {
    let mut agent = BasicAgent::new("objective".to_string(), "position".to_string());
    assert_eq!(
        agent,
        BasicAgent {
            objective: "objective".to_string(),
            position: "position".to_string(),
            state: AgentState::Discovery,
            memory: vec![],
        }
    );
    agent.memory.push(Message { role: "user".to_string(), content: "hi".to_string() });
    agent.update_state(AgentState::UnitTesting);
    assert_eq!(agent.state, AgentState::UnitTesting);
    assert_eq!(agent.objective, "objective");
    assert_eq!(agent.position, "position");
    assert_eq!(agent.memory.len(), 1);
}

#[test]
fn test_managing_agent() {
    let mut manager = ManagingAgent::new(REQUEST.to_string());
    assert_eq!(
        manager.execute_project(AgentEvent::Start),
        quiet(AgentAction::RequestText {
            function: AiFunction::ConvertUserInputToGoal,
            context: REQUEST.to_string(),
        })
    );
    assert_eq!(
        manager.execute_project(text(GOAL)),
        quiet(AgentAction::RequestDecoded {
            function: AiFunction::PrintProjectScope,
            context: GOAL.to_string(),
        })
    );
    assert_eq!(manager.factsheet(), &FactSheet::new(GOAL.to_string()));
    assert_eq!(
        manager.execute_project(AgentEvent::Scope(scope(true))),
        quiet(AgentAction::RequestList {
            function: AiFunction::PrintSiteUrls,
            context: GOAL.to_string(),
        })
    );
    assert_eq!(
        manager.execute_project(text("[\"https://ok.example\", \"https://dead.example\"]")),
        quiet(AgentAction::ProbeUrl { url: "https://ok.example".to_string(), timeout_seconds: 5 })
    );
    assert_eq!(
        manager.execute_project(AgentEvent::Status(200)),
        quiet(AgentAction::ProbeUrl { url: "https://dead.example".to_string(), timeout_seconds: 5 })
    );
    // The architect finishes, and the backend developer starts in the same step.
    assert_eq!(
        manager.execute_project(AgentEvent::ProbeFailed("dns".to_string())),
        quiet(AgentAction::ReadCodeTemplate)
    );
    assert_eq!(manager.factsheet().external_urls, Some(vec!["https://ok.example".to_string()]));
    assert_eq!(
        manager.execute_project(text("TEMPLATE")),
        quiet(AgentAction::RequestText {
            function: AiFunction::PrintBackendWebserverCode,
            context: format!(
                "CODE_TEMPLATE: TEMPLATE \n PROJECT_DESCRIPTION: {} \n OPTIONAL_EXTERNAL_URLS: \"https://ok.example\"",
                GOAL
            ),
        })
    );
    manager.execute_project(text("code v1"));
    manager.execute_project(AgentEvent::Completed);
    manager.execute_project(text("code v2"));
    assert_eq!(
        manager.execute_project(AgentEvent::Completed),
        quiet(AgentAction::ConfirmSafeCode)
    );
    assert_eq!(
        manager.execute_project(AgentEvent::Confirmed(true)),
        quiet(AgentAction::BuildProject)
    );
    manager.execute_project(AgentEvent::Built { success: true, errors: String::new() });
    manager.execute_project(text("fn main() {}"));
    manager.execute_project(text("[{...}]"));
    assert_eq!(
        manager.execute_project(AgentEvent::Endpoints(vec![time_route()])),
        quiet(AgentAction::LaunchServer)
    );
    manager.execute_project(AgentEvent::Completed);
    assert_eq!(
        manager.execute_project(AgentEvent::Completed),
        quiet(AgentAction::ProbeUrl { url: "http://localhost:8080/time".to_string(), timeout_seconds: 5 })
    );
    assert_eq!(
        manager.execute_project(AgentEvent::Status(200)),
        quiet(AgentAction::SaveApiEndpoints { schema: "[{...}]".to_string() })
    );
    assert_eq!(manager.execute_project(AgentEvent::Completed), quiet(AgentAction::KillServer));
    assert_eq!(manager.execute_project(AgentEvent::Completed), quiet(AgentAction::Done));
    assert_eq!(manager.execute_project(AgentEvent::Start), quiet(AgentAction::Done));
    assert_eq!(
        manager.factsheet(),
        &FactSheet {
            project_description: GOAL.to_string(),
            project_scope: Some(scope(true)),
            external_urls: Some(vec!["https://ok.example".to_string()]),
            backend_code: Some("code v2".to_string()),
            api_endpoint_schema: Some(vec![time_route()]),
        }
    );
}

#[test]
fn pipeline_without_external_urls_goes_straight_to_the_backend_developer() {
    let mut manager = ManagingAgent::new(REQUEST.to_string());
    manager.execute_project(AgentEvent::Start);
    manager.execute_project(text(GOAL));
    assert_eq!(
        manager.execute_project(AgentEvent::Scope(scope(false))),
        quiet(AgentAction::ReadCodeTemplate)
    );
    assert_eq!(manager.factsheet().project_scope, Some(scope(false)));
    assert_eq!(manager.factsheet().external_urls, None);
    assert_eq!(
        manager.execute_project(text("TEMPLATE")),
        quiet(AgentAction::RequestText {
            function: AiFunction::PrintBackendWebserverCode,
            context: format!(
                "CODE_TEMPLATE: TEMPLATE \n PROJECT_DESCRIPTION: {} \n OPTIONAL_EXTERNAL_URLS: ",
                GOAL
            ),
        })
    );
}

#[test]
fn agent_that_gives_up_ends_the_pipeline() {
    let mut manager = ManagingAgent::new(REQUEST.to_string());
    manager.execute_project(AgentEvent::Start);
    manager.execute_project(text(GOAL));
    let abort = quiet(AgentAction::Abort { error: ExecutionError::MalformedResponse });
    assert_eq!(manager.execute_project(AgentEvent::Failed), abort);
    // The backend developer is never started.
    assert_eq!(manager.execute_project(AgentEvent::Start), abort);
    assert_eq!(manager.execute_project(AgentEvent::Scope(scope(false))), abort);
    assert_eq!(manager.factsheet(), &FactSheet::new(GOAL.to_string()));
}

#[test]
fn pipeline_gives_up_when_the_description_cannot_be_had() {
    let mut manager = ManagingAgent::new(REQUEST.to_string());
    manager.execute_project(AgentEvent::Start);
    let abort = quiet(AgentAction::Abort { error: ExecutionError::LlmUnavailable });
    assert_eq!(manager.execute_project(AgentEvent::Failed), abort);
    assert_eq!(manager.execute_project(text(GOAL)), abort);

    let mut manager = ManagingAgent::new(REQUEST.to_string());
    assert_eq!(
        manager.execute_project(text(GOAL)),
        quiet(AgentAction::Abort { error: ExecutionError::UnexpectedEvent })
    );
}

#[test]
fn added_agent_runs_before_the_agents_of_the_pipeline() {
    let mut manager = ManagingAgent::new(REQUEST.to_string());
    manager.add_agent(Agent::SolutionArchitect(AgentSolutionArchitect::new()));
    manager.execute_project(AgentEvent::Start);
    assert_eq!(
        manager.execute_project(text(GOAL)),
        quiet(AgentAction::RequestDecoded {
            function: AiFunction::PrintProjectScope,
            context: GOAL.to_string(),
        })
    );
    // The added architect finishes; the architect of the pipeline starts.
    assert_eq!(
        manager.execute_project(AgentEvent::Scope(scope(false))),
        quiet(AgentAction::RequestDecoded {
            function: AiFunction::PrintProjectScope,
            context: GOAL.to_string(),
        })
    );
    assert_eq!(
        manager.execute_project(AgentEvent::Scope(scope(false))),
        quiet(AgentAction::ReadCodeTemplate)
    );
}

#[test]
fn agent_of_either_kind_is_driven_through_the_same_interface() {
    let mut agent = Agent::SolutionArchitect(AgentSolutionArchitect::new());
    assert_eq!(agent.get_attributes_from_agent().position, "Solutions Architect");
    let mut factsheet = FactSheet::new(GOAL.to_string());
    assert_eq!(
        agent.execute(&mut factsheet, AgentEvent::Start),
        quiet(AgentAction::RequestDecoded {
            function: AiFunction::PrintProjectScope,
            context: GOAL.to_string(),
        })
    );
}
