use auto_gippity::models::agent_basic::basic_agent::AgentState;
use auto_gippity::models::agents::agent_architect::{
    contains_text, retain_valid_urls, AgentSolutionArchitect,
};
use auto_gippity::models::agents::agent_protocol::{
    AgentAction, AgentEvent, AgentStep, AiFunction, ExecutionError, PROBE_TIMEOUT_SECONDS,
    STATUS_OK,
};
use auto_gippity::models::agents::agent_traits::{FactSheet, ProjectScope, SpecialFunctions};

const DESCRIPTION: &str =
    "build a full stack website with user login and logout that shows lastest US stock prices";

fn sheet() -> FactSheet {
    FactSheet {
        project_description: DESCRIPTION.to_string(),
        project_scope: None,
        external_urls: None,
        backend_code: None,
        api_endpoint_schema: None,
    }
}

fn scope(urls: bool) -> ProjectScope {
    ProjectScope {
        is_crud_required: true,
        is_user_login_and_logout: true,
        is_external_urls_required: urls,
    }
}

fn quiet(action: AgentAction) -> AgentStep {
    AgentStep { issue: None, action }
}

fn texts(items: &[&str]) -> Vec<String> {
    items.iter().map(|s| s.to_string()).collect()
}

/// Drives a new agent until the candidate URLs have arrived.
fn architect_with_urls(factsheet: &mut FactSheet, urls: &[&str]) -> (AgentSolutionArchitect, AgentStep) {
    let mut agent = AgentSolutionArchitect::new();
    agent.execute(factsheet, AgentEvent::Start);
    agent.execute(factsheet, AgentEvent::Scope(scope(true)));
    let step = agent.execute(factsheet, AgentEvent::Urls(texts(urls)));
    (agent, step)
}

#[test]
fn test_solution_architect() {
    let mut agent: AgentSolutionArchitect = AgentSolutionArchitect::new();

    let mut factsheet: FactSheet = FactSheet {
        project_description: "build a full stack website with user login and logout that shows lastest US stock prices".to_string(),
        project_scope: None,
        external_urls: None,
        backend_code: None,
        api_endpoint_schema: None,
    };

    agent.execute(&mut factsheet, AgentEvent::Start);
    agent.execute(&mut factsheet, AgentEvent::Scope(scope(true)));
    agent.execute(
        &mut factsheet,
        AgentEvent::Urls(texts(&["https://api.example/stocks", "https://api.example/quotes"])),
    );
    agent.execute(&mut factsheet, AgentEvent::Status(200));
    let last = agent.execute(&mut factsheet, AgentEvent::Status(200));
    assert_eq!(last, quiet(AgentAction::Done));

    assert!(factsheet.project_scope != None);
    assert!(factsheet.external_urls.is_some());
}

#[test]
fn new_architect_starts_in_discovery() {
    let agent = AgentSolutionArchitect::new();
    let attributes = agent.get_attributes_from_agent();
    assert_eq!(
        attributes.objective,
        "Gather information and design solutions for website development"
    );
    assert_eq!(attributes.position, "Solutions Architect");
    assert_eq!(attributes.state, AgentState::Discovery);
    assert!(attributes.memory.is_empty());
}

#[test]
fn scope_without_external_urls_finishes_at_once() {
    let mut factsheet = sheet();
    let mut agent = AgentSolutionArchitect::new();
    assert_eq!(
        agent.execute(&mut factsheet, AgentEvent::Start),
        quiet(AgentAction::RequestDecoded {
            function: AiFunction::PrintProjectScope,
            context: DESCRIPTION.to_string(),
        })
    );
    assert_eq!(factsheet.project_scope, None);
    assert_eq!(
        agent.execute(&mut factsheet, AgentEvent::Scope(scope(false))),
        quiet(AgentAction::Done)
    );
    assert_eq!(factsheet.project_scope, Some(scope(false)));
    assert_eq!(factsheet.external_urls, None);
    assert_eq!(agent.get_attributes_from_agent().state, AgentState::Finished);
}

#[test]
fn scope_with_external_urls_asks_for_them() {
    let mut factsheet = sheet();
    let mut agent = AgentSolutionArchitect::new();
    agent.execute(&mut factsheet, AgentEvent::Start);
    assert_eq!(
        agent.execute(&mut factsheet, AgentEvent::Scope(scope(true))),
        quiet(AgentAction::RequestList {
            function: AiFunction::PrintSiteUrls,
            context: DESCRIPTION.to_string(),
        })
    );
    assert_eq!(factsheet.project_scope, Some(scope(true)));
    assert_eq!(agent.get_attributes_from_agent().state, AgentState::Discovery);
}

#[test]
fn validation_drops_the_url_that_does_not_return_200() {
    let mut factsheet = sheet();
    let (mut agent, step) =
        architect_with_urls(&mut factsheet, &["https://ok.example", "https://dead.example"]);
    assert_eq!(
        step,
        quiet(AgentAction::ProbeUrl { url: "https://ok.example".to_string(), timeout_seconds: 5 })
    );
    assert_eq!(PROBE_TIMEOUT_SECONDS, 5);
    assert_eq!(agent.get_attributes_from_agent().state, AgentState::UnitTesting);
    assert_eq!(
        factsheet.external_urls,
        Some(texts(&["https://ok.example", "https://dead.example"]))
    );
    assert_eq!(
        agent.execute(&mut factsheet, AgentEvent::Status(200)),
        quiet(AgentAction::ProbeUrl { url: "https://dead.example".to_string(), timeout_seconds: 5 })
    );
    assert_eq!(agent.execute(&mut factsheet, AgentEvent::Status(404)), quiet(AgentAction::Done));
    assert_eq!(factsheet.external_urls, Some(texts(&["https://ok.example"])));
    assert_eq!(agent.get_attributes_from_agent().state, AgentState::Finished);
}

#[test]
fn candidate_urls_are_decoded_from_the_text_of_a_list() {
    let mut factsheet = sheet();
    let mut agent = AgentSolutionArchitect::new();
    agent.execute(&mut factsheet, AgentEvent::Start);
    agent.execute(&mut factsheet, AgentEvent::Scope(scope(true)));
    let answer = " [\"https://ok.example\", \"https://dead.example/?q=\\\"x\\\"\",\n \"caf\\u00e9\"] ";
    assert_eq!(
        agent.execute(&mut factsheet, AgentEvent::Text(answer.to_string())),
        quiet(AgentAction::ProbeUrl { url: "https://ok.example".to_string(), timeout_seconds: 5 })
    );
    assert_eq!(
        factsheet.external_urls,
        Some(texts(&["https://ok.example", "https://dead.example/?q=\"x\"", "café"]))
    );
    agent.execute(&mut factsheet, AgentEvent::Status(200));
    agent.execute(&mut factsheet, AgentEvent::Status(404));
    assert_eq!(agent.execute(&mut factsheet, AgentEvent::Status(200)), quiet(AgentAction::Done));
    assert_eq!(factsheet.external_urls, Some(texts(&["https://ok.example", "café"])));
}

#[test]
fn empty_list_in_the_text_finishes_without_a_probe() {
    let mut factsheet = sheet();
    let mut agent = AgentSolutionArchitect::new();
    agent.execute(&mut factsheet, AgentEvent::Start);
    agent.execute(&mut factsheet, AgentEvent::Scope(scope(true)));
    assert_eq!(
        agent.execute(&mut factsheet, AgentEvent::Text("[]".to_string())),
        quiet(AgentAction::Done)
    );
    assert_eq!(factsheet.external_urls, Some(vec![]));
}

#[test]
fn text_that_is_no_list_of_strings_ends_the_run() {
    for answer in [
        "",
        "https://ok.example",
        "[\"https://ok.example\"",
        "{\"urls\": [\"https://ok.example\"]}",
        "[1, 2]",
        "[\"a\", null]",
        "[\"a\"] trailing",
        "\"a\"",
    ] {
        let mut factsheet = sheet();
        let mut agent = AgentSolutionArchitect::new();
        agent.execute(&mut factsheet, AgentEvent::Start);
        agent.execute(&mut factsheet, AgentEvent::Scope(scope(true)));
        let abort = quiet(AgentAction::Abort { error: ExecutionError::MalformedResponse });
        assert_eq!(
            agent.execute(&mut factsheet, AgentEvent::Text(answer.to_string())),
            abort,
            "{:?}",
            answer
        );
        assert_eq!(factsheet.external_urls, None);
        assert_eq!(agent.execute(&mut factsheet, AgentEvent::Status(200)), abort);
    }
}

#[test]
fn validation_drops_the_url_whose_probe_failed() {
    let mut factsheet = sheet();
    let (mut agent, _) = architect_with_urls(&mut factsheet, &["a", "b", "c"]);
    agent.execute(&mut factsheet, AgentEvent::ProbeFailed("timed out".to_string()));
    agent.execute(&mut factsheet, AgentEvent::Status(STATUS_OK));
    assert_eq!(agent.execute(&mut factsheet, AgentEvent::Status(200)), quiet(AgentAction::Done));
    assert_eq!(factsheet.external_urls, Some(texts(&["b", "c"])));
}

#[test]
fn validation_keeps_the_order_of_the_urls_that_stay() {
    let mut factsheet = sheet();
    let (mut agent, _) = architect_with_urls(&mut factsheet, &["d", "a", "c", "b", "e"]);
    for status in [200, 301, 200, 200, 503] {
        agent.execute(&mut factsheet, AgentEvent::Status(status));
    }
    assert_eq!(factsheet.external_urls, Some(texts(&["d", "c", "b"])));
}

#[test]
fn validation_keeps_everything_when_every_url_is_alive() {
    let mut factsheet = sheet();
    let (mut agent, _) = architect_with_urls(&mut factsheet, &["a", "b"]);
    agent.execute(&mut factsheet, AgentEvent::Status(200));
    assert_eq!(agent.execute(&mut factsheet, AgentEvent::Status(200)), quiet(AgentAction::Done));
    assert_eq!(factsheet.external_urls, Some(texts(&["a", "b"])));
}

#[test]
fn url_that_failed_once_is_dropped_wherever_it_stands() {
    let mut factsheet = sheet();
    let (mut agent, _) = architect_with_urls(&mut factsheet, &["a", "b", "a"]);
    agent.execute(&mut factsheet, AgentEvent::Status(200));
    agent.execute(&mut factsheet, AgentEvent::Status(200));
    agent.execute(&mut factsheet, AgentEvent::Status(500));
    assert_eq!(factsheet.external_urls, Some(texts(&["b"])));
}

#[test]
fn empty_list_of_urls_finishes_without_a_probe() {
    let mut factsheet = sheet();
    let (agent, step) = architect_with_urls(&mut factsheet, &[]);
    assert_eq!(step, quiet(AgentAction::Done));
    assert_eq!(factsheet.external_urls, Some(vec![]));
    assert_eq!(agent.get_attributes_from_agent().state, AgentState::Finished);
}

#[test]
fn finished_architect_does_not_write_the_scope_again() {
    let mut factsheet = sheet();
    let mut agent = AgentSolutionArchitect::new();
    agent.execute(&mut factsheet, AgentEvent::Start);
    agent.execute(&mut factsheet, AgentEvent::Scope(scope(false)));
    assert_eq!(
        agent.execute(&mut factsheet, AgentEvent::Scope(scope(true))),
        quiet(AgentAction::Done)
    );
    assert_eq!(agent.execute(&mut factsheet, AgentEvent::Start), quiet(AgentAction::Done));
    assert_eq!(factsheet.project_scope, Some(scope(false)));
}

#[test]
fn architect_leaves_the_fields_of_the_backend_developer_alone() {
    let mut factsheet = sheet();
    factsheet.backend_code = Some("code".to_string());
    factsheet.api_endpoint_schema = Some(vec![]);
    let (mut agent, _) = architect_with_urls(&mut factsheet, &["a"]);
    agent.execute(&mut factsheet, AgentEvent::Status(404));
    assert_eq!(factsheet.backend_code, Some("code".to_string()));
    assert_eq!(factsheet.api_endpoint_schema, Some(vec![]));
    assert_eq!(factsheet.project_description, DESCRIPTION);
    assert_eq!(factsheet.external_urls, Some(vec![]));
}

#[test]
fn structured_request_that_fails_is_not_retried() {
    let mut factsheet = sheet();
    let mut agent = AgentSolutionArchitect::new();
    agent.execute(&mut factsheet, AgentEvent::Start);
    let abort = quiet(AgentAction::Abort { error: ExecutionError::MalformedResponse });
    assert_eq!(agent.execute(&mut factsheet, AgentEvent::Failed), abort);
    assert_eq!(agent.execute(&mut factsheet, AgentEvent::Scope(scope(true))), abort);
    assert_eq!(factsheet.project_scope, None);
    assert_eq!(agent.get_attributes_from_agent().state, AgentState::Discovery);

    let mut agent = AgentSolutionArchitect::new();
    agent.execute(&mut factsheet, AgentEvent::Start);
    agent.execute(&mut factsheet, AgentEvent::Scope(scope(true)));
    assert_eq!(agent.execute(&mut factsheet, AgentEvent::Failed), abort);
    assert_eq!(factsheet.external_urls, None);
}

#[test]
fn architect_gives_up_on_an_event_it_did_not_ask_for() {
    let mut factsheet = sheet();
    let abort = quiet(AgentAction::Abort { error: ExecutionError::UnexpectedEvent });
    let mut agent = AgentSolutionArchitect::new();
    assert_eq!(agent.execute(&mut factsheet, AgentEvent::Scope(scope(true))), abort);
    assert_eq!(factsheet.project_scope, None);

    let (mut agent, _) = architect_with_urls(&mut factsheet, &["a"]);
    assert_eq!(agent.execute(&mut factsheet, AgentEvent::Completed), abort);
    assert_eq!(factsheet.external_urls, Some(texts(&["a"])));

    let (mut agent, _) = architect_with_urls(&mut factsheet, &["a"]);
    assert_eq!(
        agent.execute(&mut factsheet, AgentEvent::Failed),
        quiet(AgentAction::Abort { error: ExecutionError::Io })
    );
}

#[test]
fn retain_valid_urls_drops_the_excluded_ones_only() {
    let urls = texts(&["a", "b", "c", "b"]);
    assert_eq!(retain_valid_urls(&urls, &texts(&["b"])), texts(&["a", "c"]));
    assert_eq!(retain_valid_urls(&urls, &texts(&[])), urls);
    assert_eq!(retain_valid_urls(&urls, &texts(&["x"])), urls);
    assert_eq!(retain_valid_urls(&urls, &texts(&["c", "a", "b"])), texts(&[]));
    assert_eq!(retain_valid_urls(&texts(&[]), &texts(&["a"])), texts(&[]));
}

#[test]
fn contains_text_compares_whole_strings() {
    let list = texts(&["https://a.example", "b"]);
    assert!(contains_text(&list, &"b".to_string()));
    assert!(contains_text(&list, &"https://a.example".to_string()));
    assert!(!contains_text(&list, &"https://a.example/".to_string()));
    assert!(!contains_text(&list, &"".to_string()));
    assert!(!contains_text(&vec![], &"b".to_string()));
}
