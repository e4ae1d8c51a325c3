use crate::models::agents::agent_traits::{ProjectScope, RouteObject, RouteObjectView};
use vstd::prelude::*;

verus! {

/// Why an agent gave up. Every such condition ends the whole pipeline.
#[derive(Debug, Clone, Copy, PartialEq, Eq, Structural)]
pub enum ExecutionError {
    /// The operator declined to run the generated code.
    Declined,
    /// The build failed more often than the retry budget allows.
    TooManyBugs,
    /// The completion service did not answer a request for text.
    LlmUnavailable,
    /// A structured result could not be obtained or decoded.
    MalformedResponse,
    /// Reading, writing, building or a process operation failed.
    Io,
    /// The driver handed back an event that answers no pending action.
    UnexpectedEvent,
}

/// The prompt functions whose text shapes what the completion service is
/// asked to produce. The texts themselves are supplied by the caller.
#[derive(Debug, Clone, Copy, PartialEq, Eq, Structural)]
pub enum AiFunction {
    ConvertUserInputToGoal,
    PrintProjectScope,
    PrintSiteUrls,
    PrintBackendWebserverCode,
    PrintImprovedWebserverCode,
    PrintFixedCode,
    PrintRestApiEndpoints,
}

impl AiFunction {
    /// The name of the prompt function.
    pub open spec fn name_text(self) -> Seq<char> {
        match self {
            AiFunction::ConvertUserInputToGoal => "convert_user_input_to_goal"@,
            AiFunction::PrintProjectScope => "print_project_scope"@,
            AiFunction::PrintSiteUrls => "print_site_urls"@,
            AiFunction::PrintBackendWebserverCode => "print_backend_webserver_code"@,
            AiFunction::PrintImprovedWebserverCode => "print_improved_webserver_code"@,
            AiFunction::PrintFixedCode => "print_fixed_code"@,
            AiFunction::PrintRestApiEndpoints => "print_rest_api_endpoints"@,
        }
    }

    /// The name of the prompt function, under which a request is announced.
    pub fn name(&self) -> (name: &'static str)
        ensures
            name@ == self.name_text(),
    {
        match self {
            AiFunction::ConvertUserInputToGoal => "convert_user_input_to_goal",
            AiFunction::PrintProjectScope => "print_project_scope",
            AiFunction::PrintSiteUrls => "print_site_urls",
            AiFunction::PrintBackendWebserverCode => "print_backend_webserver_code",
            AiFunction::PrintImprovedWebserverCode => "print_improved_webserver_code",
            AiFunction::PrintFixedCode => "print_fixed_code",
            AiFunction::PrintRestApiEndpoints => "print_rest_api_endpoints",
        }
    }
}

/// How many seconds a probe waits for a response before it counts as failed.
pub const PROBE_TIMEOUT_SECONDS: u64 = 5;

/// The status code with which what was probed shows that it is alive.
pub const STATUS_OK: u16 = 200;

/// The outside work an agent asks its driver to perform next.
#[derive(Debug, PartialEq)]
pub enum AgentAction {
    /// Ask the completion service for plain text; a failed attempt is retried
    /// once before the action counts as failed.
    RequestText { function: AiFunction, context: String },
    /// Ask the completion service for a structured result and decode it; a
    /// failed attempt or a result that cannot be decoded is final.
    RequestDecoded { function: AiFunction, context: String },
    /// Ask the completion service for a list of strings and hand back its
    /// text, which the agent decodes; a failed attempt is final.
    RequestList { function: AiFunction, context: String },
    /// Issue an HTTP GET that waits no longer than the timeout, and report
    /// the status.
    ProbeUrl { url: String, timeout_seconds: u64 },
    /// Read the fixed code template.
    ReadCodeTemplate,
    /// Read the current main source of the generated project.
    ReadMainSource,
    /// Write the generated source to the main source location.
    SaveBackendCode { code: String },
    /// Write the endpoint schema text to the schema location.
    SaveApiEndpoints { schema: String },
    /// Decode the endpoint schema text into route objects.
    DecodeEndpoints { text: String },
    /// Ask the operator whether the generated code may be executed.
    ConfirmSafeCode,
    /// Build the generated project.
    BuildProject,
    /// Launch the built server as a background process.
    LaunchServer,
    /// Wait before probing the server that was just launched.
    Settle { seconds: u64 },
    /// Terminate the running server process.
    KillServer,
    /// The agent has finished; nothing is left to do.
    Done,
    /// The agent gave up; the pipeline must stop.
    Abort { error: ExecutionError },
}

/// An [`AgentAction`] as plain values.
pub enum AgentActionView {
    RequestText { function: AiFunction, context: Seq<char> },
    RequestDecoded { function: AiFunction, context: Seq<char> },
    RequestList { function: AiFunction, context: Seq<char> },
    ProbeUrl { url: Seq<char>, timeout_seconds: u64 },
    ReadCodeTemplate,
    ReadMainSource,
    SaveBackendCode { code: Seq<char> },
    SaveApiEndpoints { schema: Seq<char> },
    DecodeEndpoints { text: Seq<char> },
    ConfirmSafeCode,
    BuildProject,
    LaunchServer,
    Settle { seconds: u64 },
    KillServer,
    Done,
    Abort { error: ExecutionError },
}

impl DeepView for AgentAction {
    type V = AgentActionView;

    open spec fn deep_view(&self) -> AgentActionView {
        match self {
            AgentAction::RequestText { function, context } => AgentActionView::RequestText {
                function: *function,
                context: context@,
            },
            AgentAction::RequestDecoded { function, context } => AgentActionView::RequestDecoded {
                function: *function,
                context: context@,
            },
            AgentAction::RequestList { function, context } => AgentActionView::RequestList {
                function: *function,
                context: context@,
            },
            AgentAction::ProbeUrl { url, timeout_seconds } => AgentActionView::ProbeUrl {
                url: url@,
                timeout_seconds: *timeout_seconds,
            },
            AgentAction::ReadCodeTemplate => AgentActionView::ReadCodeTemplate,
            AgentAction::ReadMainSource => AgentActionView::ReadMainSource,
            AgentAction::SaveBackendCode { code } => AgentActionView::SaveBackendCode {
                code: code@,
            },
            AgentAction::SaveApiEndpoints { schema } => AgentActionView::SaveApiEndpoints {
                schema: schema@,
            },
            AgentAction::DecodeEndpoints { text } => AgentActionView::DecodeEndpoints {
                text: text@,
            },
            AgentAction::ConfirmSafeCode => AgentActionView::ConfirmSafeCode,
            AgentAction::BuildProject => AgentActionView::BuildProject,
            AgentAction::LaunchServer => AgentActionView::LaunchServer,
            AgentAction::Settle { seconds } => AgentActionView::Settle { seconds: *seconds },
            AgentAction::KillServer => AgentActionView::KillServer,
            AgentAction::Done => AgentActionView::Done,
            AgentAction::Abort { error } => AgentActionView::Abort { error: *error },
        }
    }
}

impl View for AgentAction {
    type V = AgentActionView;

    open spec fn view(&self) -> AgentActionView {
        self.deep_view()
    }
}

impl AgentActionView {
    /// Whether the action ends the agent's run.
    pub open spec fn is_terminal(self) -> bool {
        self is Done || self is Abort
    }
}

/// What came back from the outside work an agent asked for.
#[derive(Debug, PartialEq)]
pub enum AgentEvent {
    /// Nothing was asked yet: the agent is to begin or to go on.
    Start,
    /// The text that was asked for: a completion or a file's content.
    Text(String),
    /// The decoded project scope.
    Scope(ProjectScope),
    /// The list of candidate URLs, decoded already.
    Urls(Vec<String>),
    /// The decoded endpoint schema.
    Endpoints(Vec<RouteObject>),
    /// The status code a probe returned.
    Status(u16),
    /// The probe got no response; the text says why.
    ProbeFailed(String),
    /// The operator's answer to the safety confirmation.
    Confirmed(bool),
    /// The build ended; `errors` is its diagnostic output.
    Built { success: bool, errors: String },
    /// The action was performed and has nothing to report.
    Completed,
    /// The action could not be performed.
    Failed,
}

/// An [`AgentEvent`] as plain values.
pub enum AgentEventView {
    Start,
    Text(Seq<char>),
    Scope(ProjectScope),
    Urls(Seq<Seq<char>>),
    Endpoints(Seq<RouteObjectView>),
    Status(u16),
    ProbeFailed(Seq<char>),
    Confirmed(bool),
    Built { success: bool, errors: Seq<char> },
    Completed,
    Failed,
}

impl DeepView for AgentEvent {
    type V = AgentEventView;

    open spec fn deep_view(&self) -> AgentEventView {
        match self {
            AgentEvent::Start => AgentEventView::Start,
            AgentEvent::Text(text) => AgentEventView::Text(text@),
            AgentEvent::Scope(scope) => AgentEventView::Scope(*scope),
            AgentEvent::Urls(urls) => AgentEventView::Urls(urls.deep_view()),
            AgentEvent::Endpoints(routes) => AgentEventView::Endpoints(routes.deep_view()),
            AgentEvent::Status(code) => AgentEventView::Status(*code),
            AgentEvent::ProbeFailed(reason) => AgentEventView::ProbeFailed(reason@),
            AgentEvent::Confirmed(answer) => AgentEventView::Confirmed(*answer),
            AgentEvent::Built { success, errors } => AgentEventView::Built {
                success: *success,
                errors: errors@,
            },
            AgentEvent::Completed => AgentEventView::Completed,
            AgentEvent::Failed => AgentEventView::Failed,
        }
    }
}

impl View for AgentEvent {
    type V = AgentEventView;

    open spec fn view(&self) -> AgentEventView {
        self.deep_view()
    }
}

/// What one call of an agent's `execute` hands to the driver: a warning to
/// report, if there is one, and the next action.
#[derive(Debug, PartialEq)]
pub struct AgentStep {
    pub issue: Option<String>,
    pub action: AgentAction,
}

/// An [`AgentStep`] as plain values.
pub struct AgentStepView {
    pub issue: Option<Seq<char>>,
    pub action: AgentActionView,
}

impl DeepView for AgentStep {
    type V = AgentStepView;

    open spec fn deep_view(&self) -> AgentStepView {
        AgentStepView { issue: self.issue.deep_view(), action: self.action@ }
    }
}

impl View for AgentStep {
    type V = AgentStepView;

    open spec fn view(&self) -> AgentStepView {
        self.deep_view()
    }
}

impl AgentStepView {
    /// A step that reports nothing and asks for `action`.
    pub open spec fn quiet(action: AgentActionView) -> AgentStepView {
        AgentStepView { issue: None, action }
    }
}

} // verus!
