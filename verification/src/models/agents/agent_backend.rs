use crate::models::agent_basic::basic_agent::{AgentState, BasicAgent, BasicAgentView};
use crate::models::agents::agent_protocol::{
    AgentAction, AgentActionView, AgentEvent, AgentEventView, AgentStep, AgentStepView, AiFunction,
    ExecutionError, PROBE_TIMEOUT_SECONDS, STATUS_OK,
};
use crate::models::agents::agent_traits::{
    FactSheet, FactSheetView, RouteObject, RouteObjectView, SpecialFunctions,
};
use crate::models::agents::backend_prompts::{
    connection_warning, endpoint_warning, fixed_code_context, fixed_code_text,
    improved_code_context, improved_code_text, initial_code_context, initial_code_text,
    probe_address, rest_api_schema_context, rest_api_schema_text, too_many_bugs_warning,
};
use crate::models::agents::endpoint_schema::{filter_endpoints, static_get_endpoints};
use vstd::prelude::*;
use vstd::string::*;

verus! {

/// How many seconds a launched server is given before it is probed.
pub const SETTLE_SECONDS: u64 = 5;

/// How many failed builds the agent answers with another rewrite; the next
/// failure ends the run.
pub const MAX_FIX_ATTEMPTS: u8 = 2;

/// What the backend developer is waiting for.
#[derive(Debug, Clone, Copy, PartialEq, Eq, Structural)]
pub enum BackendStage {
    /// Nothing was asked yet.
    Idle,
    /// The code template was asked for.
    AwaitingTemplate,
    /// The first version of the code was asked for.
    AwaitingInitialCode,
    /// The first version of the code is being saved.
    AwaitingInitialSave,
    /// An improved or fixed version of the code was asked for.
    AwaitingRewrite,
    /// The rewritten code is being saved.
    AwaitingRewriteSave,
    /// The operator was asked whether the code may run.
    AwaitingConfirmation,
    /// The project is being built.
    AwaitingBuild,
    /// The main source of the built project was asked for.
    AwaitingMainSource,
    /// The endpoint schema was asked for.
    AwaitingSchemaText,
    /// The endpoint schema is being decoded.
    AwaitingEndpoints,
    /// The server is being launched.
    AwaitingLaunch,
    /// The launched server is given time to settle.
    AwaitingSettle,
    /// An endpoint is being probed.
    AwaitingProbe,
    /// The server was told to stop after a probe got no response.
    AwaitingFailFastKill,
    /// The endpoint schema is being saved.
    AwaitingSchemaSave,
    /// The server was told to stop at the end of the tests.
    AwaitingFinalKill,
    /// The server was told to stop before the agent gives up with `error`.
    AwaitingAbortKill { error: ExecutionError },
    /// The agent finished its work.
    Done,
    /// The agent gave up with `error`.
    Failed { error: ExecutionError },
}

impl BackendStage {
    /// The lifecycle phase that a stage belongs to. The stages of giving up
    /// belong to none: the agent stays in the phase in which it gave up.
    pub open spec fn phase(self) -> Option<AgentState> {
        match self {
            BackendStage::Idle
            | BackendStage::AwaitingTemplate
            | BackendStage::AwaitingInitialCode
            | BackendStage::AwaitingInitialSave => Some(AgentState::Discovery),
            BackendStage::AwaitingRewrite | BackendStage::AwaitingRewriteSave => Some(
                AgentState::Working,
            ),
            BackendStage::AwaitingAbortKill { .. } | BackendStage::Failed { .. } => None,
            BackendStage::Done => Some(AgentState::Finished),
            _ => Some(AgentState::UnitTesting),
        }
    }

    /// What it means at a stage that the pending action could not be
    /// performed.
    pub open spec fn failure(self) -> ExecutionError {
        match self {
            BackendStage::AwaitingInitialCode
            | BackendStage::AwaitingRewrite
            | BackendStage::AwaitingSchemaText => ExecutionError::LlmUnavailable,
            BackendStage::AwaitingEndpoints => ExecutionError::MalformedResponse,
            _ => ExecutionError::Io,
        }
    }

    /// How far a stage is from the end of a pass: every stage has a higher
    /// rank than the stages that can follow it in the same pass.
    pub open spec fn rank(self) -> nat {
        match self {
            BackendStage::Idle => 19,
            BackendStage::AwaitingTemplate => 18,
            BackendStage::AwaitingInitialCode => 17,
            BackendStage::AwaitingInitialSave => 16,
            BackendStage::AwaitingRewrite => 15,
            BackendStage::AwaitingRewriteSave => 14,
            BackendStage::AwaitingConfirmation => 13,
            BackendStage::AwaitingBuild => 12,
            BackendStage::AwaitingMainSource => 11,
            BackendStage::AwaitingSchemaText => 10,
            BackendStage::AwaitingEndpoints => 9,
            BackendStage::AwaitingLaunch => 8,
            BackendStage::AwaitingSettle => 7,
            BackendStage::AwaitingProbe => 6,
            BackendStage::AwaitingFailFastKill => 5,
            BackendStage::AwaitingSchemaSave => 4,
            BackendStage::AwaitingFinalKill => 3,
            BackendStage::AwaitingAbortKill { .. } => 2,
            BackendStage::Done => 0,
            BackendStage::Failed { .. } => 0,
        }
    }

    /// Whether the agent has finished or given up.
    pub open spec fn is_terminal(self) -> bool {
        self is Done || self is Failed
    }

    /// Whether the launched server is alive at this stage.
    pub open spec fn has_server(self) -> bool {
        self is AwaitingLaunch || self is AwaitingSettle || self is AwaitingProbe
            || self is AwaitingSchemaSave
    }
}

/// The backend developer as plain values.
pub struct BackendView {
    pub attributes: BasicAgentView,
    /// The diagnostics of the last failed build.
    pub bug_errors: Option<Seq<char>>,
    /// How many builds failed since the last one that succeeded.
    pub bug_count: nat,
    pub stage: BackendStage,
    /// Whether a server was launched and not yet told to stop.
    pub server_running: bool,
    /// The endpoint schema as the completion service wrote it.
    pub schema_text: Seq<char>,
    /// The routes to probe, and how many of them are done.
    pub probe_routes: Seq<Seq<char>>,
    pub probe_index: nat,
}

impl BackendView {
    /// The agent as [`AgentBackendDev::new`] makes it.
    pub open spec fn fresh() -> BackendView {
        BackendView {
            attributes: BasicAgentView {
                objective: "Develop backend for the website"@,
                position: "Backend Developer"@,
                state: AgentState::Discovery,
                memory: Seq::empty(),
            },
            bug_errors: None,
            bug_count: 0,
            stage: BackendStage::Idle,
            server_running: false,
            schema_text: Seq::empty(),
            probe_routes: Seq::empty(),
            probe_index: 0,
        }
    }

    /// The agent moved to `stage`, and to the phase that `stage` belongs to.
    pub open spec fn at_stage(self, stage: BackendStage) -> BackendView {
        BackendView {
            stage,
            attributes: BasicAgentView {
                state: match stage.phase() {
                    Some(phase) => phase,
                    None => self.attributes.state,
                },
                ..self.attributes
            },
            ..self
        }
    }

    /// Giving up with `error`: a running server is told to stop first.
    pub open spec fn fail(self, sheet: FactSheetView, error: ExecutionError, issue: Option<Seq<char>>) -> (
        BackendView,
        FactSheetView,
        AgentStepView,
    ) {
        if self.server_running {
            (
                BackendView { server_running: false, ..self }.at_stage(
                    BackendStage::AwaitingAbortKill { error },
                ),
                sheet,
                AgentStepView { issue, action: AgentActionView::KillServer },
            )
        } else {
            (
                self.at_stage(BackendStage::Failed { error }),
                sheet,
                AgentStepView { issue, action: AgentActionView::Abort { error } },
            )
        }
    }

    /// Giving up on an event that is not the answer the stage waits for.
    pub open spec fn give_up(self, sheet: FactSheetView, event: AgentEventView) -> (
        BackendView,
        FactSheetView,
        AgentStepView,
    ) {
        if event is Failed {
            self.fail(sheet, self.stage.failure(), None)
        } else {
            self.fail(sheet, ExecutionError::UnexpectedEvent, None)
        }
    }

    /// Asking for a rewrite of the code: an improvement while no build has
    /// failed, a bug fix after a failed build.
    pub open spec fn request_rewrite(self, sheet: FactSheetView) -> (
        BackendView,
        FactSheetView,
        AgentStepView,
    ) {
        (
            self.at_stage(BackendStage::AwaitingRewrite),
            sheet,
            AgentStepView::quiet(
                if self.bug_count == 0 {
                    AgentActionView::RequestText {
                        function: AiFunction::PrintImprovedWebserverCode,
                        context: improved_code_text(sheet),
                    }
                } else {
                    AgentActionView::RequestText {
                        function: AiFunction::PrintFixedCode,
                        context: fixed_code_text(sheet.backend_code, self.bug_errors),
                    }
                },
            ),
        )
    }

    /// Storing freshly generated code and asking to have it saved.
    pub open spec fn accept_code(self, sheet: FactSheetView, code: Seq<char>, next: BackendStage) -> (
        BackendView,
        FactSheetView,
        AgentStepView,
    ) {
        (
            self.at_stage(next),
            FactSheetView { backend_code: Some(code), ..sheet },
            AgentStepView::quiet(AgentActionView::SaveBackendCode { code }),
        )
    }

    /// Probing the next route, or saving the schema when none is left.
    pub open spec fn next_probe(self, sheet: FactSheetView, issue: Option<Seq<char>>) -> (
        BackendView,
        FactSheetView,
        AgentStepView,
    ) {
        if self.probe_index < self.probe_routes.len() {
            (
                self.at_stage(BackendStage::AwaitingProbe),
                sheet,
                AgentStepView {
                    issue,
                    action: AgentActionView::ProbeUrl {
                        url: probe_address(self.probe_routes[self.probe_index as int]),
                        timeout_seconds: PROBE_TIMEOUT_SECONDS,
                    },
                },
            )
        } else {
            (
                self.at_stage(BackendStage::AwaitingSchemaSave),
                sheet,
                AgentStepView {
                    issue,
                    action: AgentActionView::SaveApiEndpoints { schema: self.schema_text },
                },
            )
        }
    }

    /// The answer to a build result.
    pub open spec fn after_build(self, sheet: FactSheetView, success: bool, errors: Seq<char>) -> (
        BackendView,
        FactSheetView,
        AgentStepView,
    ) {
        if success {
            (
                BackendView { bug_count: 0, ..self }.at_stage(BackendStage::AwaitingMainSource),
                sheet,
                AgentStepView::quiet(AgentActionView::ReadMainSource),
            )
        } else {
            let failed = BackendView {
                bug_count: self.bug_count + 1,
                bug_errors: Some(errors),
                ..self
            };
            if failed.bug_count > MAX_FIX_ATTEMPTS {
                failed.fail(sheet, ExecutionError::TooManyBugs, Some(too_many_bugs_warning()))
            } else {
                failed.request_rewrite(sheet)
            }
        }
    }

    /// The answer to a decoded endpoint schema: the endpoints that can be
    /// probed go to the fact sheet, and the server is launched.
    pub open spec fn after_endpoints(self, sheet: FactSheetView, raw: Seq<RouteObjectView>) -> (
        BackendView,
        FactSheetView,
        AgentStepView,
    ) {
        let kept = static_get_endpoints(raw);
        (
            BackendView {
                probe_routes: kept.map_values(|route: RouteObjectView| route.route),
                probe_index: 0,
                server_running: true,
                ..self
            }.at_stage(BackendStage::AwaitingLaunch),
            FactSheetView { api_endpoint_schema: Some(kept), ..sheet },
            AgentStepView::quiet(AgentActionView::LaunchServer),
        )
    }

    /// The answer to a probe result.
    pub open spec fn after_probe(self, sheet: FactSheetView, event: AgentEventView) -> (
        BackendView,
        FactSheetView,
        AgentStepView,
    ) {
        match event {
            AgentEventView::Status(code) => {
                let advanced = BackendView { probe_index: self.probe_index + 1, ..self };
                if code == STATUS_OK {
                    advanced.next_probe(sheet, None)
                } else {
                    advanced.next_probe(
                        sheet,
                        Some(endpoint_warning(self.probe_routes[self.probe_index as int])),
                    )
                }
            },
            AgentEventView::ProbeFailed(reason) => (
                BackendView { server_running: false, ..self }.at_stage(
                    BackendStage::AwaitingFailFastKill,
                ),
                sheet,
                AgentStepView {
                    issue: Some(connection_warning(reason)),
                    action: AgentActionView::KillServer,
                },
            ),
            _ => self.give_up(sheet, event),
        }
    }

    /// The transition of the backend developer: what one event does to the
    /// agent and the fact sheet, and which step is handed to the driver.
    pub open spec fn step(self, sheet: FactSheetView, event: AgentEventView) -> (
        BackendView,
        FactSheetView,
        AgentStepView,
    ) {
        match self.stage {
            BackendStage::Failed { error } => (
                self,
                sheet,
                AgentStepView::quiet(AgentActionView::Abort { error }),
            ),
            BackendStage::Done => (self, sheet, AgentStepView::quiet(AgentActionView::Done)),
            BackendStage::AwaitingAbortKill { error } => (
                self.at_stage(BackendStage::Failed { error }),
                sheet,
                AgentStepView::quiet(AgentActionView::Abort { error }),
            ),
            BackendStage::Idle => match event {
                AgentEventView::Start => (
                    self.at_stage(BackendStage::AwaitingTemplate),
                    sheet,
                    AgentStepView::quiet(AgentActionView::ReadCodeTemplate),
                ),
                _ => self.give_up(sheet, event),
            },
            BackendStage::AwaitingTemplate => match event {
                AgentEventView::Text(template) => (
                    self.at_stage(BackendStage::AwaitingInitialCode),
                    sheet,
                    AgentStepView::quiet(
                        AgentActionView::RequestText {
                            function: AiFunction::PrintBackendWebserverCode,
                            context: initial_code_text(
                                template,
                                sheet.project_description,
                                sheet.external_urls,
                            ),
                        },
                    ),
                ),
                _ => self.give_up(sheet, event),
            },
            BackendStage::AwaitingInitialCode => match event {
                AgentEventView::Text(code) => self.accept_code(
                    sheet,
                    code,
                    BackendStage::AwaitingInitialSave,
                ),
                _ => self.give_up(sheet, event),
            },
            BackendStage::AwaitingInitialSave => match event {
                AgentEventView::Completed => self.request_rewrite(sheet),
                _ => self.give_up(sheet, event),
            },
            BackendStage::AwaitingRewrite => match event {
                AgentEventView::Text(code) => self.accept_code(
                    sheet,
                    code,
                    BackendStage::AwaitingRewriteSave,
                ),
                _ => self.give_up(sheet, event),
            },
            BackendStage::AwaitingRewriteSave => match event {
                AgentEventView::Completed => (
                    self.at_stage(BackendStage::AwaitingConfirmation),
                    sheet,
                    AgentStepView::quiet(AgentActionView::ConfirmSafeCode),
                ),
                _ => self.give_up(sheet, event),
            },
            BackendStage::AwaitingConfirmation => match event {
                AgentEventView::Confirmed(answer) => if answer {
                    (
                        self.at_stage(BackendStage::AwaitingBuild),
                        sheet,
                        AgentStepView::quiet(AgentActionView::BuildProject),
                    )
                } else {
                    self.fail(sheet, ExecutionError::Declined, None)
                },
                _ => self.give_up(sheet, event),
            },
            BackendStage::AwaitingBuild => match event {
                AgentEventView::Built { success, errors } => self.after_build(
                    sheet,
                    success,
                    errors,
                ),
                _ => self.give_up(sheet, event),
            },
            BackendStage::AwaitingMainSource => match event {
                AgentEventView::Text(source) => (
                    self.at_stage(BackendStage::AwaitingSchemaText),
                    sheet,
                    AgentStepView::quiet(
                        AgentActionView::RequestText {
                            function: AiFunction::PrintRestApiEndpoints,
                            context: rest_api_schema_text(source),
                        },
                    ),
                ),
                _ => self.give_up(sheet, event),
            },
            BackendStage::AwaitingSchemaText => match event {
                AgentEventView::Text(text) => (
                    BackendView { schema_text: text, ..self }.at_stage(
                        BackendStage::AwaitingEndpoints,
                    ),
                    sheet,
                    AgentStepView::quiet(AgentActionView::DecodeEndpoints { text }),
                ),
                _ => self.give_up(sheet, event),
            },
            BackendStage::AwaitingEndpoints => match event {
                AgentEventView::Endpoints(raw) => self.after_endpoints(sheet, raw),
                _ => self.give_up(sheet, event),
            },
            BackendStage::AwaitingLaunch => match event {
                AgentEventView::Completed => (
                    self.at_stage(BackendStage::AwaitingSettle),
                    sheet,
                    AgentStepView::quiet(AgentActionView::Settle { seconds: SETTLE_SECONDS }),
                ),
                AgentEventView::Failed => BackendView { server_running: false, ..self }.fail(
                    sheet,
                    ExecutionError::Io,
                    None,
                ),
                _ => self.give_up(sheet, event),
            },
            BackendStage::AwaitingSettle => match event {
                AgentEventView::Completed => self.next_probe(sheet, None),
                _ => self.give_up(sheet, event),
            },
            BackendStage::AwaitingProbe => self.after_probe(sheet, event),
            BackendStage::AwaitingFailFastKill => match event {
                AgentEventView::Completed => (
                    self.at_stage(BackendStage::AwaitingSchemaSave),
                    sheet,
                    AgentStepView::quiet(
                        AgentActionView::SaveApiEndpoints { schema: self.schema_text },
                    ),
                ),
                _ => self.give_up(sheet, event),
            },
            BackendStage::AwaitingSchemaSave => match event {
                AgentEventView::Completed => if self.server_running {
                    (
                        BackendView { server_running: false, ..self }.at_stage(
                            BackendStage::AwaitingFinalKill,
                        ),
                        sheet,
                        AgentStepView::quiet(AgentActionView::KillServer),
                    )
                } else {
                    (
                        self.at_stage(BackendStage::Done),
                        sheet,
                        AgentStepView::quiet(AgentActionView::Done),
                    )
                },
                _ => self.give_up(sheet, event),
            },
            BackendStage::AwaitingFinalKill => match event {
                AgentEventView::Completed => (
                    self.at_stage(BackendStage::Done),
                    sheet,
                    AgentStepView::quiet(AgentActionView::Done),
                ),
                _ => self.give_up(sheet, event),
            },
        }
    }
}

impl BackendView {
    /// What holds of the agent in every state it can reach from
    /// [`BackendView::fresh`]: the phase is that of the stage, the counter of
    /// failed builds passes the budget only when the agent has given up on
    /// it, a probe is awaited only for a route, and a server runs exactly
    /// from its launch to the action that stops it.
    pub open spec fn wf(self) -> bool {
        &&& match self.stage.phase() {
            Some(phase) => self.attributes.state == phase,
            None => true,
        }
        &&& self.bug_count <= MAX_FIX_ATTEMPTS + 1
        &&& (self.bug_count > MAX_FIX_ATTEMPTS ==> self.stage == BackendStage::Failed {
            error: ExecutionError::TooManyBugs,
        })
        &&& self.stage != (BackendStage::AwaitingAbortKill { error: ExecutionError::TooManyBugs })
        &&& self.probe_index <= self.probe_routes.len()
        &&& (self.stage is AwaitingProbe ==> self.probe_index < self.probe_routes.len())
        &&& (self.server_running ==> self.stage.has_server())
        &&& (self.stage.has_server() && !(self.stage is AwaitingSchemaSave)
            ==> self.server_running)
    }

    /// The agent and the fact sheet after the events of `events`, handed in
    /// one by one.
    pub open spec fn run(self, sheet: FactSheetView, events: Seq<AgentEventView>) -> (
        BackendView,
        FactSheetView,
    )
        decreases events.len(),
    {
        if events.len() == 0 {
            (self, sheet)
        } else {
            let (next, next_sheet, _) = self.step(sheet, events[0]);
            next.run(next_sheet, events.drop_first())
        }
    }

    /// How many servers the run over `events` asks to launch.
    pub open spec fn launches(self, sheet: FactSheetView, events: Seq<AgentEventView>) -> nat
        decreases events.len(),
    {
        if events.len() == 0 {
            0
        } else {
            let (next, next_sheet, step) = self.step(sheet, events[0]);
            (if step.action is LaunchServer {
                1nat
            } else {
                0nat
            }) + next.launches(next_sheet, events.drop_first())
        }
    }

    /// How many times the run over `events` asks to stop the server.
    pub open spec fn kills(self, sheet: FactSheetView, events: Seq<AgentEventView>) -> nat
        decreases events.len(),
    {
        if events.len() == 0 {
            0
        } else {
            let (next, next_sheet, step) = self.step(sheet, events[0]);
            (if step.action is KillServer {
                1nat
            } else {
                0nat
            }) + next.kills(next_sheet, events.drop_first())
        }
    }

    /// How many launches of the run over `events` were reported as failed, so
    /// that no server came of them.
    pub open spec fn failed_launches(self, sheet: FactSheetView, events: Seq<AgentEventView>) -> nat
        decreases events.len(),
    {
        if events.len() == 0 {
            0
        } else {
            let (next, next_sheet, _) = self.step(sheet, events[0]);
            (if self.stage is AwaitingLaunch && events[0] is Failed {
                1nat
            } else {
                0nat
            }) + next.failed_launches(next_sheet, events.drop_first())
        }
    }

    /// How many builds the agent may still ask for.
    pub open spec fn builds_left(self) -> nat {
        if self.stage.rank() > BackendStage::AwaitingBuild.rank() {
            (MAX_FIX_ATTEMPTS + 1 - self.bug_count) as nat
        } else if self.stage is AwaitingBuild {
            (MAX_FIX_ATTEMPTS - self.bug_count) as nat
        } else {
            0
        }
    }

    /// How many builds may still fail before a build succeeds or the agent
    /// gives up; zero once a build has succeeded.
    pub open spec fn attempts_left(self) -> nat {
        if self.stage.rank() >= BackendStage::AwaitingBuild.rank() {
            (MAX_FIX_ATTEMPTS + 1 - self.bug_count) as nat
        } else {
            0
        }
    }

    /// How many routes are still to be probed.
    pub open spec fn probes_left(self) -> nat {
        (self.probe_routes.len() - self.probe_index) as nat
    }

    /// Whether the step on `event` writes the endpoint schema.
    pub open spec fn writes_schema(self, event: AgentEventView) -> bool {
        self.stage is AwaitingEndpoints && event is Endpoints
    }

    /// Whether the agent may still write the endpoint schema.
    pub open spec fn schema_pending(self) -> bool {
        self.stage.rank() >= BackendStage::AwaitingEndpoints.rank()
    }

    /// How many times the run over `events` writes the endpoint schema.
    pub open spec fn schema_writes(self, sheet: FactSheetView, events: Seq<AgentEventView>) -> nat
        decreases events.len(),
    {
        if events.len() == 0 {
            0
        } else {
            let (next, next_sheet, _) = self.step(sheet, events[0]);
            (if self.writes_schema(events[0]) {
                1nat
            } else {
                0nat
            }) + next.schema_writes(next_sheet, events.drop_first())
        }
    }

    /// How many builds the run over `events` asks for.
    pub open spec fn builds(self, sheet: FactSheetView, events: Seq<AgentEventView>) -> nat
        decreases events.len(),
    {
        if events.len() == 0 {
            0
        } else {
            let (next, next_sheet, step) = self.step(sheet, events[0]);
            (if step.action is BuildProject {
                1nat
            } else {
                0nat
            }) + next.builds(next_sheet, events.drop_first())
        }
    }
}

/// The agent that writes, improves, builds and smoke-tests the backend code.
#[derive(Debug)]
pub struct AgentBackendDev {
    attributes: BasicAgent,
    bug_errors: Option<String>,
    bug_count: u8,
    stage: BackendStage,
    server_running: bool,
    schema_text: String,
    probe_routes: Vec<String>,
    probe_index: usize,
}

impl DeepView for AgentBackendDev {
    type V = BackendView;

    closed spec fn deep_view(&self) -> BackendView {
        BackendView {
            attributes: self.attributes@,
            bug_errors: self.bug_errors.deep_view(),
            bug_count: self.bug_count as nat,
            stage: self.stage,
            server_running: self.server_running,
            schema_text: self.schema_text@,
            probe_routes: self.probe_routes.deep_view(),
            probe_index: self.probe_index as nat,
        }
    }
}

impl View for AgentBackendDev {
    type V = BackendView;

    closed spec fn view(&self) -> BackendView {
        self.deep_view()
    }
}

/// The routes of `endpoints`, in the same order.
fn routes_of(endpoints: &Vec<RouteObject>) -> (routes: Vec<String>)
    ensures
        routes.deep_view() == endpoints.deep_view().map_values(
            |route: RouteObjectView| route.route,
        ),
{
    let ghost wanted = endpoints.deep_view().map_values(|route: RouteObjectView| route.route);
    let mut routes: Vec<String> = Vec::new();
    let mut i: usize = 0;
    while i < endpoints.len()
        invariant
            i <= endpoints.len(),
            wanted == endpoints.deep_view().map_values(|route: RouteObjectView| route.route),
            routes.len() == i,
            forall|k: int| 0 <= k < i ==> (#[trigger] routes[k])@ == wanted[k],
        decreases endpoints.len() - i,
    {
        routes.push(endpoints[i].route.clone());
        i = i + 1;
    }
    proof {
        assert(routes.deep_view() =~= wanted);
    }
    routes
}

/// The phase that `stage` belongs to.
fn phase_of(stage: BackendStage) -> (phase: Option<AgentState>)
    ensures
        phase == stage.phase(),
{
    match stage {
        BackendStage::Idle
        | BackendStage::AwaitingTemplate
        | BackendStage::AwaitingInitialCode
        | BackendStage::AwaitingInitialSave => Some(AgentState::Discovery),
        BackendStage::AwaitingRewrite | BackendStage::AwaitingRewriteSave => Some(
            AgentState::Working,
        ),
        BackendStage::AwaitingAbortKill { .. } | BackendStage::Failed { .. } => None,
        BackendStage::Done => Some(AgentState::Finished),
        _ => Some(AgentState::UnitTesting),
    }
}

/// What a failed action means at `stage`.
fn failure_of(stage: BackendStage) -> (error: ExecutionError)
    ensures
        error == stage.failure(),
{
    match stage {
        BackendStage::AwaitingInitialCode
        | BackendStage::AwaitingRewrite
        | BackendStage::AwaitingSchemaText => ExecutionError::LlmUnavailable,
        BackendStage::AwaitingEndpoints => ExecutionError::MalformedResponse,
        _ => ExecutionError::Io,
    }
}

impl AgentBackendDev {
    /// The counter of failed builds stays within the retry budget while the
    /// agent has not given up, and a probe is awaited only for a route.
    #[verifier::type_invariant]
    spec fn inv(self) -> bool {
        &&& self.bug_count <= MAX_FIX_ATTEMPTS + 1
        &&& (self.stage is Failed || self.stage is AwaitingAbortKill || self.bug_count
            <= MAX_FIX_ATTEMPTS)
        &&& (self.stage is AwaitingProbe ==> self.probe_index < self.probe_routes.len())
    }

    /// A backend developer that has not begun: in `Discovery`, with no failed
    /// build and no server.
    pub fn new() -> (agent: Self)
        ensures
            agent@ == BackendView::fresh(),
    {
        let attributes = BasicAgent::new(
            String::from_str("Develop backend for the website"),
            String::from_str("Backend Developer"),
        );
        let agent = AgentBackendDev {
            attributes,
            bug_errors: None,
            bug_count: 0,
            stage: BackendStage::Idle,
            server_running: false,
            schema_text: String::new(),
            probe_routes: Vec::new(),
            probe_index: 0,
        };
        proof {
            assert(agent.probe_routes.deep_view() =~= Seq::<Seq<char>>::empty());
        }
        agent
    }

    /// How many builds have failed since the last one that succeeded.
    pub fn fix_attempts(&self) -> (attempts: u8)
        ensures
            attempts == self@.bug_count,
    {
        self.bug_count
    }

    /// Moves to `stage`, and to the phase that `stage` belongs to.
    fn enter(&mut self, stage: BackendStage)
        requires
            stage is AwaitingProbe ==> old(self).probe_index < old(self).probe_routes.len(),
            stage is Failed || stage is AwaitingAbortKill || old(self).bug_count
                <= MAX_FIX_ATTEMPTS,
            old(self).bug_count <= MAX_FIX_ATTEMPTS + 1,
        ensures
            final(self)@ == old(self)@.at_stage(stage),
    {
        self.stage = stage;
        match phase_of(stage) {
            Some(phase) => {
                self.attributes.update_state(phase);
            },
            None => {},
        }
    }

    /// Gives up with `error`; a running server is told to stop first.
    fn fail(&mut self, factsheet: &FactSheet, error: ExecutionError, issue: Option<String>) -> (step:
        AgentStep)
        ensures
            (final(self)@, factsheet@, step@) == old(self)@.fail(
                factsheet@,
                error,
                issue.deep_view(),
            ),
    {
        proof {
            use_type_invariant(&*self);
        }
        if self.server_running {
            self.server_running = false;
            self.enter(BackendStage::AwaitingAbortKill { error });
            AgentStep { issue, action: AgentAction::KillServer }
        } else {
            self.enter(BackendStage::Failed { error });
            AgentStep { issue, action: AgentAction::Abort { error } }
        }
    }

    /// Gives up on an event that is not the answer the stage waits for.
    fn give_up(&mut self, factsheet: &FactSheet, event: &AgentEvent) -> (step: AgentStep)
        ensures
            (final(self)@, factsheet@, step@) == old(self)@.give_up(factsheet@, event@),
    {
        match event {
            AgentEvent::Failed => {
                let error = failure_of(self.stage);
                self.fail(factsheet, error, None)
            },
            _ => self.fail(factsheet, ExecutionError::UnexpectedEvent, None),
        }
    }

    /// Asks for an improvement of the code, or for a bug fix after a failed
    /// build.
    fn request_rewrite(&mut self, factsheet: &FactSheet) -> (step: AgentStep)
        requires
            old(self).bug_count <= MAX_FIX_ATTEMPTS,
        ensures
            (final(self)@, factsheet@, step@) == old(self)@.request_rewrite(factsheet@),
    {
        let action = if self.bug_count == 0 {
            AgentAction::RequestText {
                function: AiFunction::PrintImprovedWebserverCode,
                context: improved_code_context(factsheet),
            }
        } else {
            AgentAction::RequestText {
                function: AiFunction::PrintFixedCode,
                context: fixed_code_context(&factsheet.backend_code, &self.bug_errors),
            }
        };
        self.enter(BackendStage::AwaitingRewrite);
        AgentStep { issue: None, action }
    }

    /// Stores freshly generated code and asks to have it saved.
    fn accept_code(&mut self, factsheet: &mut FactSheet, code: String, next: BackendStage) -> (step:
        AgentStep)
        requires
            next is AwaitingInitialSave || next is AwaitingRewriteSave,
            old(self).bug_count <= MAX_FIX_ATTEMPTS,
        ensures
            (final(self)@, final(factsheet)@, step@) == old(self)@.accept_code(
                old(factsheet)@,
                code@,
                next,
            ),
    {
        factsheet.backend_code = Some(code.clone());
        self.enter(next);
        AgentStep { issue: None, action: AgentAction::SaveBackendCode { code } }
    }

    /// Probes the next route, or saves the schema when none is left.
    fn next_probe(&mut self, factsheet: &FactSheet, issue: Option<String>) -> (step: AgentStep)
        requires
            old(self).bug_count <= MAX_FIX_ATTEMPTS,
            !(old(self).stage is AwaitingProbe),
        ensures
            (final(self)@, factsheet@, step@) == old(self)@.next_probe(
                factsheet@,
                issue.deep_view(),
            ),
    {
        if self.probe_index < self.probe_routes.len() {
            let mut url = String::from_str("http://localhost:8080");
            url.append(self.probe_routes[self.probe_index].as_str());
            self.enter(BackendStage::AwaitingProbe);
            AgentStep {
                issue,
                action: AgentAction::ProbeUrl { url, timeout_seconds: PROBE_TIMEOUT_SECONDS },
            }
        } else {
            self.enter(BackendStage::AwaitingSchemaSave);
            AgentStep {
                issue,
                action: AgentAction::SaveApiEndpoints { schema: self.schema_text.clone() },
            }
        }
    }

    /// Answers a build result.
    fn after_build(&mut self, factsheet: &FactSheet, success: bool, errors: String) -> (step:
        AgentStep)
        requires
            old(self).stage is AwaitingBuild,
        ensures
            (final(self)@, factsheet@, step@) == old(self)@.after_build(
                factsheet@,
                success,
                errors@,
            ),
    {
        proof {
            use_type_invariant(&*self);
        }
        if success {
            self.bug_count = 0;
            self.enter(BackendStage::AwaitingMainSource);
            AgentStep { issue: None, action: AgentAction::ReadMainSource }
        } else {
            self.bug_errors = Some(errors);
            if self.bug_count + 1 > MAX_FIX_ATTEMPTS {
                let step = self.fail(
                    factsheet,
                    ExecutionError::TooManyBugs,
                    Some(
                        String::from_str(
                            "Backend Unit Testing: Exit, too many bugs - AI becomes too expensive !",
                        ),
                    ),
                );
                self.bug_count = self.bug_count + 1;
                step
            } else {
                self.bug_count = self.bug_count + 1;
                self.request_rewrite(factsheet)
            }
        }
    }

    /// Answers a decoded endpoint schema.
    fn after_endpoints(&mut self, factsheet: &mut FactSheet, raw: Vec<RouteObject>) -> (step:
        AgentStep)
        requires
            old(self).stage is AwaitingEndpoints,
        ensures
            (final(self)@, final(factsheet)@, step@) == old(self)@.after_endpoints(
                old(factsheet)@,
                raw.deep_view(),
            ),
    {
        proof {
            use_type_invariant(&*self);
        }
        let kept = filter_endpoints(raw);
        self.probe_routes = routes_of(&kept);
        self.probe_index = 0;
        self.server_running = true;
        factsheet.api_endpoint_schema = Some(kept);
        self.enter(BackendStage::AwaitingLaunch);
        AgentStep { issue: None, action: AgentAction::LaunchServer }
    }

    /// Answers a probe result.
    fn after_probe(&mut self, factsheet: &FactSheet, event: AgentEvent) -> (step: AgentStep)
        requires
            old(self).stage is AwaitingProbe,
        ensures
            (final(self)@, factsheet@, step@) == old(self)@.after_probe(factsheet@, event@),
    {
        proof {
            use_type_invariant(&*self);
        }
        match event {
            AgentEvent::Status(code) => {
                let issue = if code == STATUS_OK {
                    None
                } else {
                    let mut warning = String::from_str("WARNING: Failed to call endpoint '");
                    warning.append(self.probe_routes[self.probe_index].as_str());
                    warning.append("'");
                    Some(warning)
                };
                self.stage = BackendStage::AwaitingSettle;
                self.probe_index = self.probe_index + 1;
                self.next_probe(factsheet, issue)
            },
            AgentEvent::ProbeFailed(reason) => {
                let mut warning = String::from_str("Error, checking backend '");
                warning.append(reason.as_str());
                warning.append("'");
                self.server_running = false;
                self.enter(BackendStage::AwaitingFailFastKill);
                AgentStep { issue: Some(warning), action: AgentAction::KillServer }
            },
            other => self.give_up(factsheet, &other),
        }
    }
}

impl SpecialFunctions for AgentBackendDev {
    open spec fn transition(pre: BackendView, sheet: FactSheetView, event: AgentEventView) -> (
        BackendView,
        FactSheetView,
        AgentStepView,
    ) {
        pre.step(sheet, event)
    }

    open spec fn identity(pre: BackendView) -> BasicAgentView {
        pre.attributes
    }

    fn get_attributes_from_agent(&self) -> (attributes: &BasicAgent) {
        &self.attributes
    }

    /// Advances the backend developer by one event, as [`BackendView::step`]
    /// says.
    fn execute(&mut self, factsheet: &mut FactSheet, event: AgentEvent) -> (step: AgentStep) {
        proof {
            use_type_invariant(&*self);
        }
        match self.stage {
            BackendStage::Failed { error } => AgentStep {
                issue: None,
                action: AgentAction::Abort { error },
            },
            BackendStage::Done => AgentStep { issue: None, action: AgentAction::Done },
            BackendStage::AwaitingAbortKill { error } => {
                self.enter(BackendStage::Failed { error });
                AgentStep { issue: None, action: AgentAction::Abort { error } }
            },
            BackendStage::Idle => match event {
                AgentEvent::Start => {
                    self.enter(BackendStage::AwaitingTemplate);
                    AgentStep { issue: None, action: AgentAction::ReadCodeTemplate }
                },
                other => self.give_up(factsheet, &other),
            },
            BackendStage::AwaitingTemplate => match event {
                AgentEvent::Text(template) => {
                    let context = initial_code_context(template.as_str(), factsheet);
                    self.enter(BackendStage::AwaitingInitialCode);
                    AgentStep {
                        issue: None,
                        action: AgentAction::RequestText {
                            function: AiFunction::PrintBackendWebserverCode,
                            context,
                        },
                    }
                },
                other => self.give_up(factsheet, &other),
            },
            BackendStage::AwaitingInitialCode => match event {
                AgentEvent::Text(code) => self.accept_code(
                    factsheet,
                    code,
                    BackendStage::AwaitingInitialSave,
                ),
                other => self.give_up(factsheet, &other),
            },
            BackendStage::AwaitingInitialSave => match event {
                AgentEvent::Completed => self.request_rewrite(factsheet),
                other => self.give_up(factsheet, &other),
            },
            BackendStage::AwaitingRewrite => match event {
                AgentEvent::Text(code) => self.accept_code(
                    factsheet,
                    code,
                    BackendStage::AwaitingRewriteSave,
                ),
                other => self.give_up(factsheet, &other),
            },
            BackendStage::AwaitingRewriteSave => match event {
                AgentEvent::Completed => {
                    self.enter(BackendStage::AwaitingConfirmation);
                    AgentStep { issue: None, action: AgentAction::ConfirmSafeCode }
                },
                other => self.give_up(factsheet, &other),
            },
            BackendStage::AwaitingConfirmation => match event {
                AgentEvent::Confirmed(answer) => {
                    if answer {
                        self.enter(BackendStage::AwaitingBuild);
                        AgentStep { issue: None, action: AgentAction::BuildProject }
                    } else {
                        self.fail(factsheet, ExecutionError::Declined, None)
                    }
                },
                other => self.give_up(factsheet, &other),
            },
            BackendStage::AwaitingBuild => match event {
                AgentEvent::Built { success, errors } => self.after_build(
                    factsheet,
                    success,
                    errors,
                ),
                other => self.give_up(factsheet, &other),
            },
            BackendStage::AwaitingMainSource => match event {
                AgentEvent::Text(source) => {
                    let context = rest_api_schema_context(source.as_str());
                    self.enter(BackendStage::AwaitingSchemaText);
                    AgentStep {
                        issue: None,
                        action: AgentAction::RequestText {
                            function: AiFunction::PrintRestApiEndpoints,
                            context,
                        },
                    }
                },
                other => self.give_up(factsheet, &other),
            },
            BackendStage::AwaitingSchemaText => match event {
                AgentEvent::Text(text) => {
                    self.schema_text = text.clone();
                    self.enter(BackendStage::AwaitingEndpoints);
                    AgentStep { issue: None, action: AgentAction::DecodeEndpoints { text } }
                },
                other => self.give_up(factsheet, &other),
            },
            BackendStage::AwaitingEndpoints => match event {
                AgentEvent::Endpoints(raw) => self.after_endpoints(factsheet, raw),
                other => self.give_up(factsheet, &other),
            },
            BackendStage::AwaitingLaunch => match event {
                AgentEvent::Completed => {
                    self.enter(BackendStage::AwaitingSettle);
                    AgentStep {
                        issue: None,
                        action: AgentAction::Settle { seconds: SETTLE_SECONDS },
                    }
                },
                AgentEvent::Failed => {
                    self.server_running = false;
                    self.fail(factsheet, ExecutionError::Io, None)
                },
                other => self.give_up(factsheet, &other),
            },
            BackendStage::AwaitingSettle => match event {
                AgentEvent::Completed => self.next_probe(factsheet, None),
                other => self.give_up(factsheet, &other),
            },
            BackendStage::AwaitingProbe => self.after_probe(factsheet, event),
            BackendStage::AwaitingFailFastKill => match event {
                AgentEvent::Completed => {
                    self.enter(BackendStage::AwaitingSchemaSave);
                    AgentStep {
                        issue: None,
                        action: AgentAction::SaveApiEndpoints { schema: self.schema_text.clone() },
                    }
                },
                other => self.give_up(factsheet, &other),
            },
            BackendStage::AwaitingSchemaSave => match event {
                AgentEvent::Completed => {
                    if self.server_running {
                        self.server_running = false;
                        self.enter(BackendStage::AwaitingFinalKill);
                        AgentStep { issue: None, action: AgentAction::KillServer }
                    } else {
                        self.enter(BackendStage::Done);
                        AgentStep { issue: None, action: AgentAction::Done }
                    }
                },
                other => self.give_up(factsheet, &other),
            },
            BackendStage::AwaitingFinalKill => match event {
                AgentEvent::Completed => {
                    self.enter(BackendStage::Done);
                    AgentStep { issue: None, action: AgentAction::Done }
                },
                other => self.give_up(factsheet, &other),
            },
        }
    }
}

/// Generated code is built only on the operator's consent, and a server is
/// launched only when the endpoint schema of a successful build arrives.
pub proof fn lemma_safety_gate(pre: BackendView, sheet: FactSheetView, event: AgentEventView)
    ensures
        pre.step(sheet, event).2.action is BuildProject <==> pre.stage is AwaitingConfirmation
            && event == AgentEventView::Confirmed(true),
        pre.step(sheet, event).2.action is LaunchServer <==> pre.stage is AwaitingEndpoints
            && event is Endpoints,
{
}

/// Every build that is asked for uses up one of the builds that were left.
pub proof fn lemma_build_step(pre: BackendView, sheet: FactSheetView, event: AgentEventView)
    requires
        pre.wf(),
    ensures
        (if pre.step(sheet, event).2.action is BuildProject {
            1nat
        } else {
            0nat
        }) + pre.step(sheet, event).0.builds_left() <= pre.builds_left(),
{
}

/// Over any run, the agent asks for no more builds than were left: the first
/// build and one more for each failure within the budget.
pub proof fn lemma_builds_bounded(
    pre: BackendView,
    sheet: FactSheetView,
    events: Seq<AgentEventView>,
)
    requires
        pre.wf(),
    ensures
        pre.builds(sheet, events) <= pre.builds_left(),
        pre.builds(sheet, events) <= MAX_FIX_ATTEMPTS + 1,
    decreases events.len(),
{
    if events.len() > 0 {
        let (next, next_sheet, _) = pre.step(sheet, events[0]);
        lemma_backend_step_wf(pre, sheet, events[0]);
        lemma_build_step(pre, sheet, events[0]);
        lemma_builds_bounded(next, next_sheet, events.drop_first());
    }
}

/// Every step of an agent that has not finished or given up makes progress:
/// it uses up a build attempt, or moves to a later stage of the pass, or
/// probes one more route. So no run goes on for ever.
pub proof fn lemma_backend_progress(pre: BackendView, sheet: FactSheetView, event: AgentEventView)
    requires
        pre.wf(),
        !pre.stage.is_terminal(),
    ensures
        decreases_to!(
            pre.attempts_left(), pre.stage.rank(), pre.probes_left() =>
            pre.step(sheet, event).0.attempts_left(),
            pre.step(sheet, event).0.stage.rank(),
            pre.step(sheet, event).0.probes_left()
        ),
{
}

/// A new backend developer is in a state that [`BackendView::wf`] admits.
pub proof fn lemma_backend_fresh_wf()
    ensures
        BackendView::fresh().wf(),
{
}

/// Every step keeps the backend developer in a state that
/// [`BackendView::wf`] admits.
pub proof fn lemma_backend_step_wf(pre: BackendView, sheet: FactSheetView, event: AgentEventView)
    requires
        pre.wf(),
    ensures
        pre.step(sheet, event).0.wf(),
{
}

/// The backend developer writes the fact sheet's code and endpoint schema
/// and nothing else: the description, the scope and the external URLs stay
/// as they were.
pub proof fn lemma_backend_owns_its_fields(
    pre: BackendView,
    sheet: FactSheetView,
    event: AgentEventView,
)
    ensures
        pre.step(sheet, event).1.project_description == sheet.project_description,
        pre.step(sheet, event).1.project_scope == sheet.project_scope,
        pre.step(sheet, event).1.external_urls == sheet.external_urls,
{
}

/// The endpoint schema changes only on the step that writes it, when a
/// decoded schema arrives after a successful build, and then it holds exactly
/// the endpoints of that schema that can be probed.
pub proof fn lemma_schema_step(pre: BackendView, sheet: FactSheetView, event: AgentEventView)
    ensures
        pre.writes_schema(event) ==> pre.step(sheet, event).1.api_endpoint_schema == Some(
            static_get_endpoints(event->Endpoints_0),
        ),
        !pre.writes_schema(event) ==> pre.step(sheet, event).1.api_endpoint_schema
            == sheet.api_endpoint_schema,
{
}

/// Over any run, the agent writes the endpoint schema at most once, and not
/// at all once it has written it.
pub proof fn lemma_schema_written_at_most_once(
    pre: BackendView,
    sheet: FactSheetView,
    events: Seq<AgentEventView>,
)
    ensures
        pre.schema_writes(sheet, events) <= 1,
        !pre.schema_pending() ==> pre.schema_writes(sheet, events) == 0,
    decreases events.len(),
{
    if events.len() > 0 {
        let (next, next_sheet, _) = pre.step(sheet, events[0]);
        assert(pre.writes_schema(events[0]) ==> pre.schema_pending() && !next.schema_pending());
        assert(!pre.schema_pending() ==> !next.schema_pending());
        lemma_schema_written_at_most_once(next, next_sheet, events.drop_first());
    }
}

/// The counter of failed builds moves only on a build result: a failed build
/// raises it by one, a successful build sets it to zero. On a build result
/// the agent gives up if and only if the build failed and the raised counter
/// passes the budget, and on no other step does the agent come to give up
/// for too many bugs.
pub proof fn lemma_fix_attempts(pre: BackendView, sheet: FactSheetView, event: AgentEventView)
    requires
        pre.wf(),
    ensures
        ({
            let (post, _, step) = pre.step(sheet, event);
            let on_build = pre.stage is AwaitingBuild && event is Built;
            let gave_up = BackendStage::Failed { error: ExecutionError::TooManyBugs };
            &&& !on_build ==> post.bug_count == pre.bug_count
            &&& on_build && !event->Built_success ==> post.bug_count == pre.bug_count + 1
            &&& on_build && event->Built_success ==> post.bug_count == 0
            &&& on_build ==> (step.action is Abort <==> !event->Built_success && pre.bug_count
                + 1 > MAX_FIX_ATTEMPTS)
            &&& (post.stage == gave_up && pre.stage != gave_up) <==> (on_build
                && !event->Built_success && pre.bug_count + 1 > MAX_FIX_ATTEMPTS)
        }),
{
}

/// What one step does to the server: it asks to launch one only when none
/// runs, it asks to stop one only when one runs, and it never ends the run
/// while one runs.
pub proof fn lemma_server_step(pre: BackendView, sheet: FactSheetView, event: AgentEventView)
    requires
        pre.wf(),
    ensures
        ({
            let (post, _, step) = pre.step(sheet, event);
            let failed_launch = pre.stage is AwaitingLaunch && event is Failed;
            &&& step.action is LaunchServer ==> !pre.server_running && post.server_running
            &&& step.action is KillServer ==> pre.server_running && !post.server_running
            &&& failed_launch ==> pre.server_running && !post.server_running
            &&& !(step.action is LaunchServer) && !(step.action is KillServer) && !failed_launch
                ==> post.server_running == pre.server_running
            &&& step.action.is_terminal() ==> !post.server_running
        }),
{
}

/// Over any run, every server that was launched is stopped exactly once: the
/// launches are the stops and the failed launches together, plus the one
/// server that may still run. When the agent has finished or given up, none
/// runs.
pub proof fn lemma_server_stopped_exactly_once(
    pre: BackendView,
    sheet: FactSheetView,
    events: Seq<AgentEventView>,
)
    requires
        pre.wf(),
    ensures
        ({
            let (post, _) = pre.run(sheet, events);
            &&& post.wf()
            &&& pre.launches(sheet, events) + (if pre.server_running {
                1nat
            } else {
                0nat
            }) == pre.kills(sheet, events) + pre.failed_launches(sheet, events) + (if post.server_running {
                1nat
            } else {
                0nat
            })
            &&& post.stage is Done || post.stage is Failed ==> !post.server_running
        }),
    decreases events.len(),
{
    if events.len() > 0 {
        let (next, next_sheet, _) = pre.step(sheet, events[0]);
        lemma_backend_step_wf(pre, sheet, events[0]);
        lemma_server_step(pre, sheet, events[0]);
        lemma_server_stopped_exactly_once(next, next_sheet, events.drop_first());
    }
}

} // verus!
