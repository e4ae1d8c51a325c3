use crate::models::agent_basic::basic_agent::{AgentState, BasicAgent, BasicAgentView};
use crate::models::agents::agent_architect::{
    lemma_architect_fresh_wf, lemma_architect_progress, lemma_architect_step_wf, lemma_scope_step,
    AgentSolutionArchitect, ArchitectView,
};
use crate::models::agents::agent_backend::{
    lemma_backend_fresh_wf, lemma_backend_owns_its_fields, lemma_backend_progress,
    lemma_backend_step_wf, AgentBackendDev, BackendView,
};
use crate::models::agents::agent_protocol::{
    AgentAction, AgentActionView, AgentEvent, AgentEventView, AgentStep, AgentStepView, AiFunction,
    ExecutionError,
};
use crate::models::agents::agent_traits::{FactSheet, FactSheetView, SpecialFunctions};
use vstd::prelude::*;
use vstd::string::*;

verus! {

/// One of the agents that the manager can drive.
#[derive(Debug)]
pub enum Agent {
    SolutionArchitect(AgentSolutionArchitect),
    BackendDev(AgentBackendDev),
}

/// An [`Agent`] as plain values.
pub enum AgentView {
    SolutionArchitect(ArchitectView),
    BackendDev(BackendView),
}

impl DeepView for Agent {
    type V = AgentView;

    open spec fn deep_view(&self) -> AgentView {
        match self {
            Agent::SolutionArchitect(architect) => AgentView::SolutionArchitect(architect@),
            Agent::BackendDev(backend) => AgentView::BackendDev(backend@),
        }
    }
}

impl View for Agent {
    type V = AgentView;

    open spec fn view(&self) -> AgentView {
        self.deep_view()
    }
}

impl AgentView {
    /// The transition of whichever agent this is.
    pub open spec fn step(self, sheet: FactSheetView, event: AgentEventView) -> (
        AgentView,
        FactSheetView,
        AgentStepView,
    ) {
        match self {
            AgentView::SolutionArchitect(architect) => {
                let (next, next_sheet, step) = architect.step(sheet, event);
                (AgentView::SolutionArchitect(next), next_sheet, step)
            },
            AgentView::BackendDev(backend) => {
                let (next, next_sheet, step) = backend.step(sheet, event);
                (AgentView::BackendDev(next), next_sheet, step)
            },
        }
    }

    /// The identity record of whichever agent this is.
    pub open spec fn attributes(self) -> BasicAgentView {
        match self {
            AgentView::SolutionArchitect(architect) => architect.attributes,
            AgentView::BackendDev(backend) => backend.attributes,
        }
    }

    /// Whether the agent is in a state that it can reach from a new agent.
    pub open spec fn wf(self) -> bool {
        match self {
            AgentView::SolutionArchitect(architect) => architect.wf(),
            AgentView::BackendDev(backend) => backend.wf(),
        }
    }

    /// Whether the agent has finished or given up.
    pub open spec fn is_terminal(self) -> bool {
        match self {
            AgentView::SolutionArchitect(architect) => architect.stage.is_terminal(),
            AgentView::BackendDev(backend) => backend.stage.is_terminal(),
        }
    }

    /// What the agent has left to do at most, as three numbers that are
    /// compared one after the other: build attempts, stages and probes.
    pub open spec fn effort(self) -> (nat, nat, nat) {
        match self {
            AgentView::SolutionArchitect(architect) => (
                0,
                architect.stage.rank(),
                architect.probes_left(),
            ),
            AgentView::BackendDev(backend) => (
                backend.attempts_left(),
                backend.stage.rank(),
                backend.probes_left(),
            ),
        }
    }

    /// Whether the agent has launched a server and not yet told it to stop.
    pub open spec fn server_running(self) -> bool {
        match self {
            AgentView::SolutionArchitect(_) => false,
            AgentView::BackendDev(backend) => backend.server_running,
        }
    }

    /// Whether the step on `event` writes the project scope.
    pub open spec fn writes_scope(self, event: AgentEventView) -> bool {
        match self {
            AgentView::SolutionArchitect(architect) => architect.writes_scope(event),
            AgentView::BackendDev(_) => false,
        }
    }

    /// Whether the agent may still write the project scope.
    pub open spec fn scope_pending(self) -> bool {
        match self {
            AgentView::SolutionArchitect(architect) => architect.scope_pending(),
            AgentView::BackendDev(_) => false,
        }
    }
}

impl SpecialFunctions for Agent {
    open spec fn transition(pre: AgentView, sheet: FactSheetView, event: AgentEventView) -> (
        AgentView,
        FactSheetView,
        AgentStepView,
    ) {
        pre.step(sheet, event)
    }

    open spec fn identity(pre: AgentView) -> BasicAgentView {
        pre.attributes()
    }

    fn get_attributes_from_agent(&self) -> (attributes: &BasicAgent) {
        match self {
            Agent::SolutionArchitect(architect) => architect.get_attributes_from_agent(),
            Agent::BackendDev(backend) => backend.get_attributes_from_agent(),
        }
    }

    fn execute(&mut self, factsheet: &mut FactSheet, event: AgentEvent) -> (step: AgentStep) {
        match self {
            Agent::SolutionArchitect(architect) => architect.execute(factsheet, event),
            Agent::BackendDev(backend) => backend.execute(factsheet, event),
        }
    }
}

/// What the manager is waiting for.
#[derive(Debug, Clone, Copy, PartialEq, Eq, Structural)]
pub enum ManagerStage {
    /// Nothing was asked yet.
    Idle,
    /// The project description was asked for.
    AwaitingGoal,
    /// The agents are at work, one after the other.
    Running,
    /// Every agent has finished.
    Done,
    /// An agent gave up with `error`, and the pipeline with it.
    Failed { error: ExecutionError },
}

/// The manager as plain values.
pub struct ManagerView {
    pub attributes: BasicAgentView,
    pub factsheet: FactSheetView,
    pub agents: Seq<AgentView>,
    /// The request as the user wrote it.
    pub user_request: Seq<char>,
    pub stage: ManagerStage,
    /// How many agents have finished.
    pub current: nat,
}

impl ManagerView {
    /// The manager as [`ManagingAgent::new`] makes it.
    pub open spec fn fresh(user_request: Seq<char>) -> ManagerView {
        ManagerView {
            attributes: BasicAgentView {
                objective: "Manage the project to build excellent website for the user"@,
                position: "Project Manager"@,
                state: AgentState::Discovery,
                memory: Seq::empty(),
            },
            factsheet: FactSheetView::described(Seq::empty()),
            agents: Seq::empty(),
            user_request,
            stage: ManagerStage::Idle,
            current: 0,
        }
    }

    /// The manager with the two agents of the pipeline added in the order in
    /// which they depend on each other: the solution architect, then the
    /// backend developer.
    pub open spec fn create_agents(self) -> ManagerView {
        ManagerView {
            agents: self.agents.push(AgentView::SolutionArchitect(ArchitectView::fresh())).push(
                AgentView::BackendDev(BackendView::fresh()),
            ),
            ..self
        }
    }

    /// The identity record of the agent whose turn it is; the manager's own
    /// while no agent is at work.
    pub open spec fn active_attributes(self) -> BasicAgentView {
        if self.stage is Running && self.current < self.agents.len() {
            self.agents[self.current as int].attributes()
        } else {
            self.attributes
        }
    }

    /// Giving up with `error`.
    pub open spec fn fail(self, error: ExecutionError) -> (ManagerView, AgentStepView) {
        (
            ManagerView { stage: ManagerStage::Failed { error }, ..self },
            AgentStepView::quiet(AgentActionView::Abort { error }),
        )
    }

    /// Hands `event` to the agent whose turn it is. When that agent finishes,
    /// the next one is started, and so on, until an agent asks for outside
    /// work or gives up, or until every agent has finished. An agent that
    /// gives up ends the pipeline: no later agent is run.
    pub open spec fn drive(self, event: AgentEventView) -> (ManagerView, AgentStepView)
        decreases self.agents.len() - self.current,
    {
        if self.current >= self.agents.len() {
            (
                ManagerView { stage: ManagerStage::Done, ..self },
                AgentStepView::quiet(AgentActionView::Done),
            )
        } else {
            let (agent, sheet, step) = self.agents[self.current as int].step(
                self.factsheet,
                event,
            );
            let next = ManagerView {
                agents: self.agents.update(self.current as int, agent),
                factsheet: sheet,
                ..self
            };
            match step.action {
                AgentActionView::Done => ManagerView { current: self.current + 1, ..next }.drive(
                    AgentEventView::Start,
                ),
                AgentActionView::Abort { error } => (
                    ManagerView { stage: ManagerStage::Failed { error }, ..next },
                    step,
                ),
                _ => (next, step),
            }
        }
    }

    /// The transition of the manager: what one event does to the pipeline,
    /// and which step is handed to the driver.
    pub open spec fn step(self, event: AgentEventView) -> (ManagerView, AgentStepView) {
        match self.stage {
            ManagerStage::Failed { error } => (
                self,
                AgentStepView::quiet(AgentActionView::Abort { error }),
            ),
            ManagerStage::Done => (self, AgentStepView::quiet(AgentActionView::Done)),
            ManagerStage::Idle => match event {
                AgentEventView::Start => (
                    ManagerView { stage: ManagerStage::AwaitingGoal, ..self },
                    AgentStepView::quiet(
                        AgentActionView::RequestText {
                            function: AiFunction::ConvertUserInputToGoal,
                            context: self.user_request,
                        },
                    ),
                ),
                _ => self.fail(ExecutionError::UnexpectedEvent),
            },
            ManagerStage::AwaitingGoal => match event {
                AgentEventView::Text(goal) => ManagerView {
                    factsheet: FactSheetView::described(goal),
                    stage: ManagerStage::Running,
                    current: 0,
                    ..self
                }.create_agents().drive(AgentEventView::Start),
                AgentEventView::Failed => self.fail(ExecutionError::LlmUnavailable),
                _ => self.fail(ExecutionError::UnexpectedEvent),
            },
            ManagerStage::Running => self.drive(event),
        }
    }
}

/// The agent that turns the user's request into a project description and
/// drives the other agents, one after the other, over the shared fact sheet.
#[derive(Debug)]
pub struct ManagingAgent {
    attributes: BasicAgent,
    factsheet: FactSheet,
    agents: Vec<Agent>,
    user_request: String,
    stage: ManagerStage,
    current: usize,
}

impl DeepView for ManagingAgent {
    type V = ManagerView;

    closed spec fn deep_view(&self) -> ManagerView {
        ManagerView {
            attributes: self.attributes@,
            factsheet: self.factsheet@,
            agents: self.agents.deep_view(),
            user_request: self.user_request@,
            stage: self.stage,
            current: self.current as nat,
        }
    }
}

impl View for ManagingAgent {
    type V = ManagerView;

    closed spec fn view(&self) -> ManagerView {
        self.deep_view()
    }
}

impl ManagingAgent {
    /// A manager for `user_request` that has not begun: it has no agents yet
    /// and its fact sheet is empty.
    pub fn new(user_request: String) -> (manager: Self)
        ensures
            manager@ == ManagerView::fresh(user_request@),
    {
        let attributes = BasicAgent::new(
            String::from_str("Manage the project to build excellent website for the user"),
            String::from_str("Project Manager"),
        );
        let manager = ManagingAgent {
            attributes,
            factsheet: FactSheet::new(String::new()),
            agents: Vec::new(),
            user_request,
            stage: ManagerStage::Idle,
            current: 0,
        };
        proof {
            assert(manager.agents.deep_view() =~= Seq::<AgentView>::empty());
        }
        manager
    }

    /// The manager's own identity record.
    pub fn get_attributes(&self) -> (attributes: &BasicAgent)
        ensures
            attributes@ == self@.attributes,
    {
        &self.attributes
    }

    /// The identity record of the agent whose turn it is; the manager's own
    /// while no agent is at work.
    pub fn active_attributes(&self) -> (attributes: &BasicAgent)
        ensures
            attributes@ == self@.active_attributes(),
    {
        match self.stage {
            ManagerStage::Running => {
                if self.current < self.agents.len() {
                    self.agents[self.current].get_attributes_from_agent()
                } else {
                    &self.attributes
                }
            },
            _ => &self.attributes,
        }
    }

    /// The fact sheet as the pipeline has filled it so far.
    pub fn factsheet(&self) -> (sheet: &FactSheet)
        ensures
            sheet@ == self@.factsheet,
    {
        &self.factsheet
    }

    /// Adds `agent` behind the agents that are there.
    pub fn add_agent(&mut self, agent: Agent)
        ensures
            final(self)@ == (ManagerView {
                agents: old(self)@.agents.push(agent@),
                ..old(self)@
            }),
    {
        let ghost before = self.agents.deep_view();
        self.agents.push(agent);
        proof {
            assert(self.agents.deep_view() =~= before.push(agent@));
        }
    }

    /// Adds the two agents of the pipeline: the solution architect, then the
    /// backend developer that builds on its results.
    fn create_agents(&mut self)
        ensures
            final(self)@ == old(self)@.create_agents(),
    {
        self.add_agent(Agent::SolutionArchitect(AgentSolutionArchitect::new()));
        self.add_agent(Agent::BackendDev(AgentBackendDev::new()));
    }

    /// Gives up with `error`.
    fn fail(&mut self, error: ExecutionError) -> (step: AgentStep)
        ensures
            (final(self)@, step@) == old(self)@.fail(error),
    {
        self.stage = ManagerStage::Failed { error };
        AgentStep { issue: None, action: AgentAction::Abort { error } }
    }

    /// Hands `event` to the agent whose turn it is, and starts the agents
    /// after it as far as they finish at once.
    fn drive(&mut self, event: AgentEvent) -> (step: AgentStep)
        ensures
            (final(self)@, step@) == old(self)@.drive(event@),
    {
        let mut pending = event;
        loop
            invariant
                self@.drive(pending@) == old(self)@.drive(event@),
            decreases self.agents.len() - self.current,
        {
            if self.current >= self.agents.len() {
                self.stage = ManagerStage::Done;
                return AgentStep { issue: None, action: AgentAction::Done };
            }
            let ghost before = self.agents.deep_view();
            let index = self.current;
            let step = self.agents[index].execute(&mut self.factsheet, pending);
            proof {
                assert(self.agents.deep_view() =~= before.update(
                    index as int,
                    self.agents[index as int]@,
                ));
            }
            match &step.action {
                AgentAction::Done => {
                    self.current = self.current + 1;
                    pending = AgentEvent::Start;
                },
                AgentAction::Abort { error } => {
                    self.stage = ManagerStage::Failed { error: *error };
                    return step;
                },
                _ => {
                    return step;
                },
            }
        }
    }

    /// Advances the pipeline by one event, as [`ManagerView::step`] says.
    ///
    /// The driver calls it first with [`AgentEvent::Start`], performs the
    /// action of the step it returns, and calls it again with what came back,
    /// until the action is `Done` or `Abort`.
    pub fn execute_project(&mut self, event: AgentEvent) -> (step: AgentStep)
        ensures
            (final(self)@, step@) == old(self)@.step(event@),
    {
        match self.stage {
            ManagerStage::Failed { error } => AgentStep {
                issue: None,
                action: AgentAction::Abort { error },
            },
            ManagerStage::Done => AgentStep { issue: None, action: AgentAction::Done },
            ManagerStage::Idle => match event {
                AgentEvent::Start => {
                    self.stage = ManagerStage::AwaitingGoal;
                    AgentStep {
                        issue: None,
                        action: AgentAction::RequestText {
                            function: AiFunction::ConvertUserInputToGoal,
                            context: self.user_request.clone(),
                        },
                    }
                },
                _ => self.fail(ExecutionError::UnexpectedEvent),
            },
            ManagerStage::AwaitingGoal => match event {
                AgentEvent::Text(goal) => {
                    self.factsheet = FactSheet::new(goal);
                    self.stage = ManagerStage::Running;
                    self.current = 0;
                    self.create_agents();
                    self.drive(AgentEvent::Start)
                },
                AgentEvent::Failed => self.fail(ExecutionError::LlmUnavailable),
                _ => self.fail(ExecutionError::UnexpectedEvent),
            },
            ManagerStage::Running => self.drive(event),
        }
    }
}

/// How many of the agents from place `from` on may still write the project
/// scope.
pub open spec fn pending_writers(agents: Seq<AgentView>, from: nat) -> nat
    decreases agents.len() - from,
{
    if from >= agents.len() {
        0
    } else {
        (if agents[from as int].scope_pending() {
            1nat
        } else {
            0nat
        }) + pending_writers(agents, from + 1)
    }
}

impl ManagerStage {
    /// How far a stage is from the end: every stage has a higher rank than
    /// the stages that can follow it.
    pub open spec fn rank(self) -> nat {
        match self {
            ManagerStage::Idle => 3,
            ManagerStage::AwaitingGoal => 2,
            ManagerStage::Running => 1,
            ManagerStage::Done => 0,
            ManagerStage::Failed { .. } => 0,
        }
    }

    /// Whether the pipeline has finished or given up.
    pub open spec fn is_terminal(self) -> bool {
        self is Done || self is Failed
    }
}

impl ManagerView {
    /// What holds of the manager in every state it can reach from
    /// [`ManagerView::fresh`]: until the project description has arrived, the
    /// fact sheet holds no scope.
    pub open spec fn wf(self) -> bool {
        self.stage is Idle || self.stage is AwaitingGoal ==> self.factsheet.project_scope is None
    }

    /// Whether every agent is in a state that it can reach from a new agent.
    pub open spec fn agents_wf(self) -> bool {
        forall|i: int| 0 <= i < self.agents.len() ==> (#[trigger] self.agents[i]).wf()
    }

    /// Whether no server runs but for the agent whose turn it is.
    pub open spec fn servers_accounted(self) -> bool {
        forall|i: int|
            0 <= i < self.agents.len() && (#[trigger] self.agents[i]).server_running()
                ==> self.stage is Running && i == self.current
    }

    /// How many agents have not finished.
    pub open spec fn agents_left(self) -> nat {
        (self.agents.len() - self.current) as nat
    }

    /// What the agent whose turn it is has left to do at most.
    pub open spec fn effort(self) -> (nat, nat, nat) {
        if self.current < self.agents.len() {
            self.agents[self.current as int].effort()
        } else {
            (0, 0, 0)
        }
    }

    /// Whether the step on `event` writes the project scope: the event goes
    /// to an agent that writes it.
    pub open spec fn writes_scope(self, event: AgentEventView) -> bool {
        &&& self.stage is Running
        &&& self.current < self.agents.len()
        &&& self.agents[self.current as int].writes_scope(event)
    }

    /// How many writes of the project scope the pipeline may still make: one
    /// for each agent that is still to run and may write it, and one for the
    /// solution architect that is still to be created.
    pub open spec fn scope_budget(self) -> nat {
        match self.stage {
            ManagerStage::Idle | ManagerStage::AwaitingGoal => pending_writers(self.agents, 0) + 1,
            ManagerStage::Running => pending_writers(self.agents, self.current),
            _ => 0,
        }
    }

    /// The pipeline after the events of `events`, handed in one by one.
    pub open spec fn run(self, events: Seq<AgentEventView>) -> ManagerView
        decreases events.len(),
    {
        if events.len() == 0 {
            self
        } else {
            self.step(events[0]).0.run(events.drop_first())
        }
    }

    /// How many times the run over `events` writes the project scope.
    pub open spec fn scope_writes(self, events: Seq<AgentEventView>) -> nat
        decreases events.len(),
    {
        if events.len() == 0 {
            0
        } else {
            (if self.writes_scope(events[0]) {
                1nat
            } else {
                0nat
            }) + self.step(events[0]).0.scope_writes(events.drop_first())
        }
    }
}

/// Replacing an agent does not change the count of the agents behind it.
proof fn lemma_pending_after_update(agents: Seq<AgentView>, at: nat, agent: AgentView, from: nat)
    requires
        at < from,
        at < agents.len(),
    ensures
        pending_writers(agents.update(at as int, agent), from) == pending_writers(agents, from),
    decreases agents.len() - from,
{
    if from < agents.len() {
        lemma_pending_after_update(agents, at, agent, from + 1);
    }
}

/// Adding an agent at the end adds it to the count if it may write the scope.
proof fn lemma_pending_after_push(agents: Seq<AgentView>, agent: AgentView, from: nat)
    requires
        from <= agents.len(),
    ensures
        pending_writers(agents.push(agent), from) == pending_writers(agents, from) + (if agent.scope_pending() {
            1nat
        } else {
            0nat
        }),
    decreases agents.len() - from,
{
    if from < agents.len() {
        lemma_pending_after_push(agents, agent, from + 1);
    } else {
        assert(pending_writers(agents.push(agent), from + 1) == 0);
    }
}

/// One agent's step: the scope changes only when the agent writes it, and
/// an agent that wrote it, or could not write it before, cannot write it
/// afterwards.
proof fn lemma_agent_scope_step(pre: AgentView, sheet: FactSheetView, event: AgentEventView)
    ensures
        !pre.writes_scope(event) ==> pre.step(sheet, event).1.project_scope
            == sheet.project_scope,
        pre.writes_scope(event) ==> pre.scope_pending() && !pre.step(
            sheet,
            event,
        ).0.scope_pending(),
        !pre.scope_pending() ==> !pre.step(sheet, event).0.scope_pending(),
{
    match pre {
        AgentView::SolutionArchitect(architect) => {
            lemma_scope_step(architect, sheet, event);
        },
        AgentView::BackendDev(backend) => {
            lemma_backend_owns_its_fields(backend, sheet, event);
        },
    }
}

/// Handing an event to the agents: each write of the scope uses up one of
/// the writes that were left, and without a write the scope stays.
proof fn lemma_drive_scope(pre: ManagerView, event: AgentEventView)
    requires
        pre.stage is Running,
    ensures
        ({
            let (post, _) = pre.drive(event);
            &&& (if pre.writes_scope(event) {
                1nat
            } else {
                0nat
            }) + post.scope_budget() <= pre.scope_budget()
            &&& !pre.writes_scope(event) ==> post.factsheet.project_scope
                == pre.factsheet.project_scope
            &&& !(post.stage is Idle) && !(post.stage is AwaitingGoal)
        }),
    decreases pre.agents.len() - pre.current,
{
    if pre.current < pre.agents.len() {
        let at = pre.current;
        let (agent, sheet, step) = pre.agents[at as int].step(pre.factsheet, event);
        let next = ManagerView {
            agents: pre.agents.update(at as int, agent),
            factsheet: sheet,
            ..pre
        };
        lemma_agent_scope_step(pre.agents[at as int], pre.factsheet, event);
        lemma_pending_after_update(pre.agents, at, agent, at + 1);
        assert(next.agents[at as int] == agent);
        if step.action is Done {
            let later = ManagerView { current: at + 1, ..next };
            lemma_drive_scope(later, AgentEventView::Start);
        }
    }
}

/// Every step keeps the manager in a state that [`ManagerView::wf`] admits.
/// Each write of the project scope uses up one of the writes that were left,
/// and on a step without a write the scope stays as it was.
pub proof fn lemma_manager_scope_step(pre: ManagerView, event: AgentEventView)
    requires
        pre.wf(),
    ensures
        pre.step(event).0.wf(),
        (if pre.writes_scope(event) {
            1nat
        } else {
            0nat
        }) + pre.step(event).0.scope_budget() <= pre.scope_budget(),
        !pre.writes_scope(event) ==> pre.step(event).0.factsheet.project_scope
            == pre.factsheet.project_scope,
{
    match pre.stage {
        ManagerStage::Running => {
            lemma_drive_scope(pre, event);
        },
        ManagerStage::AwaitingGoal => {
            if let AgentEventView::Text(goal) = event {
                let architect = AgentView::SolutionArchitect(ArchitectView::fresh());
                let backend = AgentView::BackendDev(BackendView::fresh());
                let ready = ManagerView {
                    factsheet: FactSheetView::described(goal),
                    stage: ManagerStage::Running,
                    current: 0,
                    ..pre
                }.create_agents();
                lemma_pending_after_push(pre.agents, architect, 0);
                lemma_pending_after_push(pre.agents.push(architect), backend, 0);
                lemma_drive_scope(ready, AgentEventView::Start);
            }
        },
        _ => {},
    }
}

/// Over any run of the pipeline, the project scope is written no more often
/// than there are agents left that may write it.
pub proof fn lemma_scope_writes_within_budget(pre: ManagerView, events: Seq<AgentEventView>)
    requires
        pre.wf(),
    ensures
        pre.scope_writes(events) <= pre.scope_budget(),
    decreases events.len(),
{
    if events.len() > 0 {
        lemma_manager_scope_step(pre, events[0]);
        lemma_scope_writes_within_budget(pre.step(events[0]).0, events.drop_first());
    }
}

/// Whatever the user asked for and whatever comes back from outside, a full
/// run of the pipeline writes the project scope at most once.
pub proof fn lemma_project_scope_written_at_most_once(
    user_request: Seq<char>,
    events: Seq<AgentEventView>,
)
    ensures
        ManagerView::fresh(user_request).scope_writes(events) <= 1,
{
    lemma_scope_writes_within_budget(ManagerView::fresh(user_request), events);
}

/// One agent's step keeps the agent in a state it can reach from a new
/// agent. An agent that has finished or given up says so again; any other
/// agent makes progress.
proof fn lemma_agent_progress(pre: AgentView, sheet: FactSheetView, event: AgentEventView)
    requires
        pre.wf(),
    ensures
        pre.step(sheet, event).0.wf(),
        pre.is_terminal() ==> pre.step(sheet, event).2.action.is_terminal(),
        !pre.is_terminal() ==> decreases_to!(
            pre.effort().0, pre.effort().1, pre.effort().2 =>
            pre.step(sheet, event).0.effort().0,
            pre.step(sheet, event).0.effort().1,
            pre.step(sheet, event).0.effort().2
        ),
{
    match pre {
        AgentView::SolutionArchitect(architect) => {
            lemma_architect_step_wf(architect, sheet, event);
            if !architect.stage.is_terminal() {
                lemma_architect_progress(architect, sheet, event);
            }
        },
        AgentView::BackendDev(backend) => {
            lemma_backend_step_wf(backend, sheet, event);
            if !backend.stage.is_terminal() {
                lemma_backend_progress(backend, sheet, event);
            }
        },
    }
}

/// Handing an event to the agents makes progress: the pipeline ends, or an
/// agent finishes, or the agent whose turn it is makes progress.
proof fn lemma_drive_progress(pre: ManagerView, event: AgentEventView)
    requires
        pre.stage is Running,
        pre.agents_wf(),
    ensures
        pre.drive(event).0.agents_wf(),
        pre.drive(event).0.stage is Running || pre.drive(event).0.stage.is_terminal(),
        pre.drive(event).0.stage is Running ==> pre.drive(event).0.current >= pre.current
            && pre.drive(event).0.agents.len() == pre.agents.len(),
        decreases_to!(
            pre.stage.rank(), pre.agents_left(), pre.effort().0, pre.effort().1, pre.effort().2 =>
            pre.drive(event).0.stage.rank(),
            pre.drive(event).0.agents_left(),
            pre.drive(event).0.effort().0,
            pre.drive(event).0.effort().1,
            pre.drive(event).0.effort().2
        ),
    decreases pre.agents.len() - pre.current,
{
    if pre.current < pre.agents.len() {
        let at = pre.current;
        let (agent, sheet, step) = pre.agents[at as int].step(pre.factsheet, event);
        let next = ManagerView {
            agents: pre.agents.update(at as int, agent),
            factsheet: sheet,
            ..pre
        };
        lemma_agent_progress(pre.agents[at as int], pre.factsheet, event);
        assert(next.agents[at as int] == agent);
        assert(next.agents_wf());
        if step.action is Done {
            let later = ManagerView { current: at + 1, ..next };
            lemma_drive_progress(later, AgentEventView::Start);
        }
    }
}

/// Every step of a pipeline that has not finished or given up makes
/// progress: the pipeline moves to a later stage, or an agent finishes, or
/// the agent whose turn it is makes progress. So no run of the pipeline goes
/// on for ever. The agents stay in states they can reach from new agents.
pub proof fn lemma_pipeline_progress(pre: ManagerView, event: AgentEventView)
    requires
        pre.agents_wf(),
        !pre.stage.is_terminal(),
    ensures
        pre.step(event).0.agents_wf(),
        decreases_to!(
            pre.stage.rank(), pre.agents_left(), pre.effort().0, pre.effort().1, pre.effort().2 =>
            pre.step(event).0.stage.rank(),
            pre.step(event).0.agents_left(),
            pre.step(event).0.effort().0,
            pre.step(event).0.effort().1,
            pre.step(event).0.effort().2
        ),
{
    match pre.stage {
        ManagerStage::Running => {
            lemma_drive_progress(pre, event);
        },
        ManagerStage::AwaitingGoal => {
            if let AgentEventView::Text(goal) = event {
                let ready = ManagerView {
                    factsheet: FactSheetView::described(goal),
                    stage: ManagerStage::Running,
                    current: 0,
                    ..pre
                }.create_agents();
                lemma_architect_fresh_wf();
                lemma_backend_fresh_wf();
                assert(ready.agents_wf());
                lemma_drive_progress(ready, AgentEventView::Start);
            }
        },
        _ => {},
    }
}

/// The step with which an agent finishes reports nothing, so no warning is
/// lost when the manager goes on to the next agent.
pub proof fn lemma_finishing_step_is_quiet(
    pre: AgentView,
    sheet: FactSheetView,
    event: AgentEventView,
)
    ensures
        pre.step(sheet, event).2.action is Done ==> pre.step(sheet, event).2.issue is None,
{
}

/// Handing an event to the agents leaves the agents that have finished as
/// they are, and adds and removes no agent.
proof fn lemma_drive_forward(pre: ManagerView, event: AgentEventView)
    ensures
        pre.drive(event).0.agents.len() == pre.agents.len(),
        pre.drive(event).0.current >= pre.current,
        forall|i: int|
            0 <= i < pre.current && i < pre.agents.len() ==> pre.drive(event).0.agents[i]
                == pre.agents[i],
        pre.drive(event).1.action is Abort ==> forall|i: int|
            pre.drive(event).0.current < i < pre.agents.len() ==> pre.drive(event).0.agents[i]
                == pre.agents[i],
    decreases pre.agents.len() - pre.current,
{
    if pre.current < pre.agents.len() {
        let at = pre.current;
        let (agent, sheet, step) = pre.agents[at as int].step(pre.factsheet, event);
        let next = ManagerView {
            agents: pre.agents.update(at as int, agent),
            factsheet: sheet,
            ..pre
        };
        let post = pre.drive(event).0;
        if step.action is Done {
            let later = ManagerView { current: at + 1, ..next };
            lemma_drive_forward(later, AgentEventView::Start);
            assert(post == later.drive(AgentEventView::Start).0);
        }
        assert forall|i: int| 0 <= i < pre.current && i < pre.agents.len() implies post.agents[i]
            == pre.agents[i] by {
            assert(next.agents[i] == pre.agents[i]);
        }
        if pre.drive(event).1.action is Abort {
            assert forall|i: int| post.current < i < pre.agents.len() implies post.agents[i]
                == pre.agents[i] by {
                assert(next.agents[i] == pre.agents[i]);
            }
        }
    }
}

/// Work flows forward only. While the agents are at work, a step never runs
/// an agent that has finished: every such agent stays as it is. When an agent
/// gives up, the agents after it are not run either. No step adds or removes
/// an agent.
pub proof fn lemma_pipeline_runs_forward(pre: ManagerView, event: AgentEventView)
    requires
        pre.stage is Running,
    ensures
        pre.step(event).0.agents.len() == pre.agents.len(),
        pre.step(event).0.current >= pre.current,
        forall|i: int|
            0 <= i < pre.current && i < pre.agents.len() ==> pre.step(event).0.agents[i]
                == pre.agents[i],
        pre.step(event).1.action is Abort ==> forall|i: int|
            pre.step(event).0.current < i < pre.agents.len() ==> pre.step(event).0.agents[i]
                == pre.agents[i],
{
    lemma_drive_forward(pre, event);
}

/// A pipeline that has finished or given up stays as it is and says so
/// again, whatever event it is handed: nothing runs after the end.
pub proof fn lemma_end_is_final(pre: ManagerView, event: AgentEventView)
    requires
        pre.stage.is_terminal(),
    ensures
        pre.step(event).0 == pre,
        pre.step(event).1.issue is None,
        pre.step(event).1.action.is_terminal(),
        pre.stage matches ManagerStage::Failed { error } ==> pre.step(event).1.action
            == (AgentActionView::Abort { error }),
{
}

/// Handing an event to the agents keeps every server with the agent whose
/// turn it is.
proof fn lemma_drive_servers(pre: ManagerView, event: AgentEventView, started: bool)
    requires
        pre.stage is Running,
        pre.agents_wf(),
        forall|i: int|
            0 <= i < pre.agents.len() && (#[trigger] pre.agents[i]).server_running() ==> i
                == pre.current && !started,
        started ==> event is Start,
    ensures
        pre.drive(event).0.servers_accounted(),
    decreases pre.agents.len() - pre.current,
{
    if pre.current < pre.agents.len() {
        let at = pre.current;
        let (agent, sheet, step) = pre.agents[at as int].step(pre.factsheet, event);
        let next = ManagerView {
            agents: pre.agents.update(at as int, agent),
            factsheet: sheet,
            ..pre
        };
        let post = pre.drive(event).0;
        lemma_agent_progress(pre.agents[at as int], pre.factsheet, event);
        assert(next.agents[at as int] == agent);
        assert(next.agents_wf());
        assert forall|i: int|
            0 <= i < next.agents.len() && (#[trigger] next.agents[i]).server_running() implies i
            == at && !step.action.is_terminal() by {
            if i != at {
                assert(next.agents[i] == pre.agents[i]);
            }
        }
        if step.action is Done {
            let later = ManagerView { current: at + 1, ..next };
            lemma_drive_servers(later, AgentEventView::Start, true);
        }
    }
}

/// No server outlives the pipeline. At every step, a server runs only for
/// the agent whose turn it is; so when the pipeline has finished or given up,
/// no server is left running.
pub proof fn lemma_no_server_outlives_the_pipeline(pre: ManagerView, event: AgentEventView)
    requires
        pre.agents_wf(),
        pre.servers_accounted(),
    ensures
        pre.step(event).0.agents_wf(),
        pre.step(event).0.servers_accounted(),
        pre.step(event).0.stage.is_terminal() ==> forall|i: int|
            0 <= i < pre.step(event).0.agents.len() ==> !(#[trigger] pre.step(
                event,
            ).0.agents[i]).server_running(),
{
    match pre.stage {
        ManagerStage::Running => {
            lemma_drive_progress(pre, event);
            lemma_drive_servers(pre, event, false);
        },
        ManagerStage::AwaitingGoal => {
            if let AgentEventView::Text(goal) = event {
                let ready = ManagerView {
                    factsheet: FactSheetView::described(goal),
                    stage: ManagerStage::Running,
                    current: 0,
                    ..pre
                }.create_agents();
                lemma_architect_fresh_wf();
                lemma_backend_fresh_wf();
                assert(ready.agents_wf());
                assert forall|i: int| 0 <= i < ready.agents.len() implies !(
                #[trigger] ready.agents[i]).server_running() by {
                    if i < pre.agents.len() {
                        assert(ready.agents[i] == pre.agents[i]);
                    }
                }
                lemma_drive_progress(ready, AgentEventView::Start);
                lemma_drive_servers(ready, AgentEventView::Start, true);
            }
        },
        _ => {},
    }
}

} // verus!
