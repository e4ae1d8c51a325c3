use crate::models::agent_basic::basic_agent::{AgentState, BasicAgent, BasicAgentView};
use crate::models::agents::agent_protocol::{
    AgentAction, AgentActionView, AgentEvent, AgentEventView, AgentStep, AgentStepView, AiFunction,
    ExecutionError, PROBE_TIMEOUT_SECONDS, STATUS_OK,
};
use crate::models::agents::agent_traits::{
    FactSheet, FactSheetView, ProjectScope, SpecialFunctions,
};
use crate::helpers::general::{decode_text_list, decoded_text_list};
use vstd::prelude::*;
use vstd::string::*;

verus! {

/// The URLs of `urls` that are not among `excluded`, in their order in
/// `urls`.
pub open spec fn retain_valid(urls: Seq<Seq<char>>, excluded: Seq<Seq<char>>) -> Seq<Seq<char>> {
    urls.filter(|url: Seq<char>| !excluded.contains(url))
}

/// Whether `list` holds a string that reads as `item`.
pub fn contains_text(list: &Vec<String>, item: &String) -> (found: bool)
    ensures
        found == list.deep_view().contains(item@),
{
    let ghost texts = list.deep_view();
    let mut i: usize = 0;
    while i < list.len()
        invariant
            i <= list.len(),
            texts == list.deep_view(),
            forall|k: int| 0 <= k < i ==> texts[k] != item@,
        decreases list.len() - i,
    {
        if list[i] == *item {
            assert(texts[i as int] == item@);
            return true;
        }
        i = i + 1;
    }
    false
}

/// Drops from `urls` every URL that is among `excluded`. The URLs that stay
/// keep their order; none is added.
pub fn retain_valid_urls(urls: &Vec<String>, excluded: &Vec<String>) -> (kept: Vec<String>)
    ensures
        kept.deep_view() == retain_valid(urls.deep_view(), excluded.deep_view()),
{
    let ghost all = urls.deep_view();
    let ghost out = excluded.deep_view();
    let mut kept: Vec<String> = Vec::new();
    let mut i: usize = 0;
    proof {
        assert(all.take(0) =~= Seq::<Seq<char>>::empty());
        assert(kept.deep_view() =~= Seq::<Seq<char>>::empty());
    }
    while i < urls.len()
        invariant
            i <= urls.len(),
            all == urls.deep_view(),
            out == excluded.deep_view(),
            kept.deep_view() == retain_valid(all.take(i as int), out),
        decreases urls.len() - i,
    {
        let ghost before = kept.deep_view();
        proof {
            lemma_retain_step(all, out, i as int);
        }
        if !contains_text(excluded, &urls[i]) {
            kept.push(urls[i].clone());
            assert(kept.deep_view() =~= before.push(all[i as int]));
        }
        i = i + 1;
    }
    proof {
        assert(all.take(urls.len() as int) =~= all);
    }
    kept
}

/// Looking at one more URL either appends it or changes nothing.
proof fn lemma_retain_step(urls: Seq<Seq<char>>, excluded: Seq<Seq<char>>, n: int)
    requires
        0 <= n < urls.len(),
    ensures
        retain_valid(urls.take(n + 1), excluded) == if excluded.contains(urls[n]) {
            retain_valid(urls.take(n), excluded)
        } else {
            retain_valid(urls.take(n), excluded).push(urls[n])
        },
{
    reveal(Seq::filter);
    assert(urls.take(n + 1).drop_last() =~= urls.take(n));
    assert(urls.take(n + 1).last() == urls[n]);
}

/// What the solution architect is waiting for.
#[derive(Debug, Clone, Copy, PartialEq, Eq, Structural)]
pub enum ArchitectStage {
    /// Nothing was asked yet.
    Idle,
    /// The project scope was asked for.
    AwaitingScope,
    /// The candidate URLs were asked for.
    AwaitingUrls,
    /// A candidate URL is being probed.
    AwaitingProbe,
    /// The agent finished its work.
    Done,
    /// The agent gave up with `error`.
    Failed { error: ExecutionError },
}

impl ArchitectStage {
    /// The lifecycle phase that a stage belongs to. Giving up belongs to
    /// none: the agent stays in the phase in which it gave up.
    pub open spec fn phase(self) -> Option<AgentState> {
        match self {
            ArchitectStage::Idle
            | ArchitectStage::AwaitingScope
            | ArchitectStage::AwaitingUrls => Some(AgentState::Discovery),
            ArchitectStage::AwaitingProbe => Some(AgentState::UnitTesting),
            ArchitectStage::Done => Some(AgentState::Finished),
            ArchitectStage::Failed { .. } => None,
        }
    }

    /// How far a stage is from the end: every stage has a higher rank than
    /// the stages that can follow it.
    pub open spec fn rank(self) -> nat {
        match self {
            ArchitectStage::Idle => 4,
            ArchitectStage::AwaitingScope => 3,
            ArchitectStage::AwaitingUrls => 2,
            ArchitectStage::AwaitingProbe => 1,
            ArchitectStage::Done => 0,
            ArchitectStage::Failed { .. } => 0,
        }
    }

    /// Whether the agent has finished or given up.
    pub open spec fn is_terminal(self) -> bool {
        self is Done || self is Failed
    }

    /// What it means at a stage that the pending action could not be
    /// performed.
    pub open spec fn failure(self) -> ExecutionError {
        match self {
            ArchitectStage::AwaitingScope
            | ArchitectStage::AwaitingUrls => ExecutionError::MalformedResponse,
            _ => ExecutionError::Io,
        }
    }
}

/// The solution architect as plain values.
pub struct ArchitectView {
    pub attributes: BasicAgentView,
    pub stage: ArchitectStage,
    /// The URLs under validation, and how many of them are done.
    pub pending_urls: Seq<Seq<char>>,
    pub probe_index: nat,
    /// The URLs that failed their probe so far.
    pub exclude_urls: Seq<Seq<char>>,
}

impl ArchitectView {
    /// The agent as [`AgentSolutionArchitect::new`] makes it.
    pub open spec fn fresh() -> ArchitectView {
        ArchitectView {
            attributes: BasicAgentView {
                objective: "Gather information and design solutions for website development"@,
                position: "Solutions Architect"@,
                state: AgentState::Discovery,
                memory: Seq::empty(),
            },
            stage: ArchitectStage::Idle,
            pending_urls: Seq::empty(),
            probe_index: 0,
            exclude_urls: Seq::empty(),
        }
    }

    /// The agent moved to `stage`, and to the phase that `stage` belongs to.
    pub open spec fn at_stage(self, stage: ArchitectStage) -> ArchitectView {
        ArchitectView {
            stage,
            attributes: BasicAgentView {
                state: match stage.phase() {
                    Some(phase) => phase,
                    None => self.attributes.state,
                },
                ..self.attributes
            },
            ..self
        }
    }

    /// Giving up on an event that is not the answer the stage waits for.
    pub open spec fn give_up(self, sheet: FactSheetView, event: AgentEventView) -> (
        ArchitectView,
        FactSheetView,
        AgentStepView,
    ) {
        let error = if event is Failed {
            self.stage.failure()
        } else {
            ExecutionError::UnexpectedEvent
        };
        (
            self.at_stage(ArchitectStage::Failed { error }),
            sheet,
            AgentStepView::quiet(AgentActionView::Abort { error }),
        )
    }

    /// Probing the next URL, or, when none is left, dropping the URLs that
    /// failed from the fact sheet and finishing.
    pub open spec fn next_probe(self, sheet: FactSheetView) -> (
        ArchitectView,
        FactSheetView,
        AgentStepView,
    ) {
        if self.probe_index < self.pending_urls.len() {
            (
                self.at_stage(ArchitectStage::AwaitingProbe),
                sheet,
                AgentStepView::quiet(
                    AgentActionView::ProbeUrl {
                        url: self.pending_urls[self.probe_index as int],
                        timeout_seconds: PROBE_TIMEOUT_SECONDS,
                    },
                ),
            )
        } else {
            (
                self.at_stage(ArchitectStage::Done),
                FactSheetView {
                    external_urls: match sheet.external_urls {
                        Some(urls) => Some(retain_valid(urls, self.exclude_urls)),
                        None => None,
                    },
                    ..sheet
                },
                AgentStepView::quiet(AgentActionView::Done),
            )
        }
    }

    /// The answer to the decoded project scope: it goes to the fact sheet,
    /// and the candidate URLs are asked for where the scope needs them.
    pub open spec fn after_scope(
        self,
        sheet: FactSheetView,
        scope: ProjectScope,
    ) -> (ArchitectView, FactSheetView, AgentStepView) {
        let scoped = FactSheetView { project_scope: Some(scope), ..sheet };
        if scope.is_external_urls_required {
            (
                self.at_stage(ArchitectStage::AwaitingUrls),
                scoped,
                AgentStepView::quiet(
                    AgentActionView::RequestList {
                        function: AiFunction::PrintSiteUrls,
                        context: sheet.project_description,
                    },
                ),
            )
        } else {
            (
                self.at_stage(ArchitectStage::Done),
                scoped,
                AgentStepView::quiet(AgentActionView::Done),
            )
        }
    }

    /// The answer to the candidate URLs: they go to the fact sheet, and
    /// their validation begins.
    pub open spec fn after_urls(self, sheet: FactSheetView, urls: Seq<Seq<char>>) -> (
        ArchitectView,
        FactSheetView,
        AgentStepView,
    ) {
        ArchitectView {
            pending_urls: urls,
            probe_index: 0,
            exclude_urls: Seq::empty(),
            ..self
        }.next_probe(FactSheetView { external_urls: Some(urls), ..sheet })
    }

    /// The answer to the result of a probe: a URL that did not answer with
    /// status 200 joins the excluded ones.
    pub open spec fn after_probe(self, sheet: FactSheetView, alive: bool) -> (
        ArchitectView,
        FactSheetView,
        AgentStepView,
    ) {
        ArchitectView {
            probe_index: self.probe_index + 1,
            exclude_urls: if alive {
                self.exclude_urls
            } else {
                self.exclude_urls.push(self.pending_urls[self.probe_index as int])
            },
            ..self
        }.next_probe(sheet)
    }

    /// The transition of the solution architect: what one event does to the
    /// agent and the fact sheet, and which step is handed to the driver.
    pub open spec fn step(self, sheet: FactSheetView, event: AgentEventView) -> (
        ArchitectView,
        FactSheetView,
        AgentStepView,
    ) {
        match self.stage {
            ArchitectStage::Failed { error } => (
                self,
                sheet,
                AgentStepView::quiet(AgentActionView::Abort { error }),
            ),
            ArchitectStage::Done => (self, sheet, AgentStepView::quiet(AgentActionView::Done)),
            ArchitectStage::Idle => match event {
                AgentEventView::Start => (
                    self.at_stage(ArchitectStage::AwaitingScope),
                    sheet,
                    AgentStepView::quiet(
                        AgentActionView::RequestDecoded {
                            function: AiFunction::PrintProjectScope,
                            context: sheet.project_description,
                        },
                    ),
                ),
                _ => self.give_up(sheet, event),
            },
            ArchitectStage::AwaitingScope => match event {
                AgentEventView::Scope(scope) => self.after_scope(sheet, scope),
                _ => self.give_up(sheet, event),
            },
            ArchitectStage::AwaitingUrls => match event {
                AgentEventView::Urls(urls) => self.after_urls(sheet, urls),
                AgentEventView::Text(text) => match decoded_text_list(text) {
                    Some(urls) => self.after_urls(sheet, urls),
                    None => self.give_up(sheet, AgentEventView::Failed),
                },
                _ => self.give_up(sheet, event),
            },
            ArchitectStage::AwaitingProbe => match event {
                AgentEventView::Status(code) => self.after_probe(sheet, code == STATUS_OK),
                AgentEventView::ProbeFailed(_) => self.after_probe(sheet, false),
                _ => self.give_up(sheet, event),
            },
        }
    }
}

/// The agent that settles the project's scope and finds and validates the
/// external URLs it may build on.
#[derive(Debug)]
pub struct AgentSolutionArchitect {
    attributes: BasicAgent,
    stage: ArchitectStage,
    pending_urls: Vec<String>,
    probe_index: usize,
    exclude_urls: Vec<String>,
}

impl DeepView for AgentSolutionArchitect {
    type V = ArchitectView;

    closed spec fn deep_view(&self) -> ArchitectView {
        ArchitectView {
            attributes: self.attributes@,
            stage: self.stage,
            pending_urls: self.pending_urls.deep_view(),
            probe_index: self.probe_index as nat,
            exclude_urls: self.exclude_urls.deep_view(),
        }
    }
}

impl View for AgentSolutionArchitect {
    type V = ArchitectView;

    closed spec fn view(&self) -> ArchitectView {
        self.deep_view()
    }
}

/// The phase that `stage` belongs to.
fn phase_of(stage: ArchitectStage) -> (phase: Option<AgentState>)
    ensures
        phase == stage.phase(),
{
    match stage {
        ArchitectStage::Idle
        | ArchitectStage::AwaitingScope
        | ArchitectStage::AwaitingUrls => Some(AgentState::Discovery),
        ArchitectStage::AwaitingProbe => Some(AgentState::UnitTesting),
        ArchitectStage::Done => Some(AgentState::Finished),
        ArchitectStage::Failed { .. } => None,
    }
}

/// A copy of `texts`, string by string.
fn copy_texts(texts: &Vec<String>) -> (copy: Vec<String>)
    ensures
        copy.deep_view() == texts.deep_view(),
{
    let mut copy: Vec<String> = Vec::new();
    let mut i: usize = 0;
    while i < texts.len()
        invariant
            i <= texts.len(),
            copy.len() == i,
            forall|k: int| 0 <= k < i ==> (#[trigger] copy[k])@ == texts[k]@,
        decreases texts.len() - i,
    {
        copy.push(texts[i].clone());
        i = i + 1;
    }
    proof {
        assert(copy.deep_view() =~= texts.deep_view());
    }
    copy
}

impl AgentSolutionArchitect {
    /// A probe is awaited only for a URL.
    #[verifier::type_invariant]
    spec fn inv(self) -> bool {
        self.stage is AwaitingProbe ==> self.probe_index < self.pending_urls.len()
    }

    /// A solution architect that has not begun: in `Discovery`, with no URL
    /// under validation.
    pub fn new() -> (agent: Self)
        ensures
            agent@ == ArchitectView::fresh(),
    {
        let attributes = BasicAgent::new(
            String::from_str("Gather information and design solutions for website development"),
            String::from_str("Solutions Architect"),
        );
        let agent = AgentSolutionArchitect {
            attributes,
            stage: ArchitectStage::Idle,
            pending_urls: Vec::new(),
            probe_index: 0,
            exclude_urls: Vec::new(),
        };
        proof {
            assert(agent.pending_urls.deep_view() =~= Seq::<Seq<char>>::empty());
            assert(agent.exclude_urls.deep_view() =~= Seq::<Seq<char>>::empty());
        }
        agent
    }

    /// Moves to `stage`, and to the phase that `stage` belongs to.
    fn enter(&mut self, stage: ArchitectStage)
        requires
            stage is AwaitingProbe ==> old(self).probe_index < old(self).pending_urls.len(),
        ensures
            final(self)@ == old(self)@.at_stage(stage),
    {
        self.stage = stage;
        match phase_of(stage) {
            Some(phase) => {
                self.attributes.update_state(phase);
            },
            None => {},
        }
    }

    /// Gives up on an event that is not the answer the stage waits for.
    fn give_up(&mut self, factsheet: &FactSheet, event: &AgentEvent) -> (step: AgentStep)
        ensures
            (final(self)@, factsheet@, step@) == old(self)@.give_up(factsheet@, event@),
    {
        let error = match event {
            AgentEvent::Failed => match self.stage {
                ArchitectStage::AwaitingScope
                | ArchitectStage::AwaitingUrls => ExecutionError::MalformedResponse,
                _ => ExecutionError::Io,
            },
            _ => ExecutionError::UnexpectedEvent,
        };
        self.enter(ArchitectStage::Failed { error });
        AgentStep { issue: None, action: AgentAction::Abort { error } }
    }

    /// Probes the next URL, or ends the validation when none is left.
    fn next_probe(&mut self, factsheet: &mut FactSheet) -> (step: AgentStep)
        requires
            !(old(self).stage is AwaitingProbe),
        ensures
            (final(self)@, final(factsheet)@, step@) == old(self)@.next_probe(old(factsheet)@),
    {
        if self.probe_index < self.pending_urls.len() {
            let url = self.pending_urls[self.probe_index].clone();
            self.enter(ArchitectStage::AwaitingProbe);
            AgentStep {
                issue: None,
                action: AgentAction::ProbeUrl { url, timeout_seconds: PROBE_TIMEOUT_SECONDS },
            }
        } else {
            let kept = match &factsheet.external_urls {
                Some(urls) => Some(retain_valid_urls(urls, &self.exclude_urls)),
                None => None,
            };
            factsheet.external_urls = kept;
            self.enter(ArchitectStage::Done);
            AgentStep { issue: None, action: AgentAction::Done }
        }
    }

    /// Answers the candidate URLs.
    fn after_urls(&mut self, factsheet: &mut FactSheet, urls: Vec<String>) -> (step: AgentStep)
        requires
            old(self).stage is AwaitingUrls,
        ensures
            (final(self)@, final(factsheet)@, step@) == old(self)@.after_urls(
                old(factsheet)@,
                urls.deep_view(),
            ),
    {
        self.pending_urls = copy_texts(&urls);
        self.probe_index = 0;
        self.exclude_urls = Vec::new();
        factsheet.external_urls = Some(urls);
        proof {
            assert(self.exclude_urls.deep_view() =~= Seq::<Seq<char>>::empty());
        }
        self.next_probe(factsheet)
    }

    /// Answers a probe result.
    fn after_probe(&mut self, factsheet: &mut FactSheet, alive: bool) -> (step: AgentStep)
        requires
            old(self).stage is AwaitingProbe,
        ensures
            (final(self)@, final(factsheet)@, step@) == old(self)@.after_probe(
                old(factsheet)@,
                alive,
            ),
    {
        proof {
            use_type_invariant(&*self);
        }
        if !alive {
            let ghost before = self.exclude_urls.deep_view();
            let url = self.pending_urls[self.probe_index].clone();
            let mut excluded: Vec<String> = Vec::new();
            core::mem::swap(&mut self.exclude_urls, &mut excluded);
            excluded.push(url);
            self.exclude_urls = excluded;
            assert(self.exclude_urls.deep_view() =~= before.push(
                self.pending_urls[self.probe_index as int]@,
            ));
        }
        self.stage = ArchitectStage::Idle;
        self.probe_index = self.probe_index + 1;
        self.next_probe(factsheet)
    }
}

impl SpecialFunctions for AgentSolutionArchitect {
    open spec fn transition(pre: ArchitectView, sheet: FactSheetView, event: AgentEventView) -> (
        ArchitectView,
        FactSheetView,
        AgentStepView,
    ) {
        pre.step(sheet, event)
    }

    open spec fn identity(pre: ArchitectView) -> BasicAgentView {
        pre.attributes
    }

    fn get_attributes_from_agent(&self) -> (attributes: &BasicAgent) {
        &self.attributes
    }

    /// Advances the solution architect by one event, as
    /// [`ArchitectView::step`] says.
    fn execute(&mut self, factsheet: &mut FactSheet, event: AgentEvent) -> (step: AgentStep) {
        proof {
            use_type_invariant(&*self);
        }
        match self.stage {
            ArchitectStage::Failed { error } => AgentStep {
                issue: None,
                action: AgentAction::Abort { error },
            },
            ArchitectStage::Done => AgentStep { issue: None, action: AgentAction::Done },
            ArchitectStage::Idle => match event {
                AgentEvent::Start => {
                    let context = factsheet.project_description.clone();
                    self.enter(ArchitectStage::AwaitingScope);
                    AgentStep {
                        issue: None,
                        action: AgentAction::RequestDecoded {
                            function: AiFunction::PrintProjectScope,
                            context,
                        },
                    }
                },
                other => self.give_up(factsheet, &other),
            },
            ArchitectStage::AwaitingScope => match event {
                AgentEvent::Scope(scope) => {
                    factsheet.project_scope = Some(scope);
                    if scope.is_external_urls_required {
                        let context = factsheet.project_description.clone();
                        self.enter(ArchitectStage::AwaitingUrls);
                        AgentStep {
                            issue: None,
                            action: AgentAction::RequestList {
                                function: AiFunction::PrintSiteUrls,
                                context,
                            },
                        }
                    } else {
                        self.enter(ArchitectStage::Done);
                        AgentStep { issue: None, action: AgentAction::Done }
                    }
                },
                other => self.give_up(factsheet, &other),
            },
            ArchitectStage::AwaitingUrls => match event {
                AgentEvent::Urls(urls) => self.after_urls(factsheet, urls),
                AgentEvent::Text(text) => match decode_text_list(text.as_str()) {
                    Some(urls) => self.after_urls(factsheet, urls),
                    None => self.give_up(factsheet, &AgentEvent::Failed),
                },
                other => self.give_up(factsheet, &other),
            },
            ArchitectStage::AwaitingProbe => match event {
                AgentEvent::Status(code) => self.after_probe(factsheet, code == STATUS_OK),
                AgentEvent::ProbeFailed(_) => self.after_probe(factsheet, false),
                other => self.give_up(factsheet, &other),
            },
        }
    }
}

impl ArchitectView {
    /// What holds of the agent in every state it can reach from
    /// [`ArchitectView::fresh`]: the phase is that of the stage, and a probe
    /// is awaited only for a URL.
    pub open spec fn wf(self) -> bool {
        &&& match self.stage.phase() {
            Some(phase) => self.attributes.state == phase,
            None => true,
        }
        &&& (self.stage is AwaitingProbe ==> self.probe_index < self.pending_urls.len())
    }

    /// The agent and the fact sheet after the events of `events`, handed in
    /// one by one.
    pub open spec fn run(self, sheet: FactSheetView, events: Seq<AgentEventView>) -> (
        ArchitectView,
        FactSheetView,
    )
        decreases events.len(),
    {
        if events.len() == 0 {
            (self, sheet)
        } else {
            let (next, next_sheet, _) = self.step(sheet, events[0]);
            next.run(next_sheet, events.drop_first())
        }
    }

    /// How many times the run over `events` writes the project scope.
    pub open spec fn scope_writes(self, sheet: FactSheetView, events: Seq<AgentEventView>) -> nat
        decreases events.len(),
    {
        if events.len() == 0 {
            0
        } else {
            let (next, next_sheet, _) = self.step(sheet, events[0]);
            (if self.writes_scope(events[0]) {
                1nat
            } else {
                0nat
            }) + next.scope_writes(next_sheet, events.drop_first())
        }
    }

    /// Whether the step on `event` writes the project scope.
    pub open spec fn writes_scope(self, event: AgentEventView) -> bool {
        self.stage is AwaitingScope && event is Scope
    }

    /// Whether the agent may still write the project scope.
    pub open spec fn scope_pending(self) -> bool {
        self.stage is Idle || self.stage is AwaitingScope
    }
}

impl ArchitectView {
    /// How many URLs are still to be probed.
    pub open spec fn probes_left(self) -> nat {
        (self.pending_urls.len() - self.probe_index) as nat
    }
}

/// Every step of an agent that has not finished or given up makes progress:
/// it moves to a later stage or probes one more URL. So no run goes on for
/// ever.
pub proof fn lemma_architect_progress(
    pre: ArchitectView,
    sheet: FactSheetView,
    event: AgentEventView,
)
    requires
        pre.wf(),
        !pre.stage.is_terminal(),
    ensures
        decreases_to!(
            pre.stage.rank(), pre.probes_left() =>
            pre.step(sheet, event).0.stage.rank(),
            pre.step(sheet, event).0.probes_left()
        ),
{
}

/// Whether a probe found the URL alive: it answered with status 200.
pub open spec fn probe_alive(result: AgentEventView) -> bool {
    result == AgentEventView::Status(STATUS_OK)
}

/// The first `n` URLs of `urls` whose probe did not find them alive, where
/// `results[i]` is the result of the probe of `urls[i]`.
pub open spec fn failed_urls(urls: Seq<Seq<char>>, results: Seq<AgentEventView>, n: nat) -> Seq<
    Seq<char>,
>
    decreases n,
{
    if n == 0 {
        Seq::empty()
    } else {
        let before = failed_urls(urls, results, (n - 1) as nat);
        if probe_alive(results[n - 1]) {
            before
        } else {
            before.push(urls[n - 1])
        }
    }
}

/// Whether `part` can be had from `whole` by leaving items out: nothing is
/// added and the order is kept.
pub open spec fn is_subsequence(part: Seq<Seq<char>>, whole: Seq<Seq<char>>) -> bool
    decreases whole.len(),
{
    if part.len() == 0 {
        true
    } else if whole.len() == 0 {
        false
    } else {
        ||| part.last() == whole.last() && is_subsequence(part.drop_last(), whole.drop_last())
        ||| is_subsequence(part, whole.drop_last())
    }
}

/// A new solution architect is in a state that [`ArchitectView::wf`] admits.
pub proof fn lemma_architect_fresh_wf()
    ensures
        ArchitectView::fresh().wf(),
{
}

/// Every step keeps the solution architect in a state that
/// [`ArchitectView::wf`] admits.
pub proof fn lemma_architect_step_wf(
    pre: ArchitectView,
    sheet: FactSheetView,
    event: AgentEventView,
)
    requires
        pre.wf(),
    ensures
        pre.step(sheet, event).0.wf(),
{
}

/// The solution architect writes the fact sheet's scope and external URLs
/// and nothing else: the description, the code and the endpoint schema stay
/// as they were.
pub proof fn lemma_architect_owns_its_fields(
    pre: ArchitectView,
    sheet: FactSheetView,
    event: AgentEventView,
)
    ensures
        pre.step(sheet, event).1.project_description == sheet.project_description,
        pre.step(sheet, event).1.backend_code == sheet.backend_code,
        pre.step(sheet, event).1.api_endpoint_schema == sheet.api_endpoint_schema,
{
}

/// The project scope changes only on the step that writes it, and after
/// that step the agent cannot write it again.
pub proof fn lemma_scope_step(pre: ArchitectView, sheet: FactSheetView, event: AgentEventView)
    ensures
        !pre.writes_scope(event) ==> pre.step(sheet, event).1.project_scope
            == sheet.project_scope,
        pre.writes_scope(event) ==> pre.step(sheet, event).1.project_scope == Some(
            event->Scope_0,
        ) && !pre.step(sheet, event).0.scope_pending(),
        !pre.scope_pending() ==> !pre.step(sheet, event).0.scope_pending(),
{
}

/// Over any run, the solution architect writes the project scope at most
/// once, and not at all once it has written it.
pub proof fn lemma_scope_written_at_most_once(
    pre: ArchitectView,
    sheet: FactSheetView,
    events: Seq<AgentEventView>,
)
    ensures
        pre.scope_writes(sheet, events) <= 1,
        !pre.scope_pending() ==> pre.scope_writes(sheet, events) == 0,
        !pre.scope_pending() ==> !pre.run(sheet, events).0.scope_pending(),
    decreases events.len(),
{
    if events.len() > 0 {
        let (next, next_sheet, _) = pre.step(sheet, events[0]);
        lemma_scope_step(pre, sheet, events[0]);
        lemma_scope_written_at_most_once(next, next_sheet, events.drop_first());
    }
}

/// The text of the candidate URLs is answered as the list that it decodes
/// to, and a text that does not decode ends the run.
pub proof fn lemma_urls_are_decoded(pre: ArchitectView, sheet: FactSheetView, text: Seq<char>)
    requires
        pre.stage is AwaitingUrls,
    ensures
        match decoded_text_list(text) {
            Some(urls) => pre.step(sheet, AgentEventView::Text(text)) == pre.step(
                sheet,
                AgentEventView::Urls(urls),
            ),
            None => pre.step(sheet, AgentEventView::Text(text)).2.action
                == (AgentActionView::Abort { error: ExecutionError::MalformedResponse })
                && pre.step(sheet, AgentEventView::Text(text)).1 == sheet,
        },
{
}

/// The external URLs change on two steps only: when the candidate URLs
/// arrive, and when the validation ends. What the validation leaves is what
/// was there without the excluded URLs.
pub proof fn lemma_urls_step(pre: ArchitectView, sheet: FactSheetView, event: AgentEventView)
    requires
        !(pre.stage is AwaitingUrls && (event is Urls || event is Text)),
    ensures
        ({
            let (post, next_sheet, _) = pre.step(sheet, event);
            ||| next_sheet.external_urls == sheet.external_urls
            ||| sheet.external_urls is Some && next_sheet.external_urls == Some(
                retain_valid(sheet.external_urls->0, post.exclude_urls),
            )
        }),
{
}

/// Dropping the excluded URLs never adds a URL and keeps the order of those
/// that stay: a URL stays if and only if it is not excluded.
pub proof fn lemma_retain_valid(urls: Seq<Seq<char>>, excluded: Seq<Seq<char>>)
    ensures
        is_subsequence(retain_valid(urls, excluded), urls),
        retain_valid(urls, excluded).len() <= urls.len(),
        forall|url: Seq<char>| #[trigger]
            retain_valid(urls, excluded).contains(url) <==> urls.contains(url)
                && !excluded.contains(url),
    decreases urls.len(),
{
    reveal(Seq::filter);
    let kept = retain_valid(urls, excluded);
    if urls.len() > 0 {
        let body = urls.drop_last();
        let kept_body = retain_valid(body, excluded);
        lemma_retain_valid(body, excluded);
        assert(kept == if excluded.contains(urls.last()) {
            kept_body
        } else {
            kept_body.push(urls.last())
        });
        if !excluded.contains(urls.last()) {
            assert(kept.drop_last() =~= kept_body);
            assert(kept.last() == urls.last());
        }
        assert forall|url: Seq<char>| #[trigger]
            kept.contains(url) <==> urls.contains(url) && !excluded.contains(url) by {
            if kept.contains(url) {
                let i = choose|i: int| 0 <= i < kept.len() && kept[i] == url;
                if i < kept_body.len() {
                    assert(kept_body[i] == url);
                    assert(kept_body.contains(url));
                    let j = choose|j: int| 0 <= j < body.len() && body[j] == url;
                    assert(urls[j] == url);
                } else {
                    assert(urls[urls.len() - 1] == url);
                }
            }
            if urls.contains(url) && !excluded.contains(url) {
                let j = choose|j: int| 0 <= j < urls.len() && urls[j] == url;
                if j < body.len() {
                    assert(body[j] == url);
                    assert(body.contains(url));
                    assert(kept_body.contains(url));
                    let i = choose|i: int| 0 <= i < kept_body.len() && kept_body[i] == url;
                    assert(kept[i] == url);
                } else {
                    assert(kept[kept.len() - 1] == url);
                }
            }
        }
    }
}

/// The URLs that failed are the URLs that have a probe that did not find
/// them alive.
pub proof fn lemma_failed_urls(urls: Seq<Seq<char>>, results: Seq<AgentEventView>, n: nat)
    requires
        n <= urls.len(),
        results.len() == urls.len(),
    ensures
        forall|url: Seq<char>| #[trigger]
            failed_urls(urls, results, n).contains(url) <==> exists|i: int|
                0 <= i < n && urls[i] == url && !probe_alive(#[trigger] results[i]),
    decreases n,
{
    let failed = failed_urls(urls, results, n);
    if n == 0 {
        assert forall|url: Seq<char>| #[trigger]
            failed.contains(url) <==> exists|i: int|
                0 <= i < n && urls[i] == url && !probe_alive(#[trigger] results[i]) by {
            assert(failed.len() == 0);
        }
    } else {
        let before = failed_urls(urls, results, (n - 1) as nat);
        lemma_failed_urls(urls, results, (n - 1) as nat);
        assert forall|url: Seq<char>| #[trigger]
            failed.contains(url) <==> exists|i: int|
                0 <= i < n && urls[i] == url && !probe_alive(#[trigger] results[i]) by {
            if failed.contains(url) {
                let k = choose|k: int| 0 <= k < failed.len() && failed[k] == url;
                if k < before.len() {
                    assert(before[k] == url);
                    assert(before.contains(url));
                    let i = choose|i: int|
                        0 <= i < n - 1 && urls[i] == url && !probe_alive(#[trigger] results[i]);
                    assert(0 <= i < n && urls[i] == url && !probe_alive(results[i]));
                } else {
                    assert(urls[n - 1] == url && !probe_alive(results[n - 1]));
                }
            }
            if exists|i: int| 0 <= i < n && urls[i] == url && !probe_alive(#[trigger] results[i]) {
                let i = choose|i: int|
                    0 <= i < n && urls[i] == url && !probe_alive(#[trigger] results[i]);
                if i < n - 1 {
                    assert(0 <= i < n - 1 && urls[i] == url && !probe_alive(results[i]));
                    assert(before.contains(url));
                    let k = choose|k: int| 0 <= k < before.len() && before[k] == url;
                    assert(failed[k] == url);
                } else {
                    assert(failed[failed.len() - 1] == url);
                }
            }
        }
    }
}

/// From the middle of a validation pass to its end: with `done` URLs probed
/// and their failures excluded, the results of the other probes lead to the
/// fact sheet that holds the URLs without those that failed.
proof fn lemma_validation_rest(
    pre: ArchitectView,
    sheet: FactSheetView,
    urls: Seq<Seq<char>>,
    results: Seq<AgentEventView>,
    done: nat,
)
    requires
        pre.stage is AwaitingProbe,
        pre.pending_urls == urls,
        pre.probe_index == done,
        done < urls.len(),
        results.len() == urls.len(),
        forall|i: int| 0 <= i < results.len() ==> (#[trigger] results[i]) is Status || results[i] is ProbeFailed,
        pre.exclude_urls == failed_urls(urls, results, done),
        sheet.external_urls == Some(urls),
    ensures
        pre.run(sheet, results.skip(done as int)).0.stage is Done,
        pre.run(sheet, results.skip(done as int)).1 == (FactSheetView {
            external_urls: Some(retain_valid(urls, failed_urls(urls, results, urls.len()))),
            ..sheet
        }),
    decreases urls.len() - done,
{
    let rest = results.skip(done as int);
    assert(rest[0] == results[done as int]);
    let (next, next_sheet, _) = pre.step(sheet, rest[0]);
    let alive = probe_alive(rest[0]);
    assert(pre.step(sheet, rest[0]) == pre.after_probe(sheet, alive));
    assert(pre.run(sheet, rest) == next.run(next_sheet, rest.drop_first()));
    assert(rest.drop_first() =~= results.skip(done + 1 as int));
    assert(next.exclude_urls == failed_urls(urls, results, (done + 1) as nat));
    if done + 1 < urls.len() {
        assert(next.stage is AwaitingProbe);
        assert(next_sheet == sheet);
        lemma_validation_rest(next, next_sheet, urls, results, (done + 1) as nat);
    } else {
        assert(rest.drop_first().len() == 0);
        assert(next.run(next_sheet, rest.drop_first()) == (next, next_sheet));
        assert((done + 1) as nat == urls.len());
    }
}

/// A whole validation pass: when the candidate URLs arrive and every probe
/// is answered, the agent finishes, and the fact sheet holds the candidates
/// without those whose probe did not return status 200, in their order.
/// No URL is added: a URL stays if and only if it was a candidate and every
/// probe of it found it alive. Nothing else on the fact sheet changes.
pub proof fn lemma_validation_pass(
    pre: ArchitectView,
    sheet: FactSheetView,
    urls: Seq<Seq<char>>,
    results: Seq<AgentEventView>,
)
    requires
        pre.stage is AwaitingUrls,
        results.len() == urls.len(),
        forall|i: int| 0 <= i < results.len() ==> (#[trigger] results[i]) is Status || results[i] is ProbeFailed,
    ensures
        pre.run(sheet, seq![AgentEventView::Urls(urls)] + results).0.stage is Done,
        pre.run(sheet, seq![AgentEventView::Urls(urls)] + results).1 == (FactSheetView {
            external_urls: Some(retain_valid(urls, failed_urls(urls, results, urls.len()))),
            ..sheet
        }),
        is_subsequence(retain_valid(urls, failed_urls(urls, results, urls.len())), urls),
        forall|url: Seq<char>| #[trigger]
            retain_valid(urls, failed_urls(urls, results, urls.len())).contains(url) <==> (
            urls.contains(url) && forall|i: int|
                0 <= i < urls.len() && urls[i] == url ==> probe_alive(#[trigger] results[i])),
{
    let events = seq![AgentEventView::Urls(urls)] + results;
    lemma_failed_urls(urls, results, urls.len());
    assert(events[0] == AgentEventView::Urls(urls));
    assert(events.drop_first() =~= results);
    let (next, next_sheet, _) = pre.step(sheet, events[0]);
    assert(pre.run(sheet, events) == next.run(next_sheet, results));
    lemma_retain_valid(urls, failed_urls(urls, results, urls.len()));
    if urls.len() > 0 {
        assert(next.stage is AwaitingProbe);
        assert(results.skip(0) =~= results);
        lemma_validation_rest(next, next_sheet, urls, results, 0);
    } else {
        let empty = Seq::<Seq<char>>::empty();
        assert(retain_valid(urls, empty) =~= urls) by {
            reveal(Seq::filter);
        }
    }
}

} // verus!
