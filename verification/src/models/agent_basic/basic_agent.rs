use crate::models::general::llm::{Message, MessageView};
use vstd::prelude::*;

verus! {

/// The lifecycle phases shared by every kind of agent.
#[derive(Debug, Clone, Copy, PartialEq, Eq, Structural)]
pub enum AgentState {
    Discovery,
    Working,
    UnitTesting,
    Finished,
}

/// The identity and state record that every agent holds.
#[derive(Debug, PartialEq)]
pub struct BasicAgent {
    pub objective: String,
    pub position: String,
    pub state: AgentState,
    pub memory: Vec<Message>,
}

/// A [`BasicAgent`] as plain values.
pub struct BasicAgentView {
    pub objective: Seq<char>,
    pub position: Seq<char>,
    pub state: AgentState,
    pub memory: Seq<MessageView>,
}

impl DeepView for BasicAgent {
    type V = BasicAgentView;

    open spec fn deep_view(&self) -> BasicAgentView {
        BasicAgentView {
            objective: self.objective@,
            position: self.position@,
            state: self.state,
            memory: self.memory.deep_view(),
        }
    }
}

impl View for BasicAgent {
    type V = BasicAgentView;

    open spec fn view(&self) -> BasicAgentView {
        self.deep_view()
    }
}

impl BasicAgent {
    /// A new agent record in the `Discovery` phase with an empty memory.
    pub fn new(objective: String, position: String) -> (agent: BasicAgent)
        ensures
            agent@ == (BasicAgentView {
                objective: objective@,
                position: position@,
                state: AgentState::Discovery,
                memory: Seq::empty(),
            }),
    {
        let agent = BasicAgent {
            objective,
            position,
            state: AgentState::Discovery,
            memory: Vec::new(),
        };
        assert(agent.memory.deep_view() =~= Seq::<MessageView>::empty());
        agent
    }

    /// Moves the agent to `new_state` and changes nothing else.
    pub fn update_state(&mut self, new_state: AgentState)
        ensures
            final(self)@ == (BasicAgentView { state: new_state, ..old(self)@ }),
        no_unwind
    {
        self.state = new_state;
    }
}

} // verus!
