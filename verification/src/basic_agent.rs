use crate::llm::Message;
use vstd::prelude::*;

verus! {

/// The state alphabet shared by every role's machine. Each role defines
/// its own transition table over these states, starts in `Discovery`,
/// and must reach `Finished`; a state a role does not handle forces
/// `Finished` so that every machine makes progress on every tick.
#[derive(Clone, Copy, Debug, PartialEq, Eq, Structural)]
pub enum AgentState {
    Discovery,
    Working,
    UnitTesting,
    Finished,
}

/// The role-independent core of an agent: fixed objective and position
/// labels, the current machine state, and the transcript of prior
/// oracle exchanges.
#[derive(Debug)]
pub struct BasicAgent {
    pub objective: String,
    pub position: String,
    pub state: AgentState,
    pub memory: Vec<Message>,
}

impl BasicAgent {
    /// A fresh agent: the given labels, the initial state, and an empty
    /// transcript.
    pub fn new(objective: String, position: String) -> (r: Self)
        ensures
            r.objective == objective,
            r.position == position,
            r.state == AgentState::Discovery,
            r.memory@.len() == 0,
    {
        BasicAgent { objective, position, state: AgentState::Discovery, memory: Vec::new() }
    }

    /// Moves the machine to the given state and changes nothing else.
    pub fn update_state(&mut self, state: AgentState)
        ensures
            final(self).state == state,
            final(self).objective == old(self).objective,
            final(self).position == old(self).position,
            final(self).memory == old(self).memory,
    {
        self.state = state;
    }

    pub fn get_objective(&self) -> (r: &String)
        ensures
            *r == self.objective,
    {
        &self.objective
    }

    pub fn get_position(&self) -> (r: &String)
        ensures
            *r == self.position,
    {
        &self.position
    }

    pub fn get_state(&self) -> (r: &AgentState)
        ensures
            *r == self.state,
    {
        &self.state
    }

    pub fn get_memory(&self) -> (r: &Vec<Message>)
        ensures
            *r == self.memory,
    {
        &self.memory
    }
}

} // verus!
