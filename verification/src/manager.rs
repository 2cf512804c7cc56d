use crate::architect::AgentSolutionArchitect;
use crate::backend::AgentBackendDeveloper;
use crate::basic_agent::{AgentState, BasicAgent};
use crate::factsheet::FactSheet;
use vstd::prelude::*;
use vstd::string::StringExecFns;

verus! {

/// The closed set of roles the orchestrator can run, in place of
/// open-ended dispatch: every agent in the run list is one of these.
#[derive(Debug)]
pub enum AgentRole {
    Architect(AgentSolutionArchitect),
    BackendDeveloper(AgentBackendDeveloper),
}

/// The orchestrator of one run: it owns the single fact sheet, builds
/// the fixed ordered role list, and lends the sheet to one role at a
/// time, strictly in list order, each role running its machine to
/// `Finished` before the next starts. A fatal error inside any role is
/// not caught here — it ends the whole run.
#[derive(Debug)]
pub struct ManagingAgent {
    pub attributes: BasicAgent,
    pub factsheet: FactSheet,
    pub agents: Vec<AgentRole>,
}

impl ManagingAgent {
    /// A fresh orchestrator around the given project description: the
    /// fact sheet carries that description and nothing else, and the
    /// role list starts empty.
    pub fn new(project_description: String) -> (r: Self)
        ensures
            r.attributes.state == AgentState::Discovery,
            r.attributes.objective@
                == "Manage agents who are building an excellent software product"@,
            r.attributes.position@ == "Project Manager"@,
            r.attributes.memory@.len() == 0,
            r.factsheet.project_description == project_description,
            r.factsheet.project_scope is None,
            r.factsheet.external_urls is None,
            r.factsheet.backend_code is None,
            r.factsheet.api_endpoints_schema is None,
            r.agents@.len() == 0,
    {
        ManagingAgent {
            attributes: BasicAgent::new(
                String::from_str("Manage agents who are building an excellent software product"),
                String::from_str("Project Manager"),
            ),
            factsheet: FactSheet::new(project_description),
            agents: Vec::new(),
        }
    }

    /// Appends one role to the end of the run list.
    pub fn add_agent(&mut self, agent: AgentRole)
        ensures
            final(self).agents@ == old(self).agents@.push(agent),
            final(self).attributes == old(self).attributes,
            final(self).factsheet == old(self).factsheet,
    {
        self.agents.push(agent);
    }

    /// Builds the fixed run list: a fresh architect first, then a fresh
    /// backend developer, appended in that order after whatever the
    /// list already holds.
    pub fn create_agent(&mut self)
        ensures
            final(self).agents@.len() == old(self).agents@.len() + 2,
            forall|i: int|
                0 <= i < old(self).agents@.len() ==> final(self).agents@[i] == old(self).agents@[i],
            final(self).agents@[old(self).agents@.len() as int] matches AgentRole::Architect(a)
                && a.attributes.state == AgentState::Discovery && a.attributes.position@
                == "Solutions Architect"@,
            final(self).agents@[old(self).agents@.len() + 1int] matches AgentRole::BackendDeveloper(b)
                && b.attributes.state == AgentState::Discovery && b.attributes.position@
                == "Backend Developer"@ && b.bug_count == 0 && b.bug_errors is None,
            final(self).attributes == old(self).attributes,
            final(self).factsheet == old(self).factsheet,
    {
        self.add_agent(AgentRole::Architect(AgentSolutionArchitect::new()));
        self.add_agent(AgentRole::BackendDeveloper(AgentBackendDeveloper::new()));
    }
}

} // verus!
