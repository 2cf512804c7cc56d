use crate::basic_agent::{AgentState, BasicAgent};
use crate::error::AgentError;
use crate::factsheet::{FactSheet, RouteObject};
use vstd::prelude::*;
use vstd::string::StringExecFns;

verus! {

/// The bug counter after one build: any success resets it to exactly
/// zero; a failure raises it by one.
pub open spec fn bug_count_after(count: int, build_ok: bool) -> int {
    if build_ok {
        0
    } else {
        count + 1
    }
}

/// Whether one build outcome ends the run: only a failure that pushes
/// the counter past two — the third consecutive failure — is fatal.
pub open spec fn build_is_fatal(count: int, build_ok: bool) -> bool {
    !build_ok && count + 1 > 2
}

/// Within a repair sequence the bug counter strictly grows on every
/// failure — it never decreases — and any build success resets it to
/// exactly zero.
pub proof fn lemma_bug_count_monotone(count: int)
    ensures
        bug_count_after(count, false) > count,
        bug_count_after(count, true) == 0,
{
}

/// The repair budget: from a clean counter, the first two consecutive
/// build failures are survivable, the third is fatal; and two failures
/// followed by a success are not fatal and leave the counter clean.
pub proof fn lemma_repair_budget()
    ensures
        !build_is_fatal(0, false),
        !build_is_fatal(bug_count_after(0, false), false),
        build_is_fatal(bug_count_after(bug_count_after(0, false), false), false),
        !build_is_fatal(bug_count_after(bug_count_after(0, false), false), true),
        bug_count_after(bug_count_after(bug_count_after(0, false), false), true) == 0,
{
}

/// Whether a discovered route is eligible for runtime validation: its
/// method is exactly `"get"` and its dynamic marker is exactly the
/// string `"false"` — both case-sensitive, as the oracle spelled them.
pub open spec fn route_kept(r: RouteObject) -> bool {
    r.method@ == "get"@ && r.is_route_dynamic@ == "false"@
}

/// The route list reduced to the entries eligible for validation, in
/// their original order.
pub open spec fn filter_get_static(routes: Seq<RouteObject>) -> Seq<RouteObject>
    decreases routes.len(),
{
    if routes.len() == 0 {
        Seq::empty()
    } else {
        let rest = filter_get_static(routes.drop_last());
        if route_kept(routes.last()) {
            rest.push(routes.last())
        } else {
            rest
        }
    }
}

/// A descriptor stands in the filtered list exactly when it stood in
/// the discovered list and is validation-eligible: method exactly
/// `"get"` and dynamic marker exactly `"false"`.
pub proof fn lemma_filter_get_static_iff(routes: Seq<RouteObject>)
    ensures
        forall|x: RouteObject| #[trigger] filter_get_static(routes).contains(x) <==> routes.contains(
            x,
        ) && route_kept(x),
    decreases routes.len(),
{
    if routes.len() > 0 {
        let n = routes.len() as int;
        let r0 = routes.drop_last();
        lemma_filter_get_static_iff(r0);
        let rest = filter_get_static(r0);
        assert forall|x: RouteObject| #[trigger] filter_get_static(routes).contains(
            x,
        ) implies routes.contains(x) && route_kept(x) by {
            let full = filter_get_static(routes);
            let j = choose|j: int| 0 <= j < full.len() && full[j] == x;
            if route_kept(routes.last()) && j == rest.len() {
                assert(x == routes.last());
                assert(routes[n - 1] == x);
            } else {
                assert(rest[j] == x);
                assert(rest.contains(x));
                let k = choose|k: int| 0 <= k < r0.len() && r0[k] == x;
                assert(routes[k] == x);
            }
        }
        assert forall|x: RouteObject| routes.contains(x) && route_kept(
            x,
        ) implies #[trigger] filter_get_static(routes).contains(x) by {
            let k = choose|k: int| 0 <= k < n && routes[k] == x;
            if k < n - 1 {
                assert(r0[k] == x);
                assert(r0.contains(x));
                assert(rest.contains(x));
                let j = choose|j: int| 0 <= j < rest.len() && rest[j] == x;
                if route_kept(routes.last()) {
                    assert(rest.push(routes.last())[j] == x);
                } else {
                    assert(filter_get_static(routes)[j] == x);
                }
            } else {
                assert(x == routes.last());
                assert(filter_get_static(routes) == rest.push(x));
                assert(rest.push(x)[rest.len() as int] == x);
            }
        }
    }
}

/// The kind of code revision the role asks of the oracle while
/// `Working`: a general improvement pass when the last build was clean,
/// or a bug-fix pass carrying the captured build errors.
#[derive(Debug)]
pub enum CodeRequest {
    Improve,
    FixBugs(String),
}

/// The role that generates the server code, drives it through the
/// bounded build-and-repair loop, extracts the route schema, and
/// validates each eligible route at runtime.
#[derive(Debug)]
pub struct AgentBackendDeveloper {
    pub attributes: BasicAgent,
    pub bug_errors: Option<String>,
    pub bug_count: u8,
}

impl AgentBackendDeveloper {
    /// Whenever the counter records failures, the errors of the last
    /// failed build are on hand for the next repair request.
    pub open spec fn wf(&self) -> bool {
        self.bug_count > 0 ==> self.bug_errors is Some
    }

    /// A fresh backend developer in `Discovery`, with a clean bug
    /// counter and no captured errors.
    pub fn new() -> (r: Self)
        ensures
            r.attributes.state == AgentState::Discovery,
            r.attributes.objective@
                == "Develops the backend code for the webserver and mongodb database"@,
            r.attributes.position@ == "Backend Developer"@,
            r.attributes.memory@.len() == 0,
            r.bug_errors is None,
            r.bug_count == 0,
            r.wf(),
    {
        AgentBackendDeveloper {
            attributes: BasicAgent::new(
                String::from_str(
                    "Develops the backend code for the webserver and mongodb database",
                ),
                String::from_str("Backend Developer"),
            ),
            bug_errors: None,
            bug_count: 0,
        }
    }

    /// Records the first generated server code on the fact sheet and
    /// moves the machine from `Discovery` to `Working`.
    pub fn record_initial_code(&mut self, factsheet: &mut FactSheet, code: String)
        requires
            old(self).attributes.state == AgentState::Discovery,
        ensures
            final(factsheet).backend_code == Some(code),
            final(factsheet).project_description == old(factsheet).project_description,
            final(factsheet).project_scope == old(factsheet).project_scope,
            final(factsheet).external_urls == old(factsheet).external_urls,
            final(factsheet).api_endpoints_schema == old(factsheet).api_endpoints_schema,
            final(self).attributes.state == AgentState::Working,
            final(self).attributes.objective == old(self).attributes.objective,
            final(self).attributes.position == old(self).attributes.position,
            final(self).attributes.memory == old(self).attributes.memory,
            final(self).bug_errors == old(self).bug_errors,
            final(self).bug_count == old(self).bug_count,
    {
        factsheet.backend_code = Some(code);
        self.attributes.update_state(AgentState::Working);
    }

    /// The `Working` decision: with a clean counter the role asks for
    /// an improvement of the current code; with recorded failures it
    /// asks for a bug fix built on the captured build errors.
    pub fn working_request(&self) -> (r: CodeRequest)
        requires
            self.attributes.state == AgentState::Working,
            self.wf(),
        ensures
            self.bug_count == 0 ==> r is Improve,
            self.bug_count > 0 ==> (r matches CodeRequest::FixBugs(e) && e == self.bug_errors->0),
    {
        if self.bug_count == 0 {
            CodeRequest::Improve
        } else {
            CodeRequest::FixBugs(self.bug_errors.as_ref().unwrap().clone())
        }
    }

    /// Records a revised version of the server code — improved or
    /// repaired — on the fact sheet, overwriting the previous one, and
    /// moves the machine from `Working` to `UnitTesting`.
    pub fn record_revised_code(&mut self, factsheet: &mut FactSheet, code: String)
        requires
            old(self).attributes.state == AgentState::Working,
        ensures
            final(factsheet).backend_code == Some(code),
            final(factsheet).project_description == old(factsheet).project_description,
            final(factsheet).project_scope == old(factsheet).project_scope,
            final(factsheet).external_urls == old(factsheet).external_urls,
            final(factsheet).api_endpoints_schema == old(factsheet).api_endpoints_schema,
            final(self).attributes.state == AgentState::UnitTesting,
            final(self).attributes.objective == old(self).attributes.objective,
            final(self).attributes.position == old(self).attributes.position,
            final(self).attributes.memory == old(self).attributes.memory,
            final(self).bug_errors == old(self).bug_errors,
            final(self).bug_count == old(self).bug_count,
    {
        factsheet.backend_code = Some(code);
        self.attributes.update_state(AgentState::UnitTesting);
    }

    /// The human safety gate before each build-and-test cycle: a
    /// declined confirmation is immediately fatal, an accepted one
    /// changes nothing and lets the cycle go ahead.
    pub fn handle_confirmation(&self, confirmed: bool) -> (r: Result<(), AgentError>)
        requires
            self.attributes.state == AgentState::UnitTesting,
        ensures
            confirmed ==> r == Ok::<(), AgentError>(()),
            !confirmed ==> r == Err::<(), AgentError>(AgentError::OperatorDeclined),
    {
        if confirmed {
            Ok(())
        } else {
            Err(AgentError::OperatorDeclined)
        }
    }

    /// Feeds one build outcome into the repair loop. A success resets
    /// the bug counter to zero and keeps the machine in `UnitTesting`
    /// so that route extraction can follow. A failure raises the
    /// counter and captures the build errors; while the counter stays
    /// within the budget the machine returns to `Working` for a repair,
    /// and the third consecutive failure is fatal.
    pub fn handle_build_result(&mut self, outcome: Result<(), String>) -> (r: Result<
        (),
        AgentError,
    >)
        requires
            old(self).attributes.state == AgentState::UnitTesting,
            old(self).bug_count <= 2,
        ensures
            final(self).bug_count as int == bug_count_after(
                old(self).bug_count as int,
                outcome is Ok,
            ),
            (r is Err) == build_is_fatal(old(self).bug_count as int, outcome is Ok),
            r is Err ==> r == Err::<(), AgentError>(AgentError::TooManyBuildFailures),
            outcome is Ok ==> final(self).attributes.state == AgentState::UnitTesting,
            outcome is Ok ==> final(self).bug_errors == old(self).bug_errors,
            outcome matches Err(e) ==> final(self).bug_errors == Some(e),
            (outcome is Err && old(self).bug_count < 2) ==> final(self).attributes.state
                == AgentState::Working,
            (outcome is Err && old(self).bug_count == 2) ==> final(self).attributes.state
                == AgentState::UnitTesting,
            final(self).attributes.objective == old(self).attributes.objective,
            final(self).attributes.position == old(self).attributes.position,
            final(self).attributes.memory == old(self).attributes.memory,
            final(self).wf(),
    {
        match outcome {
            Ok(()) => {
                self.bug_count = 0;
                Ok(())
            },
            Err(errors) => {
                self.bug_count = self.bug_count + 1;
                self.bug_errors = Some(errors);
                if self.bug_count > 2 {
                    Err(AgentError::TooManyBuildFailures)
                } else {
                    self.attributes.update_state(AgentState::Working);
                    Ok(())
                }
            },
        }
    }

    /// Records the decoded route schema: the discovered routes are
    /// filtered down to the validation-eligible ones — method exactly
    /// `"get"`, dynamic marker exactly `"false"` — and that filtered
    /// list, in original order, is stored on the fact sheet.
    pub fn process_route_schema(&self, factsheet: &mut FactSheet, routes: Vec<RouteObject>)
        requires
            self.attributes.state == AgentState::UnitTesting,
        ensures
            final(factsheet).api_endpoints_schema matches Some(s) && s@ == filter_get_static(
                routes@,
            ),
            final(factsheet).project_description == old(factsheet).project_description,
            final(factsheet).project_scope == old(factsheet).project_scope,
            final(factsheet).external_urls == old(factsheet).external_urls,
            final(factsheet).backend_code == old(factsheet).backend_code,
    {
        let mut checks: Vec<RouteObject> = Vec::new();
        let ghost rs: Seq<RouteObject> = routes@;
        let mut i: usize = 0;
        while i < routes.len()
            invariant
                i <= routes.len(),
                routes@ == rs,
                checks@ == filter_get_static(rs.take(i as int)),
            decreases routes.len() - i,
        {
            let is_get = routes[i].method == String::from_str("get");
            let is_static = routes[i].is_route_dynamic == String::from_str("false");
            if is_get && is_static {
                let picked = RouteObject {
                    route: routes[i].route.clone(),
                    method: routes[i].method.clone(),
                    is_route_dynamic: routes[i].is_route_dynamic.clone(),
                };
                proof {
                    assert(picked == rs[i as int]);
                }
                checks.push(picked);
            }
            proof {
                assert(rs.take(i + 1).drop_last() =~= rs.take(i as int));
                assert(rs.take(i + 1).last() == rs[i as int]);
            }
            i = i + 1;
        }
        proof {
            assert(rs.take(rs.len() as int) =~= rs);
        }
        factsheet.api_endpoints_schema = Some(checks);
    }

    /// The runtime verdict over the stored validation-eligible routes,
    /// given the answer of each route's status check in list order
    /// (`Some(code)`, or `None` for a check that itself failed). Unlike
    /// the architect's URL pass there is no exclusion here: the run
    /// succeeds only if every single check answered 200, and anything
    /// else is fatal. On success the machine ends in `Finished`.
    pub fn handle_endpoint_statuses(&mut self, factsheet: &FactSheet, statuses: &Vec<Option<u16>>)
        -> (r: Result<(), AgentError>)
        requires
            old(self).attributes.state == AgentState::UnitTesting,
            factsheet.api_endpoints_schema matches Some(s) && s@.len() == statuses@.len(),
        ensures
            (r is Ok) == (forall|i: int|
                0 <= i < statuses@.len() ==> #[trigger] statuses@[i] == Some(200u16)),
            r is Err ==> r == Err::<(), AgentError>(AgentError::EndpointUnreachable),
            r is Err ==> *final(self) == *old(self),
            r is Ok ==> final(self).attributes.state == AgentState::Finished,
            final(self).attributes.objective == old(self).attributes.objective,
            final(self).attributes.position == old(self).attributes.position,
            final(self).attributes.memory == old(self).attributes.memory,
            final(self).bug_errors == old(self).bug_errors,
            final(self).bug_count == old(self).bug_count,
    {
        let mut i: usize = 0;
        while i < statuses.len()
            invariant
                i <= statuses.len(),
                forall|j: int| 0 <= j < i ==> #[trigger] statuses@[j] == Some(200u16),
            decreases statuses.len() - i,
        {
            let ok = match statuses[i] {
                Some(code) => code == 200,
                None => false,
            };
            if !ok {
                return Err(AgentError::EndpointUnreachable);
            }
            i = i + 1;
        }
        self.attributes.update_state(AgentState::Finished);
        Ok(())
    }

    /// The defensive default of the machine: a state this role does not
    /// handle forces `Finished`, so the run loop always makes progress.
    pub fn finish_unhandled(&mut self)
        ensures
            final(self).attributes.state == AgentState::Finished,
            final(self).attributes.objective == old(self).attributes.objective,
            final(self).attributes.position == old(self).attributes.position,
            final(self).attributes.memory == old(self).attributes.memory,
            final(self).bug_errors == old(self).bug_errors,
            final(self).bug_count == old(self).bug_count,
    {
        self.attributes.update_state(AgentState::Finished);
    }

    pub fn get_attributes_from_agents(&self) -> (r: &BasicAgent)
        ensures
            *r == self.attributes,
    {
        &self.attributes
    }
}

} // verus!
