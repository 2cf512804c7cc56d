use crate::basic_agent::{AgentState, BasicAgent};
use crate::factsheet::{FactSheet, ProjectScope};
use vstd::prelude::*;
use vstd::string::StringExecFns;

verus! {

/// Whether a URL survives its reachability check: an explicit non-200
/// answer excludes it; a 200 answer keeps it; a check that itself
/// failed (no answer at all) also keeps it — only a definite refusal
/// drops a URL.
pub open spec fn url_kept(status: Option<u16>) -> bool {
    match status {
        Some(code) => code == 200,
        None => true,
    }
}

/// The URL list after one validation pass: the original list, in its
/// original order and with duplicates untouched, minus exactly the
/// entries whose check answered with a status other than 200.
pub open spec fn keep_reachable(urls: Seq<String>, statuses: Seq<Option<u16>>) -> Seq<String>
    decreases urls.len(),
{
    if urls.len() == 0 {
        Seq::empty()
    } else {
        let rest = keep_reachable(urls.drop_last(), statuses.drop_last());
        if url_kept(statuses[urls.len() - 1]) {
            rest.push(urls.last())
        } else {
            rest
        }
    }
}

/// The validated list is an order-preserving selection from the
/// original one: it is no longer, and everything in it already stood in
/// the original list.
pub proof fn lemma_keep_reachable_subset(urls: Seq<String>, statuses: Seq<Option<u16>>)
    requires
        urls.len() == statuses.len(),
    ensures
        keep_reachable(urls, statuses).len() <= urls.len(),
        forall|x: String| #[trigger] keep_reachable(urls, statuses).contains(x) ==> urls.contains(
            x,
        ),
    decreases urls.len(),
{
    if urls.len() > 0 {
        lemma_keep_reachable_subset(urls.drop_last(), statuses.drop_last());
        let rest = keep_reachable(urls.drop_last(), statuses.drop_last());
        assert forall|x: String| #[trigger] keep_reachable(urls, statuses).contains(x) implies urls
            .contains(x) by {
            if rest.contains(x) {
                assert(urls.drop_last().contains(x));
                let i = choose|i: int| 0 <= i < urls.drop_last().len() && urls.drop_last()[i] == x;
                assert(urls[i] == x);
            } else {
                assert(x == urls.last());
                assert(urls[urls.len() - 1] == x);
            }
        }
    }
}

/// How many of the first `k` checks kept their URL.
pub open spec fn kept_count(statuses: Seq<Option<u16>>, k: int) -> int
    decreases k,
{
    if k <= 0 {
        0
    } else {
        kept_count(statuses, k - 1) + if url_kept(statuses[k - 1]) {
            1int
        } else {
            0int
        }
    }
}

/// The count of kept checks reads only the prefix it counts over.
pub proof fn lemma_kept_count_prefix(s1: Seq<Option<u16>>, s2: Seq<Option<u16>>, k: int)
    requires
        k <= s1.len(),
        k <= s2.len(),
        forall|i: int| 0 <= i < k ==> s1[i] == s2[i],
    ensures
        kept_count(s1, k) == kept_count(s2, k),
    decreases k,
{
    if k > 0 {
        lemma_kept_count_prefix(s1, s2, k - 1);
    }
}

/// No check can lower the count: over a longer prefix at least as many
/// URLs are kept.
pub proof fn lemma_kept_count_monotone(statuses: Seq<Option<u16>>, a: int, b: int)
    requires
        0 <= a <= b,
    ensures
        0 <= kept_count(statuses, a) <= kept_count(statuses, b),
        kept_count(statuses, b) - kept_count(statuses, a) <= b - a,
    decreases b,
{
    if a < b {
        lemma_kept_count_monotone(statuses, a, b - 1);
    } else if b > 0 {
        lemma_kept_count_monotone(statuses, 0, b - 1);
    }
}

/// The validated list contains exactly the URLs whose check kept them,
/// in their original order: a URL kept at position `i` of the original
/// list stands at position `kept_count(statuses, i)` of the result, and
/// the result holds nothing else.
pub proof fn lemma_keep_reachable_exact(urls: Seq<String>, statuses: Seq<Option<u16>>)
    requires
        urls.len() == statuses.len(),
    ensures
        keep_reachable(urls, statuses).len() == kept_count(statuses, statuses.len() as int),
        forall|i: int|
            0 <= i < urls.len() && url_kept(#[trigger] statuses[i]) ==> keep_reachable(
                urls,
                statuses,
            )[kept_count(statuses, i)] == urls[i],
    decreases urls.len(),
{
    if urls.len() > 0 {
        let n = urls.len() as int;
        let u0 = urls.drop_last();
        let s0 = statuses.drop_last();
        lemma_keep_reachable_exact(u0, s0);
        let rest = keep_reachable(u0, s0);
        assert forall|k: int| 0 <= k <= n - 1 implies kept_count(s0, k) == kept_count(
            statuses,
            k,
        ) by {
            lemma_kept_count_prefix(s0, statuses, k);
        }
        assert forall|i: int|
            0 <= i < n && url_kept(#[trigger] statuses[i]) implies keep_reachable(
            urls,
            statuses,
        )[kept_count(statuses, i)] == urls[i] by {
            if i < n - 1 {
                assert(s0[i] == statuses[i]);
                assert(url_kept(s0[i]));
                assert(rest[kept_count(s0, i)] == u0[i]);
                assert(u0[i] == urls[i]);
                lemma_kept_count_monotone(s0, i, n - 1);
                lemma_kept_count_monotone(s0, i + 1, n - 1);
                assert(kept_count(s0, i + 1) == kept_count(s0, i) + 1);
                assert(kept_count(s0, i) < rest.len());
                assert(kept_count(statuses, i) == kept_count(s0, i));
                if url_kept(statuses[n - 1]) {
                    assert(keep_reachable(urls, statuses) == rest.push(urls.last()));
                    assert(rest.push(urls.last())[kept_count(s0, i)] == rest[kept_count(s0, i)]);
                } else {
                    assert(keep_reachable(urls, statuses) == rest);
                }
            } else {
                assert(kept_count(statuses, n - 1) == kept_count(s0, n - 1));
                assert(rest.len() == kept_count(s0, n - 1));
                assert(keep_reachable(urls, statuses) == rest.push(urls.last()));
                assert(rest.push(urls.last())[rest.len() as int] == urls.last());
            }
        }
    }
}

/// When every check either answered 200 or failed outright, the whole
/// list survives unchanged.
pub proof fn lemma_keep_reachable_all_kept(urls: Seq<String>, statuses: Seq<Option<u16>>)
    requires
        urls.len() == statuses.len(),
        forall|i: int| 0 <= i < statuses.len() ==> url_kept(#[trigger] statuses[i]),
    ensures
        keep_reachable(urls, statuses) == urls,
    decreases urls.len(),
{
    if urls.len() > 0 {
        lemma_keep_reachable_all_kept(urls.drop_last(), statuses.drop_last());
        assert(keep_reachable(urls, statuses) =~= urls);
    }
}

/// The role that decides the project scope and validates the external
/// reference URLs. Its machine uses `Discovery` (obtain the scope and,
/// when required, the URL list), `UnitTesting` (one reachability pass
/// over the stored URLs), and `Finished`.
#[derive(Debug)]
pub struct AgentSolutionArchitect {
    pub attributes: BasicAgent,
}

impl AgentSolutionArchitect {
    /// A fresh architect in `Discovery`, under its fixed labels.
    pub fn new() -> (r: Self)
        ensures
            r.attributes.state == AgentState::Discovery,
            r.attributes.objective@
                == "Gathers information and design solutions for software development"@,
            r.attributes.position@ == "Solutions Architect"@,
            r.attributes.memory@.len() == 0,
    {
        AgentSolutionArchitect {
            attributes: BasicAgent::new(
                String::from_str(
                    "Gathers information and design solutions for software development",
                ),
                String::from_str("Solutions Architect"),
            ),
        }
    }

    /// Records the oracle's scope decision on the fact sheet and picks
    /// the next move: a scope that needs no external URLs ends the role
    /// at once — the machine goes straight to `Finished`, never through
    /// `UnitTesting`, and the URL field is left exactly as it was. A
    /// scope that needs them keeps the machine in `Discovery`, awaiting
    /// the URL list; the returned flag says that the list must now be
    /// requested.
    pub fn handle_scope(&mut self, factsheet: &mut FactSheet, scope: ProjectScope) -> (needs_urls:
        bool)
        requires
            old(self).attributes.state == AgentState::Discovery,
        ensures
            needs_urls == scope.is_external_urls_required,
            final(factsheet).project_scope == Some(scope),
            final(factsheet).project_description == old(factsheet).project_description,
            final(factsheet).external_urls == old(factsheet).external_urls,
            final(factsheet).backend_code == old(factsheet).backend_code,
            final(factsheet).api_endpoints_schema == old(factsheet).api_endpoints_schema,
            final(self).attributes.state == if scope.is_external_urls_required {
                AgentState::Discovery
            } else {
                AgentState::Finished
            },
            final(self).attributes.objective == old(self).attributes.objective,
            final(self).attributes.position == old(self).attributes.position,
            final(self).attributes.memory == old(self).attributes.memory,
    {
        factsheet.project_scope = Some(scope);
        if !scope.is_external_urls_required {
            self.attributes.update_state(AgentState::Finished);
        }
        scope.is_external_urls_required
    }

    /// Records the oracle's external URL list on the fact sheet and
    /// moves the machine to `UnitTesting`, where the list will be
    /// validated.
    pub fn handle_external_urls(&mut self, factsheet: &mut FactSheet, urls: Vec<String>)
        requires
            old(self).attributes.state == AgentState::Discovery,
            old(factsheet).project_scope matches Some(s) && s.is_external_urls_required,
        ensures
            final(factsheet).external_urls == Some(urls),
            final(factsheet).project_description == old(factsheet).project_description,
            final(factsheet).project_scope == old(factsheet).project_scope,
            final(factsheet).backend_code == old(factsheet).backend_code,
            final(factsheet).api_endpoints_schema == old(factsheet).api_endpoints_schema,
            final(self).attributes.state == AgentState::UnitTesting,
            final(self).attributes.objective == old(self).attributes.objective,
            final(self).attributes.position == old(self).attributes.position,
            final(self).attributes.memory == old(self).attributes.memory,
    {
        factsheet.external_urls = Some(urls);
        self.attributes.update_state(AgentState::UnitTesting);
    }

    /// One validation pass over the stored URLs, given the answer of
    /// each URL's reachability check (`Some(code)`) or the fact that
    /// the check itself failed (`None`), in list order. The stored list
    /// is replaced by `keep_reachable` of the old list, and the machine
    /// ends in `Finished` unconditionally.
    pub fn handle_url_statuses(&mut self, factsheet: &mut FactSheet, statuses: &Vec<Option<u16>>)
        requires
            old(self).attributes.state == AgentState::UnitTesting,
            old(factsheet).external_urls matches Some(urls) && urls@.len() == statuses@.len(),
        ensures
            final(self).attributes.state == AgentState::Finished,
            final(factsheet).external_urls matches Some(kept) && kept@ == keep_reachable(
                old(factsheet).external_urls->0@,
                statuses@,
            ),
            final(factsheet).project_description == old(factsheet).project_description,
            final(factsheet).project_scope == old(factsheet).project_scope,
            final(factsheet).backend_code == old(factsheet).backend_code,
            final(factsheet).api_endpoints_schema == old(factsheet).api_endpoints_schema,
            final(self).attributes.objective == old(self).attributes.objective,
            final(self).attributes.position == old(self).attributes.position,
            final(self).attributes.memory == old(self).attributes.memory,
    {
        let mut kept: Vec<String> = Vec::new();
        let urls = factsheet.external_urls.as_ref().unwrap();
        let ghost u: Seq<String> = urls@;
        let ghost s: Seq<Option<u16>> = statuses@;
        let mut i: usize = 0;
        while i < urls.len()
            invariant
                i <= urls.len(),
                urls@ == u,
                statuses@ == s,
                u.len() == s.len(),
                kept@ == keep_reachable(u.take(i as int), s.take(i as int)),
            decreases urls.len() - i,
        {
            let keep = match statuses[i] {
                Some(code) => code == 200,
                None => true,
            };
            if keep {
                kept.push(urls[i].clone());
            }
            proof {
                assert(u.take(i + 1).drop_last() =~= u.take(i as int));
                assert(s.take(i + 1).drop_last() =~= s.take(i as int));
                assert(u.take(i + 1).last() == u[i as int]);
                assert(u.take(i + 1)[u.take(i + 1).len() - 1] == u[i as int]);
                assert(s.take(i + 1)[u.take(i + 1).len() - 1] == s[i as int]);
            }
            i = i + 1;
        }
        proof {
            assert(u.take(u.len() as int) =~= u);
            assert(s.take(s.len() as int) =~= s);
        }
        factsheet.external_urls = Some(kept);
        self.attributes.update_state(AgentState::Finished);
    }

    /// The defensive default of the machine: a state this role does not
    /// handle forces `Finished`, so the run loop always makes progress.
    pub fn finish_unhandled(&mut self)
        ensures
            final(self).attributes.state == AgentState::Finished,
            final(self).attributes.objective == old(self).attributes.objective,
            final(self).attributes.position == old(self).attributes.position,
            final(self).attributes.memory == old(self).attributes.memory,
    {
        self.attributes.update_state(AgentState::Finished);
    }

    pub fn get_attributes_from_agents(&self) -> (r: &BasicAgent)
        ensures
            *r == self.attributes,
    {
        &self.attributes
    }
}

} // verus!
