use vstd::prelude::*;

verus! {

/// Every fatal condition of a pipeline run. A fatal error is propagated
/// to the orchestrator, which stops the run; no role terminates the
/// host process on its own.
#[derive(Clone, Copy, Debug, PartialEq, Eq, Structural)]
pub enum AgentError {
    /// The oracle could not be reached, on the first attempt and on the
    /// one retry that the transport policy allows.
    OracleTransport,
    /// The oracle's structured answer did not decode; malformed output
    /// is never retried.
    OracleDecode,
    /// A third consecutive build failure exhausted the repair budget.
    TooManyBuildFailures,
    /// A route under runtime validation did not answer with status 200.
    EndpointUnreachable,
    /// The operator declined the safety gate before a build-and-test
    /// cycle.
    OperatorDeclined,
}

} // verus!
