//! The governance dispatcher's decision logic.
//!
//! A built privileged call is signed and submitted to the relay chain; the
//! dispatcher then waits for finalized inclusion. Every failure is terminal
//! for the enclosing scenario — there is no retry anywhere. The submission
//! and the watch are performed by the unverified shell; each report it
//! hands back drives one step of the phase machine below.

use vstd::prelude::*;
use vstd::string::StringExecFns;

verus! {

/// A terminal scenario failure. Every variant aborts the enclosing
/// scenario immediately; none is retried.
#[derive(Clone, Copy, Debug, PartialEq, Eq, Structural)]
pub enum ScenarioError {
    /// A chain endpoint was unreachable while connecting; the scenario
    /// aborts before any dispatch.
    ConnectionError,
    /// The chain's admission rules rejected the signed submission.
    SubmissionRejected,
    /// The transport's own wait for finalized inclusion elapsed.
    FinalizationTimeout,
    /// The call was finalized but its on-chain outcome failed.
    ExecutionFailed,
    /// An await horizon elapsed with no matching event.
    EventExhausted,
}

impl ScenarioError {
    /// A short description of the failure, for reports.
    pub fn describe(&self) -> (r: String)
        ensures
            *self is ConnectionError ==> r@ == "chain endpoint unreachable"@,
            *self is SubmissionRejected ==> r@ == "submission rejected at admission"@,
            *self is FinalizationTimeout ==> r@ == "finalization wait elapsed"@,
            *self is ExecutionFailed ==> r@ == "finalized but execution failed"@,
            *self is EventExhausted ==> r@ == "await horizon exhausted"@,
    {
        match self {
            ScenarioError::ConnectionError => String::from_str("chain endpoint unreachable"),
            ScenarioError::SubmissionRejected => String::from_str(
                "submission rejected at admission",
            ),
            ScenarioError::FinalizationTimeout => String::from_str("finalization wait elapsed"),
            ScenarioError::ExecutionFailed => String::from_str("finalized but execution failed"),
            ScenarioError::EventExhausted => String::from_str("await horizon exhausted"),
        }
    }
}

/// The finalized landing of a privileged submission: where it was included
/// and under which submission hash.
#[derive(Clone, Copy, Debug, PartialEq, Eq)]
pub struct SudoResult {
    pub block_hash: [u8; 32],
    pub extrinsic_hash: [u8; 32],
}

/// What the chain reports back while a submission is in flight.
#[derive(Clone, Copy, Debug, PartialEq, Eq)]
pub enum SubmissionEvent {
    /// The pool admitted the signed submission.
    Accepted,
    /// Admission rules rejected it: malformed call or insufficient
    /// privilege.
    Rejected,
    /// A finalized block included it and the call's own outcome succeeded.
    FinalizedSuccess { block_hash: [u8; 32], extrinsic_hash: [u8; 32] },
    /// A finalized block included it but the call's own outcome failed.
    FinalizedFailure,
    /// The transport's wait elapsed before finalized inclusion.
    TimedOut,
}

/// The phase of one dispatch.
#[derive(Clone, Copy, Debug, PartialEq, Eq)]
pub enum DispatchPhase {
    /// The signed envelope is on its way to the chain's pool.
    Submitting,
    /// Admitted; awaiting finalized inclusion.
    AwaitingFinalization,
    /// Terminal: finalized with a successful outcome.
    Dispatched(SudoResult),
    /// Terminal: failed with the given error.
    Failed(ScenarioError),
}

/// Which reports can arrive in which phase: the admission verdict answers
/// the submission, and only an admitted submission is watched.
pub open spec fn spec_phase_accepts(phase: DispatchPhase, event: SubmissionEvent) -> bool {
    match phase {
        DispatchPhase::Submitting => event is Accepted || event is Rejected,
        DispatchPhase::AwaitingFinalization => {
            ||| event is FinalizedSuccess
            ||| event is FinalizedFailure
            ||| event is TimedOut
        },
        _ => false,
    }
}

/// The dispatcher's transition table.
pub open spec fn spec_dispatch_step(phase: DispatchPhase, event: SubmissionEvent) -> DispatchPhase
    recommends
        spec_phase_accepts(phase, event),
{
    match (phase, event) {
        (DispatchPhase::Submitting, SubmissionEvent::Accepted) => {
            DispatchPhase::AwaitingFinalization
        },
        (DispatchPhase::Submitting, SubmissionEvent::Rejected) => {
            DispatchPhase::Failed(ScenarioError::SubmissionRejected)
        },
        (
            DispatchPhase::AwaitingFinalization,
            SubmissionEvent::FinalizedSuccess { block_hash, extrinsic_hash },
        ) => DispatchPhase::Dispatched(SudoResult { block_hash, extrinsic_hash }),
        (DispatchPhase::AwaitingFinalization, SubmissionEvent::FinalizedFailure) => {
            DispatchPhase::Failed(ScenarioError::ExecutionFailed)
        },
        (DispatchPhase::AwaitingFinalization, SubmissionEvent::TimedOut) => {
            DispatchPhase::Failed(ScenarioError::FinalizationTimeout)
        },
        (p, _) => p,
    }
}

/// One step of a dispatch: fold the chain's next report into the phase.
pub fn dispatch_step(phase: DispatchPhase, event: SubmissionEvent) -> (r: DispatchPhase)
    requires
        spec_phase_accepts(phase, event),
    ensures
        r == spec_dispatch_step(phase, event),
{
    match (phase, event) {
        (DispatchPhase::Submitting, SubmissionEvent::Accepted) => {
            DispatchPhase::AwaitingFinalization
        },
        (DispatchPhase::Submitting, SubmissionEvent::Rejected) => {
            DispatchPhase::Failed(ScenarioError::SubmissionRejected)
        },
        (
            DispatchPhase::AwaitingFinalization,
            SubmissionEvent::FinalizedSuccess { block_hash, extrinsic_hash },
        ) => DispatchPhase::Dispatched(SudoResult { block_hash, extrinsic_hash }),
        (DispatchPhase::AwaitingFinalization, SubmissionEvent::FinalizedFailure) => {
            DispatchPhase::Failed(ScenarioError::ExecutionFailed)
        },
        (DispatchPhase::AwaitingFinalization, SubmissionEvent::TimedOut) => {
            DispatchPhase::Failed(ScenarioError::FinalizationTimeout)
        },
        (p, _) => p,
    }
}

/// Runs one whole dispatch from the two reports the chain gives back: the
/// admission verdict, and — only when admitted — the watch's verdict.
/// Exactly the successful finalization returns `Ok`, and each failure maps
/// to its own error.
pub fn classify_dispatch(admission: SubmissionEvent, watch: SubmissionEvent) -> (r: Result<
    SudoResult,
    ScenarioError,
>)
    requires
        admission is Accepted || admission is Rejected,
        admission is Accepted ==> {
            ||| watch is FinalizedSuccess
            ||| watch is FinalizedFailure
            ||| watch is TimedOut
        },
    ensures
        admission is Rejected ==> r == Result::<SudoResult, ScenarioError>::Err(
            ScenarioError::SubmissionRejected,
        ),
        admission is Accepted ==> match watch {
            SubmissionEvent::FinalizedSuccess { block_hash, extrinsic_hash } => {
                r == Result::<SudoResult, ScenarioError>::Ok(
                    SudoResult { block_hash, extrinsic_hash },
                )
            },
            SubmissionEvent::FinalizedFailure => {
                r == Result::<SudoResult, ScenarioError>::Err(ScenarioError::ExecutionFailed)
            },
            SubmissionEvent::TimedOut => {
                r == Result::<SudoResult, ScenarioError>::Err(ScenarioError::FinalizationTimeout)
            },
            _ => false,
        },
{
    let phase = dispatch_step(DispatchPhase::Submitting, admission);
    match phase {
        DispatchPhase::AwaitingFinalization => {
            let done = dispatch_step(DispatchPhase::AwaitingFinalization, watch);
            match done {
                DispatchPhase::Dispatched(result) => Ok(result),
                DispatchPhase::Failed(e) => Err(e),
                _ => Err(ScenarioError::SubmissionRejected),
            }
        },
        DispatchPhase::Failed(e) => Err(e),
        _ => Err(ScenarioError::SubmissionRejected),
    }
}

/// Law: a rejected submission never reaches the awaiting-finalization
/// state; and a submission that finalizes with a failing outcome is
/// reported as `ExecutionFailed`, which is distinct from the timeout
/// error `FinalizationTimeout`.
pub proof fn lemma_dispatch_classification(event: SubmissionEvent)
    ensures
        spec_dispatch_step(DispatchPhase::Submitting, SubmissionEvent::Rejected)
            != DispatchPhase::AwaitingFinalization,
        spec_dispatch_step(DispatchPhase::Submitting, SubmissionEvent::Rejected)
            == DispatchPhase::Failed(ScenarioError::SubmissionRejected),
        event is FinalizedFailure ==> spec_dispatch_step(
            DispatchPhase::AwaitingFinalization,
            event,
        ) == DispatchPhase::Failed(ScenarioError::ExecutionFailed),
        event is TimedOut ==> spec_dispatch_step(DispatchPhase::AwaitingFinalization, event)
            == DispatchPhase::Failed(ScenarioError::FinalizationTimeout),
        ScenarioError::ExecutionFailed != ScenarioError::FinalizationTimeout,
{
}

} // verus!
