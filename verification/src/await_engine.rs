//! The bounded event-await protocol.
//!
//! The engine inspects newly finalized blocks one at a time. On a match it
//! stops with `Matched`; otherwise it spends one block of its horizon and,
//! when the horizon reaches zero, stops with `Exhausted`. It never tells
//! "the operation failed" apart from "the operation is merely slow": both
//! end as `Exhausted`, and the caller decides what exhaustion means.
//!
//! The per-block decision is `on_block`; the unverified shell drives it
//! from a live block subscription and performs no logic of its own. The
//! drivers below run the same machine over an already-delivered sequence
//! of blocks, one per chain family: consensus-chain blocks carry event
//! sets, external-chain blocks carry log sets.

use crate::dispatch::ScenarioError;
use crate::event::{
    spec_block_has_event, spec_block_has_log, block_has_event, block_has_log, EventDescriptor,
    EventLog, SubstrateEvent,
};
use vstd::prelude::*;

verus! {

/// The state of one bounded await.
#[derive(Clone, Copy, Debug, PartialEq, Eq, Structural)]
pub enum AwaitState {
    /// Still subscribed: up to `remaining` more blocks may be inspected,
    /// after `observed` inspected so far.
    Listening { remaining: u64, observed: u64 },
    /// Terminal success: the target appeared in the `observed`-th block.
    Matched { observed: u64 },
    /// Terminal failure: the horizon elapsed after `observed` blocks with
    /// no match.
    Exhausted { observed: u64 },
}

impl AwaitState {
    /// A listening state never outlives its horizon: it always has at
    /// least one block left to inspect, and its counters cannot overflow.
    pub open spec fn wf(self) -> bool {
        self matches AwaitState::Listening { remaining, observed } ==> {
            &&& remaining >= 1
            &&& observed + remaining <= u64::MAX
        }
    }

    /// True while the engine still listens.
    pub fn is_listening(&self) -> (r: bool)
        ensures
            r == (*self is Listening),
    {
        match self {
            AwaitState::Listening { .. } => true,
            _ => false,
        }
    }

    /// Begins an await bounded by `horizon` blocks. A horizon of zero is
    /// exhausted before any block arrives.
    pub fn start(horizon: u64) -> (r: AwaitState)
        ensures
            r.wf(),
            horizon == 0 ==> r == (AwaitState::Exhausted { observed: 0u64 }),
            horizon >= 1 ==> r == (AwaitState::Listening { remaining: horizon, observed: 0u64 }),
    {
        if horizon == 0 {
            AwaitState::Exhausted { observed: 0 }
        } else {
            AwaitState::Listening { remaining: horizon, observed: 0 }
        }
    }

    /// One transition of the protocol: a newly finalized block was
    /// inspected and `found` says whether it held the target.
    pub fn on_block(self, found: bool) -> (r: AwaitState)
        requires
            self is Listening,
            self.wf(),
        ensures
            r.wf(),
            r == spec_on_block(self, found),
    {
        match self {
            AwaitState::Listening { remaining, observed } => {
                if found {
                    AwaitState::Matched { observed: observed + 1 }
                } else if remaining == 1 {
                    AwaitState::Exhausted { observed: observed + 1 }
                } else {
                    AwaitState::Listening { remaining: remaining - 1, observed: observed + 1 }
                }
            },
            _ => self,
        }
    }

    /// Turns a finished await into the scenario's result: a match is
    /// success with the count of observed blocks, and exhaustion is the
    /// terminal await error.
    pub fn into_result(self) -> (r: Result<u64, ScenarioError>)
        requires
            !(self is Listening),
        ensures
            self matches AwaitState::Matched { observed } ==> r == Result::<
                u64,
                ScenarioError,
            >::Ok(observed),
            self is Exhausted ==> r == Result::<u64, ScenarioError>::Err(
                ScenarioError::EventExhausted,
            ),
    {
        match self {
            AwaitState::Matched { observed } => Ok(observed),
            _ => Err(ScenarioError::EventExhausted),
        }
    }
}

/// The transition table of the await protocol, from a listening state.
pub open spec fn spec_on_block(s: AwaitState, found: bool) -> AwaitState
    recommends
        s is Listening,
{
    match s {
        AwaitState::Listening { remaining, observed } => {
            if found {
                AwaitState::Matched { observed: (observed + 1) as u64 }
            } else if remaining == 1 {
                AwaitState::Exhausted { observed: (observed + 1) as u64 }
            } else {
                AwaitState::Listening {
                    remaining: (remaining - 1) as u64,
                    observed: (observed + 1) as u64,
                }
            }
        },
        _ => s,
    }
}

/// What a finished await must report over the delivered blocks, where
/// `matches` tells for each delivered block whether it held the target:
/// a match in block `k` (counted from 1, within the horizon and before any
/// earlier match) ends the await as `Matched` after exactly `k` observed
/// blocks; otherwise the await ends as `Exhausted` after exactly
/// `min(horizon, delivered)` observed blocks.
pub open spec fn spec_await_outcome(matches: Seq<bool>, horizon: u64, r: AwaitState) -> bool {
    let n = if horizon <= matches.len() {
        horizon as int
    } else {
        matches.len() as int
    };
    match r {
        AwaitState::Matched { observed } => {
            &&& 1 <= observed <= n
            &&& matches[observed - 1]
            &&& forall|j: int| 0 <= j < observed - 1 ==> !matches[j]
        },
        AwaitState::Exhausted { observed } => {
            &&& observed == n
            &&& forall|j: int| 0 <= j < n ==> !matches[j]
        },
        AwaitState::Listening { .. } => false,
    }
}

/// Law: if the target appears in block `k` of the delivered sequence
/// (counted from 1, within the horizon) and in no earlier block, every
/// await over those blocks reports `Matched` after exactly `k` observed
/// blocks — it observes blocks 1 through `k` and none past `k`.
pub proof fn lemma_await_matched(ms: Seq<bool>, horizon: u64, r: AwaitState, k: int)
    requires
        spec_await_outcome(ms, horizon, r),
        1 <= k <= horizon,
        k <= ms.len(),
        ms[k - 1],
        forall|j: int| 0 <= j < k - 1 ==> !ms[j],
    ensures
        r == (AwaitState::Matched { observed: k as u64 }),
{
}

/// Law: if no delivered block within the horizon holds the target, every
/// await over those blocks reports `Exhausted` after exactly
/// `min(horizon, delivered)` observed blocks — never fewer, never more.
pub proof fn lemma_await_exhausted(ms: Seq<bool>, horizon: u64, r: AwaitState)
    requires
        spec_await_outcome(ms, horizon, r),
        forall|j: int| 0 <= j < ms.len() && j < horizon ==> !ms[j],
    ensures
        r matches AwaitState::Exhausted { observed } && {
            &&& horizon <= ms.len() ==> observed == horizon
            &&& ms.len() < horizon ==> observed == ms.len()
        },
{
}

/// Runs one bounded await over consensus-chain blocks, each given as its
/// event set, delivered in finalization order.
pub fn await_substrate_event(
    blocks: &Vec<Vec<SubstrateEvent>>,
    descriptor: &EventDescriptor,
    horizon: u64,
) -> (r: AwaitState)
    ensures
        spec_await_outcome(
            blocks@.map_values(|b: Vec<SubstrateEvent>| spec_block_has_event(b@, descriptor@)),
            horizon,
            r,
        ),
{
    let ghost ms = blocks@.map_values(
        |b: Vec<SubstrateEvent>| spec_block_has_event(b@, descriptor@),
    );
    let mut state = AwaitState::start(horizon);
    let mut i: usize = 0;
    while i < blocks.len() && state.is_listening()
        invariant
            i <= blocks.len(),
            state.wf(),
            ms.len() == blocks@.len(),
            forall|j: int| 0 <= j < ms.len() ==> ms[j] == spec_block_has_event(blocks@[j]@, descriptor@),
            state matches AwaitState::Listening { remaining, observed } ==> {
                &&& observed == i
                &&& observed + remaining == horizon
                &&& forall|j: int| 0 <= j < i ==> !ms[j]
            },
            state matches AwaitState::Matched { observed } ==> {
                &&& observed == i
                &&& 1 <= observed <= horizon
                &&& ms[observed - 1]
                &&& forall|j: int| 0 <= j < observed - 1 ==> !ms[j]
            },
            state matches AwaitState::Exhausted { observed } ==> {
                &&& observed == i || (observed == 0 && horizon == 0)
                &&& observed == horizon
                &&& forall|j: int| 0 <= j < observed ==> !ms[j]
            },
        decreases blocks.len() - i,
    {
        let found = block_has_event(&blocks[i], descriptor);
        state = state.on_block(found);
        i = i + 1;
    }
    if state.is_listening() {
        // The subscription ran out of delivered blocks before the horizon
        // did: nothing more can be observed, so the await is exhausted.
        let observed = i as u64;
        state = AwaitState::Exhausted { observed };
    }
    state
}

/// Runs one bounded await over external-chain blocks, each given as its
/// log set, delivered in arrival order.
pub fn await_ethereum_event(
    blocks: &Vec<Vec<EventLog>>,
    descriptor: &EventDescriptor,
    horizon: u64,
) -> (r: AwaitState)
    ensures
        spec_await_outcome(
            blocks@.map_values(|b: Vec<EventLog>| spec_block_has_log(b@, descriptor@)),
            horizon,
            r,
        ),
{
    let ghost ms = blocks@.map_values(|b: Vec<EventLog>| spec_block_has_log(b@, descriptor@));
    let mut state = AwaitState::start(horizon);
    let mut i: usize = 0;
    while i < blocks.len() && state.is_listening()
        invariant
            i <= blocks.len(),
            state.wf(),
            ms.len() == blocks@.len(),
            forall|j: int| 0 <= j < ms.len() ==> ms[j] == spec_block_has_log(blocks@[j]@, descriptor@),
            state matches AwaitState::Listening { remaining, observed } ==> {
                &&& observed == i
                &&& observed + remaining == horizon
                &&& forall|j: int| 0 <= j < i ==> !ms[j]
            },
            state matches AwaitState::Matched { observed } ==> {
                &&& observed == i
                &&& 1 <= observed <= horizon
                &&& ms[observed - 1]
                &&& forall|j: int| 0 <= j < observed - 1 ==> !ms[j]
            },
            state matches AwaitState::Exhausted { observed } ==> {
                &&& observed == i || (observed == 0 && horizon == 0)
                &&& observed == horizon
                &&& forall|j: int| 0 <= j < observed ==> !ms[j]
            },
        decreases blocks.len() - i,
    {
        let found = block_has_log(&blocks[i], descriptor);
        state = state.on_block(found);
        i = i + 1;
    }
    if state.is_listening() {
        // The subscription ran out of delivered blocks before the horizon
        // did: nothing more can be observed, so the await is exhausted.
        let observed = i as u64;
        state = AwaitState::Exhausted { observed };
    }
    state
}

} // verus!
