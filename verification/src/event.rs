//! Finalized events and the rule that matches them.
//!
//! The await engine treats an event as opaque except for its identity: a
//! `(namespace, name)` pair. On a consensus chain the pair is the emitting
//! pallet and the event's name; on the external chain it is the emitting
//! contract's address and the log's signature topic. The matching rule is
//! uniform; only the record shape differs per chain family.

use vstd::prelude::*;

verus! {

/// The identity the await engine looks for: a namespace (pallet name or
/// contract address) and a name (event name or signature topic), both as
/// plain bytes.
#[derive(Clone, Debug, PartialEq, Eq)]
pub struct EventDescriptor {
    pub namespace: Vec<u8>,
    pub name: Vec<u8>,
}

impl View for EventDescriptor {
    type V = (Seq<u8>, Seq<u8>);

    open spec fn view(&self) -> (Seq<u8>, Seq<u8>) {
        (self.namespace@, self.name@)
    }
}

/// One structured event from a finalized block of a consensus chain.
#[derive(Clone, Debug, PartialEq, Eq)]
pub struct SubstrateEvent {
    /// The pallet that emitted the event.
    pub pallet: Vec<u8>,
    /// The event's name within that pallet.
    pub name: Vec<u8>,
}

impl View for SubstrateEvent {
    type V = (Seq<u8>, Seq<u8>);

    open spec fn view(&self) -> (Seq<u8>, Seq<u8>) {
        (self.pallet@, self.name@)
    }
}

/// One log record from a block of the external chain.
#[derive(Clone, Debug, PartialEq, Eq)]
pub struct EventLog {
    /// The address of the emitting contract.
    pub address: Vec<u8>,
    /// The log's topics; the first one is the event's signature.
    pub topics: Vec<Vec<u8>>,
    /// The log's payload bytes.
    pub data: Vec<u8>,
}

impl View for EventLog {
    type V = (Seq<u8>, Seq<Seq<u8>>, Seq<u8>);

    open spec fn view(&self) -> (Seq<u8>, Seq<Seq<u8>>, Seq<u8>) {
        (self.address@, self.topics@.map_values(|t: Vec<u8>| t@), self.data@)
    }
}

/// Byte-wise equality of two byte strings.
pub fn bytes_eq(a: &Vec<u8>, b: &Vec<u8>) -> (r: bool)
    ensures
        r == (a@ == b@),
{
    if a.len() != b.len() {
        return false;
    }
    let mut i: usize = 0;
    while i < a.len()
        invariant
            i <= a.len(),
            a.len() == b.len(),
            forall|j: int| 0 <= j < i ==> a@[j] == b@[j],
        decreases a.len() - i,
    {
        if a[i] != b[i] {
            return false;
        }
        i = i + 1;
    }
    proof {
        assert(a@ =~= b@);
    }
    true
}

/// A consensus-chain event matches a descriptor exactly when its pallet is
/// the descriptor's namespace and its name is the descriptor's name.
pub open spec fn spec_event_matches(e: (Seq<u8>, Seq<u8>), d: (Seq<u8>, Seq<u8>)) -> bool {
    e.0 == d.0 && e.1 == d.1
}

/// A log record matches a descriptor exactly when the emitting contract is
/// the descriptor's namespace and the signature topic is the descriptor's
/// name.
pub open spec fn spec_log_matches(l: (Seq<u8>, Seq<Seq<u8>>, Seq<u8>), d: (Seq<u8>, Seq<u8>)) -> bool {
    l.0 == d.0 && l.1.len() > 0 && l.1[0] == d.1
}

impl SubstrateEvent {
    /// Decides whether this event is the one the descriptor asks for.
    pub fn matches_descriptor(&self, d: &EventDescriptor) -> (r: bool)
        ensures
            r == spec_event_matches(self@, d@),
    {
        bytes_eq(&self.pallet, &d.namespace) && bytes_eq(&self.name, &d.name)
    }
}

impl EventLog {
    /// Decides whether this log record is the one the descriptor asks for.
    pub fn matches_descriptor(&self, d: &EventDescriptor) -> (r: bool)
        ensures
            r == spec_log_matches(self@, d@),
    {
        if self.topics.len() == 0 {
            return false;
        }
        let r = bytes_eq(&self.address, &d.namespace) && bytes_eq(&self.topics[0], &d.name);
        proof {
            assert(self@.1[0] == self.topics@[0]@);
        }
        r
    }
}

/// True when at least one event of the block matches the descriptor.
pub open spec fn spec_block_has_event(events: Seq<SubstrateEvent>, d: (Seq<u8>, Seq<u8>)) -> bool {
    exists|i: int| 0 <= i < events.len() && spec_event_matches(events[i]@, d)
}

/// True when at least one log record of the block matches the descriptor.
pub open spec fn spec_block_has_log(logs: Seq<EventLog>, d: (Seq<u8>, Seq<u8>)) -> bool {
    exists|i: int| 0 <= i < logs.len() && spec_log_matches(logs[i]@, d)
}

/// Scans one block's event set for a matching event.
pub fn block_has_event(events: &Vec<SubstrateEvent>, d: &EventDescriptor) -> (r: bool)
    ensures
        r == spec_block_has_event(events@, d@),
{
    let mut i: usize = 0;
    while i < events.len()
        invariant
            i <= events.len(),
            forall|j: int| 0 <= j < i ==> !spec_event_matches(events@[j]@, d@),
        decreases events.len() - i,
    {
        if events[i].matches_descriptor(d) {
            return true;
        }
        i = i + 1;
    }
    false
}

/// Scans one block's log set for a matching log record.
pub fn block_has_log(logs: &Vec<EventLog>, d: &EventDescriptor) -> (r: bool)
    ensures
        r == spec_block_has_log(logs@, d@),
{
    let mut i: usize = 0;
    while i < logs.len()
        invariant
            i <= logs.len(),
            forall|j: int| 0 <= j < i ==> !spec_log_matches(logs@[j]@, d@),
        decreases logs.len() - i,
    {
        if logs[i].matches_descriptor(d) {
            return true;
        }
        i = i + 1;
    }
    false
}

} // verus!
