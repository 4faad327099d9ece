//! Hierarchical, relative addresses for chains, pallets and accounts.
//!
//! A `Location` ascends `parents` levels of the consensus hierarchy and then
//! follows an ordered path of `Junction`s. Locations are value objects: the
//! builder composes them and never mutates one after construction.

use vstd::prelude::*;

verus! {

/// Identifier of a foreign consensus system reachable from the local one.
#[derive(Clone, Copy, Debug, PartialEq, Eq)]
pub enum NetworkId {
    /// The Ethereum consensus system with the given chain id.
    Ethereum { chain_id: u64 },
}

/// One step of an interior path within a hierarchical location.
#[derive(Clone, Copy, Debug, PartialEq, Eq)]
pub enum Junction {
    /// A parachain, by its numeric identifier.
    Parachain(u32),
    /// A pallet within a runtime, by its module index.
    PalletInstance(u8),
    /// A 32-byte account, optionally qualified by the network it lives on.
    AccountId32 { network: Option<NetworkId>, id: [u8; 32] },
    /// The root of a foreign consensus system.
    GlobalConsensus(NetworkId),
}

/// A relative hierarchical address: ascend `parents` levels, then follow
/// `interior` downwards.
#[derive(Clone, Debug, PartialEq, Eq)]
pub struct Location {
    pub parents: u8,
    pub interior: Vec<Junction>,
}

/// Mathematical model of a `Location`: the interior path as a sequence.
pub struct LocationV {
    pub parents: u8,
    pub interior: Seq<Junction>,
}

impl View for Location {
    type V = LocationV;

    open spec fn view(&self) -> LocationV {
        LocationV { parents: self.parents, interior: self.interior@ }
    }
}

impl Location {
    /// The address of the local consensus system itself, `parents` levels up.
    pub fn here(parents: u8) -> (r: Location)
        ensures
            r@ == (LocationV { parents, interior: Seq::<Junction>::empty() }),
    {
        let r = Location { parents, interior: Vec::new() };
        proof {
            assert(r@.interior =~= Seq::<Junction>::empty());
        }
        r
    }

    /// The address of a sibling-level parachain, seen from a parachain when
    /// `parents` is 1 and from the relay chain itself when `parents` is 0.
    pub fn parachain(parents: u8, para_id: u32) -> (r: Location)
        ensures
            r@ == (LocationV { parents, interior: seq![Junction::Parachain(para_id)] }),
    {
        let mut interior: Vec<Junction> = Vec::new();
        interior.push(Junction::Parachain(para_id));
        let r = Location { parents, interior };
        proof {
            assert(r@.interior =~= seq![Junction::Parachain(para_id)]);
        }
        r
    }

    /// The root of a foreign consensus system, `parents` levels up.
    pub fn global_consensus(parents: u8, network: NetworkId) -> (r: Location)
        ensures
            r@ == (LocationV { parents, interior: seq![Junction::GlobalConsensus(network)] }),
    {
        let mut interior: Vec<Junction> = Vec::new();
        interior.push(Junction::GlobalConsensus(network));
        let r = Location { parents, interior };
        proof {
            assert(r@.interior =~= seq![Junction::GlobalConsensus(network)]);
        }
        r
    }

    /// A local 32-byte account, not qualified by any network.
    pub fn account(id: [u8; 32]) -> (r: Location)
        ensures
            r@ == (LocationV {
                parents: 0,
                interior: seq![Junction::AccountId32 { network: None, id }],
            }),
    {
        let mut interior: Vec<Junction> = Vec::new();
        interior.push(Junction::AccountId32 { network: None, id });
        let r = Location { parents: 0, interior };
        proof {
            assert(r@.interior =~= seq![Junction::AccountId32 { network: None, id }]);
        }
        r
    }
}

} // verus!
