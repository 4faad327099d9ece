//! Cross-chain dispatch-and-confirmation engine.
//!
//! The library models the value-level core of a multi-chain smoke test:
//! building nested routing/authorization messages, classifying the outcome
//! of a privileged submission, awaiting a target event within a bounded
//! block horizon, and settling funding transfers. Connection handling,
//! signing and block subscriptions are left to an unverified shell that
//! feeds this library plain values.

pub mod asset;
pub mod await_engine;
pub mod builder;
pub mod dispatch;
pub mod event;
pub mod funding;
pub mod location;
pub mod logfmt;
pub mod message;

use vstd::prelude::*;

verus! {

/// Marker for the asset hub's chain family. The asset hub signs its
/// submissions under slightly different parameter conventions than the
/// relay chain and the bridge hub, so the shell types that chain's
/// connection handle by this marker rather than by the default one. The
/// marker is never inspected; its one variant only makes it a type that
/// can be named.
#[derive(Clone, Copy, Debug, PartialEq, Eq, Structural)]
pub enum AssetHubConfig {
    Marker,
}

} // verus!
