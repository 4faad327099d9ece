//! The routing message: an ordered sequence of instructions, where one
//! instruction may carry a further message to run after arrival at a
//! destination.

use crate::asset::{deep_assets, Asset, AssetFilter, AssetFilterV, AssetV};
use crate::location::{Junction, Location, LocationV};
use vstd::prelude::*;

verus! {

/// A two-dimensional resource ceiling for executing a call: computation
/// units and proof-size bytes. Exceeding either fails deterministically.
#[derive(Clone, Copy, Debug, PartialEq, Eq, Structural)]
pub struct Weight {
    pub ref_time: u64,
    pub proof_size: u64,
}

/// An upper bound on the weight a message may consume.
#[derive(Clone, Copy, Debug, PartialEq, Eq)]
pub enum WeightLimit {
    Unlimited,
    Limited(Weight),
}

/// The kind of origin a transacted call executes under at the destination.
#[derive(Clone, Copy, Debug, PartialEq, Eq)]
pub enum OriginKind {
    /// The destination's own privileged (root) origin.
    Superuser,
    /// The sovereign account that the message's computed origin maps to.
    SovereignAccount,
}

/// One instruction of a routing message.
#[derive(Debug, PartialEq, Eq)]
pub enum Instruction {
    /// Execute the rest of the message without charging for it up front.
    UnpaidExecution { weight_limit: WeightLimit, check_origin: Option<Location> },
    /// Narrow the message's computed origin into the given sub-context.
    DescendOrigin(Vec<Junction>),
    /// Claim that the origin is the root of the given foreign consensus
    /// system, expressed as a single junction.
    UniversalOrigin(Junction),
    /// Execute an encoded call under the given origin kind, within the
    /// given weight ceiling.
    Transact { origin_kind: OriginKind, require_weight_at_most: Weight, call: Vec<u8> },
    /// Move the listed assets from the origin's account into the holding.
    WithdrawAsset(Vec<Asset>),
    /// Note that the listed assets were deposited under reserve upstream.
    ReserveAssetDeposited(Vec<Asset>),
    /// Deposit the selected assets at `dest` and hand it `xcm` to execute.
    DepositReserveAsset { assets: AssetFilter, dest: Location, xcm: Xcm },
    /// Pay for execution with `fees`, bounded by `weight_limit`.
    BuyExecution { fees: Asset, weight_limit: WeightLimit },
    /// Deposit the selected assets into the beneficiary's account.
    DepositAsset { assets: AssetFilter, beneficiary: Location },
}

/// A routing message: the ordered instructions it executes.
#[derive(Debug, PartialEq, Eq)]
pub struct Xcm {
    pub instructions: Vec<Instruction>,
}

/// Mathematical model of an `Instruction`; nested messages become sequences.
pub enum InstructionV {
    UnpaidExecution { weight_limit: WeightLimit, check_origin: Option<LocationV> },
    DescendOrigin(Seq<Junction>),
    UniversalOrigin(Junction),
    Transact { origin_kind: OriginKind, require_weight_at_most: Weight, call: Seq<u8> },
    WithdrawAsset(Seq<AssetV>),
    ReserveAssetDeposited(Seq<AssetV>),
    DepositReserveAsset { assets: AssetFilterV, dest: LocationV, xcm: Seq<InstructionV> },
    BuyExecution { fees: AssetV, weight_limit: WeightLimit },
    DepositAsset { assets: AssetFilterV, beneficiary: LocationV },
}

impl Instruction {
    /// The model of one instruction, unfolding nested messages recursively.
    pub open spec fn deep(self) -> InstructionV
        decreases self,
    {
        match self {
            Instruction::UnpaidExecution { weight_limit, check_origin } => {
                InstructionV::UnpaidExecution {
                    weight_limit,
                    check_origin: match check_origin {
                        Some(l) => Some(l@),
                        None => None,
                    },
                }
            },
            Instruction::DescendOrigin(path) => InstructionV::DescendOrigin(path@),
            Instruction::UniversalOrigin(j) => InstructionV::UniversalOrigin(j),
            Instruction::Transact { origin_kind, require_weight_at_most, call } => {
                InstructionV::Transact { origin_kind, require_weight_at_most, call: call@ }
            },
            Instruction::WithdrawAsset(assets) => {
                InstructionV::WithdrawAsset(deep_assets(assets@))
            },
            Instruction::ReserveAssetDeposited(assets) => {
                InstructionV::ReserveAssetDeposited(deep_assets(assets@))
            },
            Instruction::DepositReserveAsset { assets, dest, xcm } => {
                InstructionV::DepositReserveAsset {
                    assets: assets@,
                    dest: dest@,
                    xcm: Seq::new(
                        xcm.instructions@.len(),
                        |j: int|
                            if 0 <= j < xcm.instructions@.len() {
                                xcm.instructions@[j].deep()
                            } else {
                                arbitrary()
                            },
                    ),
                }
            },
            Instruction::BuyExecution { fees, weight_limit } => {
                InstructionV::BuyExecution { fees: fees@, weight_limit }
            },
            Instruction::DepositAsset { assets, beneficiary } => {
                InstructionV::DepositAsset { assets: assets@, beneficiary: beneficiary@ }
            },
        }
    }
}

/// The model of a list of instructions: each element's model, in order.
pub open spec fn deep_instructions(s: Seq<Instruction>) -> Seq<InstructionV> {
    Seq::new(
        s.len(),
        |j: int|
            if 0 <= j < s.len() {
                s[j].deep()
            } else {
                arbitrary()
            },
    )
}

impl View for Instruction {
    type V = InstructionV;

    open spec fn view(&self) -> InstructionV {
        self.deep()
    }
}

impl View for Xcm {
    type V = Seq<InstructionV>;

    open spec fn view(&self) -> Seq<InstructionV> {
        deep_instructions(self.instructions@)
    }
}

} // verus!
