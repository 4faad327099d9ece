//! The routing message builder: four named construction recipes.
//!
//! Each builder is a pure function from domain parameters to a fully formed
//! privileged call value: same inputs, same message. Weight ceilings and fee
//! amounts are caller-supplied constants; the builder does no cost
//! estimation. The unverified shell signs and submits the returned value.

use crate::asset::{Asset, AssetFilter, AssetFilterV, AssetIdV, AssetV, Fungibility, WildAsset};
use crate::location::{Junction, Location, LocationV, NetworkId};
use crate::message::{Instruction, InstructionV, OriginKind, Weight, WeightLimit, Xcm};
use vstd::prelude::*;

verus! {

/// Per-scenario configuration: the chain identifiers and the transact
/// weight ceiling that the surrounding environment supplies.
#[derive(Clone, Copy, Debug, PartialEq, Eq, Structural)]
pub struct RoutingConfig {
    /// Parachain id of the bridge hub.
    pub bridge_hub_para_id: u32,
    /// Parachain id of the asset hub.
    pub asset_hub_para_id: u32,
    /// Parachain id of the second parachain that receives routed deposits.
    pub penpal_para_id: u32,
    /// Module index of the bridge's inbound queue pallet.
    pub inbound_queue_pallet_index: u8,
    /// Chain id of the external consensus system.
    pub ethereum_chain_id: u64,
    /// Resource ceiling for every transacted call.
    pub transact_weight: Weight,
}

/// An account reference as the privileged wrapper's runtime accepts it.
#[derive(Clone, Copy, Debug, PartialEq, Eq)]
pub enum MultiAddress {
    /// A 32-byte account id, the only form these scenarios use.
    Id([u8; 32]),
}

/// The send call handed to the relay chain's messaging pallet: a
/// destination and the message to execute there.
#[derive(Debug, PartialEq, Eq)]
pub struct XcmSend {
    pub dest: Location,
    pub message: Xcm,
}

/// Mathematical model of an `XcmSend`.
pub struct XcmSendV {
    pub dest: LocationV,
    pub message: Seq<InstructionV>,
}

impl View for XcmSend {
    type V = XcmSendV;

    open spec fn view(&self) -> XcmSendV {
        XcmSendV { dest: self.dest@, message: self.message@ }
    }
}

/// The privileged envelope the dispatcher signs: plain sudo, or sudo acting
/// as a named account.
#[derive(Debug, PartialEq, Eq)]
pub enum SudoCall {
    /// Execute the send call as the chain's root origin.
    Sudo(XcmSend),
    /// Execute the send call with the origin of the named account.
    SudoAs { who: MultiAddress, call: XcmSend },
}

/// Mathematical model of a `SudoCall`.
pub enum SudoCallV {
    Sudo(XcmSendV),
    SudoAs { who: MultiAddress, call: XcmSendV },
}

impl View for SudoCall {
    type V = SudoCallV;

    open spec fn view(&self) -> SudoCallV {
        match self {
            SudoCall::Sudo(send) => SudoCallV::Sudo(send@),
            SudoCall::SudoAs { who, call } => SudoCallV::SudoAs { who: *who, call: call@ },
        }
    }
}

/// The destination of a message sent from the relay chain to one of its
/// own parachains.
pub open spec fn spec_para_dest(para_id: u32) -> LocationV {
    LocationV { parents: 0, interior: seq![Junction::Parachain(para_id)] }
}

/// The unconditional-execute instruction that opens unpaid governance
/// messages.
pub open spec fn spec_unpaid_execution() -> InstructionV {
    InstructionV::UnpaidExecution { weight_limit: WeightLimit::Unlimited, check_origin: None }
}

/// A transact instruction under the given origin kind and weight ceiling.
pub open spec fn spec_transact(kind: OriginKind, weight: Weight, call: Seq<u8>) -> InstructionV {
    InstructionV::Transact { origin_kind: kind, require_weight_at_most: weight, call }
}

/// An exact amount of the asset whose home is `home`.
pub open spec fn spec_fungible(home: LocationV, amount: u128) -> AssetV {
    AssetV { id: AssetIdV::Concrete(home), fun: Fungibility::Fungible(amount) }
}

/// The relay chain's own asset, seen from one of its parachains.
pub open spec fn spec_relay_asset_home() -> LocationV {
    LocationV { parents: 1, interior: Seq::empty() }
}

/// The external chain's asset, seen from a parachain of the relay chain.
pub open spec fn spec_ethereum_asset_home(chain_id: u64) -> LocationV {
    LocationV {
        parents: 2,
        interior: seq![Junction::GlobalConsensus(NetworkId::Ethereum { chain_id })],
    }
}

/// Recipe: direct superuser call. The relay chain's privileged identity
/// authorizes execution of `call` on the destination directly.
pub open spec fn spec_direct_superuser(para_id: u32, weight: Weight, call: Seq<u8>) -> XcmSendV {
    XcmSendV {
        dest: spec_para_dest(para_id),
        message: seq![
            spec_unpaid_execution(),
            spec_transact(OriginKind::Superuser, weight, call),
        ],
    }
}

/// Recipe: relayed sovereign call. The relay chain descends into the bridge
/// hub's inbound queue pallet, claims the external consensus system as
/// universal origin, and transacts under the matching sovereign account.
pub open spec fn spec_relayed_sovereign(
    cfg: RoutingConfig,
    dest_para_id: u32,
    call: Seq<u8>,
) -> XcmSendV {
    XcmSendV {
        dest: spec_para_dest(dest_para_id),
        message: seq![
            spec_unpaid_execution(),
            InstructionV::DescendOrigin(seq![Junction::Parachain(cfg.bridge_hub_para_id)]),
            InstructionV::DescendOrigin(
                seq![Junction::PalletInstance(cfg.inbound_queue_pallet_index)],
            ),
            InstructionV::UniversalOrigin(
                Junction::GlobalConsensus(NetworkId::Ethereum { chain_id: cfg.ethereum_chain_id }),
            ),
            spec_transact(OriginKind::SovereignAccount, cfg.transact_weight, call),
        ],
    }
}

/// Recipe: sudo-as delegated call. Fees are bought on the destination and
/// the call transacts as superuser, while the envelope's origin becomes the
/// named account rather than the privileged identity.
pub open spec fn spec_sudo_as_delegated(
    para_id: u32,
    weight: Weight,
    fee_amount: u128,
    call: Seq<u8>,
) -> XcmSendV {
    XcmSendV {
        dest: spec_para_dest(para_id),
        message: seq![
            InstructionV::BuyExecution {
                fees: spec_fungible(LocationV { parents: 0, interior: Seq::empty() }, fee_amount),
                weight_limit: WeightLimit::Limited(weight),
            },
            spec_transact(OriginKind::Superuser, weight, call),
        ],
    }
}

/// The nested message executed after arrival at the deposit destination:
/// buy execution with the relay asset, then deposit everything counted.
pub open spec fn spec_deposit_remote_message(
    weight: Weight,
    fee_amount: u128,
    beneficiary: [u8; 32],
) -> Seq<InstructionV> {
    seq![
        InstructionV::BuyExecution {
            fees: spec_fungible(spec_relay_asset_home(), fee_amount),
            weight_limit: WeightLimit::Limited(weight),
        },
        InstructionV::DepositAsset {
            assets: AssetFilterV::Wild(WildAsset::AllCounted(2)),
            beneficiary: LocationV {
                parents: 0,
                interior: seq![Junction::AccountId32 { network: None, id: beneficiary }],
            },
        },
    ]
}

/// Recipe: asset deposit with routing. After claiming the external origin,
/// withdraw the relay asset, note the external asset as reserve-deposited,
/// and forward both to a second parachain together with a nested message
/// that pays fees there and deposits to the beneficiary.
pub open spec fn spec_asset_deposit(
    cfg: RoutingConfig,
    amount: u128,
    remote_fee_amount: u128,
    beneficiary: [u8; 32],
) -> XcmSendV {
    XcmSendV {
        dest: spec_para_dest(cfg.asset_hub_para_id),
        message: seq![
            spec_unpaid_execution(),
            InstructionV::DescendOrigin(seq![Junction::Parachain(cfg.bridge_hub_para_id)]),
            InstructionV::DescendOrigin(
                seq![Junction::PalletInstance(cfg.inbound_queue_pallet_index)],
            ),
            InstructionV::UniversalOrigin(
                Junction::GlobalConsensus(NetworkId::Ethereum { chain_id: cfg.ethereum_chain_id }),
            ),
            InstructionV::WithdrawAsset(seq![spec_fungible(spec_relay_asset_home(), amount)]),
            InstructionV::ReserveAssetDeposited(
                seq![spec_fungible(spec_ethereum_asset_home(cfg.ethereum_chain_id), amount)],
            ),
            InstructionV::DepositReserveAsset {
                assets: AssetFilterV::Definite(
                    seq![
                        spec_fungible(spec_relay_asset_home(), amount),
                        spec_fungible(spec_ethereum_asset_home(cfg.ethereum_chain_id), amount),
                    ],
                ),
                dest: LocationV {
                    parents: 1,
                    interior: seq![Junction::Parachain(cfg.penpal_para_id)],
                },
                xcm: spec_deposit_remote_message(cfg.transact_weight, remote_fee_amount, beneficiary),
            },
        ],
    }
}

/// Builds the direct superuser governance call for the bridge hub.
pub fn governance_bridgehub_call_from_relay_chain(cfg: &RoutingConfig, call: Vec<u8>) -> (r:
    SudoCall)
    ensures
        r@ == SudoCallV::Sudo(
            spec_direct_superuser(cfg.bridge_hub_para_id, cfg.transact_weight, call@),
        ),
{
    direct_superuser_send(cfg.bridge_hub_para_id, cfg.transact_weight, call)
}

/// Builds the direct superuser governance call for the asset hub.
pub fn governance_assethub_call_from_relay_chain(cfg: &RoutingConfig, call: Vec<u8>) -> (r:
    SudoCall)
    ensures
        r@ == SudoCallV::Sudo(
            spec_direct_superuser(cfg.asset_hub_para_id, cfg.transact_weight, call@),
        ),
{
    direct_superuser_send(cfg.asset_hub_para_id, cfg.transact_weight, call)
}

/// Builds a direct superuser send call for any destination parachain.
pub fn direct_superuser_send(para_id: u32, weight: Weight, call: Vec<u8>) -> (r: SudoCall)
    ensures
        r@ == SudoCallV::Sudo(spec_direct_superuser(para_id, weight, call@)),
{
    let dest = Location::parachain(0, para_id);
    let i0 = Instruction::UnpaidExecution {
        weight_limit: WeightLimit::Unlimited,
        check_origin: None,
    };
    let i1 = Instruction::Transact {
        origin_kind: OriginKind::Superuser,
        require_weight_at_most: weight,
        call,
    };
    let ghost g0 = i0;
    let ghost g1 = i1;
    let mut instructions: Vec<Instruction> = Vec::new();
    instructions.push(i0);
    instructions.push(i1);
    let send = XcmSend { dest, message: Xcm { instructions } };
    proof {
        assert(send@.message =~= seq![g0.deep(), g1.deep()]);
        assert(send@.message =~= spec_direct_superuser(para_id, weight, g1->Transact_call@).message);
    }
    SudoCall::Sudo(send)
}

/// Builds the relayed sovereign governance call: the relay chain
/// impersonates the bridge hub's inbound queue pallet on behalf of the
/// external consensus system, targeting the asset hub.
pub fn snowbridge_assethub_call_from_relay_chain(cfg: &RoutingConfig, call: Vec<u8>) -> (r:
    SudoCall)
    ensures
        r@ == SudoCallV::Sudo(spec_relayed_sovereign(*cfg, cfg.asset_hub_para_id, call@)),
{
    let dest = Location::parachain(0, cfg.asset_hub_para_id);
    let i0 = Instruction::UnpaidExecution {
        weight_limit: WeightLimit::Unlimited,
        check_origin: None,
    };
    let mut descend_para: Vec<Junction> = Vec::new();
    descend_para.push(Junction::Parachain(cfg.bridge_hub_para_id));
    let i1 = Instruction::DescendOrigin(descend_para);
    let mut descend_pallet: Vec<Junction> = Vec::new();
    descend_pallet.push(Junction::PalletInstance(cfg.inbound_queue_pallet_index));
    let i2 = Instruction::DescendOrigin(descend_pallet);
    let i3 = Instruction::UniversalOrigin(
        Junction::GlobalConsensus(NetworkId::Ethereum { chain_id: cfg.ethereum_chain_id }),
    );
    let i4 = Instruction::Transact {
        origin_kind: OriginKind::SovereignAccount,
        require_weight_at_most: cfg.transact_weight,
        call,
    };
    let ghost g = seq![i0, i1, i2, i3, i4];
    let mut instructions: Vec<Instruction> = Vec::new();
    instructions.push(i0);
    instructions.push(i1);
    instructions.push(i2);
    instructions.push(i3);
    instructions.push(i4);
    let send = XcmSend { dest, message: Xcm { instructions } };
    proof {
        let expected = spec_relayed_sovereign(*cfg, cfg.asset_hub_para_id, g[4]->Transact_call@);
        assert(send@.message =~= seq![g[0].deep(), g[1].deep(), g[2].deep(), g[3].deep(), g[4].deep()]);
        assert(g[1].deep() == expected.message[1]) by {
            assert(g[1]->DescendOrigin_0@ =~= seq![Junction::Parachain(cfg.bridge_hub_para_id)]);
        }
        assert(g[2].deep() == expected.message[2]) by {
            assert(g[2]->DescendOrigin_0@ =~= seq![Junction::PalletInstance(cfg.inbound_queue_pallet_index)]);
        }
        assert(send@.message =~= expected.message);
    }
    SudoCall::Sudo(send)
}

/// Builds the sudo-as delegated governance call for the asset hub: the
/// envelope's origin becomes `who`, and the message buys its execution
/// before transacting as superuser.
pub fn governance_assethub_call_from_relay_chain_sudo_as(
    cfg: &RoutingConfig,
    who: MultiAddress,
    fee_amount: u128,
    call: Vec<u8>,
) -> (r: SudoCall)
    ensures
        r@ == (SudoCallV::SudoAs {
            who,
            call: spec_sudo_as_delegated(
                cfg.asset_hub_para_id,
                cfg.transact_weight,
                fee_amount,
                call@,
            ),
        }),
{
    let dest = Location::parachain(0, cfg.asset_hub_para_id);
    let i0 = Instruction::BuyExecution {
        fees: Asset::fungible(Location::here(0), fee_amount),
        weight_limit: WeightLimit::Limited(cfg.transact_weight),
    };
    let i1 = Instruction::Transact {
        origin_kind: OriginKind::Superuser,
        require_weight_at_most: cfg.transact_weight,
        call,
    };
    let ghost g0 = i0;
    let ghost g1 = i1;
    let mut instructions: Vec<Instruction> = Vec::new();
    instructions.push(i0);
    instructions.push(i1);
    let send = XcmSend { dest, message: Xcm { instructions } };
    proof {
        let expected = spec_sudo_as_delegated(
            cfg.asset_hub_para_id,
            cfg.transact_weight,
            fee_amount,
            g1->Transact_call@,
        );
        assert(send@.message =~= seq![g0.deep(), g1.deep()]);
        assert(g0.deep() == expected.message[0]);
        assert(send@.message =~= expected.message);
    }
    SudoCall::SudoAs { who, call: send }
}

/// Builds the compound asset-deposit message: withdraw the relay asset,
/// note the external asset as reserve-deposited, and route both onwards to
/// the second parachain with a nested fee-paying deposit message.
pub fn assethub_deposit_eth_on_penpal_call_from_relay_chain(
    cfg: &RoutingConfig,
    amount: u128,
    remote_fee_amount: u128,
    beneficiary: [u8; 32],
) -> (r: SudoCall)
    ensures
        r@ == SudoCallV::Sudo(spec_asset_deposit(*cfg, amount, remote_fee_amount, beneficiary)),
{
    let dest = Location::parachain(0, cfg.asset_hub_para_id);
    let i0 = Instruction::UnpaidExecution {
        weight_limit: WeightLimit::Unlimited,
        check_origin: None,
    };
    let mut descend_para: Vec<Junction> = Vec::new();
    descend_para.push(Junction::Parachain(cfg.bridge_hub_para_id));
    let i1 = Instruction::DescendOrigin(descend_para);
    let mut descend_pallet: Vec<Junction> = Vec::new();
    descend_pallet.push(Junction::PalletInstance(cfg.inbound_queue_pallet_index));
    let i2 = Instruction::DescendOrigin(descend_pallet);
    let i3 = Instruction::UniversalOrigin(
        Junction::GlobalConsensus(NetworkId::Ethereum { chain_id: cfg.ethereum_chain_id }),
    );
    let mut withdraw: Vec<Asset> = Vec::new();
    withdraw.push(Asset::fungible(Location::here(1), amount));
    let i4 = Instruction::WithdrawAsset(withdraw);
    let mut reserve: Vec<Asset> = Vec::new();
    reserve.push(
        Asset::fungible(
            Location::global_consensus(2, NetworkId::Ethereum { chain_id: cfg.ethereum_chain_id }),
            amount,
        ),
    );
    let i5 = Instruction::ReserveAssetDeposited(reserve);

    let mut routed: Vec<Asset> = Vec::new();
    routed.push(Asset::fungible(Location::here(1), amount));
    routed.push(
        Asset::fungible(
            Location::global_consensus(2, NetworkId::Ethereum { chain_id: cfg.ethereum_chain_id }),
            amount,
        ),
    );
    let r0 = Instruction::BuyExecution {
        fees: Asset::fungible(Location::here(1), remote_fee_amount),
        weight_limit: WeightLimit::Limited(cfg.transact_weight),
    };
    let r1 = Instruction::DepositAsset {
        assets: AssetFilter::Wild(WildAsset::AllCounted(2)),
        beneficiary: Location::account(beneficiary),
    };
    let ghost gr0 = r0;
    let ghost gr1 = r1;
    let mut remote: Vec<Instruction> = Vec::new();
    remote.push(r0);
    remote.push(r1);
    let i6 = Instruction::DepositReserveAsset {
        assets: AssetFilter::Definite(routed),
        dest: Location::parachain(1, cfg.penpal_para_id),
        xcm: Xcm { instructions: remote },
    };
    let ghost g = seq![i0, i1, i2, i3, i4, i5, i6];
    let mut instructions: Vec<Instruction> = Vec::new();
    instructions.push(i0);
    instructions.push(i1);
    instructions.push(i2);
    instructions.push(i3);
    instructions.push(i4);
    instructions.push(i5);
    instructions.push(i6);
    let send = XcmSend { dest, message: Xcm { instructions } };
    proof {
        let expected = spec_asset_deposit(*cfg, amount, remote_fee_amount, beneficiary);
        assert(send@.message =~= seq![
            g[0].deep(), g[1].deep(), g[2].deep(), g[3].deep(), g[4].deep(), g[5].deep(),
            g[6].deep(),
        ]);
        assert(g[1].deep() == expected.message[1]) by {
            assert(g[1]->DescendOrigin_0@ =~= seq![Junction::Parachain(cfg.bridge_hub_para_id)]);
        }
        assert(g[2].deep() == expected.message[2]) by {
            assert(g[2]->DescendOrigin_0@ =~= seq![Junction::PalletInstance(cfg.inbound_queue_pallet_index)]);
        }
        assert(g[4].deep() == expected.message[4]) by {
            assert(crate::asset::deep_assets(g[4]->WithdrawAsset_0@) =~= seq![
                spec_fungible(spec_relay_asset_home(), amount),
            ]);
        }
        assert(g[5].deep() == expected.message[5]) by {
            assert(crate::asset::deep_assets(g[5]->ReserveAssetDeposited_0@) =~= seq![
                spec_fungible(spec_ethereum_asset_home(cfg.ethereum_chain_id), amount),
            ]);
        }
        assert(g[6].deep() == expected.message[6]) by {
            let gi6 = g[6];
            assert(gi6->DepositReserveAsset_assets@ matches AssetFilterV::Definite(a) && a =~= seq![
                spec_fungible(spec_relay_asset_home(), amount),
                spec_fungible(spec_ethereum_asset_home(cfg.ethereum_chain_id), amount),
            ]);
            assert(gi6.deep()->DepositReserveAsset_xcm =~= seq![gr0.deep(), gr1.deep()]);
            assert(gi6.deep()->DepositReserveAsset_xcm =~= spec_deposit_remote_message(
                cfg.transact_weight,
                remote_fee_amount,
                beneficiary,
            ));
        }
        assert(send@.message =~= expected.message);
    }
    SudoCall::Sudo(send)
}

/// Law: the builder recipes are pure functions of their parameters.
/// Builders take their configuration by shared reference and own their call
/// bytes, so building mutates no shared state; and any two privileged calls
/// built from the same parameters have equal models.
pub proof fn lemma_rebuild_equal(a: SudoCall, b: SudoCall, expected: SudoCallV)
    requires
        a@ == expected,
        b@ == expected,
    ensures
        a@ == b@,
{
}

} // verus!
