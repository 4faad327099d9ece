use snowbridge_smoketest::asset::{Asset, AssetFilter, AssetId, Fungibility, WildAsset};
use snowbridge_smoketest::builder::{
    assethub_deposit_eth_on_penpal_call_from_relay_chain, direct_superuser_send,
    governance_assethub_call_from_relay_chain, governance_assethub_call_from_relay_chain_sudo_as,
    governance_bridgehub_call_from_relay_chain, snowbridge_assethub_call_from_relay_chain,
    MultiAddress, RoutingConfig, SudoCall,
};
use snowbridge_smoketest::location::{Junction, NetworkId};
use snowbridge_smoketest::message::{Instruction, OriginKind, Weight, WeightLimit};

fn test_config() -> RoutingConfig {
    RoutingConfig {
        bridge_hub_para_id: 1013,
        asset_hub_para_id: 1000,
        penpal_para_id: 2001,
        inbound_queue_pallet_index: 80,
        ethereum_chain_id: 11155111,
        transact_weight: Weight { ref_time: 180000000000, proof_size: 900000 },
    }
}

#[test]
fn direct_superuser_bridgehub_shape() {
    let cfg = test_config();
    let call: Vec<u8> = vec![0x26, 0x00, 0x01, 0x02];
    let built = governance_bridgehub_call_from_relay_chain(&cfg, call.clone());
    let send = match built {
        SudoCall::Sudo(send) => send,
        _ => panic!("expected a plain sudo envelope"),
    };
    assert_eq!(send.dest.parents, 0);
    assert_eq!(send.dest.interior, vec![Junction::Parachain(1013)]);
    assert_eq!(send.message.instructions.len(), 2);
    assert_eq!(
        send.message.instructions[0],
        Instruction::UnpaidExecution { weight_limit: WeightLimit::Unlimited, check_origin: None }
    );
    assert_eq!(
        send.message.instructions[1],
        Instruction::Transact {
            origin_kind: OriginKind::Superuser,
            require_weight_at_most: Weight { ref_time: 180000000000, proof_size: 900000 },
            call,
        }
    );
}

#[test]
fn direct_superuser_assethub_targets_assethub() {
    let cfg = test_config();
    let built = governance_assethub_call_from_relay_chain(&cfg, vec![1, 2, 3]);
    let send = match built {
        SudoCall::Sudo(send) => send,
        _ => panic!("expected a plain sudo envelope"),
    };
    assert_eq!(send.dest.interior, vec![Junction::Parachain(1000)]);
}

#[test]
fn relayed_sovereign_shape() {
    let cfg = test_config();
    let call: Vec<u8> = vec![0x33, 0x07];
    let built = snowbridge_assethub_call_from_relay_chain(&cfg, call.clone());
    let send = match built {
        SudoCall::Sudo(send) => send,
        _ => panic!("expected a plain sudo envelope"),
    };
    assert_eq!(send.dest.parents, 0);
    assert_eq!(send.dest.interior, vec![Junction::Parachain(1000)]);
    let instrs = &send.message.instructions;
    assert_eq!(instrs.len(), 5);
    assert_eq!(
        instrs[0],
        Instruction::UnpaidExecution { weight_limit: WeightLimit::Unlimited, check_origin: None }
    );
    assert_eq!(instrs[1], Instruction::DescendOrigin(vec![Junction::Parachain(1013)]));
    assert_eq!(instrs[2], Instruction::DescendOrigin(vec![Junction::PalletInstance(80)]));
    assert_eq!(
        instrs[3],
        Instruction::UniversalOrigin(Junction::GlobalConsensus(NetworkId::Ethereum {
            chain_id: 11155111
        }))
    );
    assert_eq!(
        instrs[4],
        Instruction::Transact {
            origin_kind: OriginKind::SovereignAccount,
            require_weight_at_most: cfg.transact_weight,
            call,
        }
    );
}

#[test]
fn sudo_as_delegated_shape() {
    let cfg = test_config();
    let who = MultiAddress::Id([7u8; 32]);
    let call: Vec<u8> = vec![0x35, 0x01];
    let built = governance_assethub_call_from_relay_chain_sudo_as(
        &cfg,
        who,
        7_000_000_000_000,
        call.clone(),
    );
    let (got_who, send) = match built {
        SudoCall::SudoAs { who, call } => (who, call),
        _ => panic!("expected a sudo-as envelope"),
    };
    assert_eq!(got_who, MultiAddress::Id([7u8; 32]));
    assert_eq!(send.dest.interior, vec![Junction::Parachain(1000)]);
    let instrs = &send.message.instructions;
    assert_eq!(instrs.len(), 2);
    assert_eq!(
        instrs[0],
        Instruction::BuyExecution {
            fees: Asset {
                id: AssetId::Concrete(snowbridge_smoketest::location::Location {
                    parents: 0,
                    interior: vec![],
                }),
                fun: Fungibility::Fungible(7_000_000_000_000),
            },
            weight_limit: WeightLimit::Limited(cfg.transact_weight),
        }
    );
    assert_eq!(
        instrs[1],
        Instruction::Transact {
            origin_kind: OriginKind::Superuser,
            require_weight_at_most: cfg.transact_weight,
            call,
        }
    );
}

#[test]
fn asset_deposit_shape() {
    let cfg = test_config();
    let beneficiary = [0xAAu8; 32];
    let built = assethub_deposit_eth_on_penpal_call_from_relay_chain(
        &cfg,
        3_000_000_000_000,
        2_000_000_000_000,
        beneficiary,
    );
    let send = match built {
        SudoCall::Sudo(send) => send,
        _ => panic!("expected a plain sudo envelope"),
    };
    assert_eq!(send.dest.interior, vec![Junction::Parachain(1000)]);
    let instrs = &send.message.instructions;
    assert_eq!(instrs.len(), 7);

    let relay_home = snowbridge_smoketest::location::Location { parents: 1, interior: vec![] };
    let eth_home = snowbridge_smoketest::location::Location {
        parents: 2,
        interior: vec![Junction::GlobalConsensus(NetworkId::Ethereum { chain_id: 11155111 })],
    };
    let relay_asset = Asset {
        id: AssetId::Concrete(relay_home.clone()),
        fun: Fungibility::Fungible(3_000_000_000_000),
    };
    let eth_asset = Asset {
        id: AssetId::Concrete(eth_home.clone()),
        fun: Fungibility::Fungible(3_000_000_000_000),
    };
    assert_eq!(instrs[4], Instruction::WithdrawAsset(vec![relay_asset.clone()]));
    assert_eq!(instrs[5], Instruction::ReserveAssetDeposited(vec![eth_asset.clone()]));

    let (assets, dest, xcm) = match &instrs[6] {
        Instruction::DepositReserveAsset { assets, dest, xcm } => (assets, dest, xcm),
        other => panic!("expected the routed deposit, got {:?}", other),
    };
    assert_eq!(*assets, AssetFilter::Definite(vec![relay_asset, eth_asset]));
    assert_eq!(dest.parents, 1);
    assert_eq!(dest.interior, vec![Junction::Parachain(2001)]);
    assert_eq!(xcm.instructions.len(), 2);
    assert_eq!(
        xcm.instructions[0],
        Instruction::BuyExecution {
            fees: Asset {
                id: AssetId::Concrete(relay_home),
                fun: Fungibility::Fungible(2_000_000_000_000),
            },
            weight_limit: WeightLimit::Limited(cfg.transact_weight),
        }
    );
    assert_eq!(
        xcm.instructions[1],
        Instruction::DepositAsset {
            assets: AssetFilter::Wild(WildAsset::AllCounted(2)),
            beneficiary: snowbridge_smoketest::location::Location {
                parents: 0,
                interior: vec![Junction::AccountId32 { network: None, id: beneficiary }],
            },
        }
    );
}

#[test]
fn rebuilding_yields_equal_messages() {
    let cfg = test_config();
    let call: Vec<u8> = vec![9, 9, 9];
    let a = governance_bridgehub_call_from_relay_chain(&cfg, call.clone());
    let b = governance_bridgehub_call_from_relay_chain(&cfg, call.clone());
    assert_eq!(a, b);

    let c = snowbridge_assethub_call_from_relay_chain(&cfg, call.clone());
    let d = snowbridge_assethub_call_from_relay_chain(&cfg, call.clone());
    assert_eq!(c, d);

    let e = assethub_deposit_eth_on_penpal_call_from_relay_chain(&cfg, 10, 5, [1u8; 32]);
    let f = assethub_deposit_eth_on_penpal_call_from_relay_chain(&cfg, 10, 5, [1u8; 32]);
    assert_eq!(e, f);

    let g = governance_assethub_call_from_relay_chain_sudo_as(
        &cfg,
        MultiAddress::Id([2u8; 32]),
        42,
        call.clone(),
    );
    let h = governance_assethub_call_from_relay_chain_sudo_as(
        &cfg,
        MultiAddress::Id([2u8; 32]),
        42,
        call,
    );
    assert_eq!(g, h);
}

#[test]
fn direct_superuser_send_takes_any_destination() {
    let w = Weight { ref_time: 1, proof_size: 2 };
    let built = direct_superuser_send(4321, w, vec![5]);
    let send = match built {
        SudoCall::Sudo(send) => send,
        _ => panic!("expected a plain sudo envelope"),
    };
    assert_eq!(send.dest.interior, vec![Junction::Parachain(4321)]);
}
