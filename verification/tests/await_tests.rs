use snowbridge_smoketest::await_engine::{await_ethereum_event, await_substrate_event, AwaitState};
use snowbridge_smoketest::dispatch::ScenarioError;
use snowbridge_smoketest::event::{EventDescriptor, EventLog, SubstrateEvent};

fn descriptor() -> EventDescriptor {
    EventDescriptor {
        namespace: b"EthereumSystem".to_vec(),
        name: b"SetTokenTransferFees".to_vec(),
    }
}

fn target_event() -> SubstrateEvent {
    SubstrateEvent {
        pallet: b"EthereumSystem".to_vec(),
        name: b"SetTokenTransferFees".to_vec(),
    }
}

fn other_event() -> SubstrateEvent {
    SubstrateEvent { pallet: b"Balances".to_vec(), name: b"Transfer".to_vec() }
}

#[test]
fn matched_at_block_three_of_five() {
    // Horizon of 5 blocks on a parachain target; the target event is
    // injected into block 3: the engine matches after observing exactly
    // 3 blocks.
    let blocks: Vec<Vec<SubstrateEvent>> = vec![
        vec![other_event()],
        vec![],
        vec![other_event(), target_event()],
        vec![target_event()],
        vec![],
    ];
    let r = await_substrate_event(&blocks, &descriptor(), 5);
    assert_eq!(r, AwaitState::Matched { observed: 3 });
}

#[test]
fn exhausted_after_exactly_five_blocks() {
    // Horizon of 5 blocks and no matching event anywhere: the engine is
    // exhausted after observing exactly 5 blocks, even though more blocks
    // were delivered.
    let blocks: Vec<Vec<SubstrateEvent>> = vec![
        vec![other_event()],
        vec![],
        vec![other_event()],
        vec![],
        vec![other_event()],
        vec![target_event()],
    ];
    let r = await_substrate_event(&blocks, &descriptor(), 5);
    assert_eq!(r, AwaitState::Exhausted { observed: 5 });
}

#[test]
fn match_in_first_block() {
    let blocks: Vec<Vec<SubstrateEvent>> = vec![vec![target_event()]];
    let r = await_substrate_event(&blocks, &descriptor(), 500);
    assert_eq!(r, AwaitState::Matched { observed: 1 });
}

#[test]
fn match_past_horizon_is_not_seen() {
    // The event appears only after the horizon: exhausted at the horizon.
    let blocks: Vec<Vec<SubstrateEvent>> =
        vec![vec![], vec![], vec![target_event()]];
    let r = await_substrate_event(&blocks, &descriptor(), 2);
    assert_eq!(r, AwaitState::Exhausted { observed: 2 });
}

#[test]
fn subscription_ending_early_exhausts() {
    let blocks: Vec<Vec<SubstrateEvent>> = vec![vec![], vec![other_event()]];
    let r = await_substrate_event(&blocks, &descriptor(), 500);
    assert_eq!(r, AwaitState::Exhausted { observed: 2 });
}

#[test]
fn zero_horizon_observes_nothing() {
    let blocks: Vec<Vec<SubstrateEvent>> = vec![vec![target_event()]];
    let r = await_substrate_event(&blocks, &descriptor(), 0);
    assert_eq!(r, AwaitState::Exhausted { observed: 0 });
}

#[test]
fn pallet_alone_does_not_match() {
    let near_miss = SubstrateEvent {
        pallet: b"EthereumSystem".to_vec(),
        name: b"PricingParametersChanged".to_vec(),
    };
    let blocks: Vec<Vec<SubstrateEvent>> = vec![vec![near_miss]];
    let r = await_substrate_event(&blocks, &descriptor(), 5);
    assert_eq!(r, AwaitState::Exhausted { observed: 1 });
}

fn gateway_descriptor() -> EventDescriptor {
    EventDescriptor { namespace: vec![0x11; 20], name: vec![0x22; 32] }
}

#[test]
fn ethereum_log_matches_on_address_and_signature_topic() {
    let matching = EventLog {
        address: vec![0x11; 20],
        topics: vec![vec![0x22; 32], vec![0x33; 32]],
        data: vec![1, 2, 3],
    };
    let wrong_address =
        EventLog { address: vec![0x44; 20], topics: vec![vec![0x22; 32]], data: vec![] };
    let wrong_topic =
        EventLog { address: vec![0x11; 20], topics: vec![vec![0x55; 32]], data: vec![] };
    let no_topics = EventLog { address: vec![0x11; 20], topics: vec![], data: vec![] };

    let blocks: Vec<Vec<EventLog>> =
        vec![vec![wrong_address, wrong_topic, no_topics], vec![matching]];
    let r = await_ethereum_event(&blocks, &gateway_descriptor(), 500);
    assert_eq!(r, AwaitState::Matched { observed: 2 });
}

#[test]
fn ethereum_await_exhausts_without_matching_log() {
    let stray = EventLog { address: vec![0x11; 20], topics: vec![], data: vec![9] };
    let blocks: Vec<Vec<EventLog>> = vec![vec![stray], vec![], vec![]];
    let r = await_ethereum_event(&blocks, &gateway_descriptor(), 3);
    assert_eq!(r, AwaitState::Exhausted { observed: 3 });
}

#[test]
fn stepwise_engine_agrees_with_driver() {
    let mut state = AwaitState::start(5);
    assert_eq!(state, AwaitState::Listening { remaining: 5, observed: 0 });
    state = state.on_block(false);
    assert_eq!(state, AwaitState::Listening { remaining: 4, observed: 1 });
    state = state.on_block(false);
    state = state.on_block(true);
    assert_eq!(state, AwaitState::Matched { observed: 3 });
}

#[test]
fn finished_awaits_map_to_results() {
    assert_eq!(AwaitState::Matched { observed: 3 }.into_result(), Ok(3));
    assert_eq!(
        AwaitState::Exhausted { observed: 5 }.into_result(),
        Err(ScenarioError::EventExhausted)
    );
}

#[test]
fn stepwise_engine_exhausts_at_horizon() {
    let mut state = AwaitState::start(2);
    state = state.on_block(false);
    state = state.on_block(false);
    assert_eq!(state, AwaitState::Exhausted { observed: 2 });
}
