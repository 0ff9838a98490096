use moonkit::async_backing::{
    Config as AsyncBackingConfig, FixedVelocityConsensusHook, HookFailure, Pallet as AsyncBacking, PostInherentsFailure,
};
use moonkit::nimbus_async_backing::{
    Config as NimbusAsyncBackingConfig, FixedVelocityConsensusHook as NimbusHook, NimbusHookFailure, Pallet as NimbusAsyncBacking,
    RelaySlot as NimbusRelaySlot,
};
use moonkit::slots::{ParaSlot, RelaySlot};
use moonkit::weights::{RuntimeDbWeight, Weight};

const RELAY_CHAIN_SLOT_DURATION_MILLIS: u32 = 6_000;

type ConsensusHook = FixedVelocityConsensusHook<RELAY_CHAIN_SLOT_DURATION_MILLIS, 1, 1>;

fn config() -> AsyncBackingConfig {
    AsyncBackingConfig {
        allow_multiple_blocks_per_slot: true,
        slot_duration: 6_000,
        db_weight: RuntimeDbWeight { read: 1, write: 1 },
    }
}

/// Runs the hook on a block at `slot`, as the runtime does: a block the
/// hook rejects is invalid.
fn on_state_proof_inner(pallet: &mut AsyncBacking, slot: u64) -> (Weight, u32) {
    let config = config();
    if let Some(failure) = ConsensusHook::on_state_proof_failure(pallet, &config, &RelaySlot, slot) {
        panic!("block rejected: {:?}", failure);
    }
    ConsensusHook::on_state_proof_inner(pallet, &config, &RelaySlot, slot)
}

fn assert_slot_info_eq(pallet: &AsyncBacking, slot_number: u64, authored: u32) {
    assert_eq!(pallet.slot_info().unwrap().0, slot_number);
    assert_eq!(pallet.slot_info().unwrap().1, authored);
}

#[test]
fn on_state_proof_inner_update_slot_info() {
    let mut pallet = AsyncBacking::new();
    assert_eq!(pallet.slot_info(), None);
    on_state_proof_inner(&mut pallet, 1);
    assert_slot_info_eq(&pallet, 1, 1);
}

#[test]
fn can_produce_2_parablock_per_relay_slot() {
    let mut pallet = AsyncBacking::new();
    assert_eq!(pallet.slot_info(), None);
    on_state_proof_inner(&mut pallet, 1);
    assert_slot_info_eq(&pallet, 1, 1);
    on_state_proof_inner(&mut pallet, 1);
    assert_slot_info_eq(&pallet, 1, 2);
}

#[test]
fn can_skip_a_relay_slot() {
    let mut pallet = AsyncBacking::new();
    assert_eq!(pallet.slot_info(), None);
    on_state_proof_inner(&mut pallet, 1);
    assert_slot_info_eq(&pallet, 1, 1);
    on_state_proof_inner(&mut pallet, 3);
    assert_slot_info_eq(&pallet, 3, 1);
}

#[test]
fn third_block_in_a_slot_reaches_the_limit() {
    let mut pallet = AsyncBacking::new();
    on_state_proof_inner(&mut pallet, 1);
    on_state_proof_inner(&mut pallet, 1);
    assert_eq!(
        ConsensusHook::on_state_proof_failure(&pallet, &config(), &RelaySlot, 1),
        Some(HookFailure::AuthoredLimitReached)
    );
}

#[test]
fn hook_returns_weight_and_capacity() {
    let mut pallet = AsyncBacking::new();
    let (weight, capacity) = on_state_proof_inner(&mut pallet, 4);
    assert_eq!(weight, Weight { ref_time: 2, proof_size: 0 });
    assert_eq!(capacity, 1);
}

#[test]
fn slot_moving_backwards_is_rejected() {
    let pallet = AsyncBacking { slot_info: Some((5, 1)) };
    assert_eq!(
        ConsensusHook::on_state_proof_failure(&pallet, &config(), &RelaySlot, 4),
        Some(HookFailure::SlotMovedBackwards)
    );
}

#[test]
fn second_block_in_slot_rejected_when_not_allowed() {
    let pallet = AsyncBacking { slot_info: Some((5, 1)) };
    let mut config = config();
    config.allow_multiple_blocks_per_slot = false;
    assert_eq!(
        ConsensusHook::on_state_proof_failure(&pallet, &config, &RelaySlot, 5),
        Some(HookFailure::SlotNotHighEnough)
    );
}

#[test]
fn zero_slot_duration_is_rejected() {
    let pallet = AsyncBacking::new();
    let mut config = config();
    config.slot_duration = 0;
    assert_eq!(
        ConsensusHook::on_state_proof_failure(&pallet, &config, &RelaySlot, 5),
        Some(HookFailure::ZeroSlotDuration)
    );
}

#[test]
fn parachain_slot_mismatch_is_rejected() {
    let pallet = AsyncBacking::new();
    // Relay slot 2 starts at 12 000 ms: parachain slot 4 with 3 000 ms slots.
    let wrong = ParaSlot { relay_chain_slot_duration_millis: 6_000, new_slot: 5, para_slot_duration: 3_000 };
    assert_eq!(
        ConsensusHook::on_state_proof_failure(&pallet, &config(), &wrong, 2),
        Some(HookFailure::SlotNumberMismatch)
    );
    let unusable = ParaSlot { relay_chain_slot_duration_millis: 6_000, new_slot: 4, para_slot_duration: 0 };
    assert_eq!(
        ConsensusHook::on_state_proof_failure(&pallet, &config(), &unusable, 2),
        Some(HookFailure::SlotVerifierUnusable)
    );
}

#[test]
fn parachain_slot_in_future_is_rejected() {
    let pallet = AsyncBacking::new();
    // The verifier derives slot 4 (3 000 ms slots) but the configured slots
    // last 6 000 ms, which puts relay slot 2 at parachain slot 2.
    let slots = ParaSlot { relay_chain_slot_duration_millis: 6_000, new_slot: 4, para_slot_duration: 3_000 };
    assert_eq!(
        ConsensusHook::on_state_proof_failure(&pallet, &config(), &slots, 2),
        Some(HookFailure::ParachainSlotInFuture)
    );
}

#[test]
fn can_build_upon_follows_velocity_and_capacity() {
    let pallet = AsyncBacking { slot_info: Some((7, 1)) };
    assert!(ConsensusHook::can_build_upon(&pallet, 0, 7));
    assert!(!ConsensusHook::can_build_upon(&pallet, 1, 8));
    assert!(!ConsensusHook::can_build_upon(&pallet, 0, 6));
    let full = AsyncBacking { slot_info: Some((7, 2)) };
    assert!(!ConsensusHook::can_build_upon(&full, 0, 7));
    assert!(ConsensusHook::can_build_upon(&AsyncBacking::new(), 5, 0));
}

#[test]
fn post_inherents_checks_the_timestamp_slot() {
    let pallet = AsyncBacking { slot_info: Some((2, 1)) };
    assert_eq!(pallet.post_inherents(&config(), 12_000), Ok(()));
    assert_eq!(pallet.post_inherents(&config(), 18_000), Err(PostInherentsFailure::SlotMismatch));
    assert_eq!(AsyncBacking::new().post_inherents(&config(), 0), Err(PostInherentsFailure::MissingRelaySlot));
    let mut zero = config();
    zero.slot_duration = 0;
    assert_eq!(pallet.post_inherents(&zero, 0), Err(PostInherentsFailure::ZeroSlotDuration));
}

fn nimbus_config() -> NimbusAsyncBackingConfig {
    NimbusAsyncBackingConfig { allow_multiple_blocks_per_slot: true, db_weight: RuntimeDbWeight { read: 1, write: 1 } }
}

#[test]
fn nimbus_hook_counts_blocks_per_slot() {
    type Hook = NimbusHook<RELAY_CHAIN_SLOT_DURATION_MILLIS, 1, 1>;
    let mut pallet = NimbusAsyncBacking::new();
    let config = nimbus_config();
    assert_eq!(Hook::on_state_proof_failure(&pallet, &config, &NimbusRelaySlot, 1), None);
    Hook::on_state_proof(&mut pallet, &config, &NimbusRelaySlot, 1);
    assert_eq!(pallet.slot_info(), Some((1, 1)));
    Hook::on_state_proof(&mut pallet, &config, &NimbusRelaySlot, 1);
    assert_eq!(pallet.slot_info(), Some((1, 2)));
    assert_eq!(
        Hook::on_state_proof_failure(&pallet, &config, &NimbusRelaySlot, 1),
        Some(NimbusHookFailure::AuthoredLimitReached)
    );
    assert_eq!(
        Hook::on_state_proof_failure(&pallet, &config, &NimbusRelaySlot, 0),
        Some(NimbusHookFailure::SlotMovedBackwards)
    );
    Hook::on_state_proof(&mut pallet, &config, &NimbusRelaySlot, 3);
    assert_eq!(pallet.slot_info(), Some((3, 1)));
}
