use moonkit::emergency_para_xcm::{
    AnyRelayNumber, Error as EmergencyParaXcmError, Event as EmergencyParaXcmEvent, Pallet as EmergencyParaXcm,
    XcmMode,
};
use moonkit::frame::{AggregateMessageOrigin, EnsureRoot, NeverPaused, Origin};
use moonkit::weights::{RuntimeDbWeight, Weight};

const PAUSED_THRESHOLD: u32 = 5;

/// The hash of the code whose upgrade is authorized.
const CODE_HASH: [u8; 32] = [7u8; 32];

#[test]
fn remains_in_normal_mode_when_relay_block_diff_is_within_threshold() {
    let mut pallet = EmergencyParaXcm::new();
    let previous_block = 1;
    let current_block = PAUSED_THRESHOLD + previous_block;
    pallet.check_associated_relay_number(&AnyRelayNumber, PAUSED_THRESHOLD, current_block, previous_block);
    let xcm_mode = pallet.mode();
    assert!(xcm_mode == XcmMode::Normal);
}

#[test]
fn remains_in_normal_mode_if_previous_relay_block_is_0() {
    let mut pallet = EmergencyParaXcm::new();
    let previous_block = 0;
    let current_block = PAUSED_THRESHOLD + previous_block + 1;
    pallet.check_associated_relay_number(&AnyRelayNumber, PAUSED_THRESHOLD, current_block, previous_block);
    let xcm_mode = pallet.mode();
    assert!(xcm_mode == XcmMode::Normal);
}

#[test]
fn pauses_xcm_when_relay_block_diff_is_above_threshold() {
    let mut pallet = EmergencyParaXcm::new();
    let previous_block = 1;
    let current_block = PAUSED_THRESHOLD + previous_block + 1;
    pallet.check_associated_relay_number(&AnyRelayNumber, PAUSED_THRESHOLD, current_block, previous_block);
    let xcm_mode = pallet.mode();
    assert!(xcm_mode == XcmMode::Paused);
    assert_eq!(pallet.events, vec![EmergencyParaXcmEvent::EnteredPausedXcmMode]);
}

#[test]
fn cannot_go_from_paused_to_normal_with_wrong_origin() {
    let mut pallet = EmergencyParaXcm::new();
    pallet.mode = XcmMode::Paused;
    assert_eq!(
        pallet.paused_to_normal(&EnsureRoot, Origin::Signed(1)),
        Err(EmergencyParaXcmError::BadOrigin)
    );
    assert_eq!(pallet.mode(), XcmMode::Paused);
    assert!(pallet.events.is_empty());
}

#[test]
fn cannot_go_from_paused_to_normal_when_not_paused() {
    let mut pallet = EmergencyParaXcm::new();
    assert_eq!(
        pallet.paused_to_normal(&EnsureRoot, Origin::Root),
        Err(EmergencyParaXcmError::NotInPausedMode)
    );
    assert!(pallet.events.is_empty());
}

#[test]
fn can_go_from_paused_to_normal() {
    let mut pallet = EmergencyParaXcm::new();
    pallet.mode = XcmMode::Paused;
    assert_eq!(pallet.paused_to_normal(&EnsureRoot, Origin::Root), Ok(()));
    let xcm_mode = pallet.mode();
    assert!(xcm_mode == XcmMode::Normal);
    assert_eq!(pallet.events, vec![EmergencyParaXcmEvent::NormalXcmOperationResumed]);
}

#[test]
fn delegates_queue_paused_query_on_normal_mode() {
    let pallet = EmergencyParaXcm::new();
    let paused = pallet.is_paused(&NeverPaused, &AggregateMessageOrigin::Parent);
    assert!(!paused);
}

#[test]
fn pauses_queue_on_paused_mode() {
    let mut pallet = EmergencyParaXcm::new();
    pallet.mode = XcmMode::Paused;
    let paused = pallet.is_paused(&NeverPaused, &AggregateMessageOrigin::Parent);
    assert!(paused);
}

#[test]
fn cannot_authorize_upgrade_with_wrong_origin() {
    let mut pallet = EmergencyParaXcm::new();
    pallet.mode = XcmMode::Paused;
    assert_eq!(
        pallet.fast_authorize_upgrade(&EnsureRoot, Origin::Signed(1), CODE_HASH),
        Err(EmergencyParaXcmError::BadOrigin)
    );
}

#[test]
fn cannot_authorize_upgrade_on_normal_mode() {
    let pallet = EmergencyParaXcm::new();
    assert_eq!(
        pallet.fast_authorize_upgrade(&EnsureRoot, Origin::Root, CODE_HASH),
        Err(EmergencyParaXcmError::NotInPausedMode)
    );
}

#[test]
fn can_authorize_upgrade_on_paused_mode() {
    let mut pallet = EmergencyParaXcm::new();
    pallet.mode = XcmMode::Paused;
    let authorized = pallet.fast_authorize_upgrade(&EnsureRoot, Origin::Root, CODE_HASH);
    assert!(authorized.is_ok());
    assert_eq!(authorized, Ok(CODE_HASH));
}

#[test]
fn pause_then_resume_deposits_both_events() {
    let mut pallet = EmergencyParaXcm::new();
    pallet.check_associated_relay_number(&AnyRelayNumber, PAUSED_THRESHOLD, 100, 10);
    assert_eq!(pallet.mode(), XcmMode::Paused);
    assert_eq!(pallet.paused_to_normal(&EnsureRoot, Origin::Root), Ok(()));
    assert_eq!(pallet.mode(), XcmMode::Normal);
    assert_eq!(
        pallet.events,
        vec![EmergencyParaXcmEvent::EnteredPausedXcmMode, EmergencyParaXcmEvent::NormalXcmOperationResumed]
    );
}

#[test]
fn check_never_unpauses() {
    let mut pallet = EmergencyParaXcm::new();
    pallet.mode = XcmMode::Paused;
    pallet.check_associated_relay_number(&AnyRelayNumber, PAUSED_THRESHOLD, 2, 1);
    assert_eq!(pallet.mode(), XcmMode::Paused);
    assert!(pallet.events.is_empty());
}

#[test]
fn on_initialize_reserves_one_read_and_one_write() {
    let db = RuntimeDbWeight { read: 3, write: 10 };
    assert_eq!(EmergencyParaXcm::on_initialize(&db), Weight { ref_time: 13, proof_size: 0 });
}
