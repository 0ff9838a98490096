use moonkit::frame::{AggregateMessageOrigin, EnsureRoot, Everything, Nothing, Origin, QueuePausedQuery};
use moonkit::maintenance_mode::{
    Error as MaintenanceModeError, Event as MaintenanceModeEvent, FailedMigrationHandling, GenesisConfig,
    Pallet as MaintenanceMode,
    NoXcmExecution,
};

/// The calls of the test runtime.
#[derive(Clone, Debug, PartialEq)]
enum RuntimeCall {
    Remark(Vec<u8>),
    EnterMaintenanceMode,
    ResumeNormalOperation,
}

/// What dispatching a call answers in the test runtime.
#[derive(Debug, PartialEq)]
enum DispatchOutcome {
    CallFiltered,
    Pallet(MaintenanceModeError),
}

fn new_pallet(start_in_maintenance_mode: bool) -> MaintenanceMode {
    MaintenanceMode::new(&GenesisConfig { start_in_maintenance_mode })
}

/// Dispatches `call` as the test runtime does: the pallet is the base call
/// filter (every call passes in normal operation, none in maintenance
/// mode), which the root origin bypasses.
fn dispatch(pallet: &mut MaintenanceMode, call: RuntimeCall, origin: Origin) -> Result<(), DispatchOutcome> {
    if origin != Origin::Root && !pallet.contains(&Everything, &Nothing, &call) {
        return Err(DispatchOutcome::CallFiltered);
    }
    match call {
        RuntimeCall::Remark(_) => Ok(()),
        RuntimeCall::EnterMaintenanceMode => pallet
            .enter_maintenance_mode(&EnsureRoot, &NoXcmExecution, origin)
            .map_err(DispatchOutcome::Pallet),
        RuntimeCall::ResumeNormalOperation => pallet
            .resume_normal_operation(&EnsureRoot, &NoXcmExecution, origin)
            .map_err(DispatchOutcome::Pallet),
    }
}

#[test]
fn can_remark_during_normal_operation() {
    let mut pallet = new_pallet(false);
    assert_eq!(dispatch(&mut pallet, RuntimeCall::Remark(vec![]), Origin::Signed(1)), Ok(()));
}

#[test]
fn cannot_remark_during_maintenance_mode() {
    let mut pallet = new_pallet(true);
    assert_eq!(
        dispatch(&mut pallet, RuntimeCall::Remark(vec![]), Origin::Signed(1)),
        Err(DispatchOutcome::CallFiltered)
    );
}

#[test]
fn can_enter_maintenance_mode() {
    let mut pallet = new_pallet(false);
    assert_eq!(dispatch(&mut pallet, RuntimeCall::EnterMaintenanceMode, Origin::Root), Ok(()));
    assert_eq!(pallet.events, vec![MaintenanceModeEvent::EnteredMaintenanceMode]);
}

#[test]
fn cannot_enter_maintenance_mode_from_wrong_origin() {
    let mut pallet = new_pallet(true);
    assert_eq!(
        dispatch(&mut pallet, RuntimeCall::EnterMaintenanceMode, Origin::Signed(1)),
        Err(DispatchOutcome::CallFiltered)
    );
}

#[test]
fn cannot_enter_maintenance_mode_when_already_in_it() {
    let mut pallet = new_pallet(true);
    assert_eq!(
        dispatch(&mut pallet, RuntimeCall::EnterMaintenanceMode, Origin::Root),
        Err(DispatchOutcome::Pallet(MaintenanceModeError::AlreadyInMaintenanceMode))
    );
    assert!(pallet.events.is_empty());
}

#[test]
fn can_resume_normal_operation() {
    let mut pallet = new_pallet(true);
    assert_eq!(dispatch(&mut pallet, RuntimeCall::ResumeNormalOperation, Origin::Root), Ok(()));
    assert_eq!(pallet.events, vec![MaintenanceModeEvent::NormalOperationResumed]);
}

#[test]
fn cannot_resume_normal_operation_from_wrong_origin() {
    let mut pallet = new_pallet(true);
    assert_eq!(
        dispatch(&mut pallet, RuntimeCall::ResumeNormalOperation, Origin::Signed(1)),
        Err(DispatchOutcome::CallFiltered)
    );
}

#[test]
fn cannot_resume_normal_operation_while_already_operating_normally() {
    let mut pallet = new_pallet(false);
    assert_eq!(
        dispatch(&mut pallet, RuntimeCall::ResumeNormalOperation, Origin::Root),
        Err(DispatchOutcome::Pallet(MaintenanceModeError::NotInMaintenanceMode))
    );
    assert!(pallet.events.is_empty());
}

#[test]
fn can_do_enter_maintenance_mode() {
    let mut pallet = new_pallet(false);
    pallet.do_enter_maintenance_mode(&NoXcmExecution);
    assert!(pallet.maintenance_mode());
    assert_eq!(pallet.events, vec![MaintenanceModeEvent::EnteredMaintenanceMode]);
}

#[test]
fn do_enter_maintenance_mode_when_already_in_it() {
    let mut pallet = new_pallet(true);
    pallet.do_enter_maintenance_mode(&NoXcmExecution);
    assert!(pallet.maintenance_mode());
    assert_eq!(pallet.events, vec![MaintenanceModeEvent::EnteredMaintenanceMode]);
}

#[test]
fn queue_pause_in_non_maintenance() {
    let pallet = new_pallet(false);
    assert_eq!(pallet.is_paused(&AggregateMessageOrigin::Here), false);
}

#[test]
fn queue_pause_in_maintenance() {
    let pallet = new_pallet(true);
    assert!(pallet.is_paused(&AggregateMessageOrigin::Here));
}

#[test]
fn signed_origin_is_refused_by_the_pallet_itself() {
    let mut pallet = new_pallet(false);
    assert_eq!(
        pallet.enter_maintenance_mode(&EnsureRoot, &NoXcmExecution, Origin::Signed(1)),
        Err(MaintenanceModeError::BadOrigin)
    );
    assert!(!pallet.maintenance_mode());
    assert!(pallet.events.is_empty());
}

#[test]
fn enter_then_resume_restores_normal_operation() {
    let mut pallet = new_pallet(false);
    assert_eq!(pallet.enter_maintenance_mode(&EnsureRoot, &NoXcmExecution, Origin::Root), Ok(()));
    assert!(pallet.maintenance_mode());
    assert_eq!(pallet.resume_normal_operation(&EnsureRoot, &NoXcmExecution, Origin::Root), Ok(()));
    assert!(!pallet.maintenance_mode());
    assert_eq!(
        pallet.events,
        vec![MaintenanceModeEvent::EnteredMaintenanceMode, MaintenanceModeEvent::NormalOperationResumed]
    );
}

#[test]
fn failed_migration_enters_maintenance_mode() {
    let mut pallet = new_pallet(false);
    assert_eq!(pallet.failed(&NoXcmExecution, Some(3)), FailedMigrationHandling::ForceUnstuck);
    assert!(pallet.maintenance_mode());
    assert_eq!(pallet.events, vec![MaintenanceModeEvent::EnteredMaintenanceMode]);
}

#[test]
fn genesis_build_only_turns_maintenance_on() {
    let mut pallet = new_pallet(true);
    GenesisConfig { start_in_maintenance_mode: false }.build(&mut pallet);
    assert!(pallet.maintenance_mode());
}
