//! The maintenance-mode pallet: a switch that puts the chain under a
//! restrictive call filter, pauses incoming XCM and is flipped by a
//! privileged origin or by a failed migration.

use vstd::prelude::*;
use crate::frame::{Contains, DispatchError, EnsureOrigin, Origin, QueuePausedQuery};

verus! {

/// Events of the pallet.
#[derive(Clone, Copy, Debug, PartialEq, Eq, Structural)]
pub enum Event {
    /// The chain was put into maintenance mode.
    EnteredMaintenanceMode,
    /// The chain returned to its normal operating state.
    NormalOperationResumed,
    /// Suspending on-idle XCM execution failed with the inner error.
    FailedToSuspendIdleXcmExecution { error: DispatchError },
    /// Resuming on-idle XCM execution failed with the inner error.
    FailedToResumeIdleXcmExecution { error: DispatchError },
}

/// Errors of the pallet's calls.
#[derive(Clone, Copy, Debug, PartialEq, Eq, Structural)]
pub enum Error {
    /// The origin may not switch the mode.
    BadOrigin,
    /// The chain is already in maintenance mode.
    AlreadyInMaintenanceMode,
    /// The chain is not in maintenance mode.
    NotInMaintenanceMode,
}

/// What to do with a migration that failed.
#[derive(Clone, Copy, Debug, PartialEq, Eq, Structural)]
pub enum FailedMigrationHandling {
    /// Resume normal block production, ignoring the failed migration.
    ForceUnstuck,
    /// Stay stuck in the failed migration.
    KeepStuck,
    /// Ignore the failure.
    Ignore,
}

/// Suspends and resumes the execution of XCM in idle time.
pub trait PauseXcmExecution {
    /// What suspending answers.
    spec fn spec_suspend(&self) -> Result<(), DispatchError>;

    /// What resuming answers.
    spec fn spec_resume(&self) -> Result<(), DispatchError>;

    /// Suspends XCM execution.
    fn suspend_xcm_execution(&self) -> (r: Result<(), DispatchError>)
        ensures
            r == self.spec_suspend(),
    ;

    /// Resumes XCM execution.
    fn resume_xcm_execution(&self) -> (r: Result<(), DispatchError>)
        ensures
            r == self.spec_resume(),
    ;
}

/// The runtime has no XCM execution to pause: both operations succeed.
#[derive(Clone, Copy, Debug, PartialEq, Eq, Structural)]
pub struct NoXcmExecution;

impl PauseXcmExecution for NoXcmExecution {
    open spec fn spec_suspend(&self) -> Result<(), DispatchError> {
        Ok(())
    }

    open spec fn spec_resume(&self) -> Result<(), DispatchError> {
        Ok(())
    }

    fn suspend_xcm_execution(&self) -> (r: Result<(), DispatchError>) {
        Ok(())
    }

    fn resume_xcm_execution(&self) -> (r: Result<(), DispatchError>) {
        Ok(())
    }
}

/// The events that entering maintenance mode emits, given how suspending
/// XCM went.
pub open spec fn enter_events(suspend: Result<(), DispatchError>) -> Seq<Event> {
    match suspend {
        Ok(()) => seq![Event::EnteredMaintenanceMode],
        Err(error) => seq![
            Event::FailedToSuspendIdleXcmExecution { error },
            Event::EnteredMaintenanceMode,
        ],
    }
}

/// The events that resuming normal operation emits, given how resuming XCM
/// went.
pub open spec fn resume_events(resume: Result<(), DispatchError>) -> Seq<Event> {
    match resume {
        Ok(()) => seq![Event::NormalOperationResumed],
        Err(error) => seq![
            Event::FailedToResumeIdleXcmExecution { error },
            Event::NormalOperationResumed,
        ],
    }
}

/// Answer, mode and events after a call to enter maintenance mode, from
/// `mode` and `events`, when the origin check says `allowed` and suspending
/// XCM answers `suspend`.
pub open spec fn spec_enter_maintenance_mode(
    mode: bool,
    events: Seq<Event>,
    allowed: bool,
    suspend: Result<(), DispatchError>,
) -> (Result<(), Error>, bool, Seq<Event>) {
    if !allowed {
        (Err(Error::BadOrigin), mode, events)
    } else if mode {
        (Err(Error::AlreadyInMaintenanceMode), mode, events)
    } else {
        (Ok(()), true, events + enter_events(suspend))
    }
}

/// Answer, mode and events after a call to resume normal operation, from
/// `mode` and `events`, when the origin check says `allowed` and resuming
/// XCM answers `resume`.
pub open spec fn spec_resume_normal_operation(
    mode: bool,
    events: Seq<Event>,
    allowed: bool,
    resume: Result<(), DispatchError>,
) -> (Result<(), Error>, bool, Seq<Event>) {
    if !allowed {
        (Err(Error::BadOrigin), mode, events)
    } else if !mode {
        (Err(Error::NotInMaintenanceMode), mode, events)
    } else {
        (Ok(()), false, events + resume_events(resume))
    }
}

/// Storage of the pallet, with the events it deposited.
#[derive(Clone, Debug)]
pub struct Pallet {
    /// Whether the chain is in maintenance mode.
    pub maintenance_mode: bool,
    /// The events deposited so far, oldest first.
    pub events: Vec<Event>,
}

/// Genesis configuration of the pallet.
#[derive(Clone, Copy, Debug, PartialEq, Eq, Structural)]
pub struct GenesisConfig {
    /// Whether to launch in maintenance mode.
    pub start_in_maintenance_mode: bool,
}

impl GenesisConfig {
    /// Writes the genesis state into the pallet.
    pub fn build(&self, pallet: &mut Pallet)
        ensures
            final(pallet).maintenance_mode == (old(pallet).maintenance_mode || self.start_in_maintenance_mode),
            final(pallet).events@ == old(pallet).events@,
    {
        if self.start_in_maintenance_mode {
            pallet.maintenance_mode = true;
        }
    }
}

impl Pallet {
    /// The pallet as the genesis configuration leaves it.
    pub fn new(genesis: &GenesisConfig) -> (p: Pallet)
        ensures
            p.maintenance_mode == genesis.start_in_maintenance_mode,
            p.events@ == Seq::<Event>::empty(),
    {
        let mut p = Pallet { maintenance_mode: false, events: Vec::new() };
        genesis.build(&mut p);
        p
    }

    /// Whether the chain is in maintenance mode.
    pub fn maintenance_mode(&self) -> (r: bool)
        ensures
            r == self.maintenance_mode,
    {
        self.maintenance_mode
    }

    /// Places the chain in maintenance mode. Only `maintenance_origin` may,
    /// and only from normal operation.
    pub fn enter_maintenance_mode<O: EnsureOrigin, X: PauseXcmExecution>(
        &mut self,
        maintenance_origin: &O,
        xcm: &X,
        origin: Origin,
    ) -> (r: Result<(), Error>)
        ensures
            (r, final(self).maintenance_mode, final(self).events@) == spec_enter_maintenance_mode(
                old(self).maintenance_mode, old(self).events@, maintenance_origin.spec_allows(origin), xcm.spec_suspend()),
    {
        if !maintenance_origin.ensure_origin(&origin) {
            return Err(Error::BadOrigin);
        }
        if self.maintenance_mode {
            return Err(Error::AlreadyInMaintenanceMode);
        }
        self.do_enter_maintenance_mode(xcm);
        Ok(())
    }

    /// Returns the chain to normal operation. Only `maintenance_origin` may,
    /// and only from maintenance mode.
    pub fn resume_normal_operation<O: EnsureOrigin, X: PauseXcmExecution>(
        &mut self,
        maintenance_origin: &O,
        xcm: &X,
        origin: Origin,
    ) -> (r: Result<(), Error>)
        ensures
            (r, final(self).maintenance_mode, final(self).events@) == spec_resume_normal_operation(
                old(self).maintenance_mode, old(self).events@, maintenance_origin.spec_allows(origin), xcm.spec_resume()),
    {
        if !maintenance_origin.ensure_origin(&origin) {
            return Err(Error::BadOrigin);
        }
        if !self.maintenance_mode {
            return Err(Error::NotInMaintenanceMode);
        }
        let ghost before = self.events@;
        self.maintenance_mode = false;
        match xcm.resume_xcm_execution() {
            Err(error) => self.events.push(Event::FailedToResumeIdleXcmExecution { error }),
            Ok(()) => {},
        }
        self.events.push(Event::NormalOperationResumed);
        proof {
            assert(self.events@ =~= before + resume_events(xcm.spec_resume()));
        }
        Ok(())
    }

    /// Forces the chain into maintenance mode, with no origin check.
    pub fn do_enter_maintenance_mode<X: PauseXcmExecution>(&mut self, xcm: &X)
        ensures
            final(self).maintenance_mode,
            final(self).events@ == old(self).events@ + enter_events(xcm.spec_suspend()),
    {
        let ghost before = self.events@;
        self.maintenance_mode = true;
        match xcm.suspend_xcm_execution() {
            Err(error) => self.events.push(Event::FailedToSuspendIdleXcmExecution { error }),
            Ok(()) => {},
        }
        self.events.push(Event::EnteredMaintenanceMode);
        proof {
            assert(self.events@ =~= before + enter_events(xcm.spec_suspend()));
        }
    }

    /// The call filter of the chain: `maintenance_filter` in maintenance
    /// mode, `normal_filter` otherwise.
    pub fn contains<C, N: Contains<C>, M: Contains<C>>(&self, normal_filter: &N, maintenance_filter: &M, call: &C) -> (r: bool)
        ensures
            r == if self.maintenance_mode {
                maintenance_filter.spec_contains(*call)
            } else {
                normal_filter.spec_contains(*call)
            },
    {
        if self.maintenance_mode {
            maintenance_filter.contains(call)
        } else {
            normal_filter.contains(call)
        }
    }

    /// Handles a failed migration: enters maintenance mode and lets the
    /// chain go on.
    pub fn failed<X: PauseXcmExecution>(&mut self, xcm: &X, migration: Option<u32>) -> (r: FailedMigrationHandling)
        ensures
            r == FailedMigrationHandling::ForceUnstuck,
            final(self).maintenance_mode,
            final(self).events@ == old(self).events@ + enter_events(xcm.spec_suspend()),
    {
        self.do_enter_maintenance_mode(xcm);
        FailedMigrationHandling::ForceUnstuck
    }
}

impl<O> QueuePausedQuery<O> for Pallet {
    open spec fn spec_is_paused(&self, origin: O) -> bool {
        self.maintenance_mode
    }

    /// Queues are paused exactly in maintenance mode.
    fn is_paused(&self, origin: &O) -> (r: bool) {
        self.maintenance_mode
    }
}

/// Entering maintenance mode and then resuming normal operation, both from
/// an allowed origin and with XCM pausing and resuming without error,
/// brings the chain back to normal operation and deposits exactly the two
/// events.
pub proof fn lemma_enter_then_resume(events: Seq<Event>)
    ensures
        ({
            let (r1, m1, e1) = spec_enter_maintenance_mode(false, events, true, Ok(()));
            let (r2, m2, e2) = spec_resume_normal_operation(m1, e1, true, Ok(()));
            &&& r1 is Ok && r2 is Ok
            &&& !m2
            &&& e2 == events + seq![Event::EnteredMaintenanceMode, Event::NormalOperationResumed]
        }),
{
    let (r1, m1, e1) = spec_enter_maintenance_mode(false, events, true, Ok(()));
    let (r2, m2, e2) = spec_resume_normal_operation(m1, e1, true, Ok(()));
    assert(e2 =~= events + seq![Event::EnteredMaintenanceMode, Event::NormalOperationResumed]);
}

/// A refused call changes nothing: neither the mode nor the events.
pub proof fn lemma_refused_calls_change_nothing(
    mode: bool,
    events: Seq<Event>,
    allowed: bool,
    outcome: Result<(), DispatchError>,
)
    ensures
        spec_enter_maintenance_mode(mode, events, allowed, outcome).0 is Err ==>
            spec_enter_maintenance_mode(mode, events, allowed, outcome).1 == mode
            && spec_enter_maintenance_mode(mode, events, allowed, outcome).2 == events,
        spec_resume_normal_operation(mode, events, allowed, outcome).0 is Err ==>
            spec_resume_normal_operation(mode, events, allowed, outcome).1 == mode
            && spec_resume_normal_operation(mode, events, allowed, outcome).2 == events,
{
}

/// Whatever the XCM handler answers, a successful call flips the mode and
/// its last event says so.
pub proof fn lemma_successful_calls_flip_the_mode(
    mode: bool,
    events: Seq<Event>,
    outcome: Result<(), DispatchError>,
)
    ensures
        spec_enter_maintenance_mode(mode, events, true, outcome).0 is Ok ==> {
            let e = spec_enter_maintenance_mode(mode, events, true, outcome).2;
            &&& !mode && spec_enter_maintenance_mode(mode, events, true, outcome).1
            &&& e.last() == Event::EnteredMaintenanceMode
        },
        spec_resume_normal_operation(mode, events, true, outcome).0 is Ok ==> {
            let e = spec_resume_normal_operation(mode, events, true, outcome).2;
            &&& mode && !spec_resume_normal_operation(mode, events, true, outcome).1
            &&& e.last() == Event::NormalOperationResumed
        },
{
}

} // verus!
