//! The emergency-para-xcm pallet: pauses incoming XCM when the relay chain
//! skipped too many blocks, and then lets a privileged origin authorize a
//! runtime upgrade quickly or resume normal operation.

use vstd::prelude::*;
use crate::frame::{EnsureOrigin, Origin, QueuePausedQuery};
use crate::weights::{RuntimeDbWeight, Weight};

verus! {

/// Whether incoming XCM is processed.
#[derive(Clone, Copy, Debug, PartialEq, Eq, Structural)]
pub enum XcmMode {
    /// Normal operation.
    Normal,
    /// No XCM message is processed, and a runtime upgrade may be authorized
    /// by the fast-authorize-upgrade origin.
    Paused,
}

impl XcmMode {
    /// The mode a new chain starts in.
    pub fn default() -> (m: XcmMode)
        ensures
            m == XcmMode::Normal,
    {
        XcmMode::Normal
    }
}

/// Events of the pallet.
#[derive(Clone, Copy, Debug, PartialEq, Eq, Structural)]
pub enum Event {
    /// Incoming XCM execution was paused.
    EnteredPausedXcmMode,
    /// Incoming XCM execution returned to normal operation.
    NormalXcmOperationResumed,
}

/// Errors of the pallet's calls.
#[derive(Clone, Copy, Debug, PartialEq, Eq, Structural)]
pub enum Error {
    /// The origin may not make the call.
    BadOrigin,
    /// The XCM mode is not `Paused`.
    NotInPausedMode,
}

/// A rule that the relay chain block number of a parachain block must meet
/// with respect to the previous one.
pub trait CheckAssociatedRelayNumber {
    /// Whether `current` may follow `previous`.
    spec fn spec_accepts(&self, current: u32, previous: u32) -> bool;

    /// Whether `current` may follow `previous`.
    fn accepts(&self, current: u32, previous: u32) -> (r: bool)
        ensures
            r == self.spec_accepts(current, previous),
    ;

    /// Checks `current` against `previous`; the pair must be acceptable.
    fn check_associated_relay_number(&self, current: u32, previous: u32)
        requires
            self.spec_accepts(current, previous),
    ;
}

/// Any relay chain block number is acceptable.
#[derive(Clone, Copy, Debug, PartialEq, Eq, Structural)]
pub struct AnyRelayNumber;

impl CheckAssociatedRelayNumber for AnyRelayNumber {
    open spec fn spec_accepts(&self, current: u32, previous: u32) -> bool {
        true
    }

    fn accepts(&self, current: u32, previous: u32) -> (r: bool) {
        true
    }

    fn check_associated_relay_number(&self, current: u32, previous: u32) {
    }
}

/// The relay chain block number must strictly increase.
#[derive(Clone, Copy, Debug, PartialEq, Eq, Structural)]
pub struct RelayNumberStrictlyIncreases;

impl CheckAssociatedRelayNumber for RelayNumberStrictlyIncreases {
    open spec fn spec_accepts(&self, current: u32, previous: u32) -> bool {
        current > previous
    }

    fn accepts(&self, current: u32, previous: u32) -> (r: bool) {
        current > previous
    }

    fn check_associated_relay_number(&self, current: u32, previous: u32) {
    }
}

/// The relay chain block number must not decrease.
#[derive(Clone, Copy, Debug, PartialEq, Eq, Structural)]
pub struct RelayNumberMonotonicallyIncreases;

impl CheckAssociatedRelayNumber for RelayNumberMonotonicallyIncreases {
    open spec fn spec_accepts(&self, current: u32, previous: u32) -> bool {
        current >= previous
    }

    fn accepts(&self, current: u32, previous: u32) -> (r: bool) {
        current >= previous
    }

    fn check_associated_relay_number(&self, current: u32, previous: u32) {
    }
}

/// Whether a relay chain jump from `previous` to `current` pauses XCM.
pub open spec fn jump_pauses(current: u32, previous: u32, paused_threshold: u32) -> bool {
    previous != 0 && current > previous + paused_threshold
}

/// Mode and events after the relay chain block number check, from `mode`
/// and `events`.
pub open spec fn spec_check_associated_relay_number(
    mode: XcmMode,
    events: Seq<Event>,
    paused_threshold: u32,
    current: u32,
    previous: u32,
) -> (XcmMode, Seq<Event>) {
    if jump_pauses(current, previous, paused_threshold) {
        (XcmMode::Paused, events.push(Event::EnteredPausedXcmMode))
    } else {
        (mode, events)
    }
}

/// Answer, mode and events after a call to resume normal operation, from
/// `mode` and `events`, when the origin check says `allowed`.
pub open spec fn spec_paused_to_normal(
    mode: XcmMode,
    events: Seq<Event>,
    allowed: bool,
) -> (Result<(), Error>, XcmMode, Seq<Event>) {
    if !allowed {
        (Err(Error::BadOrigin), mode, events)
    } else if mode != XcmMode::Paused {
        (Err(Error::NotInPausedMode), mode, events)
    } else {
        (Ok(()), XcmMode::Normal, events.push(Event::NormalXcmOperationResumed))
    }
}

/// Storage of the pallet, with the events it deposited.
#[derive(Clone, Debug)]
pub struct Pallet {
    /// Whether incoming XCM is processed or paused.
    pub mode: XcmMode,
    /// The events deposited so far, oldest first.
    pub events: Vec<Event>,
}

impl Pallet {
    /// The pallet of a new chain.
    pub fn new() -> (p: Pallet)
        ensures
            p.mode == XcmMode::Normal,
            p.events@ == Seq::<Event>::empty(),
    {
        Pallet { mode: XcmMode::default(), events: Vec::new() }
    }

    /// The current XCM mode.
    pub fn mode(&self) -> (m: XcmMode)
        ensures
            m == self.mode,
    {
        self.mode
    }

    /// Weight to reserve at block initialization, for the read and the write
    /// of the mode in [`Self::check_associated_relay_number`].
    pub fn on_initialize(db: &RuntimeDbWeight) -> (w: Weight)
        ensures
            w == db.spec_reads_writes(1, 1),
    {
        db.reads_writes(1, 1)
    }

    /// Runs `inner`'s check of the relay chain block number, then pauses XCM
    /// when the relay chain moved more than `paused_threshold` blocks since
    /// `previous` (unless `previous` is 0, the first block).
    pub fn check_associated_relay_number<C: CheckAssociatedRelayNumber>(
        &mut self,
        inner: &C,
        paused_threshold: u32,
        current: u32,
        previous: u32,
    )
        requires
            inner.spec_accepts(current, previous),
            previous == 0 || previous + paused_threshold <= u32::MAX,
        ensures
            (final(self).mode, final(self).events@) == spec_check_associated_relay_number(
                old(self).mode, old(self).events@, paused_threshold, current, previous),
    {
        inner.check_associated_relay_number(current, previous);
        if previous != 0 && current > previous + paused_threshold {
            self.mode = XcmMode::Paused;
            self.events.push(Event::EnteredPausedXcmMode);
        }
    }

    /// Resumes normal XCM operation. Only `paused_to_normal_origin` may,
    /// and only in paused mode.
    pub fn paused_to_normal<E: EnsureOrigin>(&mut self, paused_to_normal_origin: &E, origin: Origin)
        -> (r: Result<(), Error>)
        ensures
            (r, final(self).mode, final(self).events@) == spec_paused_to_normal(
                old(self).mode, old(self).events@, paused_to_normal_origin.spec_allows(origin)),
    {
        if !paused_to_normal_origin.ensure_origin(&origin) {
            return Err(Error::BadOrigin);
        }
        if self.mode != XcmMode::Paused {
            return Err(Error::NotInPausedMode);
        }
        self.mode = XcmMode::Normal;
        self.events.push(Event::NormalXcmOperationResumed);
        Ok(())
    }

    /// Authorizes a runtime upgrade to the code of hash `code_hash`, which is
    /// returned for the system to record as authorized with root rights.
    /// Only `fast_authorize_upgrade_origin` may, and only in paused mode.
    pub fn fast_authorize_upgrade<E: EnsureOrigin>(
        &self,
        fast_authorize_upgrade_origin: &E,
        origin: Origin,
        code_hash: [u8; 32],
    ) -> (r: Result<[u8; 32], Error>)
        ensures
            !fast_authorize_upgrade_origin.spec_allows(origin)
                ==> r == Err::<[u8; 32], Error>(Error::BadOrigin),
            fast_authorize_upgrade_origin.spec_allows(origin) && self.mode != XcmMode::Paused
                ==> r == Err::<[u8; 32], Error>(Error::NotInPausedMode),
            fast_authorize_upgrade_origin.spec_allows(origin) && self.mode == XcmMode::Paused
                ==> r == Ok::<[u8; 32], Error>(code_hash),
    {
        if !fast_authorize_upgrade_origin.ensure_origin(&origin) {
            return Err(Error::BadOrigin);
        }
        if self.mode != XcmMode::Paused {
            return Err(Error::NotInPausedMode);
        }
        Ok(code_hash)
    }

    /// Whether the message queue of `origin` is paused: always in paused
    /// mode, and as `inner` says in normal mode.
    pub fn is_paused<O, Q: QueuePausedQuery<O>>(&self, inner: &Q, origin: &O) -> (r: bool)
        ensures
            r == (self.mode == XcmMode::Paused || inner.spec_is_paused(*origin)),
    {
        if self.mode == XcmMode::Normal {
            inner.is_paused(origin)
        } else {
            true
        }
    }
}

/// A relay chain jump beyond the threshold pauses XCM, and the allowed
/// origin then resumes normal operation: the chain is back in normal mode
/// with the two events deposited.
pub proof fn lemma_pause_then_resume(
    events: Seq<Event>,
    paused_threshold: u32,
    current: u32,
    previous: u32,
)
    requires
        jump_pauses(current, previous, paused_threshold),
    ensures
        ({
            let (m1, e1) = spec_check_associated_relay_number(XcmMode::Normal, events, paused_threshold, current, previous);
            let (r, m2, e2) = spec_paused_to_normal(m1, e1, true);
            &&& m1 == XcmMode::Paused
            &&& r is Ok
            &&& m2 == XcmMode::Normal
            &&& e2 == events + seq![Event::EnteredPausedXcmMode, Event::NormalXcmOperationResumed]
        }),
{
    let (m1, e1) = spec_check_associated_relay_number(XcmMode::Normal, events, paused_threshold, current, previous);
    let (r, m2, e2) = spec_paused_to_normal(m1, e1, true);
    assert(e2 =~= events + seq![Event::EnteredPausedXcmMode, Event::NormalXcmOperationResumed]);
}

/// The relay chain block number check never resumes XCM: once paused, the
/// mode stays paused until the allowed origin resumes it.
pub proof fn lemma_check_never_unpauses(
    events: Seq<Event>,
    paused_threshold: u32,
    current: u32,
    previous: u32,
)
    ensures
        spec_check_associated_relay_number(XcmMode::Paused, events, paused_threshold, current, previous).0 == XcmMode::Paused,
{
}

/// The first relay chain block (previous number 0) never pauses XCM, and
/// no jump within the threshold does.
pub proof fn lemma_small_jumps_keep_the_mode(
    mode: XcmMode,
    events: Seq<Event>,
    paused_threshold: u32,
    current: u32,
    previous: u32,
)
    requires
        previous == 0 || current <= previous + paused_threshold,
    ensures
        spec_check_associated_relay_number(mode, events, paused_threshold, current, previous) == (mode, events),
{
}

} // verus!
