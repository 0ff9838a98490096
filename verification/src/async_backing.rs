//! The async-backing pallet: the relay slot bookkeeping of Nimbus and the
//! fixed-velocity consensus hook that limits how many parachain blocks are
//! authored per relay chain slot.

use vstd::prelude::*;
use crate::weights::{RuntimeDbWeight, Weight};
use crate::slots::{GetAndVerifySlot, spec_relay_chain_timestamp, spec_slot_from_timestamp,
    relay_chain_timestamp, slot_from_timestamp};

verus! {

/// Identifier of the async-backing inherent.
pub const INHERENT_IDENTIFIER: [u8; 8] = [110, 105, 109, 98, 45, 101, 120, 116];

/// `v`, or 1 when `v` is zero.
pub open spec fn at_least_one(v: u32) -> u32 {
    if v >= 1 { v } else { 1 }
}

/// `v`, or 1 when `v` is zero.
pub fn max_one(v: u32) -> (r: u32)
    ensures
        r == at_least_one(v),
{
    if v >= 1 { v } else { 1 }
}

/// Runtime configuration of the pallet.
#[derive(Clone, Copy, Debug, PartialEq, Eq, Structural)]
pub struct Config {
    /// Whether more than one block may be authored per slot.
    pub allow_multiple_blocks_per_slot: bool,
    /// The parachain slot duration, in milliseconds.
    pub slot_duration: u64,
    /// Cost of the database accesses.
    pub db_weight: RuntimeDbWeight,
}

/// Storage of the pallet: the current relay chain slot and the number of
/// blocks authored in it.
#[derive(Clone, Copy, Debug)]
pub struct Pallet {
    pub slot_info: Option<(u64, u32)>,
}

/// Why the consensus hook declares a block invalid.
#[derive(Clone, Copy, Debug, PartialEq, Eq, Structural)]
pub enum HookFailure {
    /// A second block in the same slot while that is not allowed.
    SlotNotHighEnough,
    /// The relay chain slot is lower than the stored one.
    SlotMovedBackwards,
    /// More blocks than the velocity allows were authored in the slot.
    AuthoredLimitReached,
    /// The number of authored blocks does not fit the counter.
    AuthoredCountOverflow,
    /// The slot verifier cannot be asked (it has a zero slot duration).
    SlotVerifierUnusable,
    /// The parachain slot does not match the relay chain slot.
    SlotNumberMismatch,
    /// The configured parachain slot duration is zero.
    ZeroSlotDuration,
    /// The parachain slot is ahead of the one derived from the relay chain.
    ParachainSlotInFuture,
}

/// Why the post-inherents check declares a block invalid.
#[derive(Clone, Copy, Debug, PartialEq, Eq, Structural)]
pub enum PostInherentsFailure {
    /// The configured slot duration is zero.
    ZeroSlotDuration,
    /// No relay slot was recorded in this block.
    MissingRelaySlot,
    /// The slot of the parachain timestamp differs from the relay slot.
    SlotMismatch,
}

/// The slot and the count of blocks already authored in it that apply to a
/// block built at `relay_chain_slot`, given the stored slot info.
pub open spec fn slot_and_authored(slot_info: Option<(u64, u32)>, relay_chain_slot: u64) -> (u64, u32) {
    match slot_info {
        Some((slot, authored)) => if slot == relay_chain_slot { (slot, authored) } else { (relay_chain_slot, 0) },
        None => (relay_chain_slot, 0),
    }
}

/// The first reason, in the order the hook checks them, for which the hook
/// rejects a block at `relay_chain_slot`; `None` when it accepts it.
pub open spec fn hook_failure<S: GetAndVerifySlot>(
    slot_info: Option<(u64, u32)>,
    config: Config,
    verifier: S,
    relay_chain_slot_duration_millis: u32,
    v: u32,
    relay_chain_slot: u64,
) -> Option<HookFailure> {
    let authored = slot_and_authored(slot_info, relay_chain_slot).1;
    if slot_info matches Some((slot, _)) && slot == relay_chain_slot && !config.allow_multiple_blocks_per_slot {
        Some(HookFailure::SlotNotHighEnough)
    } else if slot_info matches Some((slot, _)) && slot > relay_chain_slot {
        Some(HookFailure::SlotMovedBackwards)
    } else if authored > at_least_one(v) {
        Some(HookFailure::AuthoredLimitReached)
    } else if authored == u32::MAX {
        Some(HookFailure::AuthoredCountOverflow)
    } else if !verifier.can_verify(relay_chain_slot) {
        Some(HookFailure::SlotVerifierUnusable)
    } else if verifier.spec_get_and_verify_slot(relay_chain_slot) is Err {
        Some(HookFailure::SlotNumberMismatch)
    } else if config.slot_duration == 0 {
        Some(HookFailure::ZeroSlotDuration)
    } else if verifier.spec_get_and_verify_slot(relay_chain_slot)->Ok_0 > spec_slot_from_timestamp(
        spec_relay_chain_timestamp(relay_chain_slot_duration_millis, relay_chain_slot),
        config.slot_duration,
    ) {
        Some(HookFailure::ParachainSlotInFuture)
    } else {
        None
    }
}

/// The consensus hook that lets at most `V + 1` blocks (with `V` at least 1)
/// be authored per relay chain slot, and gives the unincluded segment a
/// capacity of `C` (at least 1).
pub struct FixedVelocityConsensusHook<const RELAY_CHAIN_SLOT_DURATION_MILLIS: u32, const V: u32, const C: u32>;

impl<const RELAY_CHAIN_SLOT_DURATION_MILLIS: u32, const V: u32, const C: u32>
    FixedVelocityConsensusHook<RELAY_CHAIN_SLOT_DURATION_MILLIS, V, C> {

    /// Why [`Self::on_state_proof_inner`] would reject a block at
    /// `relay_chain_slot`, if it would.
    pub fn on_state_proof_failure<S: GetAndVerifySlot>(
        pallet: &Pallet,
        config: &Config,
        verifier: &S,
        relay_chain_slot: u64,
    ) -> (r: Option<HookFailure>)
        ensures
            r == hook_failure(pallet.slot_info, *config, *verifier, RELAY_CHAIN_SLOT_DURATION_MILLIS, V, relay_chain_slot),
    {
        let velocity = max_one(V);
        let mut authored: u32 = 0;
        match pallet.slot_info {
            Some((slot, a)) => {
                if slot == relay_chain_slot {
                    if !config.allow_multiple_blocks_per_slot {
                        return Some(HookFailure::SlotNotHighEnough);
                    }
                    authored = a;
                } else if slot > relay_chain_slot {
                    return Some(HookFailure::SlotMovedBackwards);
                }
            },
            None => {},
        }
        if authored > velocity {
            return Some(HookFailure::AuthoredLimitReached);
        }
        if authored == u32::MAX {
            return Some(HookFailure::AuthoredCountOverflow);
        }
        if !verifier.is_usable(relay_chain_slot) {
            return Some(HookFailure::SlotVerifierUnusable);
        }
        let para_slot = match verifier.get_and_verify_slot(relay_chain_slot) {
            Ok(s) => s,
            Err(_) => { return Some(HookFailure::SlotNumberMismatch); },
        };
        if config.slot_duration == 0 {
            return Some(HookFailure::ZeroSlotDuration);
        }
        let relay_chain_timestamp = relay_chain_timestamp(RELAY_CHAIN_SLOT_DURATION_MILLIS, relay_chain_slot);
        let para_slot_from_relay = slot_from_timestamp(relay_chain_timestamp, config.slot_duration);
        if para_slot > para_slot_from_relay {
            return Some(HookFailure::ParachainSlotInFuture);
        }
        None
    }

    /// Checks a block at `relay_chain_slot` against the velocity and the
    /// slot rules, records it, and returns the weight used and the capacity
    /// of the unincluded segment.
    ///
    /// The block must be one the hook accepts (see
    /// [`Self::on_state_proof_failure`]); any other is invalid.
    pub fn on_state_proof_inner<S: GetAndVerifySlot>(
        pallet: &mut Pallet,
        config: &Config,
        verifier: &S,
        relay_chain_slot: u64,
    ) -> (r: (Weight, u32))
        requires
            hook_failure(old(pallet).slot_info, *config, *verifier, RELAY_CHAIN_SLOT_DURATION_MILLIS, V, relay_chain_slot) is None,
        ensures
            final(pallet).slot_info == Some((relay_chain_slot,
                (slot_and_authored(old(pallet).slot_info, relay_chain_slot).1 + 1) as u32)),
            r.0 == config.db_weight.spec_reads_writes(1, 1),
            r.1 == at_least_one(C),
    {
        let (slot, authored_in_relay) = match pallet.slot_info {
            Some((slot, authored)) => {
                if slot == relay_chain_slot { (slot, authored) } else { (relay_chain_slot, 0) }
            },
            None => (relay_chain_slot, 0),
        };
        pallet.slot_info = Some((slot, authored_in_relay + 1));
        (config.db_weight.reads_writes(1, 1), max_one(C))
    }

    /// Whether it is legal to extend the chain: `size_after_included` is the
    /// length of the unincluded segment after the given included block, and
    /// `new_slot` the slot of the new block.
    pub fn can_build_upon(pallet: &Pallet, size_after_included: u32, new_slot: u64) -> (r: bool)
        ensures
            r == can_build_upon_spec(pallet.slot_info, size_after_included, new_slot, V, C),
    {
        let velocity = max_one(V);
        let (last_slot, authored_so_far) = match pallet.slot_info {
            None => { return true; },
            Some(x) => x,
        };
        if size_after_included >= C {
            return false;
        }
        if last_slot == new_slot {
            (authored_so_far as u64) < (velocity as u64) + 1
        } else {
            last_slot < new_slot
        }
    }
}

/// Whether a block at `new_slot` may extend the chain.
pub open spec fn can_build_upon_spec(slot_info: Option<(u64, u32)>, size_after_included: u32, new_slot: u64, v: u32, c: u32) -> bool {
    match slot_info {
        None => true,
        Some((last_slot, authored_so_far)) => {
            if size_after_included >= c {
                false
            } else if last_slot == new_slot {
                authored_so_far < at_least_one(v) + 1
            } else {
                last_slot < new_slot
            }
        },
    }
}

impl Pallet {
    /// The pallet before any block was recorded.
    pub fn new() -> (p: Pallet)
        ensures
            p.slot_info is None,
    {
        Pallet { slot_info: None }
    }

    /// The stored slot info.
    pub fn slot_info(&self) -> (r: Option<(u64, u32)>)
        ensures
            r == self.slot_info,
    {
        self.slot_info
    }

    /// Checks, after the inherents, that the slot of the parachain timestamp
    /// `now` is the recorded relay slot.
    pub fn post_inherents(&self, config: &Config, now: u64) -> (r: Result<(), PostInherentsFailure>)
        ensures
            r == post_inherents_spec(self.slot_info, config.slot_duration, now),
    {
        if config.slot_duration == 0 {
            return Err(PostInherentsFailure::ZeroSlotDuration);
        }
        let timestamp_slot = now / config.slot_duration;
        match self.slot_info {
            None => Err(PostInherentsFailure::MissingRelaySlot),
            Some((current_slot, _)) => {
                if current_slot == timestamp_slot { Ok(()) } else { Err(PostInherentsFailure::SlotMismatch) }
            },
        }
    }
}

/// What the post-inherents check concludes.
pub open spec fn post_inherents_spec(slot_info: Option<(u64, u32)>, slot_duration: u64, now: u64) -> Result<(), PostInherentsFailure> {
    if slot_duration == 0 {
        Err(PostInherentsFailure::ZeroSlotDuration)
    } else {
        match slot_info {
            None => Err(PostInherentsFailure::MissingRelaySlot),
            Some((current_slot, _)) => {
                if current_slot == now / slot_duration { Ok(()) } else { Err(PostInherentsFailure::SlotMismatch) }
            },
        }
    }
}

/// A block the hook accepts never makes the slot move backwards, and the
/// count it records stays within the velocity: between 1 and `V + 1`
/// blocks per relay chain slot.
pub proof fn lemma_accepted_block_respects_velocity<S: GetAndVerifySlot>(
    slot_info: Option<(u64, u32)>,
    config: Config,
    verifier: S,
    relay_chain_slot_duration_millis: u32,
    v: u32,
    relay_chain_slot: u64,
)
    requires
        hook_failure(slot_info, config, verifier, relay_chain_slot_duration_millis, v, relay_chain_slot) is None,
    ensures
        1 <= slot_and_authored(slot_info, relay_chain_slot).1 + 1 <= at_least_one(v) + 1,
        slot_info matches Some((slot, _)) ==> slot <= relay_chain_slot,
        slot_and_authored(slot_info, relay_chain_slot).0 == relay_chain_slot,
{
}

/// What `can_build_upon` allows, the hook does not reject for the slot or
/// velocity rules (when several blocks per slot are allowed): the client's
/// check and the runtime's agree.
pub proof fn lemma_can_build_upon_agrees_with_hook<S: GetAndVerifySlot>(
    slot_info: Option<(u64, u32)>,
    config: Config,
    verifier: S,
    relay_chain_slot_duration_millis: u32,
    v: u32,
    c: u32,
    size_after_included: u32,
    new_slot: u64,
)
    requires
        config.allow_multiple_blocks_per_slot,
        can_build_upon_spec(slot_info, size_after_included, new_slot, v, c),
    ensures
        !(hook_failure(slot_info, config, verifier, relay_chain_slot_duration_millis, v, new_slot) matches Some(HookFailure::SlotNotHighEnough)),
        !(hook_failure(slot_info, config, verifier, relay_chain_slot_duration_millis, v, new_slot) matches Some(HookFailure::SlotMovedBackwards)),
        !(hook_failure(slot_info, config, verifier, relay_chain_slot_duration_millis, v, new_slot) matches Some(HookFailure::AuthoredLimitReached)),
{
}

/// With an empty unincluded segment (and room for at least one block), a
/// block at a slot more recent than the last recorded one may always be
/// built.
pub proof fn lemma_empty_segment_allows_newer_slot(slot_info: Option<(u64, u32)>, new_slot: u64, v: u32, c: u32)
    requires
        c >= 1,
        slot_info matches Some((last, _)) ==> last < new_slot,
    ensures
        can_build_upon_spec(slot_info, 0, new_slot, v, c),
{
}

/// The hook accepts a block at `relay_chain_slot` exactly when: the stored
/// slot is older, or is the same slot with several blocks per slot allowed
/// and at most `max(V, 1)` blocks (and fewer than `u32::MAX`) authored in
/// it; the verifier can be asked and confirms a parachain slot; the
/// configured parachain slot duration is not zero; and that parachain slot
/// is not after the slot the start of the relay chain slot falls in, counted
/// in slots of the configured parachain duration.
pub proof fn lemma_hook_accepts_exactly<S: GetAndVerifySlot>(
    slot_info: Option<(u64, u32)>,
    config: Config,
    verifier: S,
    relay_chain_slot_duration_millis: u32,
    v: u32,
    relay_chain_slot: u64,
)
    ensures
        hook_failure(slot_info, config, verifier, relay_chain_slot_duration_millis, v, relay_chain_slot) is None <==> ({
            let velocity: int = if v >= 1 { v as int } else { 1 };
            let product: int = relay_chain_slot_duration_millis as int * relay_chain_slot as int;
            let relay_timestamp: int = if product > u64::MAX { u64::MAX as int } else { product };
            &&& (slot_info matches Some((slot, authored)) ==> (slot < relay_chain_slot
                || (slot == relay_chain_slot && config.allow_multiple_blocks_per_slot
                    && authored <= velocity && authored < u32::MAX)))
            &&& verifier.can_verify(relay_chain_slot)
            &&& verifier.spec_get_and_verify_slot(relay_chain_slot) is Ok
            &&& config.slot_duration > 0
            &&& verifier.spec_get_and_verify_slot(relay_chain_slot)->Ok_0 as int
                <= relay_timestamp / config.slot_duration as int
        }),
{
}

/// Whether a block may extend the chain does not depend on how long the
/// unincluded segment is, as long as it has room: with room, a block in the
/// last recorded slot may be built exactly while fewer than `max(V, 1) + 1`
/// blocks were authored in it, and a block in another slot exactly when
/// that slot is later; without room, none may.
pub proof fn lemma_can_build_upon_exactly(
    slot_info: Option<(u64, u32)>,
    size_after_included: u32,
    new_slot: u64,
    v: u32,
    c: u32,
)
    ensures
        slot_info is None ==> can_build_upon_spec(slot_info, size_after_included, new_slot, v, c),
        slot_info matches Some((last, authored)) ==> (
            can_build_upon_spec(slot_info, size_after_included, new_slot, v, c) <==> (
                size_after_included < c && if last == new_slot {
                    authored < (if v >= 1 { v as int } else { 1 }) + 1
                } else {
                    last < new_slot
                }
            )
        ),
        forall|other_size: u32| size_after_included < c && other_size < c ==>
            can_build_upon_spec(slot_info, size_after_included, new_slot, v, c)
                == #[trigger] can_build_upon_spec(slot_info, other_size, new_slot, v, c),
{
}

} // verus!
