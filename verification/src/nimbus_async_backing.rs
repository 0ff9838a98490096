//! The nimbus-async-backing pallet: slot bookkeeping for parachains whose
//! slot may differ from the relay chain's, and its fixed-velocity hook.

use vstd::prelude::*;
use crate::weights::{RuntimeDbWeight, Weight};
use crate::slots::{spec_relay_chain_timestamp, relay_chain_timestamp};
use crate::async_backing::{at_least_one, max_one, can_build_upon_spec};

verus! {

/// Identifier of the nimbus-async-backing inherent.
pub const INHERENT_IDENTIFIER: [u8; 8] = [110, 105, 109, 98, 45, 101, 120, 116];

/// How the parachain derives its slot.
pub trait ParachainSlot {
    /// What `get_current_slot` answers.
    spec fn spec_current_slot(&self) -> Option<u64>;

    /// What `para_slot_from_relay_timestamp` answers for a relay timestamp.
    spec fn spec_para_slot_from_relay_timestamp(&self, relay_chain_timestamp: u64) -> Option<u64>;

    /// The current parachain slot, if the parachain has slots of its own.
    fn get_current_slot(&self) -> (r: Option<u64>)
        ensures
            r == self.spec_current_slot(),
    ;

    /// The parachain slot at a relay chain timestamp, if the parachain has
    /// slots of its own.
    fn para_slot_from_relay_timestamp(&self, relay_chain_timestamp: u64) -> (r: Option<u64>)
        ensures
            r == self.spec_para_slot_from_relay_timestamp(relay_chain_timestamp),
    ;
}

/// The parachain uses the relay chain's slots.
#[derive(Clone, Copy, Debug, PartialEq, Eq, Structural)]
pub struct RelaySlot;

impl ParachainSlot for RelaySlot {
    open spec fn spec_current_slot(&self) -> Option<u64> {
        None
    }

    open spec fn spec_para_slot_from_relay_timestamp(&self, relay_chain_timestamp: u64) -> Option<u64> {
        None
    }

    fn get_current_slot(&self) -> (r: Option<u64>) {
        None
    }

    fn para_slot_from_relay_timestamp(&self, relay_chain_timestamp: u64) -> (r: Option<u64>) {
        None
    }
}

/// Runtime configuration of the pallet.
#[derive(Clone, Copy, Debug, PartialEq, Eq, Structural)]
pub struct Config {
    /// Whether more than one block may be authored per slot.
    pub allow_multiple_blocks_per_slot: bool,
    /// Cost of the database accesses.
    pub db_weight: RuntimeDbWeight,
}

/// Storage of the pallet: the highest slot seen and the number of blocks
/// authored in it.
#[derive(Clone, Copy, Debug)]
pub struct Pallet {
    pub slot_info: Option<(u64, u32)>,
}

/// Why the hook declares a block invalid.
#[derive(Clone, Copy, Debug, PartialEq, Eq, Structural)]
pub enum NimbusHookFailure {
    /// A second block in the same slot while that is not allowed.
    SlotNotHighEnough,
    /// The slot of the block is lower than the stored one.
    SlotMovedBackwards,
    /// The number of authored blocks does not fit the counter.
    AuthoredCountOverflow,
    /// The parachain slot differs from the one derived from the relay chain.
    SlotNumberMismatch,
    /// The velocity limit does not fit the counter.
    VelocityOverflow,
    /// More blocks than the velocity allows were authored in the slot.
    AuthoredLimitReached,
}

/// The slot of a block built at `relay_chain_slot`.
pub open spec fn new_slot_of<P: ParachainSlot>(slots: P, relay_chain_slot: u64) -> u64 {
    match slots.spec_current_slot() {
        Some(s) => s,
        None => relay_chain_slot,
    }
}

/// The parachain slot derived from the relay chain slot.
pub open spec fn para_slot_from_relay_of<P: ParachainSlot>(slots: P, ms: u32, relay_chain_slot: u64) -> u64 {
    match slots.spec_para_slot_from_relay_timestamp(spec_relay_chain_timestamp(ms, relay_chain_slot)) {
        Some(s) => s,
        None => relay_chain_slot,
    }
}

/// The first reason for which the hook rejects a block at
/// `relay_chain_slot`; `None` when it accepts it.
pub open spec fn nimbus_hook_failure<P: ParachainSlot>(
    slot_info: Option<(u64, u32)>,
    config: Config,
    slots: P,
    ms: u32,
    v: u32,
    relay_chain_slot: u64,
) -> Option<NimbusHookFailure> {
    let new_slot = new_slot_of(slots, relay_chain_slot);
    if slot_info matches Some((slot, _)) && slot == new_slot && !config.allow_multiple_blocks_per_slot {
        Some(NimbusHookFailure::SlotNotHighEnough)
    } else if slot_info matches Some((slot, a)) && slot == new_slot && a == u32::MAX {
        Some(NimbusHookFailure::AuthoredCountOverflow)
    } else if slot_info matches Some((slot, _)) && slot > new_slot {
        Some(NimbusHookFailure::SlotMovedBackwards)
    } else if new_slot != para_slot_from_relay_of(slots, ms, relay_chain_slot) {
        Some(NimbusHookFailure::SlotNumberMismatch)
    } else if at_least_one(v) == u32::MAX {
        Some(NimbusHookFailure::VelocityOverflow)
    } else if authored_after(slot_info, new_slot) > at_least_one(v) + 1 {
        Some(NimbusHookFailure::AuthoredLimitReached)
    } else {
        None
    }
}

/// The number of blocks authored in `new_slot`, counting the new one.
pub open spec fn authored_after(slot_info: Option<(u64, u32)>, new_slot: u64) -> int {
    match slot_info {
        Some((slot, authored)) => if slot == new_slot { authored + 1 } else { 1 },
        None => 1,
    }
}

/// The consensus hook that lets at most `V + 1` blocks (with `V` at least 1)
/// be authored per parachain slot, and gives the unincluded segment a
/// capacity of `C` (at least 1).
pub struct FixedVelocityConsensusHook<const RELAY_CHAIN_SLOT_DURATION_MILLIS: u32, const V: u32, const C: u32>;

impl<const RELAY_CHAIN_SLOT_DURATION_MILLIS: u32, const V: u32, const C: u32>
    FixedVelocityConsensusHook<RELAY_CHAIN_SLOT_DURATION_MILLIS, V, C> {

    /// Why [`Self::on_state_proof`] would reject a block at
    /// `relay_chain_slot`, if it would.
    pub fn on_state_proof_failure<P: ParachainSlot>(
        pallet: &Pallet,
        config: &Config,
        slots: &P,
        relay_chain_slot: u64,
    ) -> (r: Option<NimbusHookFailure>)
        ensures
            r == nimbus_hook_failure(pallet.slot_info, *config, *slots, RELAY_CHAIN_SLOT_DURATION_MILLIS, V, relay_chain_slot),
    {
        let velocity = max_one(V);
        let relay_chain_timestamp = relay_chain_timestamp(RELAY_CHAIN_SLOT_DURATION_MILLIS, relay_chain_slot);
        let new_slot = match slots.get_current_slot() {
            Some(s) => s,
            None => relay_chain_slot,
        };
        let mut authored: u32 = 1;
        match pallet.slot_info {
            Some((slot, a)) => {
                if slot == new_slot {
                    if !config.allow_multiple_blocks_per_slot {
                        return Some(NimbusHookFailure::SlotNotHighEnough);
                    }
                    if a == u32::MAX {
                        return Some(NimbusHookFailure::AuthoredCountOverflow);
                    }
                    authored = a + 1;
                } else if slot > new_slot {
                    return Some(NimbusHookFailure::SlotMovedBackwards);
                }
            },
            None => {},
        }
        let para_slot_from_relay = match slots.para_slot_from_relay_timestamp(relay_chain_timestamp) {
            Some(s) => s,
            None => relay_chain_slot,
        };
        if new_slot != para_slot_from_relay {
            return Some(NimbusHookFailure::SlotNumberMismatch);
        }
        if velocity == u32::MAX {
            return Some(NimbusHookFailure::VelocityOverflow);
        }
        if authored > velocity + 1 {
            return Some(NimbusHookFailure::AuthoredLimitReached);
        }
        None
    }

    /// Validates the number of blocks authored in the slot against the
    /// `V + 1` limit, records the new block, and returns the weight used and
    /// the capacity of the unincluded segment.
    ///
    /// The block must be one the hook accepts (see
    /// [`Self::on_state_proof_failure`]); any other is invalid.
    pub fn on_state_proof<P: ParachainSlot>(
        pallet: &mut Pallet,
        config: &Config,
        slots: &P,
        relay_chain_slot: u64,
    ) -> (r: (Weight, u32))
        requires
            nimbus_hook_failure(old(pallet).slot_info, *config, *slots, RELAY_CHAIN_SLOT_DURATION_MILLIS, V, relay_chain_slot) is None,
        ensures
            final(pallet).slot_info == Some((new_slot_of(*slots, relay_chain_slot),
                authored_after(old(pallet).slot_info, new_slot_of(*slots, relay_chain_slot)) as u32)),
            r.0 == config.db_weight.spec_reads_writes(1, 1),
            r.1 == at_least_one(C),
    {
        let new_slot = match slots.get_current_slot() {
            Some(s) => s,
            None => relay_chain_slot,
        };
        let authored: u32 = match pallet.slot_info {
            Some((slot, a)) => if slot == new_slot { a + 1 } else { 1 },
            None => 1,
        };
        pallet.slot_info = Some((new_slot, authored));
        (config.db_weight.reads_writes(1, 1), max_one(C))
    }

    /// Whether it is legal to extend the chain: `size_after_included` is the
    /// length of the unincluded segment after the given included block, and
    /// `new_slot` the slot of the new block.
    pub fn can_build_upon(pallet: &Pallet, size_after_included: u32, new_slot: u64) -> (r: bool)
        ensures
            r == can_build_upon_spec(pallet.slot_info, size_after_included, new_slot, V, C),
    {
        let velocity = max_one(V);
        let (last_slot, authored_so_far) = match pallet.slot_info {
            None => { return true; },
            Some(x) => x,
        };
        if size_after_included >= C {
            return false;
        }
        if last_slot == new_slot {
            (authored_so_far as u64) < (velocity as u64) + 1
        } else {
            last_slot < new_slot
        }
    }
}

impl Pallet {
    /// The pallet before any block was recorded.
    pub fn new() -> (p: Pallet)
        ensures
            p.slot_info is None,
    {
        Pallet { slot_info: None }
    }

    /// The highest slot seen and the number of blocks authored in it.
    pub fn slot_info(&self) -> (r: Option<(u64, u32)>)
        ensures
            r == self.slot_info,
    {
        self.slot_info
    }
}

/// A block the hook accepts never makes the slot move backwards, and the
/// count it records stays within the velocity: between 1 and `V + 1`
/// blocks per slot.
pub proof fn lemma_accepted_block_respects_velocity<P: ParachainSlot>(
    slot_info: Option<(u64, u32)>,
    config: Config,
    slots: P,
    ms: u32,
    v: u32,
    relay_chain_slot: u64,
)
    requires
        nimbus_hook_failure(slot_info, config, slots, ms, v, relay_chain_slot) is None,
    ensures
        1 <= authored_after(slot_info, new_slot_of(slots, relay_chain_slot)) <= at_least_one(v) + 1,
        slot_info matches Some((slot, _)) ==> slot <= new_slot_of(slots, relay_chain_slot),
{
}

/// On relay chain slots (no parachain slots of their own), every slot
/// matches its relay chain slot, so only the slot and velocity rules can
/// reject a block.
pub proof fn lemma_relay_slots_always_match(ms: u32, relay_chain_slot: u64)
    ensures
        new_slot_of(RelaySlot, relay_chain_slot) == para_slot_from_relay_of(RelaySlot, ms, relay_chain_slot),
{
}

/// The hook accepts a block at `relay_chain_slot` exactly when, with
/// `new_slot` the parachain's current slot (the relay chain slot when it has
/// no slots of its own): the stored slot is not after `new_slot`; a second
/// block in `new_slot` is allowed and the count fits; `new_slot` equals the
/// slot the parachain derives from the relay chain timestamp (the relay
/// chain slot when it derives none); the velocity fits; and at most
/// `max(V, 1) + 1` blocks, counting the new one, are authored in `new_slot`.
pub proof fn lemma_nimbus_hook_accepts_exactly<P: ParachainSlot>(
    slot_info: Option<(u64, u32)>,
    config: Config,
    slots: P,
    ms: u32,
    v: u32,
    relay_chain_slot: u64,
)
    ensures
        nimbus_hook_failure(slot_info, config, slots, ms, v, relay_chain_slot) is None <==> ({
            let velocity: int = if v >= 1 { v as int } else { 1 };
            let product: int = ms as int * relay_chain_slot as int;
            let relay_timestamp: u64 = if product > u64::MAX { u64::MAX } else { product as u64 };
            let new_slot: u64 = match slots.spec_current_slot() { Some(s) => s, None => relay_chain_slot };
            let derived: u64 = match slots.spec_para_slot_from_relay_timestamp(relay_timestamp) {
                Some(s) => s,
                None => relay_chain_slot,
            };
            let authored: int = match slot_info {
                Some((slot, a)) => if slot == new_slot { a + 1 } else { 1 },
                None => 1,
            };
            &&& (slot_info matches Some((slot, a)) ==> slot <= new_slot
                && (slot == new_slot ==> config.allow_multiple_blocks_per_slot && a < u32::MAX))
            &&& new_slot == derived
            &&& velocity < u32::MAX
            &&& authored <= velocity + 1
        }),
        nimbus_hook_failure(slot_info, config, slots, ms, v, relay_chain_slot) == Some(NimbusHookFailure::SlotNumberMismatch)
            ==> match slots.spec_current_slot() { Some(s) => s, None => relay_chain_slot } != match
                slots.spec_para_slot_from_relay_timestamp(spec_relay_chain_timestamp(ms, relay_chain_slot)) {
                Some(s) => s,
                None => relay_chain_slot,
            },
{
}

} // verus!
