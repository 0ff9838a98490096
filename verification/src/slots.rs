//! Slots: numbering time by a fixed duration, and matching parachain slots
//! against the relay chain's.

use vstd::prelude::*;
use crate::weights::{sat_mul, saturating_mul_u64};

verus! {

/// The slot that contains `timestamp` (milliseconds) when slots last
/// `slot_duration` milliseconds.
pub open spec fn spec_slot_from_timestamp(timestamp: u64, slot_duration: u64) -> u64
    recommends
        slot_duration > 0,
{
    timestamp / slot_duration
}

/// The slot that contains `timestamp` (milliseconds) when slots last
/// `slot_duration` milliseconds. A zero duration has no slots.
pub fn slot_from_timestamp(timestamp: u64, slot_duration: u64) -> (slot: u64)
    requires
        slot_duration > 0,
    ensures
        slot == spec_slot_from_timestamp(timestamp, slot_duration),
{
    timestamp / slot_duration
}

/// Start of a relay chain slot in milliseconds, saturating at `u64::MAX`.
pub open spec fn spec_relay_chain_timestamp(relay_chain_slot_duration_millis: u32, relay_chain_slot: u64) -> u64 {
    sat_mul(relay_chain_slot_duration_millis as u64, relay_chain_slot)
}

/// Start of a relay chain slot in milliseconds, saturating at `u64::MAX`.
pub fn relay_chain_timestamp(relay_chain_slot_duration_millis: u32, relay_chain_slot: u64) -> (t: u64)
    ensures
        t == spec_relay_chain_timestamp(relay_chain_slot_duration_millis, relay_chain_slot),
{
    saturating_mul_u64(relay_chain_slot_duration_millis as u64, relay_chain_slot)
}

/// Why a slot was refused.
#[derive(Clone, Copy, Debug, PartialEq, Eq, Structural)]
pub enum SlotError {
    /// The parachain slot does not match the one derived from the relay chain.
    UnexpectedSlot,
}

/// A way to get the current parachain slot and to check it against the relay
/// chain slot.
pub trait GetAndVerifySlot {
    /// What `get_and_verify_slot` answers for `relay_chain_slot`.
    spec fn spec_get_and_verify_slot(&self, relay_chain_slot: u64) -> Result<u64, SlotError>;

    /// Whether `get_and_verify_slot` can be asked about `relay_chain_slot`.
    spec fn can_verify(&self, relay_chain_slot: u64) -> bool;

    /// Whether `get_and_verify_slot` can be asked about `relay_chain_slot`.
    fn is_usable(&self, relay_chain_slot: u64) -> (r: bool)
        ensures
            r == self.can_verify(relay_chain_slot),
    ;

    /// The current parachain slot, if it matches `relay_chain_slot`.
    fn get_and_verify_slot(&self, relay_chain_slot: u64) -> (r: Result<u64, SlotError>)
        requires
            self.can_verify(relay_chain_slot),
        ensures
            r == self.spec_get_and_verify_slot(relay_chain_slot),
    ;
}

/// The parachain runs on the relay chain's slots.
#[derive(Clone, Copy, Debug, PartialEq, Eq, Structural)]
pub struct RelaySlot;

impl GetAndVerifySlot for RelaySlot {
    open spec fn spec_get_and_verify_slot(&self, relay_chain_slot: u64) -> Result<u64, SlotError> {
        Ok(relay_chain_slot)
    }

    open spec fn can_verify(&self, relay_chain_slot: u64) -> bool {
        true
    }

    fn is_usable(&self, relay_chain_slot: u64) -> (r: bool) {
        true
    }

    fn get_and_verify_slot(&self, relay_chain_slot: u64) -> (r: Result<u64, SlotError>) {
        Ok(relay_chain_slot)
    }
}

/// The parachain has slots of its own. `new_slot` and `para_slot_duration`
/// are what the slot provider reports for the current block.
#[derive(Clone, Copy, Debug, PartialEq, Eq, Structural)]
pub struct ParaSlot {
    pub relay_chain_slot_duration_millis: u32,
    pub new_slot: u64,
    pub para_slot_duration: u64,
}

impl GetAndVerifySlot for ParaSlot {
    open spec fn spec_get_and_verify_slot(&self, relay_chain_slot: u64) -> Result<u64, SlotError> {
        let relay_chain_timestamp = spec_relay_chain_timestamp(self.relay_chain_slot_duration_millis, relay_chain_slot);
        if self.new_slot == spec_slot_from_timestamp(relay_chain_timestamp, self.para_slot_duration) {
            Ok(self.new_slot)
        } else {
            Err(SlotError::UnexpectedSlot)
        }
    }

    open spec fn can_verify(&self, relay_chain_slot: u64) -> bool {
        self.para_slot_duration > 0
    }

    fn is_usable(&self, relay_chain_slot: u64) -> (r: bool) {
        self.para_slot_duration > 0
    }

    fn get_and_verify_slot(&self, relay_chain_slot: u64) -> (r: Result<u64, SlotError>) {
        let relay_chain_timestamp = relay_chain_timestamp(self.relay_chain_slot_duration_millis, relay_chain_slot);
        let para_slot_from_relay = slot_from_timestamp(relay_chain_timestamp, self.para_slot_duration);
        if self.new_slot == para_slot_from_relay {
            Ok(self.new_slot)
        } else {
            Err(SlotError::UnexpectedSlot)
        }
    }
}

} // verus!
