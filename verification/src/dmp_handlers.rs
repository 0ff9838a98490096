//! Handlers of downward (relay chain to parachain) messages that queue the
//! messages instead of executing them while migrations or maintenance run.

use vstd::prelude::*;
use crate::weights::{RuntimeDbWeight, Weight};

verus! {

/// Handles downward messages (relay block number, message) within a weight
/// limit and returns the weight used.
pub trait DmpMessageHandler {
    /// The weight the handler uses on `messages` with `limit`.
    spec fn spec_handle(&self, messages: Seq<(u32, Vec<u8>)>, limit: Weight) -> Weight;

    /// Handles `messages` within `limit`; those it does not execute stay
    /// queued for a later block.
    fn handle_dmp_messages(&self, messages: Vec<(u32, Vec<u8>)>, limit: Weight) -> (w: Weight)
        ensures
            w == self.spec_handle(messages@, limit),
    ;
}

/// Tells whether migrations want XCM paused.
pub trait MigrationStatus {
    /// Whether XCM execution should be paused.
    spec fn spec_should_pause_xcm(&self) -> bool;

    /// Whether XCM execution should be paused.
    fn should_pause_xcm(&self) -> (r: bool)
        ensures
            r == self.spec_should_pause_xcm(),
    ;
}

/// In normal operation: hands the messages to `inner` with the given limit,
/// or with a zero limit (so they stay queued) while migrations pause XCM.
pub struct NormalDmpHandler<M, H> {
    pub migrations: M,
    pub inner: H,
    pub db: RuntimeDbWeight,
}

/// The weight limit the normal handler passes on.
pub open spec fn forwarded_limit(should_pause_xcm: bool, limit: Weight) -> Weight {
    if should_pause_xcm { Weight { ref_time: 0, proof_size: 0 } } else { limit }
}

impl<M: MigrationStatus, H: DmpMessageHandler> NormalDmpHandler<M, H> {
    /// The weight the handler uses: the inner handler's, plus one read.
    pub open spec fn spec_handle(&self, messages: Seq<(u32, Vec<u8>)>, limit: Weight) -> Weight {
        let inner = self.inner.spec_handle(messages, forwarded_limit(self.migrations.spec_should_pause_xcm(), limit));
        let read = self.db.spec_reads(1);
        Weight { ref_time: (inner.ref_time + read.ref_time) as u64, proof_size: (inner.proof_size + read.proof_size) as u64 }
    }

    /// Handles `messages`, queueing them all while migrations pause XCM; the
    /// total weight must fit in a `Weight`.
    pub fn handle_dmp_messages(&self, messages: Vec<(u32, Vec<u8>)>, limit: Weight) -> (w: Weight)
        requires
            self.inner.spec_handle(messages@, forwarded_limit(self.migrations.spec_should_pause_xcm(), limit))
                .can_add(self.db.spec_reads(1)),
        ensures
            w == self.spec_handle(messages@, limit),
    {
        let inner = if self.migrations.should_pause_xcm() {
            self.inner.handle_dmp_messages(messages, Weight::zero())
        } else {
            self.inner.handle_dmp_messages(messages, limit)
        };
        inner.add(self.db.reads(1))
    }
}

/// In maintenance mode: hands the messages to `inner` with a zero limit, so
/// that they all stay queued.
pub struct MaintenanceDmpHandler<H> {
    pub inner: H,
}

impl<H: DmpMessageHandler> DmpMessageHandler for MaintenanceDmpHandler<H> {
    open spec fn spec_handle(&self, messages: Seq<(u32, Vec<u8>)>, limit: Weight) -> Weight {
        self.inner.spec_handle(messages, Weight { ref_time: 0, proof_size: 0 })
    }

    fn handle_dmp_messages(&self, messages: Vec<(u32, Vec<u8>)>, limit: Weight) -> (w: Weight) {
        self.inner.handle_dmp_messages(messages, Weight::zero())
    }
}

} // verus!
