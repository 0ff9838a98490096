//! The runtime vocabulary the pallets share: origins, origin checks, call
//! filters and message-queue pause queries.

use vstd::prelude::*;

verus! {

/// Who dispatches a call.
#[derive(Clone, Copy, Debug, PartialEq, Eq, Structural)]
pub enum Origin {
    /// The runtime itself, with every right.
    Root,
    /// A signed account.
    Signed(u64),
    /// No origin: inherents and unsigned transactions.
    Unsigned,
}

/// Why a dispatched call failed.
#[derive(Clone, Copy, Debug, PartialEq, Eq, Structural)]
pub enum DispatchError {
    /// A failure with no further detail.
    Other,
    /// The origin may not dispatch the call.
    BadOrigin,
    /// An error of a pallet, by pallet index and error index.
    Module { index: u8, error: u8 },
}

/// Where a queued message comes from.
#[derive(Clone, Copy, Debug, PartialEq, Eq, Structural)]
pub enum AggregateMessageOrigin {
    /// The chain itself.
    Here,
    /// The relay chain.
    Parent,
    /// A sibling parachain.
    Sibling(u32),
}

/// A rule on which origins may dispatch a call.
pub trait EnsureOrigin {
    /// Whether `origin` passes the rule.
    spec fn spec_allows(&self, origin: Origin) -> bool;

    /// Whether `origin` passes the rule.
    fn ensure_origin(&self, origin: &Origin) -> (r: bool)
        ensures
            r == self.spec_allows(*origin),
    ;
}

/// Only the root origin passes.
#[derive(Clone, Copy, Debug, PartialEq, Eq, Structural)]
pub struct EnsureRoot;

impl EnsureOrigin for EnsureRoot {
    open spec fn spec_allows(&self, origin: Origin) -> bool {
        origin is Root
    }

    fn ensure_origin(&self, origin: &Origin) -> (r: bool) {
        match origin {
            Origin::Root => true,
            _ => false,
        }
    }
}

/// A filter on calls.
pub trait Contains<C> {
    /// Whether `call` passes the filter.
    spec fn spec_contains(&self, call: C) -> bool;

    /// Whether `call` passes the filter.
    fn contains(&self, call: &C) -> (r: bool)
        ensures
            r == self.spec_contains(*call),
    ;
}

/// The filter that lets every call pass.
#[derive(Clone, Copy, Debug, PartialEq, Eq, Structural)]
pub struct Everything;

impl<C> Contains<C> for Everything {
    open spec fn spec_contains(&self, call: C) -> bool {
        true
    }

    fn contains(&self, call: &C) -> (r: bool) {
        true
    }
}

/// The filter that lets no call pass.
#[derive(Clone, Copy, Debug, PartialEq, Eq, Structural)]
pub struct Nothing;

impl<C> Contains<C> for Nothing {
    open spec fn spec_contains(&self, call: C) -> bool {
        false
    }

    fn contains(&self, call: &C) -> (r: bool) {
        false
    }
}

/// Whether the processing of a message queue is paused.
pub trait QueuePausedQuery<O> {
    /// Whether the queue of `origin` is paused.
    spec fn spec_is_paused(&self, origin: O) -> bool;

    /// Whether the queue of `origin` is paused.
    fn is_paused(&self, origin: &O) -> (r: bool)
        ensures
            r == self.spec_is_paused(*origin),
    ;
}

/// No queue is ever paused.
#[derive(Clone, Copy, Debug, PartialEq, Eq, Structural)]
pub struct NeverPaused;

impl<O> QueuePausedQuery<O> for NeverPaused {
    open spec fn spec_is_paused(&self, origin: O) -> bool {
        false
    }

    fn is_paused(&self, origin: &O) -> (r: bool) {
        false
    }
}

} // verus!
