//! The Nimbus block executor's seal handling: before a block is executed,
//! its seal is taken off the header digest and checked against the author
//! the pre-runtime digest names.

use vstd::prelude::*;
use crate::digest::{DigestItem, spec_as_nimbus_seal};
use crate::author_inherent::nimbus_pre_runtime;
use crate::scale::decode_fixed;
use crate::digest::{NIMBUS_ENGINE_ID, same_engine_id};

verus! {

/// Why the executor declares a block invalid before checking the signature.
#[derive(Clone, Copy, Debug, PartialEq, Eq, Structural)]
pub enum SealFailure {
    /// The digest is empty: there is no seal.
    MissingSeal,
    /// The last digest item is not a Nimbus seal.
    HeaderUnsealed,
    /// No pre-runtime digest item names an author.
    MissingAuthor,
    /// The named author is not a 32-byte Nimbus key.
    InvalidAuthor,
}

/// The first reason for which the executor rejects the digest `logs`, or
/// `None` when it reaches the signature check.
pub open spec fn seal_failure(logs: Seq<DigestItem>) -> Option<SealFailure> {
    if logs.len() == 0 {
        Some(SealFailure::MissingSeal)
    } else if spec_as_nimbus_seal(logs.last()) is None {
        Some(SealFailure::HeaderUnsealed)
    } else if nimbus_pre_runtime(logs.drop_last()) is None {
        Some(SealFailure::MissingAuthor)
    } else if nimbus_pre_runtime(logs.drop_last())->Some_0.len() != 32 {
        Some(SealFailure::InvalidAuthor)
    } else {
        None
    }
}

/// The executor that checks the Nimbus seal before handing the block to the
/// inner executor.
pub struct BlockExecutor;

impl BlockExecutor {
    /// Why [`Self::remove_seal`] would reject the digest `logs`, if it
    /// would.
    pub fn seal_failure(logs: &Vec<DigestItem>) -> (r: Option<SealFailure>)
        ensures
            r == seal_failure(logs@),
    {
        if logs.len() == 0 {
            return Some(SealFailure::MissingSeal);
        }
        if logs[logs.len() - 1].as_nimbus_seal().is_none() {
            return Some(SealFailure::HeaderUnsealed);
        }
        let n = logs.len() - 1;
        match Self::author_len_in_prefix(logs, n) {
            None => Some(SealFailure::MissingAuthor),
            Some(len) => if len != 32 { Some(SealFailure::InvalidAuthor) } else { None },
        }
    }

    /// The length of the payload of the first Nimbus pre-runtime item among
    /// the first `n` items of `logs`, if there is one.
    fn author_len_in_prefix(logs: &Vec<DigestItem>, n: usize) -> (r: Option<usize>)
        requires
            n <= logs@.len(),
        ensures
            r is None <==> nimbus_pre_runtime(logs@.subrange(0, n as int)) is None,
            r matches Some(len) ==> len == nimbus_pre_runtime(logs@.subrange(0, n as int))->Some_0.len(),
    {
        let ghost prefix = logs@.subrange(0, n as int);
        let mut i: usize = 0;
        while i < n
            invariant
                n <= logs@.len(),
                prefix == logs@.subrange(0, n as int),
                i <= n,
                nimbus_pre_runtime(prefix) == crate::author_inherent::nimbus_pre_runtime_from(prefix, i as int),
            decreases n - i,
        {
            assert(prefix[i as int] == logs@[i as int]);
            match &logs[i] {
                DigestItem::PreRuntime(id, data) => {
                    if same_engine_id(id, &NIMBUS_ENGINE_ID) {
                        return Some(data.len());
                    }
                },
                _ => {},
            }
            i = i + 1;
        }
        None
    }

    /// Takes the seal off the digest `logs` and returns the signature it
    /// carries with the Nimbus key of the author the remaining digest names,
    /// for the signature check. The digest must pass [`Self::seal_failure`].
    pub fn remove_seal(logs: &mut Vec<DigestItem>) -> (r: ([u8; 64], [u8; 32]))
        requires
            seal_failure(old(logs)@) is None,
        ensures
            final(logs)@ == old(logs)@.drop_last(),
            r.0@ == spec_as_nimbus_seal(old(logs)@.last())->Some_0,
            r.1@ == nimbus_pre_runtime(final(logs)@)->Some_0,
    {
        let ghost old_logs = logs@;
        let seal = logs.pop().unwrap();
        let signature = seal.as_nimbus_seal().unwrap();
        let mut i: usize = 0;
        let mut author: [u8; 32] = [0u8; 32];
        while i < logs.len()
            invariant
                old_logs == old(logs)@,
                old_logs.len() > 0,
                logs@ == old_logs.drop_last(),
                signature@ == spec_as_nimbus_seal(old_logs.last())->Some_0,
                i <= logs@.len(),
                nimbus_pre_runtime(logs@) == crate::author_inherent::nimbus_pre_runtime_from(logs@, i as int),
                nimbus_pre_runtime(logs@) is Some,
                nimbus_pre_runtime(logs@)->Some_0.len() == 32,
            decreases logs@.len() - i,
        {
            match &logs[i] {
                DigestItem::PreRuntime(id, data) => {
                    if same_engine_id(id, &NIMBUS_ENGINE_ID) {
                        match decode_fixed::<32>(data.as_slice()) {
                            Some(a) => {
                                proof {
                                    assert(data@.subrange(0, 32) =~= data@);
                                }
                                return (signature, a);
                            },
                            None => {},
                        }
                    }
                },
                _ => {},
            }
            i = i + 1;
        }
        (signature, author)
    }
}

} // verus!
