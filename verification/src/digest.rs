//! Block header digests and the Nimbus items in them: the pre-runtime item
//! that names the author and the seal that carries the author's signature.

use vstd::prelude::*;
use crate::scale::decode_fixed;

verus! {

/// Identifier of the Nimbus consensus engine in digests (`nmbs`).
pub const NIMBUS_ENGINE_ID: [u8; 4] = [110, 109, 98, 115];

/// One item of a block header digest.
#[derive(Clone, Debug)]
pub enum DigestItem {
    /// Put by the block author before the runtime runs.
    PreRuntime([u8; 4], Vec<u8>),
    /// A message from the runtime to the consensus engine.
    Consensus([u8; 4], Vec<u8>),
    /// A seal put by the block author after the block was built.
    Seal([u8; 4], Vec<u8>),
    /// Any other data.
    Other(Vec<u8>),
    /// The runtime environment was updated in this block.
    RuntimeEnvironmentUpdated,
}

/// Whether `item` is the Nimbus pre-runtime item naming `author`.
pub open spec fn is_nimbus_pre_digest_of(item: DigestItem, author: Seq<u8>) -> bool {
    item matches DigestItem::PreRuntime(id, data) && id == NIMBUS_ENGINE_ID && data@ == author
}

/// Whether `item` is the Nimbus seal carrying `signature`.
pub open spec fn is_nimbus_seal_of(item: DigestItem, signature: Seq<u8>) -> bool {
    item matches DigestItem::Seal(id, data) && id == NIMBUS_ENGINE_ID && data@ == signature
}

/// Whether two consensus engine identifiers are the same.
pub fn same_engine_id(a: &[u8; 4], b: &[u8; 4]) -> (r: bool)
    ensures
        r == (*a == *b),
{
    let r = a[0] == b[0] && a[1] == b[1] && a[2] == b[2] && a[3] == b[3];
    proof {
        if r {
            assert(*a =~= *b);
        }
    }
    r
}

/// The pre-runtime item that names `author` as the block author.
pub fn nimbus_pre_digest(author: [u8; 32]) -> (item: DigestItem)
    ensures
        is_nimbus_pre_digest_of(item, author@),
{
    DigestItem::PreRuntime(NIMBUS_ENGINE_ID, author_bytes(&author))
}

/// The seal item that carries `signature`.
pub fn nimbus_seal(signature: [u8; 64]) -> (item: DigestItem)
    ensures
        is_nimbus_seal_of(item, signature@),
{
    let mut data: Vec<u8> = Vec::new();
    let mut i: usize = 0;
    while i < 64
        invariant
            i <= 64,
            data@ == signature@.subrange(0, i as int),
        decreases 64 - i,
    {
        data.push(signature[i]);
        proof {
            assert(signature@.subrange(0, i + 1) == signature@.subrange(0, i as int).push(signature@[i as int]));
        }
        i = i + 1;
    }
    proof {
        assert(signature@.subrange(0, 64) == signature@);
    }
    DigestItem::Seal(NIMBUS_ENGINE_ID, data)
}

/// The bytes of a 32-byte key, in order.
pub fn author_bytes(author: &[u8; 32]) -> (data: Vec<u8>)
    ensures
        data@ == author@,
{
    let mut data: Vec<u8> = Vec::new();
    let mut i: usize = 0;
    while i < 32
        invariant
            i <= 32,
            data@ == author@.subrange(0, i as int),
        decreases 32 - i,
    {
        data.push(author[i]);
        proof {
            assert(author@.subrange(0, i + 1) == author@.subrange(0, i as int).push(author@[i as int]));
        }
        i = i + 1;
    }
    proof {
        assert(author@.subrange(0, 32) == author@);
    }
    data
}

/// The signature a Nimbus seal item carries: its first 64 bytes.
pub open spec fn spec_as_nimbus_seal(item: DigestItem) -> Option<Seq<u8>> {
    match item {
        DigestItem::Seal(id, data) => {
            if id == NIMBUS_ENGINE_ID && data@.len() >= 64 { Some(data@.subrange(0, 64)) } else { None }
        },
        _ => None,
    }
}

impl DigestItem {
    /// The signature carried by this item, if it is a Nimbus seal whose
    /// payload decodes as a signature.
    pub fn as_nimbus_seal(&self) -> (r: Option<[u8; 64]>)
        ensures
            r is Some <==> spec_as_nimbus_seal(*self) is Some,
            r matches Some(s) ==> s@ == spec_as_nimbus_seal(*self)->Some_0,
    {
        match self {
            DigestItem::Seal(id, data) => {
                if same_engine_id(id, &NIMBUS_ENGINE_ID) {
                    decode_fixed::<64>(data.as_slice())
                } else {
                    None
                }
            },
            _ => None,
        }
    }
}

/// A Nimbus seal carrying `signature` gives back exactly that signature.
pub proof fn lemma_seal_round_trip(item: DigestItem, signature: [u8; 64])
    requires
        is_nimbus_seal_of(item, signature@),
    ensures
        spec_as_nimbus_seal(item) == Some(signature@),
{
    match item {
        DigestItem::Seal(id, data) => {
            assert(data@.subrange(0, 64) =~= signature@);
        },
        _ => {},
    }
}

} // verus!
