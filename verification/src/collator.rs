//! The Nimbus collator's block data: slot claims, the digest items a new
//! block starts with, the relay parent descendants handed to the parachain
//! inherent, and the inherent data overrides.

use vstd::prelude::*;
use crate::digest::{DigestItem, is_nimbus_pre_digest_of, nimbus_pre_digest};
use crate::inherents::InherentData;

verus! {

/// Identifier of the timestamp inherent (`timstap0`).
pub const TIMESTAMP_INHERENT_IDENTIFIER: [u8; 8] = [116, 105, 109, 115, 116, 97, 112, 48];

/// A claim to author: the author's Nimbus key, the pre-runtime digest item
/// that names it, and the timestamp of the relay chain slot the claim was
/// made against.
#[derive(Clone, Debug)]
pub struct SlotClaim {
    author_id: [u8; 32],
    pre_digest: DigestItem,
    timestamp: u64,
}

impl SlotClaim {
    /// The author's Nimbus key.
    pub closed spec fn spec_author_id(&self) -> [u8; 32] {
        self.author_id
    }

    /// The pre-runtime digest item of the claim.
    pub closed spec fn spec_pre_digest(&self) -> DigestItem {
        self.pre_digest
    }

    /// The timestamp of the claim.
    pub closed spec fn spec_timestamp(&self) -> u64 {
        self.timestamp
    }

    /// A claim for `author_id` at `timestamp`, with no check that the author
    /// owns the slot or that the timestamp falls within it.
    pub fn unchecked(author_id: [u8; 32], timestamp: u64) -> (c: SlotClaim)
        ensures
            c.spec_author_id() == author_id,
            c.spec_timestamp() == timestamp,
            is_nimbus_pre_digest_of(c.spec_pre_digest(), author_id@),
    {
        let pre_digest = nimbus_pre_digest(author_id);
        SlotClaim { author_id, pre_digest, timestamp }
    }

    /// The timestamp of the relay chain slot this claim was made against.
    pub fn timestamp(&self) -> (t: u64)
        ensures
            t == self.spec_timestamp(),
    {
        self.timestamp
    }

    /// The author's Nimbus key.
    pub fn author_id(&self) -> (a: [u8; 32])
        ensures
            a == self.spec_author_id(),
    {
        self.author_id
    }
}

/// Whether `logs` start with the Nimbus pre-runtime item of `author`,
/// followed by `additional`.
pub open spec fn starts_with_author(logs: Seq<DigestItem>, author: [u8; 32], additional: Seq<DigestItem>) -> bool {
    &&& logs.len() == additional.len() + 1
    &&& is_nimbus_pre_digest_of(logs[0], author@)
    &&& logs.drop_first() == additional
}

/// The digest items a new block starts with: the Nimbus pre-runtime item of
/// `author`, then the additional items, if any.
pub fn pre_digest_logs(author: [u8; 32], additional: Option<Vec<DigestItem>>) -> (logs: Vec<DigestItem>)
    ensures
        starts_with_author(logs@, author, match additional { Some(a) => a@, None => Seq::<DigestItem>::empty() }),
{
    let mut logs: Vec<DigestItem> = Vec::new();
    logs.push(nimbus_pre_digest(author));
    match additional {
        Some(mut more) => {
            let ghost first = logs@;
            let ghost extra = more@;
            logs.append(&mut more);
            proof {
                assert(logs@ == first + extra);
                assert(logs@.drop_first() =~= extra);
            }
        },
        None => {
            proof {
                assert(logs@.drop_first() =~= Seq::<DigestItem>::empty());
            }
        },
    }
    logs
}

/// A relay parent block header and its descendants, oldest first.
#[derive(Clone, Debug)]
pub struct RelayParentData<H> {
    relay_parent: H,
    descendants: Vec<H>,
}

impl<H> RelayParentData<H> {
    /// The relay parent.
    pub closed spec fn spec_relay_parent(&self) -> H {
        self.relay_parent
    }

    /// The descendants, oldest first.
    pub closed spec fn spec_descendants(&self) -> Seq<H> {
        self.descendants@
    }

    /// The relay parent with no descendants.
    pub fn new(relay_parent: H) -> (d: RelayParentData<H>)
        ensures
            d.spec_relay_parent() == relay_parent,
            d.spec_descendants() == Seq::<H>::empty(),
    {
        RelayParentData { relay_parent, descendants: Vec::new() }
    }

    /// The relay parent with its descendants, oldest first.
    pub fn new_with_descendants(relay_parent: H, descendants: Vec<H>) -> (d: RelayParentData<H>)
        ensures
            d.spec_relay_parent() == relay_parent,
            d.spec_descendants() == descendants@,
    {
        RelayParentData { relay_parent, descendants }
    }

    /// The relay parent.
    pub fn relay_parent(&self) -> (h: &H)
        ensures
            *h == self.spec_relay_parent(),
    {
        &self.relay_parent
    }

    /// The number of descendants.
    pub fn descendants_len(&self) -> (n: usize)
        ensures
            n == self.spec_descendants().len(),
    {
        self.descendants.len()
    }

    /// The list for the parachain inherent: empty when there are no
    /// descendants, and otherwise the relay parent followed by its
    /// descendants, oldest first.
    pub fn into_inherent_descendant_list(self) -> (list: Vec<H>)
        ensures
            self.spec_descendants().len() == 0 ==> list@ == Seq::<H>::empty(),
            self.spec_descendants().len() > 0 ==> list@ == seq![self.spec_relay_parent()] + self.spec_descendants(),
    {
        let RelayParentData { relay_parent, mut descendants } = self;
        if descendants.len() == 0 {
            return Vec::new();
        }
        let mut result: Vec<H> = Vec::new();
        result.push(relay_parent);
        let ghost first = result@;
        let ghost rest = descendants@;
        result.append(&mut descendants);
        proof {
            assert(result@ == first + rest);
        }
        result
    }
}

/// The SCALE encoding of a `u64`: its eight bytes, least significant first.
pub open spec fn spec_u64_le(v: u64) -> Seq<u8> {
    Seq::new(8, |i: int| (((v as nat) / crate::xcm::pow256(i as nat)) % 256) as u8)
}

/// The SCALE encoding of a `u64`: its eight bytes, least significant first.
pub fn encode_u64(v: u64) -> (bytes: Vec<u8>)
    ensures
        bytes@ == spec_u64_le(v),
{
    let mut bytes: Vec<u8> = Vec::new();
    let mut x: u64 = v;
    let mut k: usize = 0;
    proof {
        assert(crate::xcm::pow256(0) == 1);
    }
    while k < 8
        invariant
            k <= 8,
            x as nat == (v as nat) / crate::xcm::pow256(k as nat),
            bytes@.len() == k,
            forall|i: int| 0 <= i < k ==> #[trigger] bytes@[i] == (((v as nat) / crate::xcm::pow256(i as nat)) % 256) as u8,
        decreases 8 - k,
    {
        bytes.push((x % 256) as u8);
        proof {
            crate::xcm::lemma_pow256_positive(k as nat);
            vstd::arithmetic::div_mod::lemma_div_denominator(v as int, crate::xcm::pow256(k as nat) as int, 256);
            assert(crate::xcm::pow256((k + 1) as nat) == 256 * crate::xcm::pow256(k as nat));
            assert(crate::xcm::pow256(k as nat) * 256 == 256 * crate::xcm::pow256(k as nat)) by (nonlinear_arith);
        }
        x = x / 256;
        k = k + 1;
    }
    proof {
        assert(bytes@ =~= spec_u64_le(v));
    }
    bytes
}

/// Puts the given timestamp, if any, in place of the timestamp inherent
/// data; other data is left as it is.
pub fn override_timestamp(inherent_data: &mut InherentData, timestamp: Option<u64>)
    requires
        old(inherent_data).well_formed(),
    ensures
        final(inherent_data).well_formed(),
        forall|k: [u8; 8]| #[trigger] final(inherent_data).get(k) == match timestamp {
            Some(t) => if k == TIMESTAMP_INHERENT_IDENTIFIER { Some(spec_u64_le(t)) } else { old(inherent_data).get(k) },
            None => old(inherent_data).get(k),
        },
{
    match timestamp {
        Some(t) => inherent_data.replace_data(TIMESTAMP_INHERENT_IDENTIFIER, encode_u64(t)),
        None => {},
    }
}

} // verus!
