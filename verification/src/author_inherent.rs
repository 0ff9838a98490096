//! The author-inherent pallet, the core of Nimbus in the runtime: it finds
//! the block author in the pre-runtime digest, checks that the author may
//! author at the current slot, and limits blocks per slot.

use vstd::prelude::*;
use crate::digest::{DigestItem, NIMBUS_ENGINE_ID, same_engine_id, is_nimbus_pre_digest_of};
use crate::frame::Origin;
use crate::scale::{decode_fixed, decode_string, encode_string, scale_encoded_string, scale_string};
use crate::weights::{RuntimeDbWeight, Weight};
use crate::async_backing::{at_least_one, max_one, can_build_upon_spec};

verus! {

/// Identifier of the author inherent (`author__`).
pub const INHERENT_IDENTIFIER: [u8; 8] = [97, 117, 116, 104, 111, 114, 95, 95];

/// Maps a Nimbus key (32 bytes) to the account that authors with it.
pub trait AccountLookup<A> {
    /// The account of the Nimbus key with bytes `nimbus_id`.
    spec fn spec_lookup(&self, nimbus_id: Seq<u8>) -> Option<A>;

    /// The account of `nimbus_id`, if one is mapped.
    fn lookup_account(&self, nimbus_id: &[u8; 32]) -> (r: Option<A>)
        ensures
            r == self.spec_lookup(nimbus_id@),
    ;
}

/// Every Nimbus key is its own account.
#[derive(Clone, Copy, Debug, PartialEq, Eq, Structural)]
pub struct IdentityLookup;

impl AccountLookup<[u8; 32]> for IdentityLookup {
    open spec fn spec_lookup(&self, nimbus_id: Seq<u8>) -> Option<[u8; 32]> {
        if nimbus_id.len() == 32 { Some(choose|a: [u8; 32]| a@ == nimbus_id) } else { None }
    }

    fn lookup_account(&self, nimbus_id: &[u8; 32]) -> (r: Option<[u8; 32]>) {
        let r = Some(*nimbus_id);
        proof {
            let c = choose|a: [u8; 32]| a@ == nimbus_id@;
            assert(c@ == nimbus_id@);
            assert(c =~= *nimbus_id);
        }
        r
    }
}

/// The account of the first entry of `entries`, at or after position `i`,
/// whose Nimbus key has bytes `nimbus_id`.
pub open spec fn mapped_account_from<A>(entries: Seq<([u8; 32], A)>, i: int, nimbus_id: Seq<u8>) -> Option<A>
    decreases entries.len() - i,
{
    if i < 0 || i >= entries.len() {
        None
    } else if entries[i].0@ == nimbus_id {
        Some(entries[i].1)
    } else {
        mapped_account_from(entries, i + 1, nimbus_id)
    }
}

/// A table from Nimbus keys to the accounts that author with them, as an
/// author-mapping registry keeps it; the first entry of a key wins.
#[derive(Clone, Debug)]
pub struct AuthorMapping<A> {
    pub entries: Vec<([u8; 32], A)>,
}

impl<A: Copy> AccountLookup<A> for AuthorMapping<A> {
    open spec fn spec_lookup(&self, nimbus_id: Seq<u8>) -> Option<A> {
        mapped_account_from(self.entries@, 0, nimbus_id)
    }

    fn lookup_account(&self, nimbus_id: &[u8; 32]) -> (r: Option<A>) {
        let mut i: usize = 0;
        while i < self.entries.len()
            invariant
                i <= self.entries@.len(),
                mapped_account_from(self.entries@, 0, nimbus_id@) == mapped_account_from(self.entries@, i as int, nimbus_id@),
            decreases self.entries@.len() - i,
        {
            let (key, account) = self.entries[i];
            if same_key(&key, nimbus_id) {
                return Some(account);
            }
            i = i + 1;
        }
        None
    }
}

/// Whether two Nimbus keys are the same.
pub fn same_key(a: &[u8; 32], b: &[u8; 32]) -> (r: bool)
    ensures
        r == (a@ == b@),
{
    let mut i: usize = 0;
    while i < 32
        invariant
            i <= 32,
            forall|k: int| 0 <= k < i ==> a@[k] == b@[k],
        decreases 32 - i,
    {
        if a[i] != b[i] {
            return false;
        }
        i = i + 1;
    }
    proof {
        assert(a@ =~= b@);
    }
    true
}

/// Decides whether an author may author at a slot.
pub trait CanAuthor<A> {
    /// Whether `author` may author at `slot`.
    spec fn spec_can_author(&self, author: A, slot: u32) -> bool;

    /// Whether `author` may author at `slot`.
    fn can_author(&self, author: &A, slot: &u32) -> (r: bool)
        ensures
            r == self.spec_can_author(*author, *slot),
    ;
}

/// Every author may author at every slot.
#[derive(Clone, Copy, Debug, PartialEq, Eq, Structural)]
pub struct AnyoneCanAuthor;

impl<A> CanAuthor<A> for AnyoneCanAuthor {
    open spec fn spec_can_author(&self, author: A, slot: u32) -> bool {
        true
    }

    fn can_author(&self, author: &A, slot: &u32) -> (r: bool) {
        true
    }
}

/// The payload of the first Nimbus pre-runtime item of `logs` at or after
/// position `i`.
pub open spec fn nimbus_pre_runtime_from(logs: Seq<DigestItem>, i: int) -> Option<Seq<u8>>
    decreases logs.len() - i,
{
    if i < 0 || i >= logs.len() {
        None
    } else {
        match logs[i] {
            DigestItem::PreRuntime(id, data) => {
                if id == NIMBUS_ENGINE_ID { Some(data@) } else { nimbus_pre_runtime_from(logs, i + 1) }
            },
            _ => nimbus_pre_runtime_from(logs, i + 1),
        }
    }
}

/// The payload of the first Nimbus pre-runtime item of `logs`.
pub open spec fn nimbus_pre_runtime(logs: Seq<DigestItem>) -> Option<Seq<u8>> {
    nimbus_pre_runtime_from(logs, 0)
}

/// What looking for the block author in a digest finds.
#[derive(Clone, Copy, Debug, PartialEq, Eq)]
pub enum AuthorSearch<A> {
    /// No Nimbus pre-runtime item.
    NoAuthorDigest,
    /// The Nimbus pre-runtime item does not hold a Nimbus key.
    InvalidNimbusId,
    /// No account is mapped to the Nimbus key.
    UnmappedNimbusId,
    /// The account of the author.
    Found(A),
}

/// What looking for the block author in `logs` finds.
pub open spec fn author_search<A, L: AccountLookup<A>>(lookup: L, logs: Seq<DigestItem>) -> AuthorSearch<A> {
    match nimbus_pre_runtime(logs) {
        None => AuthorSearch::NoAuthorDigest,
        Some(data) => {
            if data.len() < 32 {
                AuthorSearch::InvalidNimbusId
            } else {
                match lookup.spec_lookup(data.subrange(0, 32)) {
                    None => AuthorSearch::UnmappedNimbusId,
                    Some(a) => AuthorSearch::Found(a),
                }
            }
        },
    }
}

/// The calls of the pallet.
#[derive(Clone, Copy, Debug, PartialEq, Eq, Structural)]
pub enum Call {
    /// Runs the author checks after the other inherents.
    KickOffAuthorshipValidation,
}

/// Errors of the pallet's calls.
#[derive(Clone, Copy, Debug, PartialEq, Eq, Structural)]
pub enum Error {
    /// The call was not dispatched as an inherent.
    BadOrigin,
    /// Author already set in block.
    AuthorAlreadySet,
    /// No account was found to be associated with this author.
    NoAccountId,
    /// The author in the inherent is not an eligible author.
    CannotBeAuthor,
}

/// Why the post-inherents checks declare a block invalid.
#[derive(Clone, Copy, Debug, PartialEq, Eq, Structural)]
pub enum PostInherentsFailure {
    /// The digest names no author.
    MissingAuthor,
    /// The digest does not hold a valid Nimbus key.
    InvalidNimbusId,
    /// No account is mapped to the author's Nimbus key.
    UnmappedNimbusId,
    /// The author may not author at this slot.
    AuthorNotEligible,
}

/// The error of the author inherent.
#[derive(Clone, Debug)]
pub enum InherentError {
    /// An error with a message.
    Other(String),
}

/// The message of the error that makes the author inherent required.
pub open spec fn required_message() -> Seq<char> {
    "Inherent required to manually initiate author validation"@
}

impl InherentError {
    /// Every error of the author inherent is fatal.
    pub fn is_fatal_error(&self) -> (r: bool)
        ensures
            r,
    {
        match self {
            InherentError::Other(_) => true,
        }
    }

    /// The SCALE encoding of the error: the variant index 0, then the
    /// message. [`Self::try_from`] decodes it back to the same message.
    pub fn encode(&self) -> (r: Vec<u8>)
        requires
            match self { InherentError::Other(m) => vstd::utf8::encode_utf8(m@).len() <= u32::MAX },
        ensures
            match self {
                InherentError::Other(m) => r@ == seq![0u8] + scale_encoded_string(m@)
                    && r@.len() > 0 && r@[0] == 0 && scale_string(r@.drop_first()) == Some(m@),
            },
    {
        match self {
            InherentError::Other(m) => {
                let mut r: Vec<u8> = Vec::new();
                r.push(0u8);
                let mut body = encode_string(m.as_str());
                let ghost b = body@;
                r.append(&mut body);
                proof {
                    assert(r@ == seq![0u8] + b);
                    assert(r@.drop_first() =~= b);
                }
                r
            },
        }
    }

    /// Decodes the error reported under inherent identifier `id`: `None`
    /// when `id` is not the author inherent's or `data` does not encode an
    /// error.
    pub fn try_from(id: &[u8; 8], data: &[u8]) -> (r: Option<InherentError>)
        ensures
            r is Some <==> (*id == INHERENT_IDENTIFIER && data@.len() > 0 && data@[0] == 0
                && scale_string(data@.drop_first()) is Some),
            r matches Some(InherentError::Other(s)) ==> s@ == scale_string(data@.drop_first())->Some_0,
    {
        if !same_identifier(id, &INHERENT_IDENTIFIER) {
            return None;
        }
        if data.len() == 0 || data[0] != 0 {
            return None;
        }
        let (_, rest) = data.split_at(1);
        proof {
            assert(rest@ == data@.drop_first());
        }
        match decode_string(rest) {
            Some(s) => Some(InherentError::Other(s)),
            None => None,
        }
    }
}

/// Whether two inherent identifiers are the same.
pub fn same_identifier(a: &[u8; 8], b: &[u8; 8]) -> (r: bool)
    ensures
        r == (*a == *b),
{
    let r = a[0] == b[0] && a[1] == b[1] && a[2] == b[2] && a[3] == b[3]
        && a[4] == b[4] && a[5] == b[5] && a[6] == b[6] && a[7] == b[7];
    proof {
        if r {
            assert(*a =~= *b);
        }
    }
    r
}

/// Storage of the pallet.
#[derive(Clone, Copy, Debug)]
pub struct Pallet<A> {
    /// Author of the current block.
    pub author: Option<A>,
    /// Whether the author inherent was included in the current block.
    pub inherent_included: bool,
}

impl<A: Copy> Pallet<A> {
    /// The pallet of a new chain.
    pub fn new() -> (p: Pallet<A>)
        ensures
            p.author is None,
            !p.inherent_included,
    {
        Pallet { author: None, inherent_included: false }
    }

    /// Starts a block: forgets the previous author.
    pub fn on_initialize(&mut self, db: &RuntimeDbWeight) -> (w: Weight)
        ensures
            final(self).author is None,
            final(self).inherent_included == old(self).inherent_included,
            w == db.spec_reads_writes(1, 2),
    {
        self.author = None;
        db.reads_writes(1, 2)
    }

    /// Ends a block, which must have included the author inherent.
    pub fn on_finalize(&mut self)
        requires
            old(self).inherent_included,
        ensures
            !final(self).inherent_included,
            final(self).author == old(self).author,
    {
        self.inherent_included = false;
    }

    /// What looking for the author in `logs` finds.
    pub fn search_author<L: AccountLookup<A>>(lookup: &L, logs: &Vec<DigestItem>) -> (r: AuthorSearch<A>)
        ensures
            r == author_search(*lookup, logs@),
    {
        let mut i: usize = 0;
        while i < logs.len()
            invariant
                i <= logs@.len(),
                nimbus_pre_runtime(logs@) == nimbus_pre_runtime_from(logs@, i as int),
            decreases logs@.len() - i,
        {
            match &logs[i] {
                DigestItem::PreRuntime(id, data) => {
                    if same_engine_id(id, &NIMBUS_ENGINE_ID) {
                        return match decode_fixed::<32>(data.as_slice()) {
                            None => AuthorSearch::InvalidNimbusId,
                            Some(nimbus_id) => match lookup.lookup_account(&nimbus_id) {
                                None => AuthorSearch::UnmappedNimbusId,
                                Some(a) => AuthorSearch::Found(a),
                            },
                        };
                    }
                },
                _ => {},
            }
            i = i + 1;
        }
        AuthorSearch::NoAuthorDigest
    }

    /// The author named by the first Nimbus pre-runtime item of `logs`, or
    /// `None` when there is none. That item must hold a Nimbus key mapped to
    /// an account.
    pub fn find_author<L: AccountLookup<A>>(lookup: &L, logs: &Vec<DigestItem>) -> (r: Option<A>)
        requires
            author_search(*lookup, logs@) is NoAuthorDigest || author_search(*lookup, logs@) is Found,
        ensures
            r is None <==> author_search(*lookup, logs@) is NoAuthorDigest,
            r matches Some(a) ==> author_search(*lookup, logs@) == AuthorSearch::Found(a),
    {
        match Self::search_author(lookup, logs) {
            AuthorSearch::Found(a) => Some(a),
            _ => None,
        }
    }

    /// Why [`Self::post_inherents`] would reject the block, if it would.
    pub fn post_inherents_failure<L: AccountLookup<A>, C: CanAuthor<A>>(
        lookup: &L,
        can_author: &C,
        logs: &Vec<DigestItem>,
        slot: u32,
    ) -> (r: Option<PostInherentsFailure>)
        ensures
            r == post_inherents_failure_spec(*lookup, *can_author, logs@, slot),
    {
        match Self::search_author(lookup, logs) {
            AuthorSearch::NoAuthorDigest => Some(PostInherentsFailure::MissingAuthor),
            AuthorSearch::InvalidNimbusId => Some(PostInherentsFailure::InvalidNimbusId),
            AuthorSearch::UnmappedNimbusId => Some(PostInherentsFailure::UnmappedNimbusId),
            AuthorSearch::Found(a) => {
                if can_author.can_author(&a, &slot) { None } else { Some(PostInherentsFailure::AuthorNotEligible) }
            },
        }
    }

    /// After the inherents: records the author named in the digest `logs`,
    /// who must be eligible at `slot`.
    pub fn post_inherents<L: AccountLookup<A>, C: CanAuthor<A>>(
        &mut self,
        lookup: &L,
        can_author: &C,
        logs: &Vec<DigestItem>,
        slot: u32,
    )
        requires
            post_inherents_failure_spec(*lookup, *can_author, logs@, slot) is None,
        ensures
            (author_search(*lookup, logs@) matches AuthorSearch::Found(a) && final(self).author == Some(a)),
            final(self).inherent_included == old(self).inherent_included,
    {
        match Self::search_author(lookup, logs) {
            AuthorSearch::Found(a) => { self.author = Some(a); },
            _ => {},
        }
    }

    /// The author inherent: checks that the recorded author may author at
    /// `slot` and marks the inherent as included. Only an inherent (no
    /// origin) may dispatch it; the author must be recorded and eligible.
    pub fn kick_off_authorship_validation<C: CanAuthor<A>>(
        &mut self,
        can_author: &C,
        origin: Origin,
        slot: u32,
    ) -> (r: Result<(), Error>)
        requires
            origin is Unsigned ==> (old(self).author matches Some(a) && can_author.spec_can_author(a, slot)),
        ensures
            !(origin is Unsigned) ==> r == Err::<(), Error>(Error::BadOrigin)
                && *final(self) == *old(self),
            origin is Unsigned ==> r is Ok && final(self).inherent_included
                && final(self).author == old(self).author,
    {
        match origin {
            Origin::Unsigned => {},
            _ => { return Err(Error::BadOrigin); },
        }
        let author = self.get();
        let _eligible = can_author.can_author(&author, &slot);
        self.inherent_included = true;
        Ok(())
    }

    /// The recorded author of the current block, which must be recorded.
    pub fn get(&self) -> (a: A)
        requires
            self.author is Some,
        ensures
            self.author == Some(a),
    {
        self.author.unwrap()
    }

    /// Whether the holder of Nimbus key `author` may author at `slot`: keys
    /// with no account may not.
    pub fn can_author<L: AccountLookup<A>, C: CanAuthor<A>>(lookup: &L, can_author: &C, author: &[u8; 32], slot: &u32) -> (r: bool)
        ensures
            r == match lookup.spec_lookup(author@) {
                Some(a) => can_author.spec_can_author(a, *slot),
                None => false,
            },
    {
        match lookup.lookup_account(author) {
            Some(account) => can_author.can_author(&account, slot),
            None => false,
        }
    }
}

/// The first reason for which the post-inherents checks reject a block.
pub open spec fn post_inherents_failure_spec<A, L: AccountLookup<A>, C: CanAuthor<A>>(
    lookup: L,
    can_author: C,
    logs: Seq<DigestItem>,
    slot: u32,
) -> Option<PostInherentsFailure> {
    match author_search(lookup, logs) {
        AuthorSearch::NoAuthorDigest => Some(PostInherentsFailure::MissingAuthor),
        AuthorSearch::InvalidNimbusId => Some(PostInherentsFailure::InvalidNimbusId),
        AuthorSearch::UnmappedNimbusId => Some(PostInherentsFailure::UnmappedNimbusId),
        AuthorSearch::Found(a) => if can_author.spec_can_author(a, slot) { None } else { Some(PostInherentsFailure::AuthorNotEligible) },
    }
}

/// A block passes the post-inherents checks exactly when the digest names
/// an author (with a valid, mapped Nimbus key) who may author at the slot;
/// that author is the one `find_author` finds.
pub proof fn lemma_post_inherents_accepts_found_eligible_author<A, L: AccountLookup<A>, C: CanAuthor<A>>(
    lookup: L,
    can_author: C,
    logs: Seq<DigestItem>,
    slot: u32,
)
    ensures
        post_inherents_failure_spec(lookup, can_author, logs, slot) is None <==>
            (author_search(lookup, logs) matches AuthorSearch::Found(a) && can_author.spec_can_author(a, slot)),
{
}

/// The author the collator names in the pre-runtime digest is the author
/// the runtime finds: a digest that starts with the Nimbus pre-runtime item
/// of `author` yields that key, whatever follows it.
pub proof fn lemma_pre_digest_names_the_author(item: DigestItem, author: [u8; 32], rest: Seq<DigestItem>)
    requires
        is_nimbus_pre_digest_of(item, author@),
    ensures
        nimbus_pre_runtime(seq![item] + rest) == Some(author@),
        author_search(IdentityLookup, seq![item] + rest) == AuthorSearch::Found(author),
{
    let logs = seq![item] + rest;
    assert(logs[0] == item);
    match item {
        DigestItem::PreRuntime(id, data) => {
            assert(data@.subrange(0, 32) =~= author@);
            let c = choose|a: [u8; 32]| a@ == author@;
            assert(c@ == author@);
            assert(c =~= author);
        },
        _ => {},
    }
}

/// Inherent provision of the pallet.
pub struct AuthorInherentProvider;

impl AuthorInherentProvider {
    /// The author inherent is required in every block: the answer carries
    /// the error to report when it is missing.
    pub fn is_inherent_required() -> (r: Result<Option<InherentError>, InherentError>)
        ensures
            (r matches Ok(Some(InherentError::Other(s))) && s@ == required_message()),
    {
        let s = String::from_str("Inherent required to manually initiate author validation");
        proof {
            reveal_strlit("Inherent required to manually initiate author validation");
        }
        Ok(Some(InherentError::Other(s)))
    }

    /// The inherent to put in every block, whatever the inherent data.
    pub fn create_inherent() -> (r: Option<Call>)
        ensures
            r == Some(Call::KickOffAuthorshipValidation),
    {
        Some(Call::KickOffAuthorshipValidation)
    }

    /// Whether `call` is the author inherent.
    pub fn is_inherent(call: &Call) -> (r: bool)
        ensures
            r == (*call == Call::KickOffAuthorshipValidation),
    {
        match call {
            Call::KickOffAuthorshipValidation => true,
        }
    }
}

/// Weights of the pallet's calls.
pub trait WeightInfo {
    /// Weight of the author inherent.
    spec fn spec_kick_off_authorship_validation(&self) -> Weight;

    /// Weight of the author inherent.
    fn kick_off_authorship_validation(&self) -> (w: Weight)
        ensures
            w == self.spec_kick_off_authorship_validation(),
    ;
}

/// Measured weights, with the runtime's database cost model: the author
/// inherent reads six storage items and writes one (the highest slot seen).
#[derive(Clone, Copy, Debug, PartialEq, Eq, Structural)]
pub struct SubstrateWeight {
    pub db: RuntimeDbWeight,
}

/// Measured weights, with the RocksDB cost model.
#[derive(Clone, Copy, Debug, PartialEq, Eq, Structural)]
pub struct RocksDbWeight;

/// The measured execution part of the author inherent's weight.
pub open spec fn kick_off_base() -> Weight {
    Weight { ref_time: 26_398_000, proof_size: 10418 }
}

impl WeightInfo for SubstrateWeight {
    open spec fn spec_kick_off_authorship_validation(&self) -> Weight {
        kick_off_base().spec_saturating_add(self.db.spec_reads(6)).spec_saturating_add(self.db.spec_writes(1))
    }

    fn kick_off_authorship_validation(&self) -> (w: Weight) {
        Weight::from_parts(26_398_000, 10418)
            .saturating_add(self.db.reads(6))
            .saturating_add(self.db.writes(1))
    }
}

impl WeightInfo for RocksDbWeight {
    open spec fn spec_kick_off_authorship_validation(&self) -> Weight {
        kick_off_base()
            .spec_saturating_add(RuntimeDbWeight { read: crate::weights::ROCKS_DB_READ, write: crate::weights::ROCKS_DB_WRITE }.spec_reads(6))
            .spec_saturating_add(RuntimeDbWeight { read: crate::weights::ROCKS_DB_READ, write: crate::weights::ROCKS_DB_WRITE }.spec_writes(1))
    }

    fn kick_off_authorship_validation(&self) -> (w: Weight) {
        let db = RuntimeDbWeight::rocks_db();
        Weight::from_parts(26_398_000, 10418)
            .saturating_add(db.reads(6))
            .saturating_add(db.writes(1))
    }
}

/// Why the Nimbus velocity hook declares a block invalid.
#[derive(Clone, Copy, Debug, PartialEq, Eq, Structural)]
pub enum VelocityFailure {
    /// The number of authored blocks does not fit the counter.
    AuthoredCountOverflow,
    /// The velocity limit does not fit the counter.
    VelocityOverflow,
    /// More blocks than the velocity allows were authored in the slot.
    AuthoredLimitReached,
}

/// Blocks authored in the highest slot, counting the current one when it is
/// in that slot.
pub open spec fn authored_with_current(highest_slot_info: Option<(u32, u32)>, beacon_slot: u32) -> int {
    let (slot, authored) = match highest_slot_info { Some(x) => x, None => (0u32, 0u32) };
    if beacon_slot == slot { authored + 1 } else { authored as int }
}

/// The first reason for which the velocity hook rejects a block.
pub open spec fn velocity_failure(highest_slot_info: Option<(u32, u32)>, beacon_slot: u32, v: u32) -> Option<VelocityFailure> {
    if authored_with_current(highest_slot_info, beacon_slot) > u32::MAX {
        Some(VelocityFailure::AuthoredCountOverflow)
    } else if at_least_one(v) == u32::MAX {
        Some(VelocityFailure::VelocityOverflow)
    } else if authored_with_current(highest_slot_info, beacon_slot) > at_least_one(v) + 1 {
        Some(VelocityFailure::AuthoredLimitReached)
    } else {
        None
    }
}

/// The consensus hook that lets at most `V + 1` blocks (with `V` at least
/// 1) be authored per Nimbus slot, and gives the unincluded segment a
/// capacity of `C` (at least 1).
pub struct NimbusVelocityConsensusHook<const RELAY_CHAIN_SLOT_DURATION_MILLIS: u32, const V: u32, const C: u32>;

impl<const RELAY_CHAIN_SLOT_DURATION_MILLIS: u32, const V: u32, const C: u32>
    NimbusVelocityConsensusHook<RELAY_CHAIN_SLOT_DURATION_MILLIS, V, C> {

    /// Why [`Self::on_state_proof`] would reject the block, if it would.
    /// `highest_slot_info` is the highest slot seen with the blocks authored
    /// in it, `beacon_slot` the slot of the current block.
    pub fn on_state_proof_failure(highest_slot_info: Option<(u32, u32)>, beacon_slot: u32) -> (r: Option<VelocityFailure>)
        ensures
            r == velocity_failure(highest_slot_info, beacon_slot, V),
    {
        let velocity = max_one(V);
        let (slot, authored) = match highest_slot_info { Some(x) => x, None => (0u32, 0u32) };
        let mut count: u32 = authored;
        if beacon_slot == slot {
            if authored == u32::MAX {
                return Some(VelocityFailure::AuthoredCountOverflow);
            }
            count = authored + 1;
        }
        if velocity == u32::MAX {
            return Some(VelocityFailure::VelocityOverflow);
        }
        if count > velocity + 1 {
            return Some(VelocityFailure::AuthoredLimitReached);
        }
        None
    }

    /// Validates the number of blocks authored in the slot against the
    /// `V + 1` limit; returns the weight used and the capacity of the
    /// unincluded segment.
    pub fn on_state_proof(highest_slot_info: Option<(u32, u32)>, beacon_slot: u32, db: &RuntimeDbWeight) -> (r: (Weight, u32))
        requires
            velocity_failure(highest_slot_info, beacon_slot, V) is None,
        ensures
            r.0 == db.spec_reads(1),
            r.1 == at_least_one(C),
    {
        (db.reads(1), max_one(C))
    }

    /// Whether it is legal to extend the chain at `new_slot`, with an
    /// unincluded segment of `size_after_included` blocks after the included
    /// one.
    pub fn can_build_upon(highest_slot_info: Option<(u32, u32)>, size_after_included: u32, new_slot: u64) -> (r: bool)
        ensures
            r == can_build_upon_spec(
                match highest_slot_info { Some((s, a)) => Some((s as u64, a)), None => None },
                size_after_included, new_slot, V, C),
    {
        let velocity = max_one(V);
        let (last_slot, authored_so_far) = match highest_slot_info {
            None => { return true; },
            Some(x) => x,
        };
        if size_after_included >= C {
            return false;
        }
        if last_slot as u64 == new_slot {
            (authored_so_far as u64) < (velocity as u64) + 1
        } else {
            (last_slot as u64) < new_slot
        }
    }
}

} // verus!
