//! The decisions of the Nimbus collators: which key authors, which parent to
//! build on, whether the runtime lets the chain grow, how large a proof of
//! validity may be, and when the basic collator skips a request.

use vstd::prelude::*;
use crate::collator::SlotClaim;
use crate::digest::is_nimbus_pre_digest_of;
use crate::location_converter::bytes_to_vec;
use crate::slots::{spec_slot_from_timestamp, slot_from_timestamp};

verus! {

/// How deep the basic collator searches for a parent.
pub const PARENT_SEARCH_DEPTH: usize = 30;

/// How deep the lookahead collator searches for a parent.
pub const LOOKAHEAD_PARENT_SEARCH_DEPTH: usize = 10;

/// The scheduling lookahead of relay chains that do not report one.
pub const DEFAULT_SCHEDULING_LOOKAHEAD: u32 = 3;

/// Largest share of the proof-of-validity limit the basic collator uses, in
/// percent.
pub const MAX_POV_PERCENTAGE: u8 = 85;

/// Most blocks the lookahead collator builds on one relay parent.
pub const LOOKAHEAD_BLOCKS_PER_RELAY_PARENT: u32 = 2;

/// A block that may be built upon, `depth` blocks after the included one.
#[derive(Clone, Debug)]
pub struct PotentialParent<H> {
    pub header: H,
    pub hash: [u8; 32],
    pub depth: usize,
}

/// Whether position `j` holds the last of the deepest potential parents.
pub open spec fn is_last_deepest<H>(parents: Seq<PotentialParent<H>>, j: int) -> bool {
    &&& 0 <= j < parents.len()
    &&& forall|k: int| 0 <= k < parents.len() ==> #[trigger] parents[k].depth <= parents[j].depth
    &&& forall|k: int| j < k < parents.len() ==> #[trigger] parents[k].depth < parents[j].depth
}

/// Whether position `j` holds the first potential parent of depth 0 (the
/// included block).
pub open spec fn is_first_included<H>(parents: Seq<PotentialParent<H>>, j: int) -> bool {
    &&& 0 <= j < parents.len()
    &&& parents[j].depth == 0
    &&& forall|k: int| 0 <= k < j ==> #[trigger] parents[k].depth != 0
}

/// The position of the included block (the first of depth 0), if any.
pub fn included_block_index<H>(parents: &Vec<PotentialParent<H>>) -> (r: Option<usize>)
    ensures
        r is None <==> forall|k: int| 0 <= k < parents@.len() ==> #[trigger] parents@[k].depth != 0,
        r matches Some(j) ==> is_first_included(parents@, j as int),
{
    let mut i: usize = 0;
    while i < parents.len()
        invariant
            i <= parents@.len(),
            forall|k: int| 0 <= k < i ==> #[trigger] parents@[k].depth != 0,
        decreases parents@.len() - i,
    {
        if parents[i].depth == 0 {
            return Some(i);
        }
        i = i + 1;
    }
    None
}

/// The position of the last of the deepest potential parents, if any.
pub fn deepest_parent_index<H>(parents: &Vec<PotentialParent<H>>) -> (r: Option<usize>)
    ensures
        r is None <==> parents@.len() == 0,
        r matches Some(j) ==> is_last_deepest(parents@, j as int),
{
    if parents.len() == 0 {
        return None;
    }
    let mut best: usize = 0;
    let mut i: usize = 1;
    while i < parents.len()
        invariant
            1 <= i <= parents@.len(),
            best < i,
            forall|k: int| 0 <= k < i ==> #[trigger] parents@[k].depth <= parents@[best as int].depth,
            forall|k: int| best < k < i ==> #[trigger] parents@[k].depth < parents@[best as int].depth,
        decreases parents@.len() - i,
    {
        if parents[i].depth >= parents[best].depth {
            best = i;
        }
        i = i + 1;
    }
    Some(best)
}

/// The parent to build on: the positions of the included block and of the
/// last of the deepest potential parents; `None` when no block is included.
pub fn find_parent<H>(parents: &Vec<PotentialParent<H>>) -> (r: Option<(usize, usize)>)
    ensures
        r is None <==> forall|k: int| 0 <= k < parents@.len() ==> #[trigger] parents@[k].depth != 0,
        r matches Some((i, j)) ==> is_first_included(parents@, i as int) && is_last_deepest(parents@, j as int),
{
    match included_block_index(parents) {
        None => None,
        Some(i) => match deepest_parent_index(parents) {
            Some(j) => Some((i, j)),
            None => None,
        },
    }
}

/// How far back to look for parents: the scheduling lookahead (or the
/// default one) minus one, not below zero.
pub fn ancestry_lookback(scheduling_lookahead: Option<u32>) -> (n: usize)
    ensures
        n == match scheduling_lookahead {
            Some(l) => if l >= 1 { l - 1 } else { 0 },
            None => DEFAULT_SCHEDULING_LOOKAHEAD - 1,
        },
{
    let l = match scheduling_lookahead {
        Some(l) => l,
        None => DEFAULT_SCHEDULING_LOOKAHEAD,
    };
    l.saturating_sub(1) as usize
}

/// The scheduling lookahead of the relay chain: only relay runtimes whose
/// parachain host API has version `requirement` or more report one (an
/// unknown version counts as 0); `fetched` is what the relay chain answered.
pub fn scheduling_lookahead(parachain_host_version: Option<u32>, requirement: u32, fetched: Option<u32>) -> (r: Option<u32>)
    ensures
        r == if match parachain_host_version { Some(v) => v, None => 0 } < requirement { None } else { fetched },
{
    let version = match parachain_host_version {
        Some(v) => v,
        None => 0,
    };
    if version < requirement {
        return None;
    }
    fetched
}

/// The cores assigned to `para_id` among the (core, parachain) claims at
/// one depth of the claim queue, in order.
pub fn cores_scheduled_for_para(claims: &Vec<(u32, u32)>, para_id: u32) -> (cores: Vec<u32>)
    ensures
        cores@ == claims@.filter(|c: (u32, u32)| c.1 == para_id).map_values(|c: (u32, u32)| c.0),
{
    let mut cores: Vec<u32> = Vec::new();
    let mut i: usize = 0;
    while i < claims.len()
        invariant
            i <= claims@.len(),
            cores@ == claims@.take(i as int).filter(|c: (u32, u32)| c.1 == para_id).map_values(|c: (u32, u32)| c.0),
        decreases claims@.len() - i,
    {
        let (core, para) = claims[i];
        proof {
            assert(claims@.take(i + 1) =~= claims@.take(i as int).push(claims@[i as int]));
            reveal_with_fuel(Seq::filter, 1);
            assert(claims@.take(i + 1).drop_last() =~= claims@.take(i as int));
        }
        if para == para_id {
            cores.push(core);
            proof {
                assert(cores@ =~= claims@.take(i + 1).filter(|c: (u32, u32)| c.1 == para_id).map_values(|c: (u32, u32)| c.0));
            }
        }
        i = i + 1;
    }
    proof {
        assert(claims@.take(claims@.len() as int) =~= claims@);
    }
    cores
}

/// Whether one of the availability cores (given by the parachain each is
/// assigned to, if any) is assigned to `para_id`.
pub fn is_para_scheduled(core_para_ids: &Vec<Option<u32>>, para_id: u32) -> (r: bool)
    ensures
        r == exists|k: int| 0 <= k < core_para_ids@.len() && #[trigger] core_para_ids@[k] == Some(para_id),
{
    let mut i: usize = 0;
    while i < core_para_ids.len()
        invariant
            i <= core_para_ids@.len(),
            forall|k: int| 0 <= k < i ==> #[trigger] core_para_ids@[k] != Some(para_id),
        decreases core_para_ids@.len() - i,
    {
        match core_para_ids[i] {
            Some(p) => {
                if p == para_id {
                    return true;
                }
            },
            None => {},
        }
        i = i + 1;
    }
    false
}

/// How far back the lookahead collator looks for parents: the allowed
/// ancestry length of the relay chain's configuration, or 0 when it could
/// not be read.
pub fn max_ancestry_lookback(allowed_ancestry_len: Option<u32>) -> (n: usize)
    ensures
        n == match allowed_ancestry_len { Some(l) => l as int, None => 0 },
{
    match allowed_ancestry_len {
        Some(l) => l as usize,
        None => 0,
    }
}

/// The slot to ask the runtime about the unincluded segment: the relay
/// slot from version 2 of the API on, the parachain slot before.
pub fn unincluded_segment_slot(api_version: u32, relay_slot: u64, para_slot: u64) -> (s: u64)
    ensures
        s == if api_version > 1 { relay_slot } else { para_slot },
{
    if api_version > 1 { relay_slot } else { para_slot }
}

/// The claim the collator makes once it holds an author key: building on
/// the included block is always allowed; otherwise only when the runtime
/// answered that the chain may grow (`runtime_allows`, `None` when it could
/// not be asked).
pub fn claim_if_allowed(author: Option<[u8; 32]>, timestamp: u64, parent_is_included: bool, runtime_allows: Option<bool>)
    -> (r: Option<SlotClaim>)
    ensures
        r is Some <==> (author is Some && (parent_is_included || runtime_allows == Some(true))),
        r matches Some(c) ==> author == Some(c.spec_author_id()) && c.spec_timestamp() == timestamp
            && is_nimbus_pre_digest_of(c.spec_pre_digest(), c.spec_author_id()@),
{
    match author {
        None => None,
        Some(a) => {
            if parent_is_included || runtime_allows == Some(true) {
                Some(SlotClaim::unchecked(a, timestamp))
            } else {
                None
            }
        },
    }
}

/// Whether two 32-byte values are the same.
pub fn same_hash(a: &[u8; 32], b: &[u8; 32]) -> (r: bool)
    ensures
        r == (*a == *b),
{
    let mut i: usize = 0;
    while i < 32
        invariant
            i <= 32,
            forall|j: int| 0 <= j < i ==> a@[j] == b@[j],
        decreases 32 - i,
    {
        if a[i] != b[i] {
            return false;
        }
        i = i + 1;
    }
    proof {
        assert(*a =~= *b);
    }
    true
}

/// How the parachain code compares with the code the relay chain holds.
#[derive(Clone, Copy, Debug, PartialEq, Eq, Structural)]
pub enum ValidationCodeStatus {
    /// Same code hash.
    Matches,
    /// The relay chain holds another code.
    Mismatch,
    /// The relay chain holds no code for the parachain.
    Missing,
}

/// How the local validation code hash compares with the relay chain's.
pub fn validation_code_status(local: &[u8; 32], relay: Option<[u8; 32]>) -> (s: ValidationCodeStatus)
    ensures
        s == match relay {
            None => ValidationCodeStatus::Missing,
            Some(h) => if h == *local { ValidationCodeStatus::Matches } else { ValidationCodeStatus::Mismatch },
        },
{
    match relay {
        None => ValidationCodeStatus::Missing,
        Some(h) => if same_hash(&h, local) { ValidationCodeStatus::Matches } else { ValidationCodeStatus::Mismatch },
    }
}

/// The first key of the keystore, if it has any.
pub fn first_available_key(keys: &Vec<Vec<u8>>) -> (r: Option<Vec<u8>>)
    ensures
        keys@.len() == 0 ==> r is None,
        keys@.len() > 0 ==> (r matches Some(k) && k@ == keys@[0]@),
{
    if keys.len() == 0 {
        None
    } else {
        Some(bytes_to_vec(keys[0].as_slice()))
    }
}

/// Whether key `i` may author: it is a Nimbus key (32 bytes) and the
/// runtime said it is eligible.
pub open spec fn key_eligible(keys: Seq<Vec<u8>>, eligible: Seq<bool>, i: int) -> bool {
    keys[i]@.len() == 32 && eligible[i]
}

/// The first key that may author, given the runtime's eligibility answer
/// for each key.
pub fn first_eligible_key(keys: &Vec<Vec<u8>>, eligible: &Vec<bool>) -> (r: Option<Vec<u8>>)
    requires
        eligible@.len() == keys@.len(),
    ensures
        r is None <==> forall|i: int| 0 <= i < keys@.len() ==> !#[trigger] key_eligible(keys@, eligible@, i),
        r matches Some(k) ==> exists|i: int| 0 <= i < keys@.len() && #[trigger] key_eligible(keys@, eligible@, i)
            && k@ == keys@[i]@ && forall|j: int| 0 <= j < i ==> !#[trigger] key_eligible(keys@, eligible@, j),
{
    let mut i: usize = 0;
    while i < keys.len()
        invariant
            eligible@.len() == keys@.len(),
            i <= keys@.len(),
            forall|j: int| 0 <= j < i ==> !#[trigger] key_eligible(keys@, eligible@, j),
        decreases keys@.len() - i,
    {
        if keys[i].len() == 32 && eligible[i] {
            let k = bytes_to_vec(keys[i].as_slice());
            proof {
                assert(key_eligible(keys@, eligible@, i as int));
            }
            return Some(k);
        }
        i = i + 1;
    }
    None
}

/// Why claiming a slot failed.
#[derive(Clone, Copy, Debug, PartialEq, Eq, Structural)]
pub enum ClaimError {
    /// The chosen key is not a Nimbus key (wrong length).
    InvalidNimbusId,
}

/// The Nimbus key of the chosen bytes, which must have the right length.
pub fn nimbus_id_from_slice(key: &Vec<u8>) -> (r: Result<[u8; 32], ClaimError>)
    ensures
        key@.len() != 32 ==> r == Err::<[u8; 32], ClaimError>(ClaimError::InvalidNimbusId),
        key@.len() == 32 ==> (r matches Ok(id) && id@ == key@),
{
    if key.len() != 32 {
        return Err(ClaimError::InvalidNimbusId);
    }
    let mut id: [u8; 32] = [0u8; 32];
    let mut i: usize = 0;
    while i < 32
        invariant
            i <= 32,
            key@.len() == 32,
            forall|j: int| 0 <= j < i ==> id@[j] == key@[j],
        decreases 32 - i,
    {
        id[i] = key[i];
        i = i + 1;
    }
    proof {
        assert(id@ =~= key@);
    }
    Ok(id)
}

/// The author key of a new block: the first key of the keystore when
/// prediction is skipped or the runtime was just upgraded, the first
/// eligible key otherwise; `None` when there is no such key.
pub fn claim_slot(keys: &Vec<Vec<u8>>, eligible: &Vec<bool>, skip_prediction: bool, runtime_upgraded: bool)
    -> (r: Result<Option<[u8; 32]>, ClaimError>)
    requires
        eligible@.len() == keys@.len(),
    ensures
        (skip_prediction || runtime_upgraded) ==> (
            keys@.len() == 0 ==> r matches Ok(None)
        ) && (
            keys@.len() > 0 ==> if keys@[0]@.len() == 32 {
                r matches Ok(Some(id)) && id@ == keys@[0]@
            } else {
                r == Err::<Option<[u8; 32]>, ClaimError>(ClaimError::InvalidNimbusId)
            }
        ),
        !(skip_prediction || runtime_upgraded) ==> (
            (forall|i: int| 0 <= i < keys@.len() ==> !#[trigger] key_eligible(keys@, eligible@, i)) <==> r matches Ok(None)
        ) && (
            r matches Ok(Some(id)) ==> exists|i: int| 0 <= i < keys@.len() && #[trigger] key_eligible(keys@, eligible@, i)
                && id@ == keys@[i]@ && forall|j: int| 0 <= j < i ==> !#[trigger] key_eligible(keys@, eligible@, j)
        ) && r is Ok,
{
    let maybe_key = if skip_prediction || runtime_upgraded {
        first_available_key(keys)
    } else {
        first_eligible_key(keys, eligible)
    };
    match maybe_key {
        Some(key) => match nimbus_id_from_slice(&key) {
            Ok(id) => Ok(Some(id)),
            Err(e) => Err(e),
        },
        None => Ok(None),
    }
}

/// The parachain slot of a relay chain block: the slot of its timestamp
/// when the parachain has a slot duration, the relay slot otherwise.
pub fn para_slot(relay_slot: u64, relay_timestamp: u64, slot_duration: Option<u64>) -> (s: u64)
    requires
        slot_duration matches Some(d) ==> d > 0,
    ensures
        s == match slot_duration {
            Some(d) => spec_slot_from_timestamp(relay_timestamp, d),
            None => relay_slot,
        },
{
    match slot_duration {
        Some(d) => slot_from_timestamp(relay_timestamp, d),
        None => relay_slot,
    }
}

/// The proof-of-validity size the basic collator allows: the given share of
/// the relay chain's limit, the share capped at 85 percent.
pub open spec fn spec_allowed_pov_size(max_pov_size: u32, max_pov_percentage: u8) -> int {
    let p = if max_pov_percentage < MAX_POV_PERCENTAGE { max_pov_percentage } else { MAX_POV_PERCENTAGE };
    (max_pov_size as int * p as int) / 100
}

/// The proof-of-validity size the basic collator allows.
pub fn allowed_pov_size(max_pov_size: u32, max_pov_percentage: u8) -> (n: usize)
    ensures
        n as int == spec_allowed_pov_size(max_pov_size, max_pov_percentage),
{
    let capped = if max_pov_percentage < MAX_POV_PERCENTAGE { max_pov_percentage } else { MAX_POV_PERCENTAGE };
    proof {
        assert((max_pov_size as int) * (capped as int) <= 4294967295 * 85) by (nonlinear_arith)
            requires capped <= 85, max_pov_size <= 4294967295;
    }
    let product: u64 = (max_pov_size as u64) * (capped as u64);
    proof {
        assert(product / 100 <= u32::MAX);
    }
    (product / 100) as usize
}

/// The proof-of-validity size the lookahead collator allows: half the
/// relay chain's limit.
pub fn lookahead_pov_size(max_pov_size: u32) -> (n: usize)
    ensures
        n as int == max_pov_size as int / 2,
{
    (max_pov_size / 2) as usize
}

/// What the basic collator remembers of the last request it built on: one
/// block per slot and per relay chain fork.
#[derive(Clone, Copy, Debug, PartialEq, Eq, Structural)]
pub struct BasicCollatorThrottle {
    pub last_processed_slot: u64,
    pub last_relay_chain_block: u32,
}

impl BasicCollatorThrottle {
    /// Nothing built yet.
    pub fn new() -> (t: BasicCollatorThrottle)
        ensures
            t.last_processed_slot == 0,
            t.last_relay_chain_block == 0,
    {
        BasicCollatorThrottle { last_processed_slot: 0, last_relay_chain_block: 0 }
    }

    /// Whether to skip a request at `slot_now` on relay block
    /// `relay_block_number`.
    pub open spec fn spec_should_skip(&self, slot_now: u64, relay_block_number: u32) -> bool {
        self.last_processed_slot >= slot_now && self.last_relay_chain_block < relay_block_number
    }

    /// Whether to skip a request at `slot_now` on relay block
    /// `relay_block_number`: the slot was already built on, on a lower relay
    /// block.
    pub fn should_skip(&self, slot_now: u64, relay_block_number: u32) -> (r: bool)
        ensures
            r == self.spec_should_skip(slot_now, relay_block_number),
    {
        self.last_processed_slot >= slot_now && self.last_relay_chain_block < relay_block_number
    }

    /// Records that the collator built (or tried to) at `slot_now` on relay
    /// block `relay_block_number`.
    pub fn record(&mut self, slot_now: u64, relay_block_number: u32)
        ensures
            final(self).last_processed_slot == slot_now,
            final(self).last_relay_chain_block == relay_block_number,
    {
        self.last_processed_slot = slot_now;
        self.last_relay_chain_block = relay_block_number;
    }
}

/// What the basic collator does with a collation request.
#[derive(Clone, Copy, Debug, PartialEq, Eq)]
pub enum BasicCollatorAction {
    /// Leave the request unanswered and wait for the next one.
    Skip,
    /// Build a block as `author` at parachain slot `slot`, with `timestamp`
    /// as the timestamp inherent and at most `pov_limit` bytes of proof.
    Build { author: [u8; 32], slot: u64, timestamp: u64, pov_limit: usize },
}

/// What the basic collator does with a request once it knows the key it
/// claimed the slot with (`author`, `None` when it holds no eligible key),
/// the relay slot and timestamp of the relay parent (`None` when the relay
/// parent carries none), the number of the relay parent and the relay
/// chain's proof-of-validity limit.
pub open spec fn spec_basic_collator_step(
    throttle: BasicCollatorThrottle,
    author: Option<[u8; 32]>,
    relay_slot_and_timestamp: Option<(u64, u64)>,
    slot_duration: Option<u64>,
    relay_block_number: u32,
    max_pov_size: u32,
    max_pov_percentage: u8,
) -> BasicCollatorAction {
    match (author, relay_slot_and_timestamp) {
        (Some(a), Some((relay_slot, timestamp))) => {
            let slot = match slot_duration {
                Some(d) => spec_slot_from_timestamp(timestamp, d),
                None => relay_slot,
            };
            if throttle.spec_should_skip(slot, relay_block_number) {
                BasicCollatorAction::Skip
            } else {
                BasicCollatorAction::Build {
                    author: a,
                    slot,
                    timestamp,
                    pov_limit: spec_allowed_pov_size(max_pov_size, max_pov_percentage) as usize,
                }
            }
        },
        _ => BasicCollatorAction::Skip,
    }
}

impl BasicCollatorThrottle {
    /// The decision of the basic collator on one request (see
    /// [`spec_basic_collator_step`]); after building, the collator records
    /// the slot and the relay parent number with [`Self::record`].
    pub fn step(
        &self,
        author: Option<[u8; 32]>,
        relay_slot_and_timestamp: Option<(u64, u64)>,
        slot_duration: Option<u64>,
        relay_block_number: u32,
        max_pov_size: u32,
        max_pov_percentage: u8,
    ) -> (action: BasicCollatorAction)
        requires
            slot_duration matches Some(d) ==> d > 0,
        ensures
            action == spec_basic_collator_step(*self, author, relay_slot_and_timestamp, slot_duration,
                relay_block_number, max_pov_size, max_pov_percentage),
    {
        let a = match author {
            None => { return BasicCollatorAction::Skip; },
            Some(a) => a,
        };
        let (relay_slot, timestamp) = match relay_slot_and_timestamp {
            None => { return BasicCollatorAction::Skip; },
            Some(x) => x,
        };
        let slot = para_slot(relay_slot, timestamp, slot_duration);
        if self.should_skip(slot, relay_block_number) {
            return BasicCollatorAction::Skip;
        }
        let pov_limit = allowed_pov_size(max_pov_size, max_pov_percentage);
        BasicCollatorAction::Build { author: a, slot, timestamp, pov_limit }
    }
}

/// What the lookahead collator builds on a new relay parent: the parachain
/// slot, the positions of the included block and of the parent to build on
/// among the potential parents, and the proof-of-validity limit.
#[derive(Clone, Copy, Debug, PartialEq, Eq, Structural)]
pub struct LookaheadPlan {
    pub slot: u64,
    pub included: usize,
    pub parent: usize,
    pub pov_limit: usize,
}

/// Whether `plan` is what the lookahead collator builds on a relay parent
/// where the parachain is scheduled, with proof-of-validity limit
/// `max_pov_size` and the given relay slot and timestamp, among `parents`.
pub open spec fn is_lookahead_plan<H>(
    plan: LookaheadPlan,
    max_pov_size: u32,
    relay_slot: u64,
    timestamp: u64,
    slot_duration: Option<u64>,
    parents: Seq<PotentialParent<H>>,
) -> bool {
    &&& plan.slot == match slot_duration {
        Some(d) => spec_slot_from_timestamp(timestamp, d),
        None => relay_slot,
    }
    &&& is_first_included(parents, plan.included as int)
    &&& is_last_deepest(parents, plan.parent as int)
    &&& plan.pov_limit == max_pov_size / 2
}

/// The plan of the lookahead collator on a new relay parent: none when the
/// parachain is not scheduled on a core (`scheduled`), when the relay chain
/// gave no proof-of-validity limit or no slot, or when no potential parent
/// is included.
pub fn lookahead_plan<H>(
    scheduled: bool,
    max_pov_size: Option<u32>,
    relay_slot_and_timestamp: Option<(u64, u64)>,
    slot_duration: Option<u64>,
    parents: &Vec<PotentialParent<H>>,
) -> (r: Option<LookaheadPlan>)
    requires
        slot_duration matches Some(d) ==> d > 0,
    ensures
        r is Some <==> scheduled && max_pov_size is Some && relay_slot_and_timestamp is Some
            && exists|k: int| 0 <= k < parents@.len() && #[trigger] parents@[k].depth == 0,
        r matches Some(plan) ==> is_lookahead_plan(plan, max_pov_size->Some_0,
            relay_slot_and_timestamp->Some_0.0, relay_slot_and_timestamp->Some_0.1, slot_duration, parents@),
{
    if !scheduled {
        return None;
    }
    let max_pov = match max_pov_size {
        None => { return None; },
        Some(m) => m,
    };
    let (relay_slot, timestamp) = match relay_slot_and_timestamp {
        None => { return None; },
        Some(x) => x,
    };
    let slot = para_slot(relay_slot, timestamp, slot_duration);
    match find_parent(parents) {
        None => None,
        Some((included, parent)) => {
            Some(LookaheadPlan { slot, included, parent, pov_limit: lookahead_pov_size(max_pov) })
        },
    }
}

/// How a collator asks for the parents it may build on: how far back in the
/// relay chain to look, how many blocks past the included one to go, and
/// whether to keep to the best branch.
#[derive(Clone, Copy, Debug, PartialEq, Eq, Structural)]
pub struct ParentSearchParams {
    pub ancestry_lookback: usize,
    pub max_depth: usize,
    pub ignore_alternative_branches: bool,
}

/// The parent search of the collators that build on the relay chain's
/// scheduling lookahead: back as far as the lookahead (or the default one)
/// minus one, [`PARENT_SEARCH_DEPTH`] blocks deep, on the best branch.
pub fn parent_search_params(scheduling_lookahead: Option<u32>) -> (p: ParentSearchParams)
    ensures
        p.ancestry_lookback == match scheduling_lookahead {
            Some(l) => if l >= 1 { l - 1 } else { 0 },
            None => DEFAULT_SCHEDULING_LOOKAHEAD - 1,
        },
        p.max_depth == PARENT_SEARCH_DEPTH,
        p.ignore_alternative_branches,
{
    ParentSearchParams {
        ancestry_lookback: ancestry_lookback(scheduling_lookahead),
        max_depth: PARENT_SEARCH_DEPTH,
        ignore_alternative_branches: true,
    }
}

/// The parent search of the lookahead collator: back as far as the relay
/// chain's allowed ancestry length (0 when it could not be read),
/// [`LOOKAHEAD_PARENT_SEARCH_DEPTH`] blocks deep, on the best branch.
pub fn lookahead_parent_search_params(allowed_ancestry_len: Option<u32>) -> (p: ParentSearchParams)
    ensures
        p.ancestry_lookback == match allowed_ancestry_len { Some(l) => l as int, None => 0 },
        p.max_depth == LOOKAHEAD_PARENT_SEARCH_DEPTH,
        p.ignore_alternative_branches,
{
    ParentSearchParams {
        ancestry_lookback: max_ancestry_lookback(allowed_ancestry_len),
        max_depth: LOOKAHEAD_PARENT_SEARCH_DEPTH,
        ignore_alternative_branches: true,
    }
}

/// The lookahead collator's building on one relay parent: how many blocks
/// it built, the parent of the next block, and whether a step failed.
#[derive(Clone, Copy, Debug)]
pub struct LookaheadRound<H> {
    pub built: u32,
    pub parent: H,
    pub stopped: bool,
}

impl<H: Copy> LookaheadRound<H> {
    /// A round that builds first on `initial_parent`, the parent the plan
    /// chose (see [`lookahead_plan`]).
    pub fn start(initial_parent: H) -> (r: LookaheadRound<H>)
        ensures
            r.built == 0,
            r.parent == initial_parent,
            !r.stopped,
    {
        LookaheadRound { built: 0, parent: initial_parent, stopped: false }
    }

    /// Whether the round may build another block: no step failed, and fewer
    /// than [`LOOKAHEAD_BLOCKS_PER_RELAY_PARENT`] blocks were built.
    pub open spec fn spec_may_build(&self) -> bool {
        !self.stopped && self.built < LOOKAHEAD_BLOCKS_PER_RELAY_PARENT
    }

    /// Whether the round may build another block, on [`Self::parent`].
    pub fn may_build(&self) -> (r: bool)
        ensures
            r == self.spec_may_build(),
    {
        !self.stopped && self.built < LOOKAHEAD_BLOCKS_PER_RELAY_PARENT
    }

    /// Records that `new_block` was built and announced: the next block is
    /// built on it.
    pub fn record_built(&mut self, new_block: H)
        requires
            old(self).spec_may_build(),
        ensures
            final(self).built == old(self).built + 1,
            final(self).built <= LOOKAHEAD_BLOCKS_PER_RELAY_PARENT,
            final(self).parent == new_block,
            final(self).stopped == old(self).stopped,
    {
        self.built = self.built + 1;
        self.parent = new_block;
    }

    /// Records that a step failed (the slot claim, the inherent data, the
    /// code hash or the collation): the round builds nothing more.
    pub fn record_failure(&mut self)
        ensures
            final(self).stopped,
            !final(self).spec_may_build(),
            final(self).built == old(self).built,
            final(self).parent == old(self).parent,
    {
        self.stopped = true;
    }
}

/// Once a request was built on at a slot, the basic collator skips every
/// later request at that slot (or an earlier one) on a later relay block.
pub proof fn lemma_basic_collator_builds_once_per_slot(
    throttle: BasicCollatorThrottle,
    author: [u8; 32],
    relay_slot_and_timestamp: (u64, u64),
    slot_duration: Option<u64>,
    relay_block_number: u32,
    max_pov_size: u32,
    max_pov_percentage: u8,
    next_author: Option<[u8; 32]>,
    next_relay_block_number: u32,
)
    requires
        spec_basic_collator_step(throttle, Some(author), Some(relay_slot_and_timestamp), slot_duration,
            relay_block_number, max_pov_size, max_pov_percentage) is Build,
        next_relay_block_number > relay_block_number,
    ensures
        ({
            let slot = spec_basic_collator_step(throttle, Some(author), Some(relay_slot_and_timestamp), slot_duration,
                relay_block_number, max_pov_size, max_pov_percentage)->slot;
            let after = BasicCollatorThrottle { last_processed_slot: slot, last_relay_chain_block: relay_block_number };
            spec_basic_collator_step(after, next_author, Some(relay_slot_and_timestamp), slot_duration,
                next_relay_block_number, max_pov_size, max_pov_percentage) == BasicCollatorAction::Skip
        }),
{
}

/// One block per slot and per relay chain fork: once the basic collator
/// built at a slot on a relay block, requests at that slot or an earlier one
/// on a later relay block are skipped, while requests at a later slot are
/// not.
pub proof fn lemma_one_block_per_slot(slot: u64, relay_block: u32, later_slot: u64, later_block: u32)
    ensures
        ({
            let t = BasicCollatorThrottle { last_processed_slot: slot, last_relay_chain_block: relay_block };
            &&& (later_slot <= slot && later_block > relay_block) ==> t.spec_should_skip(later_slot, later_block)
            &&& later_slot > slot ==> !t.spec_should_skip(later_slot, later_block)
        }),
{
}

/// The basic collator never uses more than 85 percent of the relay chain's
/// proof-of-validity limit.
pub proof fn lemma_pov_size_capped(max_pov_size: u32, max_pov_percentage: u8)
    ensures
        spec_allowed_pov_size(max_pov_size, max_pov_percentage) <= (max_pov_size as int * 85) / 100,
        spec_allowed_pov_size(max_pov_size, max_pov_percentage) <= max_pov_size,
{
    let p: int = if max_pov_percentage < MAX_POV_PERCENTAGE { max_pov_percentage as int } else { 85 };
    assert(max_pov_size as int * p <= max_pov_size as int * 85) by (nonlinear_arith)
        requires p <= 85, max_pov_size >= 0;
    vstd::arithmetic::div_mod::lemma_div_is_ordered(max_pov_size as int * p, max_pov_size as int * 85, 100);
    assert((max_pov_size as int * 85) / 100 <= max_pov_size) by (nonlinear_arith)
        requires max_pov_size >= 0;
}

} // verus!
