//! The relay-storage-roots pallet: remembers the state roots of the most
//! recent relay chain blocks, dropping the oldest beyond a fixed number.

use vstd::prelude::*;

verus! {

/// The relay chain state a parachain block is built against.
#[derive(Clone, Copy, Debug)]
pub struct RelayChainState {
    /// The relay chain block number.
    pub number: u32,
    /// The relay chain state root at that block.
    pub state_root: [u8; 32],
}

/// Whether no relay block number occurs twice in `entries`.
pub open spec fn distinct_numbers(entries: Seq<(u32, [u8; 32])>) -> bool {
    forall|i: int, j: int| 0 <= i < entries.len() && 0 <= j < entries.len() && i != j
        ==> #[trigger] entries[i].0 != #[trigger] entries[j].0
}

/// Whether relay block `number` occurs in `entries`.
pub open spec fn has_number(entries: Seq<(u32, [u8; 32])>, number: u32) -> bool {
    exists|i: int| 0 <= i < entries.len() && #[trigger] entries[i].0 == number
}

/// What storing `state` does to `entries`, keeping at most
/// `max_storage_roots` of them.
pub open spec fn stored_after(entries: Seq<(u32, [u8; 32])>, max_storage_roots: u32, state: RelayChainState) -> Seq<(u32, [u8; 32])> {
    if has_number(entries, state.number) {
        entries
    } else {
        let pushed = entries.push((state.number, state.state_root));
        if pushed.len() > max_storage_roots { pushed.drop_first() } else { pushed }
    }
}

/// The stored relay state roots, oldest first, each relay block once.
#[derive(Clone, Debug)]
pub struct Pallet {
    entries: Vec<(u32, [u8; 32])>,
}

impl Pallet {
    /// The stored (relay block number, state root) pairs, oldest first.
    pub closed spec fn entries(&self) -> Seq<(u32, [u8; 32])> {
        self.entries@
    }

    /// The storage invariant: no relay block occurs twice.
    pub open spec fn well_formed(&self) -> bool {
        distinct_numbers(self.entries())
    }

    /// Empty storage.
    pub fn new() -> (s: Pallet)
        ensures
            s.entries() == Seq::<(u32, [u8; 32])>::empty(),
            s.well_formed(),
    {
        Pallet { entries: Vec::new() }
    }

    /// The number of stored roots.
    pub fn len(&self) -> (n: usize)
        ensures
            n == self.entries().len(),
    {
        self.entries.len()
    }

    /// The stored relay block numbers, oldest first.
    pub fn keys(&self) -> (keys: Vec<u32>)
        ensures
            keys@ == self.entries().map_values(|e: (u32, [u8; 32])| e.0),
    {
        let mut keys: Vec<u32> = Vec::new();
        let mut i: usize = 0;
        while i < self.entries.len()
            invariant
                i <= self.entries@.len(),
                keys@ == self.entries@.take(i as int).map_values(|e: (u32, [u8; 32])| e.0),
            decreases self.entries@.len() - i,
        {
            keys.push(self.entries[i].0);
            proof {
                assert(self.entries@.take(i + 1) == self.entries@.take(i as int).push(self.entries@[i as int]));
            }
            i = i + 1;
        }
        proof {
            assert(self.entries@.take(self.entries@.len() as int) == self.entries@);
        }
        keys
    }

    /// The state root stored for relay block `number`, if any.
    pub fn get(&self, number: u32) -> (r: Option<[u8; 32]>)
        requires
            self.well_formed(),
        ensures
            r is None <==> !has_number(self.entries(), number),
            r matches Some(root) ==> exists|i: int| 0 <= i < self.entries().len()
                && #[trigger] self.entries()[i] == (number, root),
    {
        let mut i: usize = 0;
        while i < self.entries.len()
            invariant
                i <= self.entries@.len(),
                forall|j: int| 0 <= j < i ==> #[trigger] self.entries@[j].0 != number,
            decreases self.entries@.len() - i,
        {
            if self.entries[i].0 == number {
                return Some(self.entries[i].1);
            }
            i = i + 1;
        }
        None
    }

    /// Whether a root is stored for relay block `number`.
    pub fn contains_key(&self, number: u32) -> (r: bool)
        ensures
            r == has_number(self.entries(), number),
    {
        let mut i: usize = 0;
        while i < self.entries.len()
            invariant
                i <= self.entries@.len(),
                forall|j: int| 0 <= j < i ==> #[trigger] self.entries@[j].0 != number,
            decreases self.entries@.len() - i,
        {
            if self.entries[i].0 == number {
                return true;
            }
            i = i + 1;
        }
        false
    }

    /// Stores the state root of `relay_state`, unless its block is already
    /// stored, and then drops the oldest root if more than
    /// `max_storage_roots` are stored.
    pub fn set_relay_storage_root(&mut self, max_storage_roots: u32, relay_state: RelayChainState)
        requires
            old(self).well_formed(),
            old(self).entries().len() < u32::MAX,
        ensures
            final(self).well_formed(),
            final(self).entries() == stored_after(old(self).entries(), max_storage_roots, relay_state),
    {
        if self.contains_key(relay_state.number) {
            return;
        }
        let ghost before = self.entries@;
        self.entries.push((relay_state.number, relay_state.state_root));
        proof {
            assert forall|i: int, j: int| 0 <= i < self.entries@.len() && 0 <= j < self.entries@.len() && i != j
                implies #[trigger] self.entries@[i].0 != #[trigger] self.entries@[j].0 by {
                if i < before.len() && j < before.len() {
                    assert(before[i] == self.entries@[i] && before[j] == self.entries@[j]);
                } else if i < before.len() {
                    assert(before[i] == self.entries@[i]);
                } else if j < before.len() {
                    assert(before[j] == self.entries@[j]);
                }
            }
        }
        if self.entries.len() as u64 > max_storage_roots as u64 {
            let _oldest = self.entries.remove(0);
            proof {
                let pushed = before.push((relay_state.number, relay_state.state_root));
                assert(self.entries@ == pushed.drop_first());
                assert forall|i: int, j: int| 0 <= i < self.entries@.len() && 0 <= j < self.entries@.len() && i != j
                    implies #[trigger] self.entries@[i].0 != #[trigger] self.entries@[j].0 by {
                    assert(self.entries@[i] == pushed[i + 1] && self.entries@[j] == pushed[j + 1]);
                }
            }
        }
    }
}

/// Storing keeps the stored roots within the limit, and keeps each relay
/// block once.
pub proof fn lemma_store_keeps_bound(entries: Seq<(u32, [u8; 32])>, max_storage_roots: u32, state: RelayChainState)
    requires
        entries.len() <= max_storage_roots,
    ensures
        stored_after(entries, max_storage_roots, state).len() <= max_storage_roots,
{
}

/// Storing the state of a relay block twice stores it once.
pub proof fn lemma_store_is_idempotent(entries: Seq<(u32, [u8; 32])>, max_storage_roots: u32, state: RelayChainState)
    requires
        entries.len() <= max_storage_roots,
    ensures
        stored_after(stored_after(entries, max_storage_roots, state), max_storage_roots, state)
            == stored_after(entries, max_storage_roots, state),
{
    let once = stored_after(entries, max_storage_roots, state);
    if !has_number(entries, state.number) && max_storage_roots >= 1 {
        let pushed = entries.push((state.number, state.state_root));
        let k = (once.len() - 1) as int;
        if pushed.len() > max_storage_roots {
            assert(once[k] == pushed[k + 1]);
        }
        assert(once[k].0 == state.number);
        assert(has_number(once, state.number));
    } else if !has_number(entries, state.number) {
        assert(entries.len() == 0);
        assert(once =~= Seq::<(u32, [u8; 32])>::empty());
        assert(stored_after(once, max_storage_roots, state) =~= Seq::<(u32, [u8; 32])>::empty());
    }
}

/// When the storage is full, storing a new relay block drops the oldest
/// stored root and appends the new one.
pub proof fn lemma_oldest_removed_first(entries: Seq<(u32, [u8; 32])>, max_storage_roots: u32, state: RelayChainState)
    requires
        entries.len() == max_storage_roots,
        max_storage_roots >= 1,
        !has_number(entries, state.number),
    ensures
        stored_after(entries, max_storage_roots, state) == entries.drop_first().push((state.number, state.state_root)),
{
    assert(stored_after(entries, max_storage_roots, state) =~= entries.drop_first().push((state.number, state.state_root)));
}

/// After storing, the state root of that relay block is stored (when at
/// least one root may be stored).
pub proof fn lemma_latest_root_is_stored(entries: Seq<(u32, [u8; 32])>, max_storage_roots: u32, state: RelayChainState)
    requires
        entries.len() <= max_storage_roots,
        max_storage_roots >= 1,
    ensures
        has_number(stored_after(entries, max_storage_roots, state), state.number),
{
    if !has_number(entries, state.number) {
        let once = stored_after(entries, max_storage_roots, state);
        let pushed = entries.push((state.number, state.state_root));
        let k = (once.len() - 1) as int;
        if pushed.len() > max_storage_roots {
            assert(once[k] == pushed[k + 1]);
        }
        assert(once[k].0 == state.number);
    }
}

} // verus!
