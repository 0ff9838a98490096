//! Inherent data (encoded values by 8-byte identifier) and the Nimbus
//! author inherent data provider.

use vstd::prelude::*;
use crate::author_inherent::{INHERENT_IDENTIFIER, same_identifier};

verus! {

/// Errors of inherent data and of its providers.
#[derive(Clone, Debug)]
pub enum InherentDataError {
    /// Data is already stored under this identifier.
    InherentDataExists([u8; 8]),
    /// An error of the application, with a message.
    Application(String),
}

/// The value stored under `id` in `entries`, looking from position `i`.
pub open spec fn entry_from(entries: Seq<([u8; 8], Vec<u8>)>, i: int, id: [u8; 8]) -> Option<Seq<u8>>
    decreases entries.len() - i,
{
    if i < 0 || i >= entries.len() {
        None
    } else if entries[i].0 == id {
        Some(entries[i].1@)
    } else {
        entry_from(entries, i + 1, id)
    }
}

proof fn lemma_entry_from_push(entries: Seq<([u8; 8], Vec<u8>)>, x: ([u8; 8], Vec<u8>), i: int, id: [u8; 8])
    requires
        0 <= i <= entries.len(),
    ensures
        entry_from(entries.push(x), i, id) == match entry_from(entries, i, id) {
            Some(v) => Some(v),
            None => if x.0 == id { Some(x.1@) } else { None },
        },
    decreases entries.len() - i,
{
    if i < entries.len() {
        assert(entries.push(x)[i] == entries[i]);
        lemma_entry_from_push(entries, x, i + 1, id);
    } else {
        assert(entries.push(x)[i] == x);
        assert(entry_from(entries.push(x), i + 1, id) == None::<Seq<u8>>);
    }
}

proof fn lemma_entry_from_update(entries: Seq<([u8; 8], Vec<u8>)>, j: int, x: ([u8; 8], Vec<u8>), i: int, id: [u8; 8])
    requires
        0 <= i <= entries.len(),
        0 <= j < entries.len(),
        entries[j].0 == x.0,
        forall|k: int| 0 <= k < entries.len() && k != j ==> #[trigger] entries[k].0 != x.0,
    ensures
        entry_from(entries.update(j, x), i, id) == if id == x.0 {
            if i <= j { Some(x.1@) } else { None }
        } else {
            entry_from(entries, i, id)
        },
    decreases entries.len() - i,
{
    if i < entries.len() {
        lemma_entry_from_update(entries, j, x, i + 1, id);
    }
}

proof fn lemma_entry_absent(entries: Seq<([u8; 8], Vec<u8>)>, i: int, id: [u8; 8])
    requires
        0 <= i <= entries.len(),
        entry_from(entries, i, id) is None,
    ensures
        forall|k: int| i <= k < entries.len() ==> #[trigger] entries[k].0 != id,
    decreases entries.len() - i,
{
    if i < entries.len() {
        lemma_entry_absent(entries, i + 1, id);
    }
}

proof fn lemma_entry_found(entries: Seq<([u8; 8], Vec<u8>)>, j: int, id: [u8; 8])
    requires
        0 <= j < entries.len(),
        entries[j].0 == id,
        forall|k: int| 0 <= k < j ==> #[trigger] entries[k].0 != id,
    ensures
        entry_from(entries, 0, id) == Some(entries[j].1@),
{
    lemma_entry_found_from(entries, j, id, 0);
}

proof fn lemma_entry_found_from(entries: Seq<([u8; 8], Vec<u8>)>, j: int, id: [u8; 8], i: int)
    requires
        0 <= i <= j < entries.len(),
        entries[j].0 == id,
        forall|k: int| 0 <= k < j ==> #[trigger] entries[k].0 != id,
    ensures
        entry_from(entries, i, id) == Some(entries[j].1@),
    decreases j - i,
{
    if i < j {
        lemma_entry_found_from(entries, j, id, i + 1);
    }
}

/// Whether no identifier occurs twice in `entries`.
pub open spec fn distinct_ids(entries: Seq<([u8; 8], Vec<u8>)>) -> bool {
    forall|i: int, j: int| 0 <= i < entries.len() && 0 <= j < entries.len() && i != j
        ==> #[trigger] entries[i].0 != #[trigger] entries[j].0
}

/// Encoded values by inherent identifier.
#[derive(Debug)]
pub struct InherentData {
    entries: Vec<([u8; 8], Vec<u8>)>,
}

impl InherentData {
    /// The encoded value stored under `id`.
    pub closed spec fn get(&self, id: [u8; 8]) -> Option<Seq<u8>> {
        entry_from(self.entries@, 0, id)
    }

    /// The invariant: no identifier is stored twice.
    pub closed spec fn well_formed(&self) -> bool {
        distinct_ids(self.entries@)
    }

    /// No data.
    pub fn new() -> (d: InherentData)
        ensures
            d.well_formed(),
            forall|id: [u8; 8]| d.get(id) is None,
    {
        InherentData { entries: Vec::new() }
    }

    /// The encoded value stored under `id`, if any.
    pub fn get_data(&self, id: &[u8; 8]) -> (r: Option<Vec<u8>>)
        ensures
            match (r, self.get(*id)) {
                (Some(v), Some(s)) => v@ == s,
                (None, None) => true,
                _ => false,
            },
    {
        match self.position(id) {
            Some(i) => {
                let v = crate::location_converter::bytes_to_vec(self.entries[i].1.as_slice());
                Some(v)
            },
            None => None,
        }
    }

    fn position(&self, id: &[u8; 8]) -> (r: Option<usize>)
        ensures
            r is None ==> self.get(*id) is None && forall|k: int| 0 <= k < self.entries@.len() ==> #[trigger] self.entries@[k].0 != *id,
            r matches Some(j) ==> j < self.entries@.len() && self.entries@[j as int].0 == *id
                && (forall|k: int| 0 <= k < j ==> #[trigger] self.entries@[k].0 != *id)
                && self.get(*id) == Some(self.entries@[j as int].1@),
    {
        let mut i: usize = 0;
        while i < self.entries.len()
            invariant
                i <= self.entries@.len(),
                forall|k: int| 0 <= k < i ==> #[trigger] self.entries@[k].0 != *id,
                entry_from(self.entries@, 0, *id) == entry_from(self.entries@, i as int, *id),
            decreases self.entries@.len() - i,
        {
            if same_identifier(&self.entries[i].0, id) {
                proof {
                    lemma_entry_found(self.entries@, i as int, *id);
                }
                return Some(i);
            }
            i = i + 1;
        }
        None
    }

    /// Stores `data` under `id`; fails when something is already stored
    /// there.
    pub fn put_data(&mut self, id: [u8; 8], data: Vec<u8>) -> (r: Result<(), InherentDataError>)
        requires
            old(self).well_formed(),
        ensures
            final(self).well_formed(),
            old(self).get(id) is Some ==> (r matches Err(InherentDataError::InherentDataExists(i)) && i == id)
                && forall|k: [u8; 8]| final(self).get(k) == old(self).get(k),
            old(self).get(id) is None ==> r is Ok
                && forall|k: [u8; 8]| final(self).get(k) == if k == id { Some(data@) } else { old(self).get(k) },
    {
        match self.position(&id) {
            Some(_) => Err(InherentDataError::InherentDataExists(id)),
            None => {
                let ghost before = self.entries@;
                let ghost x = (id, data);
                self.entries.push((id, data));
                proof {
                    assert forall|k: [u8; 8]| #[trigger] entry_from(self.entries@, 0, k)
                        == (if k == id { Some(x.1@) } else { entry_from(before, 0, k) }) by {
                        lemma_entry_from_push(before, x, 0, k);
                    }
                    assert forall|a: int, b: int| 0 <= a < self.entries@.len() && 0 <= b < self.entries@.len() && a != b
                        implies #[trigger] self.entries@[a].0 != #[trigger] self.entries@[b].0 by {
                        if a < before.len() && b < before.len() {
                            assert(self.entries@[a] == before[a] && self.entries@[b] == before[b]);
                        } else if a < before.len() {
                            assert(self.entries@[a] == before[a]);
                        } else {
                            assert(self.entries@[b] == before[b]);
                        }
                    }
                }
                Ok(())
            },
        }
    }

    /// Stores `data` under `id`, replacing what was stored there.
    pub fn replace_data(&mut self, id: [u8; 8], data: Vec<u8>)
        requires
            old(self).well_formed(),
        ensures
            final(self).well_formed(),
            forall|k: [u8; 8]| final(self).get(k) == if k == id { Some(data@) } else { old(self).get(k) },
    {
        match self.position(&id) {
            Some(j) => {
                let ghost before = self.entries@;
                let ghost x = (id, data);
                self.entries.set(j, (id, data));
                proof {
                    assert(self.entries@ == before.update(j as int, x));
                    assert forall|k: [u8; 8]| #[trigger] entry_from(self.entries@, 0, k)
                        == (if k == id { Some(x.1@) } else { entry_from(before, 0, k) }) by {
                        lemma_entry_from_update(before, j as int, x, 0, k);
                    }
                    assert forall|a: int, b: int| 0 <= a < self.entries@.len() && 0 <= b < self.entries@.len() && a != b
                        implies #[trigger] self.entries@[a].0 != #[trigger] self.entries@[b].0 by {
                        if a != j && b != j {
                            assert(self.entries@[a] == before[a] && self.entries@[b] == before[b]);
                        } else if a != j {
                            assert(self.entries@[a] == before[a]);
                        } else {
                            assert(self.entries@[b] == before[b]);
                        }
                    }
                }
            },
            None => {
                let ghost before = self.entries@;
                let ghost x = (id, data);
                self.entries.push((id, data));
                proof {
                    assert forall|k: [u8; 8]| #[trigger] entry_from(self.entries@, 0, k)
                        == (if k == id { Some(x.1@) } else { entry_from(before, 0, k) }) by {
                        lemma_entry_from_push(before, x, 0, k);
                    }
                    assert forall|a: int, b: int| 0 <= a < self.entries@.len() && 0 <= b < self.entries@.len() && a != b
                        implies #[trigger] self.entries@[a].0 != #[trigger] self.entries@[b].0 by {
                        if a < before.len() && b < before.len() {
                            assert(self.entries@[a] == before[a] && self.entries@[b] == before[b]);
                        } else if a < before.len() {
                            assert(self.entries@[a] == before[a]);
                        } else {
                            assert(self.entries@[b] == before[b]);
                        }
                    }
                }
            },
        }
    }
}

/// The data provider of the Nimbus author inherent, which carries no data:
/// the inherent only starts the author checks.
pub struct InherentDataProvider;

/// The message of the error reported for the author inherent.
pub open spec fn author_inherent_error_message() -> Seq<char> {
    "Error processing dummy nimbus inherent"@
}

impl InherentDataProvider {
    /// Stores the (empty) author inherent data.
    pub fn provide_inherent_data(&self, inherent_data: &mut InherentData) -> (r: Result<(), InherentDataError>)
        requires
            old(inherent_data).well_formed(),
        ensures
            final(inherent_data).well_formed(),
            old(inherent_data).get(INHERENT_IDENTIFIER) is Some ==>
                (r matches Err(InherentDataError::InherentDataExists(i)) && i == INHERENT_IDENTIFIER)
                && forall|k: [u8; 8]| final(inherent_data).get(k) == old(inherent_data).get(k),
            old(inherent_data).get(INHERENT_IDENTIFIER) is None ==> r is Ok
                && forall|k: [u8; 8]| final(inherent_data).get(k) == if k == INHERENT_IDENTIFIER {
                    Some(Seq::<u8>::empty())
                } else {
                    old(inherent_data).get(k)
                },
    {
        inherent_data.put_data(INHERENT_IDENTIFIER, Vec::new())
    }

    /// Handles an error reported for inherent `identifier`: errors of other
    /// inherents are not ours (`None`); those of the author inherent are all
    /// fatal.
    pub fn try_handle_error(&self, identifier: &[u8; 8], error: &[u8]) -> (r: Option<Result<(), InherentDataError>>)
        ensures
            *identifier != INHERENT_IDENTIFIER ==> r is None,
            *identifier == INHERENT_IDENTIFIER ==> (r matches Some(Err(InherentDataError::Application(m)))
                && m@ == author_inherent_error_message()),
    {
        if !same_identifier(identifier, &INHERENT_IDENTIFIER) {
            return None;
        }
        let m = String::from_str("Error processing dummy nimbus inherent");
        proof {
            reveal_strlit("Error processing dummy nimbus inherent");
        }
        Some(Err(InherentDataError::Application(m)))
    }
}

} // verus!
