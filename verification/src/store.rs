//! The keyed store: at most one record, with the time of its last refresh,
//! per `(item_id, region)` pair.
//!
//! The store is observed through its view, a map from `(item_id, region)`
//! to the stored record value and its timestamp.  `upsert` is
//! insert-or-replace on that key, writing the record and the timestamp
//! together; `get` reports absence as `None`, never as an error.  Writes to
//! one key never affect any other key, which is exactly what the map
//! semantics of `upsert` states.

use vstd::prelude::*;

use crate::record::{ItemRecord, ItemRecordV, Region};

verus! {

/// A fault of the persistence backend.  Distinct from "not found", which
/// `get` reports as `None`.  The in-memory store never produces it; a
/// durable backend wrapping this interface would.
#[derive(Clone, Copy, PartialEq, Eq, Structural, Debug)]
pub enum StorageError {
    Backend,
}

/// One stored row: a record, the region it was fetched for, and the time
/// of the fetch.
struct StoreEntry {
    record: ItemRecord,
    region: Region,
    last_update_time: i64,
}

/// The key a row is stored under.
spec fn entry_key(e: StoreEntry) -> (u64, Region) {
    (e.record.item_id, e.region)
}

/// The value a row stores: the record's mathematical value and the
/// timestamp of its last refresh.
spec fn entry_val(e: StoreEntry) -> (ItemRecordV, int) {
    (e.record@, e.last_update_time as int)
}

/// No two rows share a key.
spec fn unique_keys(entries: Seq<StoreEntry>) -> bool {
    forall|i: int, j: int|
        0 <= i < j < entries.len() ==> entry_key(entries[i]) != entry_key(entries[j])
}

/// The map a sequence of rows denotes; later rows would override earlier
/// ones, though under `unique_keys` the order carries no weight.
spec fn seq_to_map(entries: Seq<StoreEntry>) -> Map<(u64, Region), (ItemRecordV, int)>
    decreases entries.len(),
{
    if entries.len() == 0 {
        Map::empty()
    } else {
        seq_to_map(entries.drop_last()).insert(
            entry_key(entries.last()),
            entry_val(entries.last()),
        )
    }
}

/// The store: one record and one timestamp per `(item_id, region)` pair.
pub struct Store {
    entries: Vec<StoreEntry>,
}

impl View for Store {
    type V = Map<(u64, Region), (ItemRecordV, int)>;

    closed spec fn view(&self) -> Map<(u64, Region), (ItemRecordV, int)> {
        seq_to_map(self.entries@)
    }
}

/// A key absent from every row is absent from the denoted map.
proof fn lemma_seq_to_map_absent(entries: Seq<StoreEntry>, k: (u64, Region))
    requires
        forall|i: int| 0 <= i < entries.len() ==> entry_key(entries[i]) != k,
    ensures
        !seq_to_map(entries).contains_key(k),
    decreases entries.len(),
{
    if entries.len() > 0 {
        assert(forall|i: int|
            0 <= i < entries.drop_last().len() ==> entry_key(entries.drop_last()[i]) != k);
        lemma_seq_to_map_absent(entries.drop_last(), k);
    }
}

/// Under unique keys, the row at any index is what the denoted map holds
/// for that row's key.
proof fn lemma_seq_to_map_present(entries: Seq<StoreEntry>, i: int)
    requires
        unique_keys(entries),
        0 <= i < entries.len(),
    ensures
        seq_to_map(entries).contains_key(entry_key(entries[i])),
        seq_to_map(entries)[entry_key(entries[i])] == entry_val(entries[i]),
    decreases entries.len(),
{
    if i < entries.len() - 1 {
        assert(unique_keys(entries.drop_last()));
        lemma_seq_to_map_present(entries.drop_last(), i);
        assert(entry_key(entries.last()) != entry_key(entries[i]));
    }
}

/// Appending a row inserts its key and value into the denoted map.
proof fn lemma_seq_to_map_push(entries: Seq<StoreEntry>, e: StoreEntry)
    ensures
        seq_to_map(entries.push(e)) == seq_to_map(entries).insert(entry_key(e), entry_val(e)),
{
    assert(entries.push(e).drop_last() =~= entries);
    assert(entries.push(e).last() == e);
}

/// Replacing the row that holds a key with another row of the same key
/// updates the denoted map at that key alone.
proof fn lemma_seq_to_map_update(entries: Seq<StoreEntry>, i: int, e: StoreEntry)
    requires
        unique_keys(entries),
        0 <= i < entries.len(),
        entry_key(e) == entry_key(entries[i]),
    ensures
        seq_to_map(entries.update(i, e)) == seq_to_map(entries).insert(
            entry_key(e),
            entry_val(e),
        ),
    decreases entries.len(),
{
    let updated = entries.update(i, e);
    if i == entries.len() - 1 {
        assert(updated.drop_last() =~= entries.drop_last());
        assert(seq_to_map(entries).insert(entry_key(e), entry_val(e)) =~= seq_to_map(
            entries.drop_last(),
        ).insert(entry_key(e), entry_val(e)));
    } else {
        assert(unique_keys(entries.drop_last()));
        assert(updated.drop_last() =~= entries.drop_last().update(i, e));
        lemma_seq_to_map_update(entries.drop_last(), i, e);
        assert(entry_key(entries.last()) != entry_key(e));
        assert(seq_to_map(entries.drop_last()).insert(entry_key(e), entry_val(e)).insert(
            entry_key(entries.last()),
            entry_val(entries.last()),
        ) =~= seq_to_map(entries.drop_last()).insert(
            entry_key(entries.last()),
            entry_val(entries.last()),
        ).insert(entry_key(e), entry_val(e)));
    }
}

impl Store {
    /// The store's internal invariant: no key is stored twice.
    pub closed spec fn wf(&self) -> bool {
        unique_keys(self.entries@)
    }

    /// An empty store.
    pub fn new() -> (store: Store)
        ensures
            store.wf(),
            store@ == Map::<(u64, Region), (ItemRecordV, int)>::empty(),
    {
        Store { entries: Vec::new() }
    }

    /// The index of the row holding `(item_id, region)`, if any.
    fn find_index(&self, item_id: u64, region: Region) -> (found: Option<usize>)
        ensures
            match found {
                Some(i) => i < self.entries@.len() && entry_key(self.entries@[i as int]) == (
                    item_id,
                    region,
                ),
                None => forall|i: int|
                    0 <= i < self.entries@.len() ==> entry_key(self.entries@[i]) != (
                        item_id,
                        region,
                    ),
            },
    {
        let mut i: usize = 0;
        while i < self.entries.len()
            invariant
                i <= self.entries@.len(),
                forall|j: int|
                    0 <= j < i ==> entry_key(self.entries@[j]) != (item_id, region),
            decreases self.entries@.len() - i,
        {
            let entry = &self.entries[i];
            if entry.record.item_id == item_id && entry.region == region {
                return Some(i);
            }
            i = i + 1;
        }
        None
    }

    /// Returns the record stored under `(item_id, region)` and the time of
    /// its last refresh, or `None` when no record exists for the key.
    /// Absence is not an error.
    pub fn get(&self, item_id: u64, region: Region) -> (found: Option<(ItemRecord, i64)>)
        requires
            self.wf(),
        ensures
            match found {
                Some((record, ts)) => self@.contains_key((item_id, region)) && self@[
                    (item_id, region)
                ] == (record@, ts as int) && record@.item_id == item_id,
                None => !self@.contains_key((item_id, region)),
            },
    {
        match self.find_index(item_id, region) {
            Some(i) => {
                proof {
                    lemma_seq_to_map_present(self.entries@, i as int);
                }
                let entry = &self.entries[i];
                Some((entry.record.clone(), entry.last_update_time))
            },
            None => {
                proof {
                    lemma_seq_to_map_absent(self.entries@, (item_id, region));
                }
                None
            },
        }
    }

    /// Replaces whatever `(record.item_id, region)` stored before with
    /// `record`, timestamped `now`; the record and its timestamp are
    /// written together.  Every other key is left untouched, as the map
    /// insert states.  The in-memory store cannot fail; the `Result` is
    /// the storage interface, whose backend faults a durable
    /// implementation would report.
    pub fn upsert(&mut self, record: ItemRecord, region: Region, now: i64) -> (result: Result<
        (),
        StorageError,
    >)
        requires
            old(self).wf(),
        ensures
            final(self).wf(),
            final(self)@ == old(self)@.insert((record.item_id, region), (record@, now as int)),
            result is Ok,
    {
        let item_id = record.item_id;
        let entry = StoreEntry { record, region, last_update_time: now };
        match self.find_index(item_id, region) {
            Some(i) => {
                proof {
                    lemma_seq_to_map_update(self.entries@, i as int, entry);
                    assert(unique_keys(self.entries@.update(i as int, entry)));
                }
                self.entries.set(i, entry);
            },
            None => {
                proof {
                    lemma_seq_to_map_push(self.entries@, entry);
                    assert(unique_keys(self.entries@.push(entry)));
                }
                self.entries.push(entry);
            },
        }
        Ok(())
    }
}

/// Upserting the same record twice leaves exactly the state of the second
/// upsert: the observable record is the same, and the timestamp is the one
/// of the most recent write.
pub proof fn lemma_upsert_idempotent(
    m: Map<(u64, Region), (ItemRecordV, int)>,
    k: (u64, Region),
    record: ItemRecordV,
    first_ts: int,
    second_ts: int,
)
    ensures
        m.insert(k, (record, first_ts)).insert(k, (record, second_ts)) == m.insert(
            k,
            (record, second_ts),
        ),
{
    assert(m.insert(k, (record, first_ts)).insert(k, (record, second_ts)) =~= m.insert(
        k,
        (record, second_ts),
    ));
}

} // verus!
