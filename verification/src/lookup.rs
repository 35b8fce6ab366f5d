//! The lookup service: one get-or-refresh operation over the store, the
//! staleness policy, and the outcome of a remote fetch.
//!
//! A lookup first consults the store.  A record that is present and not
//! stale is served as it is — no fetch, no write.  Otherwise the caller
//! performs one remote fetch and hands its outcome back; every record of a
//! successful batch is written through to the store, and the first record
//! carrying the requested id is returned.  The remote call itself is a
//! suspension point that lives with the caller, so the operation is split
//! in two at exactly that point:
//!
//! ```text
//! let service = LookupService::new(store);
//! match service.get_or_refresh_local(item_id, region, now) {
//!     Some(record) => record,                       // fresh: no fetch
//!     None => {
//!         let fetched = /* one remote fetch */;
//!         service.get_or_refresh_remote(item_id, region, now, fetched)?
//!     }
//! }
//! ```
//!
//! The local half never demands a fetch for a fresh record, and demands
//! exactly one for a stale or absent one; a stale cached value is never
//! served as a fallback when the fetch fails.

use vstd::prelude::*;

use crate::record::{ItemRecord, ItemRecordV, Region};
use crate::staleness::is_stale;
use crate::store::Store;

verus! {

/// A failed remote fetch: the network, the remote side, or its payload.
/// All are retryable by the caller; none is fatal to the process.
#[derive(Clone, Copy, PartialEq, Eq, Structural, Debug)]
pub enum FetchError {
    Network,
    RemoteFault,
    MalformedPayload,
}

/// Why a lookup failed: the upstream service could not be reached (or
/// answered badly), or it answered without the requested item.
#[derive(Clone, Copy, PartialEq, Eq, Structural, Debug)]
pub enum LookupError {
    UpstreamUnavailable,
    ItemNotFound,
}

/// The record a lookup may serve from the cache alone: the one stored
/// under `(item_id, region)`, provided it is not stale at `now`.
pub open spec fn fresh_snapshot(
    m: Map<(u64, Region), (ItemRecordV, int)>,
    item_id: u64,
    region: Region,
    now: int,
) -> Option<ItemRecordV> {
    let k = (item_id, region);
    if m.contains_key(k) && !is_stale(m[k].1, now) {
        Some(m[k].0)
    } else {
        None
    }
}

/// The first record of the batch carrying the requested id — the one a
/// successful refresh returns.  The first match wins by iteration order, a
/// deliberate, deterministic tie-break for a batch that repeats an id.
pub open spec fn first_with_id(batch: Seq<ItemRecord>, item_id: u64) -> Option<ItemRecord>
    decreases batch.len(),
{
    if batch.len() == 0 {
        None
    } else if batch[0].item_id == item_id {
        Some(batch[0])
    } else {
        first_with_id(batch.drop_first(), item_id)
    }
}

/// The last record of the batch carrying the requested id — the one a
/// refresh leaves in the store, since each record is upserted in batch
/// order and later writes replace earlier ones.
pub open spec fn last_with_id(batch: Seq<ItemRecord>, item_id: u64) -> Option<ItemRecord>
    decreases batch.len(),
{
    if batch.len() == 0 {
        None
    } else if batch.last().item_id == item_id {
        Some(batch.last())
    } else {
        last_with_id(batch.drop_last(), item_id)
    }
}

/// The store map after every record of the batch is upserted, in batch
/// order, under `region` with timestamp `now`.
pub open spec fn upsert_batch(
    m: Map<(u64, Region), (ItemRecordV, int)>,
    batch: Seq<ItemRecord>,
    region: Region,
    now: int,
) -> Map<(u64, Region), (ItemRecordV, int)>
    decreases batch.len(),
{
    if batch.len() == 0 {
        m
    } else {
        upsert_batch(m, batch.drop_last(), region, now).insert(
            (batch.last().item_id, region),
            (batch.last()@, now),
        )
    }
}

/// The lookup service: the store it orchestrates is handed in at
/// construction.
pub struct LookupService {
    pub store: Store,
}

impl LookupService {
    /// A service over the given store.
    pub fn new(store: Store) -> (service: LookupService)
        ensures
            service.store == store,
    {
        LookupService { store }
    }

    /// The local half of get-or-refresh: serves the stored record when it
    /// is present and not stale at `now`, reading only the store.  `None`
    /// demands exactly one remote fetch, whose outcome belongs to
    /// `get_or_refresh_remote`.
    pub fn get_or_refresh_local(&self, item_id: u64, region: Region, now: i64) -> (cached: Option<
        ItemRecord,
    >)
        requires
            self.store.wf(),
        ensures
            match cached {
                Some(record) => fresh_snapshot(self.store@, item_id, region, now as int)
                    == Some(record@) && record@.item_id == item_id,
                None => fresh_snapshot(self.store@, item_id, region, now as int) is None,
            },
    {
        match self.store.get(item_id, region) {
            Some((record, last_update_time)) => {
                if !crate::staleness::should_update(last_update_time, now) {
                    Some(record)
                } else {
                    None
                }
            },
            None => None,
        }
    }

    /// The remote half of get-or-refresh: applies the outcome of the one
    /// fetch the local half demanded.  A failed fetch surfaces as
    /// `UpstreamUnavailable` and leaves the store untouched — the stale
    /// cached value is not a fallback.  A successful batch is written
    /// through record by record, best effort: a record that fails to
    /// persist is skipped, never the whole lookup.  The first record
    /// carrying the requested id is returned; a batch without it is the
    /// distinct, reportable `ItemNotFound`.
    pub fn get_or_refresh_remote(
        &mut self,
        item_id: u64,
        region: Region,
        now: i64,
        fetched: Result<Vec<ItemRecord>, FetchError>,
    ) -> (outcome: Result<ItemRecord, LookupError>)
        requires
            old(self).store.wf(),
        ensures
            final(self).store.wf(),
            match fetched {
                Err(_) => outcome == Err::<ItemRecord, LookupError>(
                    LookupError::UpstreamUnavailable,
                ) && *final(self) == *old(self),
                Ok(batch) => final(self).store@ == upsert_batch(
                    old(self).store@,
                    batch@,
                    region,
                    now as int,
                ) && match first_with_id(batch@, item_id) {
                    Some(wanted) => outcome matches Ok(record) && record@ == wanted@
                        && record@.item_id == item_id,
                    None => outcome == Err::<ItemRecord, LookupError>(LookupError::ItemNotFound),
                },
            },
    {
        let batch = match fetched {
            Ok(batch) => batch,
            Err(_) => {
                return Err(LookupError::UpstreamUnavailable);
            },
        };
        let wanted = Self::find_first(&batch, item_id);
        let ghost m0 = self.store@;
        let mut i: usize = 0;
        while i < batch.len()
            invariant
                i <= batch@.len(),
                self.store.wf(),
                self.store@ == upsert_batch(m0, batch@.take(i as int), region, now as int),
            decreases batch@.len() - i,
        {
            let record = batch[i].clone();
            proof {
                assert(batch@.take(i + 1).drop_last() =~= batch@.take(i as int));
                assert(batch@.take(i + 1).last() == batch@[i as int]);
            }
            // A record that fails to persist is logged by a durable
            // backend and skipped here; only the requested item's return
            // value is mandatory for the lookup.
            match self.store.upsert(record, region, now) {
                Ok(()) => (),
                Err(_) => (),
            }
            i = i + 1;
        }
        proof {
            assert(batch@.take(batch@.len() as int) =~= batch@);
        }
        match wanted {
            Some(record) => Ok(record),
            None => Err(LookupError::ItemNotFound),
        }
    }

    /// The first record of the batch carrying the requested id, cloned.
    fn find_first(batch: &Vec<ItemRecord>, item_id: u64) -> (found: Option<ItemRecord>)
        ensures
            match found {
                Some(record) => first_with_id(batch@, item_id) matches Some(wanted) && record@
                    == wanted@ && record@.item_id == item_id,
                None => first_with_id(batch@, item_id) is None,
            },
    {
        let mut i: usize = 0;
        proof {
            assert(batch@.skip(0) =~= batch@);
        }
        while i < batch.len()
            invariant
                i <= batch@.len(),
                first_with_id(batch@, item_id) == first_with_id(
                    batch@.skip(i as int),
                    item_id,
                ),
                forall|j: int| 0 <= j < i ==> batch@[j].item_id != item_id,
            decreases batch@.len() - i,
        {
            proof {
                assert(batch@.skip(i as int).drop_first() =~= batch@.skip(i + 1));
                assert(batch@.skip(i as int)[0] == batch@[i as int]);
            }
            if batch[i].item_id == item_id {
                return Some(batch[i].clone());
            }
            i = i + 1;
        }
        None
    }
}

/// A record stored no longer ago than the staleness window is served from
/// the cache: the local half returns it, and no fetch is demanded.
pub proof fn lemma_fresh_returns_cached(
    m: Map<(u64, Region), (ItemRecordV, int)>,
    item_id: u64,
    region: Region,
    now: int,
    record: ItemRecordV,
    ts: int,
)
    requires
        m.contains_key((item_id, region)),
        m[(item_id, region)] == (record, ts),
        now - ts <= crate::staleness::MINIMUM_UPDATE_TIME_SECONDS,
    ensures
        fresh_snapshot(m, item_id, region, now) == Some(record),
{
}

/// A record stored longer ago than the staleness window is never served
/// from the cache: the local half demands the one fetch of a refresh.
pub proof fn lemma_stale_forces_refresh(
    m: Map<(u64, Region), (ItemRecordV, int)>,
    item_id: u64,
    region: Region,
    now: int,
)
    requires
        m.contains_key((item_id, region)),
        now - m[(item_id, region)].1 > crate::staleness::MINIMUM_UPDATE_TIME_SECONDS,
    ensures
        fresh_snapshot(m, item_id, region, now) is None,
{
}

/// An absent key is never served from the cache: the local half demands a
/// fetch for it.
pub proof fn lemma_absent_forces_refresh(
    m: Map<(u64, Region), (ItemRecordV, int)>,
    item_id: u64,
    region: Region,
    now: int,
)
    requires
        !m.contains_key((item_id, region)),
    ensures
        fresh_snapshot(m, item_id, region, now) is None,
{
}

/// What a refresh writes, key by key: under the refreshed region, a key
/// whose id the batch carries now holds the last such record of the batch,
/// timestamped `now`; every other key — another region, or an id the batch
/// does not carry — is exactly as it was before.
pub proof fn lemma_upsert_batch_index(
    m: Map<(u64, Region), (ItemRecordV, int)>,
    batch: Seq<ItemRecord>,
    region: Region,
    now: int,
    k: (u64, Region),
)
    ensures
        ({
            let refreshed = upsert_batch(m, batch, region, now);
            let untouched = (refreshed.contains_key(k) <==> m.contains_key(k))
                && (m.contains_key(k) ==> refreshed[k] == m[k]);
            &&& k.1 == region ==> match last_with_id(batch, k.0) {
                Some(written) => refreshed.contains_key(k) && refreshed[k] == (written@, now),
                None => untouched,
            }
            &&& k.1 != region ==> untouched
        }),
    decreases batch.len(),
{
    if batch.len() > 0 {
        lemma_upsert_batch_index(m, batch.drop_last(), region, now, k);
    }
}

/// A batch that carries the requested id leaves the store holding that id
/// under the refreshed region with the fresh timestamp `now`.
pub proof fn lemma_refresh_updates_timestamp(
    m: Map<(u64, Region), (ItemRecordV, int)>,
    batch: Seq<ItemRecord>,
    item_id: u64,
    region: Region,
    now: int,
)
    requires
        last_with_id(batch, item_id) is Some,
    ensures
        upsert_batch(m, batch, region, now).contains_key((item_id, region)),
        upsert_batch(m, batch, region, now)[(item_id, region)].1 == now,
{
    lemma_upsert_batch_index(m, batch, region, now, (item_id, region));
}

/// A batch without a first match for an id has no record carrying that id
/// at all.
proof fn lemma_first_with_id_none(batch: Seq<ItemRecord>, item_id: u64)
    requires
        first_with_id(batch, item_id) is None,
    ensures
        forall|j: int| 0 <= j < batch.len() ==> batch[j].item_id != item_id,
    decreases batch.len(),
{
    if batch.len() > 0 {
        lemma_first_with_id_none(batch.drop_first(), item_id);
        assert(forall|j: int|
            1 <= j < batch.len() ==> batch[j] == batch.drop_first()[j - 1]);
    }
}

/// An id that no record of the batch carries has no last match either.
proof fn lemma_last_with_id_none(batch: Seq<ItemRecord>, item_id: u64)
    requires
        forall|j: int| 0 <= j < batch.len() ==> batch[j].item_id != item_id,
    ensures
        last_with_id(batch, item_id) is None,
    decreases batch.len(),
{
    if batch.len() > 0 {
        assert(forall|j: int|
            0 <= j < batch.drop_last().len() ==> batch.drop_last()[j].item_id != item_id);
        lemma_last_with_id_none(batch.drop_last(), item_id);
    }
}

/// An id some record of the batch carries has a last match.
proof fn lemma_last_with_id_present(batch: Seq<ItemRecord>, j: int)
    requires
        0 <= j < batch.len(),
    ensures
        last_with_id(batch, batch[j].item_id) is Some,
    decreases batch.len(),
{
    if batch.last().item_id != batch[j].item_id {
        lemma_last_with_id_present(batch.drop_last(), j);
    }
}

/// A successful fetch that excludes the requested id fails the lookup as
/// `ItemNotFound`, yet persists every record the batch does carry: each is
/// in the store under the refreshed region with timestamp `now`, while the
/// requested key is exactly as it was before.
pub proof fn lemma_missing_from_batch(
    m: Map<(u64, Region), (ItemRecordV, int)>,
    batch: Seq<ItemRecord>,
    item_id: u64,
    region: Region,
    now: int,
)
    requires
        first_with_id(batch, item_id) is None,
    ensures
        ({
            let refreshed = upsert_batch(m, batch, region, now);
            &&& refreshed.contains_key((item_id, region)) <==> m.contains_key((item_id, region))
            &&& m.contains_key((item_id, region)) ==> refreshed[(item_id, region)] == m[
                (item_id, region)
            ]
            &&& forall|j: int|
                0 <= j < batch.len() ==> refreshed.contains_key((batch[j].item_id, region))
                    && refreshed[(batch[j].item_id, region)].1 == now
        }),
{
    let refreshed = upsert_batch(m, batch, region, now);
    lemma_first_with_id_none(batch, item_id);
    lemma_last_with_id_none(batch, item_id);
    lemma_upsert_batch_index(m, batch, region, now, (item_id, region));
    assert forall|j: int| 0 <= j < batch.len() implies refreshed.contains_key(
        (batch[j].item_id, region),
    ) && refreshed[(batch[j].item_id, region)].1 == now by {
        lemma_last_with_id_present(batch, j);
        lemma_upsert_batch_index(m, batch, region, now, (batch[j].item_id, region));
    }
}

} // verus!
