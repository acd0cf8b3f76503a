//! The in-memory store: one record for each live identifier.

use crate::assoc::{
    assoc_map, distinct, lemma_assoc_at, lemma_assoc_empty, lemma_assoc_len, lemma_assoc_push,
    lemma_assoc_remove,
};
use crate::session_data::{AxumSessionData, SessionModel};
use crate::session_id::AxumSessionID;
use vstd::prelude::*;

verus! {

/// The identifiers of the records, in order.
pub open spec fn record_ids(records: Seq<AxumSessionData>) -> Seq<u128> {
    Seq::new(records.len(), |i: int| records[i].id@)
}

/// The models of the records, in order.
pub open spec fn record_models(records: Seq<AxumSessionData>) -> Seq<SessionModel> {
    Seq::new(records.len(), |i: int| records[i]@)
}

/// What a memory sweep at time `now` leaves of `records`: every record that is
/// neither destroyed nor expired, unchanged.
pub open spec fn swept(records: Map<u128, SessionModel>, now: int) -> Map<u128, SessionModel> {
    Map::new(
        |id: u128| records.contains_key(id) && !records[id].is_stale(now),
        |id: u128| records[id],
    )
}

/// The identifiers that a memory sweep at time `now` hands to the backend for
/// deletion: those of the evicted records that are storable.
pub open spec fn purge_due(records: Map<u128, SessionModel>, now: int) -> Set<u128> {
    Set::new(
        |id: u128| records.contains_key(id) && records[id].is_stale(now) && records[id].storable,
    )
}

/// Mapping from identifier to record.
#[derive(Debug)]
pub struct MemoryStore {
    records: Vec<AxumSessionData>,
}

impl View for MemoryStore {
    type V = Map<u128, SessionModel>;

    closed spec fn view(&self) -> Map<u128, SessionModel> {
        assoc_map(record_ids(self.records@), record_models(self.records@))
    }
}

impl MemoryStore {
    #[verifier::type_invariant]
    spec fn well_formed(&self) -> bool {
        distinct(record_ids(self.records@))
    }

    /// An empty store.
    pub fn new() -> (store: MemoryStore)
        ensures
            store@ == Map::<u128, SessionModel>::empty(),
    {
        let store = MemoryStore { records: Vec::new() };
        proof {
            lemma_assoc_empty(record_ids(store.records@), record_models(store.records@));
        }
        store
    }

    /// Moves the records out and leaves the store empty.
    fn take_records(&mut self) -> (records: Vec<AxumSessionData>)
        ensures
            records@ == old(self).records@,
            distinct(record_ids(records@)),
    {
        proof {
            use_type_invariant(&*self);
        }
        let mut taken = MemoryStore::new();
        std::mem::swap(self, &mut taken);
        taken.records
    }

    /// Where the record for `id` stands, if there is one.
    fn find(&self, id: AxumSessionID) -> (found: Option<usize>)
        ensures
            match found {
                Some(i) => i < self.records@.len() && self.records@[i as int].id == id
                    && self@.contains_key(id@) && self@[id@] == self.records@[i as int]@,
                None => !self@.contains_key(id@),
            },
    {
        proof {
            use_type_invariant(self);
        }
        let ghost ids = record_ids(self.records@);
        let mut i: usize = 0;
        while i < self.records.len()
            invariant
                i <= self.records@.len(),
                ids == record_ids(self.records@),
                distinct(ids),
                forall|j: int| 0 <= j < i ==> ids[j] != id@,
            decreases self.records@.len() - i,
        {
            if self.records[i].id.0 == id.0 {
                proof {
                    assert(ids[i as int] == id@);
                    lemma_assoc_at(ids, record_models(self.records@), i as int);
                }
                return Some(i);
            }
            i += 1;
        }
        None
    }

    /// The number of resident records.
    pub fn len(&self) -> (n: usize)
        ensures
            self@.dom().finite(),
            n == self@.len(),
    {
        proof {
            use_type_invariant(self);
            lemma_assoc_len(record_ids(self.records@), record_models(self.records@));
        }
        self.records.len()
    }

    /// Whether a record for `id` is resident.
    pub fn contains_key(&self, id: AxumSessionID) -> (present: bool)
        ensures
            present == self@.contains_key(id@),
    {
        self.find(id).is_some()
    }

    /// The record for `id`, or nothing where none is resident.
    pub fn get(&self, id: AxumSessionID) -> (record: Option<&AxumSessionData>)
        ensures
            match record {
                Some(r) => self@.contains_key(id@) && r@ == self@[id@] && r.id == id,
                None => !self@.contains_key(id@),
            },
    {
        match self.find(id) {
            Some(i) => Some(&self.records[i]),
            None => None,
        }
    }

    /// Files `record` under its identifier and returns the record that it
    /// replaces, if there was one.
    pub fn insert(&mut self, record: AxumSessionData) -> (previous: Option<AxumSessionData>)
        ensures
            final(self)@ == old(self)@.insert(record.id@, record@),
            match previous {
                Some(p) => old(self)@.contains_key(record.id@) && p@ == old(self)@[record.id@]
                    && p.id == record.id,
                None => !old(self)@.contains_key(record.id@),
            },
    {
        let previous = self.remove(record.id);
        assert(!record_ids(self.records@).contains(record.id@)) by {
            assert(!self@.contains_key(record.id@));
        }
        let mut records = self.take_records();
        let ghost before = records@;
        records.push(record);
        proof {
            assert(record_ids(records@) =~= record_ids(before).push(record.id@));
            assert(record_models(records@) =~= record_models(before).push(record@));
            lemma_assoc_push(record_ids(before), record_models(before), record.id@, record@);
            assert(old(self)@.remove(record.id@).insert(record.id@, record@) =~= old(
                self,
            )@.insert(record.id@, record@));
        }
        *self = MemoryStore { records };
        previous
    }

    /// Takes the record for `id` out of the store and returns it.
    pub fn remove(&mut self, id: AxumSessionID) -> (removed: Option<AxumSessionData>)
        ensures
            final(self)@ == old(self)@.remove(id@),
            match removed {
                Some(r) => old(self)@.contains_key(id@) && r@ == old(self)@[id@] && r.id == id,
                None => !old(self)@.contains_key(id@),
            },
    {
        match self.find(id) {
            Some(i) => {
                let mut records = self.take_records();
                let ghost before = records@;
                let record = records.remove(i);
                proof {
                    assert(record_ids(records@) =~= record_ids(before).remove(i as int));
                    assert(record_models(records@) =~= record_models(before).remove(i as int));
                    lemma_assoc_remove(record_ids(before), record_models(before), i as int);
                }
                *self = MemoryStore { records };
                Some(record)
            },
            None => {
                assert(self@ =~= old(self)@.remove(id@));
                None
            },
        }
    }

    /// One memory sweep at time `now`: evicts every record that is destroyed
    /// or expired, and returns the identifiers of the evicted records that are
    /// storable, each once.
    pub fn sweep(&mut self, now: i64) -> (purged: Vec<AxumSessionID>)
        ensures
            final(self)@ == swept(old(self)@, now as int),
            purged@.no_duplicates(),
            forall|id: AxumSessionID|
                purged@.contains(id) <==> purge_due(old(self)@, now as int).contains(id@),
    {
        let mut records = self.take_records();
        let ghost before = records@;
        let ghost ids = record_ids(before);
        let ghost models = record_models(before);
        let ghost all = assoc_map(ids, models);
        let mut kept: Vec<AxumSessionData> = Vec::new();
        let mut purged: Vec<AxumSessionID> = Vec::new();
        proof {
            lemma_assoc_empty(record_ids(kept@), record_models(kept@));
        }
        while records.len() > 0
            invariant
                records@.len() <= before.len(),
                records@ == before.subrange(0, records@.len() as int),
                ids == record_ids(before),
                models == record_models(before),
                all == assoc_map(ids, models),
                distinct(ids),
                distinct(record_ids(kept@)),
                purged@.no_duplicates(),
                forall|id: u128| #[trigger]
                    assoc_map(record_ids(kept@), record_models(kept@)).contains_key(id) <==> (
                    all.contains_key(id) && ids.index_of(id) >= records@.len() && !all[id].is_stale(
                        now as int,
                    )),
                forall|id: u128| #[trigger]
                    assoc_map(record_ids(kept@), record_models(kept@)).contains_key(id)
                        ==> assoc_map(record_ids(kept@), record_models(kept@))[id] == all[id],
                forall|id: AxumSessionID| #[trigger]
                    purged@.contains(id) <==> (all.contains_key(id@) && ids.index_of(id@)
                        >= records@.len() && all[id@].is_stale(now as int) && all[id@].storable),
            decreases records@.len(),
        {
            let ghost n = records@.len() - 1;
            let ghost kept_before = kept@;
            let ghost purged_before = purged@;
            let record = records.pop().unwrap();
            proof {
                assert(record == before[n]);
                assert(ids[n] == record.id@);
                assert(models[n] == record@);
                lemma_assoc_at(ids, models, n);
                assert(records@ =~= before.subrange(0, n));
            }
            if record.is_stale(now) {
                if record.storable {
                    assert(!purged@.contains(record.id));
                    purged.push(record.id);
                    proof {
                        assert forall|id: AxumSessionID| #[trigger]
                            purged@.contains(id) <==> (purged_before.contains(id) || id
                                == record.id) by {
                            if purged_before.contains(id) {
                                let i = purged_before.index_of(id);
                                assert(purged@[i] == id);
                            }
                            if id == record.id {
                                assert(purged@[purged_before.len() as int] == id);
                            }
                        }
                    }
                }
            } else {
                assert(!record_ids(kept@).contains(record.id@)) by {
                    assert(!assoc_map(record_ids(kept@), record_models(kept@)).contains_key(
                        record.id@,
                    ));
                }
                kept.push(record);
                proof {
                    assert(record_ids(kept@) =~= record_ids(kept_before).push(record.id@));
                    assert(record_models(kept@) =~= record_models(kept_before).push(record@));
                    lemma_assoc_push(
                        record_ids(kept_before),
                        record_models(kept_before),
                        record.id@,
                        record@,
                    );
                }
            }
        }
        proof {
            assert(assoc_map(record_ids(kept@), record_models(kept@)) =~= swept(all, now as int));
        }
        *self = MemoryStore { records: kept };
        purged
    }
}

} // verus!
