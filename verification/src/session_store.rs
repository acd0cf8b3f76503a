//! The store: the in-memory records with the configuration, the sweep timers
//! and the knowledge of whether a persistent backend stands behind it.

use crate::clock::unix_now;
use crate::config::AxumSessionConfig;
use crate::memory_store::{purge_due, swept, MemoryStore};
use crate::session_data::{expiry, expiry_after, AxumSessionData, SessionModel};
use crate::session_id::AxumSessionID;
use crate::session_timers::AxumSessionTimers;
use vstd::prelude::*;

verus! {

/// What the caller owes the persistent backend after a sweep pass.
#[derive(Debug)]
pub struct SweepActions {
    /// Identifiers whose rows are to be deleted.
    pub deletes: Vec<AxumSessionID>,
    /// The time before which expired rows are to be purged in bulk, where a
    /// storage sweep was due.
    pub cleanup: Option<i64>,
}

/// The session store.
#[derive(Debug)]
pub struct AxumSessionStore {
    pub inner: MemoryStore,
    pub config: AxumSessionConfig,
    pub timers: AxumSessionTimers,
    pub persistent: bool,
}

impl View for AxumSessionStore {
    type V = Map<u128, SessionModel>;

    open spec fn view(&self) -> Map<u128, SessionModel> {
        self.inner@
    }
}

impl AxumSessionStore {
    /// Everything but the records is the same in `self` and `other`.
    pub open spec fn same_setup(&self, other: &AxumSessionStore) -> bool {
        &&& self.config == other.config
        &&& self.timers == other.timers
        &&& self.persistent == other.persistent
    }

    /// An empty store whose sweeps are due from `now` on.
    pub fn new(persistent: bool, config: AxumSessionConfig, now: i64) -> (store: AxumSessionStore)
        ensures
            store@ == Map::<u128, SessionModel>::empty(),
            store.config == config,
            store.persistent == persistent,
            store.timers == (AxumSessionTimers {
                last_expiry_sweep: now,
                last_database_expiry_sweep: now,
            }),
    {
        AxumSessionStore {
            inner: MemoryStore::new(),
            config,
            timers: AxumSessionTimers::new(now),
            persistent,
        }
    }

    /// Whether a persistent backend stands behind the store.
    pub fn is_persistent(&self) -> (persistent: bool)
        ensures
            persistent == self.persistent,
    {
        self.persistent
    }

    /// The number of resident records.
    pub fn len(&self) -> (n: usize)
        ensures
            self@.dom().finite(),
            n == self@.len(),
    {
        self.inner.len()
    }

    /// Whether `id` names a session that is in use at time `now`: its record
    /// is resident, not destroyed and not expired.
    pub open spec fn spec_is_active(&self, id: u128, now: int) -> bool {
        self@.contains_key(id) && !self@[id].is_stale(now)
    }

    /// Whether `id` names a session that is in use at time `now`. A record
    /// that waits for its eviction does not count.
    pub fn is_active(&self, id: AxumSessionID, now: i64) -> (active: bool)
        ensures
            active == self.spec_is_active(id@, now as int),
    {
        match self.inner.get(id) {
            Some(record) => !record.is_stale(now),
            None => false,
        }
    }

    /// Creates the record for a newly issued `id`, alive for the configured
    /// lifespan from `now`. An identifier that already has a record is left
    /// alone, and the answer is `false`.
    pub fn create(&mut self, id: AxumSessionID, storable: bool, now: i64) -> (created: bool)
        ensures
            created == !old(self)@.contains_key(id@),
            final(self).same_setup(old(self)),
            created ==> final(self)@ == old(self)@.insert(
                id@,
                SessionModel {
                    id: id@,
                    data: Map::empty(),
                    expires: expiry_after(now as int, old(self).config.lifespan as int),
                    longterm: false,
                    storable,
                    destroy: false,
                    renew: false,
                    update: true,
                },
            ),
            !created ==> final(self)@ == old(self)@,
    {
        if self.inner.contains_key(id) {
            false
        } else {
            let record = AxumSessionData::new(id, storable, now, &self.config);
            self.inner.insert(record);
            true
        }
    }

    /// One memory sweep at time `now`. Evicts every destroyed or expired
    /// record; with a persistent backend, returns the identifiers of the
    /// evicted storable records, whose rows are to be deleted.
    pub fn sweep_memory(&mut self, now: i64) -> (deletes: Vec<AxumSessionID>)
        ensures
            final(self)@ == swept(old(self)@, now as int),
            final(self).same_setup(old(self)),
            deletes@.no_duplicates(),
            forall|id: AxumSessionID|
                deletes@.contains(id) <==> (old(self).persistent && purge_due(
                    old(self)@,
                    now as int,
                ).contains(id@)),
    {
        let purged = self.inner.sweep(now);
        if self.persistent {
            purged
        } else {
            Vec::new()
        }
    }

    /// What a sweeper tick at time `now` makes of the store `before`. Each of
    /// the two sweeps runs if its own timer says that it is due, and is then
    /// due again after its own interval. The memory sweep evicts and, with a
    /// persistent backend, names the rows to delete; the storage sweep needs a
    /// persistent backend and asks for the bulk purge of the rows that have
    /// expired before `now`.
    pub open spec fn sweep_outcome(
        before: &AxumSessionStore,
        after: &AxumSessionStore,
        actions: SweepActions,
        now: i64,
    ) -> bool {
        let memory = before.timers.memory_due(now as int);
        let storage = before.persistent && before.timers.storage_due(now as int);
        &&& after.config == before.config
        &&& after.persistent == before.persistent
        &&& after@ == if memory {
            swept(before@, now as int)
        } else {
            before@
        }
        &&& after.timers.last_expiry_sweep == if memory {
            expiry_after(now as int, before.config.purge_update as int)
        } else {
            before.timers.last_expiry_sweep as int
        }
        &&& after.timers.last_database_expiry_sweep == if storage {
            expiry_after(now as int, before.config.purge_database_update as int)
        } else {
            before.timers.last_database_expiry_sweep as int
        }
        &&& actions.cleanup == if storage {
            Some(now)
        } else {
            None
        }
        &&& actions.deletes@.no_duplicates()
        &&& forall|id: AxumSessionID|
            actions.deletes@.contains(id) <==> (memory && before.persistent && purge_due(
                before@,
                now as int,
            ).contains(id@))
    }

    /// One tick of the sweeper at time `now`.
    pub fn run_sweeps(&mut self, now: i64) -> (actions: SweepActions)
        ensures
            Self::sweep_outcome(old(self), final(self), actions, now),
    {
        let deletes = if self.timers.last_expiry_sweep <= now {
            self.timers.last_expiry_sweep = expiry(now, self.config.purge_update);
            self.sweep_memory(now)
        } else {
            Vec::new()
        };
        let cleanup = if self.persistent && self.timers.last_database_expiry_sweep <= now {
            self.timers.last_database_expiry_sweep = expiry(now, self.config.purge_database_update);
            Some(now)
        } else {
            None
        };
        SweepActions { deletes, cleanup }
    }

    /// One tick of the sweeper at the time that the wall clock shows.
    pub fn tick(&mut self) -> (actions: SweepActions)
        ensures
            exists|now: i64| Self::sweep_outcome(old(self), final(self), actions, now),
    {
        let now = unix_now();
        self.run_sweeps(now)
    }

    /// Takes in a record that was loaded from the persistent backend. A
    /// record that is resident under the same identifier stays, and the
    /// answer is `false`.
    pub fn adopt(&mut self, record: AxumSessionData) -> (adopted: bool)
        ensures
            final(self).same_setup(old(self)),
            adopted == !old(self)@.contains_key(record.id@),
            final(self)@ == if adopted {
                old(self)@.insert(record.id@, record@)
            } else {
                old(self)@
            },
    {
        if self.inner.contains_key(record.id) {
            false
        } else {
            self.inner.insert(record);
            true
        }
    }

    /// Moves the expiry of the record of `id` to the configured lifespan
    /// after `now`, the long one for a long-term record. Without a record
    /// nothing changes.
    pub fn refresh(&mut self, id: AxumSessionID, now: i64)
        ensures
            final(self).same_setup(old(self)),
            final(self)@ == if old(self)@.contains_key(id@) {
                old(self)@.insert(
                    id@,
                    old(self)@[id@].refreshed(
                        now as int,
                        old(self).config.spec_lifespan_for(old(self)@[id@].longterm) as int,
                    ),
                )
            } else {
                old(self)@
            },
    {
        match self.inner.remove(id) {
            Some(mut record) => {
                record.refresh(now, &self.config);
                self.inner.insert(record);
            },
            None => {
                assert(self@ =~= old(self)@);
            },
        }
    }
}

} // verus!
