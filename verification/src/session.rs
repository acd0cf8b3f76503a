//! The session handle: the operations of one request on the record behind
//! one identifier, and the issuing of identifiers.

use crate::errors::SessionError;
use crate::session_data::SessionModel;
use crate::session_id::{is_random_uuid, uuid_parsed, AxumSessionID};
use crate::session_store::AxumSessionStore;
use vstd::prelude::*;

verus! {

/// What to do with a candidate identifier.
#[derive(Clone, Copy, Debug, PartialEq, Eq, Structural)]
pub enum IssueStep {
    /// The candidate is free: issue it.
    Accept(AxumSessionID),
    /// The candidate is free in memory: ask the backend whether it exists
    /// there, and go on with the answer.
    AskBackend(AxumSessionID),
    /// Memory holds the candidate: draw another.
    Retry,
}

/// What a flush owes the persistent backend.
#[derive(Clone, Copy, Debug, PartialEq, Eq, Structural)]
pub enum FlushAction {
    /// Nothing is to be written or deleted.
    Nothing,
    /// The record of this identifier is to be written through.
    Store(AxumSessionID),
    /// The row of this identifier is to be deleted.
    Delete(AxumSessionID),
}

/// The records after an operation on the record of `id` that turns a record
/// `r` into `change(r)`: without a record for `id`, nothing changes.
pub open spec fn tapped(
    records: Map<u128, SessionModel>,
    id: u128,
    change: spec_fn(SessionModel) -> SessionModel,
) -> Map<u128, SessionModel> {
    if records.contains_key(id) {
        records.insert(id, change(records[id]))
    } else {
        records
    }
}

/// What a read of `key` in the record of `id` gives: absent without a record
/// or without the key.
pub open spec fn read(records: Map<u128, SessionModel>, id: u128, key: Seq<char>) -> Option<
    Seq<char>,
> {
    if records.contains_key(id) {
        records[id].get(key)
    } else {
        None
    }
}

/// The decision on a candidate: memory first, then the backend if there is one.
pub open spec fn candidate_step(
    records: Map<u128, SessionModel>,
    persistent: bool,
    candidate: AxumSessionID,
) -> IssueStep {
    if records.contains_key(candidate@) {
        IssueStep::Retry
    } else if persistent {
        IssueStep::AskBackend(candidate)
    } else {
        IssueStep::Accept(candidate)
    }
}

/// The decision on a candidate once the backend has answered: a failure is
/// handed on, an existing row sends the caller back to draw another.
pub open spec fn confirmed(candidate: AxumSessionID, exists: Result<bool, SessionError>) -> Result<
    Option<AxumSessionID>,
    SessionError,
> {
    match exists {
        Ok(true) => Ok(None),
        Ok(false) => Ok(Some(candidate)),
        Err(error) => Err(error),
    }
}

/// The records after a flush of the record of `id`: a destroyed record
/// leaves, a dirty one becomes clean.
pub open spec fn flushed(records: Map<u128, SessionModel>, id: u128) -> Map<u128, SessionModel> {
    if !records.contains_key(id) {
        records
    } else if records[id].destroy {
        records.remove(id)
    } else if records[id].update {
        records.insert(id, SessionModel { update: false, ..records[id] })
    } else {
        records
    }
}

/// What a flush of the record of `id` owes the backend. Without a backend,
/// without a record, or with a clean record: nothing. The row of a destroyed
/// or non-storable record is deleted; a storable dirty record is written.
pub open spec fn flush_action(
    records: Map<u128, SessionModel>,
    persistent: bool,
    id: AxumSessionID,
) -> FlushAction {
    if !persistent || !records.contains_key(id@) {
        FlushAction::Nothing
    } else if records[id@].destroy {
        FlushAction::Delete(id)
    } else if !records[id@].update {
        FlushAction::Nothing
    } else if records[id@].storable {
        FlushAction::Store(id)
    } else {
        FlushAction::Delete(id)
    }
}

/// The records after the record of `old_id` has moved to `new_id`, with its
/// request for renewal answered.
pub open spec fn rotated(records: Map<u128, SessionModel>, old_id: u128, new_id: u128) -> Map<
    u128,
    SessionModel,
> {
    records.remove(old_id).insert(
        new_id,
        SessionModel { id: new_id, renew: false, update: true, ..records[old_id] },
    )
}

/// A handle on the session that `id` names.
#[derive(Clone, Copy, Debug)]
pub struct AxumSession {
    pub id: AxumSessionID,
}

impl AxumSession {
    /// A handle on the session that `id` names.
    pub fn new(id: AxumSessionID) -> (session: AxumSession)
        ensures
            session.id == id,
    {
        AxumSession { id }
    }

    /// The identifier that a request presents: the token's text read as an
    /// identifier, or nothing where there is no token or it does not read.
    pub fn resolve(token: Option<&str>) -> (id: Option<AxumSessionID>)
        ensures
            id == match token {
                Some(text) => AxumSessionID::spec_parse(uuid_parsed(text@)),
                None => None,
            },
    {
        match token {
            Some(text) => AxumSessionID::parse(text),
            None => None,
        }
    }

    /// Decides on a candidate identifier: one that memory holds is refused;
    /// otherwise the backend is to be asked if there is one, and the
    /// candidate is accepted if there is none.
    pub fn check_candidate(store: &AxumSessionStore, candidate: AxumSessionID) -> (step: IssueStep)
        ensures
            step == candidate_step(store@, store.persistent, candidate),
    {
        if store.inner.contains_key(candidate) {
            IssueStep::Retry
        } else if store.is_persistent() {
            IssueStep::AskBackend(candidate)
        } else {
            IssueStep::Accept(candidate)
        }
    }

    /// Draws a random candidate and decides on it. The store is not changed:
    /// the caller inserts the record once the identifier is issued.
    pub fn generate_uuid(store: &AxumSessionStore) -> (step: IssueStep)
        ensures
            exists|candidate: AxumSessionID|
                is_random_uuid(candidate@) && step == candidate_step(
                    store@,
                    store.persistent,
                    candidate,
                ),
    {
        let candidate = AxumSessionID::random();
        Self::check_candidate(store, candidate)
    }

    /// Decides on a candidate from the backend's answer to whether it exists
    /// there. A failed query fails the issuance: it never counts as "free".
    pub fn confirm_candidate(candidate: AxumSessionID, exists: Result<bool, SessionError>) -> (issued:
        Result<Option<AxumSessionID>, SessionError>)
        ensures
            issued == confirmed(candidate, exists),
    {
        match exists {
            Ok(true) => Ok(None),
            Ok(false) => Ok(Some(candidate)),
            Err(error) => Err(error),
        }
    }

    /// Asks for a new identifier at the next flush.
    pub fn renew(&self, store: &mut AxumSessionStore)
        ensures
            final(store).same_setup(old(store)),
            final(store)@ == tapped(old(store)@, self.id@, |r: SessionModel| r.renew()),
    {
        match store.inner.remove(self.id) {
            Some(mut record) => {
                record.renew();
                store.inner.insert(record);
            },
            None => {
                assert(store@ =~= old(store)@);
            },
        }
    }

    /// Asks for the session to be ended at the next flush or sweep.
    pub fn destroy(&self, store: &mut AxumSessionStore)
        ensures
            final(store).same_setup(old(store)),
            final(store)@ == tapped(old(store)@, self.id@, |r: SessionModel| r.destroy()),
    {
        match store.inner.remove(self.id) {
            Some(mut record) => {
                record.destroy();
                store.inner.insert(record);
            },
            None => {
                assert(store@ =~= old(store)@);
            },
        }
    }

    /// Selects the long or the short expiration policy.
    pub fn set_longterm(&self, store: &mut AxumSessionStore, longterm: bool)
        ensures
            final(store).same_setup(old(store)),
            final(store)@ == tapped(
                old(store)@,
                self.id@,
                |r: SessionModel| r.set_longterm(longterm),
            ),
    {
        match store.inner.remove(self.id) {
            Some(mut record) => {
                record.set_longterm(longterm);
                store.inner.insert(record);
            },
            None => {
                assert(store@ =~= old(store)@);
            },
        }
    }

    /// Says whether the session may be written to the persistent backend.
    pub fn set_store(&self, store: &mut AxumSessionStore, storable: bool)
        ensures
            final(store).same_setup(old(store)),
            final(store)@ == tapped(
                old(store)@,
                self.id@,
                |r: SessionModel| r.set_store(storable),
            ),
    {
        match store.inner.remove(self.id) {
            Some(mut record) => {
                record.set_store(storable);
                store.inner.insert(record);
            },
            None => {
                assert(store@ =~= old(store)@);
            },
        }
    }

    /// The serialized value stored under `key`; absent without a record or
    /// without the key.
    pub fn get(&self, store: &AxumSessionStore, key: &str) -> (value: Option<String>)
        ensures
            value.is_some() == read(store@, self.id@, key@).is_some(),
            value.is_some() ==> value.unwrap()@ == read(store@, self.id@, key@).unwrap(),
    {
        match store.inner.get(self.id) {
            Some(record) => record.get(key),
            None => None,
        }
    }

    /// Takes `key` out and returns its serialized value. The record becomes
    /// dirty if the key was there.
    pub fn get_remove(&self, store: &mut AxumSessionStore, key: &str) -> (value: Option<String>)
        ensures
            final(store).same_setup(old(store)),
            final(store)@ == tapped(
                old(store)@,
                self.id@,
                |r: SessionModel| r.get_remove(key@),
            ),
            value.is_some() == read(old(store)@, self.id@, key@).is_some(),
            value.is_some() ==> value.unwrap()@ == read(old(store)@, self.id@, key@).unwrap(),
    {
        match store.inner.remove(self.id) {
            Some(mut record) => {
                let value = record.get_remove(key);
                store.inner.insert(record);
                value
            },
            None => {
                assert(store@ =~= old(store)@);
                None
            },
        }
    }

    /// Stores the serialized `value` under `key`. A value equal to the one
    /// already stored changes nothing, so the record does not become dirty.
    pub fn set(&self, store: &mut AxumSessionStore, key: &str, value: String)
        ensures
            final(store).same_setup(old(store)),
            final(store)@ == tapped(
                old(store)@,
                self.id@,
                |r: SessionModel| r.set(key@, value@),
            ),
    {
        match store.inner.remove(self.id) {
            Some(mut record) => {
                record.set(key, value);
                store.inner.insert(record);
            },
            None => {
                assert(store@ =~= old(store)@);
            },
        }
    }

    /// Takes `key` out. The record becomes dirty whether or not the key was
    /// there.
    pub fn remove(&self, store: &mut AxumSessionStore, key: &str)
        ensures
            final(store).same_setup(old(store)),
            final(store)@ == tapped(old(store)@, self.id@, |r: SessionModel| r.remove(key@)),
    {
        match store.inner.remove(self.id) {
            Some(mut record) => {
                record.remove(key);
                store.inner.insert(record);
            },
            None => {
                assert(store@ =~= old(store)@);
            },
        }
    }

    /// Takes every key out and marks the record dirty.
    pub fn clear(&self, store: &mut AxumSessionStore)
        ensures
            final(store).same_setup(old(store)),
            final(store)@ == tapped(old(store)@, self.id@, |r: SessionModel| r.clear()),
    {
        match store.inner.remove(self.id) {
            Some(mut record) => {
                record.clear();
                store.inner.insert(record);
            },
            None => {
                assert(store@ =~= old(store)@);
            },
        }
    }

    /// How many sessions exist: with a persistent backend the number of rows
    /// that it reports, and 0 where it could not say; without one the number
    /// of resident records.
    pub fn count(&self, store: &AxumSessionStore, backend_rows: Option<i64>) -> (count: i64)
        ensures
            store.persistent ==> count == match backend_rows {
                Some(rows) => rows,
                None => 0,
            },
            !store.persistent ==> count == if store@.len() > i64::MAX {
                i64::MAX as int
            } else {
                store@.len() as int
            },
    {
        if store.is_persistent() {
            match backend_rows {
                Some(rows) => rows,
                None => 0,
            }
        } else {
            let resident: u64 = store.len() as u64;
            if resident > 0x7fff_ffff_ffff_ffffu64 {
                i64::MAX
            } else {
                resident as i64
            }
        }
    }

    /// Whether the session has asked for a new identifier.
    pub fn needs_renewal(&self, store: &AxumSessionStore) -> (wanted: bool)
        ensures
            wanted == (store@.contains_key(self.id@) && store@[self.id@].renew),
    {
        match store.inner.get(self.id) {
            Some(record) => record.renew,
            None => false,
        }
    }

    /// Moves the record to the newly issued identifier `fresh` and answers
    /// the request for renewal. Returns the handle on the renewed session and
    /// what the backend is owed: with a persistent backend, the deletion of
    /// the old row. Without a record, or where `fresh` is taken, nothing
    /// changes and no handle is returned.
    pub fn rotate(&self, store: &mut AxumSessionStore, fresh: AxumSessionID) -> (outcome: (
        Option<AxumSession>,
        FlushAction,
    ))
        ensures
            final(store).same_setup(old(store)),
            old(store)@.contains_key(self.id@) && !old(store)@.contains_key(fresh@) ==> {
                &&& outcome.0 == Some(AxumSession { id: fresh })
                &&& final(store)@ == rotated(old(store)@, self.id@, fresh@)
                &&& outcome.1 == if old(store).persistent {
                    FlushAction::Delete(self.id)
                } else {
                    FlushAction::Nothing
                }
            },
            !(old(store)@.contains_key(self.id@) && !old(store)@.contains_key(fresh@)) ==> {
                &&& outcome.0.is_none()
                &&& final(store)@ == old(store)@
                &&& outcome.1 == FlushAction::Nothing
            },
    {
        if store.inner.contains_key(fresh) {
            return (None, FlushAction::Nothing);
        }
        match store.inner.remove(self.id) {
            Some(mut record) => {
                record.id = fresh;
                record.renew = false;
                record.update = true;
                store.inner.insert(record);
                let action = if store.is_persistent() {
                    FlushAction::Delete(self.id)
                } else {
                    FlushAction::Nothing
                };
                (Some(AxumSession { id: fresh }), action)
            },
            None => {
                assert(store@ =~= old(store)@);
                (None, FlushAction::Nothing)
            },
        }
    }

    /// Flushes the session at the end of a request. A destroyed record leaves
    /// the store; a dirty one becomes clean. The answer says what the backend
    /// is owed.
    pub fn finalize(&self, store: &mut AxumSessionStore) -> (action: FlushAction)
        ensures
            final(store).same_setup(old(store)),
            final(store)@ == flushed(old(store)@, self.id@),
            action == flush_action(old(store)@, old(store).persistent, self.id),
    {
        let persistent = store.is_persistent();
        match store.inner.remove(self.id) {
            Some(mut record) => {
                if record.destroy {
                    if persistent {
                        FlushAction::Delete(self.id)
                    } else {
                        FlushAction::Nothing
                    }
                } else if record.update {
                    record.update = false;
                    let storable = record.storable;
                    store.inner.insert(record);
                    if !persistent {
                        FlushAction::Nothing
                    } else if storable {
                        FlushAction::Store(self.id)
                    } else {
                        FlushAction::Delete(self.id)
                    }
                } else {
                    store.inner.insert(record);
                    assert(store@ =~= old(store)@);
                    FlushAction::Nothing
                }
            },
            None => {
                assert(store@ =~= old(store)@);
                FlushAction::Nothing
            },
        }
    }
}

} // verus!
