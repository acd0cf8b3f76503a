//! Laws of the session engine, stated over the models that the contracts of
//! the operations use.

use crate::errors::SessionError;
use crate::memory_store::{purge_due, swept};
use crate::session::{
    candidate_step, confirmed, flush_action, flushed, read, tapped, FlushAction, IssueStep,
};
use crate::session_data::SessionModel;
use crate::session_id::AxumSessionID;
use vstd::prelude::*;

verus! {

/// An identifier is issued only if no record in memory bears it, and, with a
/// persistent backend, only if the backend has answered that no row bears it.
/// A failed query issues nothing.
pub proof fn lemma_issued_is_free(
    records: Map<u128, SessionModel>,
    persistent: bool,
    candidate: AxumSessionID,
    answer: Result<bool, SessionError>,
)
    ensures
        candidate_step(records, persistent, candidate) == IssueStep::Accept(candidate) <==> (
        !records.contains_key(candidate@) && !persistent),
        candidate_step(records, persistent, candidate) == IssueStep::AskBackend(candidate) <==> (
        !records.contains_key(candidate@) && persistent),
        forall|other: AxumSessionID|
            other != candidate ==> candidate_step(records, persistent, candidate)
                != IssueStep::Accept(other) && candidate_step(records, persistent, candidate)
                != IssueStep::AskBackend(other),
        confirmed(candidate, answer) == Ok::<Option<AxumSessionID>, SessionError>(Some(candidate))
            <==> answer == Ok::<bool, SessionError>(false),
        answer is Err ==> confirmed(candidate, answer) is Err,
{
}

/// While a record bears an identifier, that identifier is not issued again:
/// the candidate is sent back whatever the backend holds.
pub proof fn lemma_resident_is_refused(
    records: Map<u128, SessionModel>,
    persistent: bool,
    candidate: AxumSessionID,
)
    requires
        records.contains_key(candidate@),
    ensures
        candidate_step(records, persistent, candidate) == IssueStep::Retry,
{
}

/// A value that was set is the value that is read, by any handle on the same
/// identifier.
pub proof fn lemma_set_then_get(
    records: Map<u128, SessionModel>,
    id: u128,
    key: Seq<char>,
    value: Seq<char>,
)
    requires
        records.contains_key(id),
    ensures
        read(tapped(records, id, |r: SessionModel| r.set(key, value)), id, key) == Some(value),
{
}

/// Setting a key does not change what is read under another key.
pub proof fn lemma_set_keeps_other_keys(
    records: Map<u128, SessionModel>,
    id: u128,
    key: Seq<char>,
    value: Seq<char>,
    other: Seq<char>,
)
    requires
        other != key,
    ensures
        read(tapped(records, id, |r: SessionModel| r.set(key, value)), id, other) == read(
            records,
            id,
            other,
        ),
{
}

/// Setting the value that is already stored changes nothing: a clean record
/// stays clean.
pub proof fn lemma_set_same_value(
    records: Map<u128, SessionModel>,
    id: u128,
    key: Seq<char>,
    value: Seq<char>,
)
    requires
        read(records, id, key) == Some(value),
    ensures
        tapped(records, id, |r: SessionModel| r.set(key, value)) == records,
{
    assert(tapped(records, id, |r: SessionModel| r.set(key, value)) =~= records);
}

/// Setting a value that differs from the stored one, or a new key, makes the
/// record dirty.
pub proof fn lemma_set_new_value_dirties(
    records: Map<u128, SessionModel>,
    id: u128,
    key: Seq<char>,
    value: Seq<char>,
)
    requires
        records.contains_key(id),
        read(records, id, key) != Some(value),
    ensures
        tapped(records, id, |r: SessionModel| r.set(key, value))[id].update,
{
}

/// A key that was removed reads as absent.
pub proof fn lemma_remove_then_get(records: Map<u128, SessionModel>, id: u128, key: Seq<char>)
    ensures
        read(tapped(records, id, |r: SessionModel| r.remove(key)), id, key).is_none(),
        read(tapped(records, id, |r: SessionModel| r.get_remove(key)), id, key).is_none(),
{
}

/// After a clear every key reads as absent.
pub proof fn lemma_clear_then_get(records: Map<u128, SessionModel>, id: u128, key: Seq<char>)
    ensures
        read(tapped(records, id, |r: SessionModel| r.clear()), id, key).is_none(),
{
}

/// The memory sweep that follows a destroy evicts the record, and its
/// identifier is handed to the backend for deletion exactly if the record is
/// storable.
pub proof fn lemma_destroy_then_sweep(records: Map<u128, SessionModel>, id: u128, now: int)
    requires
        records.contains_key(id),
    ensures
        !swept(tapped(records, id, |r: SessionModel| r.destroy()), now).contains_key(id),
        purge_due(tapped(records, id, |r: SessionModel| r.destroy()), now).contains(id)
            == records[id].storable,
{
}

/// A memory sweep evicts a record whose expiry has passed, and keeps, as it
/// is, a record that is neither expired nor destroyed.
pub proof fn lemma_sweep_evicts_expired(records: Map<u128, SessionModel>, id: u128, now: int)
    requires
        records.contains_key(id),
    ensures
        records[id].expires < now ==> !swept(records, now).contains_key(id),
        records[id].expires >= now && !records[id].destroy ==> swept(records, now).contains_key(id)
            && swept(records, now)[id] == records[id],
{
}

/// Two sweep passes with nothing in between leave what the later one alone
/// would leave, and a second pass at the same time finds nothing to evict or
/// to delete.
pub proof fn lemma_sweep_idempotent(records: Map<u128, SessionModel>, first: int, second: int)
    requires
        first <= second,
    ensures
        swept(swept(records, first), second) == swept(records, second),
        swept(swept(records, first), first) == swept(records, first),
        purge_due(swept(records, first), first) == Set::<u128>::empty(),
{
    assert(swept(swept(records, first), second) =~= swept(records, second));
    assert(swept(swept(records, first), first) =~= swept(records, first));
    assert(purge_due(swept(records, first), first) =~= Set::<u128>::empty());
}

/// A second flush with nothing in between changes nothing and owes the
/// backend nothing.
pub proof fn lemma_flush_idempotent(records: Map<u128, SessionModel>, persistent: bool, id:
    AxumSessionID)
    ensures
        flushed(flushed(records, id@), id@) == flushed(records, id@),
        flush_action(flushed(records, id@), persistent, id) == FlushAction::Nothing,
{
    assert(flushed(flushed(records, id@), id@) =~= flushed(records, id@));
}

/// After a flush the record of the session is gone or clean.
pub proof fn lemma_flush_cleans(records: Map<u128, SessionModel>, id: u128)
    ensures
        flushed(records, id).contains_key(id) ==> !flushed(records, id)[id].update && !flushed(
            records,
            id,
        )[id].destroy,
{
}

} // verus!
