use session_core::config::AxumSessionConfig;
use session_core::errors::SessionError;
use session_core::session::{AxumSession, FlushAction, IssueStep};
use session_core::session_data::AxumSessionData;
use session_core::session_id::AxumSessionID;
use session_core::session_store::AxumSessionStore;

fn memory_store(now: i64) -> AxumSessionStore {
    AxumSessionStore::new(false, AxumSessionConfig::new(), now)
}

fn backed_store(now: i64) -> AxumSessionStore {
    AxumSessionStore::new(true, AxumSessionConfig::new(), now)
}

fn issue(store: &AxumSessionStore) -> AxumSessionID {
    loop {
        match AxumSession::generate_uuid(store) {
            IssueStep::Accept(id) => return id,
            IssueStep::AskBackend(id) => {
                if let Ok(Some(id)) = AxumSession::confirm_candidate(id, Ok(false)) {
                    return id;
                }
            }
            IssueStep::Retry => {}
        }
    }
}

#[test]
fn basic() {
    let mut store = backed_store(1_000);
    let id = issue(&store);
    assert!(store.create(id, true, 1_000));

    let mut object = serde_json::Map::new();
    object.insert("a".to_string(), serde_json::Value::from(2u32));
    object.insert("b".to_string(), serde_json::Value::from("Hello World"));
    let test = serde_json::Value::Object(object);

    let session = AxumSession::new(id);
    session.set(&mut store, "test", serde_json::to_string(&test).unwrap());
    assert_eq!(session.finalize(&mut store), FlushAction::Store(id));

    let token = id.to_string();
    let resolved = AxumSession::resolve(Some(token.as_str())).unwrap();
    let later = AxumSession::new(resolved);
    let stored = later.get(&store, "test").unwrap();
    let other: serde_json::Value = serde_json::from_str(&stored).unwrap();
    assert_eq!(other, test);
    assert_eq!(other["a"], 2);
    assert_eq!(other["b"], "Hello World");
}

#[test]
fn set_two_keys_finalize_and_reload() {
    let mut store = memory_store(0);
    let id = issue(&store);
    assert!(store.create(id, false, 0));
    let session = AxumSession::new(id);
    session.set(&mut store, "a", serde_json::to_string(&2).unwrap());
    session.set(&mut store, "b", serde_json::to_string("Hello World").unwrap());
    assert_eq!(session.finalize(&mut store), FlushAction::Nothing);

    let fresh = AxumSession::new(id);
    let a: i32 = serde_json::from_str(&fresh.get(&store, "a").unwrap()).unwrap();
    let b: String = serde_json::from_str(&fresh.get(&store, "b").unwrap()).unwrap();
    assert_eq!(a, 2);
    assert_eq!(b, "Hello World");
}

#[test]
fn two_handles_on_one_identifier_see_the_last_write() {
    let mut store = memory_store(0);
    let id = AxumSessionID(11);
    assert!(store.create(id, false, 0));
    let first = AxumSession::new(id);
    let second = AxumSession::new(id);
    first.set(&mut store, "x", "1".to_string());
    second.set(&mut store, "x", "2".to_string());
    assert_eq!(first.get(&store, "x"), Some("2".to_string()));
    second.set(&mut store, "x", "1".to_string());
    assert_eq!(second.get(&store, "x"), Some("1".to_string()));
    assert_eq!(store.len(), 1);
}

#[test]
fn expired_record_leaves_the_count_after_one_sweep_interval() {
    let config = AxumSessionConfig::new().with_purge_update(5).with_lifetime(-1);
    let mut store = AxumSessionStore::new(false, config, 100);
    let id = AxumSessionID(1);
    assert!(store.create(id, false, 100));
    let session = AxumSession::new(id);
    assert_eq!(session.count(&store, None), 1);

    let first = store.run_sweeps(100);
    assert!(first.deletes.is_empty());
    assert_eq!(first.cleanup, None);
    assert_eq!(session.count(&store, None), 0);
    assert_eq!(store.timers.last_expiry_sweep, 105);
}

#[test]
fn sweep_waits_for_its_interval() {
    let config = AxumSessionConfig::new().with_purge_update(5).with_lifetime(10);
    let mut store = AxumSessionStore::new(false, config, 100);
    store.run_sweeps(100);
    assert_eq!(store.timers.last_expiry_sweep, 105);
    assert!(store.create(AxumSessionID(1), false, 100));
    store.run_sweeps(104);
    assert_eq!(store.len(), 1);
    store.run_sweeps(111);
    assert_eq!(store.len(), 0);
    assert_eq!(store.timers.last_expiry_sweep, 116);
}

#[test]
fn record_is_kept_until_its_expiry_has_passed() {
    let config = AxumSessionConfig::new().with_lifetime(10);
    let mut store = AxumSessionStore::new(false, config, 0);
    assert!(store.create(AxumSessionID(1), false, 100));
    assert!(store.sweep_memory(110).is_empty());
    assert_eq!(store.len(), 1);
    assert!(store.is_active(AxumSessionID(1), 110));
    assert!(!store.is_active(AxumSessionID(1), 111));
    store.sweep_memory(111);
    assert_eq!(store.len(), 0);
}

#[test]
fn set_then_get_returns_the_value() {
    let mut store = memory_store(0);
    let id = AxumSessionID(5);
    store.create(id, false, 0);
    let session = AxumSession::new(id);
    session.set(&mut store, "k", "\"v\"".to_string());
    assert_eq!(session.get(&store, "k"), Some("\"v\"".to_string()));
    assert_eq!(AxumSession::new(id).get(&store, "k"), Some("\"v\"".to_string()));
    assert_eq!(session.get(&store, "other"), None);
}

#[test]
fn set_of_the_stored_value_keeps_the_record_clean() {
    let mut store = memory_store(0);
    let id = AxumSessionID(5);
    store.create(id, false, 0);
    let session = AxumSession::new(id);
    session.set(&mut store, "k", "1".to_string());
    assert!(store.inner.get(id).unwrap().update);
    session.finalize(&mut store);
    assert!(!store.inner.get(id).unwrap().update);

    session.set(&mut store, "k", "1".to_string());
    assert!(!store.inner.get(id).unwrap().update);
    session.set(&mut store, "k", "2".to_string());
    assert!(store.inner.get(id).unwrap().update);
    assert_eq!(session.get(&store, "k"), Some("2".to_string()));
}

#[test]
fn remove_then_get_is_absent() {
    let mut store = memory_store(0);
    let id = AxumSessionID(5);
    store.create(id, false, 0);
    let session = AxumSession::new(id);
    session.set(&mut store, "k", "1".to_string());
    session.set(&mut store, "j", "2".to_string());
    session.finalize(&mut store);
    session.remove(&mut store, "k");
    assert_eq!(session.get(&store, "k"), None);
    assert_eq!(session.get(&store, "j"), Some("2".to_string()));
    assert!(store.inner.get(id).unwrap().update);
}

#[test]
fn remove_of_a_missing_key_still_dirties() {
    let mut store = memory_store(0);
    let id = AxumSessionID(5);
    store.create(id, false, 0);
    let session = AxumSession::new(id);
    session.finalize(&mut store);
    assert!(!store.inner.get(id).unwrap().update);
    session.remove(&mut store, "nothing");
    assert!(store.inner.get(id).unwrap().update);
}

#[test]
fn get_remove_returns_and_removes() {
    let mut store = memory_store(0);
    let id = AxumSessionID(5);
    store.create(id, false, 0);
    let session = AxumSession::new(id);
    session.set(&mut store, "k", "1".to_string());
    session.finalize(&mut store);
    assert_eq!(session.get_remove(&mut store, "missing"), None);
    assert!(!store.inner.get(id).unwrap().update);
    assert_eq!(session.get_remove(&mut store, "k"), Some("1".to_string()));
    assert!(store.inner.get(id).unwrap().update);
    assert_eq!(session.get(&store, "k"), None);
}

#[test]
fn clear_then_get_is_absent() {
    let mut store = memory_store(0);
    let id = AxumSessionID(5);
    store.create(id, false, 0);
    let session = AxumSession::new(id);
    session.set(&mut store, "a", "1".to_string());
    session.set(&mut store, "b", "2".to_string());
    session.finalize(&mut store);
    session.clear(&mut store);
    assert_eq!(session.get(&store, "a"), None);
    assert_eq!(session.get(&store, "b"), None);
    assert!(store.inner.get(id).unwrap().update);
    assert!(store.inner.get(id).unwrap().data.is_empty());
}

#[test]
fn destroyed_record_is_swept_and_its_row_deleted() {
    let mut store = backed_store(0);
    let kept = AxumSessionID(1);
    let gone = AxumSessionID(2);
    let quiet = AxumSessionID(3);
    store.create(kept, true, 0);
    store.create(gone, true, 0);
    store.create(quiet, false, 0);
    AxumSession::new(gone).destroy(&mut store);
    AxumSession::new(quiet).destroy(&mut store);
    assert!(!store.is_active(gone, 0));
    assert!(store.is_active(kept, 0));

    let deletes = store.sweep_memory(1);
    assert_eq!(deletes, vec![gone]);
    assert!(store.inner.contains_key(kept));
    assert!(!store.inner.contains_key(gone));
    assert!(!store.inner.contains_key(quiet));

    let again = store.sweep_memory(1);
    assert!(again.is_empty());
    assert_eq!(store.len(), 1);
}

#[test]
fn sweep_without_backend_deletes_no_rows() {
    let mut store = memory_store(0);
    store.create(AxumSessionID(2), true, 0);
    AxumSession::new(AxumSessionID(2)).destroy(&mut store);
    assert!(store.sweep_memory(0).is_empty());
    assert_eq!(store.len(), 0);
}

#[test]
fn storage_sweep_runs_on_its_own_timer() {
    let config = AxumSessionConfig::new().with_purge_update(10).with_purge_database_update(100);
    let mut store = AxumSessionStore::new(true, config, 0);
    let first = store.run_sweeps(0);
    assert_eq!(first.cleanup, Some(0));
    assert_eq!(store.timers.last_expiry_sweep, 10);
    assert_eq!(store.timers.last_database_expiry_sweep, 100);
    let second = store.run_sweeps(50);
    assert_eq!(second.cleanup, None);
    assert_eq!(store.timers.last_expiry_sweep, 60);
    assert_eq!(store.timers.last_database_expiry_sweep, 100);
    let third = store.run_sweeps(100);
    assert_eq!(third.cleanup, Some(100));
    assert_eq!(store.timers.last_database_expiry_sweep, 200);
}

#[test]
fn tick_reads_the_clock() {
    let config = AxumSessionConfig::new().with_lifetime(0);
    let mut store = AxumSessionStore::new(true, config, 0);
    store.create(AxumSessionID(9), true, 1_000_000);
    let actions = store.tick();
    assert_eq!(actions.deletes, vec![AxumSessionID(9)]);
    assert_eq!(store.len(), 0);
    let now = actions.cleanup.unwrap();
    assert!(now > 1_600_000_000);
    assert_eq!(store.timers.last_expiry_sweep, now + 3_600);
    assert_eq!(store.timers.last_database_expiry_sweep, now + 18_000);
}

#[test]
fn issuance_skips_resident_identifiers() {
    let mut store = memory_store(0);
    let a = issue(&store);
    store.create(a, false, 0);
    assert_eq!(AxumSession::check_candidate(&store, a), IssueStep::Retry);
    let b = issue(&store);
    assert_ne!(a, b);
    assert_eq!(AxumSession::check_candidate(&store, b), IssueStep::Accept(b));
    assert_eq!(store.len(), 1);
}

#[test]
fn issuance_asks_the_backend() {
    let store = backed_store(0);
    let candidate = AxumSessionID(77);
    assert_eq!(AxumSession::check_candidate(&store, candidate), IssueStep::AskBackend(candidate));
    assert!(matches!(AxumSession::confirm_candidate(candidate, Ok(false)), Ok(Some(id)) if id == candidate));
    assert!(matches!(AxumSession::confirm_candidate(candidate, Ok(true)), Ok(None)));
}

#[test]
fn failed_backend_query_fails_the_issuance() {
    let failure = SessionError::Backend("connection refused".to_string());
    match AxumSession::confirm_candidate(AxumSessionID(77), Err(failure)) {
        Err(SessionError::Backend(reason)) => assert_eq!(reason, "connection refused"),
        _ => panic!("a failed query must not issue an identifier"),
    }
    let error = SessionError::Backend("timeout".to_string());
    assert_eq!(error.message(), "timeout");
}

#[test]
fn count_prefers_the_backend() {
    let mut store = backed_store(0);
    store.create(AxumSessionID(1), true, 0);
    let session = AxumSession::new(AxumSessionID(1));
    assert_eq!(session.count(&store, Some(42)), 42);
    assert_eq!(session.count(&store, None), 0);
    let mut local = memory_store(0);
    local.create(AxumSessionID(1), true, 0);
    local.create(AxumSessionID(2), true, 0);
    assert_eq!(session.count(&local, Some(42)), 2);
}

#[test]
fn operations_without_a_record_change_nothing() {
    let mut store = memory_store(0);
    let session = AxumSession::new(AxumSessionID(404));
    session.set(&mut store, "k", "1".to_string());
    session.remove(&mut store, "k");
    session.clear(&mut store);
    session.renew(&mut store);
    session.destroy(&mut store);
    session.set_longterm(&mut store, true);
    session.set_store(&mut store, true);
    assert_eq!(session.get(&store, "k"), None);
    assert_eq!(session.get_remove(&mut store, "k"), None);
    assert_eq!(session.finalize(&mut store), FlushAction::Nothing);
    assert!(!session.needs_renewal(&store));
    assert_eq!(store.len(), 0);
}

#[test]
fn flags_are_set_and_dirty_the_record() {
    let mut store = memory_store(0);
    let id = AxumSessionID(8);
    store.create(id, false, 0);
    let session = AxumSession::new(id);
    session.finalize(&mut store);

    session.set_longterm(&mut store, true);
    assert!(store.inner.get(id).unwrap().longterm);
    assert!(store.inner.get(id).unwrap().update);
    session.finalize(&mut store);

    session.set_store(&mut store, true);
    assert!(store.inner.get(id).unwrap().storable);
    assert!(store.inner.get(id).unwrap().update);
    session.finalize(&mut store);

    session.renew(&mut store);
    assert!(store.inner.get(id).unwrap().renew);
    assert!(store.inner.get(id).unwrap().update);
    assert!(session.needs_renewal(&store));
    session.finalize(&mut store);

    session.destroy(&mut store);
    assert!(store.inner.get(id).unwrap().destroy);
    assert!(store.inner.get(id).unwrap().update);
}

#[test]
fn finalize_writes_deletes_or_does_nothing() {
    let mut store = backed_store(0);
    let id = AxumSessionID(8);
    store.create(id, true, 0);
    let session = AxumSession::new(id);
    assert_eq!(session.finalize(&mut store), FlushAction::Store(id));
    assert_eq!(session.finalize(&mut store), FlushAction::Nothing);

    session.set_store(&mut store, false);
    assert_eq!(session.finalize(&mut store), FlushAction::Delete(id));
    assert_eq!(session.finalize(&mut store), FlushAction::Nothing);
    assert!(store.inner.contains_key(id));

    session.destroy(&mut store);
    assert_eq!(session.finalize(&mut store), FlushAction::Delete(id));
    assert!(!store.inner.contains_key(id));
    assert_eq!(session.finalize(&mut store), FlushAction::Nothing);
}

#[test]
fn rotate_moves_the_record() {
    let mut store = backed_store(0);
    let old_id = AxumSessionID(1);
    let new_id = AxumSessionID(2);
    let taken = AxumSessionID(3);
    store.create(old_id, true, 0);
    store.create(taken, true, 0);
    let session = AxumSession::new(old_id);
    session.set(&mut store, "k", "1".to_string());
    session.renew(&mut store);

    let (refused, nothing) = session.rotate(&mut store, taken);
    assert!(refused.is_none());
    assert_eq!(nothing, FlushAction::Nothing);
    assert!(store.inner.contains_key(old_id));

    let (renewed, action) = session.rotate(&mut store, new_id);
    let renewed = renewed.unwrap();
    assert_eq!(renewed.id, new_id);
    assert_eq!(action, FlushAction::Delete(old_id));
    assert!(!store.inner.contains_key(old_id));
    assert_eq!(renewed.get(&store, "k"), Some("1".to_string()));
    assert!(!renewed.needs_renewal(&store));
    assert_eq!(store.inner.get(new_id).unwrap().id, new_id);
    assert_eq!(store.len(), 2);

    let (missing, none) = session.rotate(&mut store, AxumSessionID(4));
    assert!(missing.is_none());
    assert_eq!(none, FlushAction::Nothing);
}

#[test]
fn refresh_uses_the_policy_of_the_record() {
    let config = AxumSessionConfig::new().with_lifetime(10).with_max_lifetime(1_000);
    let mut store = AxumSessionStore::new(false, config, 0);
    let id = AxumSessionID(1);
    store.create(id, false, 100);
    assert_eq!(store.inner.get(id).unwrap().expires, 110);
    store.refresh(id, 200);
    assert_eq!(store.inner.get(id).unwrap().expires, 210);
    AxumSession::new(id).set_longterm(&mut store, true);
    store.refresh(id, 200);
    assert_eq!(store.inner.get(id).unwrap().expires, 1_200);
    store.refresh(AxumSessionID(2), 200);
    assert_eq!(store.len(), 1);
}

#[test]
fn adopt_keeps_the_resident_record() {
    let config = AxumSessionConfig::new();
    let mut store = memory_store(0);
    let id = AxumSessionID(1);
    let mut loaded = AxumSessionData::new(id, true, 0, &config);
    loaded.set("k", "1".to_string());
    assert!(store.adopt(loaded));
    assert_eq!(AxumSession::new(id).get(&store, "k"), Some("1".to_string()));
    let other = AxumSessionData::new(id, true, 0, &config);
    assert!(!store.adopt(other));
    assert_eq!(AxumSession::new(id).get(&store, "k"), Some("1".to_string()));
    assert!(!store.create(id, true, 0));
    assert_eq!(store.len(), 1);
}
