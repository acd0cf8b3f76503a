use session_core::config::{
    AxumSessionConfig, SameSite, DEFAULT_LIFESPAN, DEFAULT_MAX_LIFESPAN,
    DEFAULT_PURGE_DATABASE_UPDATE, DEFAULT_PURGE_UPDATE,
};
use session_core::cookies::{create_cookie, CookieType};
use session_core::data_map::DataMap;
use session_core::memory_store::MemoryStore;
use session_core::session::AxumSession;
use session_core::session_data::{expiry, AxumSessionData};
use session_core::session_id::AxumSessionID;
use session_core::session_timers::AxumSessionTimers;

#[test]
fn identifier_parses_from_its_text() {
    let id = AxumSessionID::parse("67e55044-10b1-426f-9247-bb680e5fe0c8");
    assert_eq!(id, Some(AxumSessionID(0x67e5_5044_10b1_426f_9247_bb68_0e5f_e0c8)));
    assert_eq!(AxumSessionID::parse("not an identifier"), None);
    assert_eq!(AxumSessionID::parse(""), None);
    assert_eq!(AxumSessionID::from_parsed(Some(3)), Some(AxumSessionID(3)));
    assert_eq!(AxumSessionID::from_parsed(None), None);
}

#[test]
fn identifier_prints_hyphenated_lower_case() {
    let id = AxumSessionID(0x67e5_5044_10b1_426f_9247_bb68_0e5f_e0c8);
    assert_eq!(id.to_string(), "67e55044-10b1-426f-9247-bb680e5fe0c8");
    assert_eq!(AxumSessionID(0).to_string(), "00000000-0000-0000-0000-000000000000");
    assert_eq!(AxumSessionID::parse(&id.to_string()), Some(id));
}

#[test]
fn random_identifier_has_version_and_variant_bits() {
    let a = AxumSessionID::random();
    let b = AxumSessionID::random();
    let mask = 0x0000_0000_0000_F000_C000_0000_0000_0000u128;
    let bits = 0x0000_0000_0000_4000_8000_0000_0000_0000u128;
    assert_eq!(a.0 & mask, bits);
    assert_eq!(b.0 & mask, bits);
    assert_ne!(a, b);
}

#[test]
fn resolve_reads_the_token() {
    assert_eq!(AxumSession::resolve(None), None);
    assert_eq!(AxumSession::resolve(Some("garbage")), None);
    assert_eq!(
        AxumSession::resolve(Some("00000000-0000-0000-0000-00000000002a")),
        Some(AxumSessionID(42))
    );
}

#[test]
fn expiry_saturates() {
    assert_eq!(expiry(100, 21_600), 21_700);
    assert_eq!(expiry(100, -200), -100);
    assert_eq!(expiry(i64::MAX - 1, 5), i64::MAX);
    assert_eq!(expiry(i64::MAX, 0), i64::MAX);
    assert_eq!(expiry(i64::MIN + 1, -5), i64::MIN);
    assert_eq!(expiry(i64::MIN, i64::MAX), -1);
}

#[test]
fn default_configuration() {
    let config = AxumSessionConfig::new();
    assert_eq!(config.cookie_name, "sqlx_session");
    assert_eq!(config.storable_cookie_name, "session_acceptance");
    assert_eq!(config.cookie_max_age, Some(5_184_000));
    assert_eq!(config.storable_cookie_max_age, Some(5_184_000));
    assert_eq!(config.cookie_path, "/");
    assert_eq!(config.cookie_domain, None);
    assert!(config.cookie_http_only);
    assert!(!config.cookie_secure);
    assert_eq!(config.cookie_same_site, SameSite::Lax);
    assert_eq!(config.lifespan, 21_600);
    assert_eq!(config.max_lifespan, 5_184_000);
    assert_eq!(config.table_name, "async_sessions");
    assert_eq!(config.purge_update, 3_600);
    assert_eq!(config.purge_database_update, 18_000);
    assert_eq!(DEFAULT_LIFESPAN, 6 * 60 * 60);
    assert_eq!(DEFAULT_MAX_LIFESPAN, 60 * 24 * 60 * 60);
    assert_eq!(DEFAULT_PURGE_UPDATE, 60 * 60);
    assert_eq!(DEFAULT_PURGE_DATABASE_UPDATE, 5 * 60 * 60);
}

#[test]
fn builders_set_one_option_each() {
    let config = AxumSessionConfig::new()
        .with_cookie_name("sid")
        .with_storable_cookie_name("accept")
        .with_cookie_path("/app")
        .with_table_name("test_table")
        .with_cookie_domain(Some("example.org".to_string()))
        .with_max_age(Some(60))
        .with_storable_max_age(None)
        .with_http_only(false)
        .with_secure(true)
        .with_cookie_same_site(SameSite::Strict)
        .with_lifetime(1)
        .with_max_lifetime(2)
        .with_purge_update(3)
        .with_purge_database_update(4);
    assert_eq!(config.cookie_name, "sid");
    assert_eq!(config.storable_cookie_name, "accept");
    assert_eq!(config.cookie_path, "/app");
    assert_eq!(config.table_name, "test_table");
    assert_eq!(config.cookie_domain, Some("example.org".to_string()));
    assert_eq!(config.cookie_max_age, Some(60));
    assert_eq!(config.storable_cookie_max_age, None);
    assert!(!config.cookie_http_only);
    assert!(config.cookie_secure);
    assert_eq!(config.cookie_same_site, SameSite::Strict);
    assert_eq!(config.lifespan, 1);
    assert_eq!(config.max_lifespan, 2);
    assert_eq!(config.purge_update, 3);
    assert_eq!(config.purge_database_update, 4);
    assert_eq!(config.lifespan_for(false), 1);
    assert_eq!(config.lifespan_for(true), 2);
}

#[test]
fn cookie_names_and_ages_come_from_the_configuration() {
    let config = AxumSessionConfig::new()
        .with_cookie_name("sid")
        .with_storable_cookie_name("accept")
        .with_max_age(Some(60))
        .with_storable_max_age(None);
    assert_eq!(CookieType::Data.get_name(&config), "sid");
    assert_eq!(CookieType::Storable.get_name(&config), "accept");
    assert_eq!(CookieType::Data.get_age(&config), Some(60));
    assert_eq!(CookieType::Storable.get_age(&config), None);
}

#[test]
fn cookie_without_domain_has_no_same_site() {
    let config = AxumSessionConfig::new();
    let cookie = create_cookie(&config, "value".to_string(), CookieType::Data);
    assert_eq!(cookie.name, "sqlx_session");
    assert_eq!(cookie.value, "value");
    assert_eq!(cookie.path, "/");
    assert!(!cookie.secure);
    assert!(cookie.http_only);
    assert_eq!(cookie.domain, None);
    assert_eq!(cookie.same_site, None);
    assert_eq!(cookie.max_age, Some(5_184_000));
}

#[test]
fn cookie_with_domain_carries_same_site() {
    let config = AxumSessionConfig::new()
        .with_cookie_domain(Some("example.org".to_string()))
        .with_cookie_same_site(SameSite::Unrestricted)
        .with_secure(true)
        .with_storable_max_age(None);
    let cookie = create_cookie(&config, "true".to_string(), CookieType::Storable);
    assert_eq!(cookie.name, "session_acceptance");
    assert_eq!(cookie.value, "true");
    assert!(cookie.secure);
    assert_eq!(cookie.domain, Some("example.org".to_string()));
    assert_eq!(cookie.same_site, Some(SameSite::Unrestricted));
    assert_eq!(cookie.max_age, None);
}

#[test]
fn data_map_behaves_like_a_map() {
    let mut map = DataMap::new();
    assert!(map.is_empty());
    assert_eq!(map.len(), 0);
    assert_eq!(map.insert("a".to_string(), "1".to_string()), None);
    assert_eq!(map.insert("b".to_string(), "2".to_string()), None);
    assert_eq!(map.insert("a".to_string(), "3".to_string()), Some("1".to_string()));
    assert_eq!(map.len(), 2);
    assert!(!map.is_empty());
    assert_eq!(map.get("a"), Some(&"3".to_string()));
    assert_eq!(map.get("b"), Some(&"2".to_string()));
    assert_eq!(map.get("c"), None);
    assert!(map.contains_key("b"));
    assert!(!map.contains_key("c"));
    assert_eq!(map.entries().len(), 2);
    assert_eq!(map.remove("a"), Some("3".to_string()));
    assert_eq!(map.remove("a"), None);
    assert_eq!(map.len(), 1);
    assert_eq!(map.entries()[0].key, "b");
    assert_eq!(map.entries()[0].value, "2");
    map.clear();
    assert!(map.is_empty());
}

#[test]
fn memory_store_holds_one_record_for_each_identifier() {
    let config = AxumSessionConfig::new();
    let mut store = MemoryStore::new();
    assert_eq!(store.len(), 0);
    let id = AxumSessionID(1);
    assert!(store.insert(AxumSessionData::new(id, false, 0, &config)).is_none());
    let mut second = AxumSessionData::new(id, true, 0, &config);
    second.set("k", "1".to_string());
    let replaced = store.insert(second).unwrap();
    assert!(!replaced.storable);
    assert_eq!(store.len(), 1);
    assert!(store.get(id).unwrap().storable);
    assert_eq!(store.get(id).unwrap().get("k"), Some("1".to_string()));
    assert!(store.get(AxumSessionID(2)).is_none());
    assert!(store.contains_key(id));
    assert!(store.remove(AxumSessionID(2)).is_none());
    assert_eq!(store.remove(id).unwrap().id, id);
    assert!(store.remove(id).is_none());
    assert_eq!(store.len(), 0);
}

#[test]
fn memory_sweep_keeps_the_living() {
    let config = AxumSessionConfig::new().with_lifetime(10);
    let mut store = MemoryStore::new();
    store.insert(AxumSessionData::new(AxumSessionID(1), true, 0, &config));
    store.insert(AxumSessionData::new(AxumSessionID(2), true, 5, &config));
    store.insert(AxumSessionData::new(AxumSessionID(3), false, 0, &config));
    store.insert(AxumSessionData::new(AxumSessionID(4), true, 20, &config));
    let purged = store.sweep(12);
    assert_eq!(purged.len(), 1);
    assert_eq!(purged[0], AxumSessionID(1));
    assert_eq!(store.len(), 2);
    assert!(store.contains_key(AxumSessionID(2)));
    assert!(store.contains_key(AxumSessionID(4)));
    assert_eq!(store.get(AxumSessionID(2)).unwrap().expires, 15);
    assert!(store.sweep(12).is_empty());
    assert_eq!(store.len(), 2);
}

#[test]
fn new_record_is_dirty_and_alive() {
    let config = AxumSessionConfig::new();
    let record = AxumSessionData::new(AxumSessionID(1), true, 1_000, &config);
    assert_eq!(record.id, AxumSessionID(1));
    assert!(record.data.is_empty());
    assert_eq!(record.expires, 22_600);
    assert!(!record.longterm);
    assert!(record.storable);
    assert!(!record.destroy);
    assert!(!record.renew);
    assert!(record.update);
    assert!(!record.is_stale(22_600));
    assert!(record.is_stale(22_601));
}

#[test]
fn timers_start_due() {
    let timers = AxumSessionTimers::new(7);
    assert_eq!(timers.last_expiry_sweep, 7);
    assert_eq!(timers.last_database_expiry_sweep, 7);
}
