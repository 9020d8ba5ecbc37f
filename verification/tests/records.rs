use jremote::config::{AppConfig, ConfigError, KnownDevice, Language, UpdateChannel};
use jremote::consent::{ConsentError, ConsentStatus, ConsentStore};
use jremote::session_history::{AccessAttemptStatus, SessionHistory, MAX_HISTORY_ENTRIES};

fn device(id: &str, name: &str, seen: Option<u64>) -> KnownDevice {
    KnownDevice {
        public_id: id.into(),
        display_name: name.into(),
        public_key_fingerprint: None,
        last_seen_unix: seen,
    }
}

#[test]
fn config_round_trips_and_replaces_devices_by_id() {
    let mut config = AppConfig::default();
    config.add_or_update_device(device("123 456 789", "Oficina", None)).unwrap();
    config
        .add_or_update_device(device("123 456 789", "Oficina central", Some(1)))
        .unwrap();
    let loaded = config.clone();
    assert_eq!(loaded.known_devices.len(), 1);
    assert_eq!(loaded.known_devices[0].display_name, "Oficina central");
}

#[test]
fn rejects_an_insecure_relay_url() {
    let config = AppConfig { relay_url: Some("http://relay.example".into()), ..AppConfig::default() };
    assert!(config.validate().is_err());
}

#[test]
fn default_config_is_valid() {
    let config = AppConfig::default();
    assert_eq!(config.version, 1);
    assert_eq!(config.language, Language::Spanish);
    assert_eq!(config.update_channel, UpdateChannel::Stable);
    assert!(config.check_updates_at_startup);
    assert_eq!(config.validate(), Ok(()));
}

#[test]
fn config_validation_errors() {
    let newer = AppConfig { version: 2, ..AppConfig::default() };
    assert_eq!(newer.validate(), Err(ConfigError::NewerVersion));
    let malformed = AppConfig { relay_url: Some("not a url".into()), ..AppConfig::default() };
    assert_eq!(malformed.validate(), Err(ConfigError::MalformedRelayUrl));
    let wss = AppConfig { relay_url: Some("wss://relay.example:9443".into()), ..AppConfig::default() };
    assert_eq!(wss.validate(), Ok(()));
    let mut crowded = AppConfig::default();
    for i in 0..500 {
        crowded.add_or_update_device(device(&i.to_string(), "x", None)).unwrap();
    }
    assert_eq!(
        crowded.add_or_update_device(device("500", "x", None)),
        Err(ConfigError::TooManyDevices)
    );
    assert_eq!(crowded.known_devices.len(), 501);
}

#[test]
fn devices_need_an_id_and_a_name() {
    let mut config = AppConfig::default();
    assert_eq!(
        config.add_or_update_device(device(" \t", "Casa", None)),
        Err(ConfigError::IncompleteDevice)
    );
    assert_eq!(
        config.add_or_update_device(device("1", "\u{3000}", None)),
        Err(ConfigError::IncompleteDevice)
    );
    assert!(config.known_devices.is_empty());
}

#[test]
fn approval_is_explicit_and_persistent() {
    let mut store = ConsentStore::default();
    let id = store.request("123 456 789".into()).unwrap();
    store.resolve(id, true).unwrap();
    store.expire_old(u64::MAX);
    assert_eq!(store.requests[0].status, ConsentStatus::Approved);
}

#[test]
fn consent_requests_expire_and_cannot_be_decided_twice() {
    let mut store = ConsentStore::default();
    assert_eq!(store.request_at(" ".into(), 0, 0, 1), Err(ConsentError::EmptyRequester));
    assert_eq!(store.request_at("123".into(), 100, 100, 7), Ok(7));
    assert_eq!(store.requests[0].expires_at_unix, 160);
    assert_eq!(store.resolve_at(8, true, 101), Err(ConsentError::UnknownRequest));
    assert_eq!(store.resolve_at(7, false, 101), Ok(()));
    assert_eq!(store.requests[0].status, ConsentStatus::Denied);
    assert_eq!(store.resolve_at(7, true, 102), Err(ConsentError::NotPending));

    assert_eq!(store.request_at("456".into(), 200, 200, 9), Ok(9));
    assert_eq!(store.resolve_at(9, true, 260), Err(ConsentError::NotPending));
    assert_eq!(store.requests[1].status, ConsentStatus::Expired);
}

#[test]
fn consent_store_keeps_the_newest_requests() {
    let mut store = ConsentStore::default();
    for i in 0..201u128 {
        store.request_at("device".into(), 0, 0, i).unwrap();
    }
    assert_eq!(store.requests.len(), 200);
    assert_eq!(store.requests[0].id, 1);
    assert_eq!(store.requests[199].id, 200);
}

#[test]
fn history_is_persistent_and_bounded() {
    let mut history = SessionHistory::default();
    for i in 0..=MAX_HISTORY_ENTRIES as u128 {
        history.record(i, "123 456 789", AccessAttemptStatus::Requested).unwrap();
    }
    assert_eq!(history.entries.len(), MAX_HISTORY_ENTRIES);
    assert_eq!(history.recent(1).len(), 1);
    assert_eq!(history.recent(1)[0].consent_id, MAX_HISTORY_ENTRIES as u128);
    assert_eq!(history.entries[0].consent_id, 1);
}

#[test]
fn recent_history_is_newest_first() {
    let mut history = SessionHistory::default();
    history.record_at(1, "a", AccessAttemptStatus::Requested, 10);
    history.record_at(1, "a", AccessAttemptStatus::Approved, 11);
    let recent = history.recent(5);
    assert_eq!(recent.len(), 2);
    assert_eq!(recent[0].status, AccessAttemptStatus::Approved);
    assert_eq!(recent[1].timestamp_unix, 10);
}
