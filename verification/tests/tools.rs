use std::time::Duration;

use ed25519_dalek::{Signer, SigningKey};
use jremote::config::UpdateChannel;
use jremote::diagnostics::{failure, plan_relay_check, refuse_plain_http, wss_address, DiagnosticError, RelayCheck};
use jremote::events::{recent, take_newest, Event};
use jremote::hex::{decode_hex, encode_hex, eq_ignore_ascii_case, HexError};
use jremote::manifest::{manifest_signing_payload, sign_manifest};
use jremote::reconnect::ReconnectPolicy;
use jremote::security::{hash_unattended_password, verify_unattended_password, PasswordError};
use jremote::startup::{
    configured_update_manifest_url, BETA_UPDATE_MANIFEST_URL, DEFAULT_UPDATE_MANIFEST_URL,
};
use jremote::text::{decimal_string, trim};
use jremote::update::{evaluate_manifest, require_https, trim_leading_v, UpdateError, UpdateManifest};
use jremote::update_cache::{checked_recently_at, is_recent, CHECK_INTERVAL_SECONDS};
use jremote::consent::ConsentStore;
use jremote::window::{device_from_drafts, relay_url_from_draft, update_check_message, LISTED_REQUESTS};
use jremote::updater::{
    announce_wait, check_announced_size, should_retry, validate_https, validate_sha256,
    validate_target, validate_target_name, verify_checksum, DownloadCheck, UpdaterError,
    MAX_DOWNLOAD_BYTES,
    REPLACE_RETRIES,
};

#[test]
fn signer_payload_is_deterministic() {
    assert_eq!(
        manifest_signing_payload("1.0.0", "https://example.test/app.exe", Some("ab"), None),
        "version:5:1.0.0\nurl:28:https://example.test/app.exe\nsha256:2:ab\nnotes:0:\n"
    );
}

#[test]
fn payload_lengths_count_utf8_bytes() {
    assert_eq!(
        manifest_signing_payload("2.0.0", "https://e.test/a", None, Some("ñ")),
        "version:5:2.0.0\nurl:16:https://e.test/a\nsha256:0:\nnotes:2:ñ\n"
    );
}

#[test]
fn manifest_signature_matches_the_key() {
    let secret = [7u8; 32];
    let key_text = format!("  {}\n", "07".repeat(32));
    let signature = sign_manifest(&key_text, "1.0.0", "https://example.test/app.exe", Some("ab"), None)
        .unwrap();
    let payload =
        manifest_signing_payload("1.0.0", "https://example.test/app.exe", Some("ab"), None);
    let expected = SigningKey::from_bytes(&secret).sign(payload.as_bytes());
    let expected_hex: String = expected.to_bytes().iter().map(|b| format!("{b:02x}")).collect();
    assert_eq!(signature, expected_hex);
}

#[test]
fn manifest_signing_refuses_bad_keys() {
    assert_eq!(sign_manifest("abcd", "1.0.0", "https://e.test/a", None, None), Err(HexError::WrongLength));
    let not_hex = "zz".repeat(32);
    assert_eq!(sign_manifest(&not_hex, "1.0.0", "https://e.test/a", None, None), Err(HexError::NotHex));
}

#[test]
fn hex_round_trips() {
    let bytes = vec![0u8, 1, 0x7f, 0x80, 0xab, 0xff];
    let text = encode_hex(&bytes);
    assert_eq!(text, "00017f80abff");
    assert_eq!(decode_hex(&text, bytes.len()), Ok(bytes.clone()));
    assert_eq!(decode_hex("00017F80ABFF", bytes.len()), Ok(bytes));
    assert_eq!(decode_hex("0001", 3), Err(HexError::WrongLength));
    assert_eq!(decode_hex("0g", 1), Err(HexError::NotHex));
    assert_eq!(decode_hex("+f", 1), Err(HexError::NotHex));
    assert_eq!(decode_hex("a\u{e9}b", 2), Err(HexError::NotHex));
    assert!(eq_ignore_ascii_case("AbC", "aBc"));
    assert!(!eq_ignore_ascii_case("abc", "abd"));
}

#[test]
fn trimming_and_decimals() {
    assert_eq!(trim("  a b \n"), "a b");
    assert_eq!(trim("   "), "");
    assert_eq!(decimal_string(0), "0");
    assert_eq!(decimal_string(9443), "9443");
    assert_eq!(decimal_string(u64::MAX), u64::MAX.to_string());
}

#[test]
fn only_accepts_the_expected_target_name() {
    assert!(validate_target_name(Some("not-jremote.exe")).is_err());
}

#[test]
fn updater_target_must_be_the_application() {
    assert_eq!(validate_target_name(Some("JRemote.exe")), Ok(()));
    assert_eq!(validate_target_name(None), Err(UpdaterError::WrongTarget));
}

#[test]
fn rejects_non_https_urls_and_bad_hashes() {
    assert!(validate_https("http://example.com/JRemote.exe").is_err());
    assert!(validate_sha256("bad").is_err());
}

#[test]
fn updater_url_and_checksum_checks() {
    assert_eq!(validate_https("https://example.com/JRemote.exe"), Ok(()));
    assert_eq!(validate_https("http://example.com/JRemote.exe"), Err(UpdaterError::InsecureUrl));
    assert_eq!(validate_https("not a url"), Err(UpdaterError::MalformedUrl));
    assert_eq!(validate_sha256(&"aB".repeat(32)), Ok(()));
    assert_eq!(validate_sha256(&"ag".repeat(32)), Err(UpdaterError::BadChecksum));
    let digest = [0xabu8; 32];
    assert_eq!(verify_checksum(&digest, &"AB".repeat(32)), Ok(()));
    assert_eq!(verify_checksum(&digest, &"ac".repeat(32)), Err(UpdaterError::ChecksumMismatch));
}

#[test]
fn downloads_are_bounded() {
    assert_eq!(check_announced_size(None), Ok(()));
    assert_eq!(check_announced_size(Some(MAX_DOWNLOAD_BYTES)), Ok(()));
    assert_eq!(check_announced_size(Some(MAX_DOWNLOAD_BYTES + 1)), Err(UpdaterError::TooLarge));
}

#[test]
fn replacement_retries_are_limited() {
    assert!(should_retry(1));
    assert!(should_retry(REPLACE_RETRIES - 1));
    assert!(!should_retry(REPLACE_RETRIES));
    assert!(announce_wait(REPLACE_RETRIES - 1));
    assert!(!announce_wait(1));
}

#[test]
fn failure_is_explicit() {
    assert!(!failure("Relay", "No configurado".into()).ok);
}

#[test]
fn wss_diagnostic_uses_the_configured_port() {
    assert_eq!(
        wss_address("wss://relay.example:9443/socket").unwrap(),
        "relay.example:9443"
    );
    assert!(wss_address("https://relay.example").is_err());
}

#[test]
fn wss_diagnostic_defaults_and_errors() {
    assert_eq!(wss_address("wss://relay.example/socket").unwrap(), "relay.example:443");
    assert_eq!(wss_address("wss://[::1]:8443").unwrap(), "[::1]:8443");
    assert_eq!(wss_address("https://relay.example"), Err(DiagnosticError::NotWss));
    assert_eq!(wss_address("nonsense"), Err(DiagnosticError::InvalidUrl));
}

#[test]
fn relay_checks_are_planned_by_scheme() {
    match plan_relay_check(None) {
        RelayCheck::Report(r) => {
            assert!(!r.ok);
            assert_eq!(r.name, "Relay");
            assert_eq!(r.detail, "No configurado");
        }
        other => panic!("unexpected plan {other:?}"),
    }
    assert!(matches!(plan_relay_check(Some("https://r.example")), RelayCheck::Https(u) if u == "https://r.example"));
    assert!(matches!(plan_relay_check(Some("wss://r.example")), RelayCheck::Wss(u) if u == "wss://r.example"));
    match plan_relay_check(Some("http://r.example")) {
        RelayCheck::Report(r) => {
            assert!(!r.ok);
            assert_eq!(r.detail, "URL no segura: http://r.example");
        }
        other => panic!("unexpected plan {other:?}"),
    }
}

#[test]
fn command_line_manifest_url_has_priority() {
    assert_eq!(
        configured_update_manifest_url(
            Some("https://example.com/update.json".to_owned()),
            None,
            None,
            UpdateChannel::Stable,
        ),
        "https://example.com/update.json"
    );
}

#[test]
fn beta_channel_uses_its_own_default_manifest() {
    assert!(configured_update_manifest_url(None, None, None, UpdateChannel::Beta)
        .ends_with("update-beta.json"));
}

#[test]
fn manifest_url_fallbacks() {
    assert_eq!(
        configured_update_manifest_url(None, Some("https://env.example/u.json".into()), Some("https://built.example/u.json"), UpdateChannel::Stable),
        "https://env.example/u.json"
    );
    assert_eq!(
        configured_update_manifest_url(None, Some("   ".into()), Some("https://built.example/u.json"), UpdateChannel::Beta),
        "https://built.example/u.json"
    );
    assert_eq!(
        configured_update_manifest_url(None, None, None, UpdateChannel::Stable),
        DEFAULT_UPDATE_MANIFEST_URL
    );
    assert_eq!(
        configured_update_manifest_url(None, None, None, UpdateChannel::Beta),
        BETA_UPDATE_MANIFEST_URL
    );
}

#[test]
fn backoff_is_bounded_and_requires_a_new_user_action_after_limit() {
    let policy = ReconnectPolicy::default();
    assert_eq!(policy.delay_for(0), Some(Duration::from_secs(1)));
    assert_eq!(policy.delay_for(4), Some(Duration::from_secs(16)));
    assert_eq!(policy.delay_for(5), None);
}

#[test]
fn default_backoff_doubles() {
    let policy = ReconnectPolicy::default();
    assert_eq!(policy.delay_millis_for(1), Some(2000));
    assert_eq!(policy.delay_millis_for(2), Some(4000));
    assert_eq!(policy.delay_millis_for(3), Some(8000));
    assert_eq!(policy.delay_millis_for(200), None);
}

#[test]
fn passwords_are_salted_and_verifiable() {
    let hash = hash_unattended_password("correct horse battery staple").unwrap();
    assert!(hash.starts_with("$argon2id$"));
    assert!(verify_unattended_password("correct horse battery staple", &hash).unwrap());
    assert!(!verify_unattended_password("nope", &hash).unwrap());
}

#[test]
fn password_hashes_differ_and_bad_hashes_are_refused() {
    let first = hash_unattended_password("secret").unwrap();
    let second = hash_unattended_password("secret").unwrap();
    assert_ne!(first, second);
    assert_eq!(verify_unattended_password("secret", "not a hash"), Err(PasswordError::InvalidHash));
}

#[test]
fn only_accepts_https_urls() {
    assert!(require_https("https://updates.example.com/release.json", "URL").is_ok());
    assert!(require_https("http://updates.example.com/release.json", "URL").is_err());
    assert!(require_https("not a URL", "URL").is_err());
}

#[test]
fn https_errors_name_the_url() {
    assert_eq!(
        require_https("http://u.example", "the manifest"),
        Err(UpdateError::InsecureUrl("the manifest".into()))
    );
    assert_eq!(
        require_https("not a URL", "the manifest"),
        Err(UpdateError::MalformedUrl("the manifest".into()))
    );
}

fn manifest(version: &str, url: &str, notes: Option<&str>) -> UpdateManifest {
    UpdateManifest {
        version: version.into(),
        url: url.into(),
        sha256: Some("ab".repeat(32)),
        notes: notes.map(str::to_owned),
    }
}

#[test]
fn newer_manifests_offer_an_update() {
    let update = evaluate_manifest(manifest("v1.2.0", "https://e.test/JRemote.exe", Some("  ")), "1.0.0")
        .unwrap()
        .unwrap();
    assert_eq!(update.version, "1.2.0");
    assert_eq!(update.url, "https://e.test/JRemote.exe");
    assert_eq!(update.sha256, "ab".repeat(32));
    assert_eq!(update.notes, None);
    let update = evaluate_manifest(manifest("1.0.1", "https://e.test/a", Some("fixes")), "1.0.0")
        .unwrap()
        .unwrap();
    assert_eq!(update.notes, Some("fixes".to_owned()));
}

#[test]
fn older_or_invalid_manifests_offer_nothing() {
    assert_eq!(evaluate_manifest(manifest("1.0.0", "https://e.test/a", None), "1.0.0"), Ok(None));
    assert_eq!(evaluate_manifest(manifest("0.9.0", "https://e.test/a", None), "1.0.0"), Ok(None));
    assert_eq!(
        evaluate_manifest(manifest("2.0.0", "http://e.test/a", None), "1.0.0"),
        Err(UpdateError::InsecureUrl("the update download URL".into()))
    );
    assert_eq!(
        evaluate_manifest(manifest("two", "https://e.test/a", None), "1.0.0"),
        Err(UpdateError::InvalidVersion)
    );
    assert_eq!(
        evaluate_manifest(manifest("2.0.0", "https://e.test/a", None), "current"),
        Err(UpdateError::InvalidCurrentVersion)
    );
    assert_eq!(trim_leading_v("vv1.0"), "1.0");
}

#[test]
fn cache_expires_after_six_hours() {
    assert!(is_recent(100, 100 + CHECK_INTERVAL_SECONDS - 1));
    assert!(!is_recent(100, 100 + CHECK_INTERVAL_SECONDS));
}

#[test]
fn malformed_cache_never_suppresses_a_check() {
    assert!(!checked_recently_at(None, 1_000));
    assert!(checked_recently_at(Some(1_000), 1_000 + 60));
    assert!(is_recent(500, 100));
}

#[test]
fn newest_events_come_first() {
    assert_eq!(take_newest(vec![1, 2, 3, 4], 2), vec![4, 3]);
    assert_eq!(take_newest(vec![1, 2], 5), vec![2, 1]);
    assert!(take_newest(Vec::<u8>::new(), 3).is_empty());
}

#[test]
fn signing_payloads_of_different_manifests_differ() {
    let a = manifest_signing_payload("1.0.0", "https://e.test/a", Some("ab"), Some(""));
    let b = manifest_signing_payload("1.0.0", "https://e.test/a", Some("a"), Some("b"));
    assert_ne!(a, b);
    assert_eq!(a, "version:5:1.0.0\nurl:16:https://e.test/a\nsha256:2:ab\nnotes:0:\n");
}

#[test]
fn window_drafts_are_trimmed() {
    assert_eq!(relay_url_from_draft("  wss://r.example \n"), Some("wss://r.example".to_owned()));
    assert_eq!(relay_url_from_draft(" \t "), None);
    let device = device_from_drafts(" 123 456 789 ", " Oficina ");
    assert_eq!(device.public_id, "123 456 789");
    assert_eq!(device.display_name, "Oficina");
    assert_eq!(device.public_key_fingerprint, None);
    assert_eq!(device.last_seen_unix, None);
}

#[test]
fn window_update_messages() {
    assert_eq!(update_check_message(&Ok(Some("1.2.0".to_owned()))), "Nueva versión 1.2.0 disponible.");
    assert_eq!(update_check_message(&Ok(None)), "Ya tienes la versión más reciente.");
    assert_eq!(update_check_message(&Err("timeout".to_owned())), "No se pudo comprobar: timeout");
}

#[test]
fn window_lists_the_newest_requests_first() {
    let mut store = ConsentStore::default();
    for i in 0..7u64 {
        store.request_at(format!("device {i}"), 1_000 + i, 1_000 + i, u128::from(i)).unwrap();
    }
    let listed: Vec<u128> = store.recent(LISTED_REQUESTS).iter().map(|request| request.id).collect();
    assert_eq!(listed, vec![6, 5, 4, 3, 2]);
}

#[test]
fn current_version_is_valid_semver() {
    let outcome = evaluate_manifest(manifest("9.9.9", "https://e.test/a", None), "0.1.0");
    assert!(outcome.is_ok());
}

#[test]
fn updater_replaces_only_the_application_beside_it() {
    assert_eq!(validate_target(Some("JRemote.exe"), Some("C:/apps/jremote"), "C:/apps/jremote"), Ok(()));
    assert_eq!(
        validate_target(Some("JRemote.exe"), Some("C:/elsewhere"), "C:/apps/jremote"),
        Err(UpdaterError::NotBesideUpdater)
    );
    assert_eq!(validate_target(Some("JRemote.exe"), None, "C:/apps/jremote"), Err(UpdaterError::NotBesideUpdater));
    assert_eq!(
        validate_target(Some("Other.exe"), Some("C:/apps/jremote"), "C:/apps/jremote"),
        Err(UpdaterError::WrongTarget)
    );
}

#[test]
fn downloads_are_hashed_as_received() {
    let mut check = DownloadCheck::new();
    assert_eq!(check.accept_chunk(b"a"), Ok(()));
    assert_eq!(check.accept_chunk(b"bc"), Ok(()));
    assert_eq!(
        check.finish("BA7816BF8F01CFEA414140DE5DAE2223B00361A396177A9CB410FF61F20015AD"),
        Ok(())
    );
    let mut check = DownloadCheck::new();
    assert_eq!(check.accept_chunk(b"abd"), Ok(()));
    assert_eq!(
        check.finish("ba7816bf8f01cfea414140de5dae2223b00361a396177a9cb410ff61f20015ad"),
        Err(UpdaterError::ChecksumMismatch)
    );
    let mut check = DownloadCheck::new();
    let too_much = vec![0u8; MAX_DOWNLOAD_BYTES as usize + 1];
    assert_eq!(check.accept_chunk(&too_much), Err(UpdaterError::TooLarge));
}

#[test]
fn releases_without_a_valid_checksum_are_not_offered() {
    let mut without = manifest("2.0.0", "https://e.test/a", None);
    without.sha256 = None;
    assert_eq!(evaluate_manifest(without, "1.0.0"), Err(UpdateError::InvalidChecksum));
    let mut short = manifest("2.0.0", "https://e.test/a", None);
    short.sha256 = Some("abc".into());
    assert_eq!(evaluate_manifest(short, "1.0.0"), Err(UpdateError::InvalidChecksum));
    let mut older = manifest("0.5.0", "https://e.test/a", None);
    older.sha256 = None;
    assert_eq!(evaluate_manifest(older, "1.0.0"), Ok(None));
}

#[test]
fn password_hashes_name_their_costs() {
    let hash = hash_unattended_password("secret").unwrap();
    assert!(hash.starts_with("$argon2id$v=19$m=19456,t=3,p=1$"));
    let prefix = "$argon2id$v=19$m=19456,t=3,p=1$".len();
    assert_eq!(hash.len(), prefix + 22 + 1 + 43);
    assert_eq!(&hash[prefix + 22..prefix + 23], "$");
}

#[test]
fn event_listings_are_capped() {
    let events: Vec<Event> = (0..250u64)
        .map(|i| Event { timestamp_unix: i, kind: "k".into(), detail: String::new() })
        .collect();
    let shown = recent(events, 1_000);
    assert_eq!(shown.len(), 200);
    assert_eq!(shown[0].timestamp_unix, 249);
    assert_eq!(shown[199].timestamp_unix, 50);
}

#[test]
fn manifest_diagnostic_needs_https() {
    assert!(refuse_plain_http("Manifiesto", "https://u.example/update.json").is_none());
    let refused = refuse_plain_http("Manifiesto", "http://updates.example/update.json").unwrap();
    assert_eq!(refused.name, "Manifiesto");
    assert_eq!(refused.detail, "La URL debe usar HTTPS");
    assert!(!refused.ok);
}
