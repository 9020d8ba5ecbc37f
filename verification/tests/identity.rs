use ed25519_dalek::{Signature, Verifier, VerifyingKey};
use jremote::identity::{device_id_from_digest, device_id_from_public_key, DeviceIdentity};
use jremote::protocol::{registration_payload, Message};

fn reloaded(identity: &DeviceIdentity) -> DeviceIdentity {
    DeviceIdentity::from_parts(
        identity.uuid,
        identity.public_id,
        identity.created_at_unix,
        identity.display_name.clone(),
        identity.signing_key_bytes(),
    )
}

#[test]
fn persistent_identity_round_trips() {
    let first = DeviceIdentity::generate().unwrap();
    let second = reloaded(&first);
    assert_eq!(first.uuid, second.uuid);
    assert_eq!(first.public_id, second.public_id);
    assert_eq!(first.public_key(), second.public_key());
    assert_eq!(first.public_id_formatted().len(), 11);
}

#[test]
fn reset_replaces_the_key_and_locator() {
    let first = DeviceIdentity::generate().unwrap();
    let second = DeviceIdentity::generate().unwrap();
    assert_ne!(first.public_key(), second.public_key());
    assert_ne!(first.public_id, second.public_id);
}

#[test]
fn signatures_verify_with_the_persisted_public_key() {
    let identity = DeviceIdentity::generate().unwrap();
    let payload = b"JRemote identity test";
    let signature = Signature::from_bytes(&identity.sign(payload));
    VerifyingKey::from_bytes(&identity.public_key())
        .unwrap()
        .verify(payload, &signature)
        .unwrap();
}

#[test]
fn formatted_id_groups_nine_digits() {
    let mut identity = DeviceIdentity::generate().unwrap();
    identity.public_id = 123_456_789;
    assert_eq!(identity.public_id_formatted(), "123 456 789");
    identity.public_id = 42;
    assert_eq!(identity.public_id_formatted(), "000 000 042");
    identity.public_id = 4_000_000_000;
    assert_eq!(identity.public_id_formatted(), "400 000 000");
}

#[test]
fn locator_comes_from_the_digest_prefix() {
    let mut digest = [0u8; 32];
    assert_eq!(device_id_from_digest(&digest), 100_000_000);
    digest[7] = 1;
    assert_eq!(device_id_from_digest(&digest), 100_000_001);
    digest = [0xff; 32];
    let expected = (u64::MAX % 900_000_000) as u32 + 100_000_000;
    assert_eq!(device_id_from_digest(&digest), expected);
}

#[test]
fn generated_identity_is_consistent_and_stays_so() {
    let mut identity = DeviceIdentity::generate().unwrap();
    let id = identity.public_id;
    assert!((100_000_000..1_000_000_000).contains(&id));
    assert_eq!(id, device_id_from_public_key(&identity.public_key()));
    assert!(!identity.refresh_public_id());
    identity.public_id = 1;
    assert!(identity.refresh_public_id());
    assert_eq!(identity.public_id, id);
}

#[test]
fn registration_message_carries_a_valid_proof() {
    let identity = DeviceIdentity::generate().unwrap();
    let nonce = [5u8; 32];
    match identity.registration_message(&nonce) {
        Message::Register { device_id, public_key, signature } => {
            assert_eq!(device_id, identity.public_id);
            assert_eq!(public_key, identity.public_key().to_vec());
            let payload = registration_payload(&nonce, device_id);
            let signature = Signature::from_bytes(&signature.try_into().unwrap());
            VerifyingKey::from_bytes(&identity.public_key())
                .unwrap()
                .verify_strict(&payload, &signature)
                .unwrap();
        }
        other => panic!("unexpected message {other:?}"),
    }
}

#[test]
fn stored_identities_are_restored_and_migrated() {
    let original = DeviceIdentity::generate().unwrap();
    let (restored, changed) = DeviceIdentity::restore(
        original.uuid,
        original.public_id,
        original.created_at_unix,
        Some("Oficina".into()),
        Some(original.signing_key_bytes()),
    );
    assert!(!changed);
    assert_eq!(restored.public_key(), original.public_key());
    assert_eq!(restored.display_name.as_deref(), Some("Oficina"));

    let (migrated, changed) = DeviceIdentity::restore(7, 1, 5, None, None);
    assert!(changed);
    assert_eq!(migrated.uuid, 7);
    assert_eq!(migrated.created_at_unix, 5);
    assert_eq!(migrated.public_id, device_id_from_public_key(&migrated.public_key()));
}
