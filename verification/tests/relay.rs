use jremote::identity::DeviceIdentity;
use jremote::protocol::{ErrorCode, Message, RejectReason, PROTOCOL_VERSION};
use jremote::relay::{
    authentication_is_blocked, handle_message, open_session, record_authentication_failure,
    unregister, Outgoing, Registration, Registry, MAX_AUTH_FAILURES,
};
use tokio::sync::mpsc::{channel, Receiver, Sender};

const LOCALHOST: u128 = 0xffff_7f00_0001;

struct Peer {
    tx: Sender<Message>,
    rx: Receiver<Message>,
    connection_id: u128,
    registration: Option<Registration>,
    nonce: [u8; 32],
}

fn connect(connection_id: u128) -> Peer {
    let (tx, rx) = channel(32);
    let hello = Message::Hello { protocol_version: PROTOCOL_VERSION, app_version: "0.1.0".into() };
    let (nonce, reply) = open_session(hello);
    let nonce = nonce.expect("session opens");
    match reply {
        Some(Message::Challenge { nonce: sent }) => assert_eq!(sent, nonce.to_vec()),
        other => panic!("expected a challenge, got {other:?}"),
    }
    Peer { tx, rx, connection_id, registration: None, nonce }
}

/// Hands `message` to the relay and queues what it sends, as the relay
/// program does; returns whether the connection stays open.
fn deliver(registry: &mut Registry, peer: &mut Peer, message: Message, now: u64) -> bool {
    let outgoing = handle_message(
        &peer.tx,
        registry,
        LOCALHOST,
        peer.connection_id,
        &peer.nonce,
        &mut peer.registration,
        message,
        now,
    );
    let mut open = true;
    for item in outgoing {
        open = match item {
            Outgoing::Reply(message) => peer.tx.try_send(message).is_ok(),
            Outgoing::Forward(queue, message) => queue.try_send(message).is_ok(),
        };
    }
    open
}

fn register(registry: &mut Registry, peer: &mut Peer, identity: &DeviceIdentity) {
    let message = identity.registration_message(&peer.nonce);
    assert!(deliver(registry, peer, message, 0));
    assert_eq!(peer.rx.try_recv().unwrap(), Message::RegisterOk { device_id: identity.public_id });
}

#[test]
fn repeated_authentication_failures_temporarily_block_an_ip() {
    let mut registry = Registry::new();
    for _ in 0..MAX_AUTH_FAILURES {
        record_authentication_failure(&mut registry, LOCALHOST, 0);
    }
    assert!(authentication_is_blocked(&registry, LOCALHOST, 0));
    assert!(authentication_is_blocked(&registry, LOCALHOST, 299_999));
    assert!(!authentication_is_blocked(&registry, LOCALHOST, 300_000));
}

#[test]
fn failures_outside_the_window_do_not_block() {
    let mut registry = Registry::new();
    for i in 0..MAX_AUTH_FAILURES as u64 {
        record_authentication_failure(&mut registry, LOCALHOST, i * 60_001);
    }
    assert!(!authentication_is_blocked(&registry, LOCALHOST, 4 * 60_001));
}

#[test]
fn hello_with_another_protocol_is_refused() {
    let hello = Message::Hello { protocol_version: 2, app_version: "0.0.1".into() };
    let (nonce, reply) = open_session(hello);
    assert!(nonce.is_none());
    match reply {
        Some(Message::Error { code, message }) => {
            assert_eq!(code, ErrorCode::IncompatibleProtocol);
            assert_eq!(message, "JREMOTE/1 is required");
        }
        other => panic!("unexpected {other:?}"),
    }
    let (nonce, reply) = open_session(Message::Ping { nonce: 1 });
    assert!(nonce.is_none() && reply.is_none());
}

#[test]
fn registered_endpoints_are_found_and_invalid_proofs_are_refused() {
    let mut registry = Registry::new();
    let host = DeviceIdentity::generate().unwrap();
    let mut host_peer = connect(1);
    register(&mut registry, &mut host_peer, &host);

    let mut stranger = connect(2);
    let forged = Message::Register {
        device_id: host.public_id,
        public_key: host.public_key().to_vec(),
        signature: vec![0; 64],
    };
    assert!(deliver(&mut registry, &mut stranger, forged, 0));
    match stranger.rx.try_recv().unwrap() {
        Message::Error { code, message } => {
            assert_eq!(code, ErrorCode::AuthenticationFailed);
            assert_eq!(message, "registration proof is invalid");
        }
        other => panic!("unexpected {other:?}"),
    }
    assert!(stranger.registration.is_none());

    let client = DeviceIdentity::generate().unwrap();
    let mut client_peer = connect(3);
    register(&mut registry, &mut client_peer, &client);
    assert!(deliver(&mut registry, &mut client_peer, Message::Lookup { device_id: host.public_id }, 0));
    assert_eq!(
        client_peer.rx.try_recv().unwrap(),
        Message::LookupResult { device_id: host.public_id, online: true }
    );
}

#[test]
fn only_the_awaited_host_answers_a_request() {
    let mut registry = Registry::new();
    let host = DeviceIdentity::generate().unwrap();
    let client = DeviceIdentity::generate().unwrap();
    let mut host_peer = connect(10);
    let mut client_peer = connect(11);
    register(&mut registry, &mut host_peer, &host);
    register(&mut registry, &mut client_peer, &client);

    let request = Message::ConnectRequest {
        request_id: 77,
        from_device_id: client.public_id,
        target_device_id: host.public_id,
    };
    assert!(deliver(&mut registry, &mut client_peer, request.clone(), 1_000));
    assert_eq!(host_peer.rx.try_recv().unwrap(), request);

    // The client cannot accept its own request.
    assert!(deliver(&mut registry, &mut client_peer, Message::ConnectAccept { request_id: 77 }, 2_000));
    match client_peer.rx.try_recv().unwrap() {
        Message::Error { code, message } => {
            assert_eq!(code, ErrorCode::InvalidMessage);
            assert_eq!(message, "connection request is not authorized for this device");
        }
        other => panic!("unexpected {other:?}"),
    }

    let reject = Message::ConnectReject { request_id: 77, reason: RejectReason::Rejected };
    assert!(deliver(&mut registry, &mut host_peer, reject.clone(), 3_000));
    assert_eq!(client_peer.rx.try_recv().unwrap(), reject);
    assert!(registry.pending.is_empty());
}

#[test]
fn requests_expire_and_are_rate_limited() {
    let mut registry = Registry::new();
    let host = DeviceIdentity::generate().unwrap();
    let client = DeviceIdentity::generate().unwrap();
    let mut host_peer = connect(20);
    let mut client_peer = connect(21);
    register(&mut registry, &mut host_peer, &host);
    register(&mut registry, &mut client_peer, &client);

    for id in 0..4u128 {
        let request = Message::ConnectRequest {
            request_id: id,
            from_device_id: client.public_id,
            target_device_id: host.public_id,
        };
        assert!(deliver(&mut registry, &mut client_peer, request, 0));
    }
    let fifth = Message::ConnectRequest {
        request_id: 4,
        from_device_id: client.public_id,
        target_device_id: host.public_id,
    };
    assert!(deliver(&mut registry, &mut client_peer, fifth.clone(), 0));
    assert_eq!(
        client_peer.rx.try_recv().unwrap(),
        Message::ConnectReject { request_id: 4, reason: RejectReason::RateLimited }
    );

    // After a minute the earlier requests have expired.
    assert!(deliver(&mut registry, &mut client_peer, fifth, 60_000));
    assert_eq!(registry.pending.len(), 1);
    assert!(deliver(&mut registry, &mut host_peer, Message::ConnectAccept { request_id: 0 }, 60_000));
    let mut last = None;
    while let Ok(message) = host_peer.rx.try_recv() {
        last = Some(message);
    }
    match last {
        Some(Message::Error { code, message }) => {
            assert_eq!(code, ErrorCode::InvalidMessage);
            assert_eq!(message, "unknown or expired connection request");
        }
        other => panic!("unexpected {other:?}"),
    }
}

#[test]
fn offline_targets_and_unregistered_peers() {
    let mut registry = Registry::new();
    let client = DeviceIdentity::generate().unwrap();
    let mut client_peer = connect(30);
    register(&mut registry, &mut client_peer, &client);
    let request = Message::ConnectRequest {
        request_id: 9,
        from_device_id: client.public_id,
        target_device_id: 999_999_999,
    };
    assert!(deliver(&mut registry, &mut client_peer, request, 0));
    assert_eq!(
        client_peer.rx.try_recv().unwrap(),
        Message::ConnectReject { request_id: 9, reason: RejectReason::TargetOffline }
    );

    let mut anonymous = connect(31);
    let request = Message::ConnectRequest {
        request_id: 10,
        from_device_id: 1,
        target_device_id: client.public_id,
    };
    assert!(deliver(&mut registry, &mut anonymous, request, 0));
    match anonymous.rx.try_recv().unwrap() {
        Message::Error { code, .. } => assert_eq!(code, ErrorCode::NotRegistered),
        other => panic!("unexpected {other:?}"),
    }

    assert!(deliver(&mut registry, &mut anonymous, Message::Ping { nonce: 5 }, 0));
    assert_eq!(anonymous.rx.try_recv().unwrap(), Message::Pong { nonce: 5 });

    unregister(&mut registry, client_peer.registration);
    assert!(registry.peers.is_empty());
}

#[test]
fn unregistered_lookups_are_refused() {
    let mut registry = Registry::new();
    let mut anonymous = connect(40);
    assert!(deliver(&mut registry, &mut anonymous, Message::Lookup { device_id: 123_456_789 }, 0));
    match anonymous.rx.try_recv().unwrap() {
        Message::Error { code, message } => {
            assert_eq!(code, ErrorCode::NotRegistered);
            assert_eq!(message, "register before sending this message");
        }
        other => panic!("unexpected {other:?}"),
    }
    assert!(anonymous.rx.try_recv().is_err());
    assert!(anonymous.registration.is_none());
    assert!(registry.peers.is_empty());
}

#[test]
fn a_newer_registration_supersedes_the_older_connection() {
    let mut registry = Registry::new();
    let identity = DeviceIdentity::generate().unwrap();
    let mut first = connect(50);
    let mut second = connect(51);
    register(&mut registry, &mut first, &identity);
    register(&mut registry, &mut second, &identity);
    match first.rx.try_recv().unwrap() {
        Message::Error { code, message } => {
            assert_eq!(code, ErrorCode::NotRegistered);
            assert_eq!(message, "this authenticated identity registered from a newer connection");
        }
        other => panic!("unexpected {other:?}"),
    }
    assert!(deliver(&mut registry, &mut first, Message::Lookup { device_id: identity.public_id }, 0));
    match first.rx.try_recv().unwrap() {
        Message::Error { message, .. } => {
            assert_eq!(message, "registration was superseded by a newer connection")
        }
        other => panic!("unexpected {other:?}"),
    }
}
