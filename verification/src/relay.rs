//! A deliberately narrow relay: authenticated presence and connection
//! signalling only. It has no screen capture, input injection or
//! unattended-password code.
//!
//! The shared state is a `Registry`. Each connection is served by a task of
//! the program around this library, which reads messages, holds the lock on
//! the registry and hands each message to `handle_message`, then queues the
//! messages that it returns, each to the queue it names. Times are
//! milliseconds of a monotonic clock.
use std::collections::HashMap;
use tokio::sync::mpsc::Sender;
use vstd::prelude::*;
use vstd::std_specs::iter::IteratorSpec;

use crate::crypto::{
    ed25519_key_is_valid, ed25519_verify_strict, spec_ed25519_key_valid,
    spec_ed25519_verify_strict,
};
use crate::identity::{
    device_id_from_key_slice, spec_device_id_from_public_key, DEVICE_ID_LIMIT, MIN_DEVICE_ID,
};
use crate::protocol::{
    registration_payload, require_compatible, spec_registration_payload, ErrorCode, Message,
    RejectReason, PROTOCOL_VERSION,
};
use crate::system::random_nonce;

verus! {

broadcast use vstd::std_specs::hash::group_hash_axioms;

/// How long a connection request waits for the host's answer.
pub const REQUEST_TTL_MS: u64 = 60_000;

/// Most connection requests that may wait at once.
pub const MAX_PENDING_REQUESTS: usize = 10_000;

/// Most connection requests that one client connection may have waiting.
pub const MAX_PENDING_PER_CLIENT: usize = 4;

/// Failed registration proofs from one address that lead to a block.
pub const MAX_AUTH_FAILURES: u8 = 5;

/// Failures further apart than this start a new count.
pub const AUTH_FAILURE_WINDOW_MS: u64 = 60_000;

/// How long an address stays blocked.
pub const AUTH_BLOCK_DURATION_MS: u64 = 300_000;

/// Latest time that the relay's clock may read, so that expiry and block
/// times stay representable.
pub const LATEST_TIME_MS: u64 = 0xffff_ffff_ffff_ffff - 300_000;

#[verifier::external_type_specification]
#[verifier::external_body]
#[verifier::reject_recursive_types(T)]
pub struct ExSender<T>(tokio::sync::mpsc::Sender<T>);

/// The device and connection of an authenticated endpoint.
#[derive(Clone, Copy, Debug, PartialEq, Eq)]
pub struct Registration {
    pub device_id: u32,
    pub connection_id: u128,
}

/// A registered endpoint: its outgoing queue and its connection.
pub struct RegisteredPeer {
    pub tx: Sender<Message>,
    pub connection_id: u128,
}

/// A connection request that awaits the host's answer.
#[derive(Clone, Copy, Debug, PartialEq, Eq)]
pub struct PendingRequest {
    pub client_device_id: u32,
    pub client_connection_id: u128,
    pub host_device_id: u32,
    pub host_connection_id: u128,
    pub expires_at: u64,
}

/// Failed registration proofs from one address.
#[derive(Clone, Copy, Debug, PartialEq, Eq)]
pub struct AuthenticationFailures {
    pub count: u8,
    pub window_started: u64,
    pub blocked_until: Option<u64>,
}

/// The relay's shared state. Addresses are keyed by their 128-bit form
/// (IPv4 addresses as IPv4-mapped IPv6).
pub struct Registry {
    pub peers: HashMap<u32, RegisteredPeer>,
    pub pending: HashMap<u128, PendingRequest>,
    pub authentication_failures: HashMap<u128, AuthenticationFailures>,
}

/// The connection registered for each device.
pub open spec fn connection_ids(peers: Map<u32, RegisteredPeer>) -> Map<u32, u128> {
    Map::new(|d: u32| peers.contains_key(d), |d: u32| peers[d].connection_id)
}

/// `connection` is the current registration of `device`.
pub open spec fn is_current(conns: Map<u32, u128>, device: u32, connection: u128) -> bool {
    conns.contains_key(device) && conns[device] == connection
}

/// A waiting request is kept while it has not expired and both of its
/// endpoints are still registered by the same connections.
pub open spec fn request_is_live(r: PendingRequest, conns: Map<u32, u128>, now: u64) -> bool {
    &&& r.expires_at > now
    &&& is_current(conns, r.client_device_id, r.client_connection_id)
    &&& is_current(conns, r.host_device_id, r.host_connection_id)
}

/// The waiting requests that survive pruning at `now`.
pub open spec fn live_requests(
    pending: Map<u128, PendingRequest>,
    conns: Map<u32, u128>,
    now: u64,
) -> Map<u128, PendingRequest> {
    Map::new(
        |k: u128| pending.contains_key(k) && request_is_live(pending[k], conns, now),
        |k: u128| pending[k],
    )
}

/// The requests among `keys` that were made by client connection `c`.
pub open spec fn requests_of_client(
    keys: Set<u128>,
    pending: Map<u128, PendingRequest>,
    c: u128,
) -> Set<u128> {
    keys.filter(|k: u128| pending[k].client_connection_id == c)
}

/// Whether `ip` is blocked at `now`.
pub open spec fn authentication_blocked(
    failures: Map<u128, AuthenticationFailures>,
    ip: u128,
    now: u64,
) -> bool {
    &&& failures.contains_key(ip)
    &&& failures[ip].blocked_until matches Some(b) && b > now
}

/// A count of no failures, started at `now`.
pub open spec fn fresh_failures(now: u64) -> AuthenticationFailures {
    AuthenticationFailures { count: 0, window_started: now, blocked_until: None }
}

/// The failure record of an address after one more failure at `now`. A
/// record whose window is over starts again; the fifth failure in a window
/// blocks the address for five minutes.
pub open spec fn failures_after(prev: Option<AuthenticationFailures>, now: u64) -> AuthenticationFailures {
    let base = match prev {
        Some(f) => if now - f.window_started > AUTH_FAILURE_WINDOW_MS {
            fresh_failures(now)
        } else {
            f
        },
        None => fresh_failures(now),
    };
    let count: u8 = if base.count == 255 {
        255
    } else {
        (base.count + 1) as u8
    };
    AuthenticationFailures {
        count,
        window_started: base.window_started,
        blocked_until: if count >= MAX_AUTH_FAILURES {
            Some((now + AUTH_BLOCK_DURATION_MS) as u64)
        } else {
            base.blocked_until
        },
    }
}

/// The failure records after one more failure of `ip` at `now`.
pub open spec fn record_failure(
    failures: Map<u128, AuthenticationFailures>,
    ip: u128,
    now: u64,
) -> Map<u128, AuthenticationFailures> {
    failures.insert(
        ip,
        failures_after(if failures.contains_key(ip) { Some(failures[ip]) } else { None }, now),
    )
}

/// `m` is an `Error` message with this code and text.
pub open spec fn is_error(m: Message, code: ErrorCode, text: Seq<char>) -> bool {
    &&& m matches Message::Error { code: c, message } && c == code && message@ == text
}

/// The request a client connection opens, as stored while it waits.
pub open spec fn opened_request(
    client: Registration,
    target: u32,
    conns: Map<u32, u128>,
    now: u64,
) -> PendingRequest {
    PendingRequest {
        client_device_id: client.device_id,
        client_connection_id: client.connection_id,
        host_device_id: target,
        host_connection_id: conns[target],
        expires_at: (now + REQUEST_TTL_MS) as u64,
    }
}

/// Why a new request is not forwarded, if it is not: its identifier is
/// taken, the relay or the client has too many waiting requests, or the
/// target is offline.
pub enum RequestVerdict {
    DuplicateId,
    RateLimited,
    TargetOffline,
    Forward,
}

/// What becomes of a request with identifier `id` from `client` to
/// `target`, judged against the live waiting requests `live`.
pub open spec fn request_verdict(
    live: Map<u128, PendingRequest>,
    conns: Map<u32, u128>,
    client: Registration,
    id: u128,
    target: u32,
) -> RequestVerdict {
    if live.contains_key(id) {
        RequestVerdict::DuplicateId
    } else if live.len() >= MAX_PENDING_REQUESTS || requests_of_client(
        live.dom(),
        live,
        client.connection_id,
    ).len() >= MAX_PENDING_PER_CLIENT {
        RequestVerdict::RateLimited
    } else if conns.contains_key(target) {
        RequestVerdict::Forward
    } else {
        RequestVerdict::TargetOffline
    }
}

/// The waiting requests after `client` asks to reach `target` at `now`.
pub open spec fn requests_after_open(
    pending: Map<u128, PendingRequest>,
    conns: Map<u32, u128>,
    client: Registration,
    id: u128,
    target: u32,
    now: u64,
) -> Map<u128, PendingRequest> {
    let live = live_requests(pending, conns, now);
    match request_verdict(live, conns, client, id, target) {
        RequestVerdict::Forward => live.insert(id, opened_request(client, target, conns, now)),
        _ => live,
    }
}

/// The waiting requests after `host` answers request `id` at `now`: the
/// request leaves only when that host connection is the one it waits for.
pub open spec fn requests_after_answer(
    pending: Map<u128, PendingRequest>,
    conns: Map<u32, u128>,
    host: Registration,
    id: u128,
    now: u64,
) -> Map<u128, PendingRequest> {
    let live = live_requests(pending, conns, now);
    if live.contains_key(id) && live[id].host_device_id == host.device_id
        && live[id].host_connection_id == host.connection_id {
        live.remove(id)
    } else {
        live
    }
}

/// The waiting requests once connection `c` is gone.
pub open spec fn requests_without_connection(
    pending: Map<u128, PendingRequest>,
    c: u128,
) -> Map<u128, PendingRequest> {
    Map::new(
        |k: u128|
            pending.contains_key(k) && pending[k].client_connection_id != c
                && pending[k].host_connection_id != c,
        |k: u128| pending[k],
    )
}

/// Where a connection request goes.
pub enum RequestOutcome {
    /// Forward the request to the host through this queue.
    ToHost(Sender<Message>),
    /// Answer the requester with this message.
    ToRequester(Message),
}

/// What an answer to a connection request leads to.
pub enum AnswerOutcome {
    /// No live request has this identifier.
    Unknown,
    /// The request waits for another host connection.
    NotAuthorized,
    /// The request is settled; the answer goes to the client's queue, if the
    /// client is still registered.
    Forward(Option<Sender<Message>>),
}

/// A connection request names the requester's own registered device and
/// some other device.
pub open spec fn request_is_well_formed(registration: Option<Registration>, from: u32, target: u32) -> bool {
    registration is Some && from == registration->0.device_id && from != target
}

/// The connection holds the current registration of its device.
pub open spec fn registration_current(conns: Map<u32, u128>, registration: Option<Registration>) -> bool {
    registration is Some && is_current(conns, registration->0.device_id, registration->0.connection_id)
}

/// What the relay's logic reads of its state: the registered connections,
/// the waiting requests and the failure records.
pub struct RelayModel {
    pub conns: Map<u32, u128>,
    pub pending: Map<u128, PendingRequest>,
    pub failures: Map<u128, AuthenticationFailures>,
}

/// The state after a valid registration of `device` by `connection` from `ip`.
pub open spec fn after_registration(m: RelayModel, ip: u128, device: u32, connection: u128) -> RelayModel {
    RelayModel {
        conns: m.conns.insert(device, connection),
        pending: m.pending,
        failures: m.failures.remove(ip),
    }
}

/// The state after a failed registration proof from `ip` at `now`.
pub open spec fn after_failure(m: RelayModel, ip: u128, now: u64) -> RelayModel {
    RelayModel { conns: m.conns, pending: m.pending, failures: record_failure(m.failures, ip, now) }
}

/// The state after `client` asks to reach `target` with request `id`.
pub open spec fn after_request(
    m: RelayModel,
    client: Registration,
    id: u128,
    target: u32,
    now: u64,
) -> RelayModel {
    RelayModel {
        conns: m.conns,
        pending: requests_after_open(m.pending, m.conns, client, id, target, now),
        failures: m.failures,
    }
}

/// The state after `host` answers request `id`.
pub open spec fn after_answer(m: RelayModel, host: Registration, id: u128, now: u64) -> RelayModel {
    RelayModel {
        conns: m.conns,
        pending: requests_after_answer(m.pending, m.conns, host, id, now),
        failures: m.failures,
    }
}

/// The text sent back for each kind of failed registration proof.
pub open spec fn proof_failure_text(f: ProofFailure) -> Seq<char> {
    match f {
        ProofFailure::InvalidPublicKey => "invalid public key"@,
        ProofFailure::InvalidSignature => "invalid signature"@,
        ProofFailure::InvalidProof => "registration proof is invalid"@,
    }
}

/// Why a registration proof is refused.
#[derive(Clone, Copy, Debug, PartialEq, Eq)]
pub enum ProofFailure {
    /// The public key is not 32 bytes or does not decompress.
    InvalidPublicKey,
    /// The signature is not 64 bytes.
    InvalidSignature,
    /// The locator is out of range or not that of the key, or the signature
    /// of the challenge does not verify.
    InvalidProof,
}

/// What is wrong with a registration proof, checked in this order.
pub open spec fn proof_failure(
    nonce: Seq<u8>,
    device_id: u32,
    public_key: Seq<u8>,
    signature: Seq<u8>,
) -> Option<ProofFailure> {
    if public_key.len() != 32 {
        Some(ProofFailure::InvalidPublicKey)
    } else if signature.len() != 64 {
        Some(ProofFailure::InvalidSignature)
    } else if !spec_ed25519_key_valid(public_key) {
        Some(ProofFailure::InvalidPublicKey)
    } else if !(MIN_DEVICE_ID <= device_id < DEVICE_ID_LIMIT) || device_id
        != spec_device_id_from_public_key(public_key) || !spec_ed25519_verify_strict(
        public_key,
        spec_registration_payload(nonce, device_id),
        signature,
    ) {
        Some(ProofFailure::InvalidProof)
    } else {
        None
    }
}

/// A registration proves ownership of `device_id`: a valid key whose
/// locator it is signed the relay's challenge for that locator.
pub open spec fn registration_proof_valid(
    nonce: Seq<u8>,
    device_id: u32,
    public_key: Seq<u8>,
    signature: Seq<u8>,
) -> bool {
    proof_failure(nonce, device_id, public_key, signature) is None
}

impl Registry {
    /// An empty registry.
    pub fn new() -> (r: Self)
        ensures
            r.peers@ == Map::<u32, RegisteredPeer>::empty(),
            r.pending@ == Map::<u128, PendingRequest>::empty(),
            r.authentication_failures@ == Map::<u128, AuthenticationFailures>::empty(),
    {
        Registry {
            peers: HashMap::new(),
            pending: HashMap::new(),
            authentication_failures: HashMap::new(),
        }
    }

    /// The connection registered for each device.
    pub open spec fn conns(&self) -> Map<u32, u128> {
        connection_ids(self.peers@)
    }

    /// What the relay's logic reads of this state.
    pub open spec fn model(&self) -> RelayModel {
        RelayModel {
            conns: self.conns(),
            pending: self.pending@,
            failures: self.authentication_failures@,
        }
    }
}

/// Whether `connection` is the current registration of `device`.
pub fn is_current_peer(peers: &HashMap<u32, RegisteredPeer>, device: u32, connection: u128) -> (r:
    bool)
    ensures
        r == is_current(connection_ids(peers@), device, connection),
{
    match peers.get(&device) {
        Some(peer) => peer.connection_id == connection,
        None => false,
    }
}

/// Drops the waiting requests that expired or whose endpoints re-registered
/// or left.
pub fn prune_registry(state: &mut Registry, now: u64)
    ensures
        final(state).pending@ == live_requests(old(state).pending@, old(state).conns(), now),
        final(state).peers@ == old(state).peers@,
        final(state).authentication_failures@ == old(state).authentication_failures@,
{
    let mut kept: HashMap<u128, PendingRequest> = HashMap::new();
    let ghost pending = state.pending@;
    let ghost conns = state.conns();
    let ghost s = vstd::std_specs::hash::spec_hash_map_iter(&state.pending).remaining();
    proof {
        vstd::std_specs::hash::axiom_spec_hash_map_iter(&state.pending);
    }
    for entry in it: state.pending.iter()
        invariant
            it.seq() == s,
            it.index() <= s.len(),
            pending == state.pending@,
            conns == state.conns(),
            forall|i: int|
                0 <= i < s.len() ==> #[trigger] pending.contains_key(*s[i].0) && pending[*s[i].0]
                    == *s[i].1,
            forall|k: u128| #[trigger]
                kept@.contains_key(k) ==> pending.contains_key(k) && kept@[k] == pending[k]
                    && request_is_live(pending[k], conns, now),
            forall|j: int|
                0 <= j < it.index() && request_is_live(pending[*s[j].0], conns, now)
                    ==> kept@.contains_key(#[trigger] *s[j].0),
    {
        let (key, request) = entry;
        proof {
            assert(entry == s[it.index()]);
        }
        if request.expires_at > now && is_current_peer(
            &state.peers,
            request.client_device_id,
            request.client_connection_id,
        ) && is_current_peer(&state.peers, request.host_device_id, request.host_connection_id) {
            kept.insert(*key, *request);
        }
    }
    proof {
        assert forall|k: u128| pending.contains_key(k) && request_is_live(pending[k], conns, now)
            implies kept@.contains_key(k) by {
            vstd::std_specs::hash::axiom_spec_hash_map_iter(&state.pending);
            assert(s.contains((&k, &pending[k])));
            let j = choose|j: int| 0 <= j < s.len() && s[j] == (&k, &pending[k]);
            assert(*s[j].0 == k);
        }
        assert(kept@ =~= live_requests(pending, conns, now));
    }
    state.pending = kept;
}

/// The requests of one set, with the key `k` added.
proof fn lemma_requests_of_client_insert(
    keys: Set<u128>,
    pending: Map<u128, PendingRequest>,
    c: u128,
    k: u128,
)
    ensures
        requests_of_client(keys.insert(k), pending, c) == if pending[k].client_connection_id == c {
            requests_of_client(keys, pending, c).insert(k)
        } else {
            requests_of_client(keys, pending, c)
        },
{
    assert(requests_of_client(keys.insert(k), pending, c) =~= if pending[k].client_connection_id
        == c {
        requests_of_client(keys, pending, c).insert(k)
    } else {
        requests_of_client(keys, pending, c)
    });
}

/// How many waiting requests client connection `c` has.
pub fn pending_from_client(pending: &HashMap<u128, PendingRequest>, c: u128) -> (n: usize)
    ensures
        n == requests_of_client(pending@.dom(), pending@, c).len(),
{
    let total = pending.len();
    let ghost m = pending@;
    let ghost s = vstd::std_specs::hash::spec_hash_map_iter(pending).remaining();
    proof {
        vstd::std_specs::hash::axiom_spec_hash_map_iter(pending);
    }
    let mut n: usize = 0;
    let ghost mut seen: Set<u128> = Set::empty();
    assert(requests_of_client(seen, m, c) =~= Set::empty());
    for entry in it: pending.iter()
        invariant
            it.seq() == s,
            it.index() <= s.len(),
            s.len() == m.len(),
            total == m.len(),
            s.no_duplicates(),
            m == pending@,
            forall|i: int|
                0 <= i < s.len() ==> #[trigger] m.contains_key(*s[i].0) && m[*s[i].0] == *s[i].1,
            seen.finite(),
            forall|k: u128| #[trigger]
                seen.contains(k) <==> exists|j: int| 0 <= j < it.index() && *s[j].0 == k,
            n == requests_of_client(seen, m, c).len(),
            n <= it.index(),
    {
        let (key, value) = entry;
        let ghost i = it.index();
        proof {
            assert(entry == s[i]);
            if seen.contains(*key) {
                let j = choose|j: int| 0 <= j < i && *s[j].0 == *key;
                assert(m.contains_key(*s[j].0));
                assert(m.contains_key(*s[i].0));
                assert(s[j] == s[i]);
            }
            lemma_requests_of_client_insert(seen, m, c, *key);
            assert(m[*key] == *value);
            seen = seen.insert(*key);
        }
        if value.client_connection_id == c {
            n = n + 1;
        }
    }
    proof {
        assert(seen =~= m.dom()) by {
            assert forall|k: u128| m.contains_key(k) implies seen.contains(k) by {
                assert(s.contains((&k, &m[k])));
                let j = choose|j: int| 0 <= j < s.len() && s[j] == (&k, &m[k]);
                assert(*s[j].0 == k);
            }
        }
    }
    n
}

/// `Sender::clone` from `tokio`: another handle to the same queue. A
/// `Sender` holds nothing but a shared reference to its channel, and the
/// clone shares that reference, so the copy is the same handle.
#[verifier::external_body]
pub(crate) fn clone_sender(tx: &Sender<Message>) -> (copy: Sender<Message>)
    ensures
        copy == *tx,
{
    tx.clone()
}

/// A message that the relay decided to send; the program around the
/// library queues it.
pub enum Outgoing {
    /// To the connection whose message is being handled.
    Reply(Message),
    /// To another connection, through its queue.
    Forward(Sender<Message>, Message),
}

/// The only message sent is an error with this code and text, to the
/// connection being handled.
pub open spec fn error_reply(out: Seq<Outgoing>, code: ErrorCode, text: Seq<char>) -> bool {
    &&& out.len() == 1
    &&& out[0] matches Outgoing::Reply(m) && is_error(m, code, text)
}

/// Why a connection that is not currently registered is refused.
pub open spec fn refusal_text(registration: Option<Registration>) -> Seq<char> {
    if registration is None {
        "register before sending this message"@
    } else {
        "registration was superseded by a newer connection"@
    }
}

/// The registry is left as it was.
pub open spec fn registry_unchanged(after: Registry, before: Registry) -> bool {
    &&& after.peers@ == before.peers@
    &&& after.pending@ == before.pending@
    &&& after.authentication_failures@ == before.authentication_failures@
}

/// What a valid registration of `device` sends: when another connection held
/// the device, that connection is told that it was superseded; then the
/// registering connection gets `REGISTER_OK`.
pub open spec fn registration_replies(
    out: Seq<Outgoing>,
    peers: Map<u32, RegisteredPeer>,
    device: u32,
) -> bool {
    if peers.contains_key(device) {
        &&& out.len() == 2
        &&& out[0] matches Outgoing::Forward(q, m) && q == peers[device].tx && is_error(
            m,
            ErrorCode::NotRegistered,
            "this authenticated identity registered from a newer connection"@,
        )
        &&& out[1] == Outgoing::Reply(Message::RegisterOk { device_id: device })
    } else {
        out == seq![Outgoing::Reply(Message::RegisterOk { device_id: device })]
    }
}

/// What a well-formed connection request from a current registration sends,
/// by the verdict on it: the request goes to the host's queue, or the
/// requester is told why not.
pub open spec fn request_replies(
    out: Seq<Outgoing>,
    verdict: RequestVerdict,
    peers: Map<u32, RegisteredPeer>,
    request_id: u128,
    from: u32,
    target: u32,
) -> bool {
    match verdict {
        RequestVerdict::DuplicateId => error_reply(
            out,
            ErrorCode::InvalidMessage,
            "request ID is already in use"@,
        ),
        RequestVerdict::RateLimited => out == seq![
            Outgoing::Reply(Message::ConnectReject { request_id, reason: RejectReason::RateLimited }),
        ],
        RequestVerdict::TargetOffline => out == seq![
            Outgoing::Reply(
                Message::ConnectReject { request_id, reason: RejectReason::TargetOffline },
            ),
        ],
        RequestVerdict::Forward => out == seq![
            Outgoing::Forward(
                peers[target].tx,
                Message::ConnectRequest { request_id, from_device_id: from, target_device_id: target },
            ),
        ],
    }
}

/// What the answer `response` of a current registration `host` to request
/// `id` sends: it goes to the client's queue only when a live request waits
/// for this host connection and its client is still registered.
pub open spec fn answer_replies(
    out: Seq<Outgoing>,
    live: Map<u128, PendingRequest>,
    peers: Map<u32, RegisteredPeer>,
    host: Registration,
    id: u128,
    response: Message,
) -> bool {
    if !live.contains_key(id) {
        error_reply(out, ErrorCode::InvalidMessage, "unknown or expired connection request"@)
    } else if live[id].host_device_id != host.device_id || live[id].host_connection_id
        != host.connection_id {
        error_reply(
            out,
            ErrorCode::InvalidMessage,
            "connection request is not authorized for this device"@,
        )
    } else if is_current(
        connection_ids(peers),
        live[id].client_device_id,
        live[id].client_connection_id,
    ) {
        out == seq![Outgoing::Forward(peers[live[id].client_device_id].tx, response)]
    } else {
        out.len() == 0
    }
}

/// An `InvalidMessage` error with this text.
pub fn invalid(text: &str) -> (m: Message)
    ensures
        is_error(m, ErrorCode::InvalidMessage, text@),
{
    Message::Error { code: ErrorCode::InvalidMessage, message: text.to_owned() }
}

/// An `AuthenticationFailed` error with this text.
pub fn authentication_failed(text: &str) -> (m: Message)
    ensures
        is_error(m, ErrorCode::AuthenticationFailed, text@),
{
    Message::Error { code: ErrorCode::AuthenticationFailed, message: text.to_owned() }
}

/// A `NotRegistered` error with this text.
pub fn not_registered(text: &str) -> (m: Message)
    ensures
        is_error(m, ErrorCode::NotRegistered, text@),
{
    Message::Error { code: ErrorCode::NotRegistered, message: text.to_owned() }
}

/// Whether address `ip` is blocked at `now`.
pub fn authentication_is_blocked(state: &Registry, ip: u128, now: u64) -> (blocked: bool)
    ensures
        blocked == authentication_blocked(state.authentication_failures@, ip, now),
{
    match state.authentication_failures.get(&ip) {
        Some(failures) => match failures.blocked_until {
            Some(until) => until > now,
            None => false,
        },
        None => false,
    }
}

/// Counts a failed registration proof from `ip` at `now`.
pub fn record_authentication_failure(state: &mut Registry, ip: u128, now: u64)
    requires
        now <= LATEST_TIME_MS,
    ensures
        final(state).authentication_failures@ == record_failure(
            old(state).authentication_failures@,
            ip,
            now,
        ),
        final(state).peers@ == old(state).peers@,
        final(state).pending@ == old(state).pending@,
{
    let previous = match state.authentication_failures.get(&ip) {
        Some(f) => Some(*f),
        None => None,
    };
    let mut failures = match previous {
        Some(f) => if now > f.window_started && now - f.window_started > AUTH_FAILURE_WINDOW_MS {
            AuthenticationFailures { count: 0, window_started: now, blocked_until: None }
        } else {
            f
        },
        None => AuthenticationFailures { count: 0, window_started: now, blocked_until: None },
    };
    failures.count = if failures.count == 255 {
        255
    } else {
        failures.count + 1
    };
    if failures.count >= MAX_AUTH_FAILURES {
        failures.blocked_until = Some(now + AUTH_BLOCK_DURATION_MS);
    }
    state.authentication_failures.insert(ip, failures);
}

/// Whether `registration` is the current registration of its device.
pub fn registration_is_current(state: &Registry, registration: Registration) -> (current: bool)
    ensures
        current == is_current(state.conns(), registration.device_id, registration.connection_id),
{
    is_current_peer(&state.peers, registration.device_id, registration.connection_id)
}

/// Takes a new request from `client` to `target` (the peers must already
/// be checked): prunes, then stores and forwards it, or says why not.
pub fn open_request(
    state: &mut Registry,
    client: Registration,
    request_id: u128,
    target: u32,
    now: u64,
) -> (outcome: RequestOutcome)
    requires
        now <= LATEST_TIME_MS,
    ensures
        final(state).pending@ == requests_after_open(
            old(state).pending@,
            old(state).conns(),
            client,
            request_id,
            target,
            now,
        ),
        final(state).peers@ == old(state).peers@,
        final(state).authentication_failures@ == old(state).authentication_failures@,
        ({
            let live = live_requests(old(state).pending@, old(state).conns(), now);
            match request_verdict(live, old(state).conns(), client, request_id, target) {
                RequestVerdict::DuplicateId => outcome matches RequestOutcome::ToRequester(m)
                    && is_error(m, ErrorCode::InvalidMessage, "request ID is already in use"@),
                RequestVerdict::RateLimited => outcome matches RequestOutcome::ToRequester(m) && m
                    == (Message::ConnectReject {
                    request_id,
                    reason: RejectReason::RateLimited,
                }),
                RequestVerdict::TargetOffline => outcome matches RequestOutcome::ToRequester(m)
                    && m == (Message::ConnectReject {
                    request_id,
                    reason: RejectReason::TargetOffline,
                }),
                RequestVerdict::Forward => outcome matches RequestOutcome::ToHost(h) && h
                    == old(state).peers@[target].tx,
            }
        }),
{
    prune_registry(state, now);
    let ghost live = state.pending@;
    if state.pending.contains_key(&request_id) {
        return RequestOutcome::ToRequester(invalid("request ID is already in use"));
    }
    if state.pending.len() >= MAX_PENDING_REQUESTS || pending_from_client(
        &state.pending,
        client.connection_id,
    ) >= MAX_PENDING_PER_CLIENT {
        return RequestOutcome::ToRequester(
            Message::ConnectReject { request_id, reason: RejectReason::RateLimited },
        );
    }
    let host = match state.peers.get(&target) {
        Some(peer) => Some((peer.connection_id, clone_sender(&peer.tx))),
        None => None,
    };
    match host {
        Some((host_connection_id, host_tx)) => {
            state.pending.insert(
                request_id,
                PendingRequest {
                    client_device_id: client.device_id,
                    client_connection_id: client.connection_id,
                    host_device_id: target,
                    host_connection_id,
                    expires_at: now + REQUEST_TTL_MS,
                },
            );
            RequestOutcome::ToHost(host_tx)
        },
        None => RequestOutcome::ToRequester(
            Message::ConnectReject { request_id, reason: RejectReason::TargetOffline },
        ),
    }
}

/// Takes the answer of `host` to request `request_id`: prunes, then settles
/// the request if it waits for that host connection.
pub fn close_request(state: &mut Registry, host: Registration, request_id: u128, now: u64) -> (outcome:
    AnswerOutcome)
    ensures
        final(state).pending@ == requests_after_answer(
            old(state).pending@,
            old(state).conns(),
            host,
            request_id,
            now,
        ),
        final(state).peers@ == old(state).peers@,
        final(state).authentication_failures@ == old(state).authentication_failures@,
        ({
            let live = live_requests(old(state).pending@, old(state).conns(), now);
            if !live.contains_key(request_id) {
                outcome is Unknown
            } else if live[request_id].host_device_id != host.device_id
                || live[request_id].host_connection_id != host.connection_id {
                outcome is NotAuthorized
            } else {
                outcome matches AnswerOutcome::Forward(client_tx) && (client_tx is Some
                    <==> is_current(
                    old(state).conns(),
                    live[request_id].client_device_id,
                    live[request_id].client_connection_id,
                )) && (client_tx matches Some(c) ==> c == old(
                    state,
                ).peers@[live[request_id].client_device_id].tx)
            }
        }),
{
    prune_registry(state, now);
    let request = match state.pending.get(&request_id) {
        Some(r) => *r,
        None => return AnswerOutcome::Unknown,
    };
    if request.host_device_id != host.device_id || request.host_connection_id
        != host.connection_id {
        return AnswerOutcome::NotAuthorized;
    }
    state.pending.remove(&request_id);
    let client_tx = match state.peers.get(&request.client_device_id) {
        Some(peer) => if peer.connection_id == request.client_connection_id {
            Some(clone_sender(&peer.tx))
        } else {
            None
        },
        None => None,
    };
    AnswerOutcome::Forward(client_tx)
}

/// Forgets a closed connection: its waiting requests, as client or as host,
/// and its registration if it is still the current one.
pub fn unregister(state: &mut Registry, registration: Option<Registration>)
    ensures
        match registration {
            None => final(state).pending@ == old(state).pending@ && final(state).peers@ == old(state).peers@,
            Some(r) => {
                &&& final(state).pending@ == requests_without_connection(
                    old(state).pending@,
                    r.connection_id,
                )
                &&& final(state).conns() == if is_current(
                    old(state).conns(),
                    r.device_id,
                    r.connection_id,
                ) {
                    old(state).conns().remove(r.device_id)
                } else {
                    old(state).conns()
                }
            },
        },
        final(state).authentication_failures@ == old(state).authentication_failures@,
{
    let r = match registration {
        Some(r) => r,
        None => return ,
    };
    let mut kept: HashMap<u128, PendingRequest> = HashMap::new();
    let ghost pending = state.pending@;
    let ghost s = vstd::std_specs::hash::spec_hash_map_iter(&state.pending).remaining();
    proof {
        vstd::std_specs::hash::axiom_spec_hash_map_iter(&state.pending);
    }
    for entry in it: state.pending.iter()
        invariant
            it.seq() == s,
            it.index() <= s.len(),
            pending == state.pending@,
            forall|i: int|
                0 <= i < s.len() ==> #[trigger] pending.contains_key(*s[i].0) && pending[*s[i].0]
                    == *s[i].1,
            forall|k: u128| #[trigger]
                kept@.contains_key(k) ==> requests_without_connection(
                    pending,
                    r.connection_id,
                ).contains_key(k) && kept@[k] == pending[k],
            forall|j: int|
                0 <= j < it.index() && requests_without_connection(
                    pending,
                    r.connection_id,
                ).contains_key(*s[j].0) ==> kept@.contains_key(#[trigger] *s[j].0),
    {
        let (key, request) = entry;
        proof {
            assert(entry == s[it.index()]);
        }
        if request.client_connection_id != r.connection_id && request.host_connection_id
            != r.connection_id {
            kept.insert(*key, *request);
        }
    }
    proof {
        assert forall|k: u128| requests_without_connection(
            pending,
            r.connection_id,
        ).contains_key(k) implies kept@.contains_key(k) by {
            vstd::std_specs::hash::axiom_spec_hash_map_iter(&state.pending);
            assert(s.contains((&k, &pending[k])));
            let j = choose|j: int| 0 <= j < s.len() && s[j] == (&k, &pending[k]);
            assert(*s[j].0 == k);
        }
        assert(kept@ =~= requests_without_connection(pending, r.connection_id));
    }
    state.pending = kept;
    if is_current_peer(&state.peers, r.device_id, r.connection_id) {
        state.peers.remove(&r.device_id);
        assert(state.conns() =~= old(state).conns().remove(r.device_id));
    }
}

/// Checks a registration proof against the challenge `nonce`.
pub fn check_registration_proof(
    nonce: &[u8],
    device_id: u32,
    public_key: &[u8],
    signature: &[u8],
) -> (r: Result<(), ProofFailure>)
    ensures
        match proof_failure(nonce@, device_id, public_key@, signature@) {
            None => r is Ok,
            Some(f) => r == Err::<(), ProofFailure>(f),
        },
{
    if public_key.len() != 32 {
        return Err(ProofFailure::InvalidPublicKey);
    }
    if signature.len() != 64 {
        return Err(ProofFailure::InvalidSignature);
    }
    if !ed25519_key_is_valid(public_key) {
        return Err(ProofFailure::InvalidPublicKey);
    }
    if device_id < MIN_DEVICE_ID || device_id >= DEVICE_ID_LIMIT || device_id
        != device_id_from_key_slice(public_key) {
        return Err(ProofFailure::InvalidProof);
    }
    let payload = registration_payload(nonce, device_id);
    if !ed25519_verify_strict(public_key, payload.as_slice(), signature) {
        return Err(ProofFailure::InvalidProof);
    }
    Ok(())
}

/// The message sent back for a failed registration proof.
pub fn proof_failure_message(f: ProofFailure) -> (m: Message)
    ensures
        is_error(m, ErrorCode::AuthenticationFailed, proof_failure_text(f)),
{
    match f {
        ProofFailure::InvalidPublicKey => authentication_failed("invalid public key"),
        ProofFailure::InvalidSignature => authentication_failed("invalid signature"),
        ProofFailure::InvalidProof => authentication_failed("registration proof is invalid"),
    }
}

/// Registers the endpoint of this connection if its proof is valid. A valid
/// proof replaces any older registration of the device (whose connection is
/// told so) and clears the address's failures; an invalid one is counted
/// against the address. Returns what is to be sent.
pub fn register(
    tx: &Sender<Message>,
    state: &mut Registry,
    peer_ip: u128,
    connection_id: u128,
    nonce: &[u8],
    device_id: u32,
    public_key: Vec<u8>,
    signature: Vec<u8>,
    registration: &mut Option<Registration>,
    now: u64,
) -> (out: Vec<Outgoing>)
    requires
        now <= LATEST_TIME_MS,
    ensures
        registration_proof_valid(nonce@, device_id, public_key@, signature@) ==> {
            &&& final(state).model() == after_registration(
                old(state).model(),
                peer_ip,
                device_id,
                connection_id,
            )
            &&& final(state).peers@ == old(state).peers@.insert(
                device_id,
                RegisteredPeer { tx: *tx, connection_id },
            )
            &&& *final(registration) == Some(Registration { device_id, connection_id })
            &&& registration_replies(out@, old(state).peers@, device_id)
        },
        !registration_proof_valid(nonce@, device_id, public_key@, signature@) ==> {
            &&& final(state).model() == after_failure(old(state).model(), peer_ip, now)
            &&& final(state).peers@ == old(state).peers@
            &&& *final(registration) == *old(registration)
            &&& error_reply(
                out@,
                ErrorCode::AuthenticationFailed,
                proof_failure_text(proof_failure(nonce@, device_id, public_key@, signature@)->0),
            )
        },
{
    let mut out: Vec<Outgoing> = Vec::new();
    match check_registration_proof(nonce, device_id, public_key.as_slice(), signature.as_slice()) {
        Err(failure) => {
            record_authentication_failure(state, peer_ip, now);
            assert(state.conns() =~= old(state).conns());
            out.push(Outgoing::Reply(proof_failure_message(failure)));
            return out;
        },
        Ok(()) => {},
    }
    state.authentication_failures.remove(&peer_ip);
    let previous = state.peers.insert(
        device_id,
        RegisteredPeer { tx: clone_sender(tx), connection_id },
    );
    assert(state.conns() =~= old(state).conns().insert(device_id, connection_id));
    *registration = Some(Registration { device_id, connection_id });
    if let Some(previous) = previous {
        out.push(
            Outgoing::Forward(
                previous.tx,
                not_registered("this authenticated identity registered from a newer connection"),
            ),
        );
    }
    out.push(Outgoing::Reply(Message::RegisterOk { device_id }));
    out
}

/// The error owed to a peer that is not, or no longer, registered; `None`
/// when `registration` is current.
pub fn registration_error(state: &Registry, registration: Option<Registration>) -> (error: Option<
    Message,
>)
    ensures
        registration_current(state.conns(), registration) ==> error is None,
        !registration_current(state.conns(), registration) ==> (error matches Some(m) && is_error(
            m,
            ErrorCode::NotRegistered,
            refusal_text(registration),
        )),
{
    match registration {
        None => Some(not_registered("register before sending this message")),
        Some(r) => if registration_is_current(state, r) {
            None
        } else {
            Some(not_registered("registration was superseded by a newer connection"))
        },
    }
}

/// Checks that this connection holds the current registration of its
/// device. When it does not, the peer is told so (the error is added to
/// `out`) and the message goes no further.
pub fn require_current_registration(
    state: &Registry,
    registration: Option<Registration>,
    out: &mut Vec<Outgoing>,
) -> (proceed: bool)
    ensures
        proceed == registration_current(state.conns(), registration),
        proceed ==> final(out)@ == old(out)@,
        !proceed ==> final(out)@.len() == old(out)@.len() + 1,
        !proceed ==> final(out)@.subrange(0, old(out)@.len() as int) == old(out)@,
        !proceed ==> (final(out)@.last() matches Outgoing::Reply(m) && is_error(
            m,
            ErrorCode::NotRegistered,
            refusal_text(registration),
        )),
{
    match registration_error(state, registration) {
        None => true,
        Some(error) => {
            out.push(Outgoing::Reply(error));
            assert(out@.subrange(0, old(out)@.len() as int) =~= old(out)@);
            false
        },
    }
}

/// Handles `CONNECT_REQUEST`: a client with the current registration of
/// its device, asking for another device, has the request forwarded to the
/// host or is told why not. Returns what is to be sent.
pub fn connect_request(
    state: &mut Registry,
    registration: Option<Registration>,
    request_id: u128,
    from_device_id: u32,
    target_device_id: u32,
    now: u64,
) -> (out: Vec<Outgoing>)
    requires
        now <= LATEST_TIME_MS,
    ensures
        !registration_current(old(state).conns(), registration) ==> registry_unchanged(
            *final(state),
            *old(state),
        ) && error_reply(out@, ErrorCode::NotRegistered, refusal_text(registration)),
        registration_current(old(state).conns(), registration) && !request_is_well_formed(
            registration,
            from_device_id,
            target_device_id,
        ) ==> registry_unchanged(*final(state), *old(state)) && error_reply(
            out@,
            ErrorCode::InvalidMessage,
            "invalid connection request"@,
        ),
        registration_current(old(state).conns(), registration) && request_is_well_formed(
            registration,
            from_device_id,
            target_device_id,
        ) ==> {
            &&& final(state).model() == after_request(
                old(state).model(),
                registration->0,
                request_id,
                target_device_id,
                now,
            )
            &&& final(state).peers@ == old(state).peers@
            &&& request_replies(
                out@,
                request_verdict(
                    live_requests(old(state).pending@, old(state).conns(), now),
                    old(state).conns(),
                    registration->0,
                    request_id,
                    target_device_id,
                ),
                old(state).peers@,
                request_id,
                from_device_id,
                target_device_id,
            )
        },
{
    let mut out: Vec<Outgoing> = Vec::new();
    if !require_current_registration(state, registration, &mut out) {
        return out;
    }
    let client = match registration {
        Some(r) => r,
        None => return out,
    };
    if from_device_id != client.device_id || from_device_id == target_device_id {
        out.push(Outgoing::Reply(invalid("invalid connection request")));
        return out;
    }
    match open_request(state, client, request_id, target_device_id, now) {
        RequestOutcome::ToHost(host_tx) => out.push(
            Outgoing::Forward(
                host_tx,
                Message::ConnectRequest { request_id, from_device_id, target_device_id },
            ),
        ),
        RequestOutcome::ToRequester(message) => out.push(Outgoing::Reply(message)),
    }
    out
}

/// Handles a host's `CONNECT_ACCEPT` or `CONNECT_REJECT` (`response`): it is
/// passed to the client only when the request waits for this very host
/// connection. Returns what is to be sent.
pub fn connect_response(
    state: &mut Registry,
    registration: Option<Registration>,
    request_id: u128,
    response: Message,
    now: u64,
) -> (out: Vec<Outgoing>)
    ensures
        !registration_current(old(state).conns(), registration) ==> registry_unchanged(
            *final(state),
            *old(state),
        ) && error_reply(out@, ErrorCode::NotRegistered, refusal_text(registration)),
        registration_current(old(state).conns(), registration) ==> {
            &&& final(state).model() == after_answer(
                old(state).model(),
                registration->0,
                request_id,
                now,
            )
            &&& final(state).peers@ == old(state).peers@
            &&& answer_replies(
                out@,
                live_requests(old(state).pending@, old(state).conns(), now),
                old(state).peers@,
                registration->0,
                request_id,
                response,
            )
        },
{
    let mut out: Vec<Outgoing> = Vec::new();
    if !require_current_registration(state, registration, &mut out) {
        return out;
    }
    let host = match registration {
        Some(r) => r,
        None => return out,
    };
    match close_request(state, host, request_id, now) {
        AnswerOutcome::Unknown => out.push(
            Outgoing::Reply(invalid("unknown or expired connection request")),
        ),
        AnswerOutcome::NotAuthorized => out.push(
            Outgoing::Reply(invalid("connection request is not authorized for this device")),
        ),
        AnswerOutcome::Forward(Some(client_tx)) => out.push(Outgoing::Forward(client_tx, response)),
        AnswerOutcome::Forward(None) => {},
    }
    out
}

/// A `HELLO` with the protocol revision of this build.
pub open spec fn is_compatible_hello(m: Message) -> bool {
    m matches Message::Hello { protocol_version, .. } && protocol_version == PROTOCOL_VERSION
}

/// Handles the first message of a connection: it must be `HELLO` with this
/// protocol revision. Returns the random challenge, if the session opens,
/// and the reply to send: the challenge carrying it, or the protocol error.
/// Without a challenge the connection is closed, as it is when the reply
/// cannot be queued.
pub fn open_session(hello: Message) -> (opening: (Option<[u8; 32]>, Option<Message>))
    ensures
        is_compatible_hello(hello) ==> (opening.0 matches Some(n) && opening.1 matches Some(
            Message::Challenge { nonce },
        ) && nonce@ == n@),
        (hello is Hello && !is_compatible_hello(hello)) ==> opening.0 is None,
        (hello is Hello && !is_compatible_hello(hello)) ==> (opening.1 matches Some(m) && is_error(
            m,
            ErrorCode::IncompatibleProtocol,
            "JREMOTE/1 is required"@,
        )),
        !(hello is Hello) ==> opening.0 is None && opening.1 is None,
{
    match hello {
        Message::Hello { protocol_version, .. } => {
            if require_compatible(protocol_version).is_err() {
                return (
                    None,
                    Some(
                        Message::Error {
                            code: ErrorCode::IncompatibleProtocol,
                            message: "JREMOTE/1 is required".to_owned(),
                        },
                    ),
                );
            }
        },
        _ => return (None, None),
    }
    let nonce = random_nonce();
    let mut challenge: Vec<u8> = Vec::new();
    crate::bytes::append_bytes(&mut challenge, nonce.as_slice());
    (Some(nonce), Some(Message::Challenge { nonce: challenge }))
}

/// Handles one message of an opened connection at `now`. `registration`
/// is this connection's registration, if any, and `tx` its queue. Returns
/// the messages to send, in order; the connection stays open while the
/// last of them (if any) could be queued.
pub fn handle_message(
    tx: &Sender<Message>,
    state: &mut Registry,
    peer_ip: u128,
    connection_id: u128,
    nonce: &[u8],
    registration: &mut Option<Registration>,
    message: Message,
    now: u64,
) -> (out: Vec<Outgoing>)
    requires
        now <= LATEST_TIME_MS,
    ensures
        match message {
            Message::Register { device_id, public_key, signature } => if (*old(registration)) is Some {
                &&& registry_unchanged(*final(state), *old(state))
                &&& *final(registration) == *old(registration)
                &&& error_reply(out@, ErrorCode::InvalidMessage, "already registered"@)
            } else if authentication_blocked(old(state).authentication_failures@, peer_ip, now) {
                &&& registry_unchanged(*final(state), *old(state))
                &&& *final(registration) == *old(registration)
                &&& error_reply(
                    out@,
                    ErrorCode::AuthenticationFailed,
                    "too many failed authentication attempts; try again later"@,
                )
            } else if registration_proof_valid(nonce@, device_id, public_key@, signature@) {
                &&& final(state).model() == after_registration(
                    old(state).model(),
                    peer_ip,
                    device_id,
                    connection_id,
                )
                &&& final(state).peers@ == old(state).peers@.insert(
                    device_id,
                    RegisteredPeer { tx: *tx, connection_id },
                )
                &&& *final(registration) == Some(Registration { device_id, connection_id })
                &&& registration_replies(out@, old(state).peers@, device_id)
            } else {
                &&& final(state).model() == after_failure(old(state).model(), peer_ip, now)
                &&& final(state).peers@ == old(state).peers@
                &&& *final(registration) == *old(registration)
                &&& error_reply(
                    out@,
                    ErrorCode::AuthenticationFailed,
                    proof_failure_text(
                        proof_failure(nonce@, device_id, public_key@, signature@)->0,
                    ),
                )
            },
            Message::Lookup { device_id } => {
                &&& registry_unchanged(*final(state), *old(state))
                &&& *final(registration) == *old(registration)
                &&& registration_current(old(state).conns(), *old(registration)) ==> out@ == seq![
                    Outgoing::Reply(
                        Message::LookupResult {
                            device_id,
                            online: old(state).peers@.contains_key(device_id),
                        },
                    ),
                ]
                &&& !registration_current(old(state).conns(), *old(registration)) ==> error_reply(
                    out@,
                    ErrorCode::NotRegistered,
                    refusal_text(*old(registration)),
                )
            },
            Message::ConnectRequest { request_id, from_device_id, target_device_id } => {
                &&& *final(registration) == *old(registration)
                &&& !registration_current(old(state).conns(), *old(registration))
                    ==> registry_unchanged(*final(state), *old(state)) && error_reply(
                    out@,
                    ErrorCode::NotRegistered,
                    refusal_text(*old(registration)),
                )
                &&& registration_current(old(state).conns(), *old(registration))
                    && !request_is_well_formed(*old(registration), from_device_id, target_device_id)
                    ==> registry_unchanged(*final(state), *old(state)) && error_reply(
                    out@,
                    ErrorCode::InvalidMessage,
                    "invalid connection request"@,
                )
                &&& registration_current(old(state).conns(), *old(registration))
                    && request_is_well_formed(*old(registration), from_device_id, target_device_id)
                    ==> {
                    &&& final(state).model() == after_request(
                        old(state).model(),
                        (*old(registration))->0,
                        request_id,
                        target_device_id,
                        now,
                    )
                    &&& final(state).peers@ == old(state).peers@
                    &&& request_replies(
                        out@,
                        request_verdict(
                            live_requests(old(state).pending@, old(state).conns(), now),
                            old(state).conns(),
                            (*old(registration))->0,
                            request_id,
                            target_device_id,
                        ),
                        old(state).peers@,
                        request_id,
                        from_device_id,
                        target_device_id,
                    )
                }
            },
            Message::ConnectAccept { request_id } | Message::ConnectReject { request_id, .. } => {
                &&& *final(registration) == *old(registration)
                &&& !registration_current(old(state).conns(), *old(registration))
                    ==> registry_unchanged(*final(state), *old(state)) && error_reply(
                    out@,
                    ErrorCode::NotRegistered,
                    refusal_text(*old(registration)),
                )
                &&& registration_current(old(state).conns(), *old(registration)) ==> {
                    &&& final(state).model() == after_answer(
                        old(state).model(),
                        (*old(registration))->0,
                        request_id,
                        now,
                    )
                    &&& final(state).peers@ == old(state).peers@
                    &&& answer_replies(
                        out@,
                        live_requests(old(state).pending@, old(state).conns(), now),
                        old(state).peers@,
                        (*old(registration))->0,
                        request_id,
                        message,
                    )
                }
            },
            Message::Ping { nonce: n } => {
                &&& registry_unchanged(*final(state), *old(state))
                &&& *final(registration) == *old(registration)
                &&& out@ == seq![Outgoing::Reply(Message::Pong { nonce: n })]
            },
            _ => {
                &&& registry_unchanged(*final(state), *old(state))
                &&& *final(registration) == *old(registration)
                &&& error_reply(
                    out@,
                    ErrorCode::InvalidMessage,
                    "message is not valid in relay signalling state"@,
                )
            },
        },
{
    let current = *registration;
    match message {
        Message::Register { device_id, public_key, signature } => {
            let mut out: Vec<Outgoing> = Vec::new();
            if registration.is_some() {
                out.push(Outgoing::Reply(invalid("already registered")));
                out
            } else if authentication_is_blocked(state, peer_ip, now) {
                out.push(
                    Outgoing::Reply(
                        authentication_failed(
                            "too many failed authentication attempts; try again later",
                        ),
                    ),
                );
                out
            } else {
                register(
                    tx,
                    state,
                    peer_ip,
                    connection_id,
                    nonce,
                    device_id,
                    public_key,
                    signature,
                    registration,
                    now,
                )
            }
        },
        Message::Lookup { device_id } => {
            let mut out: Vec<Outgoing> = Vec::new();
            if require_current_registration(state, current, &mut out) {
                let online = state.peers.contains_key(&device_id);
                out.push(Outgoing::Reply(Message::LookupResult { device_id, online }));
            }
            out
        },
        Message::ConnectRequest { request_id, from_device_id, target_device_id } => {
            connect_request(state, current, request_id, from_device_id, target_device_id, now)
        },
        Message::ConnectAccept { request_id } => {
            let response = Message::ConnectAccept { request_id };
            connect_response(state, current, request_id, response, now)
        },
        Message::ConnectReject { request_id, reason } => {
            let response = Message::ConnectReject { request_id, reason };
            connect_response(state, current, request_id, response, now)
        },
        Message::Ping { nonce } => {
            let mut out: Vec<Outgoing> = Vec::new();
            out.push(Outgoing::Reply(Message::Pong { nonce }));
            out
        },
        _ => {
            let mut out: Vec<Outgoing> = Vec::new();
            out.push(Outgoing::Reply(invalid("message is not valid in relay signalling state")));
            out
        },
    }
}

/// The waiting requests respect the relay's limits: at most
/// `MAX_PENDING_REQUESTS` in all and `MAX_PENDING_PER_CLIENT` per client
/// connection.
pub open spec fn within_limits(pending: Map<u128, PendingRequest>) -> bool {
    &&& pending.dom().finite()
    &&& pending.len() <= MAX_PENDING_REQUESTS
    &&& forall|c: u128| #[trigger]
        requests_of_client(pending.dom(), pending, c).len() <= MAX_PENDING_PER_CLIENT
}

/// `q` holds some of the entries of `p`, unchanged.
pub open spec fn is_sub_map(q: Map<u128, PendingRequest>, p: Map<u128, PendingRequest>) -> bool {
    q.dom().subset_of(p.dom()) && forall|k: u128| #[trigger] q.contains_key(k) ==> q[k] == p[k]
}

/// Dropping requests keeps the relay within its limits.
proof fn lemma_sub_map_within_limits(q: Map<u128, PendingRequest>, p: Map<u128, PendingRequest>)
    requires
        within_limits(p),
        is_sub_map(q, p),
    ensures
        within_limits(q),
{
    vstd::set_lib::lemma_len_subset(q.dom(), p.dom());
    assert forall|c: u128| #[trigger]
        requests_of_client(q.dom(), q, c).len() <= MAX_PENDING_PER_CLIENT by {
        assert(requests_of_client(q.dom(), q, c).subset_of(requests_of_client(p.dom(), p, c)));
        vstd::set_lib::lemma_len_subset(
            requests_of_client(q.dom(), q, c),
            requests_of_client(p.dom(), p, c),
        );
    }
}

/// Every change that the relay makes to its waiting requests keeps it
/// within its limits: a new request is stored only while the relay and the
/// client are under them, and the other changes only drop requests.
pub proof fn law_request_limits_hold(
    pending: Map<u128, PendingRequest>,
    conns: Map<u32, u128>,
    client: Registration,
    id: u128,
    target: u32,
    connection: u128,
    now: u64,
)
    requires
        within_limits(pending),
    ensures
        within_limits(live_requests(pending, conns, now)),
        within_limits(requests_after_open(pending, conns, client, id, target, now)),
        within_limits(requests_after_answer(pending, conns, client, id, now)),
        within_limits(requests_without_connection(pending, connection)),
{
    let live = live_requests(pending, conns, now);
    assert(live.dom() =~= pending.dom().filter(
        |k: u128| request_is_live(pending[k], conns, now),
    ));
    lemma_sub_map_within_limits(live, pending);
    let without = requests_without_connection(pending, connection);
    assert(without.dom() =~= pending.dom().filter(
        |k: u128| pending[k].client_connection_id != connection && pending[k].host_connection_id
            != connection,
    ));
    lemma_sub_map_within_limits(without, pending);
    if live.contains_key(id) {
        lemma_sub_map_within_limits(live.remove(id), live);
    }
    match request_verdict(live, conns, client, id, target) {
        RequestVerdict::Forward => {
            let r = opened_request(client, target, conns, now);
            let grown = live.insert(id, r);
            assert(grown.dom() =~= live.dom().insert(id));
            assert forall|c: u128| #[trigger]
                requests_of_client(grown.dom(), grown, c).len() <= MAX_PENDING_PER_CLIENT by {
                let before = requests_of_client(live.dom(), live, c);
                assert(before.subset_of(live.dom()));
                vstd::set_lib::lemma_len_subset(before, live.dom());
                if c == client.connection_id {
                    assert(requests_of_client(grown.dom(), grown, c) =~= before.insert(id));
                } else {
                    assert(requests_of_client(grown.dom(), grown, c) =~= before);
                }
            }
        },
        _ => {},
    }
}

/// An answer settles a request only when it comes from the host connection
/// that the request waits for, and only while the request is live: any
/// other answer leaves the live requests as they are.
pub proof fn law_only_the_awaited_host_settles(
    pending: Map<u128, PendingRequest>,
    conns: Map<u32, u128>,
    host: Registration,
    id: u128,
    now: u64,
)
    requires
        pending.dom().finite(),
    ensures
        ({
            let live = live_requests(pending, conns, now);
            let after = requests_after_answer(pending, conns, host, id, now);
            &&& after.len() < live.len() || after == live
            &&& !(live.contains_key(id) && live[id].host_device_id == host.device_id
                && live[id].host_connection_id == host.connection_id) ==> after == live
            &&& forall|k: u128| k != id ==> (#[trigger] after.contains_key(k) <==> live.contains_key(k))
            &&& pending.contains_key(id) && pending[id].expires_at <= now ==> !after.contains_key(id)
        }),
{
    let live = live_requests(pending, conns, now);
    if live.contains_key(id) && live[id].host_device_id == host.device_id
        && live[id].host_connection_id == host.connection_id {
        assert(live.dom() =~= pending.dom().filter(
            |k: u128| request_is_live(pending[k], conns, now),
        ));
        vstd::set_lib::lemma_len_subset(live.dom(), pending.dom());
    }
}

/// An answer to a connection request reaches another connection only when
/// a live request waits for the answering host connection, and then only
/// the queue of the client that made the request, unchanged.
pub proof fn law_answers_reach_only_their_client(
    out: Seq<Outgoing>,
    live: Map<u128, PendingRequest>,
    peers: Map<u32, RegisteredPeer>,
    host: Registration,
    id: u128,
    response: Message,
)
    requires
        answer_replies(out, live, peers, host, id, response),
    ensures
        forall|i: int|
            0 <= i < out.len() && (#[trigger] out[i]) is Forward ==> {
                &&& live.contains_key(id)
                &&& live[id].host_device_id == host.device_id
                &&& live[id].host_connection_id == host.connection_id
                &&& out[i] == Outgoing::Forward(peers[live[id].client_device_id].tx, response)
            },
{
}

/// The failure record after failures at each of `times`, in order.
pub open spec fn failures_after_all(
    prev: Option<AuthenticationFailures>,
    times: Seq<u64>,
) -> Option<AuthenticationFailures>
    decreases times.len(),
{
    if times.len() == 0 {
        prev
    } else {
        Some(failures_after(failures_after_all(prev, times.drop_last()), times.last()))
    }
}

proof fn lemma_failures_in_one_window(times: Seq<u64>)
    requires
        times.len() >= 1,
        forall|i: int, j: int| 0 <= i <= j < times.len() ==> times[i] <= times[j],
        times.last() - times[0] <= AUTH_FAILURE_WINDOW_MS,
        times.last() <= LATEST_TIME_MS,
    ensures
        failures_after_all(None, times) matches Some(f) && f.window_started == times[0]
            && f.count == (if times.len() < 255 { times.len() } else { 255 }) && (times.len()
            >= MAX_AUTH_FAILURES ==> f.blocked_until == Some((times.last()
            + AUTH_BLOCK_DURATION_MS) as u64)) && (times.len() < MAX_AUTH_FAILURES
            ==> f.blocked_until is None),
    decreases times.len(),
{
    let prefix = times.drop_last();
    assert(failures_after_all(None, times) == Some(
        failures_after(failures_after_all(None, prefix), times.last()),
    ));
    if times.len() > 1 {
        assert(prefix[0] == times[0]);
        assert(prefix.last() == times[times.len() - 2]);
        assert(prefix.last() <= times.last());
        assert forall|i: int, j: int| 0 <= i <= j < prefix.len() implies prefix[i] <= prefix[j] by {
            assert(prefix[i] == times[i] && prefix[j] == times[j]);
        }
        lemma_failures_in_one_window(prefix);
        let f = failures_after_all(None, prefix)->0;
        assert(times.last() - f.window_started <= AUTH_FAILURE_WINDOW_MS);
    } else {
        assert(failures_after_all(None, prefix) == None::<AuthenticationFailures>);
    }
}

/// Five failed registration proofs from one address within the failure
/// window block that address, starting with the fifth failure and for the
/// five minutes that follow the last failure.
pub proof fn law_repeated_failures_block(
    failures: Map<u128, AuthenticationFailures>,
    ip: u128,
    times: Seq<u64>,
    at: u64,
)
    requires
        times.len() >= MAX_AUTH_FAILURES,
        forall|i: int, j: int| 0 <= i <= j < times.len() ==> times[i] <= times[j],
        times.last() - times[0] <= AUTH_FAILURE_WINDOW_MS,
        times.last() <= LATEST_TIME_MS,
    ensures
        failures_after_all(None, times) matches Some(f) && f.blocked_until == Some(
            (times.last() + AUTH_BLOCK_DURATION_MS) as u64,
        ),
        times.last() <= at < times.last() + AUTH_BLOCK_DURATION_MS ==> authentication_blocked(
            failures.insert(ip, failures_after_all(None, times)->0),
            ip,
            at,
        ),
{
    lemma_failures_in_one_window(times);
}

/// A successful registration ends the address's block and clears its count.
pub proof fn law_registration_clears_failures(m: RelayModel, ip: u128, device: u32, connection: u128, now: u64)
    ensures
        !authentication_blocked(after_registration(m, ip, device, connection).failures, ip, now),
        is_current(after_registration(m, ip, device, connection).conns, device, connection),
{
}

/// A request is forwarded exactly when its identifier is not taken by a
/// live request, the relay holds fewer than 10 000 live requests, the
/// client connection fewer than 4, and the target is registered.
pub proof fn law_requests_are_forwarded_when_within_limits(
    live: Map<u128, PendingRequest>,
    conns: Map<u32, u128>,
    client: Registration,
    id: u128,
    target: u32,
)
    ensures
        request_verdict(live, conns, client, id, target) == RequestVerdict::Forward <==> {
            &&& !live.contains_key(id)
            &&& live.len() < 10_000
            &&& requests_of_client(live.dom(), live, client.connection_id).len() < 4
            &&& conns.contains_key(target)
        },
        live.contains_key(id) ==> request_verdict(live, conns, client, id, target)
            == RequestVerdict::DuplicateId,
        !live.contains_key(id) && (live.len() >= 10_000 || requests_of_client(
            live.dom(),
            live,
            client.connection_id,
        ).len() >= 4) ==> request_verdict(live, conns, client, id, target)
            == RequestVerdict::RateLimited,
{
}

/// A failure that comes more than a minute after the record's window began
/// starts a new count, whatever the old record held: the count is one and
/// there is no block, so the address is not blocked at any time.
pub proof fn law_late_failure_starts_a_new_count(
    prev: AuthenticationFailures,
    now: u64,
    at: u64,
    failures: Map<u128, AuthenticationFailures>,
    ip: u128,
)
    requires
        now - prev.window_started > 60_000,
    ensures
        failures_after(Some(prev), now).count == 1,
        failures_after(Some(prev), now).window_started == now,
        failures_after(Some(prev), now).blocked_until is None,
        !authentication_blocked(
            failures.insert(ip, failures_after(Some(prev), now)),
            ip,
            at,
        ),
{
}

/// Fewer than five failed proofs within one window never block an
/// address.
pub proof fn law_few_failures_never_block(
    failures: Map<u128, AuthenticationFailures>,
    ip: u128,
    times: Seq<u64>,
    at: u64,
)
    requires
        1 <= times.len() < 5,
        forall|i: int, j: int| 0 <= i <= j < times.len() ==> times[i] <= times[j],
        times.last() - times[0] <= AUTH_FAILURE_WINDOW_MS,
        times.last() <= LATEST_TIME_MS,
    ensures
        failures_after_all(None, times) matches Some(f) && f.blocked_until is None,
        !authentication_blocked(failures.insert(ip, failures_after_all(None, times)->0), ip, at),
{
    lemma_failures_in_one_window(times);
}

} // verus!
