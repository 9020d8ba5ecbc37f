//! Local consent requests for a future remote session: each is created
//! pending, is approved or denied explicitly, and expires after a minute.
use vstd::prelude::*;

use crate::system::{new_uuid, unix_now};
use crate::text::{is_blank, is_blank_text};

verus! {

/// Seconds that a consent request stays open.
pub const CONSENT_TTL_SECONDS: u64 = 60;

/// Most consent requests that are kept; the oldest one makes room.
pub const MAX_REQUESTS: usize = 200;

/// State of a consent request.
#[derive(Clone, Copy, Debug, PartialEq, Eq, Structural)]
pub enum ConsentStatus {
    Pending,
    Approved,
    Denied,
    Expired,
}

/// A request, by a remote device, for local consent.
#[derive(Clone, Debug)]
pub struct ConsentRequest {
    pub id: u128,
    pub requester_device_id: String,
    pub created_at_unix: u64,
    pub expires_at_unix: u64,
    pub status: ConsentStatus,
}

/// All consent requests, oldest first.
pub struct ConsentStore {
    pub requests: Vec<ConsentRequest>,
}

/// Why a consent operation failed.
#[derive(Clone, Copy, Debug, PartialEq, Eq)]
pub enum ConsentError {
    /// A request needs a requester device ID that is not blank.
    EmptyRequester,
    /// The system clock reads a time before the Unix epoch, or one too far
    /// ahead to compute an expiry.
    Clock,
    /// No request has this ID.
    UnknownRequest,
    /// The request was already approved, denied or expired.
    NotPending,
}

impl Default for ConsentStore {
    fn default() -> (store: Self)
        ensures
            store.requests@.len() == 0,
    {
        ConsentStore { requests: Vec::new() }
    }
}

/// `r` with another status.
pub open spec fn with_status(r: ConsentRequest, status: ConsentStatus) -> ConsentRequest {
    ConsentRequest { status, ..r }
}

/// The status of `r` at `now`: a pending request whose expiry has come is
/// expired; every other status stays.
pub open spec fn status_at(r: ConsentRequest, now: u64) -> ConsentStatus {
    if r.status == ConsentStatus::Pending && r.expires_at_unix <= now {
        ConsentStatus::Expired
    } else {
        r.status
    }
}

/// The requests with their statuses brought up to `now`.
pub open spec fn expire_all(rs: Seq<ConsentRequest>, now: u64) -> Seq<ConsentRequest> {
    Seq::new(rs.len(), |i: int| with_status(rs[i], status_at(rs[i], now)))
}

/// A new pending request.
pub open spec fn new_request(id: u128, requester: String, created: u64) -> ConsentRequest {
    ConsentRequest {
        id,
        requester_device_id: requester,
        created_at_unix: created,
        expires_at_unix: (created + CONSENT_TTL_SECONDS) as u64,
        status: ConsentStatus::Pending,
    }
}

/// The requests after a new one, `id` by `requester` created at `created`:
/// statuses are brought up to `now`, the oldest request leaves when the
/// store is full, and the new one comes last.
pub open spec fn requests_after_request(
    rs: Seq<ConsentRequest>,
    requester: String,
    now: u64,
    created: u64,
    id: u128,
) -> Seq<ConsentRequest> {
    let e = expire_all(rs, now);
    let kept = if e.len() >= MAX_REQUESTS {
        e.drop_first()
    } else {
        e
    };
    kept.push(new_request(id, requester, created))
}

/// The first position of a request with this ID, if any.
pub open spec fn first_index_of(rs: Seq<ConsentRequest>, id: u128) -> Option<int> {
    if exists|i: int| 0 <= i < rs.len() && #[trigger] rs[i].id == id {
        Some(
            choose|i: int|
                0 <= i < rs.len() && rs[i].id == id && forall|j: int| 0 <= j < i ==> #[trigger] rs[j].id != id,
        )
    } else {
        None
    }
}

/// The outcome of resolving request `id` at `now`: the requests, with
/// statuses brought up to `now` and the request decided if it was pending,
/// and the result.
pub open spec fn resolution(rs: Seq<ConsentRequest>, id: u128, approved: bool, now: u64) -> (
    Seq<ConsentRequest>,
    Result<(), ConsentError>,
) {
    let e = expire_all(rs, now);
    match first_index_of(e, id) {
        None => (e, Err(ConsentError::UnknownRequest)),
        Some(i) => if e[i].status != ConsentStatus::Pending {
            (e, Err(ConsentError::NotPending))
        } else {
            (
                e.update(
                    i,
                    with_status(
                        e[i],
                        if approved {
                            ConsentStatus::Approved
                        } else {
                            ConsentStatus::Denied
                        },
                    ),
                ),
                Ok(()),
            )
        },
    }
}

/// Sets the status of request `i`.
fn set_status_at(requests: &mut Vec<ConsentRequest>, i: usize, status: ConsentStatus)
    requires
        i < old(requests)@.len(),
    ensures
        final(requests)@ == old(requests)@.update(i as int, with_status(old(requests)@[i as int], status)),
{
    let mut r = requests.remove(i);
    r.status = status;
    requests.insert(i, r);
    assert(requests@ =~= old(requests)@.update(i as int, with_status(old(requests)@[i as int], status)));
}

impl ConsentStore {
    /// Marks every pending request whose expiry has come as expired.
    pub fn expire_old(&mut self, timestamp: u64)
        ensures
            final(self).requests@ == expire_all(old(self).requests@, timestamp),
    {
        let n = self.requests.len();
        let mut i: usize = 0;
        while i < n
            invariant
                n == old(self).requests@.len(),
                self.requests@.len() == n,
                i <= n,
                forall|j: int| 0 <= j < i ==> #[trigger] self.requests@[j] == expire_all(old(self).requests@, timestamp)[j],
                forall|j: int| i <= j < n ==> #[trigger] self.requests@[j] == old(self).requests@[j],
            decreases n - i,
        {
            if self.requests[i].status == ConsentStatus::Pending && self.requests[i].expires_at_unix
                <= timestamp {
                set_status_at(&mut self.requests, i, ConsentStatus::Expired);
            } else {
                assert(self.requests@[i as int] == with_status(self.requests@[i as int], self.requests@[i as int].status));
            }
            i = i + 1;
        }
        assert(self.requests@ =~= expire_all(old(self).requests@, timestamp));
    }

    /// Adds a pending request by `requester` at `now` (statuses are brought up
    /// to `now`, created at `created`) with ID `id`, making room by dropping
    /// the oldest request when the store is full.
    pub fn request_at(&mut self, requester_device_id: String, now: u64, created: u64, id: u128) -> (r:
        Result<u128, ConsentError>)
        requires
            created <= u64::MAX - CONSENT_TTL_SECONDS,
        ensures
            is_blank_text(requester_device_id@) ==> r == Err::<u128, ConsentError>(
                ConsentError::EmptyRequester,
            ) && final(self).requests@ == old(self).requests@,
            !is_blank_text(requester_device_id@) ==> r == Ok::<u128, ConsentError>(id)
                && final(self).requests@ == requests_after_request(
                old(self).requests@,
                requester_device_id,
                now,
                created,
                id,
            ),
    {
        if is_blank(requester_device_id.as_str()) {
            return Err(ConsentError::EmptyRequester);
        }
        self.expire_old(now);
        if self.requests.len() >= MAX_REQUESTS {
            self.requests.remove(0);
        }
        self.requests.push(
            ConsentRequest {
                id,
                requester_device_id,
                created_at_unix: created,
                expires_at_unix: created + CONSENT_TTL_SECONDS,
                status: ConsentStatus::Pending,
            },
        );
        Ok(id)
    }

    /// Adds a pending request by `requester`, with a random ID, at the time of
    /// the system clock (one reading dates the request and expires the older
    /// ones); returns its ID. Only a blank requester, or a clock that reads a
    /// time before the epoch or too late to date an expiry, makes it fail.
    pub fn request(&mut self, requester_device_id: String) -> (r: Result<u128, ConsentError>)
        ensures
            is_blank_text(requester_device_id@) ==> r == Err::<u128, ConsentError>(
                ConsentError::EmptyRequester,
            ),
            !is_blank_text(requester_device_id@) && r is Err ==> r == Err::<u128, ConsentError>(
                ConsentError::Clock,
            ),
            r is Ok ==> exists|now: u64|
                final(self).requests@ == requests_after_request(
                    old(self).requests@,
                    requester_device_id,
                    now,
                    now,
                    r->Ok_0,
                ),
            r is Err ==> final(self).requests@ == old(self).requests@,
    {
        if is_blank(requester_device_id.as_str()) {
            return Err(ConsentError::EmptyRequester);
        }
        let now = match unix_now() {
            Some(t) => t,
            None => return Err(ConsentError::Clock),
        };
        if now > u64::MAX - CONSENT_TTL_SECONDS {
            return Err(ConsentError::Clock);
        }
        let id = new_uuid();
        let ghost who = requester_device_id;
        let r = self.request_at(requester_device_id, now, now, id);
        assert(self.requests@ == requests_after_request(old(self).requests@, who, now, now, id));
        assert(r->Ok_0 == id);
        assert(exists|a: u64| #[trigger] requests_after_request(old(self).requests@, who, a, a, id) == self.requests@);
        r
    }

    /// Approves or denies request `id` at `now`. Statuses are brought up to
    /// `now` first; only a pending request can be decided.
    pub fn resolve_at(&mut self, id: u128, approved: bool, now: u64) -> (r: Result<(), ConsentError>)
        ensures
            (final(self).requests@, r) == resolution(old(self).requests@, id, approved, now),
    {
        self.expire_old(now);
        let ghost e = self.requests@;
        let n = self.requests.len();
        let mut i: usize = 0;
        let mut found = false;
        while i < n
            invariant_except_break
                !found,
            invariant
                n == e.len(),
                self.requests@ == e,
                i <= n,
                forall|j: int| 0 <= j < i ==> #[trigger] e[j].id != id,
            ensures
                found ==> i < n && e[i as int].id == id,
                !found ==> i == n,
            decreases n - i,
        {
            if self.requests[i].id == id {
                found = true;
                break;
            }
            i = i + 1;
        }
        if !found {
            return Err(ConsentError::UnknownRequest);
        }
        proof {
            let c = choose|c: int|
                0 <= c < e.len() && e[c].id == id && forall|j: int| 0 <= j < c ==> #[trigger] e[j].id != id;
            assert(c == i) by {
                if c < i {
                    assert(e[c].id != id);
                } else if c > i {
                    assert(e[i as int].id != id);
                }
            }
        }
        if self.requests[i].status != ConsentStatus::Pending {
            return Err(ConsentError::NotPending);
        }
        let status = if approved {
            ConsentStatus::Approved
        } else {
            ConsentStatus::Denied
        };
        set_status_at(&mut self.requests, i, status);
        Ok(())
    }

    /// Approves or denies request `id` at the time of the system clock.
    pub fn resolve(&mut self, id: u128, approved: bool) -> (r: Result<(), ConsentError>)
        ensures
            r == Err::<(), ConsentError>(ConsentError::Clock) ==> final(self).requests@ == old(
                self,
            ).requests@,
            r != Err::<(), ConsentError>(ConsentError::Clock) ==> exists|now: u64|
                (final(self).requests@, r) == resolution(old(self).requests@, id, approved, now),
    {
        let now = match unix_now() {
            Some(t) => t,
            None => return Err(ConsentError::Clock),
        };
        self.resolve_at(id, approved, now)
    }
}

/// A decided or expired request keeps its status: bringing statuses up to
/// date changes only pending requests, and only to expired.
pub proof fn law_decisions_are_final(rs: Seq<ConsentRequest>, now: u64)
    ensures
        expire_all(rs, now).len() == rs.len(),
        forall|i: int|
            0 <= i < rs.len() && rs[i].status != ConsentStatus::Pending ==> #[trigger] expire_all(
                rs,
                now,
            )[i] == rs[i],
        forall|i: int|
            0 <= i < rs.len() && rs[i].status == ConsentStatus::Pending ==> #[trigger] expire_all(
                rs,
                now,
            )[i].status == ConsentStatus::Pending || expire_all(rs, now)[i].status
                == ConsentStatus::Expired,
{
}

/// Approval is explicit and persistent: a new request approved before it
/// expires is approved, and stays approved whenever statuses are brought up
/// to date later.
pub proof fn law_approval_persists(
    rs: Seq<ConsentRequest>,
    requester: String,
    now: u64,
    created: u64,
    id: u128,
    resolved_at: u64,
    later: u64,
)
    requires
        created <= u64::MAX - CONSENT_TTL_SECONDS,
        resolved_at < created + CONSENT_TTL_SECONDS,
        forall|i: int| 0 <= i < rs.len() ==> #[trigger] rs[i].id != id,
    ensures
        ({
            let added = requests_after_request(rs, requester, now, created, id);
            let (decided, result) = resolution(added, id, true, resolved_at);
            &&& result is Ok
            &&& decided.last().id == id && decided.last().status == ConsentStatus::Approved
            &&& expire_all(decided, later).last().status == ConsentStatus::Approved
        }),
{
    let added = requests_after_request(rs, requester, now, created, id);
    let e = expire_all(added, resolved_at);
    let last = added.len() - 1;
    assert(e[last].id == id);
    assert(forall|j: int| 0 <= j < last ==> #[trigger] e[j].id != id) by {
        assert forall|j: int| 0 <= j < last implies #[trigger] e[j].id != id by {
            let ex = expire_all(rs, now);
            if ex.len() >= MAX_REQUESTS {
                assert(added[j] == ex[j + 1]);
                assert(ex[j + 1].id == rs[j + 1].id);
            } else {
                assert(added[j] == ex[j]);
            }
        }
    }
    let c = choose|c: int|
        0 <= c < e.len() && e[c].id == id && forall|j: int| 0 <= j < c ==> #[trigger] e[j].id != id;
    assert(c == last) by {
        if c < last {
            assert(e[c].id != id);
        }
    }
}

} // verus!
