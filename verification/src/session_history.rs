//! Local audit events of the consent lifecycle (requested, approved,
//! denied). They do not claim that a desktop session took place. At most
//! `MAX_HISTORY_ENTRIES` are kept, the newest ones.
use vstd::prelude::*;

use crate::events::newest_first;
use crate::system::unix_now;

verus! {

/// Most entries that the history keeps.
pub const MAX_HISTORY_ENTRIES: usize = 200;

/// What happened to a consent request.
#[derive(Clone, Copy, Debug, PartialEq, Eq, Structural)]
pub enum AccessAttemptStatus {
    Requested,
    Approved,
    Denied,
}

/// One audit entry.
#[derive(Clone, Debug, PartialEq, Eq)]
pub struct AccessAttempt {
    pub consent_id: u128,
    pub requester_device_id: String,
    pub status: AccessAttemptStatus,
    pub timestamp_unix: u64,
}

/// The audit entries, oldest first.
pub struct SessionHistory {
    pub entries: Vec<AccessAttempt>,
}

/// Why an entry could not be recorded.
#[derive(Clone, Copy, Debug, PartialEq, Eq)]
pub enum HistoryError {
    /// The system clock reads a time before the Unix epoch.
    ClockBeforeEpoch,
}

impl Default for SessionHistory {
    fn default() -> (history: Self)
        ensures
            history.entries@.len() == 0,
    {
        SessionHistory { entries: Vec::new() }
    }
}

/// `a` records this consent event.
pub open spec fn is_attempt(
    a: AccessAttempt,
    consent_id: u128,
    requester: Seq<char>,
    status: AccessAttemptStatus,
    timestamp_unix: u64,
) -> bool {
    &&& a.consent_id == consent_id
    &&& a.requester_device_id@ == requester
    &&& a.status == status
    &&& a.timestamp_unix == timestamp_unix
}

/// The newest `MAX_HISTORY_ENTRIES` entries.
pub open spec fn trimmed<T>(entries: Seq<T>) -> Seq<T> {
    if entries.len() > MAX_HISTORY_ENTRIES {
        entries.subrange(entries.len() - MAX_HISTORY_ENTRIES, entries.len() as int)
    } else {
        entries
    }
}

impl SessionHistory {
    /// Drops the oldest entries beyond `MAX_HISTORY_ENTRIES`.
    pub fn trim(&mut self)
        ensures
            final(self).entries@ == trimmed(old(self).entries@),
    {
        let excess = if self.entries.len() > MAX_HISTORY_ENTRIES {
            self.entries.len() - MAX_HISTORY_ENTRIES
        } else {
            0
        };
        if excess > 0 {
            let kept = self.entries.split_off(excess);
            self.entries = kept;
        }
    }

    /// Records an entry with timestamp `timestamp_unix`, keeping the newest
    /// `MAX_HISTORY_ENTRIES`.
    pub fn record_at(
        &mut self,
        consent_id: u128,
        requester_device_id: &str,
        status: AccessAttemptStatus,
        timestamp_unix: u64,
    )
        ensures
            final(self).entries@.len() >= 1,
            final(self).entries@ == trimmed(old(self).entries@.push(final(self).entries@.last())),
            is_attempt(
                final(self).entries@.last(),
                consent_id,
                requester_device_id@,
                status,
                timestamp_unix,
            ),
    {
        self.entries.push(
            AccessAttempt {
                consent_id,
                requester_device_id: requester_device_id.to_owned(),
                status,
                timestamp_unix,
            },
        );
        self.trim();
    }

    /// Records an entry at the time of the system clock.
    pub fn record(
        &mut self,
        consent_id: u128,
        requester_device_id: &str,
        status: AccessAttemptStatus,
    ) -> (r: Result<(), HistoryError>)
        ensures
            r is Err ==> final(self).entries@ == old(self).entries@,
            r is Ok ==> {
                &&& final(self).entries@.len() >= 1
                &&& final(self).entries@ == trimmed(
                    old(self).entries@.push(final(self).entries@.last()),
                )
                &&& is_attempt(
                    final(self).entries@.last(),
                    consent_id,
                    requester_device_id@,
                    status,
                    final(self).entries@.last().timestamp_unix,
                )
            },
    {
        let timestamp = match unix_now() {
            Some(t) => t,
            None => return Err(HistoryError::ClockBeforeEpoch),
        };
        self.record_at(consent_id, requester_device_id, status, timestamp);
        Ok(())
    }

    /// The newest `limit` entries, newest first.
    pub fn recent(&self, limit: usize) -> (newest: Vec<&AccessAttempt>)
        ensures
            newest@.len() == newest_first(self.entries@, limit as nat).len(),
            forall|i: int|
                0 <= i < newest@.len() ==> *#[trigger] newest@[i] == newest_first(
                    self.entries@,
                    limit as nat,
                )[i],
    {
        let n = self.entries.len();
        let mut newest: Vec<&AccessAttempt> = Vec::new();
        while newest.len() < limit && newest.len() < n
            invariant
                n == self.entries@.len(),
                newest@.len() <= limit,
                newest@.len() <= n,
                forall|i: int| 0 <= i < newest@.len() ==> *#[trigger] newest@[i] == self.entries@[n - 1 - i],
            decreases n - newest@.len(),
        {
            let i = n - 1 - newest.len();
            newest.push(&self.entries[i]);
        }
        newest
    }
}

/// The history never holds more than `MAX_HISTORY_ENTRIES` entries, and a
/// recorded entry is always the newest one kept.
pub proof fn law_history_is_bounded<T>(entries: Seq<T>, entry: T)
    ensures
        trimmed(entries).len() <= MAX_HISTORY_ENTRIES || trimmed(entries) == entries,
        entries.len() <= MAX_HISTORY_ENTRIES ==> trimmed(entries.push(entry)).len()
            <= MAX_HISTORY_ENTRIES,
        trimmed(entries.push(entry)).len() <= entries.len() + 1,
        trimmed(entries.push(entry)).last() == entry,
{
}

} // verus!
