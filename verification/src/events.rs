//! The local event log: entries appended by the application, read back
//! newest first. The log never leaves the device.
use vstd::prelude::*;

verus! {

/// One logged event.
#[derive(Debug)]
pub struct Event {
    pub timestamp_unix: u64,
    pub kind: String,
    pub detail: String,
}

/// The newest `limit` items of `items` (oldest first), newest first.
pub open spec fn newest_first<T>(items: Seq<T>, limit: nat) -> Seq<T> {
    let n = if limit < items.len() {
        limit
    } else {
        items.len()
    };
    Seq::new(n, |i: int| items[items.len() - 1 - i])
}

/// The newest `limit` items of `items`, newest first.
pub fn take_newest<T>(items: Vec<T>, limit: usize) -> (newest: Vec<T>)
    ensures
        newest@ == newest_first(items@, limit as nat),
{
    let ghost all = items@;
    let mut rest = items;
    let mut newest: Vec<T> = Vec::new();
    while newest.len() < limit && rest.len() > 0
        invariant
            rest@ == all.subrange(0, all.len() - newest@.len()),
            newest@.len() <= limit,
            newest@.len() <= all.len(),
            forall|i: int| 0 <= i < newest@.len() ==> #[trigger] newest@[i] == all[all.len() - 1 - i],
        decreases rest@.len(),
    {
        match rest.pop() {
            Some(item) => newest.push(item),
            None => {},
        }
    }
    assert(newest@ =~= newest_first(all, limit as nat));
    newest
}

/// Most events that a listing shows.
pub const MAX_SHOWN_EVENTS: usize = 200;

/// The newest `limit` logged events (given oldest first), newest first, and
/// never more than `MAX_SHOWN_EVENTS`.
pub fn recent(events: Vec<Event>, limit: usize) -> (newest: Vec<Event>)
    ensures
        newest@ == newest_first(
            events@,
            (if limit < MAX_SHOWN_EVENTS { limit } else { MAX_SHOWN_EVENTS }) as nat,
        ),
{
    let shown = if limit < MAX_SHOWN_EVENTS { limit } else { MAX_SHOWN_EVENTS };
    take_newest(events, shown)
}

} // verus!
