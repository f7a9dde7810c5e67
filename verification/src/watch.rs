//! Debouncing of file-change notifications.
//!
//! The notification backend delivers raw events on its own thread; the
//! render loop polls once per frame.  `ChangeWatcher` coalesces however
//! many notifications arrived between two polls into a single change
//! signal: the queue is drained atomically on every poll and no event is
//! ever replayed.
//!
//! A backend failure recorded between two polls is surfaced by the next
//! `poll` exactly once; the watcher stays usable afterwards, and whatever
//! notifications accompanied the failure are discarded with it.

use vstd::prelude::*;

verus! {

/// Failure of the notification backend, surfaced by `poll` exactly once.
#[derive(Clone, Copy, PartialEq, Eq, Structural, Debug)]
pub enum WatchError {
    /// The backend reported an error while delivering events.
    Backend,
}

/// Pollable, debounced "did the watched file change" state.
///
/// The delivery side records raw notifications with `note_change` and
/// backend failures with `note_error`; the render loop consumes both
/// through `poll`.
#[derive(Clone, Copy, PartialEq, Eq, Structural, Debug)]
pub struct ChangeWatcher {
    /// Notifications recorded since the last poll.
    pub pending: u64,
    /// Whether the backend failed since the last poll.
    pub error_pending: bool,
}

/// The state after one raw notification: one more pending event.
pub open spec fn noted(w: ChangeWatcher) -> ChangeWatcher {
    ChangeWatcher {
        pending: if w.pending < u64::MAX {
            (w.pending + 1) as u64
        } else {
            w.pending
        },
        error_pending: w.error_pending,
    }
}

/// The state after `n` raw notifications.
pub open spec fn noted_n(w: ChangeWatcher, n: nat) -> ChangeWatcher
    decreases n,
{
    if n == 0 {
        w
    } else {
        noted(noted_n(w, (n - 1) as nat))
    }
}

/// The state every poll leaves behind: queue drained, failure cleared.
pub open spec fn drained(w: ChangeWatcher) -> ChangeWatcher {
    ChangeWatcher { pending: 0, error_pending: false }
}

/// What one poll of state `w` returns.
pub open spec fn poll_result(w: ChangeWatcher) -> Result<bool, WatchError> {
    if w.error_pending {
        Err(WatchError::Backend)
    } else {
        Ok(w.pending > 0)
    }
}

impl ChangeWatcher {
    /// A fresh watcher: nothing pending, no failure.
    pub fn new() -> (w: ChangeWatcher)
        ensures
            w.pending == 0,
            !w.error_pending,
    {
        ChangeWatcher { pending: 0, error_pending: false }
    }

    /// Record one raw notification from the backend.
    pub fn note_change(&mut self)
        ensures
            *final(self) == noted(*old(self)),
    {
        if self.pending < u64::MAX {
            self.pending = self.pending + 1;
        }
    }

    /// Record a failure of the backend.
    pub fn note_error(&mut self)
        ensures
            *final(self) == (ChangeWatcher {
                pending: old(self).pending,
                error_pending: true,
            }),
    {
        self.error_pending = true;
    }

    /// Drain everything recorded since the previous poll, atomically:
    /// a recorded failure is surfaced once, any number of notifications
    /// collapse to a single `true`, and nothing is replayed later.
    pub fn poll(&mut self) -> (r: Result<bool, WatchError>)
        ensures
            r == poll_result(*old(self)),
            *final(self) == drained(*old(self)),
    {
        let had_error = self.error_pending;
        let had_changes = self.pending > 0;
        self.pending = 0;
        self.error_pending = false;
        if had_error {
            Err(WatchError::Backend)
        } else {
            Ok(had_changes)
        }
    }
}

/// Polling is idempotent on a quiet watcher: with nothing recorded since
/// the previous poll, two consecutive polls both return `false`.
pub proof fn lemma_quiet_polls_false(w: ChangeWatcher)
    requires
        w.pending == 0,
        !w.error_pending,
    ensures
        poll_result(w) == Ok::<bool, WatchError>(false),
        poll_result(drained(w)) == Ok::<bool, WatchError>(false),
{
}

/// Any positive number of raw notifications between two polls collapses
/// to a single signal: the first poll returns `true`, and a poll of the
/// drained state returns `false` — nothing is replayed.
pub proof fn lemma_notifications_coalesce(w: ChangeWatcher, n: nat)
    requires
        !w.error_pending,
        n >= 1,
    ensures
        poll_result(noted_n(w, n)) == Ok::<bool, WatchError>(true),
        poll_result(drained(noted_n(w, n))) == Ok::<bool, WatchError>(false),
    decreases n,
{
    if n == 1 {
        assert(noted_n(w, 1) == noted(noted_n(w, 0)));
    } else {
        lemma_notifications_coalesce(w, (n - 1) as nat);
    }
}

} // verus!
