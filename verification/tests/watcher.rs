use watch_stl::watch::{ChangeWatcher, WatchError};

/// With no filesystem activity, consecutive polls stay `false`.
#[test]
fn quiet_polls_return_false_twice() {
    let mut w = ChangeWatcher::new();
    assert_eq!(w.poll(), Ok(false));
    assert_eq!(w.poll(), Ok(false));
}

/// Many raw notifications between two polls collapse to a single `true`;
/// the next poll sees nothing — events are never replayed.
#[test]
fn notifications_coalesce_to_one_signal() {
    let mut w = ChangeWatcher::new();
    for _ in 0..5 {
        w.note_change();
    }
    assert_eq!(w.poll(), Ok(true));
    assert_eq!(w.poll(), Ok(false));
}

/// A single notification behaves the same as many.
#[test]
fn single_notification_signals_once() {
    let mut w = ChangeWatcher::new();
    w.note_change();
    assert_eq!(w.poll(), Ok(true));
    assert_eq!(w.poll(), Ok(false));
}

/// A backend failure is surfaced exactly once and the watcher remains
/// usable; the notifications that accompanied it are discarded with it.
#[test]
fn backend_error_surfaces_once() {
    let mut w = ChangeWatcher::new();
    w.note_change();
    w.note_error();
    assert_eq!(w.poll(), Err(WatchError::Backend));
    assert_eq!(w.poll(), Ok(false));
    w.note_change();
    assert_eq!(w.poll(), Ok(true));
}
