use smol_clip::guard::ScopeGuard;
use std::cell::Cell;

#[test]
fn the_callback_waits_for_the_end_of_the_scope() {
    let runs = Cell::new(0);
    let guard = ScopeGuard::new(|| runs.set(runs.get() + 1));
    assert_eq!(runs.get(), 0);
    assert!(guard.callback.is_some());
}

#[test]
fn the_callback_runs_once() {
    let runs = Cell::new(0);
    let mut guard = ScopeGuard::new(|| runs.set(runs.get() + 1));
    guard.drop();
    assert_eq!(runs.get(), 1);
    assert!(guard.callback.is_none());
    guard.drop();
    assert_eq!(runs.get(), 1);
}
