use strong_scope_guard::LocalScopeGuard;
use strong_scope_guard::ScopeGuard;
use strong_scope_guard::StaticScopeGuard;
use strong_scope_guard::private::ScopeGuardPriv;

#[test]
fn set_and_finalize_runs_the_handler() {
    let mut log: Vec<&str> = Vec::new();
    let mut g: LocalScopeGuard<Option<&str>> = ScopeGuardPriv::new();
    g.set_handler(Some("fired"));
    g.call(&mut log);
    assert_eq!(log, vec!["fired"]);
}

#[test]
fn finalize_twice_runs_the_handler_once() {
    let mut log: Vec<&str> = Vec::new();
    let mut g: LocalScopeGuard<Option<&str>> = ScopeGuardPriv::new();
    g.set_handler(Some("fired"));
    g.call(&mut log);
    g.call(&mut log);
    assert_eq!(log, vec!["fired"]);
}

#[test]
fn replacement_discards_the_previous_handler() {
    let mut log: Vec<&str> = Vec::new();
    let mut g: LocalScopeGuard<Option<&str>> = ScopeGuardPriv::new();
    g.set_handler(Some("old"));
    g.set_handler(Some("new"));
    g.call(&mut log);
    assert_eq!(log, vec!["new"]);
}

#[test]
fn finalizing_a_fresh_guard_is_a_noop() {
    let mut log: Vec<&str> = Vec::new();
    let mut g: LocalScopeGuard<Option<&str>> = ScopeGuardPriv::new();
    g.call(&mut log);
    assert_eq!(log, Vec::<&str>::new());
}

#[test]
fn assigning_none_cancels_the_handler() {
    let mut log: Vec<&str> = Vec::new();
    let mut g: LocalScopeGuard<Option<&str>> = ScopeGuardPriv::new();
    g.set_handler(Some("fired"));
    g.set_handler(None);
    g.call(&mut log);
    assert_eq!(log, Vec::<&str>::new());
}

#[test]
fn take_handler_returns_and_empties_the_slot() {
    let mut log: Vec<&str> = Vec::new();
    let mut g: LocalScopeGuard<Option<&str>> = ScopeGuardPriv::new();
    g.set_handler(Some("fired"));
    let taken = g.take_handler();
    assert_eq!(taken, Some("fired"));
    g.call(&mut log);
    assert_eq!(log, Vec::<&str>::new());
}

#[test]
fn reassignment_after_finalize_arms_the_guard_again() {
    let mut log: Vec<&str> = Vec::new();
    let mut g: LocalScopeGuard<Option<&str>> = ScopeGuardPriv::new();
    g.set_handler(Some("first"));
    g.call(&mut log);
    g.set_handler(Some("second"));
    g.call(&mut log);
    assert_eq!(log, vec!["first", "second"]);
}

#[test]
fn static_guard_discards_assignments() {
    let mut g: StaticScopeGuard<Option<&str>> = StaticScopeGuard::new();
    g.set_handler(Some("never"));
    assert_eq!(g.take_handler(), None);
}

#[test]
fn static_guard_finalize_appends_nothing() {
    let mut log: Vec<&str> = Vec::new();
    let mut g: StaticScopeGuard<Option<&str>> = StaticScopeGuard::new();
    g.set_handler(Some("never"));
    g.call(&mut log);
    assert_eq!(log, Vec::<&str>::new());
}

#[test]
fn tuple_handler_on_one_guard_runs_in_order() {
    let mut log: Vec<u64> = Vec::new();
    let mut g: LocalScopeGuard<(Option<u64>, Option<u64>)> = ScopeGuardPriv::new();
    g.set_handler((Some(1), Some(2)));
    g.call(&mut log);
    assert_eq!(log, vec![1, 2]);
}
