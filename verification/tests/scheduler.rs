use mustang::scheduler::apply_decision;
use mustang::SceneScheduler;

#[test]
fn fresh_scheduler_does_not_apply() {
    let s = SceneScheduler::new();
    assert!(!s.should_apply(), "no DOM change yet, no apply");
    assert_eq!(s.apply_count(), 0);
    assert_eq!(s.query_count(), 1);
}

#[test]
fn dom_change_triggers_single_apply() {
    let s = SceneScheduler::new();
    s.on_dom_changed();
    assert!(s.should_apply(), "dirty > applied, should apply");
    assert!(!s.should_apply(), "advanced, no longer dirty");
    assert_eq!(s.apply_count(), 1);
    assert_eq!(s.query_count(), 2);
}

#[test]
fn multiple_changes_coalesce() {
    let s = SceneScheduler::new();
    for _ in 0..10 {
        s.on_dom_changed();
    }
    assert!(s.should_apply());
    assert_eq!(s.apply_count(), 1, "10 mutations → 1 apply");
}

#[test]
fn is_clone_and_send_sync() {
    let s = SceneScheduler::new();
    let s2 = s.clone();
    s.on_dom_changed();
    assert!(s2.should_apply());
}

#[test]
fn dirty_count_counts_every_change() {
    let s = SceneScheduler::default();
    assert_eq!(s.dirty_count(), 0);
    s.on_dom_changed();
    s.on_dom_changed();
    s.on_dom_changed();
    assert_eq!(s.dirty_count(), 3);
    assert!(s.should_apply());
    assert_eq!(s.dirty_count(), 3);
}

#[test]
fn change_after_apply_applies_again() {
    let s = SceneScheduler::new();
    s.on_dom_changed();
    assert!(s.should_apply());
    s.on_dom_changed();
    assert!(s.should_apply());
    assert!(!s.should_apply());
    assert_eq!(s.apply_count(), 2);
    assert_eq!(s.query_count(), 3);
}

#[test]
fn apply_decision_compares_counters() {
    assert!(apply_decision(5, 4));
    assert!(!apply_decision(4, 4));
    assert!(!apply_decision(0, 0));
    assert!(!apply_decision(3, 7));
}
