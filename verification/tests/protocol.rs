use sync_select::park_decision;
use sync_select::OwnerHandle;
use sync_select::SyncSelect;

#[test]
fn fresh_coordinator_is_clear() {
    let s = SyncSelect::new();
    assert!(!s.poll());
    assert_eq!(s.spawned(), 0);
    assert_eq!(s.completed(), 0);
    assert_eq!(s.thread().id(), 0);
}

#[test]
fn default_matches_new() {
    let s: SyncSelect = Default::default();
    assert!(!s.poll());
    assert_eq!(s.spawned(), 0);
    assert_eq!(s.completed(), 0);
    assert_eq!(s.thread().id(), 0);
}

#[test]
fn owner_handle_is_clonable_and_stable() {
    let s = SyncSelect::new();
    let h: OwnerHandle = s.thread();
    let h2: OwnerHandle = h;
    assert_eq!(h.id(), h2.id());
    assert_eq!(h2, s.thread());
}

#[test]
fn spawn_numbers_children_and_leaves_flag_clear() {
    let mut s = SyncSelect::new();
    assert_eq!(s.spawn(), 1);
    assert_eq!(s.spawn(), 2);
    assert_eq!(s.spawn(), 3);
    assert_eq!(s.spawned(), 3);
    assert_eq!(s.completed(), 0);
    assert!(!s.poll());
}

#[test]
fn single_spawn_wait_after_completion() {
    // The child completes before the owner waits: the wait returns at
    // once, without suspending, and the flag stays set.
    let mut s = SyncSelect::new();
    s.spawn();
    s.signal();
    assert!(s.poll());
    s.join();
    assert!(s.poll());
    assert_eq!(s.completed(), 1);
}

#[test]
fn single_spawn_wait_before_completion() {
    // The owner checks before the child is done, so the wait suspends;
    // it returns only once the child's signal step has run and resumed
    // the owner.
    let mut s = SyncSelect::new();
    s.spawn();
    assert!(!s.poll());
    assert!(park_decision(s.poll()));
    s.signal();
    s.park();
    assert!(s.poll());
    assert_eq!(s.completed(), 1);
}

#[test]
fn multiple_spawns_first_to_finish_wins() {
    // Three children race; the wait returns once the quickest has
    // signaled, while the two slower ones are still running.
    let mut s = SyncSelect::new();
    s.spawn();
    s.spawn();
    s.spawn();
    s.signal();
    s.join();
    assert!(s.poll());
    assert_eq!(s.completed(), 1);
    assert_eq!(s.spawned(), 3);
}

#[test]
fn no_lost_wakeup_under_race() {
    // The racing interleaving: the owner's check sees the flag clear,
    // the child then runs its whole signal step, and only then does the
    // owner suspend. The resume is sticky, so the suspension completes.
    let mut s = SyncSelect::new();
    s.spawn();
    assert!(!s.poll());
    s.signal();
    s.park();
    assert!(s.poll());
}

#[test]
fn idempotent_wait() {
    let mut s = SyncSelect::new();
    s.spawn();
    s.spawn();
    s.signal();
    s.join();
    let spawned = s.spawned();
    let completed = s.completed();
    s.join();
    s.join();
    assert!(s.poll());
    assert_eq!(s.spawned(), spawned);
    assert_eq!(s.completed(), completed);
}

#[test]
fn nested_coordinator_independence() {
    // A child gets its own coordinator, fans out a grandchild and waits
    // for it; none of that touches the outer flag, which moves only
    // through the child's own outer signal step afterwards.
    let mut outer = SyncSelect::new();
    let (child, mut nested) = outer.spawn_with();
    assert_eq!(child, 1);
    assert_eq!(nested.thread().id(), child);
    assert!(!nested.poll());
    nested.spawn();
    nested.signal();
    nested.join();
    assert!(nested.poll());
    assert!(!outer.poll());
    outer.signal();
    outer.join();
    assert!(outer.poll());
}

#[test]
fn sibling_signals_accumulate() {
    // Every finishing child runs the signal step; repeated stores of
    // `true` are harmless and the completion count keeps climbing.
    let mut s = SyncSelect::new();
    s.spawn();
    s.spawn();
    s.signal();
    s.join();
    s.signal();
    assert!(s.poll());
    assert_eq!(s.completed(), 2);
    s.join();
    assert_eq!(s.completed(), 2);
}

#[test]
fn park_decision_follows_flag() {
    assert!(park_decision(false));
    assert!(!park_decision(true));
}
