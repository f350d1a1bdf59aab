use audiobookroom::{Decision, ProgressTracker, Snapshot};

#[test]
fn first_observation_persists_then_small_move_skips() {
    let mut t = ProgressTracker::new();
    assert_eq!(t.observe(1, 7, 12_000), Decision::Persist);
    assert_eq!(t.observe(1, 7, 12_500), Decision::Skip);
    assert_eq!(t.observe(1, 7, 23_000), Decision::Persist);
    assert_eq!(t.last(), Some(Snapshot { chapter_id: 7, offset: 23_000 }));
}

#[test]
fn skip_keeps_the_saved_snapshot() {
    let mut t = ProgressTracker::new();
    t.observe(1, 7, 12_000);
    t.observe(1, 7, 12_500);
    assert_eq!(t.last(), Some(Snapshot { chapter_id: 7, offset: 12_000 }));
}

#[test]
fn threshold_is_inclusive() {
    let mut t = ProgressTracker::new();
    t.observe(1, 3, 0);
    assert_eq!(t.observe(1, 3, 9_999), Decision::Skip);
    assert_eq!(t.observe(1, 3, 10_000), Decision::Persist);
}

#[test]
fn backward_seek_persists() {
    let mut t = ProgressTracker::new();
    t.observe(1, 3, 30_000);
    assert_eq!(t.observe(1, 3, 20_000), Decision::Persist);
    assert_eq!(t.observe(1, 3, 11_000), Decision::Skip);
    assert_eq!(t.observe(1, 3, 10_000), Decision::Persist);
}

#[test]
fn chapter_change_persists() {
    let mut t = ProgressTracker::new();
    t.observe(1, 3, 5_000);
    assert_eq!(t.observe(1, 4, 5_000), Decision::Persist);
    assert_eq!(t.last(), Some(Snapshot { chapter_id: 4, offset: 5_000 }));
}

#[test]
fn increasing_run_within_band_persists_only_first() {
    let mut t = ProgressTracker::new();
    let offsets = [1_000u64, 2_000, 4_500, 8_000, 10_999];
    let decisions: Vec<Decision> = offsets.iter().map(|o| t.observe(2, 9, *o)).collect();
    assert_eq!(decisions[0], Decision::Persist);
    assert!(decisions[1..].iter().all(|d| *d == Decision::Skip));
}

#[test]
fn observe_run_matches_single_calls() {
    let offsets = vec![1_000u64, 2_000, 15_000, 15_500, 3_000];
    let mut run = ProgressTracker::new();
    let decisions = run.observe_run(2, 9, &offsets);
    let mut single = ProgressTracker::new();
    let expected: Vec<Decision> = offsets.iter().map(|o| single.observe(2, 9, *o)).collect();
    assert_eq!(decisions, expected);
    assert_eq!(
        decisions,
        vec![Decision::Persist, Decision::Skip, Decision::Persist, Decision::Skip, Decision::Persist]
    );
    assert_eq!(run.last(), Some(Snapshot { chapter_id: 9, offset: 3_000 }));
}
