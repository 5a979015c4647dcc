//! The leaf components on their own: configuration defaults, retry policy,
//! position tracking, rotation detection, thread naming.

use chase::Chaser;
use chase::FileId;
use chase::Line;
use chase::RotationOutcome;
use chase::position::PositionTracker;
use chase::retry::RetryPolicy;
use chase::rotation::rotation_outcome;
use chase::thread_namer;

#[test]
fn chaser_defaults() {
    let chaser = Chaser::new("a/b.log".to_string(), Line(4));
    assert_eq!(chaser.path, "a/b.log");
    assert_eq!(chaser.line, Line(4));
    assert_eq!(chaser.initial_no_file_attempts, None);
    assert_eq!(chaser.initial_no_file_wait_millis, 100);
    assert_eq!(chaser.rotation_check_attempts, None);
    assert_eq!(chaser.rotation_check_wait_millis, 100);
    assert_eq!(chaser.not_rotated_wait_millis, 50);
}

#[test]
fn thread_namer_appends_path() {
    assert_eq!(thread_namer("var/log/app.log"), "chase-thread-var/log/app.log");
    assert_eq!(thread_namer(""), "chase-thread-");
}

#[test]
fn unbounded_policy_always_allows_retry() {
    let policy = RetryPolicy::new(None, 100);
    assert!(policy.allows_retry(0));
    assert!(policy.allows_retry(1_000_000));
}

#[test]
fn bounded_policy_stops_at_its_budget() {
    let policy = RetryPolicy::new(Some(2), 100);
    assert!(policy.allows_retry(0));
    assert!(policy.allows_retry(1));
    assert!(!policy.allows_retry(2));
    assert!(!policy.allows_retry(3));
}

#[test]
fn position_tracker_advances_and_resets() {
    let mut tracker = PositionTracker::new();
    assert_eq!(tracker.line, Line(0));
    assert_eq!(tracker.pos, 0);
    tracker.advance(6);
    tracker.advance(1);
    assert_eq!(tracker.line, Line(2));
    assert_eq!(tracker.pos, 7);
    tracker.reset();
    assert_eq!(tracker.line, Line(0));
    assert_eq!(tracker.pos, 0);
}

#[test]
fn same_identity_is_not_a_rotation() {
    let id = FileId { device: 3, index: 42 };
    assert_eq!(rotation_outcome(id, id), RotationOutcome::NotRotated);
}

#[test]
fn changed_identity_is_a_rotation() {
    let current = FileId { device: 3, index: 42 };
    let probed = FileId { device: 3, index: 43 };
    assert_eq!(
        rotation_outcome(current, probed),
        RotationOutcome::Rotated { file_id: probed },
    );
    let other_device = FileId { device: 4, index: 42 };
    assert_eq!(
        rotation_outcome(current, other_device),
        RotationOutcome::Rotated { file_id: other_device },
    );
}
