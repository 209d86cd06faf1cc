use defender::asynchronous::{anchor, AsyncGuard};
use defender::error::GuardError;
use defender::step::Step;
use defender::{GuardConfig, Timeout};
use std::time::{Duration, Instant};

fn bounded(millis: u64) -> GuardConfig {
    GuardConfig { timeout: Timeout::Duration(Duration::from_millis(millis)) }
}

fn instant() -> GuardConfig {
    GuardConfig { timeout: Timeout::Instant }
}

fn spin_for(span: Duration) {
    let begun = Instant::now();
    while begun.elapsed() <= span {
        std::hint::spin_loop();
    }
}

#[test]
fn anchor_keeps_the_first_reading() {
    let first = Instant::now();
    spin_for(Duration::from_millis(2));
    let later = Instant::now();
    assert!(later > first);

    let mut marker = None;
    assert_eq!(anchor(&mut marker, first), first);
    assert_eq!(marker, Some(first));
    assert_eq!(anchor(&mut marker, later), first);
    assert_eq!(marker, Some(first));
}

#[test]
fn instant_poll_is_always_ready() {
    let mut guard = AsyncGuard::<u8>::new(instant());
    assert!(matches!(guard.poll(), Step::Ready(Err(GuardError::Timeout))));
    assert_eq!(guard.set(42), Ok(()));
    match guard.poll() {
        Step::Ready(Ok(held)) => assert_eq!(*held, 42),
        _ => panic!("a held value should be ready"),
    }
}

#[test]
fn instant_poll_reports_a_kill() {
    let mut guard = AsyncGuard::<u8>::new(instant());
    assert_eq!(guard.kill(), Ok(()));
    assert!(matches!(guard.poll(), Step::Ready(Err(GuardError::Killed))));
}

#[test]
fn unbounded_poll_retries_until_decided() {
    let mut guard = AsyncGuard::<u8>::default();
    assert!(matches!(guard.poll(), Step::Retry));
    assert!(matches!(guard.poll(), Step::Retry));
    assert_eq!(guard.set(42), Ok(()));
    match guard.poll() {
        Step::Ready(Ok(held)) => assert_eq!(*held, 42),
        _ => panic!("a held value should be ready"),
    }
}

#[test]
fn unbounded_poll_never_times_out() {
    let guard = AsyncGuard::<u8>::default();
    assert!(matches!(guard.poll(), Step::Retry));
    spin_for(Duration::from_millis(20));
    assert!(matches!(guard.poll(), Step::Retry));
}

#[test]
fn unbounded_poll_reports_a_kill_from_a_clone() {
    let guard = AsyncGuard::<u8>::default();
    let mut other = guard.clone();
    assert!(matches!(guard.poll(), Step::Retry));
    assert_eq!(other.kill(), Ok(()));
    assert!(matches!(guard.poll(), Step::Ready(Err(GuardError::Killed))));
}

#[test]
fn bounded_poll_retries_within_the_deadline() {
    let mut guard = AsyncGuard::<u8>::new(bounded(5000));
    assert!(matches!(guard.poll(), Step::Retry));
    assert_eq!(guard.set(42), Ok(()));
    match guard.poll() {
        Step::Ready(Ok(held)) => assert_eq!(*held, 42),
        _ => panic!("a held value should be ready"),
    }
}

#[test]
fn bounded_poll_reports_a_kill_within_the_deadline() {
    let mut guard = AsyncGuard::<u8>::new(bounded(5000));
    assert!(matches!(guard.poll(), Step::Retry));
    assert_eq!(guard.kill(), Ok(()));
    assert!(matches!(guard.poll(), Step::Ready(Err(GuardError::Killed))));
}

#[test]
fn bounded_poll_times_out_after_the_deadline() {
    let guard = AsyncGuard::<u8>::new(bounded(30));
    assert!(matches!(guard.poll(), Step::Retry));
    spin_for(Duration::from_millis(31));
    assert!(matches!(guard.poll(), Step::Ready(Err(GuardError::Timeout))));
}

#[test]
fn countdown_starts_at_the_first_poll() {
    let guard = AsyncGuard::<u8>::new(bounded(30));
    spin_for(Duration::from_millis(31));
    assert!(matches!(guard.poll(), Step::Retry));
}

#[test]
fn countdown_is_not_restarted_by_later_polls() {
    let mut guard = AsyncGuard::<u8>::new(bounded(30));
    assert!(matches!(guard.poll(), Step::Retry));
    spin_for(Duration::from_millis(31));
    assert!(matches!(guard.poll(), Step::Ready(Err(GuardError::Timeout))));
    assert_eq!(guard.set(42), Ok(()));
    assert!(matches!(guard.poll(), Step::Ready(Err(GuardError::Timeout))));
}

#[test]
fn countdown_is_shared_by_clones() {
    let guard = AsyncGuard::<u8>::new(bounded(30));
    let other = guard.clone();
    assert!(matches!(guard.poll(), Step::Retry));
    spin_for(Duration::from_millis(31));
    assert!(matches!(other.poll(), Step::Ready(Err(GuardError::Timeout))));
    assert!(matches!(other.clone().poll(), Step::Ready(Err(GuardError::Timeout))));
}

#[test]
fn clones_share_the_cell() {
    let guard = AsyncGuard::<String>::new(instant());
    let mut other = guard.clone();
    assert_eq!(other.set(String::from("Hello AsyncGuard")), Ok(()));
    match guard.poll() {
        Step::Ready(Ok(held)) => assert_eq!(held.as_ref(), "Hello AsyncGuard"),
        _ => panic!("a held value should be ready"),
    }
}

#[test]
fn cooperative_transitions_follow_the_cell_rules() {
    let mut guard = AsyncGuard::<u8>::new(instant());
    assert_eq!(guard.reset(), Ok(None));
    assert_eq!(guard.set(1), Ok(()));
    assert_eq!(guard.set(2), Ok(()));
    assert_eq!(guard.kill(), Err(GuardError::UnableToKilled));
    assert_eq!(guard.reset(), Ok(Some(2)));
    assert!(matches!(guard.poll(), Step::Ready(Err(GuardError::Timeout))));
    assert_eq!(guard.kill(), Ok(()));
    assert_eq!(guard.kill(), Ok(()));
    assert_eq!(guard.set(3), Err(GuardError::Killed));
    assert_eq!(guard.reset(), Ok(None));
    assert!(matches!(guard.poll(), Step::Ready(Err(GuardError::Killed))));
}
