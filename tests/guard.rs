use std::time::Duration;

use futures_cancel::{CancelGuard, CancelledByShutdown, Step};

/// What one run of a guard on a virtual clock (in milliseconds) gave.
struct Run {
    outcome: Result<u32, CancelledByShutdown>,
    resolved_at: u64,
    arms: usize,
    polls: usize,
}

/// Drives `guard` on a virtual clock: the operation yields 7 at
/// `finishes_at`, cancellation fires at `cancelled_at`, and the guard is
/// polled at 0 and then at each instant something it waits for fires.
fn run(mut guard: CancelGuard, finishes_at: u64, cancelled_at: u64) -> Run {
    let mut now: u64 = 0;
    let mut deadline: Option<u64> = None;
    let mut arms = 0;
    let mut polls = 0;
    loop {
        assert!(!guard.is_resolved());
        polls += 1;
        let mut step: Step<u32> = guard.begin_poll();
        let wake = loop {
            step = match step {
                Step::PollCancellation => guard.cancellation_polled(cancelled_at <= now),
                Step::ArmTimer(d) => {
                    arms += 1;
                    deadline = Some(now + d.as_millis() as u64);
                    guard.timer_armed()
                }
                Step::PollOperation => {
                    let out = if finishes_at <= now { Some(7) } else { None };
                    guard.operation_polled(out)
                }
                Step::PollTimer => guard.timer_polled(deadline.map_or(false, |t| t <= now)),
                Step::Pending { wake } => break wake,
                Step::Ready(outcome) => {
                    assert!(guard.is_resolved());
                    return Run { outcome, resolved_at: now, arms, polls };
                }
            };
        };
        assert!(guard.is_idle());
        if !wake {
            let mut next = finishes_at;
            if !guard.is_grace_active() && cancelled_at > now {
                next = next.min(cancelled_at);
            }
            if let Some(t) = deadline {
                if t > now {
                    next = next.min(t);
                }
            }
            assert!(next > now);
            now = next;
        }
    }
}

#[test]
fn message_text() {
    assert_eq!(
        CancelledByShutdown.message(),
        ["A shutdown request caused this", "task to be cancelled"].join(" ")
    );
}

#[test]
fn long_operation_cancelled_without_grace() {
    let r = run(CancelGuard::new(), 60_000, 500);
    assert_eq!(r.outcome, Err(CancelledByShutdown));
    assert_eq!(r.resolved_at, 500);
    assert_eq!(r.arms, 0);
}

#[test]
fn long_operation_cancelled_after_grace() {
    let r = run(CancelGuard::with_grace(Duration::from_secs(5)), 60_000, 500);
    assert_eq!(r.outcome, Err(CancelledByShutdown));
    assert_eq!(r.resolved_at, 5_500);
    assert_eq!(r.arms, 1);
}

#[test]
fn short_operation_finishes_within_grace() {
    let r = run(CancelGuard::with_grace(Duration::from_secs(5)), 2_000, 500);
    assert_eq!(r.outcome, Ok(7));
    assert_eq!(r.resolved_at, 2_000);
    assert_eq!(r.arms, 1);
}

#[test]
fn shared_cancellation_with_independent_grace() {
    let short = run(CancelGuard::with_grace(Duration::from_secs(2)), 60_000, 500);
    let long = run(CancelGuard::with_grace(Duration::from_secs(5)), 60_000, 500);
    assert_eq!(short.outcome, Err(CancelledByShutdown));
    assert_eq!(short.resolved_at, 2_500);
    assert_eq!(long.outcome, Err(CancelledByShutdown));
    assert_eq!(long.resolved_at, 5_500);
}

#[test]
fn operation_first_without_grace() {
    let r = run(CancelGuard::new(), 300, 500);
    assert_eq!(r.outcome, Ok(7));
    assert_eq!(r.resolved_at, 300);
}

#[test]
fn tie_goes_to_cancellation_without_grace() {
    let r = run(CancelGuard::new(), 500, 500);
    assert_eq!(r.outcome, Err(CancelledByShutdown));
    assert_eq!(r.resolved_at, 500);
}

#[test]
fn tie_goes_to_operation_with_grace() {
    let r = run(CancelGuard::with_grace(Duration::from_secs(1)), 500, 500);
    assert_eq!(r.outcome, Ok(7));
    assert_eq!(r.resolved_at, 500);
}

#[test]
fn operation_finishing_at_expiry_wins() {
    let r = run(CancelGuard::with_grace(Duration::from_secs(1)), 1_500, 500);
    assert_eq!(r.outcome, Ok(7));
    assert_eq!(r.resolved_at, 1_500);
}

#[test]
fn zero_grace_expires_on_next_poll() {
    let r = run(CancelGuard::with_grace(Duration::ZERO), 60_000, 500);
    assert_eq!(r.outcome, Err(CancelledByShutdown));
    assert_eq!(r.resolved_at, 500);
    assert_eq!(r.arms, 1);
    assert_eq!(r.polls, 3);
}

#[test]
fn entering_grace_asks_for_a_repoll() {
    let mut g = CancelGuard::with_grace(Duration::from_millis(10));
    assert!(matches!(g.begin_poll::<u32>(), Step::PollCancellation));
    match g.cancellation_polled::<u32>(true) {
        Step::ArmTimer(d) => assert_eq!(d, Duration::from_millis(10)),
        _ => panic!("expected the timer to be armed"),
    }
    assert!(g.is_grace_active());
    assert!(matches!(g.timer_armed::<u32>(), Step::PollOperation));
    assert!(matches!(g.operation_polled::<u32>(None), Step::Pending { wake: true }));
    // the grace cycle polls the operation, then the timer, never the signal
    assert!(matches!(g.begin_poll::<u32>(), Step::PollOperation));
    assert!(matches!(g.operation_polled::<u32>(None), Step::PollTimer));
    assert!(matches!(g.timer_polled::<u32>(false), Step::Pending { wake: false }));
    assert!(g.is_grace_active());
    assert!(!g.is_resolved());
}

#[test]
fn pending_without_cancellation_asks_no_repoll() {
    let mut g = CancelGuard::new();
    assert!(!g.has_grace());
    assert!(matches!(g.begin_poll::<u32>(), Step::PollCancellation));
    assert!(matches!(g.cancellation_polled::<u32>(false), Step::PollOperation));
    assert!(matches!(g.operation_polled::<u32>(None), Step::Pending { wake: false }));
    assert!(!g.is_grace_active());
    assert!(g.is_idle());
}
