//! What holds of a guard over many reports: the outcome and the grace
//! period each come at most once, and, on a virtual clock, when and how the
//! guard resolves.

use std::time::Duration;
use vstd::prelude::*;

use crate::error::CancelledByShutdown;
use crate::guard::{Event, GuardView, Phase, Stage, Step};

verus! {

/// The order of the phases: a guard never moves to a lower rank.
pub open spec fn phase_rank(p: Phase) -> nat {
    match p {
        Phase::Racing => 0,
        Phase::Grace => 1,
        Phase::Resolved => 2,
    }
}

/// Whether the guard, from `v`, accepts each report of `evs` in turn.
pub open spec fn accepts_all<T>(v: GuardView, evs: Seq<Event<T>>) -> bool
    decreases evs.len(),
{
    evs.len() == 0 || (v.accepts(evs[0]) && accepts_all(v.next(evs[0]).0, evs.drop_first()))
}

/// The state the guard reaches from `v` after the reports `evs`.
pub open spec fn after<T>(v: GuardView, evs: Seq<Event<T>>) -> GuardView
    decreases evs.len(),
{
    if evs.len() == 0 {
        v
    } else {
        after(v.next(evs[0]).0, evs.drop_first())
    }
}

/// How many times the guard asks for its grace timer to be armed while
/// taking the reports `evs` from `v`.
pub open spec fn arm_count<T>(v: GuardView, evs: Seq<Event<T>>) -> nat
    decreases evs.len(),
{
    if evs.len() == 0 {
        0
    } else {
        let (w, s) = v.next(evs[0]);
        (if s is ArmTimer { 1nat } else { 0nat }) + arm_count(w, evs.drop_first())
    }
}

/// How many outcomes the guard produces while taking the reports `evs`
/// from `v`.
pub open spec fn outcome_count<T>(v: GuardView, evs: Seq<Event<T>>) -> nat
    decreases evs.len(),
{
    if evs.len() == 0 {
        0
    } else {
        let (w, s) = v.next(evs[0]);
        (if s is Ready { 1nat } else { 0nat }) + outcome_count(w, evs.drop_first())
    }
}

/// Each transition keeps a guard well formed, moves its phase forward only,
/// produces an outcome exactly when it resolves the guard, arms the timer
/// exactly when it enters the grace period, and asks for the cancellation
/// signal only while no cancellation has been observed.
pub proof fn lemma_next<T>(v: GuardView, ev: Event<T>)
    requires
        v.wf(),
        v.accepts(ev),
    ensures
        v.next(ev).0.wf(),
        v.next(ev).0.grace == v.grace,
        phase_rank(v.next(ev).0.phase) >= phase_rank(v.phase),
        v.next(ev).1 is Ready <==> (v.next(ev).0.phase is Resolved && !(v.phase is Resolved)),
        v.next(ev).1 is ArmTimer <==> (v.phase is Racing && v.next(ev).0.phase is Grace),
        v.next(ev).1 is PollCancellation ==> v.next(ev).0.phase is Racing,
{
}

/// A resolved guard is never polled again and produces no second outcome:
/// from any well-formed state, a run of accepted reports yields at most one
/// outcome, and none once the guard has resolved.
pub proof fn lemma_outcome_at_most_once<T>(v: GuardView, evs: Seq<Event<T>>)
    requires
        v.wf(),
        accepts_all(v, evs),
    ensures
        outcome_count(v, evs) <= (if v.phase is Resolved { 0nat } else { 1nat }),
        v.phase is Resolved ==> evs.len() == 0,
    decreases evs.len(),
{
    if evs.len() > 0 {
        lemma_next(v, evs[0]);
        lemma_outcome_at_most_once(v.next(evs[0]).0, evs.drop_first());
    }
}

/// The grace period is entered at most once: over any run of accepted
/// reports the timer is armed at most once (never, once cancellation was
/// observed), and the phase never goes back, so the grace-active state
/// never reverts.
pub proof fn lemma_grace_entered_at_most_once<T>(v: GuardView, evs: Seq<Event<T>>)
    requires
        v.wf(),
        accepts_all(v, evs),
    ensures
        arm_count(v, evs) <= (if v.phase is Racing { 1nat } else { 0nat }),
        phase_rank(after(v, evs).phase) >= phase_rank(v.phase),
        after(v, evs).wf(),
    decreases evs.len(),
{
    if evs.len() > 0 {
        lemma_next(v, evs[0]);
        lemma_grace_entered_at_most_once(v.next(evs[0]).0, evs.drop_first());
    }
}

/// When things happen, in ticks of a virtual clock: the guarded operation
/// completes at `finishes_at`, cancellation fires at `cancelled_at`, and an
/// armed grace timer fires `grace` ticks after it was armed.
pub struct Timeline {
    pub finishes_at: int,
    pub cancelled_at: int,
    pub grace: int,
}

/// Carries out `step` and those that follow it at time `now`, each probe
/// answering as `tl` says; `deadline` is when the armed timer fires. Gives
/// the guard's state, the deadline and the step that ends the exchange.
pub open spec fn drive(
    v: GuardView,
    step: Step<()>,
    deadline: Option<int>,
    now: int,
    tl: Timeline,
    fuel: nat,
) -> (GuardView, Option<int>, Step<()>)
    decreases fuel,
{
    if fuel == 0 {
        (v, deadline, step)
    } else {
        let f = (fuel - 1) as nat;
        match step {
            Step::PollCancellation => {
                let (w, s) = v.next(Event::<()>::Cancellation(tl.cancelled_at <= now));
                drive(w, s, deadline, now, tl, f)
            },
            Step::ArmTimer(_) => {
                let (w, s) = v.next(Event::<()>::TimerArmed);
                drive(w, s, Some(now + tl.grace), now, tl, f)
            },
            Step::PollOperation => {
                let out = if tl.finishes_at <= now { Some(()) } else { None };
                let (w, s) = v.next(Event::Operation(out));
                drive(w, s, deadline, now, tl, f)
            },
            Step::PollTimer => {
                let elapsed = deadline matches Some(t) && t <= now;
                let (w, s) = v.next(Event::<()>::Timer(elapsed));
                drive(w, s, deadline, now, tl, f)
            },
            _ => (v, deadline, step),
        }
    }
}

/// One whole poll cycle of the guard at time `now`.
pub open spec fn poll_at(v: GuardView, deadline: Option<int>, now: int, tl: Timeline) -> (
    GuardView,
    Option<int>,
    Step<()>,
) {
    let (w, s) = v.next(Event::<()>::Poll);
    drive(w, s, deadline, now, tl, 4)
}

/// The guard of a grace period `d` once cancellation was observed.
pub open spec fn in_grace(d: Duration) -> GuardView {
    GuardView { phase: Phase::Grace, stage: Stage::Idle, grace: Some(d) }
}

/// Without grace period, a poll at `now` of a fresh guard resolves with
/// `CancelledByShutdown` once cancellation has fired (cancellation wins a
/// tie), with the operation's value when only the operation has finished,
/// and otherwise leaves the guard as it was, pending. So the first poll at
/// or after the earlier of the two instants resolves it: with the value
/// exactly when the operation finished strictly before cancellation.
pub proof fn lemma_race_without_grace(tl: Timeline, now: int)
    ensures
        ({
            let (w, dl, s) = poll_at(GuardView::initial(None), None, now, tl);
            &&& tl.cancelled_at <= now ==> s == Step::<()>::Ready(Err(CancelledByShutdown))
            &&& (tl.finishes_at <= now && now < tl.cancelled_at) ==> s == Step::<()>::Ready(Ok(()))
            &&& (now < tl.finishes_at && now < tl.cancelled_at) ==> (w == GuardView::initial(None)
                && dl is None && s == Step::<()>::Pending { wake: false })
        }),
{
    reveal_with_fuel(drive, 5);
}

/// With grace period, a racing poll at `now` of a fresh guard resolves with
/// the operation's value once the operation has finished, even when
/// cancellation fired too; when only cancellation has fired it enters the
/// grace period, arms the timer to fire `grace` ticks later and asks to be
/// polled again at once; before either it leaves the guard as it was.
pub proof fn lemma_racing_cycle_with_grace(d: Duration, tl: Timeline, now: int)
    ensures
        ({
            let (w, dl, s) = poll_at(GuardView::initial(Some(d)), None, now, tl);
            &&& tl.finishes_at <= now ==> s == Step::<()>::Ready(Ok(()))
            &&& (tl.cancelled_at <= now && now < tl.finishes_at) ==> (w == in_grace(d) && dl
                == Some(now + tl.grace) && s == Step::<()>::Pending { wake: true })
            &&& (now < tl.finishes_at && now < tl.cancelled_at) ==> (w == GuardView::initial(
                Some(d),
            ) && dl is None && s == Step::<()>::Pending { wake: false })
        }),
{
    reveal_with_fuel(drive, 5);
}

/// In the grace period, a poll at `now` resolves with the operation's value
/// once the operation has finished, even when the timer has fired too; with
/// `CancelledByShutdown` when only the timer has fired; and otherwise leaves
/// the guard as it was, pending.
pub proof fn lemma_grace_cycle(d: Duration, tl: Timeline, deadline: int, now: int)
    ensures
        ({
            let (w, dl, s) = poll_at(in_grace(d), Some(deadline), now, tl);
            &&& tl.finishes_at <= now ==> s == Step::<()>::Ready(Ok(()))
            &&& (deadline <= now && now < tl.finishes_at) ==> s == Step::<()>::Ready(
                Err(CancelledByShutdown),
            )
            &&& (now < tl.finishes_at && now < deadline) ==> (w == in_grace(d) && dl == Some(
                deadline,
            ) && s == Step::<()>::Pending { wake: false })
        }),
{
    reveal_with_fuel(drive, 5);
}

/// With a grace period of `tl.grace` ticks and a poller that polls the guard
/// at each instant something it waits for fires: when the operation finishes
/// no later than cancellation, the guard resolves with its value at that
/// instant. Otherwise the poll at `cancelled_at` enters the grace period, the
/// polls until the earlier of `finishes_at` and `cancelled_at + grace` stay
/// pending, and the poll at that instant resolves, with the operation's value
/// exactly when it finished within the grace period.
pub proof fn lemma_race_with_grace(d: Duration, tl: Timeline)
    requires
        tl.grace >= 0,
    ensures
        tl.finishes_at <= tl.cancelled_at ==> poll_at(
            GuardView::initial(Some(d)),
            None,
            tl.finishes_at,
            tl,
        ).2 == Step::<()>::Ready(Ok(())),
        tl.cancelled_at < tl.finishes_at ==> ({
            let (g, dl, s) = poll_at(GuardView::initial(Some(d)), None, tl.cancelled_at, tl);
            let expiry = tl.cancelled_at + tl.grace;
            let t = if tl.finishes_at <= expiry { tl.finishes_at } else { expiry };
            &&& g == in_grace(d)
            &&& dl == Some(expiry)
            &&& s == Step::<()>::Pending { wake: true }
            &&& forall|now: int|
                tl.cancelled_at <= now < t ==> #[trigger] poll_at(g, dl, now, tl) == (
                    g,
                    dl,
                    Step::<()>::Pending { wake: false },
                )
            &&& poll_at(g, dl, t, tl).2 == (if tl.finishes_at <= expiry {
                Step::<()>::Ready(Ok(()))
            } else {
                Step::<()>::Ready(Err(CancelledByShutdown))
            })
        }),
{
    lemma_racing_cycle_with_grace(d, tl, tl.finishes_at);
    lemma_racing_cycle_with_grace(d, tl, tl.cancelled_at);
    let expiry = tl.cancelled_at + tl.grace;
    let t = if tl.finishes_at <= expiry { tl.finishes_at } else { expiry };
    assert forall|now: int| tl.cancelled_at <= now < t implies #[trigger] poll_at(
        in_grace(d),
        Some(expiry),
        now,
        tl,
    ) == (in_grace(d), Some(expiry), Step::<()>::Pending { wake: false }) by {
        lemma_grace_cycle(d, tl, expiry, now);
    }
    lemma_grace_cycle(d, tl, expiry, t);
}

} // verus!
