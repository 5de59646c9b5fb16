//! The decision logic of a cancel guard, as a state machine that a poll
//! driver feeds with what its probes observed.
//!
//! One poll cycle is a short exchange: the driver calls `begin_poll`, then
//! carries out each `Step` the guard returns (poll a waitable, arm the timer)
//! and reports the result back, until the guard answers `Pending` or `Ready`.

use std::time::Duration;
use vstd::prelude::*;

use crate::error::CancelledByShutdown;

verus! {

/// Where a guard stands in its lifetime. It only moves forward:
/// `Racing`, then possibly `Grace`, then `Resolved`.
#[derive(Clone, Copy, Debug, PartialEq, Eq, Structural)]
pub enum Phase {
    /// Cancellation has not been observed yet.
    Racing,
    /// Cancellation was observed and the grace timer runs.
    Grace,
    /// The outcome was produced; the guard must not be polled again.
    Resolved,
}

/// Which report the guard waits for inside the current poll cycle.
#[derive(Clone, Copy, Debug, PartialEq, Eq, Structural)]
pub enum Stage {
    /// Between poll cycles.
    Idle,
    /// The cancellation signal is being polled.
    Cancellation,
    /// The grace timer is being armed.
    Arming,
    /// The operation is being polled in a racing cycle; `armed` says that
    /// the grace period was entered earlier in this same cycle.
    Operation { armed: bool },
    /// The operation is being polled in a grace cycle.
    GraceOperation,
    /// The grace timer is being polled.
    Timer,
}

/// What the driver must do next.
pub enum Step<T> {
    /// Poll the cancellation signal and report it with `cancellation_polled`.
    PollCancellation,
    /// Reset the grace timer to fire the given duration from now, then call
    /// `timer_armed`.
    ArmTimer(Duration),
    /// Poll the guarded operation and report it with `operation_polled`.
    PollOperation,
    /// Poll the grace timer and report it with `timer_polled`.
    PollTimer,
    /// The cycle ends without an outcome; when `wake` holds, the driver
    /// schedules an immediate re-poll of the guard.
    Pending { wake: bool },
    /// The cycle ends with the guard's one outcome.
    Ready(Result<T, CancelledByShutdown>),
}

/// A report from the driver to the guard.
pub enum Event<T> {
    /// A new poll cycle starts.
    Poll,
    /// The cancellation signal was polled; `true` when it has fired.
    Cancellation(bool),
    /// The grace timer was armed.
    TimerArmed,
    /// The operation was polled: its value when it completed.
    Operation(Option<T>),
    /// The grace timer was polled; `true` when it has elapsed.
    Timer(bool),
}

/// The abstract state of a guard.
pub struct GuardView {
    pub phase: Phase,
    pub stage: Stage,
    /// The grace duration, when the guard has a grace timer.
    pub grace: Option<Duration>,
}

impl GuardView {
    /// A fresh guard.
    pub open spec fn initial(grace: Option<Duration>) -> GuardView {
        GuardView { phase: Phase::Racing, stage: Stage::Idle, grace }
    }

    /// Holds of a fresh guard and is kept by every transition.
    pub open spec fn wf(self) -> bool {
        &&& (self.phase is Grace ==> self.grace is Some)
        &&& (self.phase is Resolved ==> self.stage is Idle)
        &&& match self.stage {
            Stage::Idle => true,
            Stage::Cancellation => self.phase is Racing,
            Stage::Arming => self.phase is Grace,
            Stage::Operation { armed } => (armed <==> self.phase is Grace) && !(self.phase is Resolved),
            Stage::GraceOperation => self.phase is Grace,
            Stage::Timer => self.phase is Grace,
        }
    }

    /// Whether the guard accepts `ev` in this state.
    pub open spec fn accepts<T>(self, ev: Event<T>) -> bool {
        match ev {
            Event::Poll => self.stage is Idle && !(self.phase is Resolved),
            Event::Cancellation(_) => self.stage is Cancellation,
            Event::TimerArmed => self.stage is Arming,
            Event::Operation(_) => self.stage is Operation || self.stage is GraceOperation,
            Event::Timer(_) => self.stage is Timer,
        }
    }

    /// The state after `ev` and the step the driver takes next.
    pub open spec fn next<T>(self, ev: Event<T>) -> (GuardView, Step<T>) {
        match ev {
            Event::Poll => if self.phase is Racing {
                (GuardView { stage: Stage::Cancellation, ..self }, Step::PollCancellation)
            } else {
                (GuardView { stage: Stage::GraceOperation, ..self }, Step::PollOperation)
            },
            Event::Cancellation(fired) => if !fired {
                (GuardView { stage: Stage::Operation { armed: false }, ..self }, Step::PollOperation)
            } else {
                match self.grace {
                    Some(d) => (
                        GuardView { phase: Phase::Grace, stage: Stage::Arming, ..self },
                        Step::ArmTimer(d),
                    ),
                    None => (
                        GuardView { phase: Phase::Resolved, stage: Stage::Idle, ..self },
                        Step::Ready(Err(CancelledByShutdown)),
                    ),
                }
            },
            Event::TimerArmed => (
                GuardView { stage: Stage::Operation { armed: true }, ..self },
                Step::PollOperation,
            ),
            Event::Operation(out) => match out {
                Some(v) => (
                    GuardView { phase: Phase::Resolved, stage: Stage::Idle, ..self },
                    Step::Ready(Ok(v)),
                ),
                None => match self.stage {
                    Stage::Operation { armed } => (
                        GuardView { stage: Stage::Idle, ..self },
                        Step::Pending { wake: armed },
                    ),
                    _ => (GuardView { stage: Stage::Timer, ..self }, Step::PollTimer),
                },
            },
            Event::Timer(elapsed) => if elapsed {
                (
                    GuardView { phase: Phase::Resolved, stage: Stage::Idle, ..self },
                    Step::Ready(Err(CancelledByShutdown)),
                )
            } else {
                (GuardView { stage: Stage::Idle, ..self }, Step::Pending { wake: false })
            },
        }
    }
}

/// The state of one guarded operation's race against cancellation.
pub struct CancelGuard {
    phase: Phase,
    stage: Stage,
    grace: Option<Duration>,
}

impl View for CancelGuard {
    type V = GuardView;

    closed spec fn view(&self) -> GuardView {
        GuardView { phase: self.phase, stage: self.stage, grace: self.grace }
    }
}

impl CancelGuard {
    /// A guard without grace period: cancellation resolves it at once.
    pub fn new() -> (r: CancelGuard)
        ensures
            r@ == GuardView::initial(None),
    {
        CancelGuard { phase: Phase::Racing, stage: Stage::Idle, grace: None }
    }

    /// A guard that, once cancellation is observed, lets the operation run
    /// for `grace` more before giving up on it.
    pub fn with_grace(grace: Duration) -> (r: CancelGuard)
        ensures
            r@ == GuardView::initial(Some(grace)),
    {
        CancelGuard { phase: Phase::Racing, stage: Stage::Idle, grace: Some(grace) }
    }

    /// Starts a poll cycle.
    pub fn begin_poll<T>(&mut self) -> (r: Step<T>)
        requires
            old(self)@.wf(),
            old(self)@.accepts(Event::<T>::Poll),
        ensures
            final(self)@.wf(),
            (final(self)@, r) == old(self)@.next(Event::<T>::Poll),
    {
        match self.phase {
            Phase::Racing => {
                self.stage = Stage::Cancellation;
                Step::PollCancellation
            },
            _ => {
                self.stage = Stage::GraceOperation;
                Step::PollOperation
            },
        }
    }

    /// Reports the poll of the cancellation signal: `fired` when it completed.
    pub fn cancellation_polled<T>(&mut self, fired: bool) -> (r: Step<T>)
        requires
            old(self)@.wf(),
            old(self)@.accepts(Event::<T>::Cancellation(fired)),
        ensures
            final(self)@.wf(),
            (final(self)@, r) == old(self)@.next(Event::<T>::Cancellation(fired)),
    {
        if !fired {
            self.stage = Stage::Operation { armed: false };
            return Step::PollOperation;
        }
        match self.grace {
            Some(d) => {
                self.phase = Phase::Grace;
                self.stage = Stage::Arming;
                Step::ArmTimer(d)
            },
            None => {
                self.phase = Phase::Resolved;
                self.stage = Stage::Idle;
                Step::Ready(Err(CancelledByShutdown))
            },
        }
    }

    /// Reports that the grace timer was armed.
    pub fn timer_armed<T>(&mut self) -> (r: Step<T>)
        requires
            old(self)@.wf(),
            old(self)@.accepts(Event::<T>::TimerArmed),
        ensures
            final(self)@.wf(),
            (final(self)@, r) == old(self)@.next(Event::<T>::TimerArmed),
    {
        self.stage = Stage::Operation { armed: true };
        Step::PollOperation
    }

    /// Reports the poll of the guarded operation: its value when it completed.
    pub fn operation_polled<T>(&mut self, out: Option<T>) -> (r: Step<T>)
        requires
            old(self)@.wf(),
            old(self)@.accepts(Event::Operation(out)),
        ensures
            final(self)@.wf(),
            (final(self)@, r) == old(self)@.next(Event::Operation(out)),
    {
        match out {
            Some(v) => {
                self.phase = Phase::Resolved;
                self.stage = Stage::Idle;
                Step::Ready(Ok(v))
            },
            None => match self.stage {
                Stage::Operation { armed } => {
                    self.stage = Stage::Idle;
                    Step::Pending { wake: armed }
                },
                _ => {
                    self.stage = Stage::Timer;
                    Step::PollTimer
                },
            },
        }
    }

    /// Reports the poll of the grace timer: `elapsed` when it fired.
    pub fn timer_polled<T>(&mut self, elapsed: bool) -> (r: Step<T>)
        requires
            old(self)@.wf(),
            old(self)@.accepts(Event::<T>::Timer(elapsed)),
        ensures
            final(self)@.wf(),
            (final(self)@, r) == old(self)@.next(Event::<T>::Timer(elapsed)),
    {
        self.stage = Stage::Idle;
        if elapsed {
            self.phase = Phase::Resolved;
            Step::Ready(Err(CancelledByShutdown))
        } else {
            Step::Pending { wake: false }
        }
    }

    /// Whether the guard has produced its outcome.
    pub fn is_resolved(&self) -> (r: bool)
        ensures
            r == (self@.phase is Resolved),
    {
        matches!(self.phase, Phase::Resolved)
    }

    /// Whether the grace period has been entered.
    pub fn is_grace_active(&self) -> (r: bool)
        ensures
            r == (self@.phase is Grace),
    {
        matches!(self.phase, Phase::Grace)
    }

    /// Whether the guard waits for no report, between poll cycles.
    pub fn is_idle(&self) -> (r: bool)
        ensures
            r == (self@.stage is Idle),
    {
        matches!(self.stage, Stage::Idle)
    }

    /// Whether the guard was built with a grace timer.
    pub fn has_grace(&self) -> (r: bool)
        ensures
            r == (self@.grace is Some),
    {
        self.grace.is_some()
    }
}

} // verus!
