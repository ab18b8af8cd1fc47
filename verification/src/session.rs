//! The session controller: the single authority over "should the session end
//! now". It owns the hold gesture, the optional countdown and the chord
//! configuration, takes the periodic tick and the chord-match signal, and
//! arbitrates them into one idempotent terminate decision.

use crate::chord::ChordMatcher;
use crate::countdown::{spec_crossed_warning, spec_remaining, CountdownTimer};
use crate::hold::{spec_gesture_progress, spec_hold_tick, spec_hold_wf, HoldGesture};
use vstd::prelude::*;

verus! {

/// Why the session ends.
#[derive(Clone, Copy, PartialEq, Eq, Structural, Debug)]
pub enum TerminateReason {
    /// The on-screen control was held for the full duration.
    HoldCompleted,
    /// The exit chord was pressed.
    ChordMatched,
    /// The auto-exit countdown ran out.
    TimerExpired,
}

/// The one output of each evaluation. It is produced, acted on and
/// discarded — never stored.
#[derive(Clone, Copy, PartialEq, Eq, Structural, Debug)]
pub enum SessionDecision {
    Continue,
    Terminate(TerminateReason),
}

/// What one tick evaluates to: the decision, and whether the one-shot
/// pre-expiry warning fires on this tick (a side effect for the caller to
/// render, never a reason to end the session).
#[derive(Clone, Copy, PartialEq, Eq, Structural, Debug)]
pub struct TickOutcome {
    pub decision: SessionDecision,
    pub warning: bool,
}

/// The session state the two entry points share: the hold gesture, the
/// countdown, and whether a terminate decision has already been produced.
pub struct SessionController {
    pub hold: HoldGesture,
    pub countdown: CountdownTimer,
    pub matcher: ChordMatcher,
    pub terminated: bool,
}

/// The session's invariant: the hold gesture stays well-formed.
pub open spec fn spec_session_wf(s: SessionController) -> bool {
    spec_hold_wf(s.hold)
}

/// The hold and countdown state after a tick, with its outcome. A session
/// that has already terminated is left untouched and keeps continuing; the
/// arbitration order is: hold completion, then countdown expiry, then the
/// one-shot warning.
pub open spec fn spec_on_tick(s: SessionController, now_millis: u64, now_secs: u64) -> (
    SessionController,
    TickOutcome,
) {
    if s.terminated {
        (s, TickOutcome { decision: SessionDecision::Continue, warning: false })
    } else {
        let hold = spec_hold_tick(s.hold, now_millis);
        if hold.phase is Completed {
            (
                SessionController { hold, terminated: true, ..s },
                TickOutcome {
                    decision: SessionDecision::Terminate(TerminateReason::HoldCompleted),
                    warning: false,
                },
            )
        } else if s.countdown.armed && spec_remaining(s.countdown, now_secs) == 0 {
            (
                SessionController { hold, terminated: true, ..s },
                TickOutcome {
                    decision: SessionDecision::Terminate(TerminateReason::TimerExpired),
                    warning: false,
                },
            )
        } else {
            let (fired, countdown) = spec_crossed_warning(s.countdown, now_secs);
            (
                SessionController { hold, countdown, ..s },
                TickOutcome { decision: SessionDecision::Continue, warning: fired },
            )
        }
    }
}

/// The state after a chord-match signal, with its decision: terminate, unless
/// a terminate decision was already produced.
pub open spec fn spec_on_chord_matched(s: SessionController) -> (
    SessionController,
    SessionDecision,
) {
    if s.terminated {
        (s, SessionDecision::Continue)
    } else {
        (
            SessionController { terminated: true, ..s },
            SessionDecision::Terminate(TerminateReason::ChordMatched),
        )
    }
}

impl SessionController {
    /// A fresh session: idle gesture, chord as configured, and the countdown
    /// armed at `now_secs` when an auto-exit duration was configured.
    pub fn new(matcher: ChordMatcher, auto_exit_secs: Option<u64>, now_secs: u64) -> (s:
        SessionController)
        ensures
            s.hold == (HoldGesture {
                phase: crate::hold::HoldPhase::Idle,
                pointer_inside: false,
            }),
            s.matcher == matcher,
            s.countdown.armed == auto_exit_secs is Some,
            auto_exit_secs matches Some(d) ==> s.countdown == (CountdownTimer {
                armed: true,
                armed_at_secs: now_secs,
                duration_secs: d,
                warning_shown: false,
            }),
            auto_exit_secs is None ==> s.countdown == (CountdownTimer {
                armed: false,
                armed_at_secs: 0,
                duration_secs: 0,
                warning_shown: false,
            }),
            !s.terminated,
            spec_session_wf(s),
    {
        let mut countdown = CountdownTimer::new();
        if let Some(duration_secs) = auto_exit_secs {
            countdown.init_auto_exit_timer(duration_secs, now_secs);
        }
        SessionController { hold: HoldGesture::new(), countdown, matcher, terminated: false }
    }

    /// The periodic tick: re-evaluate the hold gesture and the countdown and
    /// arbitrate. `now_millis` is the monotonic clock the gesture runs on,
    /// `now_secs` the wall clock the countdown runs on.
    pub fn on_tick(&mut self, now_millis: u64, now_secs: u64) -> (outcome: TickOutcome)
        ensures
            (*final(self), outcome) == spec_on_tick(*old(self), now_millis, now_secs),
            spec_session_wf(*old(self)) ==> spec_session_wf(*final(self)),
    {
        if self.terminated {
            return TickOutcome { decision: SessionDecision::Continue, warning: false };
        }
        let hold_completed = self.hold.tick(now_millis);
        if hold_completed {
            self.terminated = true;
            return TickOutcome {
                decision: SessionDecision::Terminate(TerminateReason::HoldCompleted),
                warning: false,
            };
        }
        if self.countdown.is_armed() && self.countdown.is_expired(now_secs) {
            self.terminated = true;
            return TickOutcome {
                decision: SessionDecision::Terminate(TerminateReason::TimerExpired),
                warning: false,
            };
        }
        let fired = self.countdown.crossed_warning(now_secs);
        TickOutcome { decision: SessionDecision::Continue, warning: fired }
    }

    /// The interceptor saw the exit chord: terminate, unless the session
    /// already has.
    pub fn on_chord_matched(&mut self) -> (decision: SessionDecision)
        ensures
            (*final(self), decision) == spec_on_chord_matched(*old(self)),
            spec_session_wf(*old(self)) ==> spec_session_wf(*final(self)),
    {
        if self.terminated {
            return SessionDecision::Continue;
        }
        self.terminated = true;
        SessionDecision::Terminate(TerminateReason::ChordMatched)
    }

    /// The control was pressed at `now_millis`.
    pub fn on_pointer_down(&mut self, now_millis: u64)
        ensures
            *final(self) == (SessionController {
                hold: crate::hold::spec_pointer_down(old(self).hold, now_millis),
                ..*old(self)
            }),
            spec_session_wf(*final(self)),
    {
        self.hold.pointer_down(now_millis);
    }

    /// The control was released.
    pub fn on_pointer_up(&mut self)
        ensures
            *final(self) == (SessionController {
                hold: crate::hold::spec_pointer_up(old(self).hold),
                ..*old(self)
            }),
            spec_session_wf(*final(self)),
    {
        self.hold.pointer_up();
    }

    /// The pointer was dragged; `inside` says whether it now lies inside the
    /// control.
    pub fn on_pointer_moved(&mut self, inside: bool, now_millis: u64)
        ensures
            *final(self) == (SessionController {
                hold: crate::hold::spec_pointer_moved(old(self).hold, inside, now_millis),
                ..*old(self)
            }),
            spec_session_wf(*old(self)) ==> spec_session_wf(*final(self)),
    {
        self.hold.pointer_moved(inside, now_millis);
    }

    /// Scaled hold progress for rendering, 0..=1000.
    pub fn hold_progress_permille(&self, now_millis: u64) -> (progress: u64)
        ensures
            progress == spec_gesture_progress(self.hold, now_millis),
            progress <= crate::hold::PROGRESS_SCALE,
    {
        self.hold.progress_permille(now_millis)
    }

    /// Whether the pointer currently lies inside the control.
    pub fn is_pointer_inside(&self) -> (inside: bool)
        ensures
            inside == self.hold.pointer_inside,
    {
        self.hold.is_pointer_inside()
    }

    /// Seconds left on the countdown, or None when none was configured.
    pub fn remaining_seconds(&self, now_secs: u64) -> (remaining: Option<u64>)
        ensures
            remaining == if self.countdown.armed {
                Some(spec_remaining(self.countdown, now_secs))
            } else {
                Option::<u64>::None
            },
    {
        if self.countdown.is_armed() {
            Some(self.countdown.get_remaining_seconds(now_secs))
        } else {
            None
        }
    }

    /// The configured chord's display string, for status text.
    pub fn chord_display(&self) -> (d: &str)
        ensures
            d@ == self.matcher.chord.display_name@,
    {
        self.matcher.display_name()
    }
}

/// A terminated session absorbs everything: once a terminate decision has
/// been produced, any further tick or chord signal leaves the state exactly
/// as it stands, decides Continue, and fires no warning.
pub proof fn lemma_terminated_session_is_inert(s: SessionController, now_millis: u64, now_secs: u64)
    requires
        s.terminated,
    ensures
        spec_on_tick(s, now_millis, now_secs) == (
            s,
            TickOutcome { decision: SessionDecision::Continue, warning: false },
        ),
        spec_on_chord_matched(s) == (s, SessionDecision::Continue),
{
}

/// Whichever entry point produces a Terminate decision leaves the session
/// terminated — so, with the lemma above, every later call is a no-op:
/// termination happens at most once.
pub proof fn lemma_terminate_is_one_shot(s: SessionController, now_millis: u64, now_secs: u64)
    ensures
        (spec_on_tick(s, now_millis, now_secs).1.decision matches SessionDecision::Terminate(_))
            ==> spec_on_tick(s, now_millis, now_secs).0.terminated,
        (spec_on_chord_matched(s).1 matches SessionDecision::Terminate(_))
            ==> spec_on_chord_matched(s).0.terminated,
{
}

} // verus!
