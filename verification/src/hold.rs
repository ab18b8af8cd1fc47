//! The hold-to-exit gesture: pressing the on-screen control and keeping the
//! pointer inside it for a fixed duration completes the gesture.
//!
//! Time is measured on a monotonic clock and handed in as milliseconds.
//! Progress is reported as an integer in 0..=1000 (thousandths of completion),
//! so that the rendering layer can scale it however it likes.

use vstd::arithmetic::div_mod::{
    lemma_div_is_ordered, lemma_div_multiples_vanish, lemma_multiply_divide_lt,
};
use vstd::prelude::*;

verus! {

/// How long the control must be held before the gesture completes.
pub const HOLD_DURATION_MILLIS: u64 = 3000;

/// Progress values run from 0 (just pressed) to this (hold complete).
pub const PROGRESS_SCALE: u64 = 1000;

/// `now - start` on a clock that is not trusted to be monotonic: never
/// negative, never an underflow.
pub open spec fn spec_elapsed(start: u64, now: u64) -> nat {
    if now >= start {
        (now - start) as nat
    } else {
        0
    }
}

/// Hold progress is min(1, elapsed/duration), scaled to 0..=1000.
pub open spec fn spec_hold_progress(elapsed: nat, duration: nat) -> nat
    recommends
        duration > 0,
{
    if elapsed >= duration {
        PROGRESS_SCALE as nat
    } else {
        elapsed * (PROGRESS_SCALE as nat) / duration
    }
}

/// Scaled hold progress: 0 when just pressed, 1000 once the required duration
/// has elapsed, clamped there afterwards.
pub fn calculate_hold_progress(elapsed_millis: u64, hold_duration_millis: u64) -> (progress: u64)
    requires
        hold_duration_millis > 0,
    ensures
        progress == spec_hold_progress(elapsed_millis as nat, hold_duration_millis as nat),
        progress <= PROGRESS_SCALE,
{
    if elapsed_millis >= hold_duration_millis {
        PROGRESS_SCALE
    } else {
        assert(elapsed_millis as u128 * 1000 <= u64::MAX as u128 * 1000);
        let wide: u128 = (elapsed_millis as u128) * 1000;
        let quotient: u128 = wide / (hold_duration_millis as u128);
        proof {
            lemma_multiply_divide_lt(
                elapsed_millis as int * PROGRESS_SCALE as int,
                hold_duration_millis as int,
                PROGRESS_SCALE as int,
            );
        }
        quotient as u64
    }
}

/// The hold is complete exactly when the elapsed time has reached the
/// required duration.
pub fn is_hold_complete(elapsed_millis: u64, hold_duration_millis: u64) -> (complete: bool)
    ensures
        complete == (elapsed_millis >= hold_duration_millis),
{
    elapsed_millis >= hold_duration_millis
}

/// Progress never exceeds the scale.
pub proof fn lemma_hold_progress_bounded(elapsed: nat, duration: nat)
    requires
        duration > 0,
    ensures
        spec_hold_progress(elapsed, duration) <= PROGRESS_SCALE,
{
    if elapsed < duration {
        lemma_multiply_divide_lt(
            elapsed as int * PROGRESS_SCALE as int,
            duration as int,
            PROGRESS_SCALE as int,
        );
    }
}

/// Holding longer never lowers the reported progress: progress is
/// monotonically non-decreasing in the elapsed time.
pub proof fn lemma_hold_progress_monotonic(elapsed1: nat, elapsed2: nat, duration: nat)
    requires
        duration > 0,
        elapsed1 <= elapsed2,
    ensures
        spec_hold_progress(elapsed1, duration) <= spec_hold_progress(elapsed2, duration),
{
    lemma_hold_progress_bounded(elapsed1, duration);
    if elapsed2 < duration {
        lemma_div_is_ordered(
            elapsed1 as int * PROGRESS_SCALE as int,
            elapsed2 as int * PROGRESS_SCALE as int,
            duration as int,
        );
    }
}

/// Holding for exactly the required duration reports full progress.
pub proof fn lemma_hold_progress_full(duration: nat)
    requires
        duration > 0,
    ensures
        spec_hold_progress(duration, duration) == PROGRESS_SCALE,
{
}

/// The progress definition spelled out as the clamped ratio: progress is
/// min(1, elapsed/duration), on the scale of 1000.
pub proof fn lemma_hold_progress_is_clamped_ratio(elapsed: nat, duration: nat)
    requires
        duration > 0,
    ensures
        spec_hold_progress(elapsed, duration) == if elapsed * (PROGRESS_SCALE as nat) / duration
            < PROGRESS_SCALE as nat {
            elapsed * (PROGRESS_SCALE as nat) / duration
        } else {
            PROGRESS_SCALE as nat
        },
{
    if elapsed >= duration {
        lemma_div_is_ordered(
            duration as int * PROGRESS_SCALE as int,
            elapsed as int * PROGRESS_SCALE as int,
            duration as int,
        );
        lemma_div_multiples_vanish(PROGRESS_SCALE as int, duration as int);
    } else {
        lemma_hold_progress_bounded(elapsed, duration);
    }
}

/// Where the gesture stands: nothing pressed, pressed at some instant, or
/// held long enough to have completed.
#[derive(Clone, Copy, PartialEq, Eq, Structural, Debug)]
pub enum HoldPhase {
    Idle,
    Pressed { start_millis: u64 },
    Completed,
}

/// State of the hold gesture on the single on-screen control.
#[derive(Clone, Copy, PartialEq, Eq, Structural, Debug)]
pub struct HoldGesture {
    pub phase: HoldPhase,
    pub pointer_inside: bool,
}

/// The control is only ever pressed while the pointer is inside it: leaving
/// the control cancels the press outright.
pub open spec fn spec_hold_wf(g: HoldGesture) -> bool {
    g.phase matches HoldPhase::Pressed { .. } ==> g.pointer_inside
}

/// Pressing the control starts a fresh hold at the current instant.
pub open spec fn spec_pointer_down(g: HoldGesture, now_millis: u64) -> HoldGesture {
    HoldGesture { phase: HoldPhase::Pressed { start_millis: now_millis }, pointer_inside: true }
}

/// Releasing the control discards the hold, however far along it was.
pub open spec fn spec_pointer_up(g: HoldGesture) -> HoldGesture {
    HoldGesture { phase: HoldPhase::Idle, ..g }
}

/// A drag that crosses the control's edge: leaving cancels the hold (no
/// partial credit is kept), re-entering starts a fresh hold at the current
/// instant. A drag that stays on one side changes nothing.
pub open spec fn spec_pointer_moved(g: HoldGesture, inside: bool, now_millis: u64) -> HoldGesture {
    if inside == g.pointer_inside {
        g
    } else if inside {
        HoldGesture { phase: HoldPhase::Pressed { start_millis: now_millis }, pointer_inside: true }
    } else {
        HoldGesture { phase: HoldPhase::Idle, pointer_inside: false }
    }
}

/// A periodic tick: a press that has lasted the required duration becomes
/// Completed; a completed gesture stays completed until it is consumed.
pub open spec fn spec_hold_tick(g: HoldGesture, now_millis: u64) -> HoldGesture {
    match g.phase {
        HoldPhase::Pressed { start_millis } => {
            if g.pointer_inside && spec_elapsed(start_millis, now_millis)
                >= HOLD_DURATION_MILLIS as nat {
                HoldGesture { phase: HoldPhase::Completed, ..g }
            } else {
                g
            }
        },
        _ => g,
    }
}

/// Progress the gesture would report at the given instant.
pub open spec fn spec_gesture_progress(g: HoldGesture, now_millis: u64) -> nat {
    match g.phase {
        HoldPhase::Idle => 0,
        HoldPhase::Completed => PROGRESS_SCALE as nat,
        HoldPhase::Pressed { start_millis } => spec_hold_progress(
            spec_elapsed(start_millis, now_millis),
            HOLD_DURATION_MILLIS as nat,
        ),
    }
}

impl HoldGesture {
    /// A gesture with nothing pressed.
    pub fn new() -> (g: HoldGesture)
        ensures
            g == (HoldGesture { phase: HoldPhase::Idle, pointer_inside: false }),
            spec_hold_wf(g),
    {
        HoldGesture { phase: HoldPhase::Idle, pointer_inside: false }
    }

    /// The control was pressed at `now_millis`.
    pub fn pointer_down(&mut self, now_millis: u64)
        ensures
            *final(self) == spec_pointer_down(*old(self), now_millis),
            spec_hold_wf(*final(self)),
    {
        self.phase = HoldPhase::Pressed { start_millis: now_millis };
        self.pointer_inside = true;
    }

    /// The control was released.
    pub fn pointer_up(&mut self)
        ensures
            *final(self) == spec_pointer_up(*old(self)),
            spec_hold_wf(*final(self)),
    {
        self.phase = HoldPhase::Idle;
    }

    /// The pointer was dragged; `inside` says whether it now lies inside the
    /// control. Leaving mid-press forfeits all accumulated progress, and a
    /// re-entry counts from `now_millis`, not from the original press.
    pub fn pointer_moved(&mut self, inside: bool, now_millis: u64)
        ensures
            *final(self) == spec_pointer_moved(*old(self), inside, now_millis),
            spec_hold_wf(*old(self)) ==> spec_hold_wf(*final(self)),
    {
        if inside != self.pointer_inside {
            self.pointer_inside = inside;
            if inside {
                self.phase = HoldPhase::Pressed { start_millis: now_millis };
            } else {
                self.phase = HoldPhase::Idle;
            }
        }
    }

    /// Periodic re-evaluation at `now_millis`. Returns whether the gesture
    /// stands completed; once it does, every later tick keeps reporting
    /// completion until `reset` consumes it.
    pub fn tick(&mut self, now_millis: u64) -> (completed: bool)
        ensures
            *final(self) == spec_hold_tick(*old(self), now_millis),
            completed == (final(self).phase is Completed),
            spec_hold_wf(*old(self)) ==> spec_hold_wf(*final(self)),
    {
        match self.phase {
            HoldPhase::Pressed { start_millis } => {
                let elapsed: u64 = if now_millis >= start_millis {
                    now_millis - start_millis
                } else {
                    0
                };
                if self.pointer_inside && is_hold_complete(elapsed, HOLD_DURATION_MILLIS) {
                    self.phase = HoldPhase::Completed;
                    true
                } else {
                    false
                }
            },
            HoldPhase::Completed => true,
            HoldPhase::Idle => false,
        }
    }

    /// Consume a completed (or abandoned) gesture: back to Idle.
    pub fn reset(&mut self)
        ensures
            *final(self) == (HoldGesture { phase: HoldPhase::Idle, ..*old(self) }),
            spec_hold_wf(*final(self)),
    {
        self.phase = HoldPhase::Idle;
    }

    /// Scaled progress for rendering: 0 while idle, 1000 once completed,
    /// min(1, elapsed/duration) scaled while pressed.
    pub fn progress_permille(&self, now_millis: u64) -> (progress: u64)
        ensures
            progress == spec_gesture_progress(*self, now_millis),
            progress <= PROGRESS_SCALE,
    {
        match self.phase {
            HoldPhase::Idle => 0,
            HoldPhase::Completed => PROGRESS_SCALE,
            HoldPhase::Pressed { start_millis } => {
                let elapsed: u64 = if now_millis >= start_millis {
                    now_millis - start_millis
                } else {
                    0
                };
                calculate_hold_progress(elapsed, HOLD_DURATION_MILLIS)
            },
        }
    }

    /// Whether the pointer currently lies inside the control.
    pub fn is_pointer_inside(&self) -> (inside: bool)
        ensures
            inside == self.pointer_inside,
    {
        self.pointer_inside
    }
}

/// Leaving the control mid-press and coming back carries no credit over: after
/// an exit and a re-entry at `t_in`, the progress any later tick reports is
/// computed from `t_in` alone, whatever press the gesture held before.
pub proof fn lemma_reentry_discards_progress(
    g: HoldGesture,
    t_out: u64,
    t_in: u64,
    t_query: u64,
)
    requires
        g.pointer_inside,
    ensures
        ({
            let left = spec_pointer_moved(g, false, t_out);
            let reentered = spec_pointer_moved(left, true, t_in);
            spec_gesture_progress(reentered, t_query) == spec_hold_progress(
                spec_elapsed(t_in, t_query),
                HOLD_DURATION_MILLIS as nat,
            )
        }),
{
}

} // verus!
