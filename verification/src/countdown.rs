//! The optional auto-exit countdown: armed once with a duration, it reports
//! the remaining time, fires a one-shot warning when the remaining time first
//! reaches the warning threshold, and expires when nothing remains.
//!
//! The countdown runs on the wall clock (seconds since some fixed epoch,
//! handed in by the caller), so it tracks real elapsed time across process
//! suspension; all subtraction saturates, so a clock that jumps backwards can
//! stall the countdown but never make it panic or go negative.

use vstd::prelude::*;

verus! {

/// The warning fires when this many seconds (or fewer) remain.
pub const WARNING_SECONDS: u64 = 60;

/// State of the auto-exit countdown. While `armed` is false the other fields
/// are meaningless and the countdown never warns nor expires.
#[derive(Clone, Copy, PartialEq, Eq, Structural, Debug)]
pub struct CountdownTimer {
    pub armed: bool,
    pub armed_at_secs: u64,
    pub duration_secs: u64,
    pub warning_shown: bool,
}

/// Seconds left before the countdown expires: max(0, duration - elapsed),
/// with saturating arithmetic on both subtractions. An unarmed countdown
/// reports `u64::MAX`: as far away as a deadline can stand.
pub open spec fn spec_remaining(t: CountdownTimer, now_secs: u64) -> u64 {
    if !t.armed {
        u64::MAX
    } else {
        let elapsed = if now_secs >= t.armed_at_secs {
            (now_secs - t.armed_at_secs) as u64
        } else {
            0u64
        };
        if t.duration_secs >= elapsed {
            (t.duration_secs - elapsed) as u64
        } else {
            0u64
        }
    }
}

/// Whether a warning check at `now_secs` fires, and the state it leaves
/// behind. It fires exactly when the countdown is armed, no warning has been
/// shown yet, and the remaining time stands at the threshold or below; firing
/// records the warning so it can never fire again.
pub open spec fn spec_crossed_warning(t: CountdownTimer, now_secs: u64) -> (bool, CountdownTimer) {
    let fires = t.armed && !t.warning_shown && spec_remaining(t, now_secs) <= WARNING_SECONDS;
    (fires, CountdownTimer { warning_shown: t.warning_shown || fires, ..t })
}

impl CountdownTimer {
    /// An unarmed countdown.
    pub fn new() -> (t: CountdownTimer)
        ensures
            t == (CountdownTimer {
                armed: false,
                armed_at_secs: 0,
                duration_secs: 0,
                warning_shown: false,
            }),
    {
        CountdownTimer { armed: false, armed_at_secs: 0, duration_secs: 0, warning_shown: false }
    }

    /// Arm the countdown for `duration_secs`, counted from `now_secs`.
    pub fn init_auto_exit_timer(&mut self, duration_secs: u64, now_secs: u64)
        ensures
            *final(self) == (CountdownTimer {
                armed: true,
                armed_at_secs: now_secs,
                duration_secs: duration_secs,
                warning_shown: false,
            }),
    {
        self.armed = true;
        self.armed_at_secs = now_secs;
        self.duration_secs = duration_secs;
        self.warning_shown = false;
    }

    /// Seconds left until expiry, or `u64::MAX` when no countdown is armed.
    pub fn get_remaining_seconds(&self, now_secs: u64) -> (remaining: u64)
        ensures
            remaining == spec_remaining(*self, now_secs),
    {
        if !self.armed {
            return u64::MAX;
        }
        let elapsed: u64 = if now_secs >= self.armed_at_secs {
            now_secs - self.armed_at_secs
        } else {
            0
        };
        if self.duration_secs >= elapsed {
            self.duration_secs - elapsed
        } else {
            0
        }
    }

    /// One-shot warning check: true exactly on the first evaluation at which
    /// the remaining time stands at `WARNING_SECONDS` or below, false on
    /// every other evaluation, earlier or later.
    pub fn crossed_warning(&mut self, now_secs: u64) -> (fired: bool)
        ensures
            (fired, *final(self)) == spec_crossed_warning(*old(self), now_secs),
    {
        let fired = self.armed && !self.warning_shown && self.get_remaining_seconds(now_secs)
            <= WARNING_SECONDS;
        if fired {
            self.warning_shown = true;
        }
        fired
    }

    /// The countdown has expired exactly when no time remains; an unarmed
    /// countdown never expires.
    pub fn is_expired(&self, now_secs: u64) -> (expired: bool)
        ensures
            expired == (spec_remaining(*self, now_secs) == 0),
    {
        self.get_remaining_seconds(now_secs) == 0
    }

    /// Whether a countdown is armed at all.
    pub fn is_armed(&self) -> (armed: bool)
        ensures
            armed == self.armed,
    {
        self.armed
    }
}

/// How many warnings a sequence of checks at the given instants would fire.
pub open spec fn spec_warning_fire_count(t: CountdownTimer, checks: Seq<u64>) -> nat
    decreases checks.len(),
{
    if checks.len() == 0 {
        0
    } else {
        let (fired, next) = spec_crossed_warning(t, checks.first());
        (if fired {
            1nat
        } else {
            0nat
        }) + spec_warning_fire_count(next, checks.drop_first())
    }
}

/// Once the warning has been shown, no later check ever fires again.
pub proof fn lemma_warning_never_refires(t: CountdownTimer, checks: Seq<u64>)
    requires
        t.warning_shown,
    ensures
        spec_warning_fire_count(t, checks) == 0,
    decreases checks.len(),
{
    if checks.len() > 0 {
        let (fired, next) = spec_crossed_warning(t, checks.first());
        lemma_warning_never_refires(next, checks.drop_first());
    }
}

/// Across any sequence of checks, the warning fires at most once.
pub proof fn lemma_warning_fires_at_most_once(t: CountdownTimer, checks: Seq<u64>)
    ensures
        spec_warning_fire_count(t, checks) <= 1,
    decreases checks.len(),
{
    if checks.len() > 0 {
        let (fired, next) = spec_crossed_warning(t, checks.first());
        if fired {
            lemma_warning_never_refires(next, checks.drop_first());
        } else {
            lemma_warning_fires_at_most_once(next, checks.drop_first());
        }
    }
}

/// Across a sequence of checks on an armed countdown that has not warned yet,
/// the warning fires exactly once as soon as some check sees the remaining
/// time at the threshold or below — and, by the lemma above, never again,
/// however many later checks also see it there.
pub proof fn lemma_warning_fires_exactly_once(t: CountdownTimer, checks: Seq<u64>)
    requires
        t.armed,
        !t.warning_shown,
        exists|i: int|
            0 <= i < checks.len() && spec_remaining(t, checks[i]) <= WARNING_SECONDS,
    ensures
        spec_warning_fire_count(t, checks) == 1,
    decreases checks.len(),
{
    let i = choose|i: int|
        0 <= i < checks.len() && spec_remaining(t, checks[i]) <= WARNING_SECONDS;
    let (fired, next) = spec_crossed_warning(t, checks.first());
    if fired {
        lemma_warning_never_refires(next, checks.drop_first());
    } else {
        assert(next == t);
        assert(checks.drop_first()[i - 1] == checks[i]);
        lemma_warning_fires_exactly_once(next, checks.drop_first());
    }
}

} // verus!
