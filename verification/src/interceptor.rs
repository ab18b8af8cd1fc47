//! Decision logic of the input interceptor: for every event the platform
//! hands to the interception hook, decide whether to pass it through,
//! suppress it, re-arm a revoked hook, or signal the exit chord.
//!
//! The platform layer owns the hook itself; it classifies each raw event into
//! an [`InterceptedEvent`], asks [`InputInterceptor::handle_event`] what to
//! do, and performs the returned action. The decision here is pure and
//! constant-time: the hook callback runs on a latency-sensitive path.

use crate::chord::{spec_chord_matches, ChordMatcher, KeyEvent};
use vstd::prelude::*;

verus! {

// Raw event-type values of the platform's interception interface, as its
// headers define them.
pub const EVENT_TYPE_LEFT_MOUSE_DOWN: u32 = 1;

pub const EVENT_TYPE_LEFT_MOUSE_UP: u32 = 2;

pub const EVENT_TYPE_RIGHT_MOUSE_DOWN: u32 = 3;

pub const EVENT_TYPE_RIGHT_MOUSE_UP: u32 = 4;

pub const EVENT_TYPE_MOUSE_MOVED: u32 = 5;

pub const EVENT_TYPE_LEFT_MOUSE_DRAGGED: u32 = 6;

pub const EVENT_TYPE_RIGHT_MOUSE_DRAGGED: u32 = 7;

pub const EVENT_TYPE_KEY_DOWN: u32 = 10;

pub const EVENT_TYPE_KEY_UP: u32 = 11;

pub const EVENT_TYPE_FLAGS_CHANGED: u32 = 12;

pub const EVENT_TYPE_SCROLL_WHEEL: u32 = 22;

pub const EVENT_TYPE_OTHER_MOUSE_DOWN: u32 = 25;

pub const EVENT_TYPE_OTHER_MOUSE_UP: u32 = 26;

pub const EVENT_TYPE_OTHER_MOUSE_DRAGGED: u32 = 27;

pub const EVENT_TYPE_TAP_DISABLED_BY_TIMEOUT: u32 = 0xFFFFFFFE;

pub const EVENT_TYPE_TAP_DISABLED_BY_USER_INPUT: u32 = 0xFFFFFFFF;

/// An intercepted event, as the decision logic sees it: the platform revoking
/// the hook, a key press (with the key and modifiers read out), another
/// keyboard event, a pointer event, or anything else.
#[derive(Clone, Copy, PartialEq, Eq, Structural, Debug)]
pub enum InterceptedEvent {
    TapRevoked,
    KeyDown(KeyEvent),
    OtherKeyboard,
    Pointer,
    Other,
}

/// What the hook callback must do with the event it was handed.
#[derive(Clone, Copy, PartialEq, Eq, Structural, Debug)]
pub enum TapAction {
    /// Re-enable the revoked hook, then pass the event through.
    ReEnableAndPass,
    /// The exit chord was pressed: signal termination, and still pass the
    /// event through so other listeners observe the keystroke.
    SignalChordAndPass,
    /// Swallow the event: hand the platform nothing in its place.
    Suppress,
    /// Hand the event back unchanged.
    PassThrough,
}

/// Which event categories the interceptor blocks. Keyboard blocking is the
/// point of the shield; pointer blocking is a policy choice, since a
/// full-screen overlay already captures pointer events and blocking them at
/// the hook would also starve the on-screen hold-to-exit control.
#[derive(Clone, Copy, PartialEq, Eq, Structural, Debug)]
pub struct BlockPolicy {
    pub block_keyboard: bool,
    pub block_pointer: bool,
}

/// Sort a raw event-type value into the decision categories, reading the key
/// event out of a key press.
pub open spec fn spec_classify_event(raw_type: u32, key: KeyEvent) -> InterceptedEvent {
    if raw_type == EVENT_TYPE_TAP_DISABLED_BY_TIMEOUT || raw_type
        == EVENT_TYPE_TAP_DISABLED_BY_USER_INPUT {
        InterceptedEvent::TapRevoked
    } else if raw_type == EVENT_TYPE_KEY_DOWN {
        InterceptedEvent::KeyDown(key)
    } else if raw_type == EVENT_TYPE_KEY_UP || raw_type == EVENT_TYPE_FLAGS_CHANGED {
        InterceptedEvent::OtherKeyboard
    } else if raw_type == EVENT_TYPE_LEFT_MOUSE_DOWN || raw_type == EVENT_TYPE_LEFT_MOUSE_UP
        || raw_type == EVENT_TYPE_RIGHT_MOUSE_DOWN || raw_type == EVENT_TYPE_RIGHT_MOUSE_UP
        || raw_type == EVENT_TYPE_MOUSE_MOVED || raw_type == EVENT_TYPE_LEFT_MOUSE_DRAGGED
        || raw_type == EVENT_TYPE_RIGHT_MOUSE_DRAGGED || raw_type == EVENT_TYPE_SCROLL_WHEEL
        || raw_type == EVENT_TYPE_OTHER_MOUSE_DOWN || raw_type == EVENT_TYPE_OTHER_MOUSE_UP
        || raw_type == EVENT_TYPE_OTHER_MOUSE_DRAGGED {
        InterceptedEvent::Pointer
    } else {
        InterceptedEvent::Other
    }
}

/// Sort a raw event-type value into the decision categories. `key` is the
/// key event read out of the raw event; it is only looked at for a key press.
pub fn classify_event(raw_type: u32, key: KeyEvent) -> (ev: InterceptedEvent)
    ensures
        ev == spec_classify_event(raw_type, key),
{
    if raw_type == EVENT_TYPE_TAP_DISABLED_BY_TIMEOUT || raw_type
        == EVENT_TYPE_TAP_DISABLED_BY_USER_INPUT {
        InterceptedEvent::TapRevoked
    } else if raw_type == EVENT_TYPE_KEY_DOWN {
        InterceptedEvent::KeyDown(key)
    } else if raw_type == EVENT_TYPE_KEY_UP || raw_type == EVENT_TYPE_FLAGS_CHANGED {
        InterceptedEvent::OtherKeyboard
    } else if raw_type == EVENT_TYPE_LEFT_MOUSE_DOWN || raw_type == EVENT_TYPE_LEFT_MOUSE_UP
        || raw_type == EVENT_TYPE_RIGHT_MOUSE_DOWN || raw_type == EVENT_TYPE_RIGHT_MOUSE_UP
        || raw_type == EVENT_TYPE_MOUSE_MOVED || raw_type == EVENT_TYPE_LEFT_MOUSE_DRAGGED
        || raw_type == EVENT_TYPE_RIGHT_MOUSE_DRAGGED || raw_type == EVENT_TYPE_SCROLL_WHEEL
        || raw_type == EVENT_TYPE_OTHER_MOUSE_DOWN || raw_type == EVENT_TYPE_OTHER_MOUSE_UP
        || raw_type == EVENT_TYPE_OTHER_MOUSE_DRAGGED {
        InterceptedEvent::Pointer
    } else {
        InterceptedEvent::Other
    }
}

/// The decision for one event, in order: a revocation re-arms the hook and
/// passes the event on; a key press matching the chord signals termination
/// and passes the event on; an event of a blocked category is suppressed;
/// everything else passes through unchanged.
pub open spec fn spec_decide_event(
    policy: BlockPolicy,
    chord: crate::chord::ChordSpec,
    ev: InterceptedEvent,
) -> TapAction {
    match ev {
        InterceptedEvent::TapRevoked => TapAction::ReEnableAndPass,
        InterceptedEvent::KeyDown(key) => if spec_chord_matches(chord, key) {
            TapAction::SignalChordAndPass
        } else if policy.block_keyboard {
            TapAction::Suppress
        } else {
            TapAction::PassThrough
        },
        InterceptedEvent::OtherKeyboard => if policy.block_keyboard {
            TapAction::Suppress
        } else {
            TapAction::PassThrough
        },
        InterceptedEvent::Pointer => if policy.block_pointer {
            TapAction::Suppress
        } else {
            TapAction::PassThrough
        },
        InterceptedEvent::Other => TapAction::PassThrough,
    }
}

/// The interceptor's session state: the configured block policy, the chord
/// matcher, and whether the hook currently stands enabled. The platform can
/// revoke the hook behind the interceptor's back; the revocation arrives as
/// an event, and the decision re-arms the hook within the same callback —
/// unconditionally, with no backoff, as the platform expects.
#[derive(Clone, Debug)]
pub struct InputInterceptor {
    pub policy: BlockPolicy,
    pub matcher: ChordMatcher,
    pub enabled: bool,
}

impl InputInterceptor {
    /// A freshly installed interceptor: hook enabled.
    pub fn new(policy: BlockPolicy, matcher: ChordMatcher) -> (it: InputInterceptor)
        ensures
            it.policy == policy,
            it.matcher == matcher,
            it.enabled,
    {
        InputInterceptor { policy, matcher, enabled: true }
    }

    /// Decide what to do with one intercepted event. Whatever arrives — a
    /// revocation included — the interceptor ends the call with the hook
    /// enabled: recovery happens inside the same invocation, never in a
    /// separate step.
    pub fn handle_event(&mut self, ev: &InterceptedEvent) -> (action: TapAction)
        ensures
            action == spec_decide_event(old(self).policy, old(self).matcher.chord, *ev),
            final(self).policy == old(self).policy,
            final(self).matcher == old(self).matcher,
            final(self).enabled,
    {
        match ev {
            InterceptedEvent::TapRevoked => {
                // the platform disabled the hook; re-arm it now, in this call
                self.enabled = true;
                TapAction::ReEnableAndPass
            },
            InterceptedEvent::KeyDown(key) => {
                self.enabled = true;
                if self.matcher.matches(key) {
                    TapAction::SignalChordAndPass
                } else if self.policy.block_keyboard {
                    TapAction::Suppress
                } else {
                    TapAction::PassThrough
                }
            },
            InterceptedEvent::OtherKeyboard => {
                self.enabled = true;
                if self.policy.block_keyboard {
                    TapAction::Suppress
                } else {
                    TapAction::PassThrough
                }
            },
            InterceptedEvent::Pointer => {
                self.enabled = true;
                if self.policy.block_pointer {
                    TapAction::Suppress
                } else {
                    TapAction::PassThrough
                }
            },
            InterceptedEvent::Other => {
                self.enabled = true;
                TapAction::PassThrough
            },
        }
    }
}

/// The event mask the hook is installed with: one bit per intercepted
/// event type, keyboard and pointer events alike — what is *blocked* is
/// decided per event, but everything the decision may need to see must be
/// intercepted.
pub fn intercept_event_mask() -> (mask: u64)
    ensures
        mask == (1u64 << EVENT_TYPE_KEY_DOWN) | (1u64 << EVENT_TYPE_KEY_UP) | (1u64
            << EVENT_TYPE_FLAGS_CHANGED) | (1u64 << EVENT_TYPE_LEFT_MOUSE_DOWN) | (1u64
            << EVENT_TYPE_LEFT_MOUSE_UP) | (1u64 << EVENT_TYPE_RIGHT_MOUSE_DOWN) | (1u64
            << EVENT_TYPE_RIGHT_MOUSE_UP) | (1u64 << EVENT_TYPE_MOUSE_MOVED) | (1u64
            << EVENT_TYPE_LEFT_MOUSE_DRAGGED) | (1u64 << EVENT_TYPE_RIGHT_MOUSE_DRAGGED) | (1u64
            << EVENT_TYPE_SCROLL_WHEEL) | (1u64 << EVENT_TYPE_OTHER_MOUSE_DOWN) | (1u64
            << EVENT_TYPE_OTHER_MOUSE_UP) | (1u64 << EVENT_TYPE_OTHER_MOUSE_DRAGGED),
{
    (1u64 << EVENT_TYPE_KEY_DOWN) | (1u64 << EVENT_TYPE_KEY_UP) | (1u64
        << EVENT_TYPE_FLAGS_CHANGED) | (1u64 << EVENT_TYPE_LEFT_MOUSE_DOWN) | (1u64
        << EVENT_TYPE_LEFT_MOUSE_UP) | (1u64 << EVENT_TYPE_RIGHT_MOUSE_DOWN) | (1u64
        << EVENT_TYPE_RIGHT_MOUSE_UP) | (1u64 << EVENT_TYPE_MOUSE_MOVED) | (1u64
        << EVENT_TYPE_LEFT_MOUSE_DRAGGED) | (1u64 << EVENT_TYPE_RIGHT_MOUSE_DRAGGED) | (1u64
        << EVENT_TYPE_SCROLL_WHEEL) | (1u64 << EVENT_TYPE_OTHER_MOUSE_DOWN) | (1u64
        << EVENT_TYPE_OTHER_MOUSE_UP) | (1u64 << EVENT_TYPE_OTHER_MOUSE_DRAGGED)
}

} // verus!
