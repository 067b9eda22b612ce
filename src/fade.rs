//! Fading of the attack and combo banners.
use vstd::prelude::*;

verus! {

/// Simulation ticks per second.
pub const TICKS_PER_SECOND: u32 = 60;

/// Ticks a banner stays fully visible (one second).
pub const HOLD_TICKS: u32 = 60;

/// Ticks a banner takes to fade out after that (a quarter second).
pub const FADE_TICKS: u32 = 15;

/// Opacity of a banner recorded at `then`, seen at `now`, in steps of
/// `1 / FADE_TICKS`: `FADE_TICKS` is fully opaque and 0 is invisible.
/// This is `FADE_TICKS * (1 - clamp((now - then - HOLD_TICKS) / FADE_TICKS, 0, 1))`.
pub open spec fn opacity_steps(then: u32, now: u32) -> int {
    let elapsed = now - then;
    if elapsed <= HOLD_TICKS {
        FADE_TICKS as int
    } else if elapsed >= HOLD_TICKS + FADE_TICKS {
        0
    } else {
        HOLD_TICKS + FADE_TICKS - elapsed
    }
}

/// The banner opacity, in steps of `1 / FADE_TICKS`.
pub fn opacity(then: u32, now: u32) -> (r: u32)
    requires
        then <= now,
    ensures
        r == opacity_steps(then, now),
{
    let elapsed = now - then;
    let fade = if elapsed > HOLD_TICKS { elapsed - HOLD_TICKS } else { 0 };
    if fade >= FADE_TICKS {
        0
    } else {
        FADE_TICKS - fade
    }
}

/// Shape of the fade: full opacity when just recorded, strictly falling once
/// the hold time is over and until it reaches zero, exactly zero from
/// `HOLD_TICKS + FADE_TICKS` on, never below zero and never rising.
pub proof fn lemma_opacity_shape(then: u32, a: u32, b: u32)
    requires
        then <= a <= b,
    ensures
        opacity_steps(then, then) == FADE_TICKS,
        0 <= opacity_steps(then, a) <= FADE_TICKS,
        opacity_steps(then, b) <= opacity_steps(then, a),
        HOLD_TICKS < a - then && a < b && b - then <= HOLD_TICKS + FADE_TICKS ==> opacity_steps(
            then,
            b,
        ) < opacity_steps(then, a),
        b - then >= HOLD_TICKS + FADE_TICKS ==> opacity_steps(then, b) == 0,
{
}

} // verus!
