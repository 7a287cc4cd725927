//! Shared timing of the QuadHorn "spike" blades (ice and stone): a blade
//! rises along its apex direction for the first `speed_limit` frames and
//! then freezes, holding full alpha until a short linear fade at the end of
//! its life.
//!
//! Only the timing is here, in any unit of time (frames, or ticks with every
//! length scaled to them): how much of a step a blade still travels, and
//! how far through its fade it is. The apex direction (a pitch and yaw
//! turned into a unit vector) and the position it scales are the
//! renderer's.
use vstd::prelude::*;

verus! {

/// Frames of travel a step of `dt` frames contributes to a blade aged `age`
/// frames: all of them inside the speed-limit window, the part up to its
/// end when the step crosses it, none after.
pub open spec fn rise_frames(age: int, dt: int, speed_limit: int) -> int {
    if age >= speed_limit {
        0
    } else if age + dt > speed_limit {
        speed_limit - age
    } else {
        dt
    }
}

/// Frames of travel a step of `dt_frames` contributes to a blade aged
/// `age_frames` (the blade moves by its velocity times this).
pub fn rise_step(age_frames: u32, dt_frames: u32, speed_limit_frames: u32) -> (r: u32)
    ensures
        r == rise_frames(age_frames as int, dt_frames as int, speed_limit_frames as int),
        r <= dt_frames,
{
    if age_frames >= speed_limit_frames {
        0
    } else if dt_frames > speed_limit_frames - age_frames {
        speed_limit_frames - age_frames
    } else {
        dt_frames
    }
}

/// A blade travels the same whether its time comes in one step or two: the
/// travel of consecutive steps adds up to that of their sum, which is the
/// part of `[age, age + d1 + d2)` inside the speed-limit window.
pub proof fn rise_is_step_independent(age: int, d1: int, d2: int, speed_limit: int)
    requires
        age >= 0,
        d1 >= 0,
        d2 >= 0,
    ensures
        rise_frames(age, d1, speed_limit) + rise_frames(age + d1, d2, speed_limit) == rise_frames(age, d1 + d2, speed_limit),
        rise_frames(age, d1 + d2, speed_limit) == (if age >= speed_limit {
            0
        } else if age + d1 + d2 <= speed_limit {
            d1 + d2
        } else {
            speed_limit - age
        }),
{
}

/// Frames of the fade: the last `fade_out` frames of a life of `duration`,
/// or all of it when it is shorter.
pub open spec fn fade_span(duration: int, fade_out: int) -> int {
    if fade_out < duration { fade_out } else { duration }
}

/// Denominator of the fade level: the fade's length, or 1 when it has none.
pub open spec fn fade_den(duration: int, fade_out: int) -> int {
    if fade_span(duration, fade_out) > 0 { fade_span(duration, fade_out) } else { 1 }
}

/// Fade level of a blade aged `age` frames, of [`fade_den`]: full until the
/// fade starts, then the frames left of its life, and nothing after it.
pub open spec fn fade_level(age: int, duration: int, fade_out: int) -> int {
    let start = duration - fade_span(duration, fade_out);
    if age <= start {
        fade_den(duration, fade_out)
    } else if duration - age < 0 {
        0
    } else {
        duration - age
    }
}

/// The blade's alpha at age `age_frames`, as `(level, den)`: the peak alpha
/// times `level / den`.
pub fn fade_tail_alpha(age_frames: u32, duration_frames: u32, fade_out_frames: u32) -> (r: (u32, u32))
    ensures
        r.0 == fade_level(age_frames as int, duration_frames as int, fade_out_frames as int),
        r.1 == fade_den(duration_frames as int, fade_out_frames as int),
        r.0 <= r.1,
{
    let span = if fade_out_frames < duration_frames { fade_out_frames } else { duration_frames };
    let den = if span > 0 { span } else { 1 };
    let start = duration_frames - span;
    let level = if age_frames <= start {
        den
    } else if age_frames > duration_frames {
        0
    } else {
        duration_frames - age_frames
    };
    (level, den)
}

/// The fade holds full alpha up to its start, never brightens, and is dark
/// from the end of the blade's life on.
pub proof fn fade_tail_only_dims(a: int, b: int, duration: int, fade_out: int)
    requires
        0 <= a <= b,
        duration >= 0,
        fade_out >= 0,
    ensures
        fade_level(b, duration, fade_out) <= fade_level(a, duration, fade_out),
        a <= duration - fade_span(duration, fade_out) ==> fade_level(a, duration, fade_out) == fade_den(duration, fade_out),
        b >= duration && fade_span(duration, fade_out) > 0 ==> fade_level(b, duration, fade_out) == 0,
{
}

} // verus!
