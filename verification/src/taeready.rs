//! `EF_TAEREADY` — Taekwon ready-stance blue body flash.
//!
//! The body is overlaid with `RGB(5, 5, 255)`, drawn twice additively; the
//! overlay's alpha ramps `15` per frame through frame 10, holds at 160
//! through frame 20, then fades `155 − (t − 20)·5`. The effect ends at
//! frame 50.
//!
//! This module holds the flash's alpha at any time, counted in ticks, a
//! caller-chosen `1/ticks` of a 60 fps frame, so fractional frame counts
//! are kept exactly; the whole-frame functions are the case of one tick a
//! frame.
use vstd::prelude::*;
use crate::draw::EffectStatus;

verus! {

/// Frame on which the effect ends.
pub const END_FRAME: u32 = 50;
/// Overlay tint.
pub const FLASH_TINT: [u8; 3] = [5, 5, 255];
/// Copies of the body drawn (additively) for the flash.
pub const FLASH_COPIES: u32 = 2;

/// Overlay alpha `n` ticks in at `t` ticks a frame, in `1/t` of a unit of
/// `0..=255`, before clamping.
pub open spec fn flash_alpha_src_ticks(n: int, t: int) -> int {
    if n <= 10 * t {
        n * 15
    } else if n <= 20 * t {
        160 * t
    } else {
        155 * t - (n - 20 * t) * 5
    }
}

/// Overlay alpha on frame `t`, `0..=255` units, before clamping.
pub open spec fn flash_alpha_src(t: int) -> int {
    flash_alpha_src_ticks(t, 1)
}

/// The overlay alpha `n` ticks in at `ticks` ticks a frame, in `1/ticks` of
/// a unit (it never reaches the clamp at 255); `None` when nothing is drawn.
pub fn flash_alpha_in_ticks(n: u32, ticks: u32) -> (r: Option<u64>)
    requires
        ticks >= 1,
    ensures
        r == (if flash_alpha_src_ticks(n as int, ticks as int) > 0 {
            Some(flash_alpha_src_ticks(n as int, ticks as int) as u64)
        } else {
            None
        }),
{
    let n = n as u64;
    let t = ticks as u64;
    if n <= 10 * t {
        if n == 0 { None } else { Some(n * 15) }
    } else if n <= 20 * t {
        Some(160 * t)
    } else if 5 * n >= 255 * t {
        None
    } else {
        Some(255 * t - 5 * n)
    }
}

/// The overlay alpha on whole frame `t`, clamped to `0..=255`; `None` when
/// nothing is drawn.
pub fn flash_alpha(t: u32) -> (r: Option<u32>)
    ensures
        r == (if flash_alpha_src(t as int) > 0 {
            Some((if flash_alpha_src(t as int) > 255 { 255 } else { flash_alpha_src(t as int) }) as u32)
        } else {
            None
        }),
{
    match flash_alpha_in_ticks(t, 1) {
        Some(a) => Some(a as u32),
        None => None,
    }
}

/// `Dead` from frame 50, `n` ticks in at `ticks` ticks a frame.
pub fn status_in_ticks(n: u32, ticks: u32) -> (s: EffectStatus)
    ensures
        s == (if n >= END_FRAME * ticks { EffectStatus::Dead } else { EffectStatus::Running }),
{
    if n as u64 >= END_FRAME as u64 * ticks as u64 { EffectStatus::Dead } else { EffectStatus::Running }
}

/// `Dead` from frame 50.
pub fn status_at(t: u32) -> (s: EffectStatus)
    ensures
        s == (if t >= END_FRAME { EffectStatus::Dead } else { EffectStatus::Running }),
{
    status_in_ticks(t, 1)
}

/// The flash never exceeds 160 and is drawn at every moment from the first
/// tick to the end of the effect (frame 50).
pub proof fn flash_is_visible_throughout(n: int, t: int)
    requires
        0 <= n,
        t >= 1,
    ensures
        flash_alpha_src_ticks(n, t) <= 160 * t,
        1 <= n < END_FRAME * t ==> flash_alpha_src_ticks(n, t) > 0,
{
}

} // verus!
