//! `EF_SUMMONSLAVE` — the summoner's radial flash and smoke puff.
//!
//! * Frame 0: 20 radial rays — a [`crate::spike_burst`] of 20 spikes over 40
//!   frames, in over 10, out from frame 26⅔.
//! * Frame 35: a one-shot `smoke` sprite poof at the caster, 50 frames long,
//!   advancing one animation frame every 2 frames and fading over the back
//!   third of its life: fully opaque until its frame 33, then `(50 − n)/17`.
//!
//! The effect ends at frame 85. The smoke's fade is kept exactly, in 17ths
//! on whole frames, and in `1/(17·ticks)` at any tick resolution (a tick
//! being a caller-chosen `1/ticks` of a frame).
use vstd::prelude::*;
use crate::draw::EffectStatus;
use crate::spike_burst::{SpikeBurstParams, params_wf, default_fade_out_start};

verus! {

/// The smoke sprite.
pub const SMOKE_SPRITE: &'static str = "data/sprite/\u{c774}\u{d329}\u{d2b8}/smoke";
/// Every sprite the effect draws.
pub const SPRITES: [&'static str; 1] = [SMOKE_SPRITE];
/// Every texture the effect draws with.
pub const TEXTURES: [&'static str; 1] = ["alpha_center.tga"];
/// Frame the smoke starts on.
pub const SMOKE_START_FRAME: u32 = 35;
/// Frames the smoke lives.
pub const SMOKE_LIFETIME_FRAMES: u32 = 50;
/// Frames per animation frame of the smoke.
pub const SMOKE_ANIM_DIVISOR: u32 = 2;
/// Frame the effect ends on.
pub const TOTAL_FRAMES: u32 = 85;
/// [`TOTAL_FRAMES`] in milliseconds.
pub const TOTAL_DURATION_MS: u32 = 1416;

/// The rays: 20 spikes over 40 frames, in over 10, out from frame 26⅔.
#[allow(non_snake_case)]
pub fn SPIKES() -> (p: SpikeBurstParams)
    ensures
        params_wf(p),
        p == (SpikeBurstParams { count: 20, duration_frames: 40, fade_in_frames: 10, fade_out_start_thirds: 80, change_growth: false }),
{
    SpikeBurstParams {
        count: 20,
        duration_frames: 40,
        fade_in_frames: 10,
        fade_out_start_thirds: default_fade_out_start(40),
        change_growth: false,
    }
}

/// The smoke's fade `n` frames after it starts, in 17ths: 17 until frame
/// 33, then `50 − n`, 0 from frame 50.
pub open spec fn smoke_fade_spec(n: int) -> int {
    if n <= 33 { 17 } else if n >= SMOKE_LIFETIME_FRAMES { 0 } else { SMOKE_LIFETIME_FRAMES - n }
}

/// The smoke on frame `f`: its animation frame and its fade in 17ths, or
/// `None` before it starts or once it has faded.
pub fn smoke_at(f: u32) -> (r: Option<(u32, u32)>)
    ensures
        r == (if f >= SMOKE_START_FRAME && smoke_fade_spec(f - SMOKE_START_FRAME) > 0 {
            Some((((f - SMOKE_START_FRAME) as int / SMOKE_ANIM_DIVISOR as int) as u32, smoke_fade_spec(f - SMOKE_START_FRAME) as u32))
        } else {
            None
        }),
{
    if f < SMOKE_START_FRAME {
        return None;
    }
    let n = f - SMOKE_START_FRAME;
    let fade: u32 = if n <= 33 { 17 } else if n >= SMOKE_LIFETIME_FRAMES { 0 } else { SMOKE_LIFETIME_FRAMES - n };
    if fade > 0 { Some((n / SMOKE_ANIM_DIVISOR, fade)) } else { None }
}

/// `Dead` once 85 frames have passed.
pub fn status_at(f: u32) -> (s: EffectStatus)
    ensures
        s == (if f >= TOTAL_FRAMES { EffectStatus::Dead } else { EffectStatus::Running }),
{
    if f >= TOTAL_FRAMES { EffectStatus::Dead } else { EffectStatus::Running }
}

/// The rays are gone before the smoke fades, and the smoke has faded out
/// exactly when the effect ends.
pub proof fn smoke_outlasts_the_rays(f: int)
    requires
        f >= 0,
    ensures
        f >= SPIKES_DURATION ==> crate::spike_burst::alpha_level_spec(spikes_spec(), f) == 0,
        (SMOKE_START_FRAME <= f < TOTAL_FRAMES) ==> smoke_fade_spec(f - SMOKE_START_FRAME) > 0,
        f >= TOTAL_FRAMES ==> smoke_fade_spec(f - SMOKE_START_FRAME) == 0,
{
    crate::spike_burst::burst_lit_inside_its_life(spikes_spec(), f);
}

/// The smoke's fade `n` ticks after it starts at `t` ticks a frame, in
/// `1/(17·t)`: full until frame 33, then what is left of its 50 frames.
pub open spec fn smoke_fade_ticks_spec(n: int, t: int) -> int {
    if n <= 33 * t { 17 * t } else if n >= SMOKE_LIFETIME_FRAMES * t { 0 } else { SMOKE_LIFETIME_FRAMES * t - n }
}

/// The smoke `n` ticks in at `ticks` ticks a frame: its animation frame
/// and its fade in `1/(17·ticks)`, or `None` before it starts or once it
/// has faded.
pub fn smoke_in_ticks(n: u32, ticks: u32) -> (r: Option<(u64, u64)>)
    requires
        ticks >= 1,
    ensures
        r == (if n >= SMOKE_START_FRAME * ticks && smoke_fade_ticks_spec(n - SMOKE_START_FRAME * ticks, ticks as int) > 0 {
            Some((((n - SMOKE_START_FRAME * ticks) / (SMOKE_ANIM_DIVISOR * ticks)) as u64,
                smoke_fade_ticks_spec(n - SMOKE_START_FRAME * ticks, ticks as int) as u64))
        } else {
            None
        }),
{
    let t = ticks as u64;
    let n = n as u64;
    if n < 35 * t {
        return None;
    }
    let a = n - 35 * t;
    let fade: u64 = if a <= 33 * t { 17 * t } else if a >= 50 * t { 0 } else { 50 * t - a };
    if fade > 0 { Some((a / (2 * t), fade)) } else { None }
}

/// `Dead` once 85 frames have passed, `n` ticks in at `ticks` ticks a
/// frame.
pub fn status_in_ticks(n: u32, ticks: u32) -> (s: EffectStatus)
    ensures
        s == (if n >= TOTAL_FRAMES * ticks { EffectStatus::Dead } else { EffectStatus::Running }),
{
    if n as u64 >= 85 * ticks as u64 { EffectStatus::Dead } else { EffectStatus::Running }
}

/// At any tick resolution the smoke is lit from its start to the end of the
/// effect and has faded out exactly when the effect ends.
pub proof fn smoke_lit_until_the_end_in_ticks(n: int, t: int)
    requires
        n >= 0,
        t >= 1,
    ensures
        (SMOKE_START_FRAME * t <= n < TOTAL_FRAMES * t) ==> smoke_fade_ticks_spec(n - SMOKE_START_FRAME * t, t) > 0,
        n >= TOTAL_FRAMES * t ==> smoke_fade_ticks_spec(n - SMOKE_START_FRAME * t, t) == 0,
{
}

/// Frames the rays live.
pub const SPIKES_DURATION: u32 = 40;

/// The rays' recipe.
pub open spec fn spikes_spec() -> SpikeBurstParams {
    SpikeBurstParams { count: 20, duration_frames: 40, fade_in_frames: 10, fade_out_start_thirds: 80, change_growth: false }
}

} // verus!
