//! `EF_TWILIGHT1/2/3` — Alchemist Twilight Pharmacy: a caster-centred swarm
//! of 160 item-icon billboards that fades in, hovers and fades out over
//! three seconds. Twilight3 cycles three icons across the swarm.
//!
//! The swarm's alpha rises `+5` per frame to 250 over 50 frames, holds, and
//! falls `−5` per frame over the last 50 of its 180 frames.
use vstd::prelude::*;
use crate::draw::EffectStatus;

verus! {

/// Length of the swarm in 60 fps frames.
pub const DURATION_FRAMES: u32 = 180;
/// Frames of the fade in, and of the fade out.
pub const FADE_FRAMES: u32 = 50;
/// Peak alpha, `0..=255` units.
pub const MAX_ALPHA: u32 = 250;

/// The swarm's alpha on frame `f`, `0..=255` units.
pub open spec fn swarm_alpha_at(f: int) -> int {
    let a = if f < FADE_FRAMES {
        5 * f
    } else if f < DURATION_FRAMES - FADE_FRAMES {
        MAX_ALPHA as int
    } else {
        MAX_ALPHA - 5 * (f - (DURATION_FRAMES - FADE_FRAMES))
    };
    if a < 0 { 0 } else if a > MAX_ALPHA { MAX_ALPHA as int } else { a }
}

/// The swarm's alpha `n` ticks in at `t` ticks a frame (a tick is a
/// caller-chosen `1/t` of a frame), in `1/t` of a `0..=255` unit.
pub open spec fn swarm_alpha_ticks(n: int, t: int) -> int {
    let a = if n < FADE_FRAMES * t {
        5 * n
    } else if n < (DURATION_FRAMES - FADE_FRAMES) * t {
        MAX_ALPHA * t
    } else {
        MAX_ALPHA * t - 5 * (n - (DURATION_FRAMES - FADE_FRAMES) * t)
    };
    if a < 0 { 0 } else { a }
}

/// The swarm's alpha `n` ticks in at `ticks` ticks a frame, in `1/ticks`
/// of a unit, so fractional frame counts are kept exactly.
pub fn alpha_in_ticks(n: u32, ticks: u32) -> (r: u64)
    requires
        ticks >= 1,
    ensures
        r == swarm_alpha_ticks(n as int, ticks as int),
{
    let n = n as u64;
    let t = ticks as u64;
    if n < 50 * t {
        5 * n
    } else if n < 130 * t {
        250 * t
    } else if 5 * n >= 900 * t {
        0
    } else {
        900 * t - 5 * n
    }
}

/// `Dead` once the swarm's 180 frames have passed, `n` ticks in at `ticks`
/// ticks a frame.
pub fn status_in_ticks(n: u32, ticks: u32) -> (s: EffectStatus)
    ensures
        s == (if n >= DURATION_FRAMES * ticks { EffectStatus::Dead } else { EffectStatus::Running }),
{
    if n as u64 >= 180 * ticks as u64 { EffectStatus::Dead } else { EffectStatus::Running }
}

/// At any tick resolution the swarm is drawn at every moment strictly
/// inside its life and has faded out exactly when it ends; its alpha never
/// exceeds 250.
pub proof fn swarm_fades_exactly_at_its_end_in_ticks(n: int, t: int)
    requires
        n >= 0,
        t >= 1,
    ensures
        swarm_alpha_ticks(n, t) <= MAX_ALPHA * t,
        0 < n < DURATION_FRAMES * t ==> swarm_alpha_ticks(n, t) > 0,
        n >= DURATION_FRAMES * t ==> swarm_alpha_ticks(n, t) == 0,
{
}

/// The swarm's alpha on whole frame `f`.
pub fn alpha_at(f: u32) -> (r: u32)
    ensures
        r == swarm_alpha_at(f as int),
{
    if f < FADE_FRAMES {
        5 * f
    } else if f < DURATION_FRAMES - FADE_FRAMES {
        MAX_ALPHA
    } else if f - (DURATION_FRAMES - FADE_FRAMES) >= FADE_FRAMES {
        0
    } else {
        MAX_ALPHA - 5 * (f - (DURATION_FRAMES - FADE_FRAMES))
    }
}

/// `Dead` once the swarm's 180 frames (3 s) have passed.
pub fn status_at(f: u32) -> (s: EffectStatus)
    ensures
        s == (if f >= DURATION_FRAMES { EffectStatus::Dead } else { EffectStatus::Running }),
{
    if f >= DURATION_FRAMES { EffectStatus::Dead } else { EffectStatus::Running }
}

/// The swarm is drawn on every frame strictly inside its life and has faded
/// out exactly when it ends; its alpha never exceeds 250.
pub proof fn swarm_fades_exactly_at_its_end(f: int)
    requires
        f >= 0,
    ensures
        swarm_alpha_at(f) <= MAX_ALPHA,
        0 < f < DURATION_FRAMES ==> swarm_alpha_at(f) > 0,
        f >= DURATION_FRAMES ==> swarm_alpha_at(f) == 0,
{
}

/// Wall-clock length of the swarm, ms.
pub const TOTAL_DURATION_MS: u32 = 3000;
/// Icons in one swarm.
pub const ICON_COUNT: usize = 160;

/// Icon textures of one Twilight variant.
#[derive(Clone, Copy)]
pub struct TwilightParams {
    /// Icons are assigned round-robin from this list.
    pub textures: &'static [&'static str],
}

/// Every texture the Twilight swarms draw with.
pub const TEXTURES: [&'static str; 5] = [
    "유저인터페이스/item/하얀허브.bmp",
    "유저인터페이스/item/화이트슬림포션.bmp",
    "유저인터페이스/item/화염병.bmp",
    "유저인터페이스/item/염산병.bmp",
    "유저인터페이스/item/알코올.bmp",
];

/// Twilight1 — white herbs.
#[allow(non_snake_case)]
pub fn TWILIGHT1() -> (p: TwilightParams)
    ensures
        p.textures@ == seq![TEXTURES[0]],
{
    TwilightParams { textures: &["유저인터페이스/item/하얀허브.bmp"] }
}

/// Twilight2 — white slim potions.
#[allow(non_snake_case)]
pub fn TWILIGHT2() -> (p: TwilightParams)
    ensures
        p.textures@ == seq![TEXTURES[1]],
{
    TwilightParams { textures: &["유저인터페이스/item/화이트슬림포션.bmp"] }
}

/// Twilight3 — molotov, acid bottle and alcohol, cycled.
#[allow(non_snake_case)]
pub fn TWILIGHT3() -> (p: TwilightParams)
    ensures
        p.textures@ == seq![TEXTURES[2], TEXTURES[3], TEXTURES[4]],
{
    TwilightParams {
        textures: &[
            "유저인터페이스/item/화염병.bmp",
            "유저인터페이스/item/염산병.bmp",
            "유저인터페이스/item/알코올.bmp",
        ],
    }
}

impl TwilightParams {
    /// Texture of icon `icon_index`: the list is cycled round-robin.
    pub fn texture_for(&self, icon_index: usize) -> (t: &'static str)
        requires
            self.textures@.len() > 0,
        ensures
            t == self.textures@[icon_index as int % self.textures@.len() as int],
    {
        self.textures[icon_index % self.textures.len()]
    }
}

} // verus!
