//! `EF_THUNDERSTORM2` — Lightning Crash: a vertical bolt striking the
//! caster's tile repeatedly.
//!
//! A strike lands every 9 frames. It snaps on at full brightness, holds for
//! three frames, fades over the next two, and is dark for the rest of the
//! period. The bolt stacks a fixed top segment over a middle segment that
//! cycles through three textures, one per strike, above a ground flash. The
//! effect ends at frame 200.
//!
//! This module holds the strike cadence and the layers each strike stacks.
//! The strike alpha is given in thirds of full brightness on whole 60 fps
//! frames, and exactly at any tick resolution (a tick being a
//! caller-chosen `1/ticks` of a frame) in `1/(3·ticks)`.
use vstd::prelude::*;
use crate::draw::{BlendKind, EffectStatus};

verus! {

pub const TOP_TEXTURE: &'static str = "\u{c36c}\u{b354}\u{c2a4}\u{d1b0}1.tga";
pub const STAR_TEXTURE: &'static str = "\u{c36c}\u{b354}\u{c2a4}\u{d1b0}\u{d30c}\u{d2f0}\u{d074}.tga";
pub const MIDDLE_TEXTURES: [&'static str; 3] = [
    "\u{c36c}\u{b354}\u{c2a4}\u{d1b0}2.tga",
    "\u{c36c}\u{b354}\u{c2a4}\u{d1b0}3.tga",
    "\u{c36c}\u{b354}\u{c2a4}\u{d1b0}4.tga",
];
/// Frames between two strikes.
pub const STRIKE_PERIOD_FRAMES: u32 = 9;
/// Frames of a strike that are lit.
pub const BRIGHT_FRAMES: u32 = 5;
/// Frames over which a strike fades.
pub const FADE_OUT_FRAMES: u32 = 3;
/// Frame on which the effect ends.
pub const DURATION_FRAMES: u32 = 200;
/// Wall-clock length, ms.
pub const TOTAL_DURATION_MS: u32 = 3333;

/// Strike alpha on frame `frame`, in thirds of full brightness.
pub open spec fn strike_thirds(frame: int) -> int {
    let local = frame % (STRIKE_PERIOD_FRAMES as int);
    if local >= BRIGHT_FRAMES {
        0
    } else if BRIGHT_FRAMES - local > FADE_OUT_FRAMES {
        FADE_OUT_FRAMES as int
    } else {
        BRIGHT_FRAMES - local
    }
}

/// Strike alpha on whole frame `frame`, in thirds (`0..=3`).
pub fn strike_alpha_thirds(frame: u32) -> (r: u32)
    ensures
        r == strike_thirds(frame as int),
        r <= 3,
{
    let local = frame % STRIKE_PERIOD_FRAMES;
    if local >= BRIGHT_FRAMES {
        0
    } else if BRIGHT_FRAMES - local > FADE_OUT_FRAMES {
        FADE_OUT_FRAMES
    } else {
        BRIGHT_FRAMES - local
    }
}

/// Which middle segment the strike of frame `frame` shows.
pub fn middle_index(frame: u32) -> (r: usize)
    ensures
        r == (frame as int / (STRIKE_PERIOD_FRAMES as int)) % 3,
        r < 3,
{
    ((frame / STRIKE_PERIOD_FRAMES) % 3) as usize
}

/// `Dead` from frame 200.
pub fn status_at(frame: u32) -> (s: EffectStatus)
    ensures
        s == (if frame >= DURATION_FRAMES { EffectStatus::Dead } else { EffectStatus::Running }),
{
    if frame >= DURATION_FRAMES { EffectStatus::Dead } else { EffectStatus::Running }
}

/// The cadence repeats every 9 frames, and consecutive strikes show
/// consecutive middle segments.
pub proof fn strikes_repeat_every_period(frame: int)
    requires
        frame >= 0,
    ensures
        strike_thirds(frame + STRIKE_PERIOD_FRAMES) == strike_thirds(frame),
        ((frame + STRIKE_PERIOD_FRAMES) / (STRIKE_PERIOD_FRAMES as int)) % 3
            == ((frame / (STRIKE_PERIOD_FRAMES as int)) + 1) % 3,
{
    vstd::arithmetic::div_mod::lemma_mod_add_multiples_vanish(frame, 9);
    vstd::arithmetic::div_mod::lemma_div_plus_one(frame, 9);
}

/// Strike alpha `n` ticks in at `t` ticks a frame, `1/(3·t)` of full.
pub open spec fn strike_ticks_spec(n: int, t: int) -> int {
    let local = n % (STRIKE_PERIOD_FRAMES * t);
    if local >= BRIGHT_FRAMES * t {
        0
    } else if BRIGHT_FRAMES * t - local > FADE_OUT_FRAMES * t {
        FADE_OUT_FRAMES * t
    } else {
        BRIGHT_FRAMES * t - local
    }
}

/// Strike alpha `n` ticks in at `ticks` ticks a frame.
pub fn strike_alpha_in_ticks(n: u32, ticks: u32) -> (r: u64)
    requires
        ticks >= 1,
    ensures
        r == strike_ticks_spec(n as int, ticks as int),
        r <= 3 * ticks,
{
    let t = ticks as u64;
    let local = n as u64 % (9 * t);
    if local >= 5 * t {
        0
    } else if 5 * t - local > 3 * t {
        3 * t
    } else {
        5 * t - local
    }
}

/// Which middle segment the strike `n` ticks in at `ticks` ticks a frame
/// shows.
pub fn middle_index_in_ticks(n: u32, ticks: u32) -> (r: usize)
    requires
        ticks >= 1,
    ensures
        r == (n as int / (STRIKE_PERIOD_FRAMES * ticks)) % 3,
        r < 3,
{
    ((n as u64 / (9 * ticks as u64)) % 3) as usize
}

/// `Dead` from frame 200, `n` ticks in at `ticks` ticks a frame.
pub fn status_in_ticks(n: u32, ticks: u32) -> (s: EffectStatus)
    ensures
        s == (if n >= DURATION_FRAMES * ticks { EffectStatus::Dead } else { EffectStatus::Running }),
{
    if n as u64 >= 200 * ticks as u64 { EffectStatus::Dead } else { EffectStatus::Running }
}

/// At any tick resolution the cadence repeats every 9 frames, and
/// consecutive strikes show consecutive middle segments.
pub proof fn strikes_repeat_every_period_in_ticks(n: int, t: int)
    requires
        n >= 0,
        t >= 1,
    ensures
        strike_ticks_spec(n + STRIKE_PERIOD_FRAMES * t, t) == strike_ticks_spec(n, t),
        ((n + STRIKE_PERIOD_FRAMES * t) / (STRIKE_PERIOD_FRAMES * t)) % 3
            == ((n / (STRIKE_PERIOD_FRAMES * t)) + 1) % 3,
{
    vstd::arithmetic::div_mod::lemma_mod_add_multiples_vanish(n, 9 * t);
    vstd::arithmetic::div_mod::lemma_div_plus_one(n, 9 * t);
}

/// Side of a bolt segment, world units.
pub const BOLT_SIZE: u32 = 12;
/// Side of the ground flash, world units.
pub const STAR_SIZE: u32 = 9;

/// One layer of a strike: a no-depth billboard centred `lift_halves` half
/// bolt sides above the impact.
#[derive(Clone, Copy, Debug)]
pub struct StrikeLayer {
    /// Texture.
    pub texture: &'static str,
    /// Height of its centre above the impact, in halves of [`BOLT_SIZE`].
    pub lift_halves: u32,
    /// Side, world units.
    pub size: u32,
    /// Blend.
    pub blend: BlendKind,
}

/// The layers drawn on frame `frame`: none while the strike is dark;
/// otherwise the ground flash at the impact, the middle segment half a side
/// up, and the top segment capping it one and a half sides up, all
/// additive.
pub fn strike_layers(frame: u32) -> (v: Vec<StrikeLayer>)
    ensures
        strike_thirds(frame as int) == 0 ==> v@.len() == 0,
        strike_thirds(frame as int) > 0 ==> {
            &&& v@.len() == 3
            &&& v@[0].texture == STAR_TEXTURE && v@[0].lift_halves == 0 && v@[0].size == STAR_SIZE
            &&& v@[1].texture == MIDDLE_TEXTURES[(frame as int / (STRIKE_PERIOD_FRAMES as int)) % 3]
            &&& v@[1].lift_halves == 1 && v@[1].size == BOLT_SIZE
            &&& v@[2].texture == TOP_TEXTURE && v@[2].lift_halves == 3 && v@[2].size == BOLT_SIZE
            &&& forall|i: int| 0 <= i < 3 ==> #[trigger] v@[i].blend == BlendKind::Additive
        },
{
    let mut v: Vec<StrikeLayer> = Vec::new();
    if strike_alpha_thirds(frame) == 0 {
        return v;
    }
    let m = middle_index(frame);
    v.push(StrikeLayer { texture: STAR_TEXTURE, lift_halves: 0, size: STAR_SIZE, blend: BlendKind::Additive });
    v.push(StrikeLayer { texture: MIDDLE_TEXTURES[m], lift_halves: 1, size: BOLT_SIZE, blend: BlendKind::Additive });
    v.push(StrikeLayer { texture: TOP_TEXTURE, lift_halves: 3, size: BOLT_SIZE, blend: BlendKind::Additive });
    v
}

} // verus!
