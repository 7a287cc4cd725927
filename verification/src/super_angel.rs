//! `SuperAngel(F1)` (`PP_SUPERANGEL`) — the Super Novice / Taekwon level-up
//! angel: stacked sprite layers keyed by the client's `F1`.
//!
//! * Angel2 = `F1` {0, 1, 2, 3} — angel body, wings and two feathers.
//! * Angel3 = `F1` {11, 10} — hanbok-angel wings and costume body.
//!
//! The wing layers (`F1` 1 and 11) respawn every 3 frames through frame 18,
//! leaving a fan of fainter after-images. Each layer fades in on an
//! `F1`-specific curve, holds, then fades out; its animation advances once it
//! has been alive 30 frames. At frame 65 the body launches a blue ring burst.
//!
//! Blending matters: every `RF_EFFECT` layer (body, wings, feathers, hanbok
//! wings) is additive; only the `F1` 10 costume body is `RF_ALPHA`.
//!
//! This module holds the layer schedule and the per-layer alpha and
//! animation on whole 60 fps frames and at any tick resolution (a tick
//! being a caller-chosen `1/ticks` of a frame, alphas then in `1/ticks`),
//! so fractional frame counts are kept exactly; the sprites' drift is the
//! renderer's.
use vstd::prelude::*;
use crate::draw::{BlendKind, EffectStatus};

verus! {

/// Angel body fades out from `process > 100` at `−4` per frame from 245 and
/// is gone on frame 162, the pinned wall-clock end.
pub const TOTAL_DURATION_MS: u32 = 2700;
/// [`TOTAL_DURATION_MS`] in 60 fps frames.
pub const TOTAL_FRAMES: u32 = 162;
/// Frame on which the blue ring bursts out.
pub const RING_SPAWN_FRAME: u32 = 65;
/// Birth frames of a wing layer's instances.
pub const WING_BIRTH_FRAMES: [u32; 7] = [0, 3, 6, 9, 12, 15, 18];

/// `F1` of the hanbok costume body, the one `RF_ALPHA` layer.
pub const COSTUME_BODY_F1: u8 = 10;

pub const SPR_ANGEL: &'static str = "data/sprite/\u{c774}\u{d329}\u{d2b8}/\u{cc9c}\u{c0ac}";
pub const SPR_ANGEL_WINGS: &'static str = "data/sprite/\u{c774}\u{d329}\u{d2b8}/\u{cc9c}\u{c0ac}\u{b0a0}\u{ac1c}";
pub const SPR_FEATHER: &'static str = "data/sprite/\u{c774}\u{d329}\u{d2b8}/\u{cc9c}\u{c0ac}\u{b0a0}\u{ac1c}\u{ae43}\u{d138}";
pub const SPR_HANBOK_BODY: &'static str = "data/sprite/\u{c774}\u{d329}\u{d2b8}/\u{d55c}\u{bcf5}\u{cc9c}\u{c0ac}(\u{bcf8}\u{ccb4})";
pub const SPR_HANBOK_WINGS: &'static str = "data/sprite/\u{c774}\u{d329}\u{d2b8}/\u{d55c}\u{bcf5}\u{cc9c}\u{c0ac}(\u{b0a0}\u{ac1c})";

/// `RF_EFFECT` layers are additive; only the `F1` 10 costume body is `RF_ALPHA`.
pub fn layer_blend(f1: u8) -> (b: BlendKind)
    ensures
        b == (if f1 == COSTUME_BODY_F1 { BlendKind::Alpha } else { BlendKind::Additive }),
{
    if f1 == COSTUME_BODY_F1 { BlendKind::Alpha } else { BlendKind::Additive }
}

/// One sprite layer of a variant.
#[derive(Clone, Copy, Debug)]
pub struct AngelLayer {
    /// Sprite path.
    pub sprite: &'static str,
    /// `F1` of the layer.
    pub f1: u8,
    /// Height above the caster (negative is up), world units before scaling.
    pub y_offset: i32,
    /// Whether the layer respawns as a fan of after-images.
    pub wing: bool,
}

/// The layers of one variant.
#[derive(Clone, Copy, Debug)]
pub struct SuperAngelParams {
    /// Layers, back to front.
    pub layers: &'static [AngelLayer],
}

/// Angel2: body, wings and two feathers.
#[allow(non_snake_case)]
pub fn ANGEL2() -> (p: SuperAngelParams)
    ensures
        p.layers@.len() == 4,
        p.layers@[0].f1 == 0 && !p.layers@[0].wing,
        p.layers@[1].f1 == 1 && p.layers@[1].wing,
        p.layers@[2].f1 == 2 && !p.layers@[2].wing,
        p.layers@[3].f1 == 3 && !p.layers@[3].wing,
        p.layers@ == seq![
            AngelLayer { sprite: SPR_ANGEL, f1: 0, y_offset: -40i32, wing: false },
            AngelLayer { sprite: SPR_ANGEL_WINGS, f1: 1, y_offset: -40i32, wing: true },
            AngelLayer { sprite: SPR_FEATHER, f1: 2, y_offset: -40i32, wing: false },
            AngelLayer { sprite: SPR_FEATHER, f1: 3, y_offset: -40i32, wing: false },
        ],
{
    SuperAngelParams {
        layers: &[
            AngelLayer { sprite: SPR_ANGEL, f1: 0, y_offset: -40, wing: false },
            AngelLayer { sprite: SPR_ANGEL_WINGS, f1: 1, y_offset: -40, wing: true },
            AngelLayer { sprite: SPR_FEATHER, f1: 2, y_offset: -40, wing: false },
            AngelLayer { sprite: SPR_FEATHER, f1: 3, y_offset: -40, wing: false },
        ],
    }
}

/// Angel3: hanbok wings and costume body.
#[allow(non_snake_case)]
pub fn ANGEL3() -> (p: SuperAngelParams)
    ensures
        p.layers@.len() == 2,
        p.layers@[0].f1 == 11 && p.layers@[0].wing,
        p.layers@[1].f1 == 10 && !p.layers@[1].wing,
        p.layers@ == seq![
            AngelLayer { sprite: SPR_HANBOK_WINGS, f1: 11, y_offset: -30i32, wing: true },
            AngelLayer { sprite: SPR_HANBOK_BODY, f1: 10, y_offset: -30i32, wing: false },
        ],
{
    SuperAngelParams {
        layers: &[
            AngelLayer { sprite: SPR_HANBOK_WINGS, f1: 11, y_offset: -30, wing: true },
            AngelLayer { sprite: SPR_HANBOK_BODY, f1: 10, y_offset: -30, wing: false },
        ],
    }
}

/// Cap and per-frame rate of a layer's fade-in: after-images (born after
/// frame 0) rise `+1` to `40 − birth`; primaries by `F1`.
pub open spec fn rise_curve(f1: u8, birth: int) -> (int, int) {
    if birth > 0 {
        (if 40 - birth > 0 { 40 - birth } else { 0 }, 1)
    } else if f1 == 0 {
        (245, 5)
    } else if f1 == 1 {
        (200, 5)
    } else if f1 == 10 {
        (255, 10)
    } else if f1 == 11 {
        (0, 0)
    } else {
        (150, 5)
    }
}

/// Frame of its life after which a layer fades, and the per-frame fade.
pub open spec fn fade_curve(f1: u8, birth: int) -> (int, int) {
    if f1 == 1 || f1 == 11 {
        if birth != 0 { (75, 3) } else { (75, 6) }
    } else if f1 == 0 {
        (100, 4)
    } else if f1 == 2 {
        (30, 3)
    } else if f1 == 3 {
        (60, 3)
    } else if f1 == 10 {
        (100, 6)
    } else {
        (70, 3)
    }
}

/// A layer's alpha `process` frames into its life, `0..=255` units: the
/// capped rise minus the fade, clamped to `0..=cap`.
pub open spec fn layer_alpha_spec(f1: u8, birth: int, process: int) -> int {
    if process <= 0 {
        0
    } else {
        let (cap, rate) = rise_curve(f1, birth);
        let rise = if rate * process < cap { rate * process } else { cap };
        let (fade_t, fade_rate) = fade_curve(f1, birth);
        let fade = if process > fade_t { fade_rate * (process - fade_t) } else { 0 };
        let a = rise - fade;
        if a < 0 { 0 } else if a > cap { cap } else { a }
    }
}

/// A layer's alpha on whole frame `process` of its life.
pub fn layer_alpha(f1: u8, birth_frame: u32, process: i64) -> (r: u32)
    ensures
        r == layer_alpha_spec(f1, birth_frame as int, process as int),
{
    if process <= 0 {
        return 0;
    }
    let p = process as i128;
    let (cap, rate): (i128, i128) = if birth_frame > 0 {
        (if 40 > birth_frame as i128 { 40 - birth_frame as i128 } else { 0 }, 1)
    } else if f1 == 0 {
        (245, 5)
    } else if f1 == 1 {
        (200, 5)
    } else if f1 == 10 {
        (255, 10)
    } else if f1 == 11 {
        (0, 0)
    } else {
        (150, 5)
    };
    assert(0 <= rate * p <= 10 * 0x7FFF_FFFF_FFFF_FFFFi128) by (nonlinear_arith)
        requires
            0 <= rate <= 10,
            0 < p <= 0x7FFF_FFFF_FFFF_FFFF,
    ;
    let rise = if rate * p < cap { rate * p } else { cap };
    let (fade_t, fade_rate): (i128, i128) = if f1 == 1 || f1 == 11 {
        if birth_frame != 0 { (75, 3) } else { (75, 6) }
    } else if f1 == 0 {
        (100, 4)
    } else if f1 == 2 {
        (30, 3)
    } else if f1 == 3 {
        (60, 3)
    } else if f1 == 10 {
        (100, 6)
    } else {
        (70, 3)
    };
    if p > fade_t {
        assert(0 <= fade_rate * (p - fade_t) <= 6 * 0x7FFF_FFFF_FFFF_FFFFi128) by (nonlinear_arith)
            requires
                0 <= fade_rate <= 6,
                0 < p - fade_t <= 0x7FFF_FFFF_FFFF_FFFF,
        ;
    }
    let fade = if p > fade_t { fade_rate * (p - fade_t) } else { 0 };
    let a = rise - fade;
    if a < 0 { 0 } else if a > cap { cap as u32 } else { a as u32 }
}

/// A layer's animation motion `process` frames into its life: frame 0 for
/// its first 30 frames, then one motion every 4 frames up to 15 for the
/// hanbok layers, every 3 frames up to 29 for the others.
pub fn layer_motion(f1: u8, process: i64) -> (r: u32)
    ensures
        r == (if process <= 30 {
            0
        } else if f1 == 10 || f1 == 11 {
            if (process - 30) / 4 < 15 { (process - 30) / 4 } else { 15 }
        } else {
            if (process - 30) / 3 < 29 { (process - 30) / 3 } else { 29 }
        }),
{
    if process <= 30 {
        return 0;
    }
    let steps = process - 30;
    if f1 == 10 || f1 == 11 {
        if steps / 4 < 15 { (steps / 4) as u32 } else { 15 }
    } else {
        if steps / 3 < 29 { (steps / 3) as u32 } else { 29 }
    }
}

/// A layer's alpha `q` ticks into its life at `t` ticks a frame, in `1/t`
/// of a `0..=255` unit: the capped rise minus the fade, clamped to
/// `0..=cap`.
pub open spec fn layer_alpha_ticks_spec(f1: u8, birth: int, q: int, t: int) -> int {
    if q <= 0 {
        0
    } else {
        let (cap, rate) = rise_curve(f1, birth);
        let rise = if rate * q < cap * t { rate * q } else { cap * t };
        let (fade_t, fade_rate) = fade_curve(f1, birth);
        let fade = if q > fade_t * t { fade_rate * (q - fade_t * t) } else { 0 };
        let a = rise - fade;
        if a < 0 { 0 } else if a > cap * t { cap * t } else { a }
    }
}

/// A layer's alpha `q` ticks into its life at `ticks` ticks a frame.
pub fn layer_alpha_in_ticks(f1: u8, birth_frame: u32, q: u32, ticks: u32) -> (r: u64)
    ensures
        r == layer_alpha_ticks_spec(f1, birth_frame as int, q as int, ticks as int),
{
    if q == 0 {
        return 0;
    }
    let p = q as i128;
    let t = ticks as i128;
    let (cap, rate): (i128, i128) = if birth_frame > 0 {
        (if 40 > birth_frame as i128 { 40 - birth_frame as i128 } else { 0 }, 1)
    } else if f1 == 0 {
        (245, 5)
    } else if f1 == 1 {
        (200, 5)
    } else if f1 == 10 {
        (255, 10)
    } else if f1 == 11 {
        (0, 0)
    } else {
        (150, 5)
    };
    let (fade_t, fade_rate): (i128, i128) = if f1 == 1 || f1 == 11 {
        if birth_frame != 0 { (75, 3) } else { (75, 6) }
    } else if f1 == 0 {
        (100, 4)
    } else if f1 == 2 {
        (30, 3)
    } else if f1 == 3 {
        (60, 3)
    } else if f1 == 10 {
        (100, 6)
    } else {
        (70, 3)
    };
    proof {
        assert(0 <= rate * p <= 10 * 0xFFFF_FFFFi128 && 0 <= cap * t <= 255 * 0xFFFF_FFFFi128
            && 0 <= fade_t * t <= 100 * 0xFFFF_FFFFi128) by (nonlinear_arith)
            requires
                0 <= rate <= 10,
                0 <= cap <= 255,
                0 <= fade_t <= 100,
                0 < p <= 0xFFFF_FFFF,
                0 <= t <= 0xFFFF_FFFF,
        ;
    }
    let rise = if rate * p < cap * t { rate * p } else { cap * t };
    if p > fade_t * t {
        assert(0 <= fade_rate * (p - fade_t * t) <= 6 * 0xFFFF_FFFFi128) by (nonlinear_arith)
            requires
                0 <= fade_rate <= 6,
                0 < p - fade_t * t <= 0xFFFF_FFFF,
        ;
    }
    let fade = if p > fade_t * t { fade_rate * (p - fade_t * t) } else { 0 };
    let a = rise - fade;
    if a < 0 { 0 } else if a > cap * t { (cap * t) as u64 } else { a as u64 }
}

/// A layer's animation motion `q` ticks into its life at `ticks` ticks a
/// frame: as [`layer_motion`], on the fractional frame count.
pub fn layer_motion_in_ticks(f1: u8, q: u32, ticks: u32) -> (r: u32)
    requires
        ticks >= 1,
    ensures
        r == (if q <= 30 * ticks {
            0
        } else if f1 == 10 || f1 == 11 {
            if (q - 30 * ticks) / (4 * ticks as int) < 15 { (q - 30 * ticks) / (4 * ticks as int) } else { 15 }
        } else {
            if (q - 30 * ticks) / (3 * ticks as int) < 29 { (q - 30 * ticks) / (3 * ticks as int) } else { 29 }
        }),
{
    let t = ticks as u64;
    let q = q as u64;
    if q <= 30 * t {
        return 0;
    }
    let steps = q - 30 * t;
    if f1 == 10 || f1 == 11 {
        if steps / (4 * t) < 15 { (steps / (4 * t)) as u32 } else { 15 }
    } else {
        if steps / (3 * t) < 29 { (steps / (3 * t)) as u32 } else { 29 }
    }
}

/// One drawn instance of a layer.
#[derive(Clone, Copy, Debug)]
pub struct AngelInstance {
    /// Sprite path.
    pub sprite: &'static str,
    /// `F1` of its layer.
    pub f1: u8,
    /// Height above the caster, world units before scaling.
    pub y_offset: i32,
    /// Frame the instance is born on.
    pub birth_frame: u32,
}

/// The instances a list of layers expands to: a wing layer becomes seven
/// instances born at frames 0, 3, …, 18; any other layer one, born at 0.
pub open spec fn instances_of(layers: Seq<AngelLayer>) -> Seq<AngelInstance>
    decreases layers.len(),
{
    if layers.len() == 0 {
        Seq::empty()
    } else {
        let l = layers.last();
        let one = |b: int| AngelInstance { sprite: l.sprite, f1: l.f1, y_offset: l.y_offset, birth_frame: b as u32 };
        instances_of(layers.drop_last()) + (if l.wing {
            Seq::new(7, |i: int| one(3 * i))
        } else {
            seq![one(0)]
        })
    }
}

impl SuperAngelParams {
    /// The drawn instances, layer by layer.
    pub fn instances(&self) -> (v: Vec<AngelInstance>)
        ensures
            v@ == instances_of(self.layers@),
    {
        let mut v: Vec<AngelInstance> = Vec::new();
        let mut g: usize = 0;
        while g < self.layers.len()
            invariant
                g <= self.layers@.len(),
                v@ == instances_of(self.layers@.take(g as int)),
            decreases self.layers@.len() - g,
        {
            let l = self.layers[g];
            let ghost base = v@;
            if l.wing {
                let mut i: usize = 0;
                while i < 7
                    invariant
                        i <= 7,
                        v@ == base + Seq::new(i as nat, |j: int| AngelInstance {
                            sprite: l.sprite, f1: l.f1, y_offset: l.y_offset, birth_frame: (3 * j) as u32 }),
                    decreases 7 - i,
                {
                    v.push(AngelInstance { sprite: l.sprite, f1: l.f1, y_offset: l.y_offset, birth_frame: WING_BIRTH_FRAMES[i] });
                    i = i + 1;
                    assert(v@ =~= base + Seq::new(i as nat, |j: int| AngelInstance {
                        sprite: l.sprite, f1: l.f1, y_offset: l.y_offset, birth_frame: (3 * j) as u32 }));
                }
            } else {
                v.push(AngelInstance { sprite: l.sprite, f1: l.f1, y_offset: l.y_offset, birth_frame: 0 });
            }
            proof {
                assert(self.layers@.take(g + 1).drop_last() =~= self.layers@.take(g as int));
                assert(self.layers@.take(g + 1).last() == l);
                let one = |b: int| AngelInstance { sprite: l.sprite, f1: l.f1, y_offset: l.y_offset, birth_frame: b as u32 };
                if l.wing {
                    assert(Seq::new(7, |i: int| one(3 * i)) =~= Seq::new(7nat, |j: int| AngelInstance {
                        sprite: l.sprite, f1: l.f1, y_offset: l.y_offset, birth_frame: (3 * j) as u32 }));
                } else {
                    assert(v@ =~= base + seq![one(0)]);
                }
            }
            g = g + 1;
        }
        assert(self.layers@.take(self.layers@.len() as int) =~= self.layers@);
        v
    }
}

/// `Dead` once 162 frames have passed.
pub fn status_at(frame: u32) -> (s: EffectStatus)
    ensures
        s == (if frame >= TOTAL_FRAMES { EffectStatus::Dead } else { EffectStatus::Running }),
{
    if frame >= TOTAL_FRAMES { EffectStatus::Dead } else { EffectStatus::Running }
}

/// `Dead` once 162 frames have passed, `n` ticks in at `ticks` ticks a
/// frame.
pub fn status_in_ticks(n: u32, ticks: u32) -> (s: EffectStatus)
    ensures
        s == (if n >= TOTAL_FRAMES * ticks { EffectStatus::Dead } else { EffectStatus::Running }),
{
    if n as u64 >= TOTAL_FRAMES as u64 * ticks as u64 { EffectStatus::Dead } else { EffectStatus::Running }
}

/// Every layer instance born by frame 18 has faded out once the effect
/// reports `Dead` at frame 162, whatever its `F1`; no alpha exceeds 255.
pub proof fn angel_fades_before_the_end(f1: u8, birth: int, frame: int)
    requires
        0 <= birth <= 18,
        frame >= TOTAL_FRAMES,
    ensures
        layer_alpha_spec(f1, birth, frame - birth) == 0,
        layer_alpha_spec(f1, birth, frame - birth) <= 255,
{
    let p = frame - birth;
    let (cap, rate) = rise_curve(f1, birth);
    let (fade_t, fade_rate) = fade_curve(f1, birth);
    // Every fade starts by frame 100 of a layer's life and runs at least
    // 3 per frame; a primary (born at 0) is at least 162 frames old.
    assert(fade_t <= 100 && fade_rate >= 3);
    lemma_fade_outruns(fade_rate, p - fade_t, 3, 44);
    if birth == 0 {
        if f1 == 0 {
            lemma_fade_outruns(fade_rate, p - fade_t, 4, 62);
        } else if f1 == 1 || f1 == 11 {
            lemma_fade_outruns(fade_rate, p - fade_t, 6, 87);
        } else if f1 == 10 {
            lemma_fade_outruns(fade_rate, p - fade_t, 6, 62);
        } else {
            lemma_fade_outruns(fade_rate, p - fade_t, 3, 92);
        }
    }
}

/// `a * b` grows with both factors.
proof fn lemma_fade_outruns(a: int, b: int, x: int, y: int)
    requires
        0 <= x <= a,
        0 <= y <= b,
    ensures
        x * y <= a * b,
{
    assert(x * y <= a * b) by (nonlinear_arith)
        requires
            0 <= x <= a,
            0 <= y <= b,
    ;
}

} // verus!
