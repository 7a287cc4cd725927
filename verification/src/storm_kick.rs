//! `EF_STORMKICK` family — spinning vortex plus two gust rings.
//!
//! Each variant runs one `PP_STORMKICK` funnel of ten stacked plates plus the
//! `PortalWind(2)` and `PortalWind(3)` gust rings; the first two variants
//! also spin the caster's sprite. The funnel turns 4° per frame; its alpha
//! ramps `+1` per frame over the first 40 frames, holds, and fades `−1` per
//! frame after frame 60. `F1` selects the tint.
//!
//! This module holds the frame-level state: the funnel's counters, the
//! caster spin, and the two composed gust rings.
use vstd::prelude::*;
use crate::draw::EffectStatus;
use crate::portal_wind::{slot_at, PortalWindConfig, PortalWindSlots, PORTAL_WIND2, PORTAL_WIND3};

verus! {

pub const TEXTURES: [&'static str; 2] = ["storm2.tga", "cloud11.tga"];
pub const STORM_TEXTURE: &'static str = "storm2.tga";

/// Wall-clock length: the funnel's fade plus the gust rings.
pub const TOTAL_DURATION_MS: u32 = 1800;
/// [`TOTAL_DURATION_MS`] in 60 fps frames.
pub const TOTAL_FRAMES: u32 = 108;
/// Plates of the funnel.
pub const PLATES: u32 = 10;
/// Funnel spin per frame, degrees.
pub const ROT_SPEED_DEG: u32 = 4;
/// Frames the funnel's counters can run: its `u32` frame counter must
/// not overflow.
pub const MAX_FRAMES: u32 = 0xffff_fffe;

/// One variant: tint and caster spin.
#[derive(Clone, Copy, Debug)]
pub struct StormKickConfig {
    /// `F1` parameter.
    pub f1: u8,
    /// Funnel tint.
    pub tint_rgb: [u8; 3],
    /// Degrees the caster's sprite turns per frame (0: no spin).
    pub spin_per_frame: u32,
    /// Last frame on which the caster spins.
    pub spin_until_frame: i32,
}

/// Blue vortex, caster spins 30° per frame through frame 47.
#[allow(non_snake_case)]
pub fn STORMKICK0() -> (c: StormKickConfig)
    ensures
        c.f1 == 0 && c.tint_rgb == [50u8, 50u8, 255u8] && c.spin_per_frame == 30 && c.spin_until_frame == 47,
{
    StormKickConfig { f1: 0, tint_rgb: [50, 50, 255], spin_per_frame: 30, spin_until_frame: 47 }
}

/// Brown vortex, caster spins 14° per frame through frame 50.
#[allow(non_snake_case)]
pub fn STORMKICK1() -> (c: StormKickConfig)
    ensures
        c.f1 == 1 && c.tint_rgb == [164u8, 136u8, 55u8] && c.spin_per_frame == 14 && c.spin_until_frame == 50,
{
    StormKickConfig { f1: 1, tint_rgb: [164, 136, 55], spin_per_frame: 14, spin_until_frame: 50 }
}

/// Green vortex, no caster spin.
#[allow(non_snake_case)]
pub fn STORMKICK2() -> (c: StormKickConfig)
    ensures
        c.f1 == 2 && c.tint_rgb == [155u8, 255u8, 155u8] && c.spin_per_frame == 0 && c.spin_until_frame == 0,
{
    StormKickConfig { f1: 2, tint_rgb: [155, 255, 155], spin_per_frame: 0, spin_until_frame: 0 }
}

/// Light-blue vortex, no caster spin.
#[allow(non_snake_case)]
pub fn STORMKICK3() -> (c: StormKickConfig)
    ensures
        c.f1 == 3 && c.tint_rgb == [130u8, 130u8, 255u8] && c.spin_per_frame == 0 && c.spin_until_frame == 0,
{
    StormKickConfig { f1: 3, tint_rgb: [130, 130, 255], spin_per_frame: 0, spin_until_frame: 0 }
}

/// White vortex, no caster spin.
#[allow(non_snake_case)]
pub fn STORMKICK6() -> (c: StormKickConfig)
    ensures
        c.f1 == 6 && c.tint_rgb == [255u8, 255u8, 255u8] && c.spin_per_frame == 0 && c.spin_until_frame == 0,
{
    StormKickConfig { f1: 6, tint_rgb: [255, 255, 255], spin_per_frame: 0, spin_until_frame: 0 }
}

/// Pink vortex, no caster spin.
#[allow(non_snake_case)]
pub fn STORMKICK7() -> (c: StormKickConfig)
    ensures
        c.f1 == 7 && c.tint_rgb == [255u8, 125u8, 255u8] && c.spin_per_frame == 0 && c.spin_until_frame == 0,
{
    StormKickConfig { f1: 7, tint_rgb: [255, 125, 255], spin_per_frame: 0, spin_until_frame: 0 }
}

/// The funnel's alpha after `p` frames: `+1` to 40, hold to frame 60, then
/// `−1` per frame down to 0.
pub open spec fn kick_alpha_at(p: int) -> int {
    if p <= 40 {
        p
    } else if p <= 60 {
        40
    } else if 100 - p > 0 {
        100 - p
    } else {
        0
    }
}

/// Degrees the caster has turned after `p` frames.
pub open spec fn spin_at(cfg: StormKickConfig, p: int) -> int {
    let until = if cfg.spin_until_frame < 0 { 0 } else { cfg.spin_until_frame as int };
    let frames = if p < until { p } else { until };
    cfg.spin_per_frame * frames
}

/// Frame-level state of one vortex.
pub struct StormKickClock {
    cfg: StormKickConfig,
    process: u32,
    rot_start_deg: u32,
    alpha_b: u32,
    spin_accum_deg: u64,
    wind2: PortalWindSlots,
    wind3: PortalWindSlots,
}

impl StormKickClock {
    /// The variant.
    pub closed spec fn config(&self) -> StormKickConfig {
        self.cfg
    }

    /// Frames stepped.
    pub closed spec fn frames(&self) -> u32 {
        self.process
    }

    /// Funnel angle, degrees.
    pub closed spec fn rot_spec(&self) -> u32 {
        self.rot_start_deg
    }

    /// Funnel alpha, `0..=255` units.
    pub closed spec fn alpha_spec(&self) -> u32 {
        self.alpha_b
    }

    /// Degrees the caster has turned.
    pub closed spec fn spin_spec(&self) -> u64 {
        self.spin_accum_deg
    }

    /// The wide gust ring.
    pub closed spec fn wind2_spec(&self) -> PortalWindSlots {
        self.wind2
    }

    /// The tight gust ring.
    pub closed spec fn wind3_spec(&self) -> PortalWindSlots {
        self.wind3
    }

    /// What a caller sees of the vortex after `frames()` frames: the funnel
    /// turned `4°` a frame, its alpha on [`kick_alpha_at`], the caster's
    /// spin on [`spin_at`], and both gust rings stepped as many frames with
    /// every slot on its closed form.
    pub open spec fn on_schedule(&self) -> bool {
        let p = self.frames() as int;
        &&& self.rot_spec() == (ROT_SPEED_DEG * p) % 360
        &&& self.alpha_spec() == kick_alpha_at(p)
        &&& self.spin_spec() == spin_at(self.config(), p)
        &&& self.wind2_spec().frames() == p
        &&& self.wind3_spec().frames() == p
        &&& self.wind2_spec().config() == gust_wide()
        &&& self.wind3_spec().config() == gust_tight()
        &&& forall|i: int| 0 <= i < 4 ==> slot_at(gust_wide(), i, p, #[trigger] self.wind2_spec().slot(i))
        &&& forall|i: int| 0 <= i < 4 ==> slot_at(gust_tight(), i, p, #[trigger] self.wind3_spec().slot(i))
    }

    /// A well-formed vortex is on its schedule.
    proof fn lemma_on_schedule(&self)
        requires
            self.wf(),
        ensures
            self.on_schedule(),
    {
        crate::portal_wind::slots_follow_their_closed_forms(self.wind2);
        crate::portal_wind::slots_follow_their_closed_forms(self.wind3);
    }

    /// Every counter is its closed form in the frame count, and both gust
    /// rings have stepped as many frames.
    pub closed spec fn wf(&self) -> bool {
        &&& self.process <= MAX_FRAMES
        &&& self.rot_start_deg == (ROT_SPEED_DEG * self.process) % 360
        &&& self.alpha_b == kick_alpha_at(self.process as int)
        &&& self.spin_accum_deg == spin_at(self.cfg, self.process as int)
        &&& self.wind2.wf()
        &&& self.wind3.wf()
        &&& self.wind2.frames() == self.process
        &&& self.wind3.frames() == self.process
        &&& self.wind2.config() == gust_wide()
        &&& self.wind3.config() == gust_tight()
    }

    /// A vortex of variant `cfg` before its first frame.
    pub fn new(cfg: StormKickConfig) -> (c: StormKickClock)
        ensures
            c.wf(),
            c.on_schedule(),
            c.config() == cfg,
            c.frames() == 0,
    {
        let wind2 = PortalWindSlots::new(PORTAL_WIND2());
        let wind3 = PortalWindSlots::new(PORTAL_WIND3());
        let c = StormKickClock { cfg, process: 0, rot_start_deg: 0, alpha_b: 0, spin_accum_deg: 0, wind2, wind3 };
        assert(c.wind2.config() == gust_wide());
        assert(c.wind3.config() == gust_tight());
        assert(c.spin_accum_deg == spin_at(c.cfg, 0)) by {
            assert(cfg.spin_per_frame * 0int == 0) by (nonlinear_arith);
        }
        assert(c.rot_start_deg == (ROT_SPEED_DEG * 0) % 360);
        proof {
            c.lemma_on_schedule();
        }
        c
    }

    /// One native frame of `PrimStormKick` plus one frame of each gust ring.
    pub fn step_one_frame(&mut self)
        requires
            old(self).wf(),
            old(self).frames() < MAX_FRAMES,
        ensures
            final(self).wf(),
            final(self).on_schedule(),
            final(self).config() == old(self).config(),
            final(self).frames() == old(self).frames() + 1,
    {
        let ghost p = self.process as int;
        self.process = self.process + 1;
        self.rot_start_deg = (self.rot_start_deg + ROT_SPEED_DEG) % 360;
        assert((4 * p % 360 + 4) % 360 == (4 * (p + 1)) % 360) by {
            vstd::arithmetic::div_mod::lemma_add_mod_noop(4 * p, 4, 360);
            vstd::arithmetic::div_mod::lemma_mod_twice(4 * p, 360);
            vstd::arithmetic::div_mod::lemma_small_mod(4, 360);
        }
        if self.process > 60 {
            self.alpha_b = if self.alpha_b >= 1 { self.alpha_b - 1 } else { 0 };
        }
        if self.process <= 40 {
            self.alpha_b = self.alpha_b + 1;
        }
        if self.cfg.spin_until_frame >= 0 && self.process <= self.cfg.spin_until_frame as u32 {
            proof {
                assert(self.cfg.spin_per_frame * (p + 1) <= 0xFFFF_FFFF * 0x8000_0000) by (nonlinear_arith)
                    requires
                        self.cfg.spin_per_frame <= 0xFFFF_FFFF,
                        p + 1 <= 0x8000_0000,
                        p + 1 >= 0,
                ;
                assert(self.cfg.spin_per_frame * (p + 1) == self.cfg.spin_per_frame * p + self.cfg.spin_per_frame)
                    by (nonlinear_arith);
            }
            self.spin_accum_deg = self.spin_accum_deg + self.cfg.spin_per_frame as u64;
        }
        self.wind2.step_one_frame();
        self.wind3.step_one_frame();
        proof {
            self.lemma_on_schedule();
        }
    }

    /// Advances by `frames` whole frames; reports `Dead` from frame 108.
    pub fn advance(&mut self, frames: u32) -> (status: EffectStatus)
        requires
            old(self).wf(),
            old(self).frames() + frames <= MAX_FRAMES,
        ensures
            final(self).wf(),
            final(self).on_schedule(),
            final(self).config() == old(self).config(),
            final(self).frames() == old(self).frames() + frames,
            status == (if final(self).frames() >= TOTAL_FRAMES { EffectStatus::Dead } else { EffectStatus::Running }),
    {
        let mut k: u32 = 0;
        while k < frames
            invariant
                self.wf(),
                self.config() == old(self).config(),
                self.frames() == old(self).frames() + k,
                old(self).frames() + frames <= MAX_FRAMES,
                k <= frames,
            decreases frames - k,
        {
            self.step_one_frame();
            k = k + 1;
        }
        proof {
            self.lemma_on_schedule();
        }
        if self.process >= TOTAL_FRAMES {
            EffectStatus::Dead
        } else {
            EffectStatus::Running
        }
    }

    /// Frames stepped.
    pub fn frame_count(&self) -> (r: u32)
        ensures
            r == self.frames(),
    {
        self.process
    }

    /// Funnel angle in whole degrees.
    pub fn rot_start_deg(&self) -> (r: u32)
        ensures
            r == self.rot_spec(),
    {
        self.rot_start_deg
    }

    /// Funnel alpha in `0..=255` units.
    pub fn alpha_b(&self) -> (r: u32)
        ensures
            r == self.alpha_spec(),
    {
        self.alpha_b
    }

    /// The caster's yaw while it spins: the degrees turned so far, on frames
    /// up to the variant's spin window; `None` for a non-spinning variant or
    /// after the window.
    pub fn body_yaw_deg(&self) -> (r: Option<u64>)
        ensures
            r == (if self.config().spin_per_frame != 0 && self.frames() as int <= self.config().spin_until_frame as int {
                Some(self.spin_spec())
            } else {
                None
            }),
    {
        if self.cfg.spin_per_frame != 0 && (self.process as i64) <= (self.cfg.spin_until_frame as i64) {
            Some(self.spin_accum_deg)
        } else {
            None
        }
    }

    /// The wide gust ring.
    pub fn wind2(&self) -> (r: &PortalWindSlots)
        ensures
            *r == self.wind2_spec(),
    {
        &self.wind2
    }

    /// The tight gust ring.
    pub fn wind3(&self) -> (r: &PortalWindSlots)
        ensures
            *r == self.wind3_spec(),
    {
        &self.wind3
    }
}

/// The `PortalWind(2)` configuration, as a value.
pub open spec fn gust_wide() -> PortalWindConfig {
    PortalWindConfig { f1: 2, alpha_t: 2, body_light_lo: 0, body_light_hi: -1i32,
        body_light_rgb: [255u8, 255u8, 255u8], play_windwalk_wav: false }
}

/// The `PortalWind(3)` configuration, as a value.
pub open spec fn gust_tight() -> PortalWindConfig {
    PortalWindConfig { f1: 3, alpha_t: 2, body_light_lo: 0, body_light_hi: -1i32,
        body_light_rgb: [255u8, 255u8, 255u8], play_windwalk_wav: false }
}

/// In every state the funnel's alpha stays within `0..=40`, the funnel is
/// fully faded from frame 100 (before the effect's 108-frame end), and the
/// caster turns exactly `spin_per_frame` degrees per frame of its window.
pub proof fn storm_kick_fades_before_it_ends(c: StormKickClock)
    requires
        c.wf(),
    ensures
        c.alpha_spec() <= 40,
        c.frames() >= 100 ==> c.alpha_spec() == 0,
        c.spin_spec() == spin_at(c.config(), c.frames() as int),
        c.rot_spec() < 360,
        c.wind2_spec().frames() == c.frames(),
        c.wind3_spec().frames() == c.frames(),
{
}

} // verus!
