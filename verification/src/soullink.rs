//! `EF_SOULLINK` — Soul Linker's link cast: the soul-light that swoops across
//! the caster (the glyph cascade is drawn by its own effect).
//!
//! The light's alpha ramps `+20` per frame to 200 while its counter is at
//! most 10, holds, and drains `−5` per frame once the counter passes 170; it
//! is done when it has drained past frame 170. An update of `n` frames
//! applies `n` times the per-frame change at once. Time is counted in
//! ticks, a caller-chosen `1/ticks` of a frame, so an update of a
//! fractional frame count is kept exactly; the alpha is then kept in
//! `1/ticks` of a unit.
//! Its swooping angle (a float accumulation) is the renderer's.
use vstd::prelude::*;

verus! {

pub const TEXTURES: [&'static str; 1] = ["whitelight.tga"];
/// The dispatcher's budget, ms.
pub const TOTAL_DURATION_MS: u32 = 5000;
/// Alpha gained per frame while ramping, `0..=255` units.
pub const ALPHA_RAMP_PER_FRAME: u32 = 20;
/// Alpha the ramp stops at.
pub const ALPHA_PEAK: u32 = 200;
/// The alpha drains once the counter passes this.
pub const ALPHA_DRAIN_START: u32 = 170;
/// Alpha lost per frame while draining.
pub const ALPHA_DRAIN_PER_FRAME: u32 = 5;
/// Light tint.
pub const LIGHT_RGB: [u8; 3] = [125, 125, 255];

/// The light's alpha after `p` one-frame updates.
pub open spec fn light_alpha_at(p: int) -> int {
    if p <= 10 {
        if 20 * p < 200 { 20 * p } else { 200 }
    } else if p <= 170 {
        200
    } else if 200 - 5 * (p - 170) > 0 {
        200 - 5 * (p - 170)
    } else {
        0
    }
}

/// Largest tick resolution a light accepts.
pub const MAX_TICKS_PER_FRAME: u32 = 1_000_000;

/// The soul-light's counter and alpha.
pub struct SoulLight {
    ticks: u32,
    process: u32,
    alpha: u64,
}

impl SoulLight {
    /// Ticks per frame.
    pub closed spec fn ticks_spec(&self) -> u32 {
        self.ticks
    }

    /// The counter: ticks elapsed.
    pub closed spec fn process_spec(&self) -> u32 {
        self.process
    }

    /// Alpha, `1/ticks` of a `0..=255` unit.
    pub closed spec fn alpha_spec(&self) -> u64 {
        self.alpha
    }

    /// A frame is 1 to 1,000,000 ticks and the alpha stays within
    /// `0..=200`.
    pub closed spec fn wf(&self) -> bool {
        &&& 1 <= self.ticks <= MAX_TICKS_PER_FRAME
        &&& self.alpha <= ALPHA_PEAK * self.ticks
    }

    /// A light before its first update, counting `ticks` ticks a frame.
    pub fn new_in_ticks(ticks: u32) -> (l: SoulLight)
        requires
            1 <= ticks <= MAX_TICKS_PER_FRAME,
        ensures
            l.wf(),
            l.ticks_spec() == ticks,
            l.process_spec() == 0,
            l.alpha_spec() == 0,
    {
        SoulLight { ticks, process: 0, alpha: 0 }
    }

    /// A light before its first update, counting whole frames.
    pub fn new() -> (l: SoulLight)
        ensures
            l.wf(),
            l.ticks_spec() == 1,
            l.process_spec() == 0,
            l.alpha_spec() == 0,
    {
        Self::new_in_ticks(1)
    }

    /// An update of `ticks` ticks.
    pub fn update(&mut self, ticks: u32)
        requires
            old(self).wf(),
            old(self).process_spec() + ticks <= u32::MAX,
        ensures
            final(self).wf(),
            final(self).ticks_spec() == old(self).ticks_spec(),
            final(self).process_spec() == old(self).process_spec() + ticks,
            final(self).alpha_spec() == ({
                let t = old(self).ticks_spec() as int;
                if final(self).process_spec() <= 10 * t {
                    if old(self).alpha_spec() + 20 * ticks < 200 * t { old(self).alpha_spec() + 20 * ticks } else { 200 * t }
                } else if final(self).process_spec() > ALPHA_DRAIN_START * t {
                    if old(self).alpha_spec() > 5 * ticks { old(self).alpha_spec() - 5 * ticks } else { 0 }
                } else {
                    old(self).alpha_spec() as int
                }
            }),
    {
        let t = self.ticks as u64;
        self.process = self.process + ticks;
        if self.process as u64 <= 10 * t {
            let up: u64 = self.alpha + 20 * ticks as u64;
            self.alpha = if up < 200 * t { up } else { 200 * t };
        } else if self.process as u64 > 170 * t {
            let down: u64 = 5 * ticks as u64;
            self.alpha = if self.alpha > down { self.alpha - down } else { 0 };
        }
    }

    /// Whether the light has drained after frame 170.
    pub fn is_done(&self) -> (r: bool)
        ensures
            r == (self.process_spec() > ALPHA_DRAIN_START * self.ticks_spec() && self.alpha_spec() == 0),
    {
        self.process as u64 > 170 * self.ticks as u64 && self.alpha == 0
    }

    /// Alpha, `1/ticks` of a `0..=255` unit.
    pub fn alpha(&self) -> (r: u64)
        ensures
            r == self.alpha_spec(),
    {
        self.alpha
    }

    /// Ticks per frame.
    pub fn ticks(&self) -> (r: u32)
        ensures
            r == self.ticks_spec(),
    {
        self.ticks
    }
}

/// Stepped one frame at a time, the light follows its ramp/hold/drain curve
/// and is done exactly from frame 210.
pub proof fn light_drains_by_frame_210(p: int)
    requires
        p >= 0,
    ensures
        light_alpha_at(p + 1) == (if p + 1 <= 10 {
            if light_alpha_at(p) + 20 < 200 { light_alpha_at(p) + 20 } else { 200 }
        } else if p + 1 > 170 {
            if light_alpha_at(p) > 5 { light_alpha_at(p) - 5 } else { 0 }
        } else {
            light_alpha_at(p)
        }),
        (p > 170 && light_alpha_at(p) == 0) <==> p >= 210,
{
}

} // verus!
