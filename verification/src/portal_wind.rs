//! `EF_PORTAL4` / `EF_PORTAL5` — `PortalWind(F1)` 4-slot PP_WIND aura, and
//! the `PortalWind(2)` / `PortalWind(3)` gust rings StormKick reuses.
//!
//! `PortalWind(F1)` spawns 4 narrow PP_WIND cones at 90°
//! spacing. Each slot widens (`full_display_angle += 3` per frame, capped at
//! 120° for windwalk and 180° for gust) and rotates (`RotStart += 5°`).
//! `PrimWind` with `alphaT == 1` ("windwalk") fades in `+10` per frame for 12
//! frames (cap 250), drifts outward by 0.10 and fades `−2` per frame after
//! frame 20; with `alphaT == 2` ("gust") it fades in `+1` per frame for 12
//! frames, drifts outward after frame 12 and fades `−1` per frame after
//! frame 50. After frame 1400 every slot drains `−3` per frame.
//!
//! Portal4 also plays `effect\windwalk.wav` at frame 0 and tints the master
//! green during frames 5..=25; Portal5 tints it yellow during frames 5..=65.
//!
//! The slots are kept in integers: angles in whole degrees, alphas in
//! `0..=255` units, and the outward drift as a count of 0.10-unit steps that
//! the renderer adds to the slot's base radius.
use vstd::prelude::*;

verus! {

pub const TEXTURES: [&'static str; 1] = ["cloud11.tga"];
/// Wall-clock length of the aura, ms.
pub const TOTAL_DURATION_MS: u32 = 2000;
/// `PrimWind` alpha mode of the windwalk aura.
pub const ALPHA_T_WINDWALK: u8 = 1;
/// `PrimWind` alpha mode of the gust rings.
pub const ALPHA_T_GUST: u8 = 2;
/// The Portal4 sound request.
pub const WINDWALK_WAV: &'static str = "effect\\windwalk.wav";

/// Integer parameters of one PortalWind variant.
#[derive(Clone, Copy, Debug)]
pub struct PortalWindConfig {
    /// `F1` parameter.
    pub f1: u8,
    /// `PrimWind` `alphaT` mode: 1 = windwalk, 2 = gust.
    pub alpha_t: u8,
    /// Inclusive `m_stateCnt` window during which the master sprite is
    /// tinted; an empty window (`lo > hi`) disables the tint.
    pub body_light_lo: i32,
    /// Last tinted frame.
    pub body_light_hi: i32,
    /// Body-light RGB.
    pub body_light_rgb: [u8; 3],
    /// Portal4 plays `effect\windwalk.wav` at frame 0.
    pub play_windwalk_wav: bool,
}

/// `EF_PORTAL4` — windwalk aura, green tint on frames 5..=25, windwalk sound.
#[allow(non_snake_case)]
pub fn PORTAL4() -> (c: PortalWindConfig)
    ensures
        c == (PortalWindConfig { f1: 0, alpha_t: 1, body_light_lo: 5, body_light_hi: 25,
            body_light_rgb: [220u8, 250u8, 220u8], play_windwalk_wav: true }),
{
    PortalWindConfig { f1: 0, alpha_t: 1, body_light_lo: 5, body_light_hi: 25,
        body_light_rgb: [220, 250, 220], play_windwalk_wav: true }
}

/// `EF_PORTAL5` — windwalk aura, yellow tint on frames 5..=65.
#[allow(non_snake_case)]
pub fn PORTAL5() -> (c: PortalWindConfig)
    ensures
        c == (PortalWindConfig { f1: 1, alpha_t: 1, body_light_lo: 5, body_light_hi: 65,
            body_light_rgb: [250u8, 250u8, 200u8], play_windwalk_wav: false }),
{
    PortalWindConfig { f1: 1, alpha_t: 1, body_light_lo: 5, body_light_hi: 65,
        body_light_rgb: [250, 250, 200], play_windwalk_wav: false }
}

/// `PortalWind(2)` — StormKick's wide gust ring; no tint, no sound.
#[allow(non_snake_case)]
pub fn PORTAL_WIND2() -> (c: PortalWindConfig)
    ensures
        c == (PortalWindConfig { f1: 2, alpha_t: 2, body_light_lo: 0, body_light_hi: -1i32,
            body_light_rgb: [255u8, 255u8, 255u8], play_windwalk_wav: false }),
{
    PortalWindConfig { f1: 2, alpha_t: 2, body_light_lo: 0, body_light_hi: -1,
        body_light_rgb: [255, 255, 255], play_windwalk_wav: false }
}

/// `PortalWind(3)` — StormKick's tighter gust ring; no tint, no sound.
#[allow(non_snake_case)]
pub fn PORTAL_WIND3() -> (c: PortalWindConfig)
    ensures
        c == (PortalWindConfig { f1: 3, alpha_t: 2, body_light_lo: 0, body_light_hi: -1i32,
            body_light_rgb: [255u8, 255u8, 255u8], play_windwalk_wav: false }),
{
    PortalWindConfig { f1: 3, alpha_t: 2, body_light_lo: 0, body_light_hi: -1,
        body_light_rgb: [255, 255, 255], play_windwalk_wav: false }
}

/// The master's body tint on frame `frame`: the variant's colour inside its
/// inclusive window, none outside it.
pub fn body_tint(cfg: &PortalWindConfig, frame: i32) -> (r: Option<[u8; 3]>)
    ensures
        r == (if cfg.body_light_lo <= frame <= cfg.body_light_hi { Some(cfg.body_light_rgb) } else { None }),
{
    if frame >= cfg.body_light_lo && frame <= cfg.body_light_hi {
        Some(cfg.body_light_rgb)
    } else {
        None
    }
}

/// A slot's alpha after `p` frames: windwalk `+10` to 110, hold, `−2` per
/// frame after frame 20; gust `+1` to 11, hold, `−1` per frame after frame 50.
pub open spec fn wind_alpha_at(gust: bool, p: int) -> int {
    if gust {
        if p <= 11 {
            p
        } else if p <= 50 {
            11
        } else if 11 - (p - 50) > 0 {
            11 - (p - 50)
        } else {
            0
        }
    } else {
        if p <= 11 {
            10 * p
        } else if p <= 20 {
            110
        } else if 110 - 2 * (p - 20) > 0 {
            110 - 2 * (p - 20)
        } else {
            0
        }
    }
}

/// Arc of a slot after `p` frames: `30 + 3p`, capped at 180 (gust) or 120.
pub open spec fn wind_arc_at(gust: bool, p: int) -> int {
    let cap = if gust { 180int } else { 120int };
    if 30 + 3 * p < cap { 30 + 3 * p } else { cap }
}

/// Outward 0.10-unit drift steps after `p` frames: every frame past 12
/// (gust) or past 20 (windwalk).
pub open spec fn wind_drift_at(gust: bool, p: int) -> int {
    let from = if gust { 12int } else { 20int };
    if p > from { p - from } else { 0 }
}

/// Rise angle of slot `i`: fixed per slot, within the `80..=100` range of
/// the client's `80 + random(0..21)` draw.
pub open spec fn wind_rise(i: int) -> int {
    if i == 0 { 82 } else if i == 1 { 88 } else if i == 2 { 95 } else { 100 }
}

/// State of one PP_WIND slot.
#[derive(Clone, Copy, Debug)]
pub struct WindSlot {
    /// `RotStart`, degrees in `0..360`.
    pub rot_start_deg: u32,
    /// Frames stepped.
    pub process: u32,
    /// `alphaB`.
    pub alpha_b: u32,
    /// 0.10-unit outward drift steps taken.
    pub drift_steps: u32,
    /// `full_display_angle`, degrees.
    pub full_display_angle_deg: u32,
    /// Rise angle, degrees.
    pub rise_angle_deg: u32,
    /// `alphaT` mode.
    pub alpha_t: u8,
}

impl WindSlot {
    /// Slot invariant: the angle stays below 360 and alpha, arc and drift are
    /// exactly their closed forms in the frame count.
    pub open spec fn wf(&self) -> bool {
        let gust = self.alpha_t == ALPHA_T_GUST;
        &&& self.rot_start_deg < 360
        &&& self.alpha_b == wind_alpha_at(gust, self.process as int)
        &&& self.full_display_angle_deg == wind_arc_at(gust, self.process as int)
        &&& self.drift_steps == wind_drift_at(gust, self.process as int)
    }

    /// Slot `slot_idx` (0..4) of a variant with alpha mode `alpha_t`.
    pub fn new(slot_idx: usize, alpha_t: u8) -> (s: WindSlot)
        requires
            slot_idx < 4,
        ensures
            s.wf(),
            s.rot_start_deg == 90 * slot_idx,
            s.process == 0,
            s.alpha_t == alpha_t,
            s.rise_angle_deg == wind_rise(slot_idx as int),
    {
        let rise = if slot_idx == 0 { 82 } else if slot_idx == 1 { 88 } else if slot_idx == 2 { 95 } else { 100 };
        WindSlot {
            rot_start_deg: 90 * slot_idx as u32,
            process: 0,
            alpha_b: 0,
            drift_steps: 0,
            full_display_angle_deg: 30,
            rise_angle_deg: rise,
            alpha_t,
        }
    }

    /// One frame of `PrimWind`.
    pub fn step(&mut self)
        requires
            old(self).wf(),
            old(self).process < u32::MAX,
        ensures
            final(self).wf(),
            final(self).process == old(self).process + 1,
            final(self).rot_start_deg == (old(self).rot_start_deg + 5) % 360,
            final(self).alpha_t == old(self).alpha_t,
            final(self).rise_angle_deg == old(self).rise_angle_deg,
    {
        self.process = self.process + 1;
        self.rot_start_deg = (self.rot_start_deg + 5) % 360;
        if self.alpha_t == ALPHA_T_GUST {
            self.full_display_angle_deg = if self.full_display_angle_deg + 3 < 180 {
                self.full_display_angle_deg + 3
            } else {
                180
            };
            if self.process > 50 {
                self.alpha_b = if self.alpha_b >= 1 { self.alpha_b - 1 } else { 0 };
            }
            if self.process > 12 {
                self.drift_steps = self.drift_steps + 1;
            }
            if self.process < 12 {
                self.alpha_b = self.alpha_b + 1;
            }
        } else {
            self.full_display_angle_deg = if self.full_display_angle_deg + 3 < 120 {
                self.full_display_angle_deg + 3
            } else {
                120
            };
            if self.process > 20 {
                self.alpha_b = if self.alpha_b >= 2 { self.alpha_b - 2 } else { 0 };
                self.drift_steps = self.drift_steps + 1;
            }
            if self.process < 12 {
                self.alpha_b = if self.alpha_b + 10 < 250 { self.alpha_b + 10 } else { 250 };
            }
        }
        if self.process > 1400 {
            self.alpha_b = if self.alpha_b >= 3 { self.alpha_b - 3 } else { 0 };
        }
    }
}

/// What slot `i` of an aura of `cfg` is after `p` frames: its turn
/// `90·i + 5·p` (mod 360), its alpha, arc and drift on their closed forms,
/// the variant's alpha mode and its fixed rise.
pub open spec fn slot_at(cfg: PortalWindConfig, i: int, p: int, s: WindSlot) -> bool {
    let gust = cfg.alpha_t == ALPHA_T_GUST;
    &&& s.process == p
    &&& s.rot_start_deg == (90 * i + 5 * p) % 360
    &&& s.alpha_b == wind_alpha_at(gust, p)
    &&& s.full_display_angle_deg == wind_arc_at(gust, p)
    &&& s.drift_steps == wind_drift_at(gust, p)
    &&& s.alpha_t == cfg.alpha_t
    &&& s.rise_angle_deg == wind_rise(i)
}

/// Five degrees more on a turn kept below 360.
proof fn lemma_turn_step(i: int, p: int)
    requires
        0 <= i < 4,
        p >= 0,
    ensures
        ((90 * i + 5 * p) % 360 + 5) % 360 == (90 * i + 5 * (p + 1)) % 360,
{
    let a = 90 * i + 5 * p;
    vstd::arithmetic::div_mod::lemma_add_mod_noop(a, 5, 360);
    vstd::arithmetic::div_mod::lemma_small_mod(5, 360);
    vstd::arithmetic::div_mod::lemma_mod_bound(a, 360);
    vstd::arithmetic::div_mod::lemma_small_mod(((a % 360) + 5) as nat, 720);
}

/// The four slots of one aura plus its pending sound request.
pub struct PortalWindSlots {
    cfg: PortalWindConfig,
    slots: [WindSlot; 4],
    pending_sfx: Option<&'static str>,
}

impl PortalWindSlots {
    /// The variant this aura runs.
    pub closed spec fn config(&self) -> PortalWindConfig {
        self.cfg
    }

    /// Slot `i`.
    pub closed spec fn slot(&self, i: int) -> WindSlot {
        self.slots[i]
    }

    /// The sound request not yet taken.
    pub closed spec fn pending(&self) -> Option<&'static str> {
        self.pending_sfx
    }

    /// Every slot keeps its invariant and runs the variant's alpha mode.
    pub closed spec fn wf(&self) -> bool {
        &&& forall|i: int| 0 <= i < 4 ==> #[trigger] self.slots[i].wf()
        &&& forall|i: int| 0 <= i < 4 ==> #[trigger] self.slots[i].alpha_t == self.cfg.alpha_t
        &&& forall|i: int| 0 <= i < 4 ==> #[trigger] self.slots[i].process == self.slots[0].process
        &&& forall|i: int| 0 <= i < 4 ==> slot_at(self.cfg, i, self.slots[0].process as int, #[trigger] self.slots[i])
    }

    /// Frames stepped.
    pub open spec fn frames(&self) -> u32 {
        self.slot(0).process
    }

    /// An aura of the given variant before its first frame; Portal4 queues
    /// its windwalk sound.
    pub fn new(cfg: PortalWindConfig) -> (s: PortalWindSlots)
        ensures
            s.wf(),
            s.config() == cfg,
            s.frames() == 0,
            s.pending() == (if cfg.play_windwalk_wav { Some(WINDWALK_WAV) } else { None }),
            forall|i: int| 0 <= i < 4 ==> #[trigger] s.slot(i).rot_start_deg == 90 * i
                && s.slot(i).rise_angle_deg == wind_rise(i),
            forall|i: int| 0 <= i < 4 ==> slot_at(cfg, i, 0, #[trigger] s.slot(i)),
    {
        let a = cfg.alpha_t;
        let pending_sfx = if cfg.play_windwalk_wav { Some(WINDWALK_WAV) } else { None };
        PortalWindSlots {
            cfg,
            slots: [WindSlot::new(0, a), WindSlot::new(1, a), WindSlot::new(2, a), WindSlot::new(3, a)],
            pending_sfx,
        }
    }

    /// One native frame: every slot steps.
    pub fn step_one_frame(&mut self)
        requires
            old(self).wf(),
            old(self).frames() < u32::MAX,
        ensures
            final(self).wf(),
            final(self).config() == old(self).config(),
            final(self).pending() == old(self).pending(),
            final(self).frames() == old(self).frames() + 1,
            forall|i: int| 0 <= i < 4 ==> #[trigger] final(self).slot(i).rot_start_deg
                == (old(self).slot(i).rot_start_deg + 5) % 360
                && final(self).slot(i).rise_angle_deg == old(self).slot(i).rise_angle_deg,
            forall|i: int| 0 <= i < 4 ==> slot_at(final(self).config(), i, final(self).frames() as int,
                #[trigger] final(self).slot(i)),
    {
        let mut i: usize = 0;
        while i < 4
            invariant
                i <= 4,
                self.cfg == old(self).cfg,
                self.pending_sfx == old(self).pending_sfx,
                forall|j: int| 0 <= j < 4 ==> #[trigger] old(self).slots[j].wf(),
                forall|j: int| 0 <= j < 4 ==> #[trigger] old(self).slots[j].alpha_t == self.cfg.alpha_t,
                forall|j: int| 0 <= j < 4 ==> #[trigger] old(self).slots[j].process == old(self).slots[0].process,
                old(self).slots[0].process < u32::MAX,
                forall|j: int| 0 <= j < 4 ==> slot_at(self.cfg, j, old(self).slots[0].process as int, #[trigger] old(self).slots[j]),
                forall|j: int| 0 <= j < i ==> {
                    let s = #[trigger] self.slots[j];
                    &&& slot_at(self.cfg, j, old(self).slots[0].process + 1, s)
                    &&& s.wf()
                    &&& s.alpha_t == self.cfg.alpha_t
                    &&& s.process == old(self).slots[0].process + 1
                    &&& s.rot_start_deg == (old(self).slots[j].rot_start_deg + 5) % 360
                    &&& s.rise_angle_deg == old(self).slots[j].rise_angle_deg
                },
                forall|j: int| i <= j < 4 ==> #[trigger] self.slots[j] == old(self).slots[j],
            decreases 4 - i,
        {
            let mut s = self.slots[i];
            proof {
                assert(slot_at(self.cfg, i as int, old(self).slots[0].process as int, old(self).slots[i as int]));
                lemma_turn_step(i as int, old(self).slots[0].process as int);
            }
            s.step();
            self.slots[i] = s;
            i = i + 1;
        }
    }

    /// Hands out the pending sound request (at most once).
    pub fn take_sfx_request(&mut self) -> (r: Option<&'static str>)
        ensures
            r == old(self).pending(),
            final(self).pending() is None,
            final(self).config() == old(self).config(),
            forall|i: int| 0 <= i < 4 ==> #[trigger] final(self).slot(i) == old(self).slot(i),
    {
        self.pending_sfx.take()
    }

    /// Slot `i`'s current state.
    pub fn slot_state(&self, i: usize) -> (r: WindSlot)
        requires
            i < 4,
        ensures
            r == self.slot(i as int),
    {
        self.slots[i]
    }
}

/// Every slot of a well-formed aura sits on its closed form in the aura's
/// frame count.
pub proof fn slots_follow_their_closed_forms(s: PortalWindSlots)
    requires
        s.wf(),
    ensures
        forall|i: int| 0 <= i < 4 ==> slot_at(s.config(), i, s.frames() as int, #[trigger] s.slot(i)),
{
}

/// No slot ever exceeds its alpha cap (110 windwalk, 11 gust) or its arc cap
/// (120° windwalk, 180° gust); windwalk slots are fully faded from frame 75
/// and gust slots from frame 61, inside the aura's 120-frame life.
pub proof fn wind_slots_fade_within_life(s: WindSlot)
    requires
        s.wf(),
    ensures
        s.alpha_t == ALPHA_T_GUST ==> s.alpha_b <= 11 && s.full_display_angle_deg <= 180,
        s.alpha_t != ALPHA_T_GUST ==> s.alpha_b <= 110 && s.full_display_angle_deg <= 120,
        s.alpha_t == ALPHA_T_GUST && s.process >= 61 ==> s.alpha_b == 0,
        s.alpha_t != ALPHA_T_GUST && s.process >= 75 ==> s.alpha_b == 0,
{
}

} // verus!
