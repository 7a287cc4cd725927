//! `EF_PORTAL2` / `EF_PORTAL3` — two-phase GI portal.
//!
//! `Portal2(F1)` launches `PP_HEAL` with 3 vertical
//! ring slots at concentric radii, then overlays `PP_PORTAL` with 3 nearly
//! flat ground rings that sweep outward (default) or inward (CALLPARTNER,
//! `F1==3`).
//!
//! `PrimHeal` spins each slot by `ec + 8` degrees per frame and ramps its
//! alpha `+5` per frame (cap 180) over the first 16 frames, draining `−2` per
//! frame after frame 1400. `PrimPortal` grows a ring's distance by 0.5 per
//! frame (default) or shrinks it by 0.25 per frame (CALLPARTNER); once the
//! ring passes (or, inward, drops below) radius 7 its alpha drains, and when
//! the alpha runs out the ring restarts its pulse (or retires after the
//! control counter passes 1400).
//!
//! Every quantity here moves by whole amounts each frame, so the slots are
//! kept in integers: alphas in `0..=255` units, angles in whole degrees and
//! ring distances in **quarter world units** (`distance_q == 4 * distance`).
//! `collect_draws` lists what a frame draws: the heal pillars, their height
//! `50·sin(p°)` through frame 90 and 50 after, then the live portal rings.
use vstd::prelude::*;
use crate::draw::EffectStatus;

verus! {

/// GRF textures referenced across both Portal2 and Portal3.
pub const TEXTURES: [&'static str; 3] = ["magic_violet.tga", "ring_blue.tga", "ring_red.tga"];

/// Matches the table default — the parent's `m_duration` (99990 ms).
pub const TOTAL_DURATION_MS: u32 = 99990;

/// Textures and branch selection of one portal variant.
#[derive(Clone, Copy)]
pub struct Portal2Config {
    /// PP_HEAL ring texture (`magic_violet.tga` for F1=0, `ring_red.tga` for F1=3).
    pub heal_texture: &'static str,
    /// PP_PORTAL ring texture (`ring_blue.tga` for F1=0, `ring_red.tga` for F1=3).
    pub portal_texture: &'static str,
    /// F1==3 enables `PrimPortal`'s CALLPARTNER branch — distance shrinks,
    /// slower alpha ramp.
    pub call_partner: bool,
}

/// `EF_PORTAL2` (`F1=0`) — violet PP_HEAL + blue PP_PORTAL.
#[allow(non_snake_case)]
pub fn PORTAL2() -> (c: Portal2Config)
    ensures
        c.heal_texture == "magic_violet.tga",
        c.portal_texture == "ring_blue.tga",
        !c.call_partner,
{
    Portal2Config { heal_texture: "magic_violet.tga", portal_texture: "ring_blue.tga", call_partner: false }
}

/// `EF_PORTAL3` (`F1=3`) — red PP_HEAL + red PP_PORTAL, CALLPARTNER.
#[allow(non_snake_case)]
pub fn PORTAL3() -> (c: Portal2Config)
    ensures
        c.heal_texture == "ring_red.tga",
        c.portal_texture == "ring_red.tga",
        c.call_partner,
{
    Portal2Config { heal_texture: "ring_red.tga", portal_texture: "ring_red.tga", call_partner: true }
}

/// Frames over which a heal slot's alpha ramps in.
pub const HEAL_ALPHA_RAMP_FRAMES: u32 = 16;
/// Alpha gained per ramp frame.
pub const HEAL_ALPHA_RAMP_PER_FRAME: u32 = 5;
/// Cap of a heal slot's alpha.
pub const HEAL_ALPHA_RAMP_CAP: u32 = 180;
/// Frame from which a heal slot's alpha drains.
pub const HEAL_ALPHA_FADE_TRIGGER: u32 = 1400;
/// Alpha lost per draining frame.
pub const HEAL_ALPHA_DECAY_PER_FRAME: u32 = 2;
/// Cap of a portal ring's alpha.
pub const PORTAL_ALPHA_CAP: i32 = 240;
/// Control-counter value past which a drained portal ring retires.
pub const PORTAL_RETIRE_AFTER: u32 = 1400;
/// Radius 7, in quarter units, where a ring starts to drain.
pub const PORTAL_DRAIN_RADIUS_Q: i32 = 28;
/// Radius 14, in quarter units, a CALLPARTNER ring restarts from.
pub const CALLPARTNER_RESTART_RADIUS_Q: i32 = 56;

/// Initial spin of heal slot `i`: a fixed per-slot offset in whole degrees
/// (the client draws `random(360)`).
pub open spec fn heal_initial_rot(i: int) -> int {
    if i == 0 { 0 } else if i == 1 { 137 } else { 251 }
}

/// `RotStart += ec + 8`.
pub open spec fn heal_rot_speed(i: int) -> int {
    i + 8
}

/// `m_GI[ec].distance` of the heal slots: 4 / 3 / 2.
pub open spec fn heal_distance(i: int) -> int {
    4 - i
}

/// Staggered start of the portal slots: 0/−10/−20, doubled for CALLPARTNER.
pub open spec fn portal_initial_process(i: int, call_partner: bool) -> int {
    if call_partner { -20 * i } else { -10 * i }
}

/// A heal slot's alpha after `p` frames: `+5` a frame through frame 15
/// (to 75), held, and from frame 1400 on `−2` a frame down to 0.
pub open spec fn heal_alpha_at(p: int) -> int {
    if p < HEAL_ALPHA_FADE_TRIGGER {
        if p < HEAL_ALPHA_RAMP_FRAMES { HEAL_ALPHA_RAMP_PER_FRAME * p } else { 75 }
    } else if 75 - HEAL_ALPHA_DECAY_PER_FRAME * (p - (HEAL_ALPHA_FADE_TRIGGER - 1)) > 0 {
        75 - HEAL_ALPHA_DECAY_PER_FRAME * (p - (HEAL_ALPHA_FADE_TRIGGER - 1))
    } else {
        0
    }
}

/// A heal slot's turn after `p` frames, whole degrees.
pub open spec fn heal_rot_at(i: int, p: int) -> int {
    (heal_initial_rot(i) + heal_rot_speed(i) * p) % 360
}

/// Per-slot state of the PP_HEAL phase.
#[derive(Clone, Copy)]
pub struct HealSlot {
    /// `RotStart`, whole degrees in `0..360`.
    pub rot_start_deg: u32,
    /// Frames stepped.
    pub process: u32,
    /// `alphaB`, `0..=180`.
    pub alpha_b: u32,
    /// Ring radius, world units.
    pub distance: u32,
    /// Degrees turned per frame.
    pub rot_speed_deg: u32,
}

/// The PP_HEAL per-frame rule, applied to a slot's state.
pub open spec fn heal_step(s: HealSlot) -> HealSlot {
    let process = s.process + 1;
    let rise = if process < HEAL_ALPHA_RAMP_FRAMES {
        if s.alpha_b + HEAL_ALPHA_RAMP_PER_FRAME < HEAL_ALPHA_RAMP_CAP {
            s.alpha_b + HEAL_ALPHA_RAMP_PER_FRAME
        } else {
            HEAL_ALPHA_RAMP_CAP as int
        }
    } else {
        s.alpha_b as int
    };
    let alpha = if process >= HEAL_ALPHA_FADE_TRIGGER {
        if rise >= HEAL_ALPHA_DECAY_PER_FRAME { rise - HEAL_ALPHA_DECAY_PER_FRAME } else { 0 }
    } else {
        rise
    };
    HealSlot {
        rot_start_deg: ((s.rot_start_deg + s.rot_speed_deg) % 360) as u32,
        process: process as u32,
        alpha_b: alpha as u32,
        ..s
    }
}

impl HealSlot {
    /// Bounds every heal slot keeps: angle below 360, alpha at most 180,
    /// spin below 360.
    pub open spec fn wf(&self) -> bool {
        &&& self.rot_start_deg < 360
        &&& self.alpha_b <= HEAL_ALPHA_RAMP_CAP
        &&& self.rot_speed_deg < 360
    }

    /// Heal slot `slot_idx` (0, 1 or 2) before its first frame.
    pub fn new(slot_idx: usize) -> (s: HealSlot)
        requires
            slot_idx < 3,
        ensures
            s.wf(),
            s.rot_start_deg == heal_initial_rot(slot_idx as int),
            s.process == 0,
            s.alpha_b == 0,
            s.distance == heal_distance(slot_idx as int),
            s.rot_speed_deg == heal_rot_speed(slot_idx as int),
    {
        let rot = if slot_idx == 0 { 0 } else if slot_idx == 1 { 137 } else { 251 };
        HealSlot {
            rot_start_deg: rot,
            process: 0,
            alpha_b: 0,
            distance: 4 - slot_idx as u32,
            rot_speed_deg: slot_idx as u32 + 8,
        }
    }

    /// One frame of `PrimHeal`: spin, ramp the alpha in over the first 16
    /// frames, drain it after frame 1400.
    pub fn step(&mut self)
        requires
            old(self).wf(),
            old(self).process < u32::MAX,
        ensures
            final(self).wf(),
            *final(self) == heal_step(*old(self)),
    {
        self.process = self.process + 1;
        self.rot_start_deg = (self.rot_start_deg + self.rot_speed_deg) % 360;
        if self.process < HEAL_ALPHA_RAMP_FRAMES {
            self.alpha_b = if self.alpha_b + HEAL_ALPHA_RAMP_PER_FRAME < HEAL_ALPHA_RAMP_CAP {
                self.alpha_b + HEAL_ALPHA_RAMP_PER_FRAME
            } else {
                HEAL_ALPHA_RAMP_CAP
            };
        }
        if self.process >= HEAL_ALPHA_FADE_TRIGGER {
            self.alpha_b = if self.alpha_b >= HEAL_ALPHA_DECAY_PER_FRAME {
                self.alpha_b - HEAL_ALPHA_DECAY_PER_FRAME
            } else {
                0
            };
        }
    }
}

/// Per-slot state of the PP_PORTAL phase.
#[derive(Clone, Copy)]
pub struct PortalSlot {
    /// `RotStart`, whole degrees.
    pub rot_start_deg: u32,
    /// Frames since the current pulse started (negative while staggered).
    pub process: i32,
    /// `alphaB`, `0..=240`.
    pub alpha_b: i32,
    /// Ring radius in quarter world units.
    pub distance_q: i32,
    /// Rise angle of the ring, whole degrees.
    pub rise_angle_deg: u32,
    /// Cleared once the ring has retired.
    pub live: bool,
}

/// The PP_PORTAL per-frame rule (`ctrl` is the control slot's counter).
pub open spec fn portal_step(s: PortalSlot, call_partner: bool, ctrl: int) -> PortalSlot {
    if !s.live {
        s
    } else if s.process + 1 <= 0 {
        PortalSlot { process: (s.process + 1) as i32, ..s }
    } else if call_partner {
        let d1 = s.distance_q - 1;
        let (d2, a2, p2, live2) = if d1 < PORTAL_DRAIN_RADIUS_Q {
            let d = if d1 < 0 { 0 } else { d1 };
            let a = s.alpha_b - 7;
            if a < 0 {
                if ctrl > PORTAL_RETIRE_AFTER {
                    (d, 0, s.process + 1, false)
                } else {
                    (CALLPARTNER_RESTART_RADIUS_Q as int, 0, 0, true)
                }
            } else {
                (d, a, s.process + 1, true)
            }
        } else {
            (d1, s.alpha_b as int, s.process + 1, true)
        };
        let a3 = if p2 < 20 {
            if a2 + 12 < PORTAL_ALPHA_CAP { a2 + 12 } else { PORTAL_ALPHA_CAP as int }
        } else {
            a2
        };
        PortalSlot { process: p2 as i32, alpha_b: a3 as i32, distance_q: d2 as i32, live: live2, ..s }
    } else {
        let d1 = s.distance_q + 2;
        let (d2, a2, p2, live2) = if d1 > PORTAL_DRAIN_RADIUS_Q {
            let a = s.alpha_b - 15;
            if a < 0 {
                if ctrl > PORTAL_RETIRE_AFTER {
                    (d1, 0, s.process + 1, false)
                } else {
                    (0, 0, 0, true)
                }
            } else {
                (d1, a, s.process + 1, true)
            }
        } else {
            (d1, s.alpha_b as int, s.process + 1, true)
        };
        let a3 = if p2 < 10 {
            if a2 + 24 < PORTAL_ALPHA_CAP { a2 + 24 } else { PORTAL_ALPHA_CAP as int }
        } else {
            a2
        };
        PortalSlot { process: p2 as i32, alpha_b: a3 as i32, distance_q: d2 as i32, live: live2, ..s }
    }
}

impl PortalSlot {
    /// Bounds every portal ring keeps: alpha within `0..=240` and radius
    /// within `0..=14` for a CALLPARTNER ring (plus the pulse bookkeeping
    /// that makes those bounds inductive).
    pub open spec fn wf(&self, call_partner: bool) -> bool {
        &&& 0 <= self.alpha_b <= PORTAL_ALPHA_CAP
        &&& -40 <= self.process
        &&& if call_partner { self.inward_pulse_ok() } else { self.outward_pulse_ok() }
    }

    /// Default (outward) pulse: the radius grows 2 quarters per frame from 0,
    /// the alpha ramps `+24` for the first frames and drains `−15` per frame
    /// once the radius passes 7, which caps the pulse at 30 frames.
    pub open spec fn outward_pulse_ok(&self) -> bool {
        let p = self.process as int;
        let a = self.alpha_b as int;
        &&& (p <= 0 ==> self.distance_q == 0)
        &&& (p >= 1 ==> self.distance_q == 2 * p)
        &&& (p < 0 ==> a == 0)
        &&& p <= 31
        &&& self.live ==> {
            &&& (0 <= p <= 9 ==> a <= 24 * (p + 1))
            &&& (p >= 15 ==> a + 15 * (p - 14) <= PORTAL_ALPHA_CAP)
            &&& p <= 30
        }
    }

    /// CALLPARTNER (inward) pulse: a ring restarts at radius 14 and shrinks a
    /// quarter per frame, clamped at 0; the alpha ramps `+12` for the first
    /// frames and drains `−7` per frame once the radius is below 7, which
    /// caps the pulse at 63 frames.
    pub open spec fn inward_pulse_ok(&self) -> bool {
        let p = self.process as int;
        let a = self.alpha_b as int;
        let d = self.distance_q as int;
        &&& 0 <= d <= CALLPARTNER_RESTART_RADIUS_Q
        &&& (p < 0 ==> d == 0 && a == 0)
        &&& (p == 0 ==> (d == 0 && a == 0) || (d == CALLPARTNER_RESTART_RADIUS_Q && a == 12))
        &&& p <= 64
        &&& self.live ==> {
            &&& (p >= 1 ==> d == (if p <= CALLPARTNER_RESTART_RADIUS_Q { CALLPARTNER_RESTART_RADIUS_Q - p } else { 0 }))
            &&& (0 <= p <= 19 ==> a <= 12 * (p + 1))
            &&& (p >= 29 ==> a + 7 * (p - 28) <= PORTAL_ALPHA_CAP)
            &&& p <= 63
        }
    }

    /// Portal slot `slot_idx` (0, 1 or 2) before its first frame.
    pub fn new(slot_idx: usize, call_partner: bool) -> (s: PortalSlot)
        requires
            slot_idx < 3,
        ensures
            s.wf(call_partner),
            s.process == portal_initial_process(slot_idx as int, call_partner),
            s.alpha_b == 0,
            s.distance_q == 0,
            s.live,
            s.rot_start_deg == 25 * slot_idx,
            s.rise_angle_deg == 2 + slot_idx,
    {
        let stagger: i32 = if slot_idx == 0 { 0 } else if slot_idx == 1 { -10 } else { -20 };
        let process: i32 = if call_partner { 2 * stagger } else { stagger };
        PortalSlot {
            rot_start_deg: 25 * slot_idx as u32,
            process,
            alpha_b: 0,
            distance_q: 0,
            rise_angle_deg: 2 + slot_idx as u32,
            live: true,
        }
    }

    /// One frame of `PrimPortal`. `ctrl_process` is the parent control
    /// slot's counter (`m_GI[3].process`), which decides whether a drained
    /// ring restarts or retires.
    pub fn step(&mut self, call_partner: bool, ctrl_process: u32)
        requires
            old(self).wf(call_partner),
        ensures
            final(self).wf(call_partner),
            *final(self) == portal_step(*old(self), call_partner, ctrl_process as int),
    {
        if !self.live {
            return;
        }
        self.process = self.process + 1;
        if self.process <= 0 {
            return;
        }
        if call_partner {
            self.distance_q = self.distance_q - 1;
            if self.distance_q < PORTAL_DRAIN_RADIUS_Q {
                if self.distance_q < 0 {
                    self.distance_q = 0;
                }
                self.alpha_b = self.alpha_b - 7;
                if self.alpha_b < 0 {
                    self.alpha_b = 0;
                    if ctrl_process > PORTAL_RETIRE_AFTER {
                        self.live = false;
                    } else {
                        self.process = 0;
                        self.distance_q = CALLPARTNER_RESTART_RADIUS_Q;
                    }
                }
            }
            if self.process < 20 {
                self.alpha_b = if self.alpha_b + 12 < PORTAL_ALPHA_CAP {
                    self.alpha_b + 12
                } else {
                    PORTAL_ALPHA_CAP
                };
            }
        } else {
            self.distance_q = self.distance_q + 2;
            if self.distance_q > PORTAL_DRAIN_RADIUS_Q {
                self.alpha_b = self.alpha_b - 15;
                if self.alpha_b < 0 {
                    self.alpha_b = 0;
                    if ctrl_process > PORTAL_RETIRE_AFTER {
                        self.live = false;
                    } else {
                        self.process = 0;
                        self.distance_q = 0;
                    }
                }
            }
            if self.process < 10 {
                self.alpha_b = if self.alpha_b + 24 < PORTAL_ALPHA_CAP {
                    self.alpha_b + 24
                } else {
                    PORTAL_ALPHA_CAP
                };
            }
        }
    }
}

/// One heal step moves a slot on its closed-form alpha and turn.
proof fn lemma_heal_step_closed_form(i: int, h: HealSlot)
    requires
        0 <= i < 3,
        h.alpha_b == heal_alpha_at(h.process as int),
        h.rot_start_deg == heal_rot_at(i, h.process as int),
        h.rot_speed_deg == heal_rot_speed(i),
        h.process < u32::MAX,
    ensures
        heal_step(h).alpha_b == heal_alpha_at(h.process + 1),
        heal_step(h).rot_start_deg == heal_rot_at(i, h.process + 1),
{
    let p = h.process as int;
    let a = heal_initial_rot(i) + heal_rot_speed(i) * p;
    assert(heal_initial_rot(i) + heal_rot_speed(i) * (p + 1) == a + heal_rot_speed(i)) by (nonlinear_arith)
        requires
            a == heal_initial_rot(i) + heal_rot_speed(i) * p,
    ;
    vstd::arithmetic::div_mod::lemma_add_mod_noop(a, heal_rot_speed(i), 360);
    vstd::arithmetic::div_mod::lemma_small_mod(heal_rot_speed(i) as nat, 360);
    assert(a >= 0) by (nonlinear_arith)
        requires
            a == heal_initial_rot(i) + heal_rot_speed(i) * p,
            heal_initial_rot(i) >= 0,
            heal_rot_speed(i) >= 0,
            p >= 0,
    ;
    vstd::arithmetic::div_mod::lemma_mod_bound(a, 360);
}

/// The frame-level state of one portal: its three PP_HEAL slots, its three
/// PP_PORTAL slots and the PP_PORTAL control counter (`m_GI[3].process`).
pub struct Portal2Slots {
    call_partner: bool,
    heal: [HealSlot; 3],
    portal: [PortalSlot; 3],
    ctrl_process: u32,
}

impl Portal2Slots {
    /// Whether this portal runs the CALLPARTNER (inward) branch.
    pub closed spec fn call_partner(&self) -> bool {
        self.call_partner
    }

    /// Heal slot `i`.
    pub closed spec fn heal_slot(&self, i: int) -> HealSlot {
        self.heal[i]
    }

    /// Portal slot `i`.
    pub closed spec fn portal_slot(&self, i: int) -> PortalSlot {
        self.portal[i]
    }

    /// Frames stepped (the control counter).
    pub closed spec fn frames(&self) -> u32 {
        self.ctrl_process
    }

    /// Every slot keeps its bounds and the heal slots have stepped once per
    /// frame.
    pub closed spec fn wf(&self) -> bool {
        &&& forall|i: int| 0 <= i < 3 ==> #[trigger] self.heal[i].wf()
        &&& forall|i: int| 0 <= i < 3 ==> #[trigger] self.heal[i].process == self.ctrl_process
        &&& forall|i: int| 0 <= i < 3 ==> #[trigger] self.heal[i].alpha_b == heal_alpha_at(self.ctrl_process as int)
        &&& forall|i: int| 0 <= i < 3 ==> #[trigger] self.heal[i].rot_start_deg == heal_rot_at(i, self.ctrl_process as int)
        &&& forall|i: int| 0 <= i < 3 ==> #[trigger] self.heal[i].distance == heal_distance(i)
        &&& forall|i: int| 0 <= i < 3 ==> #[trigger] self.heal[i].rot_speed_deg == heal_rot_speed(i)
        &&& forall|i: int| 0 <= i < 3 ==> #[trigger] self.portal[i].wf(self.call_partner)
    }

    /// A portal of the given variant before its first frame.
    pub fn new(cfg: Portal2Config) -> (s: Portal2Slots)
        ensures
            s.wf(),
            s.call_partner() == cfg.call_partner,
            s.frames() == 0,
            forall|i: int| 0 <= i < 3 ==> #[trigger] s.heal_slot(i).rot_start_deg == heal_initial_rot(i)
                && s.heal_slot(i).alpha_b == 0 && s.heal_slot(i).distance == heal_distance(i)
                && s.heal_slot(i).process == 0 && s.heal_slot(i).rot_speed_deg == heal_rot_speed(i),
            forall|i: int| 0 <= i < 3 ==> #[trigger] s.portal_slot(i).process
                == portal_initial_process(i, cfg.call_partner) && s.portal_slot(i).alpha_b == 0
                && s.portal_slot(i).distance_q == 0 && s.portal_slot(i).live,
    {
        let cp = cfg.call_partner;
        Portal2Slots {
            call_partner: cp,
            heal: [HealSlot::new(0), HealSlot::new(1), HealSlot::new(2)],
            portal: [PortalSlot::new(0, cp), PortalSlot::new(1, cp), PortalSlot::new(2, cp)],
            ctrl_process: 0,
        }
    }

    /// One native frame: every heal slot steps, the control counter
    /// advances, then every portal slot steps against the new counter.
    pub fn step_one_frame(&mut self)
        requires
            old(self).wf(),
            old(self).frames() < u32::MAX,
        ensures
            final(self).wf(),
            final(self).call_partner() == old(self).call_partner(),
            final(self).frames() == old(self).frames() + 1,
            forall|i: int| 0 <= i < 3 ==> #[trigger] final(self).heal_slot(i)
                == heal_step(old(self).heal_slot(i)),
            forall|i: int| 0 <= i < 3 ==> {
                let h = #[trigger] final(self).heal_slot(i);
                &&& h.process == final(self).frames()
                &&& h.alpha_b == heal_alpha_at(final(self).frames() as int)
                &&& h.rot_start_deg == heal_rot_at(i, final(self).frames() as int)
                &&& h.distance == heal_distance(i)
                &&& h.rot_speed_deg == heal_rot_speed(i)
            },
            forall|i: int| 0 <= i < 3 ==> #[trigger] final(self).portal_slot(i)
                == portal_step(old(self).portal_slot(i), old(self).call_partner(), old(self).frames() + 1),
    {
        let mut i: usize = 0;
        while i < 3
            invariant
                i <= 3,
                self.call_partner == old(self).call_partner,
                self.portal == old(self).portal,
                self.ctrl_process == old(self).ctrl_process,
                self.ctrl_process < u32::MAX,
                forall|j: int| 0 <= j < 3 ==> #[trigger] old(self).heal[j].wf(),
                forall|j: int| 0 <= j < 3 ==> #[trigger] old(self).heal[j].process == self.ctrl_process,
                forall|j: int| 0 <= j < i ==> #[trigger] self.heal[j] == heal_step(old(self).heal[j]),
                forall|j: int| i <= j < 3 ==> #[trigger] self.heal[j] == old(self).heal[j],
            decreases 3 - i,
        {
            let mut h = self.heal[i];
            h.step();
            self.heal[i] = h;
            i = i + 1;
        }
        self.ctrl_process = self.ctrl_process + 1;
        let ctrl = self.ctrl_process;
        let cp = self.call_partner;
        let mut k: usize = 0;
        while k < 3
            invariant
                k <= 3,
                self.call_partner == cp,
                cp == old(self).call_partner,
                self.ctrl_process == ctrl,
                ctrl == old(self).ctrl_process + 1,
                forall|j: int| 0 <= j < 3 ==> #[trigger] self.heal[j] == heal_step(old(self).heal[j]),
                forall|j: int| 0 <= j < 3 ==> #[trigger] old(self).portal[j].wf(cp),
                forall|j: int| 0 <= j < k ==> #[trigger] self.portal[j]
                    == portal_step(old(self).portal[j], cp, ctrl as int),
                forall|j: int| k <= j < 3 ==> #[trigger] self.portal[j] == old(self).portal[j],
            decreases 3 - k,
        {
            let mut p = self.portal[k];
            p.step(cp, ctrl);
            self.portal[k] = p;
            k = k + 1;
        }
        proof {
            assert forall|j: int| 0 <= j < 3 implies #[trigger] self.heal[j].wf() by {
                assert(old(self).heal[j].wf());
            }
            assert forall|j: int|
                #![trigger self.heal[j].alpha_b]
                #![trigger self.heal[j].rot_start_deg]
                #![trigger self.heal[j].process]
                #![trigger self.heal[j].distance]
                #![trigger self.heal[j].rot_speed_deg]
                0 <= j < 3 implies {
                &&& self.heal[j].alpha_b == heal_alpha_at(ctrl as int)
                &&& self.heal[j].rot_start_deg == heal_rot_at(j, ctrl as int)
                &&& self.heal[j].process == ctrl
                &&& self.heal[j].distance == heal_distance(j)
                &&& self.heal[j].rot_speed_deg == heal_rot_speed(j)
            } by {
                assert(old(self).heal[j].alpha_b == heal_alpha_at(old(self).ctrl_process as int));
                assert(old(self).heal[j].rot_start_deg == heal_rot_at(j, old(self).ctrl_process as int));
                assert(old(self).heal[j].process == old(self).ctrl_process);
                assert(old(self).heal[j].distance == heal_distance(j));
                assert(old(self).heal[j].rot_speed_deg == heal_rot_speed(j));
                lemma_heal_step_closed_form(j, old(self).heal[j]);
            }
            assert forall|j: int| 0 <= j < 3 implies #[trigger] self.portal[j].wf(cp) by {
                assert(old(self).portal[j].wf(cp));
            }
        }
    }

    /// Frames stepped so far.
    pub fn frame_count(&self) -> (r: u32)
        ensures
            r == self.frames(),
    {
        self.ctrl_process
    }

    /// Heal slot `i`'s current state.
    pub fn heal(&self, i: usize) -> (r: HealSlot)
        requires
            i < 3,
        ensures
            r == self.heal_slot(i as int),
    {
        self.heal[i]
    }

    /// Portal slot `i`'s current state.
    pub fn portal(&self, i: usize) -> (r: PortalSlot)
        requires
            i < 3,
        ensures
            r == self.portal_slot(i as int),
    {
        self.portal[i]
    }
}

/// The portal reports `Dead` once its table length, 99990 ms, has passed:
/// from frame 6000 on (99990 ms is 5999.4 frames).
pub fn status_at(frame: u32) -> (s: EffectStatus)
    ensures
        s == (if frame * 1000 >= TOTAL_DURATION_MS * 60 { EffectStatus::Dead } else { EffectStatus::Running }),
        (s == EffectStatus::Dead) <==> frame >= 6000,
{
    if frame as u64 * 1000 >= TOTAL_DURATION_MS as u64 * 60 { EffectStatus::Dead } else { EffectStatus::Running }
}

/// Number of the three portal rings that are drawn: live with a positive
/// alpha.
pub open spec fn drawn_portal_rings(s: Portal2Slots) -> int {
    (if s.portal_slot(0).live && s.portal_slot(0).alpha_b > 0 { 1int } else { 0int })
        + (if s.portal_slot(1).live && s.portal_slot(1).alpha_b > 0 { 1int } else { 0int })
        + (if s.portal_slot(2).live && s.portal_slot(2).alpha_b > 0 { 1int } else { 0int })
}

impl Portal2Slots {
    /// How many PP_PORTAL rings the renderer draws this frame.
    pub fn portal_rings_drawn(&self) -> (r: usize)
        ensures
            r == drawn_portal_rings(*self),
    {
        let mut n: usize = 0;
        if self.portal[0].live && self.portal[0].alpha_b > 0 {
            n = n + 1;
        }
        if self.portal[1].live && self.portal[1].alpha_b > 0 {
            n = n + 1;
        }
        if self.portal[2].live && self.portal[2].alpha_b > 0 {
            n = n + 1;
        }
        n
    }
}

/// Height of a drawn pillar or ring: its full height times the sine of an
/// angle while it ramps up, then its full height (50 units for a heal
/// pillar, 6.001 for a portal ring).
#[derive(Clone, Copy, Debug, PartialEq, Eq, Structural)]
pub enum RampHeight {
    /// Full height times `sin(angle_deg°)`.
    Rising { angle_deg: u32 },
    /// Full height.
    Full,
}

/// One primitive of a portal's frame, as its integer parameters; both
/// kinds are additive frustums around the portal's anchor.
#[derive(Clone, Copy, Debug, PartialEq, Eq, Structural)]
pub enum Portal2Primitive {
    /// A vertical PP_HEAL pillar: radius in world units, turn in degrees,
    /// alpha of 255, and its height.
    HealPillar { radius: u32, rot_deg: u32, alpha_b: u32, height: RampHeight },
    /// A nearly flat PP_PORTAL ring: radius in quarter units, turn in
    /// degrees, lean in degrees, alpha of 255, and its height.
    PortalRing { radius_q: i32, rot_deg: u32, rise_angle_deg: u32, alpha_b: i32, height: RampHeight },
}

/// Heal pillars reach their 50-unit height over their first 90 frames.
pub const HEAL_HEIGHT_RAMP_FRAMES: u32 = 90;

/// Heal pillar `i` after `p` frames.
pub open spec fn heal_pillar(i: int, p: int) -> Portal2Primitive {
    Portal2Primitive::HealPillar {
        radius: heal_distance(i) as u32,
        rot_deg: heal_rot_at(i, p) as u32,
        alpha_b: heal_alpha_at(p) as u32,
        height: if p <= HEAL_HEIGHT_RAMP_FRAMES { RampHeight::Rising { angle_deg: p as u32 } } else { RampHeight::Full },
    }
}

/// The heal pillars drawn after `p` frames: all three while their shared
/// alpha is positive, none otherwise.
pub open spec fn heal_pillars(p: int) -> Seq<Portal2Primitive> {
    if heal_alpha_at(p) > 0 { seq![heal_pillar(0, p), heal_pillar(1, p), heal_pillar(2, p)] } else { Seq::empty() }
}

/// The ring a portal slot draws: its height ramps as `sin(9°·process)`
/// over its first 10 frames.
pub open spec fn portal_ring(s: PortalSlot) -> Portal2Primitive {
    Portal2Primitive::PortalRing {
        radius_q: s.distance_q,
        rot_deg: s.rot_start_deg,
        rise_angle_deg: s.rise_angle_deg,
        alpha_b: s.alpha_b,
        height: if 0 < s.process <= 10 { RampHeight::Rising { angle_deg: (9 * s.process) as u32 } } else { RampHeight::Full },
    }
}

/// The ring of a slot, if it is drawn: live with a positive alpha.
pub open spec fn portal_rings_of(s: PortalSlot) -> Seq<Portal2Primitive> {
    if s.live && s.alpha_b > 0 { seq![portal_ring(s)] } else { Seq::empty() }
}

/// Everything a portal draws on its current frame, in order: the heal
/// pillars, then the portal rings of slots 0, 1 and 2.
pub open spec fn portal2_draw_list(s: Portal2Slots) -> Seq<Portal2Primitive> {
    heal_pillars(s.frames() as int) + portal_rings_of(s.portal_slot(0)) + portal_rings_of(s.portal_slot(1))
        + portal_rings_of(s.portal_slot(2))
}

fn push_portal_ring(out: &mut Vec<Portal2Primitive>, s: &PortalSlot)
    ensures
        final(out)@ == old(out)@ + portal_rings_of(*s),
{
    if s.live && s.alpha_b > 0 {
        let height = if 0 < s.process && s.process <= 10 {
            RampHeight::Rising { angle_deg: (9 * s.process) as u32 }
        } else {
            RampHeight::Full
        };
        out.push(Portal2Primitive::PortalRing {
            radius_q: s.distance_q,
            rot_deg: s.rot_start_deg,
            rise_angle_deg: s.rise_angle_deg,
            alpha_b: s.alpha_b,
            height,
        });
        assert(final(out)@ =~= old(out)@ + portal_rings_of(*s));
    } else {
        assert(out@ =~= old(out)@ + portal_rings_of(*s));
    }
}

impl Portal2Slots {
    /// The frame's primitives, appended to `out`.
    pub fn collect_draws(&self, out: &mut Vec<Portal2Primitive>)
        requires
            self.wf(),
        ensures
            final(out)@ == old(out)@ + portal2_draw_list(*self),
    {
        let ghost l0 = out@;
        let p = self.ctrl_process;
        if self.heal[0].alpha_b > 0 {
            let mut i: usize = 0;
            while i < 3
                invariant
                    self.wf(),
                    p == self.ctrl_process,
                    heal_alpha_at(p as int) > 0,
                    i <= 3,
                    out@ =~= l0 + heal_pillars(p as int).take(i as int),
                decreases 3 - i,
            {
                let h = self.heal[i];
                assert(h == self.heal[i as int]);
                let height = if h.process <= HEAL_HEIGHT_RAMP_FRAMES {
                    RampHeight::Rising { angle_deg: h.process }
                } else {
                    RampHeight::Full
                };
                out.push(Portal2Primitive::HealPillar { radius: h.distance, rot_deg: h.rot_start_deg, alpha_b: h.alpha_b, height });
                assert(heal_pillars(p as int).take(i + 1) =~= heal_pillars(p as int).take(i as int).push(heal_pillar(i as int, p as int)));
                i = i + 1;
            }
            assert(heal_pillars(p as int).take(3) =~= heal_pillars(p as int));
        } else {
            assert(heal_pillars(p as int) =~= Seq::<Portal2Primitive>::empty());
            assert(out@ =~= l0 + heal_pillars(p as int));
        }
        push_portal_ring(out, &self.portal[0]);
        push_portal_ring(out, &self.portal[1]);
        push_portal_ring(out, &self.portal[2]);
    }
}

/// A CALLPARTNER ring never grows past radius 14 (56 quarter units) nor below
/// 0, and no portal ring's alpha ever leaves `0..=240`, in every state a
/// portal reaches.
pub proof fn portal_rings_stay_bounded(s: Portal2Slots, i: int)
    requires
        s.wf(),
        0 <= i < 3,
    ensures
        0 <= s.portal_slot(i).alpha_b <= PORTAL_ALPHA_CAP,
        s.call_partner() ==> 0 <= s.portal_slot(i).distance_q <= CALLPARTNER_RESTART_RADIUS_Q,
        s.heal_slot(i).rot_start_deg < 360,
        s.heal_slot(i).alpha_b <= HEAL_ALPHA_RAMP_CAP,
{
    assert(s.portal[i].wf(s.call_partner));
    assert(s.heal[i].wf());
}

} // verus!
