//! SphereWind family — `EF_SPHEREWIND` (346), `EF_SPHEREWIND2` (394),
//! `EF_SPHEREWIND3` and `EF_BABY` (408): orbiting-ribbon energy spheres that
//! wreathe the caster.
//!
//! Each effect is spawned by calling the handler five times
//! (`for i in 0,9,18,27,36`); every call launches one primitive with four
//! sub-emitters (`ec = 0..4`), so one effect is **20 ribbons** whose
//! `rise_angle` fans across `0..171°` (`ec * 45 + i`).
//!
//! * The persistent auras (346 / 394 / SphereWind3) only spin each ribbon
//!   (`RotStart += 3..6°` per frame) at a constant alpha of 100.
//! * **Baby** (408) is transient (`PrimSphereWind2`): each ribbon waits
//!   `random(20)` frames, fades in `+2` per frame for 25 frames, holds until
//!   frame 70, fades `−2` per frame and is retired when its alpha runs out;
//!   its rise angle drifts 1–2° per frame. Every ribbon has finished by frame
//!   114, within the effect's 120-frame (2000 ms) budget.
//!
//! This module holds the ribbons' frame-level state in whole degrees and
//! `0..=255` alpha units; the orbit radius (which grows ×1.01 per active
//! Baby frame) and band widths are applied by the renderer from
//! `process` and `max_height_steps`.
use vstd::prelude::*;
use crate::rng::{Rng, lcg_step, lcg_iter};
use crate::draw::EffectStatus;

verus! {

pub const TEXTURES: [&'static str; 2] = ["blue_ivy.bmp", "fire_ivy.bmp"];

/// Persistent buff auras run until the buff is removed.
pub const PERSISTENT_DURATION_MS: u32 = 4_294_967_295;
/// Baby's last ribbon has faded by frame 114; 2000 ms (120 frames) lets every
/// ribbon finish.
pub const BABY_TOTAL_DURATION_MS: u32 = 2000;
/// Ribbons per effect: five launches of four sub-emitters.
pub const RIBBON_COUNT: usize = 20;
/// Alpha of every persistent ribbon (`alphaB = 100`).
pub const PERSISTENT_ALPHA: i32 = 100;
/// Frame by which every Baby ribbon has been retired.
pub const BABY_LAST_FRAME: u32 = 114;

/// Ribbon state in whole degrees and `0..=255` alpha units.
#[derive(Clone, Copy, Debug)]
pub struct Ribbon {
    /// `rise_angle`, degrees in `0..360`.
    pub rise_angle_deg: u32,
    /// `RotStart`, degrees in `0..360`.
    pub rot_start_deg: u32,
    /// Spin per frame, `3..=6` degrees.
    pub spin_deg: u32,
    /// `random(11)`: the band half-width is `max_height_base + steps * step`.
    pub max_height_steps: u32,
    /// `full_display_angle`, `180..=270` degrees.
    pub full_display_deg: u32,
    /// `process`; negative on Baby ribbons while their start is delayed.
    pub process: i32,
    /// `alphaB`.
    pub alpha: i32,
    /// Cleared when a Baby ribbon has faded out.
    pub alive: bool,
}

/// Rise angle of ribbon `j`: launch `j / 4` at offset `9 * (j / 4)`,
/// sub-emitter `j % 4` at `45 * (j % 4)`.
pub open spec fn ribbon_rise(j: int) -> int {
    45 * (j % 4) + 9 * (j / 4)
}

/// Generator draws each ribbon consumes at spawn: 4, or 5 for Baby.
pub open spec fn draws_per_ribbon(transient: bool) -> int {
    if transient { 5 } else { 4 }
}

/// A Baby ribbon's alpha at `process` `p`: `+2` per frame to 50 over 25
/// frames, hold to frame 70, then `−2` per frame.
pub open spec fn baby_alpha_at(p: int) -> int {
    if p <= 0 {
        0
    } else if p <= 25 {
        2 * p
    } else if p <= 70 {
        50
    } else {
        50 - 2 * (p - 70)
    }
}

/// `wrap360` on whole degrees.
pub open spec fn wrap360(deg: int) -> int {
    deg % 360
}

/// The spawn-time state of ribbon `j`, drawn from the generator stream that
/// starts at `s0` (draw `k` of the stream is `lcg_iter(s0, k)`).
#[verifier::opaque]
pub open spec fn spawned_ribbon(s0: u32, transient: bool, j: int) -> Ribbon {
    let base = draws_per_ribbon(transient) * j;
    Ribbon {
        rise_angle_deg: ribbon_rise(j) as u32,
        rot_start_deg: lcg_iter(s0, (base + 2) as nat) % 360,
        spin_deg: (3 + lcg_iter(s0, (base + 3) as nat) % 4) as u32,
        max_height_steps: lcg_iter(s0, (base + 1) as nat) % 11,
        full_display_deg: (180 + lcg_iter(s0, (base + 4) as nat) % 91) as u32,
        process: if transient { -((lcg_iter(s0, (base + 5) as nat) % 20) as int) as i32 } else { 0 },
        alpha: if transient { 0 } else { PERSISTENT_ALPHA },
        alive: true,
    }
}

/// Per-ribbon bounds: angles below 360, spin `3..=6`; a persistent ribbon
/// keeps alpha 100 and process 0; a live Baby ribbon is on its fade curve
/// and not yet past frame 94 of its life.
pub open spec fn ribbon_ok(r: Ribbon, transient: bool) -> bool {
    &&& r.rise_angle_deg < 360
    &&& r.rot_start_deg < 360
    &&& 3 <= r.spin_deg <= 6
    &&& r.alive
    &&& if transient {
        &&& -19 <= r.process <= 94
        &&& r.alpha == baby_alpha_at(r.process as int)
    } else {
        &&& r.process == 0
        &&& r.alpha == PERSISTENT_ALPHA
    }
}

/// One frame of a ribbon given the coin `flip` the generator supplies to a
/// live, started Baby ribbon (`random(2) == 0` adds an extra degree of rise).
pub open spec fn ribbon_step(r: Ribbon, transient: bool, flip: bool) -> Ribbon {
    if !transient {
        Ribbon { rot_start_deg: wrap360(r.rot_start_deg + r.spin_deg) as u32, ..r }
    } else if r.process + 1 <= 0 {
        Ribbon { process: (r.process + 1) as i32, ..r }
    } else {
        let p = r.process + 1;
        let (a, alive) = if p <= 25 {
            (r.alpha + 2, true)
        } else if p > 70 {
            if r.alpha - 2 <= 0 { (0, false) } else { (r.alpha - 2, true) }
        } else {
            (r.alpha as int, true)
        };
        let rise = r.rise_angle_deg + 1 + (if flip { 1int } else { 0int });
        Ribbon {
            process: p as i32,
            alpha: a as i32,
            alive,
            rise_angle_deg: wrap360(rise) as u32,
            rot_start_deg: wrap360(r.rot_start_deg + r.spin_deg) as u32,
            ..r
        }
    }
}

/// One Baby frame over a ribbon list, left to right, starting from generator
/// state `state`: each started ribbon consumes one draw (`random(2) == 0`
/// adds a degree of rise), and ribbons that faded out are dropped. Returns
/// the surviving ribbons and the generator's new state.
pub open spec fn baby_step_all(rs: Seq<Ribbon>, state: u32) -> (Seq<Ribbon>, u32)
    decreases rs.len(),
{
    if rs.len() == 0 {
        (Seq::empty(), state)
    } else {
        let (kept, st) = baby_step_all(rs.drop_last(), state);
        let r = rs.last();
        if r.process + 1 <= 0 {
            (kept.push(ribbon_step(r, true, false)), st)
        } else {
            let st2 = lcg_step(st);
            let r2 = ribbon_step(r, true, st2 % 2 == 0);
            (if r2.alive { kept.push(r2) } else { kept }, st2)
        }
    }
}

/// A persistent ribbon after `n` frames: its start angle has turned `n`
/// times its spin, within one turn; nothing else changes.
pub open spec fn spun_ribbon(r: Ribbon, n: nat) -> Ribbon {
    Ribbon { rot_start_deg: ((r.rot_start_deg + n * r.spin_deg) % 360) as u32, ..r }
}

/// Baby ribbons and generator state after `n` frames from `(rs, state)`:
/// [`baby_step_all`] applied `n` times.
pub open spec fn baby_after(rs: Seq<Ribbon>, state: u32, n: nat) -> (Seq<Ribbon>, u32)
    decreases n,
{
    if n == 0 {
        (rs, state)
    } else {
        let (r1, s1) = baby_after(rs, state, (n - 1) as nat);
        baby_step_all(r1, s1)
    }
}

/// One more frame of a spun ribbon is the ribbon spun one frame further.
proof fn spin_one_more(r: Ribbon, k: nat)
    ensures
        ribbon_step(spun_ribbon(r, k), false, false) == spun_ribbon(r, k + 1),
{
    let x = r.rot_start_deg + k * r.spin_deg;
    let s = r.spin_deg as int;
    assert(x >= 0) by (nonlinear_arith)
        requires
            x == r.rot_start_deg + k * r.spin_deg,
    ;
    assert((k + 1) * s == k * s + s) by (nonlinear_arith);
    vstd::arithmetic::div_mod::lemma_add_mod_noop(x, s, 360);
    vstd::arithmetic::div_mod::lemma_mod_twice(s, 360);
    vstd::arithmetic::div_mod::lemma_add_mod_noop(x % 360, s, 360);
    vstd::arithmetic::div_mod::lemma_mod_twice(x, 360);
}

/// The twenty ribbons of one sphere, the generator that drives Baby's rise
/// drift, and the frame count.
pub struct SphereRibbons {
    ribbons: Vec<Ribbon>,
    rng: Rng,
    transient: bool,
    frames: Ghost<nat>,
}

impl SphereRibbons {
    /// Live ribbons, in spawn order.
    pub closed spec fn ribbons_spec(&self) -> Seq<Ribbon> {
        self.ribbons@
    }

    /// Whether this is the transient Baby variant.
    pub closed spec fn is_transient(&self) -> bool {
        self.transient
    }

    /// Frames stepped.
    pub closed spec fn frames_spec(&self) -> nat {
        self.frames@
    }

    /// State of the generator driving the rise drift.
    pub closed spec fn rng_state(&self) -> u32 {
        self.rng.state()
    }

    /// Every ribbon keeps [`ribbon_ok`], and a Baby ribbon has aged exactly
    /// once per frame from its spawn delay of at most 19 frames.
    pub closed spec fn wf(&self) -> bool {
        &&& forall|i: int| 0 <= i < self.ribbons@.len() ==> {
            let r = #[trigger] self.ribbons@[i];
            &&& ribbon_ok(r, self.transient)
            &&& self.transient ==> self.frames@ - 19 <= r.process <= self.frames@
        }
        &&& !self.transient ==> self.ribbons@.len() == RIBBON_COUNT
    }

    /// Spawns the twenty ribbons from `seed` (the generator is scrambled with
    /// [`Rng::from_seed`] first): per ribbon `random(11)` band steps,
    /// `random(360)` start angle, `3 + random(4)` spin, `180 + random(91)`
    /// arc, and for Baby a `random(20)` start delay.
    pub fn new(seed: u32, transient: bool) -> (s: SphereRibbons)
        ensures
            s.wf(),
            s.is_transient() == transient,
            s.frames_spec() == 0,
            s.ribbons_spec().len() == RIBBON_COUNT,
            forall|j: int| 0 <= j < RIBBON_COUNT ==> #[trigger] s.ribbons_spec()[j]
                == spawned_ribbon(crate::rng::scramble(seed), transient, j),
    {
        let mut rng = Rng::from_seed(seed);
        let ghost s0 = rng.state();
        let mut ribbons: Vec<Ribbon> = Vec::new();
        let mut j: usize = 0;
        while j < RIBBON_COUNT
            invariant
                j <= RIBBON_COUNT,
                s0 == crate::rng::scramble(seed),
                ribbons@.len() == j,
                rng.state() == lcg_iter(s0, (draws_per_ribbon(transient) * j) as nat),
                forall|i: int| 0 <= i < j ==> #[trigger] ribbons@[i] == spawned_ribbon(s0, transient, i),
                forall|i: int| 0 <= i < j ==> {
                    let r = #[trigger] ribbons@[i];
                    &&& ribbon_ok(r, transient)
                    &&& transient ==> -19 <= r.process <= 0
                },
            decreases RIBBON_COUNT - j,
        {
            let ghost base = draws_per_ribbon(transient) * j;
            let max_height_steps = rng.random(11);
            let rot_start_deg = rng.random(360);
            let spin_deg = 3 + rng.random(4);
            let full_display_deg = 180 + rng.random(91);
            let process: i32 = if transient { -(rng.random(20) as i32) } else { 0 };
            proof {
                assert(lcg_iter(s0, (base + 1) as nat) == lcg_step(lcg_iter(s0, base as nat)));
                assert(lcg_iter(s0, (base + 2) as nat) == lcg_step(lcg_iter(s0, (base + 1) as nat)));
                assert(lcg_iter(s0, (base + 3) as nat) == lcg_step(lcg_iter(s0, (base + 2) as nat)));
                assert(lcg_iter(s0, (base + 4) as nat) == lcg_step(lcg_iter(s0, (base + 3) as nat)));
                assert(lcg_iter(s0, (base + 5) as nat) == lcg_step(lcg_iter(s0, (base + 4) as nat)));
            }
            let rise = 45 * (j as u32 % 4) + 9 * (j as u32 / 4);
            let rb = Ribbon {
                rise_angle_deg: rise,
                rot_start_deg,
                spin_deg,
                max_height_steps,
                full_display_deg,
                process,
                alpha: if transient { 0 } else { PERSISTENT_ALPHA },
                alive: true,
            };
            proof {
                reveal(spawned_ribbon);
                assert(rb == spawned_ribbon(s0, transient, j as int));
            }
            ribbons.push(rb);
            j = j + 1;
        }
        SphereRibbons { ribbons, rng, transient, frames: Ghost(0) }
    }

    /// One native frame: the persistent ribbons spin; each Baby ribbon ages,
    /// fades in or out, drifts its rise angle (one generator draw per live,
    /// started ribbon) and spins; ribbons that have faded out are dropped.
    pub fn step_frame(&mut self)
        requires
            old(self).wf(),
        ensures
            final(self).wf(),
            final(self).is_transient() == old(self).is_transient(),
            final(self).frames_spec() == old(self).frames_spec() + 1,
            !old(self).is_transient() ==> forall|i: int| 0 <= i < RIBBON_COUNT ==>
                #[trigger] final(self).ribbons_spec()[i] == ribbon_step(old(self).ribbons_spec()[i], false, false),
            !old(self).is_transient() ==> final(self).rng_state() == old(self).rng_state(),
            old(self).is_transient() ==> (final(self).ribbons_spec(), final(self).rng_state())
                == baby_step_all(old(self).ribbons_spec(), old(self).rng_state()),
    {
        let transient = self.transient;
        let ghost frames = self.frames@;
        let ghost pre = self.ribbons@;
        let ghost st0 = self.rng.state();
        let n = self.ribbons.len();
        let mut kept: Vec<Ribbon> = Vec::new();
        let mut i: usize = 0;
        while i < n
            invariant
                n == self.ribbons@.len(),
                self.ribbons@ == pre,
                self.transient == transient,
                self.frames@ == frames,
                i <= n,
                !transient ==> kept@.len() == i,
                !transient ==> n == RIBBON_COUNT,
                forall|j: int| 0 <= j < pre.len() ==> {
                    let r = #[trigger] pre[j];
                    &&& ribbon_ok(r, transient)
                    &&& transient ==> frames - 19 <= r.process <= frames
                },
                forall|j: int| 0 <= j < kept@.len() ==> {
                    let r = #[trigger] kept@[j];
                    &&& ribbon_ok(r, transient)
                    &&& transient ==> frames + 1 - 19 <= r.process <= frames + 1
                },
                !transient ==> forall|j: int| 0 <= j < i ==>
                    #[trigger] kept@[j] == ribbon_step(pre[j], false, false),
                transient ==> (kept@, self.rng.state()) == baby_step_all(pre.take(i as int), st0),
                !transient ==> self.rng.state() == st0,
            decreases n - i,
        {
            proof {
                assert(pre.take(i + 1).drop_last() =~= pre.take(i as int));
                assert(pre.take(i + 1).last() == pre[i as int]);
            }
            let mut r = self.ribbons[i];
            let ghost r0 = r;
            if !transient {
                r.rot_start_deg = (r.rot_start_deg + r.spin_deg) % 360;
                kept.push(r);
            } else {
                r.process = r.process + 1;
                if r.process > 0 {
                    if r.process <= 25 {
                        r.alpha = r.alpha + 2;
                    } else if r.process > 70 {
                        r.alpha = r.alpha - 2;
                        if r.alpha <= 0 {
                            r.alpha = 0;
                            r.alive = false;
                        }
                    }
                    let mut rise = r.rise_angle_deg + 1;
                    if self.rng.random(2) == 0 {
                        rise = rise + 1;
                    }
                    r.rise_angle_deg = rise % 360;
                    r.rot_start_deg = (r.rot_start_deg + r.spin_deg) % 360;
                }
                if r.alive {
                    kept.push(r);
                }
            }
            i = i + 1;
        }
        proof {
            assert(pre.take(n as int) =~= pre);
        }
        self.ribbons = kept;
        self.frames = Ghost(self.frames@ + 1);
    }

    /// Steps `frames` whole frames, then reports `Dead` exactly when a Baby
    /// sphere has no ribbon left; a persistent aura keeps running. A
    /// persistent aura's ribbons have each spun `frames` times their spin;
    /// a Baby sphere's ribbons and generator are [`baby_step_all`] applied
    /// `frames` times.
    pub fn update(&mut self, frames: u32) -> (status: EffectStatus)
        requires
            old(self).wf(),
        ensures
            final(self).wf(),
            final(self).is_transient() == old(self).is_transient(),
            final(self).frames_spec() == old(self).frames_spec() + frames,
            !old(self).is_transient() ==> final(self).ribbons_spec().len() == RIBBON_COUNT,
            !old(self).is_transient() ==> forall|i: int| 0 <= i < RIBBON_COUNT ==>
                #[trigger] final(self).ribbons_spec()[i] == spun_ribbon(old(self).ribbons_spec()[i], frames as nat),
            old(self).is_transient() ==> (final(self).ribbons_spec(), final(self).rng_state())
                == baby_after(old(self).ribbons_spec(), old(self).rng_state(), frames as nat),
            status == (if final(self).is_transient() && final(self).ribbons_spec().len() == 0 {
                EffectStatus::Dead
            } else {
                EffectStatus::Running
            }),
            !old(self).is_transient() ==> status == EffectStatus::Running,
            old(self).is_transient() && final(self).frames_spec() >= BABY_LAST_FRAME ==> status == EffectStatus::Dead,
    {
        let ghost r0 = self.ribbons@;
        let ghost st0 = self.rng.state();
        proof {
            if !self.transient {
                assert forall|i: int| 0 <= i < RIBBON_COUNT implies #[trigger] self.ribbons@[i] == spun_ribbon(r0[i], 0) by {
                    assert(ribbon_ok(r0[i], false));
                    vstd::arithmetic::div_mod::lemma_small_mod(r0[i].rot_start_deg as nat, 360);
                }
            }
        }
        let mut k: u32 = 0;
        while k < frames
            invariant
                k <= frames,
                self.wf(),
                self.is_transient() == old(self).is_transient(),
                self.frames_spec() == old(self).frames_spec() + k,
                r0 == old(self).ribbons_spec(),
                st0 == old(self).rng_state(),
                !self.transient ==> self.ribbons@.len() == RIBBON_COUNT,
                !self.transient ==> forall|i: int| 0 <= i < RIBBON_COUNT ==>
                    #[trigger] self.ribbons@[i] == spun_ribbon(r0[i], k as nat),
                self.transient ==> (self.ribbons@, self.rng.state()) == baby_after(r0, st0, k as nat),
            decreases frames - k,
        {
            let ghost before = self.ribbons@;
            self.step_frame();
            proof {
                if !self.transient {
                    assert forall|i: int| 0 <= i < RIBBON_COUNT implies
                        #[trigger] self.ribbons@[i] == spun_ribbon(r0[i], (k + 1) as nat) by {
                        spin_one_more(r0[i], k as nat);
                        assert(before[i] == spun_ribbon(r0[i], k as nat));
                    }
                }
            }
            k = k + 1;
        }
        proof {
            if !self.is_transient() {
                persistent_sphere_keeps_its_ribbons(*self, 0);
            } else if self.frames_spec() >= BABY_LAST_FRAME {
                baby_sphere_finishes(*self);
            }
        }
        if self.finished() { EffectStatus::Dead } else { EffectStatus::Running }
    }

    /// Whether the effect has ended: only a Baby sphere ends, once every
    /// ribbon has faded out.
    pub fn finished(&self) -> (r: bool)
        ensures
            r == (self.is_transient() && self.ribbons_spec().len() == 0),
    {
        self.transient && self.ribbons.len() == 0
    }

    /// Number of live ribbons.
    pub fn ribbon_count(&self) -> (r: usize)
        ensures
            r == self.ribbons_spec().len(),
    {
        self.ribbons.len()
    }

    /// Ribbon `i`'s current state.
    pub fn ribbon(&self, i: usize) -> (r: Ribbon)
        requires
            i < self.ribbons_spec().len(),
        ensures
            r == self.ribbons_spec()[i as int],
    {
        self.ribbons[i]
    }
}

/// A Baby sphere has retired every ribbon once it has stepped 114 frames, so
/// it ends within its 2000 ms budget.
pub proof fn baby_sphere_finishes(s: SphereRibbons)
    requires
        s.wf(),
        s.is_transient(),
        s.frames_spec() >= BABY_LAST_FRAME,
    ensures
        s.ribbons_spec().len() == 0,
{
    if s.ribbons@.len() > 0 {
        let r = s.ribbons@[0];
        assert(ribbon_ok(r, true));
    }
}

/// A persistent aura keeps all twenty ribbons at alpha 100 in every state.
pub proof fn persistent_sphere_keeps_its_ribbons(s: SphereRibbons, i: int)
    requires
        s.wf(),
        !s.is_transient(),
        0 <= i < RIBBON_COUNT,
    ensures
        s.ribbons_spec().len() == RIBBON_COUNT,
        s.ribbons_spec()[i].alpha == PERSISTENT_ALPHA,
        s.ribbons_spec()[i].alive,
{
    assert(ribbon_ok(s.ribbons@[i], false));
}

/// Every live Baby ribbon is on its fade curve: alpha `2p` over its first 25
/// frames of life, a steady 50 from frame 25 through frame 70, then
/// `50 - 2 (p - 70)`, still above 0; before it starts it is invisible.
pub proof fn baby_ribbon_fade_curve(s: SphereRibbons, i: int)
    requires
        s.wf(),
        s.is_transient(),
        0 <= i < s.ribbons_spec().len(),
    ensures
        s.ribbons_spec()[i].alive,
        s.ribbons_spec()[i].process <= 0 ==> s.ribbons_spec()[i].alpha == 0,
        0 < s.ribbons_spec()[i].process <= 25 ==> s.ribbons_spec()[i].alpha == 2 * s.ribbons_spec()[i].process,
        25 <= s.ribbons_spec()[i].process <= 70 ==> s.ribbons_spec()[i].alpha == 50,
        s.ribbons_spec()[i].process > 70 ==> s.ribbons_spec()[i].alpha == 50 - 2 * (s.ribbons_spec()[i].process - 70)
            && s.ribbons_spec()[i].alpha > 0,
{
    assert(ribbon_ok(s.ribbons@[i], true));
}

/// One Baby frame of a live ribbon: it ages a frame; once started it gains 2
/// alpha a frame through frame 25, keeps its alpha of 50 from frame 26
/// through frame 70, and after that loses 2 a frame and is retired when its
/// alpha reaches 0. A ribbon that stays live stays on its fade curve.
pub proof fn baby_ribbon_step_fades(r: Ribbon, flip: bool)
    requires
        ribbon_ok(r, true),
    ensures
        ribbon_step(r, true, flip).process == r.process + 1,
        r.process + 1 <= 0 ==> ribbon_step(r, true, flip).alpha == 0 && ribbon_step(r, true, flip).alive,
        0 < r.process + 1 <= 25 ==> ribbon_step(r, true, flip).alpha == r.alpha + 2
            && ribbon_step(r, true, flip).alive,
        25 < r.process + 1 <= 70 ==> ribbon_step(r, true, flip).alpha == r.alpha
            && r.alpha == 50 && ribbon_step(r, true, flip).alive,
        r.process + 1 > 70 && r.alpha > 2 ==> ribbon_step(r, true, flip).alpha == r.alpha - 2
            && ribbon_step(r, true, flip).alive,
        r.process + 1 > 70 && r.alpha <= 2 ==> !ribbon_step(r, true, flip).alive,
        ribbon_step(r, true, flip).alive ==> ribbon_ok(ribbon_step(r, true, flip), true),
{
}

} // verus!
