//! `EF_THROWITEM` family — ballistic-arc item projectiles.
//!
//! A spinning item icon flies from the caster to the target on a hump-shaped
//! arc, trails up to three fading after-images, then fades out on landing.
//! Each variant throws its own icon; the arc is keyed by the item kind:
//!
//! * default (bottles, fireworks, molotov, …) — peak 30, corner radius 3,
//!   spin 10°/frame, step `distance / 25`;
//! * stone — peak 10, radius 2, spin 10°/frame, fixed step 2;
//! * coin-like (knife, shuriken, kunai, huuma, money) — peak 1, radius 4,
//!   spin 45°/frame, fixed step 3.
//!
//! Throwitem4 is a composite: the molotov launches on frame 5, the second
//! item on frame 10.
//!
//! A projectile steps once per frame from its launch frame on. Its flight
//! takes `steps_to_target` frames — the renderer derives that count from the
//! ground distance and the step — and it lands on the first frame whose
//! flight index exceeds `1.05 ×` that count. Landed, it loses 20 of 255
//! alpha per frame and is gone when none is left. The arc, the heading and
//! the positions are the renderer's.
use vstd::prelude::*;
use crate::draw::EffectStatus;

verus! {

/// Backstop lifetime for the holder, ms (90 frames).
pub const TOTAL_DURATION_MS: u32 = 1500;
/// Alpha lost per frame once landed, 0..255 scale.
pub const LAND_FADE_PER_FRAME: u32 = 20;
/// Positions remembered for the after-image trail.
pub const HISTORY_LEN: u32 = 8;
/// After-images drawn behind the projectile.
pub const TRAIL_QUADS: u32 = 3;

/// Item icons to preload.
pub const TEXTURES: [&'static str; 8] = [
    "\u{c720}\u{c800}\u{c778}\u{d130}\u{d398}\u{c774}\u{c2a4}/item/\u{c5fc}\u{c0b0}\u{bcd1}.bmp",
    "\u{c720}\u{c800}\u{c778}\u{d130}\u{d398}\u{c774}\u{c2a4}/item/\u{b3cc}.bmp",
    "\u{c720}\u{c800}\u{c778}\u{d130}\u{d398}\u{c774}\u{c2a4}/item/\u{bca0}\u{b118}\u{b098}\u{c774}\u{d504}.bmp",
    "\u{c720}\u{c800}\u{c778}\u{d130}\u{d398}\u{c774}\u{c2a4}/item/\u{c218}\u{b9ac}\u{ac80}.bmp",
    "\u{c720}\u{c800}\u{c778}\u{d130}\u{d398}\u{c774}\u{c2a4}/item/\u{CFE0}\u{B098}\u{C774}_\u{B3C5}.bmp",
    "\u{c720}\u{c800}\u{c778}\u{d130}\u{d398}\u{c774}\u{c2a4}/item/\u{d48d}\u{b9c8}_\u{b1cc}\u{c6b0}.bmp",
    "\u{c720}\u{c800}\u{c778}\u{d130}\u{d398}\u{c774}\u{c2a4}/item/\u{d48d}\u{b9c8}_\u{b300}\u{cc28}\u{b95c}.bmp",
    "coin_a.bmp",
];

/// Fuuma Shuriken's icon: the thunderstorm huuma, falling back to the Grand
/// Wheel one (`|`-separated).
pub const FUUMA_TEXTURE: &'static str = "\u{c720}\u{c800}\u{c778}\u{d130}\u{d398}\u{c774}\u{c2a4}/item/\u{d48d}\u{b9c8}_\u{b1cc}\u{c6b0}.bmp|\u{c720}\u{c800}\u{c778}\u{d130}\u{d398}\u{c774}\u{c2a4}/item/\u{d48d}\u{b9c8}_\u{b300}\u{cc28}\u{b95c}.bmp";

/// Tuning for one thrown item.
#[derive(Clone, Copy, Debug)]
pub struct ThrowItemParams {
    /// Icon texture (`|`-separated fallbacks allowed).
    pub texture: &'static str,
    /// Corner radius of the icon quad, world units.
    pub distance: u32,
    /// Arc peak above the caster→target line, world units.
    pub arc_peak: u32,
    /// Spin per frame, whole degrees.
    pub spin_deg: u32,
    /// Frame the projectile starts flying.
    pub launch_delay_frames: u32,
    /// Fixed horizontal step per frame, world units; `None` flies
    /// `distance / 25` per frame.
    pub fixed_step: Option<u32>,
}

/// The default arc.
pub open spec fn is_default_throw(p: ThrowItemParams, delay: u32) -> bool {
    p.distance == 3 && p.arc_peak == 30 && p.spin_deg == 10 && p.launch_delay_frames == delay && p.fixed_step is None
}

/// The stone arc.
pub open spec fn is_stone_throw(p: ThrowItemParams) -> bool {
    p.distance == 2 && p.arc_peak == 10 && p.spin_deg == 10 && p.launch_delay_frames == 0 && p.fixed_step == Some(2u32)
}

/// The coin-like hop.
pub open spec fn is_coin_throw(p: ThrowItemParams) -> bool {
    p.distance == 4 && p.arc_peak == 1 && p.spin_deg == 45 && p.launch_delay_frames == 0 && p.fixed_step == Some(3u32)
}

fn default_throw(texture: &'static str, delay: u32) -> (p: ThrowItemParams)
    ensures
        is_default_throw(p, delay),
        p.texture == texture,
{
    ThrowItemParams { texture, distance: 3, arc_peak: 30, spin_deg: 10, launch_delay_frames: delay, fixed_step: None }
}

fn stone_throw(texture: &'static str) -> (p: ThrowItemParams)
    ensures
        is_stone_throw(p),
        p.texture == texture,
{
    ThrowItemParams { texture, distance: 2, arc_peak: 10, spin_deg: 10, launch_delay_frames: 0, fixed_step: Some(2) }
}

fn coin_throw(texture: &'static str) -> (p: ThrowItemParams)
    ensures
        is_coin_throw(p),
        p.texture == texture,
{
    ThrowItemParams { texture, distance: 4, arc_peak: 1, spin_deg: 45, launch_delay_frames: 0, fixed_step: Some(3) }
}

/// Acid Terror — an acid bottle.
#[allow(non_snake_case)]
pub fn THROW_BOTTLES() -> (p: ThrowItemParams)
    ensures
        is_default_throw(p, 0),
        p.texture == TEXTURES[0],
{
    default_throw("\u{c720}\u{c800}\u{c778}\u{d130}\u{d398}\u{c774}\u{c2a4}/item/\u{c5fc}\u{c0b0}\u{bcd1}.bmp", 0)
}

/// Fireworks throw (no classic icon).
#[allow(non_snake_case)]
pub fn THROW_ITEM2() -> (p: ThrowItemParams)
    ensures
        is_default_throw(p, 0),
        p.texture == "throwitem2.bmp",
{
    default_throw("throwitem2.bmp", 0)
}

/// Throw Stone.
#[allow(non_snake_case)]
pub fn THROW_STONE() -> (p: ThrowItemParams)
    ensures
        is_stone_throw(p),
        p.texture == TEXTURES[1],
{
    stone_throw("\u{c720}\u{c800}\u{c778}\u{d130}\u{d398}\u{c774}\u{c2a4}/item/\u{b3cc}.bmp")
}

/// Throw Random Bottle, first of the pair: the molotov, on frame 5.
#[allow(non_snake_case)]
pub fn THROW_MOLOTOV() -> (p: ThrowItemParams)
    ensures
        is_default_throw(p, 5),
        p.texture == "molotov.bmp",
{
    default_throw("molotov.bmp", 5)
}

/// Throw Random Bottle, second of the pair, on frame 10.
#[allow(non_snake_case)]
pub fn THROW_ITEM3() -> (p: ThrowItemParams)
    ensures
        is_default_throw(p, 10),
        p.texture == "throwitem3.bmp",
{
    default_throw("throwitem3.bmp", 10)
}

/// A throw with no classic icon.
#[allow(non_snake_case)]
pub fn THROW_ITEM4() -> (p: ThrowItemParams)
    ensures
        is_default_throw(p, 0),
        p.texture == "throwitem4.bmp",
{
    default_throw("throwitem4.bmp", 0)
}

/// Throw Venom Knife.
#[allow(non_snake_case)]
pub fn THROW_ITEM6() -> (p: ThrowItemParams)
    ensures
        is_coin_throw(p),
        p.texture == TEXTURES[2],
{
    coin_throw("\u{c720}\u{c800}\u{c778}\u{d130}\u{d398}\u{c774}\u{c2a4}/item/\u{bca0}\u{b118}\u{b098}\u{c774}\u{d504}.bmp")
}

/// Throw Shuriken.
#[allow(non_snake_case)]
pub fn THROW_ITEM7() -> (p: ThrowItemParams)
    ensures
        is_coin_throw(p),
        p.texture == TEXTURES[3],
{
    coin_throw("\u{c720}\u{c800}\u{c778}\u{d130}\u{d398}\u{c774}\u{c2a4}/item/\u{c218}\u{b9ac}\u{ac80}.bmp")
}

/// Throw Kunai.
#[allow(non_snake_case)]
pub fn THROW_ITEM8() -> (p: ThrowItemParams)
    ensures
        is_coin_throw(p),
        p.texture == TEXTURES[4],
{
    coin_throw("\u{c720}\u{c800}\u{c778}\u{d130}\u{d398}\u{c774}\u{c2a4}/item/\u{CFE0}\u{B098}\u{C774}_\u{B3C5}.bmp")
}

/// Throw Fuuma Shuriken: the thunderstorm huuma, falling back to the Grand
/// Wheel one.
#[allow(non_snake_case)]
pub fn THROW_ITEM9() -> (p: ThrowItemParams)
    ensures
        is_coin_throw(p),
        p.texture == FUUMA_TEXTURE,
{
    coin_throw(FUUMA_TEXTURE)
}

/// Throw Money.
#[allow(non_snake_case)]
pub fn THROW_COIN() -> (p: ThrowItemParams)
    ensures
        is_coin_throw(p),
        p.texture == TEXTURES[7],
{
    coin_throw("coin_a.bmp")
}

/// Flight index of a projectile's first landed frame: the first index above
/// `1.05 · steps_to_target`.
pub open spec fn land_index(steps_to_target: int) -> int {
    21 * steps_to_target / 20 + 1
}

/// Landed frames a projectile fades through before it is gone.
pub open spec fn fade_steps() -> int {
    13
}

/// The state of one projectile.
#[derive(Clone, Copy, Debug, PartialEq, Eq, Structural)]
pub struct Projectile {
    /// Frames of flight it needs to reach its target (at least 1).
    pub steps_to_target: u32,
    /// Spin per frame, whole degrees.
    pub spin_step: u32,
    /// Frame it launches on.
    pub launch_delay: u32,
    /// Frames stepped so far.
    pub flight_frame: u32,
    /// Current spin, whole degrees `0..360`.
    pub spin_deg: u32,
    /// Alpha, 0..255 scale.
    pub alpha: u32,
    /// Stepped at least once.
    pub started: bool,
    /// Past its target.
    pub landed: bool,
    /// Faded out; no longer stepped.
    pub dead: bool,
}

/// A projectile after `n` steps of flight.
pub open spec fn projectile_after(steps_to_target: u32, spin_step: u32, launch_delay: u32, n: int) -> Projectile {
    let landed_steps = if n > land_index(steps_to_target as int) { n - land_index(steps_to_target as int) } else { 0 };
    let a = 255 - LAND_FADE_PER_FRAME * landed_steps;
    Projectile {
        steps_to_target,
        spin_step,
        launch_delay,
        flight_frame: n as u32,
        spin_deg: ((n * spin_step) % 360) as u32,
        alpha: (if a > 0 { a } else { 0 }) as u32,
        started: n > 0,
        landed: landed_steps > 0,
        dead: landed_steps >= fade_steps(),
    }
}

/// Steps a projectile has taken by frame `frame`: one per frame from its
/// launch frame (the first step is frame 1 at the earliest), until it is
/// gone.
pub open spec fn steps_by(steps_to_target: u32, launch_delay: u32, frame: int) -> int {
    let first = if launch_delay > 1 { launch_delay as int } else { 1 };
    let life = land_index(steps_to_target as int) + fade_steps();
    if frame < first { 0 } else if frame - first + 1 < life { frame - first + 1 } else { life }
}

impl Projectile {
    /// One frame of flight: spin, and once past the target, fade.
    pub fn step(&mut self)
        requires
            !old(self).dead,
            old(self).steps_to_target >= 1,
            old(self).spin_deg < 360,
            old(self).flight_frame < u32::MAX,
            *old(self) == projectile_after(old(self).steps_to_target, old(self).spin_step,
                old(self).launch_delay, old(self).flight_frame as int),
        ensures
            *final(self) == projectile_after(old(self).steps_to_target, old(self).spin_step,
                old(self).launch_delay, old(self).flight_frame + 1),
    {
        let ghost n = self.flight_frame as int;
        let ghost s = self.steps_to_target as int;
        self.started = true;
        self.spin_deg = ((self.spin_deg as u64 + self.spin_step as u64) % 360) as u32;
        proof {
            vstd::arithmetic::div_mod::lemma_add_mod_noop(n * self.spin_step, self.spin_step as int, 360);
            vstd::arithmetic::div_mod::lemma_mod_twice(self.spin_step as int, 360);
            vstd::arithmetic::div_mod::lemma_add_mod_noop(n * self.spin_step, self.spin_step as int, 360);
            assert((n + 1) * self.spin_step == n * self.spin_step + self.spin_step) by (nonlinear_arith);
            vstd::arithmetic::div_mod::lemma_mod_bound(n * self.spin_step + self.spin_step, 360);
            vstd::arithmetic::div_mod::lemma_mod_bound(n * self.spin_step, 360);
            vstd::arithmetic::div_mod::lemma_add_mod_noop(((n * self.spin_step) % 360), self.spin_step as int, 360);
            vstd::arithmetic::div_mod::lemma_mod_twice(n * self.spin_step, 360);
            assert(n * self.spin_step >= 0) by (nonlinear_arith)
                requires
                    n >= 0,
            ;
        }
        if 20 * self.flight_frame as u64 > 21 * self.steps_to_target as u64 {
            self.landed = true;
            if self.alpha <= LAND_FADE_PER_FRAME {
                self.alpha = 0;
                self.dead = true;
            } else {
                self.alpha = self.alpha - LAND_FADE_PER_FRAME;
            }
        }
        proof {
            vstd::arithmetic::div_mod::lemma_fundamental_div_mod(21 * s, 20);
        }
        self.flight_frame = self.flight_frame + 1;
    }
}

/// After-images drawn behind a projectile whose position history holds
/// `history` entries: one for each of 3, 5 and 7 entries reached.
pub fn trail_quads(history: u32) -> (r: u32)
    ensures
        r == (if history >= 7 { 3int } else if history >= 5 { 2int } else if history >= 3 { 1int } else { 0int }),
{
    if history >= 7 { 3 } else if history >= 5 { 2 } else if history >= 3 { 1 } else { 0 }
}

/// Positions a projectile remembers after `n` steps: at most 8.
pub fn history_len(n: u32) -> (r: u32)
    ensures
        r == (if n < HISTORY_LEN { n } else { HISTORY_LEN }),
{
    if n < HISTORY_LEN { n } else { HISTORY_LEN }
}

/// The projectile of a throw with `steps_to_target` frames of flight, on
/// frame `frame`.
pub open spec fn projectile_at(steps_to_target: u32, spin_step: u32, launch_delay: u32, frame: int) -> Projectile {
    projectile_after(steps_to_target, spin_step, launch_delay, steps_by(steps_to_target, launch_delay, frame))
}

/// The projectiles of one throw and its frame clock.
pub struct ThrowItemClock {
    frame: u32,
    projectiles: Vec<Projectile>,
}

impl ThrowItemClock {
    /// Frames elapsed.
    pub closed spec fn frame_spec(&self) -> u32 {
        self.frame
    }

    /// The projectiles, one per thrown item.
    pub closed spec fn projectiles_spec(&self) -> Seq<Projectile> {
        self.projectiles@
    }

    /// Every projectile is where its flight has taken it by this frame.
    pub closed spec fn wf(&self) -> bool {
        forall|i: int| 0 <= i < self.projectiles@.len() ==> {
            let p = #[trigger] self.projectiles@[i];
            &&& p.steps_to_target >= 1
            &&& p == projectile_at(p.steps_to_target, p.spin_step, p.launch_delay, self.frame as int)
        }
    }

    /// A throw of `variants` on frame 0; `steps_to_target[i]` is the flight
    /// length of item `i`.
    pub fn new(variants: &[ThrowItemParams], steps_to_target: &[u32]) -> (c: ThrowItemClock)
        requires
            variants@.len() == steps_to_target@.len(),
            forall|i: int| 0 <= i < steps_to_target@.len() ==> #[trigger] steps_to_target@[i] >= 1,
        ensures
            c.wf(),
            c.frame_spec() == 0,
            c.projectiles_spec().len() == variants@.len(),
            forall|i: int| 0 <= i < variants@.len() ==> #[trigger] c.projectiles_spec()[i]
                == projectile_after(steps_to_target@[i], variants@[i].spin_deg, variants@[i].launch_delay_frames, 0),
    {
        let mut v: Vec<Projectile> = Vec::new();
        let mut i: usize = 0;
        while i < variants.len()
            invariant
                variants@.len() == steps_to_target@.len(),
                forall|k: int| 0 <= k < steps_to_target@.len() ==> #[trigger] steps_to_target@[k] >= 1,
                i <= variants@.len(),
                v@.len() == i,
                forall|k: int| 0 <= k < i ==> #[trigger] v@[k]
                    == projectile_after(steps_to_target@[k], variants@[k].spin_deg, variants@[k].launch_delay_frames, 0),
            decreases variants@.len() - i,
        {
            let p = variants[i];
            v.push(Projectile {
                steps_to_target: steps_to_target[i],
                spin_step: p.spin_deg,
                launch_delay: p.launch_delay_frames,
                flight_frame: 0,
                spin_deg: 0,
                alpha: 255,
                started: false,
                landed: false,
                dead: false,
            });
            proof {
                assert(land_index(steps_to_target@[i as int] as int) >= 1) by {
                    vstd::arithmetic::div_mod::lemma_div_pos_is_pos(21 * steps_to_target@[i as int] as int, 20);
                }
            }
            i = i + 1;
        }
        ThrowItemClock { frame: 0, projectiles: v }
    }

    /// Advances one frame: every projectile still flying or fading steps
    /// once it has reached its launch frame. Reports `Dead` once every
    /// projectile has faded out.
    pub fn tick(&mut self) -> (status: EffectStatus)
        requires
            old(self).wf(),
            old(self).frame_spec() < u32::MAX,
        ensures
            final(self).wf(),
            final(self).frame_spec() == old(self).frame_spec() + 1,
            final(self).projectiles_spec().len() == old(self).projectiles_spec().len(),
            forall|i: int| 0 <= i < final(self).projectiles_spec().len() ==> {
                let p = #[trigger] final(self).projectiles_spec()[i];
                let q = old(self).projectiles_spec()[i];
                p == projectile_at(q.steps_to_target, q.spin_step, q.launch_delay, final(self).frame_spec() as int)
            },
            status == (if forall|i: int| 0 <= i < final(self).projectiles_spec().len()
                ==> (#[trigger] final(self).projectiles_spec()[i]).dead {
                EffectStatus::Dead
            } else {
                EffectStatus::Running
            }),
    {
        self.frame = self.frame + 1;
        let ghost before = self.projectiles@;
        let mut i: usize = 0;
        while i < self.projectiles.len()
            invariant
                self.frame == old(self).frame + 1,
                self.frame >= 1,
                before == old(self).projectiles@,
                self.projectiles@.len() == before.len(),
                i <= before.len(),
                forall|k: int| 0 <= k < before.len() ==> {
                    let p = #[trigger] before[k];
                    &&& p.steps_to_target >= 1
                    &&& p == projectile_at(p.steps_to_target, p.spin_step, p.launch_delay, self.frame - 1)
                },
                forall|k: int| 0 <= k < i ==> {
                    let p = #[trigger] self.projectiles@[k];
                    let q = before[k];
                    &&& p.steps_to_target >= 1
                    &&& p.steps_to_target == q.steps_to_target
                    &&& p.spin_step == q.spin_step
                    &&& p.launch_delay == q.launch_delay
                    &&& p == projectile_at(p.steps_to_target, p.spin_step, p.launch_delay, self.frame as int)
                },
                forall|k: int| i <= k < before.len() ==> #[trigger] self.projectiles@[k] == before[k],
            decreases before.len() - i,
        {
            let mut p = self.projectiles[i];
            let ghost n = steps_by(p.steps_to_target, p.launch_delay, self.frame - 1);
            proof {
                lemma_steps_by_next(p.steps_to_target, p.launch_delay, self.frame as int);
                vstd::arithmetic::div_mod::lemma_mod_bound(n * p.spin_step, 360);
                assert(n * p.spin_step >= 0) by (nonlinear_arith)
                    requires
                        n >= 0,
                ;
            }
            if !p.dead && self.frame >= p.launch_delay {
                p.step();
                self.projectiles.set(i, p);
            }
            i = i + 1;
        }
        let mut all_dead = true;
        let mut j: usize = 0;
        while j < self.projectiles.len()
            invariant
                j <= self.projectiles@.len(),
                all_dead ==> forall|k: int| 0 <= k < j ==> (#[trigger] self.projectiles@[k]).dead,
                !all_dead ==> exists|k: int| 0 <= k < j && !(#[trigger] self.projectiles@[k]).dead,
            decreases self.projectiles@.len() - j,
        {
            if !self.projectiles[j].dead {
                all_dead = false;
                assert(!self.projectiles@[j as int].dead);
            }
            j = j + 1;
        }
        proof {
            if all_dead {
                assert forall|k: int| 0 <= k < self.projectiles_spec().len() implies (#[trigger] self.projectiles_spec()[k]).dead by {
                    assert(self.projectiles@[k].dead);
                }
            } else {
                let k = choose|k: int| 0 <= k < j && !(#[trigger] self.projectiles@[k]).dead;
                assert(!self.projectiles_spec()[k].dead);
            }
        }
        if all_dead {
            EffectStatus::Dead
        } else {
            EffectStatus::Running
        }
    }

    /// Projectile `i`.
    pub fn projectile(&self, i: usize) -> (p: Projectile)
        requires
            i < self.projectiles_spec().len(),
        ensures
            p == self.projectiles_spec()[i as int],
    {
        self.projectiles[i]
    }
}

/// A projectile steps on the frame after `frame - 1` exactly when it has not
/// faded out and has reached its launch frame, and its step count then
/// grows by one; otherwise the count stays.
proof fn lemma_steps_by_next(s: u32, d: u32, frame: int)
    requires
        s >= 1,
        frame >= 1,
    ensures
        ({
            let n = steps_by(s, d, frame - 1);
            let dead = projectile_after(s, 0, d, n).dead;
            if !dead && frame >= d {
                steps_by(s, d, frame) == n + 1
            } else {
                steps_by(s, d, frame) == n
            }
        }),
        0 <= steps_by(s, d, frame - 1) <= steps_by(s, d, frame),
{
    vstd::arithmetic::div_mod::lemma_div_pos_is_pos(21 * s as int, 20);
}

/// Every projectile has faded out, and the throw reports `Dead`, once each
/// has had its launch frame plus the flight to `1.05 ×` its target and 13
/// fading frames.
pub proof fn throw_lands_and_fades(c: ThrowItemClock, i: int)
    requires
        c.wf(),
        0 <= i < c.projectiles_spec().len(),
        c.frame_spec() >= (if c.projectiles_spec()[i].launch_delay > 1 { c.projectiles_spec()[i].launch_delay as int } else { 1 })
            + land_index(c.projectiles_spec()[i].steps_to_target as int) + fade_steps() - 1,
    ensures
        c.projectiles_spec()[i].dead,
        c.projectiles_spec()[i].alpha == 0,
        c.projectiles_spec()[i].landed,
{
    let p = c.projectiles_spec()[i];
    vstd::arithmetic::div_mod::lemma_div_pos_is_pos(21 * p.steps_to_target as int, 20);
}

} // verus!
