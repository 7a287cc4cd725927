//! SoulBreaker family — `EF_SOULBREAKER` and `EF_SOULBREAKER2`.
//!
//! Each launcher fires four short-lived `purpleslash.tga` slashes that fly
//! straight along a heading from the caster while fading in then out.
//!
//! * **Soulbreaker** (Soul Breaker): one launcher aimed at the target; the
//!   four slashes wait 28, 27, 26 and 25 frames and each gets a `±15°`
//!   jitter (`random(31) − 15`) on the heading.
//! * **Soulbreaker2** (Meteor Assault): eight launchers at 0°, 45°, …, 315°,
//!   each with an extra `random(6)` frame delay shared by its four slashes.
//!
//! Every slash also draws `random(5)` for its height. A slash's alpha grows
//! `+10` per frame on its frames 2..=10 and then drops `−5` per frame; it
//! retires on the frame the alpha reaches 0 (its 28th frame).
//!
//! This module holds the slash schedule and clocks on whole 60 fps frames;
//! positions (which accelerate by a float factor) are the renderer's.
use vstd::prelude::*;
use crate::draw::EffectStatus;
use crate::rng::{lcg_iter, lcg_step, scramble, Rng};

verus! {

pub const TEXTURES: [&'static str; 1] = ["purpleslash.tga"];
/// Wall-clock length.
pub const TOTAL_DURATION_MS: u32 = 1200;
/// Delay of a launcher's first slash.
pub const SPAWN_DELAY: i32 = 28;
/// Slashes per launcher.
pub const STREAKS_PER_EMITTER: usize = 4;
/// A slash's alpha grows through this frame of its life.
pub const FADE_AFTER: i32 = 10;
/// Alpha gained per frame while fading in.
pub const FADE_IN: i32 = 10;
/// Alpha lost per frame while fading out.
pub const FADE_OUT: i32 = 5;
/// Frame of its life on which a slash retires.
pub const SLASH_LAST_FRAME: i32 = 28;
/// Longest extra delay of a Meteor Assault launcher.
pub const MAX_SHOOT_DELAY: i32 = 5;

/// One slash: its clock, alpha, and the draws that place it.
#[derive(Clone, Copy, Debug)]
pub struct Slash {
    /// Frames into its life; negative while it waits.
    pub process: i32,
    /// Alpha in `0..=255` units.
    pub alpha: i32,
    /// Heading in whole degrees: the jitter off the aim for Soul Breaker,
    /// the launcher's direction for Meteor Assault.
    pub heading_deg: i32,
    /// `random(5)`: the slash sits `10 − draw` units above the caster's feet.
    pub height_draw: u32,
}

/// A slash's alpha on frame `p` of its life.
pub open spec fn slash_alpha_at(p: int) -> int {
    if p <= 1 {
        0
    } else if p <= FADE_AFTER {
        FADE_IN * (p - 1)
    } else {
        FADE_IN * (FADE_AFTER - 1) - FADE_OUT * (p - FADE_AFTER)
    }
}

/// A slash one frame later (whether it is still alive is [`slash_alive`]).
pub open spec fn slash_step(s: Slash) -> Slash {
    Slash { process: (s.process + 1) as i32, alpha: slash_alpha_at(s.process + 1) as i32, ..s }
}

/// A slash on frame `p` of its life is still drawn: it retires on frame 28.
pub open spec fn slash_alive(s: Slash) -> bool {
    s.process < SLASH_LAST_FRAME
}

/// One frame over a slash list: every slash steps, retired ones drop out.
pub open spec fn slashes_after_frame(ss: Seq<Slash>) -> Seq<Slash>
    decreases ss.len(),
{
    if ss.len() == 0 {
        Seq::empty()
    } else {
        let kept = slashes_after_frame(ss.drop_last());
        let s = slash_step(ss.last());
        if slash_alive(s) { kept.push(s) } else { kept }
    }
}

/// The slashes after `n` whole frames.
pub open spec fn slashes_after_frames(ss: Seq<Slash>, n: nat) -> Seq<Slash>
    decreases n,
{
    if n == 0 { ss } else { slashes_after_frame(slashes_after_frames(ss, (n - 1) as nat)) }
}

/// Soul Breaker slash `ec` drawn from the stream that starts at `s0`: two
/// draws per slash, `random(31)` for the jitter then `random(5)` for height.
pub open spec fn directed_slash(s0: u32, ec: int) -> Slash {
    Slash {
        process: -(SPAWN_DELAY - ec) as i32,
        alpha: 0,
        heading_deg: ((lcg_iter(s0, (2 * ec + 1) as nat) % 31) as int - 15) as i32,
        height_draw: lcg_iter(s0, (2 * ec + 2) as nat) % 5,
    }
}

/// Meteor Assault slash `ec` of launcher `d`: five draws per launcher,
/// `random(6)` for its extra delay then one `random(5)` per slash.
pub open spec fn radial_slash(s0: u32, d: int, ec: int) -> Slash {
    let shoot = (lcg_iter(s0, (5 * d + 1) as nat) % 6) as int;
    Slash {
        process: -(SPAWN_DELAY - ec + shoot) as i32,
        alpha: 0,
        heading_deg: (45 * d) as i32,
        height_draw: lcg_iter(s0, (5 * d + 2 + ec) as nat) % 5,
    }
}

/// The slashes of one effect and the frames stepped.
pub struct SoulBreakerSlashes {
    slashes: Vec<Slash>,
    frames: Ghost<nat>,
}

impl SoulBreakerSlashes {
    /// Live slashes, in launch order.
    pub closed spec fn slashes_spec(&self) -> Seq<Slash> {
        self.slashes@
    }

    /// Frames stepped.
    pub closed spec fn frames_spec(&self) -> nat {
        self.frames@
    }

    /// Every live slash is on its alpha curve, has not reached its
    /// retirement frame, and has aged once per frame from a delay of at most
    /// 33 frames.
    pub closed spec fn wf(&self) -> bool {
        forall|i: int| 0 <= i < self.slashes@.len() ==> {
            let s = #[trigger] self.slashes@[i];
            &&& s.alpha == slash_alpha_at(s.process as int)
            &&& s.process < SLASH_LAST_FRAME
            &&& self.frames@ - (SPAWN_DELAY + MAX_SHOOT_DELAY) <= s.process <= self.frames@
        }
    }

    /// Soul Breaker: four slashes aimed along the caster → target heading,
    /// drawn from the generator seeded with `seed` (scrambled by
    /// [`Rng::from_seed`]).
    pub fn new_directed(seed: u32) -> (e: SoulBreakerSlashes)
        ensures
            e.wf(),
            e.frames_spec() == 0,
            e.slashes_spec().len() == STREAKS_PER_EMITTER,
            forall|ec: int| 0 <= ec < STREAKS_PER_EMITTER ==> #[trigger] e.slashes_spec()[ec]
                == directed_slash(scramble(seed), ec),
    {
        let mut rng = Rng::from_seed(seed);
        let ghost s0 = rng.state();
        let mut slashes: Vec<Slash> = Vec::new();
        let mut ec: usize = 0;
        while ec < STREAKS_PER_EMITTER
            invariant
                ec <= STREAKS_PER_EMITTER,
                s0 == scramble(seed),
                slashes@.len() == ec,
                rng.state() == lcg_iter(s0, (2 * ec) as nat),
                forall|i: int| 0 <= i < ec ==> #[trigger] slashes@[i] == directed_slash(s0, i),
                forall|i: int| 0 <= i < ec ==> (#[trigger] slashes@[i]).alpha == slash_alpha_at(slashes@[i].process as int)
                    && -28 <= slashes@[i].process <= 0,
            decreases STREAKS_PER_EMITTER - ec,
        {
            let jitter = rng.random(31) as i32 - 15;
            let height_draw = rng.random(5);
            proof {
                assert(lcg_iter(s0, (2 * ec + 1) as nat) == lcg_step(lcg_iter(s0, (2 * ec) as nat)));
                assert(lcg_iter(s0, (2 * ec + 2) as nat) == lcg_step(lcg_iter(s0, (2 * ec + 1) as nat)));
            }
            let s = Slash { process: -(SPAWN_DELAY - ec as i32), alpha: 0, heading_deg: jitter, height_draw };
            assert(s == directed_slash(s0, ec as int));
            slashes.push(s);
            ec = ec + 1;
        }
        SoulBreakerSlashes { slashes, frames: Ghost(0) }
    }

    /// Meteor Assault: eight launchers at 45° steps, each firing four
    /// slashes radially after its own `random(6)` extra delay.
    pub fn new_radial(seed: u32) -> (e: SoulBreakerSlashes)
        ensures
            e.wf(),
            e.frames_spec() == 0,
            e.slashes_spec().len() == 8 * STREAKS_PER_EMITTER,
            forall|d: int, ec: int| 0 <= d < 8 && 0 <= ec < STREAKS_PER_EMITTER ==>
                #[trigger] e.slashes_spec()[4 * d + ec] == radial_slash(scramble(seed), d, ec),
            forall|d: int, ec: int| 0 <= d < 8 && 0 <= ec < STREAKS_PER_EMITTER ==>
                (#[trigger] e.slashes_spec()[4 * d + ec]).process
                    == -(SPAWN_DELAY - ec + (lcg_iter(scramble(seed), (5 * d + 1) as nat) % 6) as int),
    {
        let mut rng = Rng::from_seed(seed);
        let ghost s0 = rng.state();
        let mut slashes: Vec<Slash> = Vec::new();
        let mut d: usize = 0;
        while d < 8
            invariant
                d <= 8,
                s0 == scramble(seed),
                slashes@.len() == 4 * d,
                rng.state() == lcg_iter(s0, (5 * d) as nat),
                forall|k: int, j: int| 0 <= k < d && 0 <= j < 4 ==>
                    #[trigger] slashes@[4 * k + j] == radial_slash(s0, k, j),
                forall|i: int| 0 <= i < slashes@.len() ==> (#[trigger] slashes@[i]).alpha == slash_alpha_at(slashes@[i].process as int)
                    && -33 <= slashes@[i].process <= 0,
            decreases 8 - d,
        {
            let shoot = rng.random(6) as i32;
            proof {
                assert(lcg_iter(s0, (5 * d + 1) as nat) == lcg_step(lcg_iter(s0, (5 * d) as nat)));
            }
            let mut ec: usize = 0;
            while ec < STREAKS_PER_EMITTER
                invariant
                    d < 8,
                    ec <= STREAKS_PER_EMITTER,
                    s0 == scramble(seed),
                    slashes@.len() == 4 * d + ec,
                    shoot == lcg_iter(s0, (5 * d + 1) as nat) % 6,
                    rng.state() == lcg_iter(s0, (5 * d + 1 + ec) as nat),
                    forall|k: int, j: int| 0 <= k < d && 0 <= j < 4 ==>
                        #[trigger] slashes@[4 * k + j] == radial_slash(s0, k, j),
                    forall|j: int| 0 <= j < ec ==> #[trigger] slashes@[4 * d + j] == radial_slash(s0, d as int, j),
                    forall|i: int| 0 <= i < slashes@.len() ==> (#[trigger] slashes@[i]).alpha == slash_alpha_at(slashes@[i].process as int)
                        && -33 <= slashes@[i].process <= 0,
                decreases STREAKS_PER_EMITTER - ec,
            {
                let height_draw = rng.random(5);
                proof {
                    assert(lcg_iter(s0, (5 * d + 2 + ec) as nat) == lcg_step(lcg_iter(s0, (5 * d + 1 + ec) as nat)));
                }
                let s = Slash {
                    process: -(SPAWN_DELAY - ec as i32 + shoot),
                    alpha: 0,
                    heading_deg: 45 * d as i32,
                    height_draw,
                };
                assert(s == radial_slash(s0, d as int, ec as int));
                slashes.push(s);
                proof {
                    assert forall|k: int, j: int| 0 <= k < d && 0 <= j < 4 implies
                        #[trigger] slashes@[4 * k + j] == radial_slash(s0, k, j) by {
                        assert(4 * k + j < 4 * d) by (nonlinear_arith) requires 0 <= k < d, 0 <= j < 4;
                    }
                }
                ec = ec + 1;
            }
            proof {
                assert forall|k: int, j: int| 0 <= k < d + 1 && 0 <= j < 4 implies
                    #[trigger] slashes@[4 * k + j] == radial_slash(s0, k, j) by {
                    if k == d {
                    }
                }
            }
            d = d + 1;
        }
        proof {
            assert forall|d: int, ec: int| 0 <= d < 8 && 0 <= ec < STREAKS_PER_EMITTER implies
                (#[trigger] slashes@[4 * d + ec]).process
                    == -(SPAWN_DELAY - ec + (lcg_iter(s0, (5 * d + 1) as nat) % 6) as int) by {
                meteor_assault_launchers_are_staggered(s0, d, d, ec);
            }
        }
        SoulBreakerSlashes { slashes, frames: Ghost(0) }
    }

    /// One native frame: every slash ages and fades; the ones that reach
    /// their retirement frame are dropped.
    pub fn step_frame(&mut self)
        requires
            old(self).wf(),
        ensures
            final(self).wf(),
            final(self).frames_spec() == old(self).frames_spec() + 1,
            final(self).slashes_spec() == slashes_after_frame(old(self).slashes_spec()),
    {
        let ghost frames = self.frames@;
        let ghost pre = self.slashes@;
        let n = self.slashes.len();
        let mut kept: Vec<Slash> = Vec::new();
        let mut i: usize = 0;
        while i < n
            invariant
                n == self.slashes@.len(),
                self.slashes@ == pre,
                self.frames@ == frames,
                i <= n,
                forall|j: int| 0 <= j < pre.len() ==> {
                    let s = #[trigger] pre[j];
                    &&& s.alpha == slash_alpha_at(s.process as int)
                    &&& s.process < SLASH_LAST_FRAME
                    &&& frames - (SPAWN_DELAY + MAX_SHOOT_DELAY) <= s.process <= frames
                },
                forall|j: int| 0 <= j < kept@.len() ==> {
                    let s = #[trigger] kept@[j];
                    &&& s.alpha == slash_alpha_at(s.process as int)
                    &&& s.process < SLASH_LAST_FRAME
                    &&& frames + 1 - (SPAWN_DELAY + MAX_SHOOT_DELAY) <= s.process <= frames + 1
                },
                kept@ == slashes_after_frame(pre.take(i as int)),
            decreases n - i,
        {
            proof {
                assert(pre.take(i + 1).drop_last() =~= pre.take(i as int));
                assert(pre.take(i + 1).last() == pre[i as int]);
            }
            let mut s = self.slashes[i];
            s.process = s.process + 1;
            if s.process > 1 {
                if s.process <= FADE_AFTER {
                    s.alpha = s.alpha + FADE_IN;
                } else {
                    s.alpha = s.alpha - FADE_OUT;
                }
            }
            if s.process < SLASH_LAST_FRAME {
                kept.push(s);
            }
            i = i + 1;
        }
        proof {
            assert(pre.take(n as int) =~= pre);
        }
        self.slashes = kept;
        self.frames = Ghost(self.frames@ + 1);
    }

    /// Advances by `frames` whole frames; reports `Dead` once every slash has
    /// retired.
    pub fn advance(&mut self, frames: u32) -> (status: EffectStatus)
        requires
            old(self).wf(),
        ensures
            final(self).wf(),
            final(self).frames_spec() == old(self).frames_spec() + frames,
            final(self).slashes_spec() == slashes_after_frames(old(self).slashes_spec(), frames as nat),
            status == (if final(self).slashes_spec().len() == 0 { EffectStatus::Dead } else { EffectStatus::Running }),
    {
        let mut k: u32 = 0;
        while k < frames
            invariant
                self.wf(),
                self.frames_spec() == old(self).frames_spec() + k,
                self.slashes_spec() == slashes_after_frames(old(self).slashes_spec(), k as nat),
                k <= frames,
            decreases frames - k,
        {
            self.step_frame();
            k = k + 1;
        }
        if self.slashes.len() == 0 { EffectStatus::Dead } else { EffectStatus::Running }
    }

    /// Number of live slashes.
    pub fn slash_count(&self) -> (r: usize)
        ensures
            r == self.slashes_spec().len(),
    {
        self.slashes.len()
    }

    /// Slash `i`'s current state.
    pub fn slash(&self, i: usize) -> (r: Slash)
        requires
            i < self.slashes_spec().len(),
        ensures
            r == self.slashes_spec()[i as int],
    {
        self.slashes[i]
    }
}

/// Every Soul Breaker and Meteor Assault has retired all its slashes once 61
/// frames have run (the latest slash waits 33 frames and lives 28), inside
/// its 1200 ms budget; no slash's alpha ever exceeds 90.
pub proof fn soul_breaker_ends_in_time(e: SoulBreakerSlashes, i: int)
    requires
        e.wf(),
    ensures
        e.frames_spec() >= (SPAWN_DELAY + MAX_SHOOT_DELAY + SLASH_LAST_FRAME) ==> e.slashes_spec().len() == 0,
        (SPAWN_DELAY + MAX_SHOOT_DELAY + SLASH_LAST_FRAME) * 1000 / 60 <= TOTAL_DURATION_MS,
        0 <= i < e.slashes_spec().len() ==> 0 <= e.slashes_spec()[i].alpha <= 90,
{
    if e.slashes@.len() > 0 {
        let s = e.slashes@[0];
        assert(s.process < SLASH_LAST_FRAME);
    }
    if 0 <= i < e.slashes@.len() {
        let s = e.slashes@[i];
        assert(s.alpha == slash_alpha_at(s.process as int));
    }
}

/// Meteor Assault staggers its launchers: slash `ec` of launcher `d` waits
/// Soul Breaker's `28 - ec` frames plus that launcher's own `random(6)` draw
/// (the first of its five draws, `lcg_iter(s0, 5d + 1) % 6`) and flies at
/// `45d` degrees. So a launcher waits 0 to 5 frames more than Soul Breaker,
/// exactly as long as its draw, and two launchers' matching slashes start
/// apart by the difference of their draws.
pub proof fn meteor_assault_launchers_are_staggered(s0: u32, d: int, e: int, ec: int)
    requires
        0 <= d < 8,
        0 <= e < 8,
        0 <= ec < STREAKS_PER_EMITTER,
    ensures
        radial_slash(s0, d, ec).process == -(SPAWN_DELAY - ec + (lcg_iter(s0, (5 * d + 1) as nat) % 6) as int),
        radial_slash(s0, d, ec).process == directed_slash(s0, ec).process - (lcg_iter(s0, (5 * d + 1) as nat) % 6) as int,
        radial_slash(s0, d, ec).heading_deg == 45 * d,
        radial_slash(s0, d, ec).alpha == 0,
        -(SPAWN_DELAY - ec) - MAX_SHOOT_DELAY <= radial_slash(s0, d, ec).process <= -(SPAWN_DELAY - ec),
        radial_slash(s0, d, ec).process == -(SPAWN_DELAY - ec) <==> lcg_iter(s0, (5 * d + 1) as nat) % 6 == 0,
        radial_slash(s0, d, ec).process - radial_slash(s0, e, ec).process
            == (lcg_iter(s0, (5 * e + 1) as nat) % 6) as int - (lcg_iter(s0, (5 * d + 1) as nat) % 6) as int,
{
}

} // verus!
