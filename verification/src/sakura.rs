//! `EF_SAKURA` — a gentle, persistent rain of drifting cherry-blossom petals.
//!
//! One `sakura01` petal spawns every 2 frames until 150 are falling; a petal
//! that reaches the ground respawns at the top, so the count then holds. Each
//! petal draws its placement from the shared generator in a fixed order —
//! x, z, fall speed, size, action, and the two sway phases — so its action
//! (`0..3`) is the fifth of its seven draws. A petal tumbles one motion frame
//! every 36 ticks of its life.
//!
//! The generator state starts from the caller's seed with the low bit set.
//! Whole frames are stepped, so the first petal spawns on frame 2; the first
//! petal to land does so long after the 150th has spawned, so every spawn
//! draws from an untouched run of the sequence. Positions, sway and the fall
//! itself are the renderer's.
use vstd::prelude::*;
use crate::draw::EffectStatus;
use crate::rng::{lcg_iter, lcg_step, Rng};

verus! {

/// Persistent (parent duration table); the exporter clamps it.
pub const TOTAL_DURATION_MS: u32 = 99990;
/// The petal sprite.
pub const SPRITE: &'static str = "data/sprite/\u{c774}\u{d329}\u{d2b8}/sakura01";
/// Every sprite the rain draws.
pub const SPRITES: [&'static str; 1] = [SPRITE];
/// Petals falling at once.
pub const MAX_PETALS: u32 = 150;
/// Frames between two spawns.
pub const SPAWN_INTERVAL_FRAMES: u32 = 2;
/// Generator draws a petal's spawn takes.
pub const DRAWS_PER_PETAL: u32 = 7;
/// Which of its draws (counting from 1) picks a petal's action.
pub const ACTION_DRAW: u32 = 5;
/// Actions a petal can take.
pub const ACTION_COUNT: u32 = 3;
/// Ticks per motion frame of a petal's tumble.
pub const ANIM_SPEED_TICKS: u32 = 36;

/// Petals spawned by frame `frame`: one every 2 frames, at most 150.
pub open spec fn petals_at(frame: int) -> int {
    if frame / 2 < MAX_PETALS { frame / 2 } else { MAX_PETALS as int }
}

/// Action of petal `k` of a rain whose generator started at `start`.
pub open spec fn petal_action(start: u32, k: int) -> int {
    (lcg_iter(start, (DRAWS_PER_PETAL * k + ACTION_DRAW) as nat) % ACTION_COUNT) as int
}

/// The spawn schedule of one rain.
pub struct SakuraRain {
    start: u32,
    frame: u32,
    rng: Rng,
    actions: Vec<u32>,
}

impl SakuraRain {
    /// Generator state before the first petal.
    pub closed spec fn start_state(&self) -> u32 {
        self.start
    }

    /// Whole frames elapsed.
    pub closed spec fn frame_spec(&self) -> u32 {
        self.frame
    }

    /// Actions of the petals spawned so far, in spawn order.
    pub closed spec fn actions_spec(&self) -> Seq<u32> {
        self.actions@
    }

    /// The petals spawned match the schedule, each with its drawn action,
    /// and the generator has made exactly their draws.
    pub closed spec fn wf(&self) -> bool {
        &&& self.actions@.len() == petals_at(self.frame as int)
        &&& self.rng.state() == lcg_iter(self.start, (DRAWS_PER_PETAL * self.actions@.len()) as nat)
        &&& forall|k: int| 0 <= k < self.actions@.len() ==> #[trigger] self.actions@[k] == petal_action(self.start, k)
    }

    /// A rain on frame 0, with no petal yet; the generator starts at
    /// `seed | 1`.
    pub fn new(seed: u32) -> (r: SakuraRain)
        ensures
            r.wf(),
            r.start_state() == seed | 1,
            r.frame_spec() == 0,
            r.actions_spec().len() == 0,
    {
        let start = seed | 1;
        SakuraRain { start, frame: 0, rng: Rng(start), actions: Vec::new() }
    }

    /// Advances by `frames` whole frames, spawning the petals that fall due.
    /// The rain never ends by itself.
    pub fn advance(&mut self, frames: u32) -> (status: EffectStatus)
        requires
            old(self).wf(),
            old(self).frame_spec() + frames <= u32::MAX,
        ensures
            final(self).wf(),
            final(self).start_state() == old(self).start_state(),
            final(self).frame_spec() == old(self).frame_spec() + frames,
            final(self).actions_spec().len() == petals_at(final(self).frame_spec() as int),
            forall|k: int| 0 <= k < final(self).actions_spec().len()
                ==> #[trigger] final(self).actions_spec()[k] == petal_action(old(self).start_state(), k),
            status == EffectStatus::Running,
    {
        self.frame = self.frame + frames;
        let due: u32 = if self.frame / SPAWN_INTERVAL_FRAMES < MAX_PETALS {
            self.frame / SPAWN_INTERVAL_FRAMES
        } else {
            MAX_PETALS
        };
        while (self.actions.len() as u32) < due
            invariant
                self.start == old(self).start,
                self.frame == old(self).frame + frames,
                due == petals_at(self.frame as int),
                self.actions@.len() <= due,
                self.rng.state() == lcg_iter(self.start, (DRAWS_PER_PETAL * self.actions@.len()) as nat),
                forall|k: int| 0 <= k < self.actions@.len() ==> #[trigger] self.actions@[k] == petal_action(self.start, k),
            decreases due - self.actions@.len(),
        {
            let action = spawn_petal(&mut self.rng, Ghost(self.start), Ghost(self.actions@.len()));
            self.actions.push(action);
        }
        EffectStatus::Running
    }

    /// Petals falling now.
    pub fn petal_count(&self) -> (r: u32)
        requires
            self.wf(),
        ensures
            r == petals_at(self.frame_spec() as int),
    {
        self.actions.len() as u32
    }

    /// Action of petal `k`, in spawn order.
    pub fn action_of(&self, k: usize) -> (r: u32)
        requires
            self.wf(),
            k < self.actions_spec().len(),
        ensures
            r == petal_action(self.start_state(), k as int),
            r < ACTION_COUNT,
    {
        self.actions[k]
    }
}

/// Makes the seven draws of petal `n` and returns its action.
fn spawn_petal(rng: &mut Rng, Ghost(start): Ghost<u32>, Ghost(n): Ghost<nat>) -> (action: u32)
    requires
        old(rng).state() == lcg_iter(start, (DRAWS_PER_PETAL * n) as nat),
    ensures
        final(rng).state() == lcg_iter(start, (DRAWS_PER_PETAL * (n + 1)) as nat),
        action == petal_action(start, n as int),
{
    let mut action: u32 = 0;
    let mut j: u32 = 0;
    while j < DRAWS_PER_PETAL
        invariant
            j <= DRAWS_PER_PETAL,
            rng.state() == lcg_iter(start, (DRAWS_PER_PETAL * n + j) as nat),
            j >= ACTION_DRAW ==> action == petal_action(start, n as int),
        decreases DRAWS_PER_PETAL - j,
    {
        let v = rng.next_u32();
        j = j + 1;
        if j == ACTION_DRAW {
            action = v % ACTION_COUNT;
        }
    }
    action
}

/// Motion frame of a petal `age_frames` into its current fall.
pub fn petal_motion(age_frames: u32) -> (r: u32)
    ensures
        r == age_frames / ANIM_SPEED_TICKS,
{
    age_frames / ANIM_SPEED_TICKS
}

/// The rain fills up and then holds: the petal count never falls as frames
/// pass, never exceeds 150, and reaches 150 on frame 300; every action is
/// one of the three.
pub proof fn rain_fills_to_the_cap(start: u32, f1: int, f2: int, k: int)
    requires
        0 <= f1 <= f2,
    ensures
        petals_at(f1) <= petals_at(f2) <= MAX_PETALS,
        f2 >= 300 ==> petals_at(f2) == MAX_PETALS,
        f2 < 300 ==> petals_at(f2) == f2 / 2,
        0 <= petal_action(start, k) < ACTION_COUNT,
{
    assert(f1 / 2 <= f2 / 2) by (nonlinear_arith)
        requires
            0 <= f1 <= f2,
    ;
}

} // verus!
