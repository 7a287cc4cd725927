//! `EF_POKJUK` — a firecracker: four colored sparks burst overhead one after
//! another and drift away, fading.
//!
//! Spark `i` bursts once `8·i` frames have passed, at alpha 250 (of 255),
//! and from then on drains 1.5 per frame while it drifts and tumbles. Each
//! spark draws its look from the shared generator in a fixed order — palette
//! entry (`0..5`), texture (`0..3`), then elevation, heading, distance and
//! rotation — six draws per spark, spark 0 first. The firecracker ends after
//! 180 frames.
//!
//! Alphas here are kept exactly in units of 1/510 (so the 1.5 drain is 3 per
//! frame); the drift and tumble are the renderer's. Time is counted in
//! ticks, a caller-chosen `1/ticks` of a frame, so fractional frame counts
//! are kept exactly: alphas are then in `1/(510·ticks)`, and the drain is 3
//! per tick.
use vstd::prelude::*;
use crate::draw::EffectStatus;
use crate::rng::{lcg_iter, Rng};

verus! {

/// Sparks in one firecracker.
pub const NUM_SPARKS: u32 = 4;
/// Frames between two sparks' bursts.
pub const LAUNCH_STAGGER_FRAMES: u32 = 8;
/// Length of the firecracker in 60 fps frames.
pub const TOTAL_FRAMES: u32 = 180;
/// [`TOTAL_FRAMES`] in milliseconds.
pub const TOTAL_DURATION_MS: u32 = 3000;
/// Alpha a spark bursts at, in 1/510 units (250 of 255).
pub const START_ALPHA_510: u32 = 500;
/// Alpha drained per frame, in 1/510 units (1.5 of 255).
pub const DRAIN_PER_FRAME_510: u32 = 3;
/// Generator draws one spark's look takes.
pub const DRAWS_PER_SPARK: u32 = 6;

/// Spark textures.
pub const TEXTURES: [&'static str; 3] = ["pok1.tga", "pok2.tga", "pok3.tga"];
/// Palette (blue, red, green, yellow, magenta) as 8-bit RGB.
pub const COLORS: [[u8; 3]; 5] = [[70, 70, 255], [255, 70, 70], [70, 255, 70], [255, 255, 90], [255, 70, 255]];

/// Frame spark `i` bursts on.
pub open spec fn launch_delay(i: int) -> int {
    LAUNCH_STAGGER_FRAMES * i
}

/// Palette entry of spark `i` of a firecracker whose generator started at
/// `start`: its first draw, modulo 5.
pub open spec fn spark_color(start: u32, i: int) -> int {
    (lcg_iter(start, (DRAWS_PER_SPARK * i + 1) as nat) % 5) as int
}

/// Texture of spark `i`: its second draw, modulo 3.
pub open spec fn spark_texture(start: u32, i: int) -> int {
    (lcg_iter(start, (DRAWS_PER_SPARK * i + 2) as nat) % 3) as int
}

/// The look of one spark.
#[derive(Clone, Copy, Debug, PartialEq, Eq, Structural)]
pub struct SparkLook {
    /// Index into [`COLORS`].
    pub color: u32,
    /// Index into [`TEXTURES`].
    pub texture: u32,
}

/// Draws the looks of the four sparks from a generator started at
/// `seed | 1`.
pub fn spark_looks(seed: u32) -> (v: Vec<SparkLook>)
    ensures
        v@.len() == NUM_SPARKS,
        forall|i: int| 0 <= i < NUM_SPARKS ==> (#[trigger] v@[i]).color == spark_color(seed | 1, i)
            && v@[i].texture == spark_texture(seed | 1, i),
        forall|i: int| 0 <= i < NUM_SPARKS ==> (#[trigger] v@[i]).color < 5 && v@[i].texture < 3,
{
    let ghost start = seed | 1;
    let mut rng = Rng(seed | 1);
    let mut v: Vec<SparkLook> = Vec::new();
    let mut i: u32 = 0;
    while i < NUM_SPARKS
        invariant
            i <= NUM_SPARKS,
            v@.len() == i,
            rng.state() == lcg_iter(start, (DRAWS_PER_SPARK * i) as nat),
            forall|k: int| 0 <= k < i ==> #[trigger] v@[k] == look_of(start, k),
        decreases NUM_SPARKS - i,
    {
        let look = draw_look(&mut rng, Ghost(start), Ghost(i as nat));
        v.push(look);
        i = i + 1;
    }
    v
}

/// The look of spark `i`.
spec fn look_of(start: u32, i: int) -> SparkLook {
    SparkLook { color: spark_color(start, i) as u32, texture: spark_texture(start, i) as u32 }
}

/// Makes the six draws of spark `i` and returns its look.
fn draw_look(rng: &mut Rng, Ghost(start): Ghost<u32>, Ghost(i): Ghost<nat>) -> (look: SparkLook)
    requires
        old(rng).state() == lcg_iter(start, (DRAWS_PER_SPARK * i) as nat),
    ensures
        final(rng).state() == lcg_iter(start, (DRAWS_PER_SPARK * (i + 1)) as nat),
        look == look_of(start, i as int),
        look.color < 5,
        look.texture < 3,
{
    let mut color: u32 = 0;
    let mut texture: u32 = 0;
    let mut j: u32 = 0;
    while j < DRAWS_PER_SPARK
        invariant
            j <= DRAWS_PER_SPARK,
            rng.state() == lcg_iter(start, (DRAWS_PER_SPARK * i + j) as nat),
            j >= 1 ==> color == spark_color(start, i as int),
            j >= 2 ==> texture == spark_texture(start, i as int),
            color < 5,
            texture < 3,
        decreases DRAWS_PER_SPARK - j,
    {
        let v = rng.next_u32();
        j = j + 1;
        if j == 1 {
            color = v % 5;
        } else if j == 2 {
            texture = v % 3;
        }
    }
    SparkLook { color, texture }
}

/// Largest tick resolution a firecracker accepts.
pub const MAX_TICKS_PER_FRAME: u32 = 1_000_000;

/// The burst state of one spark.
#[derive(Clone, Copy, Debug, PartialEq, Eq, Structural)]
pub struct SparkState {
    /// Whether the spark has burst.
    pub bursting: bool,
    /// Its alpha, `1/(510·ticks)` units.
    pub alpha_510: u32,
}

/// One spark after an update of `dt` ticks that ends on tick `now` of a
/// clock of `t` ticks a frame: it bursts at full alpha once `now` reaches
/// its launch frame, and a burst spark drains 3 per tick of the update,
/// down to 0.
pub open spec fn spark_step(s: SparkState, i: int, now: int, dt: int, t: int) -> SparkState {
    if now < launch_delay(i) * t {
        s
    } else {
        let a = if s.bursting { s.alpha_510 as int } else { START_ALPHA_510 * t };
        let drained = a - DRAIN_PER_FRAME_510 * dt;
        SparkState { bursting: true, alpha_510: (if drained < 0 { 0 } else { drained }) as u32 }
    }
}

/// Spark `b`, launched after spark `a`, has not burst before it, and has
/// drained no more than it.
pub open spec fn bursts_in_order(a: SparkState, b: SparkState) -> bool {
    &&& b.bursting ==> a.bursting
    &&& b.bursting ==> a.alpha_510 <= b.alpha_510
}

/// The burst clock of one firecracker.
pub struct PokjukClock {
    ticks: u32,
    frame: u32,
    sparks: Vec<SparkState>,
}

impl PokjukClock {
    /// Ticks per frame.
    pub closed spec fn ticks_spec(&self) -> u32 {
        self.ticks
    }

    /// Ticks elapsed.
    pub closed spec fn frame_spec(&self) -> u32 {
        self.frame
    }

    /// Burst state of each spark.
    pub closed spec fn sparks_spec(&self) -> Seq<SparkState> {
        self.sparks@
    }

    /// A frame is 1 to 1,000,000 ticks; four sparks, each burst only once
    /// its launch frame has come, none brighter than it burst.
    pub closed spec fn wf(&self) -> bool {
        &&& 1 <= self.ticks <= MAX_TICKS_PER_FRAME
        &&& self.sparks@.len() == NUM_SPARKS
        &&& forall|i: int| 0 <= i < NUM_SPARKS ==> {
            &&& (#[trigger] self.sparks@[i]).alpha_510 <= START_ALPHA_510 * self.ticks
            &&& self.sparks@[i].bursting ==> self.frame >= launch_delay(i) * self.ticks
            &&& !self.sparks@[i].bursting ==> self.sparks@[i].alpha_510 == 0
        }
        &&& forall|i: int| 0 <= i < NUM_SPARKS - 1 ==> bursts_in_order(#[trigger] self.sparks@[i], self.sparks@[i + 1])
    }

    /// A firecracker on frame 0, counting whole frames; no spark has burst.
    pub fn new() -> (c: PokjukClock)
        ensures
            c.wf(),
            c.ticks_spec() == 1,
            c.frame_spec() == 0,
            forall|i: int| 0 <= i < NUM_SPARKS ==> !(#[trigger] c.sparks_spec()[i]).bursting,
    {
        Self::new_in_ticks(1)
    }

    /// A firecracker on frame 0, counting `ticks` ticks a frame; no spark
    /// has burst.
    pub fn new_in_ticks(ticks: u32) -> (c: PokjukClock)
        requires
            1 <= ticks <= MAX_TICKS_PER_FRAME,
        ensures
            c.wf(),
            c.ticks_spec() == ticks,
            c.frame_spec() == 0,
            forall|i: int| 0 <= i < NUM_SPARKS ==> !(#[trigger] c.sparks_spec()[i]).bursting,
    {
        let sparks = vec![
            SparkState { bursting: false, alpha_510: 0 },
            SparkState { bursting: false, alpha_510: 0 },
            SparkState { bursting: false, alpha_510: 0 },
            SparkState { bursting: false, alpha_510: 0 },
        ];
        PokjukClock { ticks, frame: 0, sparks }
    }

    /// Advances by `frames` ticks; reports `Dead` from frame 180.
    pub fn advance(&mut self, frames: u32) -> (status: EffectStatus)
        requires
            old(self).wf(),
            old(self).frame_spec() + frames <= u32::MAX,
        ensures
            final(self).wf(),
            final(self).ticks_spec() == old(self).ticks_spec(),
            final(self).frame_spec() == old(self).frame_spec() + frames,
            forall|i: int| 0 <= i < NUM_SPARKS ==> #[trigger] final(self).sparks_spec()[i]
                == spark_step(old(self).sparks_spec()[i], i, final(self).frame_spec() as int, frames as int,
                    old(self).ticks_spec() as int),
            status == (if final(self).frame_spec() >= TOTAL_FRAMES * old(self).ticks_spec() {
                EffectStatus::Dead
            } else {
                EffectStatus::Running
            }),
    {
        self.frame = self.frame + frames;
        let t = self.ticks;
        let ghost before = self.sparks@;
        let mut i: usize = 0;
        while i < self.sparks.len()
            invariant
                self.sparks@.len() == NUM_SPARKS,
                before.len() == NUM_SPARKS,
                self.frame == old(self).frame + frames,
                before == old(self).sparks@,
                old(self).wf(),
                i <= NUM_SPARKS,
                t == self.ticks,
                self.ticks == old(self).ticks,
                1 <= t <= MAX_TICKS_PER_FRAME,
                forall|k: int| 0 <= k < i ==> #[trigger] self.sparks@[k]
                    == spark_step(before[k], k, self.frame as int, frames as int, t as int),
                forall|k: int| i <= k < NUM_SPARKS ==> #[trigger] self.sparks@[k] == before[k],
            decreases NUM_SPARKS - i,
        {
            let s = self.sparks[i];
            proof {
                assert((LAUNCH_STAGGER_FRAMES * i as u32) as u64 * t as u64 <= 24 * 1_000_000) by (nonlinear_arith)
                    requires
                        i < 4,
                        t <= 1_000_000,
                ;
            }
            let delay: u64 = (LAUNCH_STAGGER_FRAMES * i as u32) as u64 * t as u64;
            if self.frame as u64 >= delay {
                let a: u32 = if s.bursting { s.alpha_510 } else { START_ALPHA_510 * t };
                let drain: u64 = DRAIN_PER_FRAME_510 as u64 * frames as u64;
                let next: u32 = if (a as u64) < drain { 0 } else { (a as u64 - drain) as u32 };
                self.sparks.set(i, SparkState { bursting: true, alpha_510: next });
            }
            i = i + 1;
        }
        proof {
            launch_ticks_ordered(t as int);
        }
        if self.frame as u64 >= TOTAL_FRAMES as u64 * t as u64 {
            EffectStatus::Dead
        } else {
            EffectStatus::Running
        }
    }

    /// Burst state of spark `i`.
    pub fn spark(&self, i: usize) -> (s: SparkState)
        requires
            self.wf(),
            i < NUM_SPARKS,
        ensures
            s == self.sparks_spec()[i as int],
    {
        self.sparks[i]
    }

    /// Sparks drawn now: burst and not yet drained.
    pub fn visible_count(&self) -> (r: u32)
        requires
            self.wf(),
        ensures
            r == visible_in(self.sparks_spec(), NUM_SPARKS as int),
    {
        let mut n: u32 = 0;
        let mut i: usize = 0;
        while i < self.sparks.len()
            invariant
                self.wf(),
                i <= NUM_SPARKS,
                n == visible_in(self.sparks@, i as int),
                n <= i,
            decreases NUM_SPARKS - i,
        {
            if self.sparks[i].bursting && self.sparks[i].alpha_510 > 0 {
                n = n + 1;
            }
            i = i + 1;
        }
        n
    }
}

/// Later sparks launch later at any tick resolution.
proof fn launch_ticks_ordered(t: int)
    requires
        t >= 0,
    ensures
        forall|i: int, j: int| 0 <= i <= j ==> #[trigger] launch_delay(i) * t <= #[trigger] launch_delay(j) * t,
{
    assert forall|i: int, j: int| 0 <= i <= j implies #[trigger] launch_delay(i) * t <= #[trigger] launch_delay(j) * t by {
        assert(8 * i * t <= 8 * j * t) by (nonlinear_arith)
            requires
                0 <= i <= j,
                t >= 0,
        ;
    }
}

/// Sparks among the first `n` of `s` that are burst and not yet drained.
pub open spec fn visible_in(s: Seq<SparkState>, n: int) -> int
    decreases n,
{
    if n <= 0 {
        0
    } else {
        visible_in(s, n - 1) + (if s[n - 1].bursting && s[n - 1].alpha_510 > 0 { 1int } else { 0 })
    }
}

/// Sparks burst in launch order, and a spark launched later is never dimmer
/// than one launched before it.
pub proof fn sparks_burst_in_order(c: PokjukClock, i: int, j: int)
    requires
        c.wf(),
        0 <= i <= j < NUM_SPARKS,
    ensures
        c.sparks_spec()[j].bursting ==> c.sparks_spec()[i].bursting,
        c.sparks_spec()[j].bursting ==> c.sparks_spec()[i].alpha_510 <= c.sparks_spec()[j].alpha_510,
    decreases j - i,
{
    if i < j {
        sparks_burst_in_order(c, i, j - 1);
        assert(bursts_in_order(c.sparks_spec()[j - 1], c.sparks_spec()[j]));
    }
}

/// A spark never brightens once it has burst: an update only drains it, and
/// whatever the steps (at any tick resolution), no alpha exceeds 250 of 255.
pub proof fn sparks_only_drain(s: SparkState, i: int, frame: int, frames: int, t: int)
    requires
        0 <= frames,
        1 <= t <= MAX_TICKS_PER_FRAME,
        s.alpha_510 <= START_ALPHA_510 * t,
        s.bursting ==> frame >= launch_delay(i) * t,
    ensures
        spark_step(s, i, frame, frames, t).alpha_510 <= START_ALPHA_510 * t,
        s.bursting ==> spark_step(s, i, frame, frames, t).alpha_510 <= s.alpha_510,
        s.bursting ==> spark_step(s, i, frame, frames, t).bursting,
        frames > 0 && s.bursting && s.alpha_510 > 0 ==> spark_step(s, i, frame, frames, t).alpha_510 < s.alpha_510,
{
}

} // verus!
