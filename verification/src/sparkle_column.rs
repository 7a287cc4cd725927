//! `EF_LEVEL993` (#202) / `EF_LEVEL994` (#362) / `EF_MAP_GHOST` (#692) — the
//! rising sparkle-mote layer of the level-99 aura (and a map-ambient reuse).
//!
//! `Level99_3(F1)` launches `PP_3DAURA_2`: camera-facing motes that rise out
//! of the ground, drift on a sine wobble, fade near the top and respawn at
//! the bottom. `F1` selects the texture and the mote count:
//!
//! | id  | F1 | texture            | motes | rise (units/s) | peak alpha |
//! |-----|----|--------------------|-------|----------------|------------|
//! | 202 | 0  | freezing_circle    | 20    | 6              | 0.85       |
//! | 362 | 1  | whitelight         | 20    | 6              | 0.85       |
//! | 692 | 3  | ghost              | 4     | 9              | 0.70       |
//!
//! Each mote takes five generator draws when it is (re)spawned: its
//! heading and distance from the axis, its height, its wobble phase and
//! its wobble direction. A new column spreads its motes over the whole
//! span (from 5 units below ground to 11 above); a respawned mote starts
//! 0–5 units below ground. Each frame a mote rises `rise / 60` units and
//! respawns once past 11 units up. It is drawn from the ground up, fading
//! in over its first unit and out over the top 35% of the column.
//!
//! Heights are kept exactly, in ticks of `1 / (60 · 2^24)` of a unit
//! (below ground positive, up negative); the wobble and the billboard
//! geometry are the renderer's.
//!
//! Persistent: lives until the server clears it.
use vstd::prelude::*;
use crate::draw::EffectStatus;
use crate::rng::{lcg_next, lcg_step};

verus! {

/// Texture and population of one sparkle-column variant.
#[derive(Clone, Copy)]
pub struct SparkleColumnParams {
    /// Mote billboard texture.
    pub texture: &'static str,
    /// Number of motes alive at once (kept constant through respawns).
    pub count: usize,
    /// Rise speed, world units per second.
    pub rise_speed: u32,
    /// Horizontal scatter radius around the axis, tenths of a unit.
    pub scatter_tenths: u32,
    /// Peak alpha of a mote, hundredths of full.
    pub alpha_max_pct: u32,
}

/// Every texture the sparkle columns draw with.
pub const TEXTURES: [&'static str; 3] = ["freezing_circle.bmp", "whitelight.tga", "ghost.bmp"];

/// `EF_LEVEL993` — freezing-circle motes hugging the caster.
pub open spec fn freezing_spec() -> SparkleColumnParams {
    SparkleColumnParams { texture: "freezing_circle.bmp", count: 20, rise_speed: 6, scatter_tenths: 15, alpha_max_pct: 85 }
}

/// `EF_LEVEL994` — blue whitelight motes, wider spread.
pub open spec fn whitelight_spec() -> SparkleColumnParams {
    SparkleColumnParams { texture: "whitelight.tga", count: 20, rise_speed: 6, scatter_tenths: 20, alpha_max_pct: 85 }
}

/// `EF_MAP_GHOST` — large grey ghost motes scattered across a wide footprint.
pub open spec fn ghost_spec() -> SparkleColumnParams {
    SparkleColumnParams { texture: "ghost.bmp", count: 4, rise_speed: 9, scatter_tenths: 70, alpha_max_pct: 70 }
}

/// `EF_LEVEL993` — `Level99_3(0)`, freezing-circle motes.
#[allow(non_snake_case)]
pub fn FREEZING() -> (p: SparkleColumnParams)
    ensures
        p == freezing_spec(),
{
    SparkleColumnParams { texture: "freezing_circle.bmp", count: 20, rise_speed: 6, scatter_tenths: 15, alpha_max_pct: 85 }
}

/// `EF_LEVEL994` — `Level99_3(1)`, blue whitelight motes.
#[allow(non_snake_case)]
pub fn WHITELIGHT() -> (p: SparkleColumnParams)
    ensures
        p == whitelight_spec(),
{
    SparkleColumnParams { texture: "whitelight.tga", count: 20, rise_speed: 6, scatter_tenths: 20, alpha_max_pct: 85 }
}

/// `EF_MAP_GHOST` — `Level99_3(3)`, large grey ghost motes.
#[allow(non_snake_case)]
pub fn GHOST() -> (p: SparkleColumnParams)
    ensures
        p == ghost_spec(),
{
    SparkleColumnParams { texture: "ghost.bmp", count: 4, rise_speed: 9, scatter_tenths: 70, alpha_max_pct: 70 }
}

/// The three variants draw three different textures, each of them listed in
/// [`TEXTURES`].
pub proof fn variants_use_distinct_listed_textures()
    ensures
        freezing_spec().texture@ == TEXTURES[0]@,
        whitelight_spec().texture@ == TEXTURES[1]@,
        ghost_spec().texture@ == TEXTURES[2]@,
        freezing_spec().texture@ != whitelight_spec().texture@,
        freezing_spec().texture@ != ghost_spec().texture@,
        whitelight_spec().texture@ != ghost_spec().texture@,
{
    reveal_strlit("freezing_circle.bmp");
    reveal_strlit("whitelight.tga");
    reveal_strlit("ghost.bmp");
    assert("freezing_circle.bmp"@[0] != "whitelight.tga"@[0]);
    assert("freezing_circle.bmp"@[0] != "ghost.bmp"@[0]);
    assert("whitelight.tga"@[0] != "ghost.bmp"@[0]);
}

/// A sparkle column is persistent: every update reports `Running`, whatever
/// its age, until its holder removes it.
pub fn status_at(_frame: u32) -> (s: EffectStatus)
    ensures
        s == EffectStatus::Running,
{
    EffectStatus::Running
}

/// Height ticks per world unit: `60 · 2^24`.
pub const TICKS_PER_UNIT: i64 = 1_006_632_960;
/// Top of the column, 11 units up: a mote past it respawns.
pub const COLUMN_TOP: i64 = -11_072_962_560;
/// Depth a respawned mote starts at most, 5 units below ground.
pub const SEED_DEPTH: i64 = 5_033_164_800;
/// Height the top fade starts at, 65% of the way up (7.15 units).
pub const FADE_TOP_START: i64 = -7_197_425_664;
/// Length of the top fade, 35% of the column (3.85 units).
pub const FADE_TOP_SPAN: i64 = 3_875_536_896;

/// One mote: its height in ticks, the frame it was (re)spawned on, and
/// the draws (each the top 24 bits of a generator state) that place it.
#[derive(Clone, Copy, Debug, PartialEq, Eq, Structural)]
pub struct Mote {
    /// Height, ticks: positive below ground, negative up.
    pub y: i64,
    /// Column frame it was spawned on (the wobble runs from then).
    pub born: u64,
    /// Heading around the axis, of a full turn.
    pub angle_draw: u32,
    /// Distance from the axis: the scatter radius times its square root.
    pub radius_draw: u32,
    /// Initial wobble phase, of a full turn.
    pub wobble_draw: u32,
    /// Wobble direction, of a full turn.
    pub dir_draw: u32,
}

/// The top 24 bits of a generator state.
pub open spec fn top24(s: u32) -> int {
    s as int / 256
}

/// The mote spawned on frame `born` from a generator at `state`, and the
/// generator after its five draws: spread over the whole column when the
/// column is new (`5 − 16·f` units, `f` the height draw as a fraction of
/// `2^24`), else `5·f` units below ground.
pub open spec fn spawned_mote(state: u32, initial: bool, born: int) -> (Mote, u32) {
    let s1 = lcg_step(state);
    let s2 = lcg_step(s1);
    let s3 = lcg_step(s2);
    let s4 = lcg_step(s3);
    let s5 = lcg_step(s4);
    let y = if initial { SEED_DEPTH - 960 * top24(s3) } else { 300 * top24(s3) };
    (Mote {
        y: y as i64,
        born: born as u64,
        angle_draw: top24(s1) as u32,
        radius_draw: top24(s2) as u32,
        wobble_draw: top24(s4) as u32,
        dir_draw: top24(s5) as u32,
    }, s5)
}

/// The first `n` motes of a new column seeded with `seed`, and the
/// generator after them.
pub open spec fn initial_motes(seed: u32, n: nat) -> (Seq<Mote>, u32)
    decreases n,
{
    if n == 0 {
        (Seq::empty(), seed)
    } else {
        let (prev, st) = initial_motes(seed, (n - 1) as nat);
        let (m, st2) = spawned_mote(st, true, 0);
        (prev.push(m), st2)
    }
}

/// The first `n` motes of `ms` after one frame that ends on `frame`: each
/// rises `rise` ticks, and one past the top respawns from the generator,
/// mote by mote in order. Also the generator after them.
pub open spec fn risen_motes(ms: Seq<Mote>, rise: int, state: u32, frame: int, n: nat) -> (Seq<Mote>, u32)
    decreases n,
{
    if n == 0 {
        (Seq::empty(), state)
    } else {
        let (prev, st) = risen_motes(ms, rise, state, frame, (n - 1) as nat);
        let m = ms[n - 1];
        let y = m.y - rise;
        if y < COLUMN_TOP {
            let (fresh, st2) = spawned_mote(st, false, frame);
            (prev.push(fresh), st2)
        } else {
            (prev.push(Mote { y: y as i64, ..m }), st)
        }
    }
}

/// A mote inside the column: between its top and 5 units below ground,
/// spawned no later than `frame`.
pub open spec fn in_column(m: Mote, frame: int) -> bool {
    COLUMN_TOP <= m.y <= SEED_DEPTH && m.born <= frame
}

/// Rise per frame, ticks: `rise_speed / 60` units.
pub open spec fn rise_ticks(p: SparkleColumnParams) -> int {
    p.rise_speed * 0x100_0000
}

/// Makes the five draws of one mote.
fn spawn_mote(state: &mut u32, initial: bool, born: u64) -> (m: Mote)
    ensures
        (m, *final(state)) == spawned_mote(*old(state), initial, born as int),
        in_column(m, born as int),
{
    let a = lcg_next(state) / 256;
    let r = lcg_next(state) / 256;
    let h = lcg_next(state) / 256;
    let w = lcg_next(state) / 256;
    let d = lcg_next(state) / 256;
    let y: i64 = if initial { SEED_DEPTH - 960 * h as i64 } else { 300 * h as i64 };
    Mote { y, born, angle_draw: a, radius_draw: r, wobble_draw: w, dir_draw: d }
}

/// Raises every mote of `motes` by `rise` ticks, respawning, in order,
/// those past the top on frame `frame`.
fn rise_motes(motes: &Vec<Mote>, rise: i64, state: &mut u32, frame: u64) -> (next: Vec<Mote>)
    requires
        0 <= rise <= 0xFFFF_FFFF * 0x100_0000,
        frame >= 1,
        forall|k: int| 0 <= k < motes@.len() ==> in_column(#[trigger] motes@[k], frame - 1),
    ensures
        (next@, *final(state)) == risen_motes(motes@, rise as int, *old(state), frame as int, motes@.len()),
        next@.len() == motes@.len(),
        forall|k: int| 0 <= k < next@.len() ==> in_column(#[trigger] next@[k], frame as int),
{
    let mut next: Vec<Mote> = Vec::new();
    let mut i: usize = 0;
    while i < motes.len()
        invariant
            0 <= rise <= 0xFFFF_FFFF * 0x100_0000,
            forall|k: int| 0 <= k < motes@.len() ==> in_column(#[trigger] motes@[k], frame - 1),
            i <= motes@.len(),
            next@.len() == i,
            (next@, *state) == risen_motes(motes@, rise as int, *old(state), frame as int, i as nat),
            forall|k: int| 0 <= k < i ==> in_column(#[trigger] next@[k], frame as int),
        decreases motes@.len() - i,
    {
        let m = motes[i];
        assert(in_column(motes@[i as int], frame - 1));
        let y = m.y - rise;
        if y < COLUMN_TOP {
            let fresh = spawn_mote(state, false, frame);
            next.push(fresh);
        } else {
            next.push(Mote { y, ..m });
        }
        i = i + 1;
    }
    next
}

/// A running sparkle column: its variant, its motes in spawn order, the
/// frames it has run, and its generator.
pub struct SparkleColumn {
    params: SparkleColumnParams,
    motes: Vec<Mote>,
    frame: u64,
    rng_state: u32,
}

impl SparkleColumn {
    /// The variant.
    pub closed spec fn params_spec(&self) -> SparkleColumnParams {
        self.params
    }

    /// The motes, in spawn order.
    pub closed spec fn motes_spec(&self) -> Seq<Mote> {
        self.motes@
    }

    /// Frames run.
    pub closed spec fn frame_spec(&self) -> u64 {
        self.frame
    }

    /// The generator's state.
    pub closed spec fn rng_spec(&self) -> u32 {
        self.rng_state
    }

    /// The column keeps its population, and every mote is inside it.
    pub open spec fn wf(&self) -> bool {
        &&& self.motes_spec().len() == self.params_spec().count
        &&& forall|i: int| 0 <= i < self.motes_spec().len()
            ==> in_column(#[trigger] self.motes_spec()[i], self.frame_spec() as int)
    }

    /// A new column of `params` seeded with `seed`, its motes spread over
    /// the whole span.
    pub fn new(params: SparkleColumnParams, seed: u32) -> (c: SparkleColumn)
        ensures
            c.wf(),
            c.params_spec() == params,
            c.frame_spec() == 0,
            (c.motes_spec(), c.rng_spec()) == initial_motes(seed, params.count as nat),
    {
        let mut state = seed;
        let mut motes: Vec<Mote> = Vec::new();
        let mut i: usize = 0;
        while i < params.count
            invariant
                i <= params.count,
                (motes@, state) == initial_motes(seed, i as nat),
                motes@.len() == i,
                forall|k: int| 0 <= k < i ==> in_column(#[trigger] motes@[k], 0),
            decreases params.count - i,
        {
            let m = spawn_mote(&mut state, true, 0);
            motes.push(m);
            i = i + 1;
        }
        SparkleColumn { params, motes, frame: 0, rng_state: state }
    }

    /// One frame: every mote rises; one past the top respawns below
    /// ground. A sparkle column never ends by itself.
    pub fn step_frame(&mut self) -> (status: EffectStatus)
        requires
            old(self).wf(),
            old(self).frame_spec() < u64::MAX,
        ensures
            final(self).wf(),
            final(self).params_spec() == old(self).params_spec(),
            final(self).frame_spec() == old(self).frame_spec() + 1,
            (final(self).motes_spec(), final(self).rng_spec()) == risen_motes(old(self).motes_spec(),
                rise_ticks(old(self).params_spec()), old(self).rng_spec(), final(self).frame_spec() as int,
                old(self).motes_spec().len()),
            status == EffectStatus::Running,
    {
        let frame = self.frame + 1;
        let rise: i64 = self.params.rise_speed as i64 * 0x100_0000;
        let next = rise_motes(&self.motes, rise, &mut self.rng_state, frame);
        self.motes = next;
        self.frame = frame;
        EffectStatus::Running
    }

    /// Number of motes.
    pub fn mote_count(&self) -> (r: usize)
        ensures
            r == self.motes_spec().len(),
    {
        self.motes.len()
    }

    /// Mote `i`.
    pub fn mote(&self, i: usize) -> (r: Mote)
        requires
            i < self.motes_spec().len(),
        ensures
            r == self.motes_spec()[i as int],
    {
        self.motes[i]
    }

    /// Frames run.
    pub fn frame(&self) -> (r: u64)
        ensures
            r == self.frame_spec(),
    {
        self.frame
    }
}

/// How a mote at height `y` is faded: `None` when it is not drawn (below
/// or at the ground, or past the top), else its fade-in in ticks of one
/// unit (`TICKS_PER_UNIT` is full) and its top fade in ticks of
/// `FADE_TOP_SPAN` (that is full). Its alpha is `alpha_max` times both.
pub open spec fn mote_fade_spec(y: int) -> Option<(i64, i64)> {
    let fade_in = if -y > TICKS_PER_UNIT { TICKS_PER_UNIT as int } else { -y };
    let fade_out = if y > FADE_TOP_START { FADE_TOP_SPAN as int } else if y - COLUMN_TOP < 0 { 0 } else { y - COLUMN_TOP };
    if y >= 0 || fade_out <= 0 {
        None
    } else {
        Some((fade_in as i64, fade_out as i64))
    }
}

/// The fade of a mote at height `y`, if it is drawn.
pub fn mote_fade(y: i64) -> (r: Option<(i64, i64)>)
    ensures
        r == mote_fade_spec(y as int),
{
    if y >= 0 {
        return None;
    }
    let fade_in: i64 = if y < -TICKS_PER_UNIT { TICKS_PER_UNIT } else { -y };
    let fade_out: i64 = if y > FADE_TOP_START {
        FADE_TOP_SPAN
    } else if y < COLUMN_TOP {
        0
    } else {
        y - COLUMN_TOP
    };
    if fade_out <= 0 { None } else { Some((fade_in, fade_out)) }
}

/// Denominator of a mote's alpha: hundredths times both full fades.
pub open spec fn mote_alpha_den() -> int {
    100 * TICKS_PER_UNIT * FADE_TOP_SPAN
}

/// A mote's alpha at height `y`, as `(num, den)` of full: the peak times
/// its fade-in and its top fade; `None` when it is not drawn.
pub fn mote_alpha(p: &SparkleColumnParams, y: i64) -> (r: Option<(u128, u128)>)
    requires
        p.alpha_max_pct <= 100,
    ensures
        r == (match mote_fade_spec(y as int) {
            Some((fi, fo)) => Some(((p.alpha_max_pct * fi * fo) as u128, mote_alpha_den() as u128)),
            None => None,
        }),
        r matches Some((n, d)) ==> d == mote_alpha_den() && n * 100 <= p.alpha_max_pct * d
            && (p.alpha_max_pct > 0 ==> n > 0),
{
    match mote_fade(y) {
        None => None,
        Some((fi, fo)) => {
            proof {
                assert(COLUMN_TOP < y < 0 && 0 < fi <= TICKS_PER_UNIT && 0 < fo <= FADE_TOP_SPAN);
            }
            let a = p.alpha_max_pct as u128;
            let f1 = fi as u128;
            let f2 = fo as u128;
            proof {
                assert(f1 * f2 <= TICKS_PER_UNIT * FADE_TOP_SPAN && f1 * f2 > 0) by (nonlinear_arith)
                    requires
                        0 < f1 <= TICKS_PER_UNIT,
                        0 < f2 <= FADE_TOP_SPAN,
                ;
                assert(a * (f1 * f2) <= 100 * (TICKS_PER_UNIT * FADE_TOP_SPAN)) by (nonlinear_arith)
                    requires
                        a <= 100,
                        f1 * f2 <= TICKS_PER_UNIT * FADE_TOP_SPAN,
                ;
                assert(a * f1 * f2 == a * (f1 * f2)) by (nonlinear_arith);
                assert(a * (f1 * f2) * 100 <= a * (100 * TICKS_PER_UNIT * FADE_TOP_SPAN)) by (nonlinear_arith)
                    requires
                        f1 * f2 <= TICKS_PER_UNIT * FADE_TOP_SPAN,
                        a >= 0,
                ;
                assert(a > 0 ==> a * (f1 * f2) > 0) by (nonlinear_arith)
                    requires
                        f1 * f2 > 0,
                ;
            }
            Some((a * (f1 * f2), 100 * (TICKS_PER_UNIT as u128) * (FADE_TOP_SPAN as u128)))
        },
    }
}

/// A mote's squared distance from the axis, in `1 / (100 · 2^24)` of a
/// square unit: the squared scatter radius times the distance draw.
pub fn mote_distance_sq(p: &SparkleColumnParams, m: &Mote) -> (r: u128)
    requires
        m.radius_draw < 0x100_0000,
    ensures
        r == p.scatter_tenths * p.scatter_tenths * m.radius_draw,
{
    let s = p.scatter_tenths as u128;
    proof {
        assert(s * s <= 0xFFFF_FFFF * 0xFFFF_FFFFu128) by (nonlinear_arith) requires s <= 0xFFFF_FFFF;
        assert(s * s * m.radius_draw <= 0xFFFF_FFFF * 0xFFFF_FFFFu128 * 0x100_0000) by (nonlinear_arith)
            requires s * s <= 0xFFFF_FFFF * 0xFFFF_FFFFu128, m.radius_draw < 0x100_0000;
    }
    s * s * m.radius_draw as u128
}

/// A column keeps its population and every mote within the column through
/// every frame; a drawn mote is above the ground and below the top, with
/// both fades positive and at most full.
pub proof fn motes_stay_in_their_column(c: SparkleColumn, i: int)
    requires
        c.wf(),
        0 <= i < c.motes_spec().len(),
    ensures
        c.motes_spec().len() == c.params_spec().count,
        COLUMN_TOP <= c.motes_spec()[i].y <= SEED_DEPTH,
        mote_fade_spec(c.motes_spec()[i].y as int) matches Some((fi, fo)) ==>
            COLUMN_TOP < c.motes_spec()[i].y < 0 && 0 < fi <= TICKS_PER_UNIT && 0 < fo <= FADE_TOP_SPAN,
{
    assert(in_column(c.motes_spec()[i], c.frame_spec() as int));
}

} // verus!
