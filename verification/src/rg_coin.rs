//! `RG_COIN` / `RG_COIN2` / `RG_COIN3` / `INTIMIDATE` (`PP_INTIMIDATE`) — the
//! Rogue coin/strip bursts: a swarm of quads thrown out from the target.
//!
//! Each variant lists groups of quads (texture and count). Every quad takes
//! five draws from one generator stream seeded with `0x5EEDC01D`: its delay
//! `delay_base + random(30)` first, then its elevation, azimuth, spin and
//! flip phases. A quad's alpha ramps to `alpha_max` over 10 frames once its
//! delay is over, holds until frame 25 of its flight, then fades `−7` per
//! frame (of 255). The effect's length covers the latest possible quad's
//! fade. Alphas are kept in 2550ths so that any peak in `0..=255` ramps in
//! exact tenths. Time may be counted in ticks, a caller-chosen `1/ticks` of
//! a frame, so fractional frame counts are kept exactly (alphas then in
//! `1/(2550·ticks)`); whole frames are the case of one tick a frame.
//!
//! This module holds the quad schedule, the alpha curve and the lifetime;
//! positions and spins (float trigonometry over the draws) are the
//! renderer's. `RenderIntimidate` draws two quad styles, chosen per variant.
use vstd::prelude::*;
use crate::draw::EffectStatus;
use crate::rng::{lcg_iter, lcg_next};

verus! {

/// Which `RenderIntimidate` quad style a variant uses.
#[derive(Clone, Copy, Debug, PartialEq, Eq, Structural)]
pub enum CoinStyle {
    /// Vertical world-space diamond spinning around the world Y axis — the
    /// spin squashes its width like a coin flipping in flight.
    FlipY,
    /// Camera-facing billboard spinning in the screen plane.
    Billboard,
}

pub const TEXTURES: [&'static str; 6] = ["coin_a.bmp", "shield.bmp", "sword.bmp", "black_sword.bmp",
    "lexaeterna_sword.bmp", "white01.bmp"];
/// Spread of the quads' delays: `random(30)`.
pub const DELAY_RANGE: u32 = 30;
/// Frames over which a quad's alpha ramps in.
pub const ALPHA_RISE_FRAMES: u32 = 10;
/// Frame of its flight after which a quad fades.
pub const ALPHA_FADE_START: u32 = 25;
/// Alpha a quad loses per frame while fading, `0..=255` units.
pub const ALPHA_FALL_PER_FRAME: u32 = 7;
/// Seed of the quads' generator stream.
pub const COIN_SEED: u32 = 0x5EED_C01D;

/// One group of quads of a variant.
#[derive(Clone, Copy, Debug)]
pub struct CoinGroup {
    /// Quad texture.
    pub texture: &'static str,
    /// Quads in the group.
    pub count: usize,
}

/// Integer parameters of one variant.
#[derive(Clone, Copy, Debug)]
pub struct RgCoinParams {
    /// The quad groups, thrown in order.
    pub groups: &'static [CoinGroup],
    /// Quad style.
    pub style: CoinStyle,
    /// Shortest delay of a quad, frames.
    pub delay_base: u32,
    /// Peak alpha, `0..=255` units.
    pub alpha_max_255: u32,
    /// Stage overlay played alongside, if any.
    pub str_overlay: Option<&'static str>,
}

/// One scheduled quad: its texture, delay and the raw draws the renderer
/// maps to its elevation, azimuth, spin and flip phases.
#[derive(Clone, Copy, Debug)]
pub struct Coin {
    /// Quad texture.
    pub texture: &'static str,
    /// Frames before the quad appears.
    pub delay: u32,
    /// Draw for the elevation angle.
    pub elevation_draw: u32,
    /// Draw for the azimuth.
    pub azimuth_draw: u32,
    /// Draw for the spin phase.
    pub rot_draw: u32,
    /// Draw for the flip phase.
    pub flip_draw: u32,
}

/// The quads' textures in throw order: each group's texture, `count` times.
pub open spec fn coin_textures(groups: Seq<CoinGroup>) -> Seq<&'static str>
    decreases groups.len(),
{
    if groups.len() == 0 {
        Seq::empty()
    } else {
        let last = groups.last();
        coin_textures(groups.drop_last()) + Seq::new(last.count as nat, |i: int| last.texture)
    }
}

/// Quad `k` of a variant with delays from `delay_base`, texture `texture`.
pub open spec fn coin_at(texture: &'static str, delay_base: u32, k: int) -> Coin {
    Coin {
        texture,
        delay: (delay_base + lcg_iter(COIN_SEED, (5 * k + 1) as nat) % DELAY_RANGE) as u32,
        elevation_draw: lcg_iter(COIN_SEED, (5 * k + 2) as nat),
        azimuth_draw: lcg_iter(COIN_SEED, (5 * k + 3) as nat),
        rot_draw: lcg_iter(COIN_SEED, (5 * k + 4) as nat),
        flip_draw: lcg_iter(COIN_SEED, (5 * k + 5) as nat),
    }
}

/// A peak alpha in its documented `0..=255` range, and a latest delay
/// `delay_base + 30` that fits in a `u32`.
pub open spec fn params_ok(p: RgCoinParams) -> bool {
    &&& p.alpha_max_255 <= 255
    &&& p.delay_base + DELAY_RANGE <= u32::MAX
}

/// Alpha of a quad `q` ticks into its flight at `t` ticks a frame (`0`
/// before it appears and once it has faded), in `1/(2550·t)`: `q ·
/// alpha_max` over the ramp, `10 · alpha_max · t` on the hold, then `70`
/// less per tick.
pub open spec fn coin_alpha_ticks(p: RgCoinParams, q: int, t: int) -> int {
    let a = if q <= 0 {
        0
    } else if q <= ALPHA_RISE_FRAMES * t {
        q * p.alpha_max_255
    } else if q <= ALPHA_FADE_START * t {
        ALPHA_RISE_FRAMES * p.alpha_max_255 * t
    } else {
        ALPHA_RISE_FRAMES * p.alpha_max_255 * t - ALPHA_RISE_FRAMES * ALPHA_FALL_PER_FRAME * (q - ALPHA_FADE_START * t)
    };
    if a > 0 { a } else { 0 }
}

/// Alpha of a quad `process` frames into its flight (`0` before it
/// appears and once it has faded), in 2550ths: `process · alpha_max` over
/// the ramp, `10 · alpha_max` on the hold, then `70` less per frame.
pub open spec fn coin_alpha_at(p: RgCoinParams, process: int) -> int {
    coin_alpha_ticks(p, process, 1)
}

/// Frames the latest quad needs, times 7 (the fade takes `alpha_max / 7`
/// frames): `7 * (delay_base + 30 + 25) + alpha_max`.
pub open spec fn life_sevenths(p: RgCoinParams) -> int {
    7 * (p.delay_base + DELAY_RANGE + ALPHA_FADE_START) + p.alpha_max_255
}

/// The effect's length in whole ms (truncated, and saturated at `u32::MAX`).
pub open spec fn total_duration_spec(p: RgCoinParams) -> int {
    let ms = life_sevenths(p) * 1000 / 420;
    if ms > u32::MAX { u32::MAX as int } else { ms }
}

/// Steal Coin: 120 gold coins flipping in flight, with the money-bag overlay.
#[allow(non_snake_case)]
pub fn RG_COIN() -> (p: RgCoinParams)
    ensures
        p.groups@ == seq![CoinGroup { texture: "coin_a.bmp", count: 120 }],
        p.style == CoinStyle::FlipY,
        p.delay_base == 18,
        p.alpha_max_255 == 250,
        p.str_overlay == Some("steal_coin"),
{
    RgCoinParams {
        groups: &[CoinGroup { texture: "coin_a.bmp", count: 120 }],
        style: CoinStyle::FlipY,
        delay_base: 18,
        alpha_max_255: 250,
        str_overlay: Some("steal_coin"),
    }
}

/// Full Strip: 16 shields and 16 swords.
#[allow(non_snake_case)]
pub fn RG_COIN2() -> (p: RgCoinParams)
    ensures
        p.groups@ == seq![CoinGroup { texture: "shield.bmp", count: 16 }, CoinGroup { texture: "sword.bmp", count: 16 }],
        p.style == CoinStyle::Billboard,
        p.delay_base == 18,
        p.alpha_max_255 == 250,
        p.str_overlay is None,
{
    RgCoinParams {
        groups: &[CoinGroup { texture: "shield.bmp", count: 16 }, CoinGroup { texture: "sword.bmp", count: 16 }],
        style: CoinStyle::Billboard,
        delay_base: 18,
        alpha_max_255: 250,
        str_overlay: None,
    }
}

/// Strip Weapon/Shield/Armor/Helm: four each of four textures.
#[allow(non_snake_case)]
pub fn RG_COIN3() -> (p: RgCoinParams)
    ensures
        p.groups@ == seq![CoinGroup { texture: "sword.bmp", count: 4 }, CoinGroup { texture: "black_sword.bmp", count: 4 },
            CoinGroup { texture: "lexaeterna_sword.bmp", count: 4 }, CoinGroup { texture: "shield.bmp", count: 4 }],
        p.style == CoinStyle::Billboard,
        p.delay_base == 18,
        p.alpha_max_255 == 250,
        p.str_overlay is None,
{
    RgCoinParams {
        groups: &[
            CoinGroup { texture: "sword.bmp", count: 4 },
            CoinGroup { texture: "black_sword.bmp", count: 4 },
            CoinGroup { texture: "lexaeterna_sword.bmp", count: 4 },
            CoinGroup { texture: "shield.bmp", count: 4 },
        ],
        style: CoinStyle::Billboard,
        delay_base: 18,
        alpha_max_255: 250,
        str_overlay: None,
    }
}

/// Intimidate: 80 dim quads, long delayed.
#[allow(non_snake_case)]
pub fn INTIMIDATE() -> (p: RgCoinParams)
    ensures
        p.groups@ == seq![CoinGroup { texture: "white01.bmp", count: 80 }],
        p.style == CoinStyle::FlipY,
        p.delay_base == 70,
        p.alpha_max_255 == 150,
        p.str_overlay is None,
{
    RgCoinParams {
        groups: &[CoinGroup { texture: "white01.bmp", count: 80 }],
        style: CoinStyle::FlipY,
        delay_base: 70,
        alpha_max_255: 150,
        str_overlay: None,
    }
}

impl RgCoinParams {
    /// The quads' textures in throw order.
    pub fn textures_in_order(&self) -> (v: Vec<&'static str>)
        ensures
            v@ == coin_textures(self.groups@),
    {
        let mut v: Vec<&'static str> = Vec::new();
        let mut g: usize = 0;
        while g < self.groups.len()
            invariant
                g <= self.groups@.len(),
                v@ == coin_textures(self.groups@.take(g as int)),
            decreases self.groups@.len() - g,
        {
            let group = self.groups[g];
            let ghost base = v@;
            let mut j: usize = 0;
            while j < group.count
                invariant
                    j <= group.count,
                    v@ == base + Seq::new(j as nat, |i: int| group.texture),
                decreases group.count - j,
            {
                v.push(group.texture);
                j = j + 1;
                assert(v@ =~= base + Seq::new(j as nat, |i: int| group.texture));
            }
            proof {
                assert(self.groups@.take(g + 1).drop_last() =~= self.groups@.take(g as int));
                assert(self.groups@.take(g + 1).last() == group);
            }
            g = g + 1;
        }
        assert(self.groups@.take(self.groups@.len() as int) =~= self.groups@);
        v
    }

    /// The quads in throw order, each with its texture, delay and draws.
    pub fn coins(&self) -> (v: Vec<Coin>)
        requires
            self.delay_base + DELAY_RANGE <= u32::MAX,
        ensures
            v@.len() == coin_textures(self.groups@).len(),
            forall|k: int| 0 <= k < v@.len() ==> #[trigger] v@[k]
                == coin_at(coin_textures(self.groups@)[k], self.delay_base, k),
    {
        let textures = self.textures_in_order();
        let mut state: u32 = COIN_SEED;
        let mut v: Vec<Coin> = Vec::new();
        let mut k: usize = 0;
        while k < textures.len()
            invariant
                k <= textures@.len(),
                textures@ == coin_textures(self.groups@),
                v@.len() == k,
                state == lcg_iter(COIN_SEED, (5 * k) as nat),
                self.delay_base + DELAY_RANGE <= u32::MAX,
                forall|i: int| 0 <= i < k ==> #[trigger] v@[i] == coin_at(textures@[i], self.delay_base, i),
            decreases textures@.len() - k,
        {
            let d = lcg_next(&mut state);
            let e = lcg_next(&mut state);
            let a = lcg_next(&mut state);
            let r = lcg_next(&mut state);
            let f = lcg_next(&mut state);
            let delay = self.delay_base + d % DELAY_RANGE;
            proof {
                let ghost b = 5 * k;
                assert(lcg_iter(COIN_SEED, (b + 1) as nat) == crate::rng::lcg_step(lcg_iter(COIN_SEED, b as nat)));
                assert(lcg_iter(COIN_SEED, (b + 2) as nat) == crate::rng::lcg_step(lcg_iter(COIN_SEED, (b + 1) as nat)));
                assert(lcg_iter(COIN_SEED, (b + 3) as nat) == crate::rng::lcg_step(lcg_iter(COIN_SEED, (b + 2) as nat)));
                assert(lcg_iter(COIN_SEED, (b + 4) as nat) == crate::rng::lcg_step(lcg_iter(COIN_SEED, (b + 3) as nat)));
                assert(lcg_iter(COIN_SEED, (b + 5) as nat) == crate::rng::lcg_step(lcg_iter(COIN_SEED, (b + 4) as nat)));
            }
            let c = Coin { texture: textures[k], delay, elevation_draw: e, azimuth_draw: a, rot_draw: r, flip_draw: f };
            assert(c == coin_at(textures@[k as int], self.delay_base, k as int));
            v.push(c);
            k = k + 1;
        }
        v
    }

    /// Alpha of a quad `q` ticks into its flight at `ticks` ticks a frame,
    /// in `1/(2550·ticks)`.
    pub fn alpha_in_ticks(&self, q: i64, ticks: u32) -> (r: u64)
        requires
            params_ok(*self),
            ticks >= 1,
        ensures
            r == coin_alpha_ticks(*self, q as int, ticks as int),
            r <= ALPHA_RISE_FRAMES * self.alpha_max_255 * ticks,
    {
        let t = ticks as i64;
        let am = self.alpha_max_255 as u64;
        if q <= 0 {
            0
        } else if q <= 10 * t {
            let p = q as u64;
            assert(p * am <= 10 * am * ticks) by (nonlinear_arith)
                requires p <= 10 * ticks, am >= 0;
            assert(10 * am * ticks <= 2550 * 0xffff_ffffu64) by (nonlinear_arith)
                requires am <= 255, ticks <= 0xffff_ffff;
            p * am
        } else if q <= 25 * t {
            proof {
                assert(10 * am * ticks <= 2550 * 0xffff_ffffu64) by (nonlinear_arith)
                    requires am <= 255, ticks <= 0xffff_ffff;
            }
            10 * am * ticks as u64
        } else {
            let since = (q - 25 * t) as u64;
            proof {
                assert(10 * am * ticks <= 2550 * 0xffff_ffffu64) by (nonlinear_arith)
                    requires am <= 255, ticks <= 0xffff_ffff;
            }
            let full = 10 * am * ticks as u64;
            if since >= 0x1_0000_0000_0000 {
                0
            } else {
                let fall: u64 = 70 * since;
                if fall >= full { 0 } else { full - fall }
            }
        }
    }

    /// Alpha of a quad `process` frames into its flight, in 2550ths.
    pub fn alpha_at(&self, process: i64) -> (r: u32)
        requires
            params_ok(*self),
        ensures
            r == coin_alpha_at(*self, process as int),
            r <= ALPHA_RISE_FRAMES * self.alpha_max_255,
    {
        self.alpha_in_ticks(process, 1) as u32
    }

    /// Wall-clock length in whole ms: the latest quad's delay, ramp, hold
    /// and fade.
    pub fn total_duration_ms(&self) -> (r: u32)
        requires
            params_ok(*self),
        ensures
            r == total_duration_spec(*self),
    {
        let sevenths: u64 = 7 * (self.delay_base as u64 + 55) + self.alpha_max_255 as u64;
        let ms = sevenths * 1000 / 420;
        if ms > u32::MAX as u64 { u32::MAX } else { ms as u32 }
    }

    /// `Dead` once the time elapsed, `n` ticks at `ticks` ticks a frame,
    /// reaches the length in ms.
    pub fn status_in_ticks(&self, n: u32, ticks: u32) -> (s: EffectStatus)
        requires
            params_ok(*self),
        ensures
            s == (if n * 1000 >= total_duration_spec(*self) * 60 * ticks { EffectStatus::Dead } else { EffectStatus::Running }),
    {
        let ms = self.total_duration_ms() as u128;
        proof {
            assert(ms * 60 * ticks <= 0xffff_ffff * 60 * 0xffff_ffffu128) by (nonlinear_arith)
                requires ms <= 0xffff_ffff, ticks <= 0xffff_ffff;
        }
        if (n as u128) * 1000 >= ms * 60 * ticks as u128 {
            EffectStatus::Dead
        } else {
            EffectStatus::Running
        }
    }

    /// `Dead` once the elapsed whole frames reach the length in ms.
    pub fn status_at(&self, frame: u32) -> (s: EffectStatus)
        requires
            params_ok(*self),
        ensures
            s == (if frame * 1000 >= total_duration_spec(*self) * 60 { EffectStatus::Dead } else { EffectStatus::Running }),
    {
        if (frame as u64) * 1000 >= (self.total_duration_ms() as u64) * 60 {
            EffectStatus::Dead
        } else {
            EffectStatus::Running
        }
    }
}

/// One quad drawn at a moment: its index in throw order, its texture, the
/// ticks it has flown and its alpha in `1/(2550·ticks)`.
#[derive(Clone, Copy, Debug, PartialEq, Eq)]
pub struct CoinDraw {
    pub index: usize,
    pub texture: &'static str,
    pub process: u32,
    pub alpha_2550ths: u64,
}

/// The quads of `coins` drawn `n` ticks in at `t` ticks a frame, among the
/// first `k`, in throw order: those that have appeared and are still lit.
pub open spec fn drawn_coins_ticks(p: RgCoinParams, coins: Seq<Coin>, n: int, t: int, k: int) -> Seq<CoinDraw>
    decreases k,
{
    if k <= 0 {
        Seq::empty()
    } else {
        let prev = drawn_coins_ticks(p, coins, n, t, k - 1);
        let c = coins[k - 1];
        let q = n - c.delay * t;
        if coin_alpha_ticks(p, q, t) > 0 {
            prev.push(CoinDraw {
                index: (k - 1) as usize,
                texture: c.texture,
                process: q as u32,
                alpha_2550ths: coin_alpha_ticks(p, q, t) as u64,
            })
        } else {
            prev
        }
    }
}

/// The quads of `coins` drawn on frame `frame`, among the first `n`, in
/// throw order: those that have appeared and are still lit.
pub open spec fn drawn_coins(p: RgCoinParams, coins: Seq<Coin>, frame: int, n: int) -> Seq<CoinDraw> {
    drawn_coins_ticks(p, coins, frame, 1, n)
}

impl RgCoinParams {
    /// The quads drawn `n` ticks in at `ticks` ticks a frame: one per quad
    /// that has appeared and is still lit, in throw order, with its alpha.
    pub fn draws_in_ticks(&self, coins: &Vec<Coin>, n: u32, ticks: u32) -> (v: Vec<CoinDraw>)
        requires
            params_ok(*self),
            ticks >= 1,
        ensures
            v@ == drawn_coins_ticks(*self, coins@, n as int, ticks as int, coins@.len() as int),
            forall|k: int| 0 <= k < v@.len() ==>
                0 < (#[trigger] v@[k]).alpha_2550ths <= ALPHA_RISE_FRAMES * self.alpha_max_255 * ticks,
            v@.len() <= coins@.len(),
    {
        let mut v: Vec<CoinDraw> = Vec::new();
        let mut k: usize = 0;
        while k < coins.len()
            invariant
                params_ok(*self),
                ticks >= 1,
                k <= coins@.len(),
                v@ == drawn_coins_ticks(*self, coins@, n as int, ticks as int, k as int),
                v@.len() <= k,
                forall|j: int| 0 <= j < v@.len() ==>
                    0 < (#[trigger] v@[j]).alpha_2550ths <= ALPHA_RISE_FRAMES * self.alpha_max_255 * ticks,
            decreases coins@.len() - k,
        {
            let c = coins[k];
            proof {
                assert(c.delay * ticks <= 0xffff_ffff * 0xffff_ffffu64) by (nonlinear_arith)
                    requires c.delay <= 0xffff_ffff, ticks <= 0xffff_ffff;
            }
            let start: u64 = c.delay as u64 * ticks as u64;
            if n as u64 > start {
                let q = (n as u64 - start) as u32;
                let a = self.alpha_in_ticks(q as i64, ticks);
                if a > 0 {
                    v.push(CoinDraw { index: k, texture: c.texture, process: q, alpha_2550ths: a });
                }
            } else {
                assert(coin_alpha_ticks(*self, n - c.delay * ticks, ticks as int) == 0);
            }
            k = k + 1;
        }
        v
    }

    /// The quads drawn on whole frame `frame`: one per quad that has
    /// appeared and is still lit, in throw order, with its alpha.
    pub fn draws_at(&self, coins: &Vec<Coin>, frame: u32) -> (v: Vec<CoinDraw>)
        requires
            params_ok(*self),
        ensures
            v@ == drawn_coins(*self, coins@, frame as int, coins@.len() as int),
            forall|k: int| 0 <= k < v@.len() ==>
                0 < (#[trigger] v@[k]).alpha_2550ths <= ALPHA_RISE_FRAMES * self.alpha_max_255,
            v@.len() <= coins@.len(),
    {
        self.draws_in_ticks(coins, frame, 1)
    }
}

/// When the effect reports `Dead`, every quad (whatever its delay within the
/// variant's range) has faded out: nothing is left to draw.
pub proof fn coins_fade_before_the_end(p: RgCoinParams, delay: int, frame: int)
    requires
        params_ok(p),
        life_sevenths(p) * 1000 / 420 <= u32::MAX,
        p.delay_base <= delay < p.delay_base + DELAY_RANGE,
        frame * 1000 >= total_duration_spec(p) * 60,
    ensures
        coin_alpha_at(p, frame - delay) == 0,
{
    let n = life_sevenths(p);
    let t = total_duration_spec(p);
    vstd::arithmetic::div_mod::lemma_fundamental_div_mod(n * 1000, 420);
    assert(7 * frame >= n) by (nonlinear_arith)
        requires
            frame * 1000 >= t * 60,
            n * 1000 == 420 * t + (n * 1000) % 420,
            0 <= (n * 1000) % 420 < 420,
    ;
    assert(10 * p.alpha_max_255 - 70 * (frame - delay - 25) <= 0);
}


/// At any tick resolution, when the effect reports `Dead` every quad
/// (whatever its delay within the variant's range) has faded out.
pub proof fn coins_fade_before_the_end_in_ticks(p: RgCoinParams, delay: int, n: int, t: int)
    requires
        params_ok(p),
        life_sevenths(p) * 1000 / 420 <= u32::MAX,
        p.delay_base <= delay < p.delay_base + DELAY_RANGE,
        t >= 1,
        n * 1000 >= total_duration_spec(p) * 60 * t,
    ensures
        coin_alpha_ticks(p, n - delay * t, t) == 0,
{
    let big = life_sevenths(p);
    let tot = total_duration_spec(p);
    vstd::arithmetic::div_mod::lemma_fundamental_div_mod(big * 1000, 420);
    assert(7 * n >= (big - 7) * t) by (nonlinear_arith)
        requires
            n * 1000 >= tot * 60 * t,
            big * 1000 == 420 * tot + (big * 1000) % 420,
            0 <= (big * 1000) % 420 < 420,
            t >= 1,
    ;
    assert(7 * (n - delay * t) >= (175 + p.alpha_max_255) * t) by (nonlinear_arith)
        requires
            7 * n >= (big - 7) * t,
            big == 7 * (p.delay_base + 55) + p.alpha_max_255,
            delay <= p.delay_base + 29,
            t >= 1,
    ;
    assert(10 * p.alpha_max_255 * t - 70 * (n - delay * t - 25 * t) <= 0) by (nonlinear_arith)
        requires
            7 * (n - delay * t) >= (175 + p.alpha_max_255) * t,
    ;
    assert(n - delay * t >= 25 * t) by (nonlinear_arith)
        requires
            7 * (n - delay * t) >= (175 + p.alpha_max_255) * t,
            t >= 1,
    ;
    assert(n - delay * t <= 25 * t ==> p.alpha_max_255 == 0) by (nonlinear_arith)
        requires
            7 * (n - delay * t) >= (175 + p.alpha_max_255) * t,
            t >= 1,
    ;
    assert(10 * t < 25 * t) by (nonlinear_arith)
        requires
            t >= 1,
    ;
}

} // verus!
