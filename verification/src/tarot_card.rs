//! `EF_TAROTCARD1`..`EF_TAROTCARD14` and `EF_NPCSLOWCAST` — camera-facing
//! textured cards over the caster.
//!
//! Both share the result banner's curve shape (see
//! [`crate::temp_result::FadeCurve`]): alpha climbs to 220 of 255 over 22
//! frames, holds, then falls over 44 frames. A tarot card is tall (twice as
//! high as wide) and holds for 178 frames; the slow-cast clock is square
//! and holds for 120. Both breathe like the banner.
use vstd::prelude::*;
use crate::temp_result::FadeCurve;

verus! {

/// Card textures in card order (tarot 1..=14), then the slow-cast clock.
pub const TEXTURES: [&'static str; 15] = [
    "tarot01.tga",
    "tarot02.tga",
    "tarot03.tga",
    "tarot04.tga",
    "tarot05.tga",
    "tarot06.tga",
    "tarot07.tga",
    "tarot08.tga",
    "tarot09.tga",
    "tarot10.tga",
    "tarot11.tga",
    "tarot12.tga",
    "tarot13.tga",
    "tarot14.tga",
    "blast_mine##clock.bmp",
];

/// Index of the slow-cast clock in [`TEXTURES`].
pub const CLOCK_INDEX: usize = 14;
/// Width of a tarot card, world units.
pub const CARD_WIDTH: u32 = 3;
/// Height of a card above the caster's feet, world units (negative is up).
pub const CARD_Y_OFFSET: i32 = -18;

/// One card.
#[derive(Clone, Copy, Debug)]
pub struct TarotCardParams {
    /// Card texture.
    pub texture: &'static str,
    /// Full width, world units.
    pub width: u32,
    /// Full height, world units.
    pub height: u32,
    /// Offset above the caster's feet (negative is up).
    pub y_offset: i32,
    /// Its fade curve.
    pub curve: FadeCurve,
    /// Peak alpha, 0..255 scale.
    pub max_alpha: u32,
}

/// Card `index` (`EF_TAROTCARD1` is 0): its texture, a 3×6 card, and the
/// tarot curve (22 in, 178 held, 44 out).
pub fn tarot_params(index: usize) -> (p: TarotCardParams)
    requires
        index < 15,
    ensures
        p.texture == TEXTURES[index as int],
        p.width == CARD_WIDTH && p.height == 2 * CARD_WIDTH,
        p.y_offset == CARD_Y_OFFSET,
        p.curve == (FadeCurve { fade_in: 22, hold: 178, fade_out: 44 }),
        p.max_alpha == 220,
{
    TarotCardParams {
        texture: TEXTURES[index],
        width: CARD_WIDTH,
        height: CARD_WIDTH * 2,
        y_offset: CARD_Y_OFFSET,
        curve: FadeCurve { fade_in: 22, hold: 178, fade_out: 44 },
        max_alpha: 220,
    }
}

/// The slow-cast clock: square, 12 wide, with a shorter hold.
#[allow(non_snake_case)]
pub fn NPC_SLOWCAST() -> (p: TarotCardParams)
    ensures
        p.texture == TEXTURES[CLOCK_INDEX as int],
        p.width == 12 && p.height == 12,
        p.y_offset == -12,
        p.curve == (FadeCurve { fade_in: 22, hold: 120, fade_out: 44 }),
        p.max_alpha == 220,
{
    TarotCardParams {
        texture: TEXTURES[CLOCK_INDEX],
        width: 12,
        height: 12,
        y_offset: -12,
        curve: FadeCurve { fade_in: 22, hold: 120, fade_out: 44 },
        max_alpha: 220,
    }
}

} // verus!
