use game::draw::EffectStatus;
use game::tarot_card::{tarot_params, NPC_SLOWCAST, TEXTURES};
use game::temp_result::wobble_phase_deg;

#[test]
fn tarot_card_fades_in_holds_then_out_and_dies() {
    let c = tarot_params(0).curve;
    let a_in = c.level_at(4);
    let a_hold = c.level_at(34);
    assert!(a_hold > a_in, "alpha rises into the hold: {a_in} -> {a_hold}");
    assert_eq!(a_hold, c.fade_in as u64 * c.fade_out as u64, "alpha is capped at max");
    assert_eq!(c.status_at(434), EffectStatus::Dead, "self-terminates after its lifetime");
    assert_eq!(c.life(), 244);
    assert_eq!(NPC_SLOWCAST().curve.life(), 186);
}

#[test]
fn breathes_grows_then_shrinks() {
    assert_eq!(wobble_phase_deg(2), 4);
    assert_eq!(wobble_phase_deg(45), 90);
    assert_eq!(wobble_phase_deg(95), 190);
}

#[test]
fn index_selects_texture_with_tall_aspect_clock_is_square() {
    let first = tarot_params(0);
    let last = tarot_params(13);
    let clock = NPC_SLOWCAST();
    assert_eq!(first.texture, "tarot01.tga");
    assert_eq!(last.texture, "tarot14.tga");
    assert_eq!(clock.texture, "blast_mine##clock.bmp");
    assert!(first.height > first.width, "tarot card is taller than wide");
    assert_eq!(clock.width, clock.height, "clock is square");
    assert_eq!(TEXTURES.len(), 15);
}
