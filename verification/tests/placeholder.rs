use game::draw::EffectStatus;
use game::placeholder::{HybridPlaceholderEffect, PlaceholderEffect, PLACEHOLDER_TEXTURE, TEXTURES};

#[test]
fn placeholder_emits_one_billboard() {
    let e = PlaceholderEffect::new();
    assert_eq!(e.update(), EffectStatus::Running);
    assert_eq!(e.billboard_count(), 1);
    assert!(e.str_overlay().is_none());
}

#[test]
fn hybrid_placeholder_renders_pink_and_declares_str_overlay() {
    let e = HybridPlaceholderEffect::new("stormgust");
    assert_eq!(e.str_overlay(), Some("stormgust"));
    assert_eq!(e.billboard_count(), 1);
}

#[test]
fn stand_ins_keep_running_and_use_alpha_down() {
    let e = HybridPlaceholderEffect::new("data/texture/effect/overlay.str");
    assert_eq!(e.update(), EffectStatus::Running);
    assert_eq!(TEXTURES, [PLACEHOLDER_TEXTURE]);
    assert_eq!(PLACEHOLDER_TEXTURE, "alpha_down.tga");
}
