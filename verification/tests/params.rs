use game::rg_coin::CoinStyle;
use game::teihit::{BACKSTAP, TEIHIT2};
use game::twilight::{TEXTURES, TWILIGHT1, TWILIGHT2, TWILIGHT3};

#[test]
fn teihit2_launch_counts() {
    assert_eq!(TEIHIT2().prim_count, 5);
    assert_eq!(BACKSTAP().prim_count, 20);
    assert_eq!(BACKSTAP().prim_count * 4, 80);
}

#[test]
fn coin_styles_differ() {
    assert_ne!(CoinStyle::FlipY, CoinStyle::Billboard);
}

#[test]
fn twilight_variants_cycle_their_icons() {
    assert_eq!(TWILIGHT1().textures, &[TEXTURES[0]]);
    assert_eq!(TWILIGHT2().textures, &[TEXTURES[1]]);
    let t3 = TWILIGHT3();
    assert_eq!(t3.texture_for(0), TEXTURES[2]);
    assert_eq!(t3.texture_for(1), TEXTURES[3]);
    assert_eq!(t3.texture_for(2), TEXTURES[4]);
    assert_eq!(t3.texture_for(3), TEXTURES[2]);
    assert_eq!(t3.texture_for(159), TEXTURES[2]);
    for i in 0..160 {
        assert_eq!(TWILIGHT1().texture_for(i), TEXTURES[0]);
        assert!(TEXTURES.contains(&t3.texture_for(i)));
    }
}
