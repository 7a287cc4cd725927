use game::spike_util::{fade_tail_alpha, rise_step};

#[test]
fn blade_rises_only_inside_its_speed_limit_window() {
    assert_eq!(rise_step(0, 3, 10), 3);
    assert_eq!(rise_step(8, 5, 10), 2, "the step crossing the window travels up to its end");
    assert_eq!(rise_step(10, 5, 10), 0);
    assert_eq!(rise_step(20, 5, 10), 0);
    // One step of 12 frames travels as far as a step of 7 and one of 5.
    assert_eq!(rise_step(0, 12, 10), rise_step(0, 7, 10) + rise_step(7, 5, 10));
}

#[test]
fn fade_tail_holds_then_falls_linearly() {
    // A 60-frame blade fading over its last 10 frames.
    assert_eq!(fade_tail_alpha(0, 60, 10), (10, 10));
    assert_eq!(fade_tail_alpha(50, 60, 10), (10, 10));
    assert_eq!(fade_tail_alpha(55, 60, 10), (5, 10));
    assert_eq!(fade_tail_alpha(60, 60, 10), (0, 10));
    assert_eq!(fade_tail_alpha(70, 60, 10), (0, 10));
    // A fade longer than the life starts at once.
    assert_eq!(fade_tail_alpha(2, 4, 10), (2, 4));
    // No fade: full until the end, then nothing.
    assert_eq!(fade_tail_alpha(60, 60, 0), (1, 1));
    assert_eq!(fade_tail_alpha(61, 60, 0), (0, 1));
}
