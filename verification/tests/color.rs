use escape_time::color::{channel, color};

#[test]
fn levels_on_the_scale_are_kept() {
    assert_eq!(channel(0), 0);
    assert_eq!(channel(1), 1);
    assert_eq!(channel(127), 127);
    assert_eq!(channel(254), 254);
    assert_eq!(channel(255), 255);
}

#[test]
fn levels_below_the_scale_give_zero() {
    assert_eq!(channel(-1), 0);
    assert_eq!(channel(-256), 0);
    assert_eq!(channel(i64::MIN), 0);
}

#[test]
fn levels_above_the_scale_give_255() {
    assert_eq!(channel(256), 255);
    assert_eq!(channel(511), 255);
    assert_eq!(channel(i64::MAX), 255);
}

#[test]
fn channels_keep_their_order() {
    assert_eq!(color(1, 2, 3), [1, 2, 3]);
    assert_eq!(color(-4, 128, 300), [0, 128, 255]);
    assert_eq!(color(255, 0, -1), [255, 0, 0]);
}
