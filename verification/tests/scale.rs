use endnaut::scale::{map_fn, map_fn_r};

#[test]
fn test_map_fn() {
    let map = map_fn((10, 110), (-127, 127));
    assert_eq!(-127, map(9));
    assert_eq!(-127, map(10));
    assert_eq!(0, map(60));
    assert_eq!(-50, map(40));
    assert_eq!(50, map(80));
    assert_eq!(127, map(110));
    assert_eq!(127, map(111));

    let map = map_fn((0, 10000), (-16777216, -1));
    assert_eq!(-16777216, map(0));
    assert_eq!(-16000430, map(463));
    assert_eq!(-13000664, map(2251));
    assert_eq!(-1, map(10000));
    assert_eq!(-1, map(10001));
}

#[test]
fn test_map_fn_r() {
    let map = map_fn_r((-16777216, -1), (0, 1000));
    assert_eq!(0, map(-16777216));
    assert_eq!(0, map(i32::MIN));
    assert_eq!(46, map(-16000000));
    assert_eq!(225, map(-13000000));
    assert_eq!(499, map(-8388609));
    assert_eq!(1000, map(-1));
    assert_eq!(1000, map(0));
    assert_eq!(1000, map(i32::MAX));
}

#[test]
fn map_fn_rounds_toward_zero_on_both_sides() {
    let map = map_fn((0, 4), (-3, 3));
    assert_eq!(-3, map(0));
    assert_eq!(-1, map(1));
    assert_eq!(0, map(2));
    assert_eq!(1, map(3));
    assert_eq!(3, map(4));
}

#[test]
fn map_fn_with_a_falling_codomain() {
    let map = map_fn((0, 10), (100, 0));
    assert_eq!(100, map(0));
    assert_eq!(70, map(3));
    assert_eq!(0, map(10));
    let map = map_fn_r((0, 10), (100, 0));
    assert_eq!(100, map(-5));
    assert_eq!(30, map(7));
    assert_eq!(0, map(11));
}

#[test]
fn map_fn_with_an_empty_or_reversed_domain_clamps() {
    let map = map_fn((5, 5), (-1, 1));
    assert_eq!(-1, map(4));
    assert_eq!(-1, map(5));
    assert_eq!(1, map(6));
    let map = map_fn((9, 3), (-1, 1));
    assert_eq!(-1, map(3));
    assert_eq!(-1, map(9));
    assert_eq!(1, map(10));
    assert_eq!(-1, map(5));
}

#[test]
fn map_fn_over_the_widest_ranges() {
    let map = map_fn((0, u16::MAX), (i32::MIN, i32::MAX));
    assert_eq!(i32::MIN, map(0));
    assert_eq!(i32::MAX, map(u16::MAX));
    assert_eq!(-2147418111, map(1));
    let map = map_fn_r((i32::MIN, i32::MAX), (0, u16::MAX));
    assert_eq!(0, map(i32::MIN));
    assert_eq!(32767, map(0));
    assert_eq!(u16::MAX, map(i32::MAX));
    assert_eq!(65534, map(i32::MAX - 1));
}

#[test]
fn slider_and_colour_scales_meet_at_the_ends() {
    let to_color = map_fn((0, 1000), (-16777216, -1));
    let to_slider = map_fn_r((-16777216, -1), (0, 1000));
    assert_eq!(0, to_slider(to_color(0)));
    assert_eq!(1000, to_slider(to_color(1000)));
    assert_eq!(-16005464, to_color(46));
}
