use mandelbrot::color::{floor_sqrt, hsl_to_rgba, steps_to_rgb};

#[test]
fn no_steps_is_black() {
    assert_eq!(steps_to_rgb(0), vec![0, 0, 0, 255]);
}

#[test]
fn all_steps_is_white() {
    assert_eq!(steps_to_rgb(500), vec![255, 255, 255, 255]);
}

#[test]
fn escape_counts_map_to_colors() {
    assert_eq!(steps_to_rgb(1), vec![0, 0, 0, 255]);
    assert_eq!(steps_to_rgb(50), vec![12, 22, 38, 255]);
    assert_eq!(steps_to_rgb(100), vec![34, 25, 76, 255]);
    assert_eq!(steps_to_rgb(250), vec![95, 63, 191, 255]);
    assert_eq!(steps_to_rgb(300), vec![194, 102, 204, 255]);
    assert_eq!(steps_to_rgb(499), vec![254, 254, 254, 255]);
}

#[test]
fn primary_hues() {
    assert_eq!(hsl_to_rgba(0, 1000, 500), vec![255, 0, 0, 255]);
    assert_eq!(hsl_to_rgba(120000, 1000, 500), vec![0, 255, 0, 255]);
    assert_eq!(hsl_to_rgba(240000, 1000, 500), vec![0, 0, 255, 255]);
}

#[test]
fn hue_between_sectors() {
    assert_eq!(hsl_to_rgba(30000, 1000, 500), vec![255, 127, 0, 255]);
}

#[test]
fn no_saturation_is_grey() {
    assert_eq!(hsl_to_rgba(359999, 0, 250), vec![63, 63, 63, 255]);
}

#[test]
fn counts_past_the_cap_are_white() {
    assert_eq!(steps_to_rgb(501), vec![255, 255, 255, 255]);
    assert_eq!(steps_to_rgb(1000), vec![255, 255, 255, 255]);
    assert_eq!(steps_to_rgb(usize::MAX), vec![255, 255, 255, 255]);
}

#[test]
fn hue_past_a_turn_takes_the_last_sector() {
    assert_eq!(hsl_to_rgba(400000, 1000, 500), vec![255, 0, 170, 255]);
    assert_eq!(hsl_to_rgba(u64::MAX, 1000, 500), vec![255, 0, 35, 255]);
}

#[test]
fn no_saturation_is_grey_past_a_turn() {
    assert_eq!(hsl_to_rgba(400000, 0, 600), vec![153, 153, 153, 255]);
}

#[test]
fn integer_square_roots() {
    assert_eq!(floor_sqrt(0), 0);
    assert_eq!(floor_sqrt(1), 1);
    assert_eq!(floor_sqrt(99), 9);
    assert_eq!(floor_sqrt(100), 10);
    assert_eq!(floor_sqrt(1_000_000_000_000), 1_000_000);
    assert_eq!(floor_sqrt(u64::MAX), 4294967295);
}

#[test]
fn saturation_past_full_clamps_channels() {
    assert_eq!(hsl_to_rgba(30000, 3000, 500), vec![255, 127, 0, 255]);
    assert_eq!(hsl_to_rgba(100000, 2000, 200), vec![17, 153, 0, 255]);
    assert_eq!(hsl_to_rgba(45000, 1500, 900), vec![255, 248, 191, 255]);
}

#[test]
fn lightness_past_full_clamps_channels() {
    assert_eq!(hsl_to_rgba(30000, 1000, 1500), vec![255, 255, 255, 255]);
    assert_eq!(hsl_to_rgba(200000, 5000, 1200), vec![255, 221, 51, 255]);
    assert_eq!(hsl_to_rgba(90000, 0, u64::MAX), vec![255, 255, 255, 255]);
}

#[test]
fn largest_inputs_decide_by_sign() {
    assert_eq!(hsl_to_rgba(0, u64::MAX, u64::MAX), vec![0, 255, 255, 255]);
    assert_eq!(hsl_to_rgba(0, u64::MAX, 700), vec![255, 0, 0, 255]);
    assert_eq!(hsl_to_rgba(300000, u64::MAX, 2000), vec![0, 255, 0, 255]);
}
