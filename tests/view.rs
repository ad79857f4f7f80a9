use mandelbrot::fixed::{LIMIT, ONE};
use mandelbrot::view::{Command, Viewport};

const HALF: i128 = 5 * ONE / 2;

#[test]
fn opening_view_is_five_wide() {
    let v = Viewport::new();
    assert_eq!((v.min_x, v.max_x, v.min_y, v.max_y), (-HALF, HALF, -HALF, HALF));
}

#[test]
fn pixels_map_linearly() {
    let v = Viewport::new();
    assert_eq!(v.pixel_x(0, 1000), -HALF);
    assert_eq!(v.pixel_x(500, 1000), 0);
    assert_eq!(v.pixel_x(999, 1000), 179783697124630200);
    assert_eq!(v.pixel_y(1, 4), -ONE * 5 / 4);
}

#[test]
fn zoom_in_shrinks_by_two_fifths() {
    let v = Viewport::new().moved(Command::ZoomIn);
    assert_eq!((v.min_x, v.max_x), (-HALF + ONE, HALF - ONE));
    assert_eq!((v.min_y, v.max_y), (-HALF + ONE, HALF - ONE));
}

#[test]
fn zoom_out_grows_by_two_fifths() {
    let v = Viewport::new().moved(Command::ZoomOut);
    assert_eq!((v.min_x, v.max_x), (-HALF - ONE, HALF + ONE));
    assert_eq!((v.min_y, v.max_y), (-HALF - ONE, HALF + ONE));
}

#[test]
fn pans_shift_by_a_fifth() {
    let v = Viewport::new();
    let l = v.moved(Command::Left);
    assert_eq!((l.min_x, l.max_x, l.min_y, l.max_y), (-HALF - ONE, HALF - ONE, -HALF, HALF));
    let r = v.moved(Command::Right);
    assert_eq!((r.min_x, r.max_x), (-HALF + ONE, HALF + ONE));
    let u = v.moved(Command::Up);
    assert_eq!((u.min_x, u.max_x, u.min_y, u.max_y), (-HALF, HALF, -HALF - ONE, HALF - ONE));
    let d = v.moved(Command::Down);
    assert_eq!((d.min_y, d.max_y), (-HALF + ONE, HALF + ONE));
}

#[test]
fn zoom_out_stops_at_the_edge_of_the_plane() {
    let mut v = Viewport::new();
    for _ in 0..20 {
        v = v.moved(Command::ZoomOut);
    }
    assert!(-LIMIT <= v.min_x && v.max_x <= LIMIT);
    assert_eq!(v.moved(Command::ZoomOut), v);
    assert_eq!((v.min_x, v.max_x), (-968857586396363854, 968857586396363854));
}

#[test]
fn zoom_in_stops_when_a_fifth_rounds_to_nothing() {
    let v = Viewport { min_x: 0, max_x: 4, min_y: 0, max_y: 4 };
    assert_eq!(v.moved(Command::ZoomIn), v);
}
