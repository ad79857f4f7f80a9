use mandelbrot::color::steps_to_rgb;
use mandelbrot::escape::get_mondelbrot;
use mandelbrot::grid::{Cell, MandelbrotGrid};
use mandelbrot::view::{Command, Viewport};

#[test]
fn new_cell_is_blank() {
    let c = Cell::new();
    assert_eq!(c.steps, 0);
    assert_eq!(c.color, vec![0, 0, 0, 0]);
}

#[test]
fn new_grid_has_one_blank_cell_per_pixel() {
    let g = MandelbrotGrid::new(4, 2);
    assert_eq!(g.cells.len(), 8);
    assert_eq!((g.width, g.height), (4, 2));
    assert!(g.cells.iter().all(|c| c.steps == 0 && c.color.is_empty()));
    assert_eq!(g.view, Viewport::new());
}

#[test]
fn empty_grid() {
    let mut g = MandelbrotGrid::new(0, 7);
    g.update();
    assert!(g.cells.is_empty());
    let mut screen: Vec<u8> = Vec::new();
    g.draw(&mut screen);
    assert!(screen.is_empty());
}

#[test]
fn update_fills_rows_in_order() {
    let mut g = MandelbrotGrid::new(4, 2);
    g.update();
    let steps: Vec<usize> = g.cells.iter().map(|c| c.steps).collect();
    assert_eq!(steps, vec![1, 1, 1, 1, 1, 500, 500, 2]);
    for c in &g.cells {
        assert_eq!(c.color, steps_to_rgb(c.steps));
    }
}

#[test]
fn each_cell_shows_its_pixel() {
    let mut g = MandelbrotGrid::new(5, 3);
    g.update();
    for y in 0..3usize {
        for x in 0..5usize {
            let cx = g.view.pixel_x(x, 5);
            let cy = g.view.pixel_y(y, 3);
            assert_eq!(g.cells[x + y * 5].steps, get_mondelbrot(cx, cy));
        }
    }
}

#[test]
fn draw_writes_four_bytes_per_cell() {
    let mut g = MandelbrotGrid::new(4, 2);
    g.update();
    let mut screen = vec![7u8; 32];
    g.draw(&mut screen);
    for (i, c) in g.cells.iter().enumerate() {
        assert_eq!(&screen[4 * i..4 * i + 4], &c.color[..]);
    }
    assert_eq!(&screen[0..4], &[0, 0, 0, 255]);
    assert_eq!(&screen[20..24], &[255, 255, 255, 255]);
}

#[test]
fn navigate_moves_and_recomputes() {
    let mut g = MandelbrotGrid::new(4, 2);
    g.navigate(Command::Left);
    assert_eq!(g.view, Viewport::new().moved(Command::Left));
    let cx = g.view.pixel_x(3, 4);
    let cy = g.view.pixel_y(1, 2);
    assert_eq!(g.cells[7].steps, get_mondelbrot(cx, cy));
    assert_eq!(g.cells[7].color, steps_to_rgb(g.cells[7].steps));
}

#[test]
fn update_gives_every_cell_a_four_byte_color() {
    let mut g = MandelbrotGrid::new(3, 2);
    assert!(g.cells.iter().all(|c| c.color.is_empty()));
    g.update();
    assert!(g.cells.iter().all(|c| c.color.len() == 4 && c.color[3] == 255));
}
