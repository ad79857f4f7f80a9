//! The grid of cells: one escape count and one color per pixel, row by row.
use vstd::prelude::*;
use vstd::arithmetic::div_mod::lemma_fundamental_div_mod_converse;
use crate::color::{rgba_of_steps, steps_to_rgb};
use crate::escape::{escape_time, get_mondelbrot};
use crate::view::{Command, Viewport};

verus! {

/// One pixel: its escape count and its RGBA color.
#[derive(Clone, Debug)]
pub struct Cell {
    pub steps: usize,
    pub color: Vec<u8>,
}

impl Cell {
    /// A cell that has not been computed: no steps, every byte of its color zero.
    pub fn new() -> (r: Cell)
        ensures
            r.steps == 0,
            r.color@ == seq![0u8, 0u8, 0u8, 0u8],
    {
        Cell { steps: 0, color: vec![0u8, 0u8, 0u8, 0u8] }
    }
}

/// A `width` by `height` grid of cells over a view of the plane; cell
/// `x + y * width` is column `x` of row `y`.
#[derive(Clone, Debug)]
pub struct MandelbrotGrid {
    pub width: usize,
    pub height: usize,
    pub cells: Vec<Cell>,
    pub view: Viewport,
}

impl MandelbrotGrid {
    /// One cell per pixel, over a well-formed view.
    pub open spec fn wf(&self) -> bool {
        &&& self.cells.len() == self.width * self.height
        &&& self.view.wf()
    }

    /// Every cell has a four-byte color, as after an update.
    pub open spec fn colored(&self) -> bool {
        forall|i: int| 0 <= i < self.cells.len() ==> (#[trigger] self.cells[i]).color.len() == 4
    }

    /// Cell `i` holds the escape count and color of the point its pixel shows.
    pub open spec fn cell_rendered(&self, i: int) -> bool {
        let steps = escape_time(
            self.view.pixel_re(i % self.width as int, self.width as int),
            self.view.pixel_im(i / self.width as int, self.height as int),
        );
        &&& self.cells[i].steps == steps
        &&& self.cells[i].color@ == rgba_of_steps(steps as int)
    }

    /// Every cell holds what its pixel shows.
    pub open spec fn rendered(&self) -> bool {
        forall|i: int| 0 <= i < self.cells.len() ==> #[trigger] self.cell_rendered(i)
    }

    /// A grid of `width * height` uncomputed cells over the opening view:
    /// no steps and an empty color in each.
    pub fn new(width: usize, height: usize) -> (r: MandelbrotGrid)
        requires
            width * height <= usize::MAX,
        ensures
            r.wf(),
            r.width == width,
            r.height == height,
            r.view == Viewport::start(),
            forall|i: int|
                0 <= i < r.cells.len() ==> (#[trigger] r.cells[i]).steps == 0 && r.cells[i].color@
                    == Seq::<u8>::empty(),
    {
        let size: usize = width * height;
        let mut cells: Vec<Cell> = Vec::with_capacity(size);
        while cells.len() < size
            invariant
                cells.len() <= size,
                forall|i: int|
                    0 <= i < cells.len() ==> (#[trigger] cells[i]).steps == 0 && cells[i].color@
                        == Seq::<u8>::empty(),
            decreases size - cells.len(),
        {
            cells.push(Cell { steps: 0, color: Vec::new() });
        }
        MandelbrotGrid { width, height, cells, view: Viewport::new() }
    }

    /// Computes every cell from the current view.
    pub fn update(&mut self)
        requires
            old(self).wf(),
        ensures
            final(self).wf(),
            final(self).width == old(self).width,
            final(self).height == old(self).height,
            final(self).view == old(self).view,
            final(self).rendered(),
            final(self).colored(),
    {
        let w: usize = self.width;
        let h: usize = self.height;
        let n: usize = self.cells.len();
        let mut idx: usize = 0;
        let mut px: usize = 0;
        let mut py: usize = 0;
        assert(n == 0 || w > 0) by (nonlinear_arith)
            requires
                n == w * h,
        {
        }
        while idx < n
            invariant
                self.wf(),
                self.width == w,
                self.height == h,
                self.view == old(self).view,
                n == self.cells.len(),
                n == w * h,
                idx <= n,
                idx == px + py * w,
                px < w || n == 0,
                forall|i: int| 0 <= i < idx ==> #[trigger] self.cell_rendered(i),
                forall|i: int| 0 <= i < idx ==> (#[trigger] self.cells[i]).color.len() == 4,
            decreases n - idx,
        {
            assert(w > 0) by (nonlinear_arith)
                requires
                    idx < n,
                    n == w * h,
            {
            }
            assert(py < h) by (nonlinear_arith)
                requires
                    px + py * w < w * h,
                    0 <= px,
                    w > 0,
            {
            }
            proof {
                lemma_fundamental_div_mod_converse(idx as int, w as int, py as int, px as int);
            }
            let cx: i128 = self.view.pixel_x(px, w);
            let cy: i128 = self.view.pixel_y(py, h);
            let steps: usize = get_mondelbrot(cx, cy);
            let color: Vec<u8> = steps_to_rgb(steps);
            let ghost prev = *self;
            self.cells.set(idx, Cell { steps, color });
            assert(self.cells[idx as int].color@ == rgba_of_steps(steps as int));
            assert forall|i: int| 0 <= i <= idx implies #[trigger] self.cell_rendered(i) by {
                if i < idx {
                    assert(prev.cell_rendered(i));
                    assert(self.cells[i] == prev.cells[i]);
                }
            }
            idx = idx + 1;
            if px + 1 == w {
                assert((py + 1) * w == py * w + w) by (nonlinear_arith);
                px = 0;
                py = py + 1;
            } else {
                px = px + 1;
            }
        }
    }

    /// Moves the view by `cmd` and computes every cell from the new view.
    pub fn navigate(&mut self, cmd: Command)
        requires
            old(self).wf(),
        ensures
            final(self).wf(),
            final(self).width == old(self).width,
            final(self).height == old(self).height,
            final(self).view == old(self).view.moved_spec(cmd),
            final(self).rendered(),
            final(self).colored(),
    {
        self.view = self.view.moved(cmd);
        self.update();
    }

    /// Writes the cells' colors to `screen`, four bytes per cell in cell order.
    /// The cells must have been computed: a new grid's colors are empty.
    pub fn draw(&self, screen: &mut [u8])
        requires
            self.wf(),
            self.colored(),
            old(screen)@.len() == 4 * self.cells.len(),
        ensures
            final(screen)@.len() == old(screen)@.len(),
            forall|i: int|
                0 <= i < final(screen)@.len() ==> #[trigger] final(screen)@[i] == self.cells[i
                    / 4].color@[i % 4],
    {
        let n: usize = self.cells.len();
        let total: usize = screen.len();
        let mut k: usize = 0;
        while k < n
            invariant
                self.wf(),
                self.colored(),
                n == self.cells.len(),
                k <= n,
                screen@.len() == 4 * n,
                total == 4 * n,
                forall|i: int| 0 <= i < 4 * k ==> #[trigger] screen@[i] == self.cells[i / 4].color@[i % 4],
            decreases n - k,
        {
            let color: &Vec<u8> = &self.cells[k].color;
            let mut j: usize = 0;
            while j < 4
                invariant
                    self.wf(),
                    self.colored(),
                    n == self.cells.len(),
                    k < n,
                    j <= 4,
                    color@ == self.cells[k as int].color@,
                    color@.len() == 4,
                    screen@.len() == 4 * n,
                    total == 4 * n,
                    forall|i: int| 0 <= i < 4 * k + j ==> #[trigger] screen@[i] == self.cells[i / 4].color@[i % 4],
                decreases 4 - j,
            {
                screen[4 * k + j] = color[j];
                assert((4 * k + j) as int / 4 == k as int && (4 * k + j) as int % 4 == j as int);
                j = j + 1;
            }
            k = k + 1;
        }
    }
}

} // verus!
