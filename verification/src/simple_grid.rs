//! A cheap inline simulation: each update lights one more pixel of a grid.
use vstd::prelude::*;
use vstd::arithmetic::div_mod::lemma_fundamental_div_mod_converse;
use crate::BUFFER_LEN;
use crate::SIM_HEIGHT;
use crate::SIM_WIDTH;

verus! {

/// A rectangular grid of cells stored row-major.
#[derive(Clone)]
pub struct Grid<T> {
    pub width: usize,
    pub height: usize,
    pub cells: Vec<T>,
}

impl<T: Clone + Default> Grid<T> {
    pub fn new(width: usize, height: usize) -> (g: Self)
        requires
            width * height <= usize::MAX,
        ensures
            g.width == width,
            g.height == height,
            g.cells@.len() == width * height,
    {
        let n: usize = width * height;
        let d = T::default();
        Grid { width, height, cells: vec![d; n] }
    }
}

/// Number of cells in the fixed-size display grid.
pub const CELL_COUNT: usize = 120_000;

/// Fills the display one pixel per update, left to right, top to bottom.
pub struct PixelFillSim {
    pub grid: Grid<u8>,
    pub cursor_idx: usize,
}

/// Byte `j` of the rendered image for a fill cursor: cells behind the cursor
/// are cyan `(0, 255, 255)`, the rest dark gray `(20, 20, 20)`.
pub open spec fn fill_byte(cursor: int, j: int) -> u8 {
    let cell = j / 3;
    let ch = j % 3;
    if cell < cursor {
        if ch == 0 {
            0u8
        } else {
            255u8
        }
    } else {
        20u8
    }
}

impl PixelFillSim {
    /// Exactly the cells behind the cursor are lit.
    pub open spec fn wf(self) -> bool {
        &&& self.grid.cells@.len() == CELL_COUNT
        &&& self.cursor_idx <= CELL_COUNT
        &&& forall|i: int|
            0 <= i < CELL_COUNT ==> self.grid.cells@[i] == (if i < self.cursor_idx {
                255u8
            } else {
                0u8
            })
    }

    pub fn new() -> (s: Self)
        ensures
            s.wf(),
            s.cursor_idx == 0,
            s.grid.width == SIM_WIDTH,
            s.grid.height == SIM_HEIGHT,
    {
        let mut sim = PixelFillSim { grid: Grid::new(SIM_WIDTH, SIM_HEIGHT), cursor_idx: 0 };
        sim.reset();
        sim
    }

    pub fn name(&self) -> (r: &str)
        ensures
            r@ == "Simple Pixel Fill"@,
    {
        "Simple Pixel Fill"
    }

    /// Returns to the initial state: no cell lit, cursor at the start.
    pub fn reset(&mut self)
        ensures
            final(self).wf(),
            final(self).cursor_idx == 0,
            final(self).grid.width == old(self).grid.width,
            final(self).grid.height == old(self).grid.height,
    {
        let mut cells: Vec<u8> = Vec::new();
        let mut i: usize = 0;
        while i < CELL_COUNT
            invariant
                i <= CELL_COUNT,
                cells@.len() == i,
                forall|j: int| 0 <= j < i ==> cells@[j] == 0u8,
            decreases CELL_COUNT - i,
        {
            cells.push(0);
            i += 1;
        }
        self.grid.cells = cells;
        self.cursor_idx = 0;
    }

    /// One discrete step: lights the cell under the cursor and advances it;
    /// once every cell is lit, does nothing.
    pub fn update(&mut self)
        requires
            old(self).wf(),
        ensures
            final(self).wf(),
            final(self).grid.width == old(self).grid.width,
            final(self).grid.height == old(self).grid.height,
            final(self).cursor_idx == (if old(self).cursor_idx < CELL_COUNT {
                old(self).cursor_idx + 1
            } else {
                old(self).cursor_idx as int
            }),
    {
        if self.cursor_idx < self.grid.cells.len() {
            let r = &mut self.grid.cells[self.cursor_idx];
            *r = 255;
            self.cursor_idx += 1;
        }
    }

    /// Runs `count` updates in a row, as the panel's bulk-fill control does.
    pub fn update_many(&mut self, count: u64)
        requires
            old(self).wf(),
        ensures
            final(self).wf(),
            final(self).grid.width == old(self).grid.width,
            final(self).grid.height == old(self).grid.height,
            final(self).cursor_idx == (if old(self).cursor_idx + count <= CELL_COUNT {
                old(self).cursor_idx + count
            } else {
                CELL_COUNT as int
            }),
    {
        let mut k: u64 = 0;
        while k < count
            invariant
                k <= count,
                self.wf(),
                self.grid.width == old(self).grid.width,
                self.grid.height == old(self).grid.height,
                self.cursor_idx == (if old(self).cursor_idx + k <= CELL_COUNT {
                    old(self).cursor_idx + k
                } else {
                    CELL_COUNT as int
                }),
            decreases count - k,
        {
            self.update();
            k += 1;
        }
    }

    /// Overwrites the buffer with the current image: one cyan pixel per lit
    /// cell, dark gray elsewhere.
    pub fn render(&self, buffer: &mut Vec<u8>)
        requires
            self.wf(),
        ensures
            final(buffer)@.len() == BUFFER_LEN,
            forall|j: int|
                0 <= j < BUFFER_LEN ==> final(buffer)@[j] == fill_byte(
                    self.cursor_idx as int,
                    j,
                ),
    {
        buffer.clear();
        let mut i: usize = 0;
        while i < CELL_COUNT
            invariant
                self.wf(),
                i <= CELL_COUNT,
                buffer@.len() == 3 * i,
                forall|j: int| 0 <= j < 3 * i ==> buffer@[j] == fill_byte(self.cursor_idx as int, j),
            decreases CELL_COUNT - i,
        {
            let lit = self.grid.cells[i] > 0;
            if lit {
                buffer.push(0);
                buffer.push(255);
                buffer.push(255);
            } else {
                buffer.push(20);
                buffer.push(20);
                buffer.push(20);
            }
            proof {
                lemma_fundamental_div_mod_converse(3 * i, 3, i as int, 0);
                lemma_fundamental_div_mod_converse(3 * i + 1, 3, i as int, 1);
                lemma_fundamental_div_mod_converse(3 * i + 2, 3, i as int, 2);
            }
            i += 1;
        }
    }

    /// How many cells are lit so far, as shown in the panel.
    pub fn filled(&self) -> (r: usize)
        ensures
            r == self.cursor_idx,
    {
        self.cursor_idx
    }

    /// Total number of cells, as shown in the panel.
    pub fn total(&self) -> (r: usize)
        ensures
            r == self.grid.cells@.len(),
    {
        self.grid.cells.len()
    }
}

} // verus!
