use crate::geometry::{on_grid, Cell, CELL_SIZE, GRID_HEIGHT, GRID_WIDTH};
use crate::rng::{cell_step, odd_increment, pcg_seeded, CellRng};
use vstd::prelude::*;

verus! {

/// Display cell of a grid column and row.
pub open spec fn cell_at(col_row: (u32, u32)) -> Cell {
    ((col_row.0 * CELL_SIZE) as i32, (col_row.1 * CELL_SIZE) as i32)
}

/// The single piece of food and the generator that places it.
pub struct Food {
    cell: Cell,
    rng: CellRng,
}

impl Food {
    /// Cell the food lies on.
    pub closed spec fn cell_spec(&self) -> Cell {
        self.cell
    }

    /// State of the generator that places the next food.
    pub closed spec fn rng_state(&self) -> (u64, u64) {
        self.rng@
    }

    /// The food lies on the grid.
    pub open spec fn well_formed(&self) -> bool {
        on_grid(self.cell_spec()) && odd_increment(self.rng_state())
    }

    /// Places the first food with a generator seeded with `seed`. The caller
    /// draws the food at `cell()`.
    pub fn init_and_draw(seed: u64) -> (r: Food)
        ensures
            r.well_formed(),
            ({
                let (c, next) = cell_step(pcg_seeded(seed), GRID_WIDTH, GRID_HEIGHT);
                r.cell_spec() == cell_at(c) && r.rng_state() == next
            }),
    {
        let mut rng = CellRng::new(seed);
        let cell = Self::place(&mut rng);
        Food { cell, rng }
    }

    fn place(rng: &mut CellRng) -> (r: Cell)
        requires
            old(rng).well_formed(),
        ensures
            on_grid(r),
            final(rng).well_formed(),
            ({
                let (c, next) = cell_step(old(rng)@, GRID_WIDTH, GRID_HEIGHT);
                r == cell_at(c) && final(rng)@ == next
            }),
    {
        let (col, row) = rng.next_cell(GRID_WIDTH, GRID_HEIGHT);
        let r = ((col * CELL_SIZE) as i32, (row * CELL_SIZE) as i32);
        assert(((col * CELL_SIZE) as int) % (CELL_SIZE as int) == 0) by (nonlinear_arith)
            requires col < 32;
        assert(((row * CELL_SIZE) as int) % (CELL_SIZE as int) == 0) by (nonlinear_arith)
            requires row < 24;
        r
    }

    /// Moves the food to the next cell that the generator draws and returns
    /// the cell it left, so that the caller can erase it. The cell is taken
    /// as drawn: it is not redrawn when it lies under the snake or is the
    /// cell the food just left.
    pub fn respawn(&mut self) -> (previous: Cell)
        requires
            old(self).well_formed(),
        ensures
            final(self).well_formed(),
            previous == old(self).cell_spec(),
            ({
                let (c, next) = cell_step(old(self).rng_state(), GRID_WIDTH, GRID_HEIGHT);
                final(self).cell_spec() == cell_at(c) && final(self).rng_state() == next
            }),
    {
        let previous = self.cell;
        self.cell = Self::place(&mut self.rng);
        previous
    }

    /// Cell the food lies on.
    pub fn cell(&self) -> (r: Cell)
        ensures
            r == self.cell_spec(),
    {
        self.cell
    }
}

} // verus!
