use crate::food::Food;
use crate::geometry::{
    on_grid, same_cell, Cell, CELL_SIZE, DISPLAY_HEIGHT, DISPLAY_WIDTH, GRID_HEIGHT, GRID_WIDTH,
};
use crate::history::{
    empty_history, history_at, history_len, pop_front, push_back, queued_cells,
    HISTORY_CAPACITY,
};
use heapless::spsc::Queue;
use vstd::prelude::*;

verus! {

/// Heading of the snake.
#[derive(Clone, Copy, Debug, PartialEq, Eq, Structural)]
pub enum Direction {
    Up,
    Down,
    Left,
    Right,
}

/// The heading exactly opposite to `d`.
pub open spec fn opposite(d: Direction) -> Direction {
    match d {
        Direction::Up => Direction::Down,
        Direction::Down => Direction::Up,
        Direction::Left => Direction::Right,
        Direction::Right => Direction::Left,
    }
}

/// Heading after asking to turn from `current` to `wanted`: a reversal is
/// refused.
pub open spec fn turned(current: Direction, wanted: Direction) -> Direction {
    if wanted == opposite(current) {
        current
    } else {
        wanted
    }
}

/// Asking for the reverse of the heading keeps the heading; asking for any
/// other direction takes it.
pub proof fn lemma_reversal_refused(current: Direction, wanted: Direction)
    ensures
        turned(current, opposite(current)) == current,
        wanted != opposite(current) ==> turned(current, wanted) == wanted,
{
}

/// Cell one step from `c` in direction `d`, wrapping round the display edges.
pub open spec fn wrapped_step(c: Cell, d: Direction) -> Cell {
    let w = DISPLAY_WIDTH as int;
    let h = DISPLAY_HEIGHT as int;
    let s = CELL_SIZE as int;
    match d {
        Direction::Up => (c.0, if c.1 - s < 0 { (h - s) as i32 } else { (c.1 - s) as i32 }),
        Direction::Down => (c.0, if c.1 + s >= h { 0 } else { (c.1 + s) as i32 }),
        Direction::Left => (if c.0 - s < 0 { (w - s) as i32 } else { (c.0 - s) as i32 }, c.1),
        Direction::Right => (if c.0 + s >= w { 0 } else { (c.0 + s) as i32 }, c.1),
    }
}

/// A step from a cell on the grid, wrapping round the edges, lands on the grid.
pub proof fn lemma_step_stays_on_grid(c: Cell, d: Direction)
    requires
        on_grid(c),
    ensures
        on_grid(wrapped_step(c, d)),
{
    let (x, y) = (c.0 as int, c.1 as int);
    assert((x + 10) % 10 == 0 && (x - 10) % 10 == 0 && (y + 10) % 10 == 0 && (y - 10) % 10 == 0)
        by (nonlinear_arith)
        requires x % 10 == 0, y % 10 == 0;
}

/// Body after one tick, and the cell it drops: the cell the head leaves is
/// added at the back; the oldest cell is dropped unless the body grows, which
/// it does only when asked and while below the history's capacity.
pub open spec fn advanced_body(body: Seq<Cell>, head: Cell, grow: bool) -> (Seq<Cell>, Option<Cell>) {
    let grown = body.push(head);
    if grow && body.len() < HISTORY_CAPACITY {
        (grown, None)
    } else {
        (grown.drop_first(), Some(grown[0]))
    }
}

/// Leaving the display over one edge comes back in over the opposite edge:
/// up from the top row lands on the bottom row, down from the bottom row on
/// the top row, and likewise left from the first column and right from the
/// last one.
pub proof fn lemma_wrap_round_trip(x: i32, y: i32)
    ensures
        wrapped_step((x, 0), Direction::Up) == (x, (DISPLAY_HEIGHT - CELL_SIZE) as i32),
        wrapped_step((x, (DISPLAY_HEIGHT - CELL_SIZE) as i32), Direction::Down) == (x, 0i32),
        wrapped_step((0, y), Direction::Left) == ((DISPLAY_WIDTH - CELL_SIZE) as i32, y),
        wrapped_step(((DISPLAY_WIDTH - CELL_SIZE) as i32, y), Direction::Right) == (0i32, y),
{
}

/// A tick records the head's cell at the back of the body (`record_head`),
/// moves the head (`translate`, which leaves the body alone) and, unless it
/// grows, drops the oldest cell (`drop_tail`). A tick that grows lengthens
/// the body by one cell and erases nothing; a following tick that does not
/// grow keeps the length and erases the oldest cell, which for a one-cell
/// snake is the cell it stood on before growing.
pub proof fn lemma_grow_then_steady(body: Seq<Cell>, head: Cell, next_head: Cell)
    requires
        body.len() < HISTORY_CAPACITY,
    ensures
        body.push(head).len() == body.len() + 1,
        body.push(head).push(next_head).drop_first().len() == body.push(head).len(),
        body.push(head)[0] == if body.len() == 0 { head } else { body[0] },
        ({
            let (grown, erased) = advanced_body(body, head, true);
            let (steady, erased_next) = advanced_body(grown, next_head, false);
            &&& grown.len() == body.len() + 1
            &&& erased is None
            &&& steady.len() == grown.len()
            &&& erased_next == Some(grown[0])
        }),
{
}

/// Where a new snake's head starts.
pub open spec fn start_cell() -> Cell {
    (((GRID_WIDTH / 2 - 1) * CELL_SIZE) as i32, ((GRID_HEIGHT / 2 - 1) * CELL_SIZE) as i32)
}

/// The player's snake: its head, its heading and the cells that its body
/// occupies, oldest first.
pub struct Snake {
    head: Cell,
    direction: Direction,
    history: Queue<Cell, 65>,
}

impl Snake {
    /// Cell of the head.
    pub closed spec fn head_spec(&self) -> Cell {
        self.head
    }

    /// Current heading.
    pub closed spec fn direction_spec(&self) -> Direction {
        self.direction
    }

    /// Cells behind the head, oldest first.
    pub closed spec fn body(&self) -> Seq<Cell> {
        queued_cells(self.history)
    }

    /// The head and every body cell lie on the grid.
    pub open spec fn well_formed(&self) -> bool {
        &&& on_grid(self.head_spec())
        &&& forall|i: int| 0 <= i < self.body().len() ==> on_grid(#[trigger] self.body()[i])
    }

    /// A snake with an empty body, its head at the middle of the display,
    /// heading down.
    pub fn init() -> (r: Snake)
        ensures
            r.well_formed(),
            r.head_spec() == start_cell(),
            r.direction_spec() == Direction::Down,
            r.body() == Seq::<Cell>::empty(),
    {
        let x = ((GRID_WIDTH / 2 - 1) * CELL_SIZE) as i32;
        let y = ((GRID_HEIGHT / 2 - 1) * CELL_SIZE) as i32;
        Snake { head: (x, y), direction: Direction::Down, history: empty_history() }
    }

    /// Cell of the head.
    pub fn head(&self) -> (r: Cell)
        ensures
            r == self.head_spec(),
    {
        self.head
    }

    /// Current heading.
    pub fn direction(&self) -> (r: Direction)
        ensures
            r == self.direction_spec(),
    {
        self.direction
    }

    /// Cells behind the head, oldest first.
    pub fn body_cells(&self) -> (r: Vec<Cell>)
        ensures
            r@ == self.body(),
    {
        let n = history_len(&self.history);
        let mut cells: Vec<Cell> = Vec::new();
        let mut i: usize = 0;
        while i < n
            invariant
                n == self.body().len(),
                i <= n,
                cells@ == self.body().take(i as int),
            decreases n - i,
        {
            if let Some(c) = history_at(&self.history, i) {
                cells.push(c);
            }
            assert(self.body().take(i as int + 1) =~= self.body().take(i as int).push(self.body()[i as int]));
            i = i + 1;
        }
        assert(self.body().take(n as int) =~= self.body());
        cells
    }

    /// Adds the head's cell at the back of the body, as a tick does before the
    /// head moves. A full body is left as it is, and `false` returned.
    pub fn record_head(&mut self) -> (r: bool)
        requires
            old(self).well_formed(),
        ensures
            final(self).well_formed(),
            final(self).head_spec() == old(self).head_spec(),
            final(self).direction_spec() == old(self).direction_spec(),
            r == (old(self).body().len() < HISTORY_CAPACITY),
            r ==> final(self).body() == old(self).body().push(old(self).head_spec()),
            !r ==> final(self).body() == old(self).body(),
    {
        let r = push_back(&mut self.history, self.head).is_ok();
        assert(forall|i: int| 0 <= i < self.body().len() ==> on_grid(#[trigger] self.body()[i])) by {
            assert forall|i: int| 0 <= i < self.body().len() implies on_grid(#[trigger] self.body()[i]) by {
                if r && i < old(self).body().len() {
                    assert(self.body()[i] == old(self).body()[i]);
                }
            }
        }
        r
    }

    /// Removes and returns the oldest body cell, so that it can be erased;
    /// `None` on an empty body.
    pub fn drop_tail(&mut self) -> (r: Option<Cell>)
        requires
            old(self).well_formed(),
        ensures
            final(self).well_formed(),
            final(self).head_spec() == old(self).head_spec(),
            final(self).direction_spec() == old(self).direction_spec(),
            old(self).body().len() == 0 ==> r is None && final(self).body() == old(self).body(),
            old(self).body().len() > 0 ==> r == Some(old(self).body()[0]) && final(self).body()
                == old(self).body().drop_first(),
    {
        let r = pop_front(&mut self.history);
        assert(forall|i: int| 0 <= i < self.body().len() ==> on_grid(#[trigger] self.body()[i])) by {
            assert forall|i: int| 0 <= i < self.body().len() implies on_grid(#[trigger] self.body()[i]) by {
                if old(self).body().len() > 0 {
                    assert(self.body()[i] == old(self).body()[i + 1]);
                }
            }
        }
        r
    }

    /// Moves the head one cell along the current heading, wrapping round the
    /// display edges. The body is left as it is.
    pub fn translate(&mut self)
        requires
            old(self).well_formed(),
        ensures
            final(self).well_formed(),
            final(self).head_spec() == wrapped_step(old(self).head_spec(), old(self).direction_spec()),
            final(self).direction_spec() == old(self).direction_spec(),
            final(self).body() == old(self).body(),
    {
        let s = CELL_SIZE as i32;
        let (mut x, mut y) = self.head;
        match self.direction {
            Direction::Up => y = y - s,
            Direction::Down => y = y + s,
            Direction::Left => x = x - s,
            Direction::Right => x = x + s,
        }
        if y < 0 {
            y = DISPLAY_HEIGHT as i32 - s;
        }
        if x < 0 {
            x = DISPLAY_WIDTH as i32 - s;
        }
        if x >= DISPLAY_WIDTH as i32 {
            x = 0;
        }
        if y >= DISPLAY_HEIGHT as i32 {
            y = 0;
        }
        self.head = (x, y);
        proof {
            lemma_step_stays_on_grid(old(self).head_spec(), old(self).direction_spec());
            assert(self.body() == old(self).body());
        }
    }

    /// Turns to `direction` unless it is the reverse of the current heading.
    pub fn set_direction(&mut self, direction: Direction)
        ensures
            final(self).direction_spec() == turned(old(self).direction_spec(), direction),
            final(self).head_spec() == old(self).head_spec(),
            final(self).body() == old(self).body(),
    {
        let reverse = match self.direction {
            Direction::Up => Direction::Down,
            Direction::Down => Direction::Up,
            Direction::Left => Direction::Right,
            Direction::Right => Direction::Left,
        };
        if direction != reverse {
            self.direction = direction;
        }
    }

    /// Whether the head is on the food's cell.
    pub fn is_player_eat_food(&self, food: &Food) -> (r: bool)
        requires
            self.well_formed(),
            food.well_formed(),
        ensures
            r == (self.head_spec() == food.cell_spec()),
    {
        same_cell(self.head, food.cell())
    }

    /// Whether the head is on a cell of the body.
    pub fn is_self_intersecting(&self) -> (r: bool)
        requires
            self.well_formed(),
        ensures
            r == self.body().contains(self.head_spec()),
            self.body().len() == 0 ==> !r,
    {
        let n = history_len(&self.history);
        let mut result = false;
        let mut i: usize = 0;
        while i < n
            invariant
                n == self.body().len(),
                self.well_formed(),
                i <= n,
                result == self.body().take(i as int).contains(self.head_spec()),
            decreases n - i,
        {
            let hit = match history_at(&self.history, i) {
                Some(c) => same_cell(c, self.head),
                None => false,
            };
            proof {
                let cells = self.body();
                let before = cells.take(i as int);
                let after = cells.take(i as int + 1);
                assert(after =~= before.push(cells[i as int]));
                if hit {
                    assert(after[i as int] == self.head_spec());
                }
                if before.contains(self.head_spec()) {
                    let k = choose|k: int| 0 <= k < before.len() && before[k] == self.head_spec();
                    assert(after[k] == self.head_spec());
                }
                if after.contains(self.head_spec()) {
                    let k = choose|k: int| 0 <= k < after.len() && after[k] == self.head_spec();
                    if k < i {
                        assert(before[k] == self.head_spec());
                    }
                }
            }
            result = result || hit;
            i = i + 1;
        }
        proof {
            assert(self.body().take(n as int) =~= self.body());
        }
        result
    }

    /// One tick of movement: the cell the head leaves joins the back of the
    /// body and the head moves on. Unless `grow` is set, the oldest body cell
    /// is dropped and returned, so that it can be erased. A body that already
    /// holds as many cells as the history can keep does not grow: its oldest
    /// cell is dropped whatever `grow` says.
    pub fn advance(&mut self, grow: bool) -> (erased: Option<Cell>)
        requires
            old(self).well_formed(),
        ensures
            final(self).well_formed(),
            final(self).head_spec() == wrapped_step(old(self).head_spec(), old(self).direction_spec()),
            final(self).direction_spec() == old(self).direction_spec(),
            (final(self).body(), erased) == advanced_body(old(self).body(), old(self).head_spec(), grow),
    {
        let erased;
        if history_len(&self.history) >= HISTORY_CAPACITY {
            erased = self.drop_tail();
            let _ = self.record_head();
        } else {
            let _ = self.record_head();
            if grow {
                erased = None;
            } else {
                erased = self.drop_tail();
            }
        }
        self.translate();
        erased
    }
}

} // verus!
