use vstd::prelude::*;

verus! {

/// Generator state (state, increment) that `oorandom::Rand32::new` sets up
/// for a seed: the increment is twice the default increment plus one, and the
/// state is advanced twice, with the seed added in between.
pub open spec fn pcg_seeded(seed: u64) -> (u64, u64) {
    let m = 0x1_0000_0000_0000_0000int;
    let inc = (2 * 1442695040888963407int + 1) % m;
    let state = (((inc + seed) % m) * 6364136223846793005int + inc) % m;
    (state as u64, inc as u64)
}

/// A generator state with an odd increment, as every state that `Rand32::new`
/// sets up has; from such a state the generator runs through its full period.
pub open spec fn odd_increment(state: (u64, u64)) -> bool {
    state.1 % 2 == 1
}

/// Value below `bound` and following state that `oorandom::Rand32::rand_range`
/// gives on `0..bound` from the given state.
pub uninterp spec fn pcg_range_draw(state: (u64, u64), bound: u32) -> (u32, (u64, u64));

/// Relies on `oorandom::Rand32::new` and `Rand32::state`: `new_inc` sets the
/// increment to `(DEFAULT_INC << 1) | 1` and the state to `inc`, adds the seed
/// and steps once more (`state * MULTIPLIER + inc`), all wrapping.
#[verifier::external_body]
fn seeded_state(seed: u64) -> (r: (u64, u64))
    ensures
        r == pcg_seeded(seed),
{
    oorandom::Rand32::new(seed).state()
}

/// Relies on `oorandom::Rand32::rand_range` (resumed with `Rand32::from_state`):
/// the value drawn from `0..bound` is below `bound`, and it and the state after
/// the draw depend on the state before and the bound alone. `rand_u32` never
/// changes the increment. With an odd increment the generator has full period,
/// so the rejection loop of `rand_range` ends; with an even one it may not.
#[verifier::external_body]
fn draw_below(state: (u64, u64), bound: u32) -> (r: (u32, (u64, u64)))
    requires
        bound > 0,
        odd_increment(state),
    ensures
        r == pcg_range_draw(state, bound),
        r.0 < bound,
        r.1.1 == state.1,
{
    let mut g = oorandom::Rand32::from_state(state);
    let v = g.rand_range(0..bound);
    (v, g.state())
}

/// One grid cell drawn from `state`: a column below `width`, then a row below
/// `height`, and the state after both draws.
pub open spec fn cell_step(state: (u64, u64), width: u32, height: u32) -> ((u32, u32), (u64, u64)) {
    let (x, s1) = pcg_range_draw(state, width);
    let (y, s2) = pcg_range_draw(s1, height);
    ((x, y), s2)
}

/// The first `n` cells that a generator in `state` yields.
pub open spec fn cell_stream(state: (u64, u64), width: u32, height: u32, n: nat) -> Seq<(u32, u32)>
    decreases n,
{
    if n == 0 {
        Seq::empty()
    } else {
        let (c, next) = cell_step(state, width, height);
        seq![c] + cell_stream(next, width, height, (n - 1) as nat)
    }
}

/// Seeded pseudo-random source of grid cells.
pub struct CellRng {
    state: (u64, u64),
}

impl View for CellRng {
    type V = (u64, u64);

    closed spec fn view(&self) -> (u64, u64) {
        self.state
    }
}

impl CellRng {
    /// The generator's increment is odd.
    pub open spec fn well_formed(&self) -> bool {
        odd_increment(self@)
    }
}

impl CellRng {
    /// A generator seeded with `seed`.
    pub fn new(seed: u64) -> (r: CellRng)
        ensures
            r@ == pcg_seeded(seed),
            r.well_formed(),
    {
        CellRng { state: seeded_state(seed) }
    }

    /// Draws a cell of a `width` by `height` grid, column first.
    pub fn next_cell(&mut self, width: u32, height: u32) -> (r: (u32, u32))
        requires
            old(self).well_formed(),
            width > 0,
            height > 0,
        ensures
            final(self).well_formed(),
            (r, final(self)@) == cell_step(old(self)@, width, height),
            r.0 < width,
            r.1 < height,
    {
        let (x, s1) = draw_below(self.state, width);
        let (y, s2) = draw_below(s1, height);
        self.state = s2;
        (x, y)
    }
}

/// Two generators made with the same seed yield the same cells, one draw
/// after another, for any grid size.
pub proof fn lemma_same_seed_same_cells(a: CellRng, b: CellRng, seed: u64, width: u32, height: u32, n: nat)
    requires
        a@ == pcg_seeded(seed),
        b@ == pcg_seeded(seed),
    ensures
        cell_stream(a@, width, height, n) == cell_stream(b@, width, height, n),
{
}

} // verus!
