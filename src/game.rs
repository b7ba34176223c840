use crate::food::{cell_at, Food};
use crate::geometry::{Cell, GRID_HEIGHT, GRID_WIDTH};
use crate::rng::{cell_step, pcg_seeded};
use crate::snake::{advanced_body, start_cell, turned, wrapped_step, Direction, Snake};
use crate::status::Button;
use vstd::prelude::*;

verus! {

/// Seed of the food generator; every game places its food the same way.
pub const FOOD_SEED: u64 = 5;

/// Pause after each tick at the start of a game, in milliseconds.
pub const START_DELAY_MS: u8 = 100;

/// The pause shrinks by this much each time food is eaten...
pub const DELAY_STEP_MS: u8 = 5;

/// ...while it is above this.
pub const MIN_DELAY_MS: u8 = 40;

/// Heading that a button asks for, if it is a direction button.
pub open spec fn requested(b: Button) -> Option<Direction> {
    match b {
        Button::Up => Some(Direction::Up),
        Button::Down => Some(Direction::Down),
        Button::Left => Some(Direction::Left),
        Button::Right => Some(Direction::Right),
        Button::Other => None,
    }
}

/// Heading after a tick's input.
pub open spec fn heading_after(current: Direction, press: Option<Button>) -> Direction {
    match press {
        Some(b) => match requested(b) {
            Some(d) => turned(current, d),
            None => current,
        },
        None => current,
    }
}

/// Pause after eating once more.
pub open spec fn quicker(delay: u8) -> u8 {
    if delay > MIN_DELAY_MS {
        (delay - DELAY_STEP_MS) as u8
    } else {
        delay
    }
}

/// What a tick changed on screen, and how long to pause before the next one.
pub struct TickReport {
    /// The snake ran into itself: the game is over and nothing moved.
    pub game_over: bool,
    /// The food was eaten: the cell it left and the cell it now lies on.
    pub food_moved: Option<(Cell, Cell)>,
    /// The head's new cell, to be drawn in the snake's colour.
    pub head_drawn: Option<Cell>,
    /// The tail cell that the body left, to be drawn in the background colour.
    pub tail_erased: Option<Cell>,
    /// Pause before the next tick, in milliseconds.
    pub delay_ms: u8,
}

/// A running game: the snake, the food and the pace.
pub struct Game {
    pub snake: Snake,
    pub food: Food,
    pub delay_ms: u8,
}

impl Game {
    /// Both entities lie on the grid.
    pub open spec fn well_formed(&self) -> bool {
        self.snake.well_formed() && self.food.well_formed()
    }

    /// A new game: a fresh snake moved one step from its start, heading down
    /// with an empty body, and the first food placed with `FOOD_SEED`.
    pub fn start() -> (r: Game)
        ensures
            r.well_formed(),
            r.snake.head_spec() == wrapped_step(start_cell(), Direction::Down),
            r.snake.direction_spec() == Direction::Down,
            r.snake.body() == Seq::<Cell>::empty(),
            ({
                let (c, next) = cell_step(pcg_seeded(FOOD_SEED), GRID_WIDTH, GRID_HEIGHT);
                r.food.cell_spec() == cell_at(c) && r.food.rng_state() == next
            }),
            r.delay_ms == START_DELAY_MS,
    {
        let mut snake = Snake::init();
        snake.translate();
        let food = Food::init_and_draw(FOOD_SEED);
        Game { snake, food, delay_ms: START_DELAY_MS }
    }

    /// One tick of play. A direction press turns the snake (a reversal is
    /// refused). If the head is on the food, the food moves on, the snake
    /// will grow this tick and the pause shortens. If the head is then on
    /// the body the game is over and nothing moves; otherwise the snake
    /// advances one cell.
    pub fn tick(&mut self, press: Option<Button>) -> (r: TickReport)
        requires
            old(self).well_formed(),
        ensures
            final(self).well_formed(),
            ({
                let dir = heading_after(old(self).snake.direction_spec(), press);
                let head = old(self).snake.head_spec();
                let body = old(self).snake.body();
                let ate = head == old(self).food.cell_spec();
                &&& final(self).snake.direction_spec() == dir
                &&& if ate {
                    let (c, next) = cell_step(old(self).food.rng_state(), GRID_WIDTH, GRID_HEIGHT);
                    &&& final(self).food.cell_spec() == cell_at(c)
                    &&& final(self).food.rng_state() == next
                    &&& r.food_moved == Some((head, cell_at(c)))
                    &&& final(self).delay_ms == quicker(old(self).delay_ms)
                } else {
                    &&& final(self).food == old(self).food
                    &&& r.food_moved is None
                    &&& final(self).delay_ms == old(self).delay_ms
                }
                &&& r.delay_ms == final(self).delay_ms
                &&& r.game_over == body.contains(head)
                &&& if body.contains(head) {
                    &&& final(self).snake.head_spec() == head
                    &&& final(self).snake.body() == body
                    &&& r.head_drawn is None
                    &&& r.tail_erased is None
                } else {
                    let new_head = wrapped_step(head, dir);
                    &&& final(self).snake.head_spec() == new_head
                    &&& (final(self).snake.body(), r.tail_erased) == advanced_body(body, head, ate)
                    &&& r.head_drawn == Some(new_head)
                }
            }),
    {
        match press {
            Some(Button::Up) => self.snake.set_direction(Direction::Up),
            Some(Button::Down) => self.snake.set_direction(Direction::Down),
            Some(Button::Left) => self.snake.set_direction(Direction::Left),
            Some(Button::Right) => self.snake.set_direction(Direction::Right),
            _ => {},
        }
        let mut food_moved = None;
        let grow = self.snake.is_player_eat_food(&self.food);
        if grow {
            let previous = self.food.respawn();
            food_moved = Some((previous, self.food.cell()));
            if self.delay_ms > MIN_DELAY_MS {
                self.delay_ms = self.delay_ms - DELAY_STEP_MS;
            }
        }
        if self.snake.is_self_intersecting() {
            return TickReport {
                game_over: true,
                food_moved,
                head_drawn: None,
                tail_erased: None,
                delay_ms: self.delay_ms,
            };
        }
        let tail_erased = self.snake.advance(grow);
        TickReport {
            game_over: false,
            food_moved,
            head_drawn: Some(self.snake.head()),
            tail_erased,
            delay_ms: self.delay_ms,
        }
    }
}

} // verus!
