use snake_game::food::Food;
use snake_game::game::{Game, START_DELAY_MS};
use snake_game::geometry::{same_cell, CELL_SIZE, DISPLAY_HEIGHT, DISPLAY_WIDTH, GRID_HEIGHT, GRID_WIDTH};
use snake_game::rng::CellRng;
use snake_game::snake::{Direction, Snake};
use snake_game::status::{directional, Button, Event, State, Status};

fn in_bounds(c: (i32, i32)) -> bool {
    c.0 >= 0
        && c.0 < DISPLAY_WIDTH as i32
        && c.1 >= 0
        && c.1 < DISPLAY_HEIGHT as i32
        && c.0 % CELL_SIZE as i32 == 0
        && c.1 % CELL_SIZE as i32 == 0
}

#[test]
fn init_places_head_mid_screen_heading_down() {
    let s = Snake::init();
    assert_eq!(s.head(), (150, 110));
    assert_eq!(s.direction(), Direction::Down);
    assert!(s.body_cells().is_empty());
}

#[test]
fn reversal_is_refused() {
    let pairs = [
        (Direction::Up, Direction::Down),
        (Direction::Down, Direction::Up),
        (Direction::Left, Direction::Right),
        (Direction::Right, Direction::Left),
    ];
    for (from, reverse) in pairs {
        let mut s = Snake::init();
        if from == Direction::Up {
            s.set_direction(Direction::Left);
        }
        s.set_direction(from);
        assert_eq!(s.direction(), from);
        s.set_direction(reverse);
        assert_eq!(s.direction(), from);
    }
}

#[test]
fn other_turns_are_taken() {
    let mut s = Snake::init();
    s.set_direction(Direction::Left);
    assert_eq!(s.direction(), Direction::Left);
    s.set_direction(Direction::Up);
    assert_eq!(s.direction(), Direction::Up);
    s.set_direction(Direction::Up);
    assert_eq!(s.direction(), Direction::Up);
    s.set_direction(Direction::Right);
    assert_eq!(s.direction(), Direction::Right);
}

#[test]
fn translate_stays_on_grid() {
    let mut s = Snake::init();
    let turns = [Direction::Down, Direction::Left, Direction::Up, Direction::Right];
    for i in 0..400 {
        s.set_direction(turns[(i / 37) % 4]);
        s.translate();
        assert!(in_bounds(s.head()), "{:?}", s.head());
    }
}

#[test]
fn wrap_down_and_up() {
    let mut s = Snake::init();
    for _ in 0..12 {
        s.translate();
    }
    assert_eq!(s.head(), (150, 230));
    s.translate();
    assert_eq!(s.head(), (150, 0));
    s.set_direction(Direction::Left);
    s.set_direction(Direction::Up);
    s.translate();
    assert_eq!(s.head(), (150, 230));
}

#[test]
fn wrap_right_and_left() {
    let mut s = Snake::init();
    s.set_direction(Direction::Right);
    for _ in 0..16 {
        s.translate();
    }
    assert_eq!(s.head(), (310, 110));
    s.translate();
    assert_eq!(s.head(), (0, 110));
    s.set_direction(Direction::Up);
    s.set_direction(Direction::Left);
    s.translate();
    assert_eq!(s.head(), (310, 110));
}

fn steer_to(s: &mut Snake, target: (i32, i32)) {
    s.set_direction(Direction::Right);
    while s.head().0 != target.0 {
        s.translate();
    }
    s.set_direction(Direction::Down);
    while s.head().1 != target.1 {
        s.translate();
    }
}

#[test]
fn eats_food_only_on_its_cell() {
    let food = Food::init_and_draw(5);
    let mut s = Snake::init();
    steer_to(&mut s, food.cell());
    assert!(s.is_player_eat_food(&food));
    s.translate();
    assert!(!s.is_player_eat_food(&food));
}

#[test]
fn same_cell_compares_coordinates() {
    assert!(same_cell((10, 20), (10, 20)));
    assert!(!same_cell((10, 20), (20, 20)));
    assert!(!same_cell((10, 20), (10, 30)));
    assert!(!same_cell((0, 0), (310, 230)));
}

#[test]
fn empty_body_never_intersects() {
    let s = Snake::init();
    assert!(!s.is_self_intersecting());
}

#[test]
fn loop_back_onto_body_intersects() {
    let mut s = Snake::init();
    let start = s.head();
    assert_eq!(s.advance(true), None);
    s.set_direction(Direction::Right);
    assert_eq!(s.advance(true), None);
    assert!(!s.is_self_intersecting());
    s.set_direction(Direction::Up);
    assert_eq!(s.advance(true), None);
    assert!(!s.is_self_intersecting());
    s.set_direction(Direction::Left);
    assert_eq!(s.advance(true), None);
    assert_eq!(s.head(), start);
    assert!(s.is_self_intersecting());
}

#[test]
fn growth_keeps_tail_then_steady_erases_it() {
    let mut s = Snake::init();
    let first = s.head();
    assert_eq!(s.advance(false), Some(first));
    assert_eq!(s.body_cells().len(), 0);
    // grow to one body cell
    let h = s.head();
    assert_eq!(s.advance(true), None);
    assert_eq!(s.body_cells(), vec![h]);
    // a consuming tick: one more cell, nothing erased
    let h2 = s.head();
    assert_eq!(s.advance(true), None);
    assert_eq!(s.body_cells(), vec![h, h2]);
    // a plain tick: same length, oldest erased
    let h3 = s.head();
    assert_eq!(s.advance(false), Some(h));
    assert_eq!(s.body_cells(), vec![h2, h3]);
}

#[test]
fn body_stops_growing_at_capacity() {
    let mut s = Snake::init();
    for _ in 0..64 {
        assert_eq!(s.advance(true), None);
    }
    assert_eq!(s.body_cells().len(), 64);
    let oldest = s.body_cells()[0];
    assert_eq!(s.advance(true), Some(oldest));
    assert_eq!(s.body_cells().len(), 64);
}

#[test]
fn generators_with_one_seed_agree() {
    let mut a = CellRng::new(5);
    let mut b = CellRng::new(5);
    for _ in 0..50 {
        assert_eq!(a.next_cell(GRID_WIDTH, GRID_HEIGHT), b.next_cell(GRID_WIDTH, GRID_HEIGHT));
    }
}

#[test]
fn generator_cells_are_in_range_and_vary() {
    let mut g = CellRng::new(5);
    let first = g.next_cell(GRID_WIDTH, GRID_HEIGHT);
    let mut varied = false;
    for _ in 0..50 {
        let c = g.next_cell(GRID_WIDTH, GRID_HEIGHT);
        assert!(c.0 < GRID_WIDTH && c.1 < GRID_HEIGHT);
        varied = varied || c != first;
    }
    assert!(varied);
}

#[test]
fn seeds_give_different_streams() {
    let mut a = CellRng::new(5);
    let mut b = CellRng::new(6);
    let sa: Vec<_> = (0..10).map(|_| a.next_cell(GRID_WIDTH, GRID_HEIGHT)).collect();
    let sb: Vec<_> = (0..10).map(|_| b.next_cell(GRID_WIDTH, GRID_HEIGHT)).collect();
    assert_ne!(sa, sb);
}

#[test]
fn food_follows_its_generator() {
    let mut g = CellRng::new(9);
    let mut f = Food::init_and_draw(9);
    let (x, y) = g.next_cell(GRID_WIDTH, GRID_HEIGHT);
    assert_eq!(f.cell(), ((x * CELL_SIZE) as i32, (y * CELL_SIZE) as i32));
    for _ in 0..10 {
        let before = f.cell();
        let (x, y) = g.next_cell(GRID_WIDTH, GRID_HEIGHT);
        assert_eq!(f.respawn(), before);
        assert_eq!(f.cell(), ((x * CELL_SIZE) as i32, (y * CELL_SIZE) as i32));
        assert!(in_bounds(f.cell()));
    }
}

#[test]
fn status_machine_scenario() {
    let mut st = Status::new();
    assert_eq!(st.get_state(), State::Menu);
    for b in [Button::Up, Button::Down, Button::Left, Button::Right] {
        st.handle(Event::Press(b));
        assert_eq!(st.get_state(), State::Menu);
    }
    st.handle(Event::Pass);
    assert_eq!(st.get_state(), State::Menu);
    st.handle(Event::Press(Button::Other));
    assert_eq!(st.get_state(), State::Playing);
    st.handle(Event::Press(Button::Other));
    assert_eq!(st.get_state(), State::Playing);
    st.handle(Event::SelfIntersection);
    assert_eq!(st.get_state(), State::GameOver);
    st.handle(Event::Pass);
    assert_eq!(st.get_state(), State::Menu);
}

#[test]
fn set_state_replaces_state() {
    let mut st = Status::new();
    st.set_state(State::GameOver);
    assert_eq!(st.get_state(), State::GameOver);
    assert!(directional(Button::Left));
    assert!(!directional(Button::Other));
}

#[test]
fn game_start_and_plain_tick() {
    let mut g = Game::start();
    assert_eq!(g.snake.head(), (150, 120));
    assert_eq!(g.delay_ms, START_DELAY_MS);
    assert_eq!(g.food.cell(), Food::init_and_draw(5).cell());
    let before = g.snake.head();
    let r = g.tick(Some(Button::Up));
    assert!(!r.game_over);
    assert_eq!(g.snake.direction(), Direction::Down);
    assert_eq!(r.head_drawn, Some((150, 130)));
    assert_eq!(r.tail_erased, Some(before));
    assert_eq!(r.delay_ms, 100);
    let r = g.tick(Some(Button::Left));
    assert_eq!(r.head_drawn, Some((140, 130)));
    let r = g.tick(Some(Button::Other));
    assert_eq!(r.head_drawn, Some((130, 130)));
}

#[test]
fn eating_grows_and_speeds_up() {
    let mut g = Game::start();
    let target = g.food.cell();
    // walk the head onto the food without eating on the way
    g.snake.set_direction(Direction::Right);
    while g.snake.head().0 != target.0 {
        g.snake.translate();
    }
    g.snake.set_direction(Direction::Down);
    while g.snake.head().1 != target.1 {
        g.snake.translate();
    }
    let r = g.tick(None);
    assert!(!r.game_over);
    let moved = r.food_moved.unwrap();
    assert_eq!(moved.0, target);
    assert_eq!(moved.1, g.food.cell());
    assert_eq!(r.tail_erased, None);
    assert_eq!(g.snake.body_cells(), vec![target]);
    assert_eq!(r.delay_ms, 95);
    let r = g.tick(None);
    if r.food_moved.is_none() {
        assert_eq!(r.tail_erased, Some(target));
        assert_eq!(r.delay_ms, 95);
    }
}

#[test]
fn tick_on_own_body_ends_game() {
    let mut g = Game::start();
    g.snake.advance(true);
    g.snake.set_direction(Direction::Right);
    g.snake.advance(true);
    g.snake.set_direction(Direction::Up);
    g.snake.advance(true);
    g.snake.set_direction(Direction::Left);
    g.snake.advance(true);
    let head = g.snake.head();
    let r = g.tick(None);
    if head != g.food.cell() {
        assert!(r.game_over);
        assert_eq!(r.head_drawn, None);
        assert_eq!(r.tail_erased, None);
        assert_eq!(g.snake.head(), head);
    }
}

#[test]
fn tick_by_steps_grows_then_keeps_length() {
    let mut s = Snake::init();
    let h0 = s.head();
    // a consuming tick: record the head, move, skip the drop
    assert!(s.record_head());
    s.translate();
    assert_eq!(s.body_cells(), vec![h0]);
    assert_ne!(s.head(), h0);
    // the next, plain tick: record, move, drop the oldest
    let h1 = s.head();
    assert!(s.record_head());
    s.translate();
    assert_eq!(s.drop_tail(), Some(h0));
    assert_eq!(s.body_cells(), vec![h1]);
    assert_eq!(s.body_cells().len(), 1);
}

#[test]
fn drop_tail_on_empty_body_is_none() {
    let mut s = Snake::init();
    assert_eq!(s.drop_tail(), None);
    assert!(s.body_cells().is_empty());
}

#[test]
fn record_head_refused_when_full() {
    let mut s = Snake::init();
    for _ in 0..64 {
        assert!(s.record_head());
        s.translate();
    }
    let before = s.body_cells();
    assert!(!s.record_head());
    assert_eq!(s.body_cells(), before);
}
