use vstd::prelude::*;

verus! {

/// A button of the device.
#[derive(Clone, Copy, Debug, PartialEq, Eq, Structural)]
pub enum Button {
    Up,
    Down,
    Left,
    Right,
    /// Any button that is not one of the four directions.
    Other,
}

/// The button is one of the four directions.
pub open spec fn is_directional(b: Button) -> bool {
    !(b is Other)
}

/// Whether the button is one of the four directions.
pub fn directional(b: Button) -> (r: bool)
    ensures
        r == is_directional(b),
{
    match b {
        Button::Other => false,
        _ => true,
    }
}

/// Phase of the game.
#[derive(Clone, Copy, Debug, PartialEq, Eq, Structural)]
pub enum State {
    /// The title screen is shown; this is where the game starts.
    Menu,
    /// A game is running.
    Playing,
    /// The snake has run into itself.
    GameOver,
}

/// What can move the game from one phase to another.
#[derive(Clone, Copy, Debug, PartialEq, Eq, Structural)]
pub enum Event {
    /// A button was pressed.
    Press(Button),
    /// The snake's head ran into its body.
    SelfIntersection,
    /// The main loop went round once more.
    Pass,
}

/// Phase after `e` in phase `s`: on the menu a non-directional press starts
/// a game, a self-intersection ends a running game, and the loop's next pass
/// leaves a finished game for the menu. Everything else changes nothing.
pub open spec fn next_state(s: State, e: Event) -> State {
    match (s, e) {
        (State::Menu, Event::Press(b)) => if is_directional(b) {
            State::Menu
        } else {
            State::Playing
        },
        (State::Playing, Event::SelfIntersection) => State::GameOver,
        (State::GameOver, Event::Pass) => State::Menu,
        _ => s,
    }
}

/// The game's phase, kept for the whole run of the program.
pub struct Status {
    state: State,
}

impl Status {
    /// Phase held.
    pub closed spec fn state(&self) -> State {
        self.state
    }

    /// Starts on the menu.
    pub fn new() -> (r: Status)
        ensures
            r.state() == State::Menu,
    {
        Status { state: State::Menu }
    }

    /// Replaces the phase.
    pub fn set_state(&mut self, state: State)
        ensures
            final(self).state() == state,
    {
        self.state = state;
    }

    /// Phase held.
    pub fn get_state(&self) -> (r: State)
        ensures
            r == self.state(),
    {
        self.state
    }

    /// Moves to the phase that `event` leads to.
    pub fn handle(&mut self, event: Event)
        ensures
            final(self).state() == next_state(old(self).state(), event),
    {
        let next = match (self.state, event) {
            (State::Menu, Event::Press(b)) => if directional(b) {
                State::Menu
            } else {
                State::Playing
            },
            (State::Playing, Event::SelfIntersection) => State::GameOver,
            (State::GameOver, Event::Pass) => State::Menu,
            (s, _) => s,
        };
        self.state = next;
    }
}

} // verus!
