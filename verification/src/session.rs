//! One turn of the game loop: what a key press, or the lack of one, does to
//! the game, and what is to be painted after it.

use vstd::prelude::*;
use crate::game::SnakeGame;
use crate::grid::{Direction, Point};
use crate::random::food_spot;
use crate::render::{Glyph, Stamp, draw, frame_of, game_over_stamp, GAME_OVER_ROW};
use crate::state::GameState;

verus! {

/// How long the loop waits for a key before it goes round again, in
/// milliseconds.
pub const POLL_MILLIS: u64 = 1000;

/// A key press as the game sees it.
#[derive(Clone, Copy, PartialEq, Eq, Debug, Structural)]
pub enum Key {
    Quit,
    Up,
    Down,
    Left,
    Right,
    /// Any key that the game has no use for.
    Other,
}

/// What the loop is to do after an event.
#[derive(Debug)]
pub enum Action {
    /// Leave the loop.
    Quit,
    /// Paint the marks in their order, on a cleared screen if `clear` is
    /// set, and go on.
    Paint { clear: bool, stamps: Vec<Stamp> },
}

impl Key {
    /// The heading that the key asks for, if it is one of the four arrows.
    pub open spec fn heading(self) -> Option<Direction> {
        match self {
            Key::Up => Some(Direction::Up),
            Key::Down => Some(Direction::Down),
            Key::Left => Some(Direction::Left),
            Key::Right => Some(Direction::Right),
            _ => None,
        }
    }

    /// Gives the heading that the key asks for, if it is one of the four
    /// arrows.
    pub fn direction(self) -> (d: Option<Direction>)
        ensures
            d == self.heading(),
    {
        match self {
            Key::Up => Some(Direction::Up),
            Key::Down => Some(Direction::Down),
            Key::Left => Some(Direction::Left),
            Key::Right => Some(Direction::Right),
            _ => None,
        }
    }
}

/// The heading that the event asks for: that of an arrow key, and none for
/// any other key or when no key came.
pub open spec fn steers(event: Option<Key>) -> Option<Direction> {
    match event {
        Some(key) => key.heading(),
        None => None,
    }
}

/// The state after the event: an arrow key turns the snake and then moves
/// it once, with `fresh` as the cell for the food if it is eaten; anything
/// else leaves the state as it is.
pub open spec fn after_event(s: GameState, event: Option<Key>, fresh: Point) -> GameState {
    match steers(event) {
        Some(d) => s.turn(d).advance(fresh),
        None => s,
    }
}

/// The marks to paint once the event has led to state `after`: the whole
/// frame if an arrow key came, and after it the game-over line as long as
/// the game is finished.
pub open spec fn marks_after(after: GameState, event: Option<Key>) -> Seq<Stamp> {
    (if steers(event) is Some {
        frame_of(after)
    } else {
        Seq::<Stamp>::empty()
    }) + (if after.over {
        seq![game_over_stamp()]
    } else {
        Seq::<Stamp>::empty()
    })
}

/// Takes one turn of the loop. `event` is the key that came within the
/// waiting time, if one came. The quit key ends the loop and touches
/// nothing. An arrow key turns the snake, moves it once whether or not the
/// turn was taken, and has the whole frame painted. Any other key, and no
/// key, changes nothing. While the game is finished the game-over line is
/// painted every time.
pub fn tick(game: &mut SnakeGame, event: Option<Key>) -> (action: Action)
    requires
        old(game)@.wf(),
    ensures
        final(game)@.wf(),
        event == Some(Key::Quit) ==> action is Quit && final(game)@ == old(game)@,
        event != Some(Key::Quit) ==> {
            &&& final(game)@ == after_event(old(game)@, event, final(game)@.food)
            &&& action matches Action::Paint { clear, stamps }
            &&& clear == (steers(event) is Some)
            &&& stamps@ == marks_after(final(game)@, event)
        },
        steers(event) matches Some(d) && old(game)@.turn(d).eats() ==> food_spot(
            final(game)@.food,
        ),
{
    let mut clear: bool = false;
    let mut stamps: Vec<Stamp> = Vec::new();
    match event {
        Some(Key::Quit) => {
            return Action::Quit;
        },
        Some(key) => {
            match key.direction() {
                Some(d) => {
                    game.change_direction(d);
                    game.move_snake();
                    clear = true;
                    stamps = draw(game);
                },
                None => {},
            }
        },
        None => {},
    }
    if game.is_over() {
        stamps.push(Stamp { at: Point { x: 0, y: GAME_OVER_ROW }, glyph: Glyph::GameOver });
    }
    assert(stamps@ =~= marks_after(game@, event));
    Action::Paint { clear, stamps }
}

/// A finished game takes no more turns: whatever key comes, the state
/// stays as it is.
pub proof fn law_over_absorbs(s: GameState, event: Option<Key>, fresh: Point)
    requires
        s.over,
    ensures
        after_event(s, event, fresh) == s,
{
}

/// A key that is no arrow, and no key at all, leave the game as it is.
pub proof fn law_other_keys_ignored(s: GameState, event: Option<Key>, fresh: Point)
    requires
        steers(event) is None,
    ensures
        after_event(s, event, fresh) == s,
{
}

} // verus!
