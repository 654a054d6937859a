//! What holds of every game, proved from the model of the two transitions.

use vstd::prelude::*;
use crate::grid::{Direction, Point};
use crate::random::food_spot;
use crate::state::{Command, GameState, lemma_advance_wf, lemma_turn_wf, run};

verus! {

/// In a running game, a turn that is no reversal followed by a legal move
/// puts the head exactly one unit further in the new heading, and the game
/// goes on. The move is legal when the cell one unit from the head in
/// heading `d` is playable and not part of the body.
pub proof fn law_turn_then_move(s: GameState, d: Direction, fresh: Point)
    requires
        s.wf(),
        !s.over,
        d != s.heading.opposite(),
        !s.turn(d).blocked(),
    ensures
        s.turn(d).advance(fresh).heading == d,
        s.turn(d).advance(fresh).head().x == s.head().x + d.dx(),
        s.turn(d).advance(fresh).head().y == s.head().y + d.dy(),
        !s.turn(d).advance(fresh).over,
{
}

/// A turn that is no reversal followed by an illegal move ends the game
/// with the snake where it was.
pub proof fn law_turn_then_blocked(s: GameState, d: Direction, fresh: Point)
    requires
        !s.over,
        d != s.heading.opposite(),
        s.turn(d).blocked(),
    ensures
        s.turn(d).advance(fresh) == (GameState { heading: d, over: true, ..s }),
{
}

/// A request to reverse leaves the state as it is: down while heading up,
/// up while heading down, right while heading left, left while heading
/// right.
pub proof fn law_reversal_ignored(s: GameState)
    ensures
        s.turn(s.heading.opposite()) == s,
        s.heading == Direction::Up ==> s.turn(Direction::Down).heading == Direction::Up,
        s.heading == Direction::Down ==> s.turn(Direction::Up).heading == Direction::Down,
        s.heading == Direction::Left ==> s.turn(Direction::Right).heading == Direction::Left,
        s.heading == Direction::Right ==> s.turn(Direction::Left).heading == Direction::Right,
{
}

/// Any other request in a running game is taken, the present heading
/// included, and changes the heading alone.
pub proof fn law_turn_taken(s: GameState, d: Direction)
    requires
        !s.over,
        d != s.heading.opposite(),
    ensures
        s.turn(d) == (GameState { heading: d, ..s }),
{
}

/// A move whose target lies on or beyond a border ends the game and leaves
/// the snake, the food and the score as they were.
pub proof fn law_border_ends_game(s: GameState, fresh: Point)
    requires
        s.head().moved(s.heading) is None,
    ensures
        s.advance(fresh) == (GameState { over: true, ..s }),
        s.advance(fresh).over,
        s.advance(fresh).body == s.body,
{
}

/// A move whose target is a cell of the body ends the game and leaves the
/// snake, the food and the score as they were.
pub proof fn law_self_collision_ends_game(s: GameState, fresh: Point, p: Point)
    requires
        s.head().moved(s.heading) == Some(p),
        s.body.contains(p),
    ensures
        s.advance(fresh) == (GameState { over: true, ..s }),
        s.advance(fresh).over,
        s.advance(fresh).body == s.body,
{
}

/// A legal move onto the food makes the snake one segment longer and the
/// score one higher, and sends the food to the cell drawn for it, which is
/// playable. Any other legal move keeps the length, the score and the food.
pub proof fn law_growth(s: GameState, fresh: Point)
    requires
        s.wf(),
        !s.over,
        !s.blocked(),
        food_spot(fresh),
    ensures
        s.eats() ==> {
            &&& s.advance(fresh).body.len() == s.body.len() + 1
            &&& s.advance(fresh).score == s.score + 1
            &&& s.advance(fresh).food == fresh
            &&& s.advance(fresh).food.in_play()
            &&& s.advance(fresh).body.skip(1) == s.body
        },
        !s.eats() ==> {
            &&& s.advance(fresh).body.len() == s.body.len()
            &&& s.advance(fresh).score == s.score
            &&& s.advance(fresh).food == s.food
            &&& s.advance(fresh).body.skip(1) == s.body.drop_last()
        },
        s.advance(fresh).head() == s.target().unwrap(),
{
    if s.eats() {
        assert(s.advance(fresh).body.skip(1) =~= s.body);
    } else {
        assert(s.advance(fresh).body.skip(1) =~= s.body.drop_last());
    }
}

/// A finished game stays finished and unchanged, whatever is asked of it
/// and however often.
pub proof fn law_finished_is_frozen(s: GameState, commands: Seq<Command>)
    requires
        s.over,
    ensures
        run(s, commands) == s,
    decreases commands.len(),
{
    if commands.len() > 0 {
        law_finished_is_frozen(s, commands.drop_last());
    }
}

/// Once a game is finished it never runs again.
pub proof fn law_over_is_final(s: GameState, commands: Seq<Command>)
    ensures
        s.over ==> run(s, commands).over,
{
    if s.over {
        law_finished_is_frozen(s, commands);
    }
}

/// Every state reached from a valid one is valid.
pub proof fn law_validity_kept(s: GameState, commands: Seq<Command>)
    requires
        s.wf(),
    ensures
        run(s, commands).wf(),
    decreases commands.len(),
{
    if commands.len() > 0 {
        let before = run(s, commands.drop_last());
        law_validity_kept(s, commands.drop_last());
        match commands.last() {
            Command::Turn(d) => lemma_turn_wf(before, d),
            Command::Advance(fresh) => lemma_advance_wf(before, fresh),
        }
    }
}

} // verus!
