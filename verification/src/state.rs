//! The mathematical model of a game: what a state is, which states are
//! valid, and the two transitions that the rules allow.

use vstd::prelude::*;
use vstd::set_lib::{lemma_int_range, lemma_len_subset, set_int_range};
use crate::grid::{Direction, Point, adjacent, HEIGHT, WIDTH};

verus! {

/// A game as a mathematical value. The snake's cells come head first.
pub ghost struct GameState {
    pub body: Seq<Point>,
    pub heading: Direction,
    pub food: Point,
    pub score: nat,
    pub over: bool,
}

/// Whether every cell of the body is playable.
pub open spec fn all_in_play(body: Seq<Point>) -> bool {
    forall|i: int| 0 <= i < body.len() ==> (#[trigger] body[i]).in_play()
}

/// Whether each cell of the body touches the one before it.
pub open spec fn linked(body: Seq<Point>) -> bool {
    forall|i: int| 0 < i < body.len() ==> adjacent(body[i - 1], #[trigger] body[i])
}

/// Whether the cells can be the body of a snake: at least one cell, all
/// playable, no cell twice, each touching the one before it.
pub open spec fn valid_body(body: Seq<Point>) -> bool {
    &&& body.len() >= 1
    &&& all_in_play(body)
    &&& body.no_duplicates()
    &&& linked(body)
}

/// The state every game starts from: one segment at the centre, heading
/// right, food at `(5, 5)`.
pub open spec fn initial_state() -> GameState {
    GameState {
        body: seq![Point { x: 10, y: 10 }],
        heading: Direction::Right,
        food: Point { x: 5, y: 5 },
        score: 0,
        over: false,
    }
}

impl GameState {
    /// Validity of a state: the body is a snake's, and the score counts the
    /// segments grown since the single first one.
    pub open spec fn wf(self) -> bool {
        &&& valid_body(self.body)
        &&& self.body.len() == self.score + 1
    }

    /// The head of the snake.
    pub open spec fn head(self) -> Point {
        self.body[0]
    }

    /// The cell the head enters on the next move, or `None` where the move
    /// would leave the playable cells.
    pub open spec fn target(self) -> Option<Point> {
        self.head().moved(self.heading)
    }

    /// Whether the next move is illegal: it leaves the playable cells or
    /// runs into the body.
    pub open spec fn blocked(self) -> bool {
        match self.target() {
            None => true,
            Some(p) => self.body.contains(p),
        }
    }

    /// Whether the next move is legal and lands on the food.
    pub open spec fn eats(self) -> bool {
        !self.over && !self.blocked() && self.target() == Some(self.food)
    }

    /// The state after a request to head in `d`. A finished game ignores it,
    /// and so does a snake asked to reverse.
    pub open spec fn turn(self, d: Direction) -> GameState {
        if self.over || d == self.heading.opposite() {
            self
        } else {
            GameState { heading: d, ..self }
        }
    }

    /// The state after one move, where `fresh` is the cell that the food
    /// goes to if it is eaten. A finished game stays as it is. An illegal
    /// move finishes the game and touches nothing else. A legal move puts
    /// the target cell in front; on the food the snake keeps its tail, the
    /// score rises by one and the food moves to `fresh`; elsewhere the tail
    /// is dropped.
    pub open spec fn advance(self, fresh: Point) -> GameState {
        if self.over {
            self
        } else if self.blocked() {
            GameState { over: true, ..self }
        } else {
            let h = self.target().unwrap();
            if h == self.food {
                GameState {
                    body: seq![h] + self.body,
                    food: fresh,
                    score: self.score + 1,
                    ..self
                }
            } else {
                GameState { body: seq![h] + self.body.drop_last(), ..self }
            }
        }
    }
}

/// One call made on a game: a request to turn, or a move together with the
/// cell that the food goes to if the move eats it.
pub ghost enum Command {
    Turn(Direction),
    Advance(Point),
}

/// The state after the commands were applied one after the other.
pub open spec fn run(s: GameState, commands: Seq<Command>) -> GameState
    decreases commands.len(),
{
    if commands.len() == 0 {
        s
    } else {
        let before = run(s, commands.drop_last());
        match commands.last() {
            Command::Turn(d) => before.turn(d),
            Command::Advance(fresh) => before.advance(fresh),
        }
    }
}

/// The number of playable cells, and so the most segments a snake can have.
pub open spec fn cell_count() -> int {
    (WIDTH - 1) * (HEIGHT - 1)
}

/// The place of a playable cell when the cells are counted row by row.
pub open spec fn cell_rank(p: Point) -> int {
    (p.y - 1) * (WIDTH - 1) + (p.x - 1)
}

/// A body whose cells are playable and all different has no more cells than
/// the grid has playable ones.
pub proof fn lemma_body_fits(body: Seq<Point>)
    requires
        all_in_play(body),
        body.no_duplicates(),
    ensures
        body.len() <= cell_count(),
{
    let ranks = body.map_values(|p: Point| cell_rank(p));
    assert forall|i: int, j: int|
        0 <= i < ranks.len() && 0 <= j < ranks.len() && i != j implies ranks[i] != ranks[j] by {
        assert(body[i].in_play() && body[j].in_play());
        assert(body[i] != body[j]);
    }
    ranks.unique_seq_to_set();
    let all = set_int_range(0, cell_count());
    assert forall|r: int| ranks.to_set().contains(r) implies all.contains(r) by {
        let i = choose|i: int| 0 <= i < ranks.len() && ranks[i] == r;
        assert(body[i].in_play());
    }
    lemma_int_range(0, cell_count());
    lemma_len_subset(ranks.to_set(), all);
}

/// A request to turn keeps a valid state valid.
pub proof fn lemma_turn_wf(s: GameState, d: Direction)
    requires
        s.wf(),
    ensures
        s.turn(d).wf(),
{
}

/// A move keeps a valid state valid, wherever the food goes.
pub proof fn lemma_advance_wf(s: GameState, fresh: Point)
    requires
        s.wf(),
    ensures
        s.advance(fresh).wf(),
{
    if !s.over && !s.blocked() {
        let h = s.target().unwrap();
        let grown = seq![h] + s.body;
        assert(adjacent(s.body[0], h));
        assert(valid_body(grown)) by {
            assert forall|i: int| 0 <= i < grown.len() implies (#[trigger] grown[i]).in_play() by {
                if i > 0 {
                    assert(grown[i] == s.body[i - 1]);
                }
            }
            assert forall|i: int, j: int|
                0 <= i < grown.len() && 0 <= j < grown.len() && i != j implies grown[i]
                != grown[j] by {
                if i > 0 && j > 0 {
                    assert(s.body[i - 1] != s.body[j - 1]);
                } else if i > 0 {
                    assert(s.body[i - 1] != h);
                } else {
                    assert(s.body[j - 1] != h);
                }
            }
            assert forall|i: int| 0 < i < grown.len() implies adjacent(
                grown[i - 1],
                #[trigger] grown[i],
            ) by {
                if i > 1 {
                    assert(adjacent(s.body[i - 2], s.body[i - 1]));
                }
            }
        }
        if h != s.food {
            let slid = seq![h] + s.body.drop_last();
            assert(slid =~= grown.drop_last());
            assert(valid_body(slid)) by {
                assert forall|i: int| 0 <= i < slid.len() implies (#[trigger] slid[i]).in_play() by {
                    assert(slid[i] == grown[i]);
                }
                assert forall|i: int, j: int|
                    0 <= i < slid.len() && 0 <= j < slid.len() && i != j implies slid[i]
                    != slid[j] by {
                    assert(grown[i] != grown[j]);
                }
                assert forall|i: int| 0 < i < slid.len() implies adjacent(
                    slid[i - 1],
                    #[trigger] slid[i],
                ) by {
                    assert(adjacent(grown[i - 1], grown[i]));
                }
            }
        }
    }
}

} // verus!
