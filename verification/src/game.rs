//! The game itself: the snake, its heading, the food, the score.

use std::collections::VecDeque;
use vstd::prelude::*;
use crate::grid::{Direction, Point, adjacent, HEIGHT, WIDTH};
use crate::random::{food_spot, fresh_food};
use crate::state::{
    GameState, all_in_play, cell_count, initial_state, lemma_advance_wf, lemma_body_fits, linked,
    valid_body,
};

verus! {

/// Says whether the cells can be the body of a snake, head first: at least
/// one cell, all playable, no cell twice, each touching the one before it.
pub fn valid_cells(cells: &Vec<Point>) -> (ok: bool)
    ensures
        ok == valid_body(cells@),
{
    let n: usize = cells.len();
    if n == 0 {
        return false;
    }
    let mut i: usize = 0;
    while i < n
        invariant
            n == cells@.len(),
            i <= n,
            all_in_play(cells@.take(i as int)),
            cells@.take(i as int).no_duplicates(),
            linked(cells@.take(i as int)),
        decreases n - i,
    {
        let c: Point = cells[i];
        if !c.is_in_play() {
            return false;
        }
        if i > 0 && !cells[i - 1].touches(c) {
            return false;
        }
        let mut j: usize = 0;
        while j < i
            invariant
                n == cells@.len(),
                j <= i < n,
                c == cells@[i as int],
                forall|k: int| 0 <= k < j ==> cells@[k] != c,
            decreases i - j,
        {
            if cells[j] == c {
                return false;
            }
            j += 1;
        }
        proof {
            let before = cells@.take(i as int);
            let after = cells@.take(i + 1);
            assert forall|a: int| 0 <= a < after.len() implies (#[trigger] after[a]).in_play() by {
                if a < i {
                    assert(before[a].in_play());
                }
            }
            assert forall|a: int, b: int|
                0 <= a < after.len() && 0 <= b < after.len() && a != b implies after[a]
                != after[b] by {
                if a < i && b < i {
                    assert(before[a] != before[b]);
                }
            }
            assert forall|a: int| 0 < a < after.len() implies adjacent(
                after[a - 1],
                #[trigger] after[a],
            ) by {
                if a < i {
                    assert(adjacent(before[a - 1], before[a]));
                }
            }
        }
        i += 1;
    }
    assert(cells@.take(n as int) =~= cells@);
    true
}

/// A running or finished game.
pub struct SnakeGame {
    snake: VecDeque<Point>,
    direction: Direction,
    food: Point,
    score: u32,
    game_over: bool,
}

impl View for SnakeGame {
    type V = GameState;

    closed spec fn view(&self) -> GameState {
        GameState {
            body: self.snake@,
            heading: self.direction,
            food: self.food,
            score: self.score as nat,
            over: self.game_over,
        }
    }
}

impl SnakeGame {
    /// Starts a game.
    pub fn new() -> (game: SnakeGame)
        ensures
            game@ == initial_state(),
            game@.wf(),
    {
        let mut snake: VecDeque<Point> = VecDeque::new();
        snake.push_back(Point { x: WIDTH / 2, y: HEIGHT / 2 });
        let game = SnakeGame {
            snake,
            direction: Direction::Right,
            food: Point { x: 5, y: 5 },
            score: 0,
            game_over: false,
        };
        assert(game@.body =~= initial_state().body);
        game
    }

    /// Sets up a running game with the given body, head first, the given
    /// heading and food, and the score that a snake of that length has
    /// earned. Gives `None` where the cells cannot be the body of a snake.
    pub fn from_body(cells: Vec<Point>, direction: Direction, food: Point) -> (made: Option<
        SnakeGame,
    >)
        ensures
            made is Some <==> valid_body(cells@),
            made matches Some(game) ==> {
                &&& game@.wf()
                &&& game@ == (GameState {
                    body: cells@,
                    heading: direction,
                    food: food,
                    score: (cells@.len() - 1) as nat,
                    over: false,
                })
            },
    {
        if !valid_cells(&cells) {
            return None;
        }
        proof {
            lemma_body_fits(cells@);
        }
        let n: usize = cells.len();
        let mut snake: VecDeque<Point> = VecDeque::new();
        let mut score: u32 = 0;
        let mut i: usize = 0;
        while i < n
            invariant
                n == cells@.len(),
                n <= cell_count(),
                i <= n,
                snake@ == cells@.take(i as int),
                score + 1 == i || (i == 0 && score == 0),
            decreases n - i,
        {
            snake.push_back(cells[i]);
            if i > 0 {
                score += 1;
            }
            i += 1;
            assert(snake@ =~= cells@.take(i as int));
        }
        assert(cells@.take(n as int) =~= cells@);
        Some(SnakeGame { snake, direction, food, score, game_over: false })
    }

    /// The cells of the snake, head first.
    pub fn body(&self) -> (cells: Vec<Point>)
        ensures
            cells@ == self@.body,
    {
        let n: usize = self.snake.len();
        let mut cells: Vec<Point> = Vec::new();
        let mut i: usize = 0;
        while i < n
            invariant
                n == self.snake@.len(),
                i <= n,
                cells@ == self.snake@.take(i as int),
            decreases n - i,
        {
            cells.push(self.snake[i]);
            i += 1;
            assert(cells@ =~= self.snake@.take(i as int));
        }
        assert(self.snake@.take(n as int) =~= self.snake@);
        cells
    }

    /// The head of the snake.
    pub fn head(&self) -> (p: Point)
        requires
            self@.wf(),
        ensures
            p == self@.head(),
    {
        self.snake[0]
    }

    /// The number of segments.
    pub fn len(&self) -> (n: usize)
        ensures
            n == self@.body.len(),
    {
        self.snake.len()
    }

    /// The present heading.
    pub fn direction(&self) -> (d: Direction)
        ensures
            d == self@.heading,
    {
        self.direction
    }

    /// The cell the food lies on.
    pub fn food(&self) -> (p: Point)
        ensures
            p == self@.food,
    {
        self.food
    }

    /// The number of times the snake has eaten.
    pub fn score(&self) -> (n: u32)
        ensures
            n == self@.score,
    {
        self.score
    }

    /// Whether the game is finished.
    pub fn is_over(&self) -> (over: bool)
        ensures
            over == self@.over,
    {
        self.game_over
    }

    /// Says whether the state is valid. Every game that this library hands
    /// out is, and stays so.
    pub fn is_valid(&self) -> (ok: bool)
        ensures
            ok == self@.wf(),
    {
        let cells: Vec<Point> = self.body();
        if !valid_cells(&cells) {
            return false;
        }
        proof {
            lemma_body_fits(cells@);
        }
        let n: usize = cells.len();
        self.score < u32::MAX && n == self.score as usize + 1
    }

    /// Asks the snake to head in `new_direction`. A finished game ignores
    /// the request; so does a snake asked to reverse. Nothing but the
    /// heading changes.
    pub fn change_direction(&mut self, new_direction: Direction)
        ensures
            final(self)@ == old(self)@.turn(new_direction),
            old(self)@.wf() ==> final(self)@.wf(),
    {
        if self.game_over {
            return ;
        }
        self.direction = match (self.direction, new_direction) {
            (Direction::Up, Direction::Down)
            | (Direction::Down, Direction::Up)
            | (Direction::Left, Direction::Right)
            | (Direction::Right, Direction::Left) => self.direction,
            _ => new_direction,
        };
    }

    /// Whether the snake lies on cell `p`.
    pub fn occupies(&self, p: Point) -> (found: bool)
        ensures
            found == self@.body.contains(p),
    {
        let n: usize = self.snake.len();
        let mut i: usize = 0;
        while i < n
            invariant
                n == self.snake@.len(),
                i <= n,
                forall|k: int| 0 <= k < i ==> self.snake@[k] != p,
            decreases n - i,
        {
            if self.snake[i] == p {
                return true;
            }
            i += 1;
        }
        false
    }

    /// Moves the body and the score as one move does, and leaves the food
    /// where it is. Says whether the food was eaten.
    fn shift(&mut self) -> (ate: bool)
        requires
            old(self)@.wf(),
        ensures
            ate == old(self)@.eats(),
            final(self)@ == old(self)@.advance(old(self)@.food),
    {
        proof {
            lemma_advance_wf(self@, self@.food);
        }
        if self.game_over {
            return false;
        }
        let head: Point = self.snake[0];
        let new_head: Point = match head.step(self.direction) {
            Some(p) => p,
            None => {
                self.game_over = true;
                return false;
            },
        };
        if self.occupies(new_head) {
            self.game_over = true;
            return false;
        }
        self.snake.push_front(new_head);
        if new_head == self.food {
            proof {
                lemma_body_fits(self.snake@);
            }
            self.score += 1;
            true
        } else {
            self.snake.pop_back();
            assert(self.snake@ =~= seq![new_head] + old(self)@.body.drop_last());
            false
        }
    }

    /// Makes one move, with `next_food` as the cell that the food goes to if
    /// this move eats it.
    pub fn move_snake_with(&mut self, next_food: Point)
        requires
            old(self)@.wf(),
        ensures
            final(self)@ == old(self)@.advance(next_food),
            final(self)@.wf(),
    {
        proof {
            lemma_advance_wf(self@, next_food);
        }
        if self.shift() {
            self.food = next_food;
        }
    }

    /// Makes one move. If it eats the food, the food goes to a cell drawn at
    /// random, which may lie under the snake.
    pub fn move_snake(&mut self)
        requires
            old(self)@.wf(),
        ensures
            final(self)@ == old(self)@.advance(final(self)@.food),
            old(self)@.eats() ==> food_spot(final(self)@.food),
            final(self)@.wf(),
    {
        if self.shift() {
            self.food = fresh_food();
        }
        proof {
            lemma_advance_wf(old(self)@, self@.food);
        }
    }
}

} // verus!
