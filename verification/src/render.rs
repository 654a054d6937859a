//! What a frame shows and where: the wall round the grid, the food, the
//! snake and the score line, as a list of marks in the order of painting.

use vstd::prelude::*;
use crate::game::SnakeGame;
use crate::grid::{Point, HEIGHT, WIDTH};
use crate::state::GameState;

verus! {

/// What is painted at a cell.
#[derive(Clone, Copy, PartialEq, Eq, Debug, Structural)]
pub enum Glyph {
    /// A piece of the wall.
    Wall,
    /// The food.
    Food,
    /// A segment of the snake.
    Segment,
    /// The score line, which starts at the cell and shows this score.
    Score(u32),
    /// The line that tells the player that the game is over.
    GameOver,
}

/// One mark of a frame: a glyph and the cell it is painted at.
#[derive(Clone, Copy, PartialEq, Eq, Debug, Structural)]
pub struct Stamp {
    pub at: Point,
    pub glyph: Glyph,
}

/// Column of the right wall.
pub const WALL_RIGHT: u16 = WIDTH + 1;

/// Row of the bottom wall.
pub const WALL_BOTTOM: u16 = HEIGHT + 1;

/// Row of the score line.
pub const SCORE_ROW: u16 = HEIGHT + 2;

/// Row of the line shown when the game is over.
pub const GAME_OVER_ROW: u16 = HEIGHT + 3;

/// Whether the cell belongs to the wall: the outline of the rectangle from
/// `(0, 0)` to `(WALL_RIGHT, WALL_BOTTOM)`.
pub open spec fn on_wall(p: Point) -> bool {
    &&& p.x <= WALL_RIGHT
    &&& p.y <= WALL_BOTTOM
    &&& (p.x == 0 || p.x == WALL_RIGHT || p.y == 0 || p.y == WALL_BOTTOM)
}

/// The cells of the wall in the order of painting: column by column a cell
/// of the top row and one of the bottom row, then row by row a cell of the
/// left column and one of the right column.
pub open spec fn wall_cells() -> Seq<Point> {
    Seq::new(
        2 * (WALL_RIGHT + 1) as nat,
        |i: int|
            Point { x: (i / 2) as u16, y: if i % 2 == 0 {
                0
            } else {
                WALL_BOTTOM
            } },
    ) + Seq::new(
        2 * (WALL_BOTTOM + 1) as nat,
        |i: int|
            Point { x: if i % 2 == 0 {
                0
            } else {
                WALL_RIGHT
            }, y: (i / 2) as u16 },
    )
}

/// The marks of a frame in the order of painting: the wall, the food, the
/// snake from head to tail, the score line.
pub open spec fn frame_of(s: GameState) -> Seq<Stamp> {
    wall_cells().map_values(|p: Point| Stamp { at: p, glyph: Glyph::Wall })
        + seq![Stamp { at: s.food, glyph: Glyph::Food }]
        + s.body.map_values(|p: Point| Stamp { at: p, glyph: Glyph::Segment })
        + seq![Stamp { at: Point { x: 0, y: SCORE_ROW }, glyph: Glyph::Score(s.score as u32) }]
}

/// The mark that tells the player that the game is over.
pub open spec fn game_over_stamp() -> Stamp {
    Stamp { at: Point { x: 0, y: GAME_OVER_ROW }, glyph: Glyph::GameOver }
}

/// The painted wall is the outline and nothing else.
pub proof fn lemma_wall_is_outline(p: Point)
    ensures
        wall_cells().contains(p) <==> on_wall(p),
{
    let top_bottom = Seq::new(
        2 * (WALL_RIGHT + 1) as nat,
        |i: int|
            Point { x: (i / 2) as u16, y: if i % 2 == 0 {
                0
            } else {
                WALL_BOTTOM
            } },
    );
    let sides = Seq::new(
        2 * (WALL_BOTTOM + 1) as nat,
        |i: int|
            Point { x: if i % 2 == 0 {
                0
            } else {
                WALL_RIGHT
            }, y: (i / 2) as u16 },
    );
    let cells = wall_cells();
    assert(cells == top_bottom + sides);
    if on_wall(p) {
        if p.y == 0 {
            let i = 2 * p.x as int;
            assert(top_bottom[i] == p);
            assert(cells[i] == p);
        } else if p.y == WALL_BOTTOM {
            let i = 2 * p.x as int + 1;
            assert(top_bottom[i] == p);
            assert(cells[i] == p);
        } else if p.x == 0 {
            let i = 2 * p.y as int;
            assert(sides[i] == p);
            assert(cells[top_bottom.len() + i] == p);
        } else {
            let i = 2 * p.y as int + 1;
            assert(sides[i] == p);
            assert(cells[top_bottom.len() + i] == p);
        }
    }
    if cells.contains(p) {
        let k = choose|k: int| 0 <= k < cells.len() && cells[k] == p;
        if k < top_bottom.len() {
            assert(cells[k] == top_bottom[k]);
        } else {
            assert(cells[k] == sides[k - top_bottom.len()]);
        }
    }
}

/// Lists the cells of the wall in the order of painting.
pub fn draw_borders() -> (cells: Vec<Point>)
    ensures
        cells@ == wall_cells(),
{
    let mut cells: Vec<Point> = Vec::new();
    let mut x: u16 = 0;
    while x <= WALL_RIGHT
        invariant
            x <= WALL_RIGHT + 1,
            cells@.len() == 2 * x,
            forall|i: int| 0 <= i < cells@.len() ==> cells@[i] == wall_cells()[i],
        decreases WALL_RIGHT + 1 - x,
    {
        cells.push(Point { x, y: 0 });
        cells.push(Point { x, y: WALL_BOTTOM });
        x += 1;
    }
    let mut y: u16 = 0;
    while y <= WALL_BOTTOM
        invariant
            y <= WALL_BOTTOM + 1,
            cells@.len() == 2 * (WALL_RIGHT + 1) + 2 * y,
            forall|i: int| 0 <= i < cells@.len() ==> cells@[i] == wall_cells()[i],
        decreases WALL_BOTTOM + 1 - y,
    {
        cells.push(Point { x: 0, y });
        cells.push(Point { x: WALL_RIGHT, y });
        y += 1;
    }
    assert(cells@ =~= wall_cells());
    cells
}

/// Lists the marks of a frame of the game in the order of painting. The
/// screen is to be cleared before they are painted.
pub fn draw(game: &SnakeGame) -> (stamps: Vec<Stamp>)
    ensures
        stamps@ == frame_of(game@),
{
    let wall: Vec<Point> = draw_borders();
    let body: Vec<Point> = game.body();
    let mut stamps: Vec<Stamp> = Vec::new();
    let mut i: usize = 0;
    while i < wall.len()
        invariant
            i <= wall@.len(),
            stamps@ == wall@.take(i as int).map_values(
                |p: Point| Stamp { at: p, glyph: Glyph::Wall },
            ),
        decreases wall@.len() - i,
    {
        stamps.push(Stamp { at: wall[i], glyph: Glyph::Wall });
        i += 1;
        assert(stamps@ =~= wall@.take(i as int).map_values(
            |p: Point| Stamp { at: p, glyph: Glyph::Wall },
        ));
    }
    assert(wall@.take(wall@.len() as int) =~= wall@);
    stamps.push(Stamp { at: game.food(), glyph: Glyph::Food });
    let ghost painted = stamps@;
    let mut j: usize = 0;
    while j < body.len()
        invariant
            j <= body@.len(),
            stamps@ == painted + body@.take(j as int).map_values(
                |p: Point| Stamp { at: p, glyph: Glyph::Segment },
            ),
        decreases body@.len() - j,
    {
        stamps.push(Stamp { at: body[j], glyph: Glyph::Segment });
        j += 1;
        assert(stamps@ =~= painted + body@.take(j as int).map_values(
            |p: Point| Stamp { at: p, glyph: Glyph::Segment },
        ));
    }
    assert(body@.take(body@.len() as int) =~= body@);
    stamps.push(Stamp { at: Point { x: 0, y: SCORE_ROW }, glyph: Glyph::Score(game.score()) });
    stamps
}

} // verus!
