//! Where the food goes: the one place that asks for random numbers.

use vstd::prelude::*;
use crate::grid::{Point, HEIGHT, WIDTH};

verus! {

/// Whether the food may be put on this cell: the playable cells without the
/// last column and the last row.
pub open spec fn food_spot(p: Point) -> bool {
    1 <= p.x < WIDTH - 1 && 1 <= p.y < HEIGHT - 1
}

/// Calls `rand::Rng::gen_range` on `rand::thread_rng()` with the half-open
/// range `low..high`. Trusted: for a range that is not empty the call
/// returns a value inside it. Which value is a matter of chance, so nothing
/// more is claimed. An empty range would panic and is left out.
#[verifier::external_body]
fn random_in(low: u16, high: u16) -> (r: u16)
    requires
        low < high,
    ensures
        low <= r < high,
{
    rand::Rng::gen_range(&mut rand::thread_rng(), low..high)
}

/// Picks a cell for the food, each coordinate drawn on its own.
pub fn fresh_food() -> (p: Point)
    ensures
        food_spot(p),
{
    let x: u16 = random_in(1, WIDTH - 1);
    let y: u16 = random_in(1, HEIGHT - 1);
    Point { x, y }
}

} // verus!
