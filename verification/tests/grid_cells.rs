use snake_game::grid::{Direction, Point, HEIGHT, WIDTH};
use snake_game::random::fresh_food;

fn at(x: u16, y: u16) -> Point {
    Point { x, y }
}

#[test]
fn grid_is_twenty_by_twenty() {
    assert_eq!(WIDTH, 20);
    assert_eq!(HEIGHT, 20);
}

#[test]
fn step_moves_one_unit() {
    assert_eq!(at(10, 10).step(Direction::Up), Some(at(10, 9)));
    assert_eq!(at(10, 10).step(Direction::Down), Some(at(10, 11)));
    assert_eq!(at(10, 10).step(Direction::Left), Some(at(9, 10)));
    assert_eq!(at(10, 10).step(Direction::Right), Some(at(11, 10)));
    assert_eq!(at(18, 10).step(Direction::Right), Some(at(19, 10)));
    assert_eq!(at(2, 10).step(Direction::Left), Some(at(1, 10)));
    assert_eq!(at(10, 2).step(Direction::Up), Some(at(10, 1)));
    assert_eq!(at(10, 18).step(Direction::Down), Some(at(10, 19)));
}

#[test]
fn step_onto_a_border_gives_none() {
    assert_eq!(at(1, 10).step(Direction::Left), None);
    assert_eq!(at(19, 10).step(Direction::Right), None);
    assert_eq!(at(10, 1).step(Direction::Up), None);
    assert_eq!(at(10, 19).step(Direction::Down), None);
}

#[test]
fn step_never_wraps() {
    assert_eq!(at(0, 10).step(Direction::Left), None);
    assert_eq!(at(10, 0).step(Direction::Up), None);
    assert_eq!(at(0, 0).step(Direction::Left), None);
    assert_eq!(at(0, 0).step(Direction::Up), None);
    assert_eq!(at(u16::MAX, 10).step(Direction::Right), None);
    assert_eq!(at(10, u16::MAX).step(Direction::Down), None);
    assert_eq!(at(u16::MAX, u16::MAX).step(Direction::Left), None);
}

#[test]
fn step_from_outside_the_grid() {
    assert_eq!(at(0, 10).step(Direction::Right), Some(at(1, 10)));
    assert_eq!(at(20, 10).step(Direction::Left), Some(at(19, 10)));
    assert_eq!(at(10, 20).step(Direction::Up), Some(at(10, 19)));
    assert_eq!(at(10, 0).step(Direction::Down), Some(at(10, 1)));
    assert_eq!(at(0, 10).step(Direction::Up), None);
    assert_eq!(at(20, 10).step(Direction::Down), None);
    assert_eq!(at(21, 10).step(Direction::Left), None);
    assert_eq!(at(10, 21).step(Direction::Up), None);
}

#[test]
fn in_play_is_one_to_nineteen() {
    assert!(at(1, 1).is_in_play());
    assert!(at(19, 19).is_in_play());
    assert!(at(10, 10).is_in_play());
    assert!(!at(0, 10).is_in_play());
    assert!(!at(10, 0).is_in_play());
    assert!(!at(20, 10).is_in_play());
    assert!(!at(10, 20).is_in_play());
}

#[test]
fn touches_means_one_step_on_one_axis() {
    assert!(at(5, 5).touches(at(5, 6)));
    assert!(at(5, 5).touches(at(5, 4)));
    assert!(at(5, 5).touches(at(4, 5)));
    assert!(at(5, 5).touches(at(6, 5)));
    assert!(!at(5, 5).touches(at(5, 5)));
    assert!(!at(5, 5).touches(at(6, 6)));
    assert!(!at(5, 5).touches(at(5, 7)));
    assert!(!at(0, 0).touches(at(u16::MAX, 0)));
    assert!(at(u16::MAX, 3).touches(at(u16::MAX - 1, 3)));
}

#[test]
fn fresh_food_is_in_range_and_varies() {
    let mut xs = [false; 20];
    let mut ys = [false; 20];
    for _ in 0..2000 {
        let f = fresh_food();
        assert!(1 <= f.x && f.x < 19, "x = {}", f.x);
        assert!(1 <= f.y && f.y < 19, "y = {}", f.y);
        xs[f.x as usize] = true;
        ys[f.y as usize] = true;
    }
    assert!(xs.iter().filter(|seen| **seen).count() > 1);
    assert!(ys.iter().filter(|seen| **seen).count() > 1);
}
