use snake_game::game::SnakeGame;
use snake_game::grid::{Direction, Point};
use snake_game::render::{
    draw, draw_borders, Glyph, Stamp, GAME_OVER_ROW, SCORE_ROW, WALL_BOTTOM, WALL_RIGHT,
};
use snake_game::session::{tick, Action, Key, POLL_MILLIS};

fn cell(x: u16, y: u16) -> Point {
    Point { x, y }
}

fn stamps_of(action: Action) -> (bool, Vec<Stamp>) {
    match action {
        Action::Paint { clear, stamps } => (clear, stamps),
        Action::Quit => panic!("the loop was told to stop"),
    }
}

#[test]
fn rows_and_columns_of_the_frame() {
    assert_eq!(WALL_RIGHT, 21);
    assert_eq!(WALL_BOTTOM, 21);
    assert_eq!(SCORE_ROW, 22);
    assert_eq!(GAME_OVER_ROW, 23);
    assert_eq!(POLL_MILLIS, 1000);
}

#[test]
fn wall_is_painted_in_order() {
    let cells = draw_borders();
    assert_eq!(cells.len(), 88);
    assert_eq!(cells[0], cell(0, 0));
    assert_eq!(cells[1], cell(0, 21));
    assert_eq!(cells[2], cell(1, 0));
    assert_eq!(cells[3], cell(1, 21));
    assert_eq!(cells[42], cell(21, 0));
    assert_eq!(cells[43], cell(21, 21));
    assert_eq!(cells[44], cell(0, 0));
    assert_eq!(cells[45], cell(21, 0));
    assert_eq!(cells[46], cell(0, 1));
    assert_eq!(cells[47], cell(21, 1));
    assert_eq!(cells[86], cell(0, 21));
    assert_eq!(cells[87], cell(21, 21));
}

#[test]
fn wall_is_the_outline() {
    let cells = draw_borders();
    for x in 0..=22u16 {
        for y in 0..=22u16 {
            let outline = x <= 21 && y <= 21 && (x == 0 || x == 21 || y == 0 || y == 21);
            assert_eq!(cells.contains(&cell(x, y)), outline, "({}, {})", x, y);
        }
    }
}

#[test]
fn frame_of_a_new_game() {
    let g = SnakeGame::new();
    let stamps = draw(&g);
    assert_eq!(stamps.len(), 91);
    let wall = draw_borders();
    for i in 0..88 {
        assert_eq!(stamps[i], Stamp { at: wall[i], glyph: Glyph::Wall });
    }
    assert_eq!(stamps[88], Stamp { at: cell(5, 5), glyph: Glyph::Food });
    assert_eq!(stamps[89], Stamp { at: cell(10, 10), glyph: Glyph::Segment });
    assert_eq!(stamps[90], Stamp { at: cell(0, 22), glyph: Glyph::Score(0) });
}

#[test]
fn frame_lists_the_snake_head_first() {
    let g = SnakeGame::from_body(vec![cell(3, 3), cell(3, 4), cell(4, 4)], Direction::Up, cell(7, 2))
        .expect("a valid body");
    let stamps = draw(&g);
    assert_eq!(stamps.len(), 93);
    assert_eq!(stamps[88], Stamp { at: cell(7, 2), glyph: Glyph::Food });
    assert_eq!(stamps[89], Stamp { at: cell(3, 3), glyph: Glyph::Segment });
    assert_eq!(stamps[90], Stamp { at: cell(3, 4), glyph: Glyph::Segment });
    assert_eq!(stamps[91], Stamp { at: cell(4, 4), glyph: Glyph::Segment });
    assert_eq!(stamps[92], Stamp { at: cell(0, 22), glyph: Glyph::Score(2) });
}

#[test]
fn key_directions() {
    assert_eq!(Key::Up.direction(), Some(Direction::Up));
    assert_eq!(Key::Down.direction(), Some(Direction::Down));
    assert_eq!(Key::Left.direction(), Some(Direction::Left));
    assert_eq!(Key::Right.direction(), Some(Direction::Right));
    assert_eq!(Key::Quit.direction(), None);
    assert_eq!(Key::Other.direction(), None);
}

#[test]
fn quit_leaves_the_loop() {
    let mut g = SnakeGame::new();
    assert!(matches!(tick(&mut g, Some(Key::Quit)), Action::Quit));
    assert_eq!(g.body(), vec![cell(10, 10)]);
    assert!(!g.is_over());
}

#[test]
fn no_key_changes_nothing() {
    let mut g = SnakeGame::new();
    let (clear, stamps) = stamps_of(tick(&mut g, None));
    assert!(!clear);
    assert!(stamps.is_empty());
    assert_eq!(g.body(), vec![cell(10, 10)]);
    assert_eq!(g.direction(), Direction::Right);
}

#[test]
fn other_key_changes_nothing() {
    let mut g = SnakeGame::new();
    let (clear, stamps) = stamps_of(tick(&mut g, Some(Key::Other)));
    assert!(!clear);
    assert!(stamps.is_empty());
    assert_eq!(g.body(), vec![cell(10, 10)]);
    assert_eq!(g.direction(), Direction::Right);
}

#[test]
fn arrow_key_turns_moves_and_paints() {
    let mut g = SnakeGame::new();
    let (clear, stamps) = stamps_of(tick(&mut g, Some(Key::Up)));
    assert!(clear);
    assert_eq!(g.direction(), Direction::Up);
    assert_eq!(g.body(), vec![cell(10, 9)]);
    assert_eq!(stamps, draw(&g));
    assert_eq!(stamps[89], Stamp { at: cell(10, 9), glyph: Glyph::Segment });
}

#[test]
fn rejected_turn_still_moves() {
    let mut g = SnakeGame::new();
    let (clear, stamps) = stamps_of(tick(&mut g, Some(Key::Left)));
    assert!(clear);
    assert_eq!(g.direction(), Direction::Right);
    assert_eq!(g.body(), vec![cell(11, 10)]);
    assert_eq!(stamps.len(), 91);
}

#[test]
fn arrow_key_onto_the_food_scores() {
    let mut g =
        SnakeGame::from_body(vec![cell(5, 6)], Direction::Right, cell(5, 5)).expect("a valid body");
    let (_, stamps) = stamps_of(tick(&mut g, Some(Key::Up)));
    assert_eq!(g.body(), vec![cell(5, 5), cell(5, 6)]);
    assert_eq!(g.score(), 1);
    let f = g.food();
    assert!(1 <= f.x && f.x < 19 && 1 <= f.y && f.y < 19);
    assert_eq!(stamps.len(), 92);
    assert_eq!(stamps[88], Stamp { at: f, glyph: Glyph::Food });
    assert_eq!(stamps[91], Stamp { at: cell(0, 22), glyph: Glyph::Score(1) });
}

#[test]
fn finished_game_shows_the_line_every_turn() {
    let mut g =
        SnakeGame::from_body(vec![cell(1, 10)], Direction::Up, cell(5, 5)).expect("a valid body");
    let banner = Stamp { at: cell(0, 23), glyph: Glyph::GameOver };

    let (clear, stamps) = stamps_of(tick(&mut g, Some(Key::Left)));
    assert!(clear);
    assert!(g.is_over());
    assert_eq!(g.body(), vec![cell(1, 10)]);
    assert_eq!(stamps.len(), 92);
    assert_eq!(stamps[..91], draw(&g)[..]);
    assert_eq!(stamps[91], banner);

    let (clear, stamps) = stamps_of(tick(&mut g, None));
    assert!(!clear);
    assert_eq!(stamps, vec![banner]);

    let (clear, stamps) = stamps_of(tick(&mut g, Some(Key::Other)));
    assert!(!clear);
    assert_eq!(stamps, vec![banner]);

    let (clear, stamps) = stamps_of(tick(&mut g, Some(Key::Down)));
    assert!(clear);
    assert_eq!(stamps.len(), 92);
    assert_eq!(stamps[91], banner);
    assert_eq!(g.body(), vec![cell(1, 10)]);
    assert_eq!(g.direction(), Direction::Left);
    assert_eq!(g.score(), 0);

    assert!(matches!(tick(&mut g, Some(Key::Quit)), Action::Quit));
}
