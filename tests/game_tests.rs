use snake::collision::{detect, occupies};
use snake::food::{draw_pick, free_cells, place_food};
use snake::game::{Game, GameState};
use snake::geometry::{cell_count, step, Direction, Grid, Position, CELL_SIZE};
use snake::snake::Snake;

fn pos(x: i32, y: i32) -> Position {
    Position::new(x, y)
}

fn game_with(body: Vec<Position>, dir: Direction, food: Position) -> Game {
    Game {
        grid: Grid::new(20, 20),
        snake: Snake::with_body(body, dir),
        food,
        state: GameState::Running,
    }
}

#[test]
fn initial_advance_moves_right() {
    let mut s = Snake::new();
    assert_eq!(s.body, vec![pos(0, 0), pos(0, 1)]);
    assert_eq!(s.dir, Direction::Right);
    let tail = s.advance();
    assert_eq!(s.body, vec![pos(1, 0), pos(0, 0)]);
    assert_eq!(tail, pos(0, 1));
}

#[test]
fn reversal_is_rejected() {
    let mut s = Snake::with_body(vec![pos(1, 0), pos(0, 0)], Direction::Right);
    s.set_direction(Direction::Left);
    assert_eq!(s.dir, Direction::Right);
    s.advance();
    assert_eq!(s.body, vec![pos(2, 0), pos(1, 0)]);
}

#[test]
fn closed_loop_ends_game() {
    let mut g = game_with(
        vec![pos(0, 0), pos(1, 0), pos(1, 1), pos(0, 1)],
        Direction::Right,
        pos(9, 9),
    );
    g.tick_with_pick(None, 0);
    assert_eq!(g.state, GameState::Ended);
    assert!(detect(&g.snake.body, g.food).self_collision);
    let before = g.snake.body.clone();
    g.tick_with_pick(Some(Direction::Down), 0);
    assert_eq!(g.state, GameState::Ended);
    assert_eq!(g.snake.body, before);
    assert_eq!(g.food, pos(9, 9));
}

#[test]
fn five_long_snake_bites_itself() {
    let mut g = game_with(
        vec![pos(1, 1), pos(2, 1), pos(2, 2), pos(1, 2), pos(0, 2)],
        Direction::Left,
        pos(9, 9),
    );
    g.tick_with_pick(Some(Direction::Down), 0);
    assert_eq!(g.snake.body, vec![pos(1, 2), pos(1, 1), pos(2, 1), pos(2, 2), pos(1, 2)]);
    assert_eq!(g.state, GameState::Ended);
}

#[test]
fn eating_grows_and_moves_food() {
    let mut g = game_with(vec![pos(2, 3), pos(1, 3)], Direction::Right, pos(3, 3));
    g.tick_with_pick(None, 0);
    assert_eq!(g.state, GameState::Running);
    assert_eq!(g.snake.body, vec![pos(3, 3), pos(2, 3), pos(1, 3)]);
    assert_eq!(g.food, pos(0, 0));
    assert!(!occupies(&g.snake.body, g.food));
    assert!(g.grid.in_bounds(g.food));
}

#[test]
fn eating_with_random_food() {
    let mut g = game_with(vec![pos(2, 3), pos(1, 3)], Direction::Right, pos(3, 3));
    g.tick(None);
    assert_eq!(g.snake.body.len(), 3);
    assert_ne!(g.food, pos(3, 3));
    assert!(!occupies(&g.snake.body, g.food));
    assert!(g.grid.in_bounds(g.food));
}

#[test]
fn plain_tick_translates() {
    let mut g = game_with(vec![pos(5, 5), pos(5, 6), pos(5, 7)], Direction::Up, pos(0, 0));
    g.tick_with_pick(Some(Direction::Left), 7);
    assert_eq!(g.snake.body, vec![pos(4, 5), pos(5, 5), pos(5, 6)]);
    assert_eq!(g.food, pos(0, 0));
    assert_eq!(g.state, GameState::Running);
    assert_eq!(g.snake.heading, Direction::Left);
}

#[test]
fn no_reversal_through_several_requests() {
    let mut s = Snake::with_body(vec![pos(1, 0), pos(0, 0)], Direction::Right);
    s.set_direction(Direction::Up);
    assert_eq!(s.dir, Direction::Up);
    s.set_direction(Direction::Left);
    assert_eq!(s.dir, Direction::Up);
    s.set_direction(Direction::Down);
    assert_eq!(s.dir, Direction::Up);
    s.set_direction(Direction::Right);
    assert_eq!(s.dir, Direction::Right);
    s.advance();
    assert_eq!(s.heading, Direction::Right);
    assert_eq!(s.body, vec![pos(2, 0), pos(1, 0)]);
}

#[test]
fn self_collision_matches_distinct_count() {
    let clear = vec![pos(0, 0), pos(1, 0), pos(1, 1)];
    let out = detect(&clear, pos(1, 1));
    assert!(!out.self_collision);
    assert!(out.food_eaten);
    let repeat = vec![pos(0, 0), pos(1, 0), pos(0, 0)];
    let out = detect(&repeat, pos(5, 5));
    assert!(out.self_collision);
    assert!(!out.food_eaten);
    let single = vec![pos(3, 3)];
    assert!(!detect(&single, pos(0, 0)).self_collision);
}

#[test]
fn free_cells_row_major() {
    let grid = Grid::new(2, 2);
    assert_eq!(free_cells(&grid, &vec![pos(0, 0)]), vec![pos(1, 0), pos(0, 1), pos(1, 1)]);
    assert_eq!(free_cells(&grid, &vec![pos(7, 7)]).len(), 4);
    assert_eq!(free_cells(&Grid::new(0, 5), &vec![pos(0, 0)]), vec![]);
}

#[test]
fn place_food_wraps_pick() {
    let grid = Grid::new(2, 2);
    let body = vec![pos(0, 0)];
    assert_eq!(place_food(&grid, &body, 0), Some(pos(1, 0)));
    assert_eq!(place_food(&grid, &body, 2), Some(pos(1, 1)));
    assert_eq!(place_food(&grid, &body, 4), Some(pos(0, 1)));
    let full = vec![pos(0, 0), pos(1, 0), pos(1, 1), pos(0, 1)];
    assert_eq!(place_food(&grid, &full, 3), None);
}

#[test]
fn meal_on_full_board_keeps_food() {
    let mut g = Game {
        grid: Grid::new(2, 2),
        snake: Snake::with_body(vec![pos(1, 0), pos(0, 0), pos(0, 1)], Direction::Down),
        food: pos(1, 1),
        state: GameState::Running,
    };
    g.tick_with_pick(None, 3);
    assert_eq!(g.state, GameState::Running);
    assert_eq!(g.snake.body, vec![pos(1, 1), pos(1, 0), pos(0, 0), pos(0, 1)]);
    assert_eq!(g.food, pos(1, 1));
}

#[test]
fn new_game_places_food_off_the_snake() {
    let g = Game::with_pick(20, 20, 0);
    assert_eq!(g.snake.body, vec![pos(0, 0), pos(0, 1)]);
    assert_eq!(g.food, pos(1, 0));
    assert_eq!(g.state, GameState::Running);
    let g = Game::with_pick(1, 3, 5);
    assert_eq!(g.food, pos(0, 2));
    for _ in 0..50 {
        let g = Game::new(20, 20);
        assert!(g.grid.in_bounds(g.food));
        assert!(!occupies(&g.snake.body, g.food));
    }
}

#[test]
fn draws_spread_over_cells() {
    let grid = Grid::new(20, 20);
    let body = vec![pos(0, 0)];
    let mut seen = Vec::new();
    for _ in 0..40 {
        let p = place_food(&grid, &body, draw_pick()).unwrap();
        if !seen.contains(&p) {
            seen.push(p);
        }
    }
    assert!(seen.len() > 1);
}

#[test]
fn grid_geometry() {
    assert_eq!(CELL_SIZE, 20);
    assert_eq!(cell_count(400, 20), 20);
    assert_eq!(cell_count(419, 20), 20);
    assert_eq!(cell_count(19, 20), 0);
    let g = Grid::from_pixels(400, 300);
    assert_eq!(g, Grid::new(20, 15));
    assert!(g.in_bounds(pos(0, 0)));
    assert!(g.in_bounds(pos(19, 14)));
    assert!(!g.in_bounds(pos(20, 0)));
    assert!(!g.in_bounds(pos(0, 15)));
    assert!(!g.in_bounds(pos(-1, 3)));
}

#[test]
fn steps_and_overflow() {
    assert_eq!(step(pos(3, 3), Direction::Up), Some(pos(3, 2)));
    assert_eq!(step(pos(3, 3), Direction::Down), Some(pos(3, 4)));
    assert_eq!(step(pos(3, 3), Direction::Left), Some(pos(2, 3)));
    assert_eq!(step(pos(3, 3), Direction::Right), Some(pos(4, 3)));
    assert_eq!(step(pos(i32::MAX, 0), Direction::Right), None);
    assert_eq!(step(pos(0, i32::MIN), Direction::Up), None);
    assert_eq!(Direction::Up.opposite(), Direction::Down);
    assert_eq!(Direction::Left.opposite(), Direction::Right);
    let s = Snake::with_body(vec![pos(i32::MAX, 0)], Direction::Right);
    assert!(!s.move_fits());
    let g = game_with(vec![pos(i32::MAX, 0)], Direction::Right, pos(0, 0));
    assert!(!g.tick_fits(None));
    assert!(g.tick_fits(Some(Direction::Up)));
    assert!(!g.tick_fits(Some(Direction::Left)));
}

#[test]
fn grow_keeps_tail() {
    let mut s = Snake::new();
    s.grow();
    assert_eq!(s.body, vec![pos(1, 0), pos(0, 0), pos(0, 1)]);
    let tail = s.advance();
    assert_eq!(tail, pos(0, 1));
    s.restore_tail(tail);
    assert_eq!(s.body, vec![pos(2, 0), pos(1, 0), pos(0, 0), pos(0, 1)]);
    assert_eq!(s.head(), pos(2, 0));
}

#[test]
fn snapshot_copies_state() {
    let g = game_with(vec![pos(4, 4), pos(4, 5)], Direction::Up, pos(7, 1));
    let snap = g.snapshot();
    assert_eq!(snap.body, vec![pos(4, 4), pos(4, 5)]);
    assert_eq!(snap.food, pos(7, 1));
    assert_eq!(snap.state, GameState::Running);
}
