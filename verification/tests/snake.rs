use snake_rl::snake::{Coord, Direction, GameState, Snake, TickResult};

#[test]
fn new_snake_starts_in_the_middle() {
    let snake = Snake::new(10, 10);

    assert_eq!(snake.width, 10);
    assert_eq!(snake.height, 10);
    assert_eq!(snake.state, GameState::Running);
    assert_eq!(snake.last_direction, Direction::Down);

    assert_eq!(snake.snake_path.size, 3);
    assert_eq!(snake.snake_path.buffer.len(), 3);
    assert!(snake.snake_path.contains(&Coord { x: 5, y: 4 }));
    assert!(snake.snake_path.contains(&Coord { x: 5, y: 5 }));
    assert!(snake.snake_path.contains(&Coord { x: 5, y: 6 }));
    assert_eq!(snake.snake_path.first(), Some(&Coord { x: 5, y: 6 }));
}

#[test]
fn new_snake_apple_lands_on_a_free_grid_cell() {
    for _ in 0..50 {
        let snake = Snake::new(10, 10);

        assert!(snake.apple.x < 10);
        assert!(snake.apple.y < 10);
        assert!(!snake.snake_path.contains(&snake.apple));
    }
}

#[test]
fn tick_moves_the_head_and_drops_the_tail() {
    let mut snake = Snake::new(10, 10);
    snake.apple = Coord { x: 9, y: 9 };

    let result = snake.tick(Direction::Down);

    assert_eq!(result, TickResult::Moved);
    assert_eq!(snake.state, GameState::Running);
    assert_eq!(snake.last_direction, Direction::Down);
    assert_eq!(snake.snake_path.size, 3);
    assert_eq!(snake.snake_path.first(), Some(&Coord { x: 5, y: 7 }));
    assert!(!snake.snake_path.contains(&Coord { x: 5, y: 4 }));
}

#[test]
fn tick_against_the_left_wall_ends_the_game() {
    let mut snake = Snake::new(10, 10);
    snake.apple = Coord { x: 9, y: 9 };

    for _ in 0..5 {
        assert_eq!(snake.tick(Direction::Left), TickResult::Moved);
    }

    assert_eq!(snake.tick(Direction::Left), TickResult::GameOver);
    assert_eq!(snake.state, GameState::GameOver);
}

#[test]
fn tick_off_the_bottom_edge_ends_the_game() {
    let mut snake = Snake::new(10, 10);
    snake.apple = Coord { x: 9, y: 9 };

    for _ in 0..3 {
        assert_eq!(snake.tick(Direction::Down), TickResult::Moved);
    }

    assert_eq!(snake.tick(Direction::Down), TickResult::GameOver);
    assert_eq!(snake.state, GameState::GameOver);
}

#[test]
fn eating_the_apple_grows_the_snake_by_three() {
    let mut snake = Snake::new(10, 10);
    snake.apple = Coord { x: 5, y: 7 };

    let result = snake.tick(Direction::Down);

    assert_eq!(result, TickResult::Apple);
    assert_eq!(snake.state, GameState::Running);
    assert_eq!(snake.snake_path.size, 6);
    assert_eq!(snake.snake_path.buffer.len(), 6);
    assert_eq!(snake.snake_path.first(), Some(&Coord { x: 5, y: 7 }));

    assert!(snake.apple.x < 10);
    assert!(snake.apple.y < 10);
}

#[test]
fn running_into_the_body_ends_the_game() {
    let mut snake = Snake::new(10, 10);
    snake.apple = Coord { x: 5, y: 7 };

    assert_eq!(snake.tick(Direction::Down), TickResult::Apple);

    // The cell just left is still part of the grown body.
    assert_eq!(snake.tick(Direction::Up), TickResult::GameOver);
    assert_eq!(snake.state, GameState::GameOver);
}

#[test]
fn to_vec_flags_body_apple_and_head() {
    let mut snake = Snake::new(10, 10);
    snake.apple = Coord { x: 0, y: 0 };

    let v = snake.to_vec();

    assert_eq!(v.len(), 300);

    // The apple cell, first in row-major order.
    assert_eq!(v[0], 0);
    assert_eq!(v[1], 1);
    assert_eq!(v[2], 0);

    // The head at (5, 6): body flag and head flag.
    let head_base = 3 * (6 * 10 + 5);
    assert_eq!(v[head_base], 1);
    assert_eq!(v[head_base + 1], 0);
    assert_eq!(v[head_base + 2], 1);

    // A mid-body segment at (5, 4): body flag only.
    let body_base = 3 * (4 * 10 + 5);
    assert_eq!(v[body_base], 1);
    assert_eq!(v[body_base + 1], 0);
    assert_eq!(v[body_base + 2], 0);

    // An empty cell.
    let empty_base = 3 * (9 * 10 + 9);
    assert_eq!(v[empty_base], 0);
    assert_eq!(v[empty_base + 1], 0);
    assert_eq!(v[empty_base + 2], 0);

    let total: u32 = v.iter().map(|b| *b as u32).sum();
    // Three body flags, one apple flag, one head flag.
    assert_eq!(total, 5);
}
