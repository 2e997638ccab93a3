use bracket_lib::prelude::VirtualKeyCode;
use snake::apple::Apple;
use snake::board::{Board, Position, Turn, SCREEN_HEIGHT, SCREEN_WIDTH};
use snake::screen_representation::ScreenRepresentation;
use snake::snake::{Direction, SnakeNode};

fn node(x: i32, y: i32, facing: Direction) -> SnakeNode {
    let mut node = SnakeNode::new(x, y);
    node.change_facing(facing);
    node
}

fn cell(representation: &ScreenRepresentation) -> (i32, i32) {
    (representation.get_x_position(), representation.get_y_position())
}

#[test]
fn new_board_is_the_opening_position() {
    let mut board = Board::new();
    assert_eq!(board.get_score(), 0);
    assert_eq!((board.snake_head.x_position, board.snake_head.y_position), (10, 10));
    assert_eq!(board.snake_head.facing, Direction::Down);
    assert!(board.snake_tail.is_empty());
    assert!(!board.should_add_to_tail);
    assert_eq!((board.apple.x_position, board.apple.y_position), (20, 20));
    assert!(board.turns.is_empty());
}

#[test]
fn eating_then_growing_scenario() {
    let mut board = Board::new();
    board.snake_head = SnakeNode::new(3, 3);
    board.apple = Apple::new(3, 4);

    board.tick_with_apple(Direction::Down, Apple::new(11, 12));
    assert_eq!((board.snake_head.x_position, board.snake_head.y_position), (3, 4));
    assert_eq!(board.score, 1);
    assert_eq!((board.apple.x_position, board.apple.y_position), (11, 12));
    assert!(board.should_add_to_tail);
    assert_eq!(board.snake_tail.len(), 0);

    board.tick_with_apple(Direction::Down, Apple::new(1, 1));
    assert_eq!(board.snake_tail.len(), 1);
    assert_eq!((board.snake_tail[0].x_position, board.snake_tail[0].y_position), (3, 4));
    assert_eq!(board.snake_tail[0].facing, Direction::Down);
    assert_eq!((board.snake_head.x_position, board.snake_head.y_position), (3, 5));
    assert!(!board.should_add_to_tail);
    assert_eq!(board.score, 1);
    assert_eq!((board.apple.x_position, board.apple.y_position), (11, 12));
}

#[test]
fn turning_head_records_the_turn_and_a_segment_adopts_it_there() {
    let mut board = Board::new();
    board.snake_head = node(3, 3, Direction::Up);
    board.snake_tail = vec![node(3, 5, Direction::Up)];

    board.tick_with_apple(Direction::Left, Apple::new(1, 1));
    assert_eq!(board.snake_head.facing, Direction::Left);
    assert_eq!((board.snake_head.x_position, board.snake_head.y_position), (2, 3));
    assert_eq!(board.turns.len(), 1);
    assert_eq!(
        (board.turns[0].x_position, board.turns[0].y_position, board.turns[0].direction),
        (3, 3, Direction::Left)
    );
    assert_eq!((board.snake_tail[0].x_position, board.snake_tail[0].y_position), (3, 4));

    board.tick_with_apple(Direction::Left, Apple::new(1, 1));
    assert_eq!((board.snake_tail[0].x_position, board.snake_tail[0].y_position), (3, 3));
    assert_eq!(board.snake_tail[0].facing, Direction::Up);

    board.tick_with_apple(Direction::Left, Apple::new(1, 1));
    assert_eq!(board.snake_tail[0].facing, Direction::Left);
    assert_eq!((board.snake_tail[0].x_position, board.snake_tail[0].y_position), (2, 3));
    assert_eq!(board.turns.len(), 1);
}

#[test]
fn segment_on_a_turn_cell_moves_along_the_new_facing() {
    let mut board = Board::new();
    board.snake_head = SnakeNode::new(8, 8);
    board.snake_tail = vec![node(3, 3, Direction::Down)];
    board.turns = vec![Turn::new(3, 3, Direction::Left)];

    board.tick_with_apple(Direction::Down, Apple::new(1, 1));

    assert_eq!(board.snake_tail[0].facing, Direction::Left);
    assert_eq!((board.snake_tail[0].x_position, board.snake_tail[0].y_position), (2, 3));
}

#[test]
fn latest_turn_at_a_cell_wins() {
    let mut board = Board::new();
    board.snake_head = SnakeNode::new(8, 8);
    board.snake_tail = vec![node(3, 3, Direction::Down)];
    board.turns = vec![
        Turn::new(3, 3, Direction::Left),
        Turn::new(4, 4, Direction::Right),
        Turn::new(3, 3, Direction::Up),
        Turn::new(0, 0, Direction::Down),
    ];

    board.tick_with_apple(Direction::Down, Apple::new(1, 1));

    assert_eq!(board.snake_tail[0].facing, Direction::Up);
    assert_eq!((board.snake_tail[0].x_position, board.snake_tail[0].y_position), (3, 2));
}

#[test]
fn turn_made_this_tick_is_seen_by_a_segment_on_the_heads_cell() {
    let mut board = Board::new();
    board.snake_head = node(3, 3, Direction::Down);
    board.snake_tail = vec![node(3, 3, Direction::Right)];
    board.turns = vec![Turn::new(3, 3, Direction::Up)];

    board.tick_with_apple(Direction::Left, Apple::new(1, 1));

    assert_eq!(board.snake_tail[0].facing, Direction::Left);
    assert_eq!((board.snake_tail[0].x_position, board.snake_tail[0].y_position), (2, 3));
}

#[test]
fn segment_that_meets_no_turn_keeps_its_facing() {
    let mut board = Board::new();
    board.snake_head = node(30, 30, Direction::Down);
    board.apple = Apple::new(70, 45);
    board.snake_tail = vec![node(0, 0, Direction::Right)];
    board.turns = vec![Turn::new(5, 5, Direction::Up), Turn::new(3, 1, Direction::Down)];

    let directions = [
        Direction::Down,
        Direction::Left,
        Direction::Left,
        Direction::Up,
        Direction::Right,
        Direction::Right,
        Direction::Down,
        Direction::Down,
        Direction::Left,
        Direction::Up,
    ];
    for direction in directions {
        board.tick_with_apple(direction, Apple::new(1, 1));
    }

    assert_eq!(board.snake_tail[0].facing, Direction::Right);
    assert_eq!((board.snake_tail[0].x_position, board.snake_tail[0].y_position), (10, 0));
}

#[test]
fn growth_tick_moves_no_segment() {
    let mut board = Board::new();
    board.snake_head = SnakeNode::new(3, 3);
    board.apple = Apple::new(3, 4);
    board.snake_tail = vec![node(3, 2, Direction::Down), node(3, 1, Direction::Down)];

    board.tick_with_apple(Direction::Down, Apple::new(9, 9));
    assert_eq!((board.snake_tail[0].x_position, board.snake_tail[0].y_position), (3, 3));
    assert_eq!((board.snake_tail[1].x_position, board.snake_tail[1].y_position), (3, 2));
    assert!(board.should_add_to_tail);

    board.tick_with_apple(Direction::Right, Apple::new(9, 9));
    assert_eq!(board.snake_tail.len(), 3);
    assert_eq!((board.snake_tail[0].x_position, board.snake_tail[0].y_position), (3, 3));
    assert_eq!((board.snake_tail[1].x_position, board.snake_tail[1].y_position), (3, 2));
    assert_eq!((board.snake_tail[2].x_position, board.snake_tail[2].y_position), (3, 4));
    assert_eq!((board.snake_head.x_position, board.snake_head.y_position), (4, 4));

    // The appended segment stands where the head turned, and follows it.
    board.tick_with_apple(Direction::Right, Apple::new(9, 9));
    assert_eq!(board.snake_tail[2].facing, Direction::Right);
    assert_eq!((board.snake_tail[2].x_position, board.snake_tail[2].y_position), (4, 4));
    assert_eq!((board.snake_tail[0].x_position, board.snake_tail[0].y_position), (3, 4));
}

#[test]
fn score_rises_by_one_exactly_on_eating_ticks() {
    let mut board = Board::new();
    board.snake_head = SnakeNode::new(3, 3);
    board.apple = Apple::new(3, 5);

    board.tick_with_apple(Direction::Down, Apple::new(4, 5));
    assert_eq!(board.score, 0);
    assert_eq!((board.apple.x_position, board.apple.y_position), (3, 5));
    board.tick_with_apple(Direction::Down, Apple::new(4, 5));
    assert_eq!(board.score, 1);
    assert_eq!((board.apple.x_position, board.apple.y_position), (4, 5));
    board.tick_with_apple(Direction::Right, Apple::new(6, 6));
    assert_eq!(board.score, 2);
    assert_eq!((board.apple.x_position, board.apple.y_position), (6, 6));
    board.tick_with_apple(Direction::Right, Apple::new(7, 7));
    assert_eq!(board.score, 2);
    assert_eq!((board.apple.x_position, board.apple.y_position), (6, 6));
}

#[test]
fn eaten_item_respawns_inside_the_grid_away_from_row_and_column_zero() {
    for _ in 0..200 {
        let mut board = Board::new();
        board.snake_head = SnakeNode::new(3, 3);
        board.apple = Apple::new(3, 4);
        board.score = 41;

        board.tick(Direction::Down);

        assert_eq!(board.score, 42);
        assert!(board.should_add_to_tail);
        assert!(1 <= board.apple.x_position && board.apple.x_position < SCREEN_WIDTH);
        assert!(1 <= board.apple.y_position && board.apple.y_position < SCREEN_HEIGHT);
    }
}

#[test]
fn tick_without_eating_keeps_the_item() {
    let mut board = Board::new();
    board.tick(Direction::Down);
    assert_eq!((board.apple.x_position, board.apple.y_position), (20, 20));
    assert_eq!(board.score, 0);
    assert!(!board.should_add_to_tail);
    assert_eq!((board.snake_head.x_position, board.snake_head.y_position), (10, 11));
}

#[test]
fn generate_random_apple_changes_only_the_item() {
    let mut board = Board::new();
    board.score = 5;
    board.snake_tail = vec![SnakeNode::new(1, 2)];
    for _ in 0..100 {
        board.generate_random_apple();
        assert!(1 <= board.apple.x_position && board.apple.x_position < 80);
        assert!(1 <= board.apple.y_position && board.apple.y_position < 50);
    }
    assert_eq!(board.score, 5);
    assert_eq!(board.snake_tail.len(), 1);
    assert_eq!((board.snake_head.x_position, board.snake_head.y_position), (10, 10));
    assert!(board.turns.is_empty());
}

#[test]
fn grid_is_eighty_by_fifty() {
    assert_eq!(SCREEN_WIDTH, 80);
    assert_eq!(SCREEN_HEIGHT, 50);
}

#[test]
fn renderables_of_a_bare_head_are_item_then_head() {
    let mut board = Board::new();
    let representations = board.get_screen_representations();
    assert_eq!(representations.len(), 2);
    assert_eq!(cell(&representations[0]), (20, 20));
    assert_eq!(representations[0].get_glyph(), 30);
    assert_eq!(representations[0].get_color(), (255, 0, 0));
    assert_eq!(cell(&representations[1]), (10, 10));
    assert_eq!(representations[1].get_glyph(), 64);
    assert_eq!(representations[1].get_color(), (0, 255, 0));
}

#[test]
fn renderables_keep_the_order_of_the_body() {
    let mut board = Board::new();
    board.apple = Apple::new(1, 1);
    board.snake_head = SnakeNode::new(9, 9);
    board.snake_tail = vec![SnakeNode::new(9, 8), SnakeNode::new(9, 7), SnakeNode::new(8, 7)];

    let representations = board.get_screen_representations();
    let cells: Vec<(i32, i32)> = representations.iter().map(cell).collect();
    assert_eq!(cells, vec![(1, 1), (9, 8), (9, 7), (8, 7), (9, 9)]);
    assert_eq!(board.snake_tail.len(), 3);

    let from_tail = board.get_screen_representations_from_tail();
    let tail_cells: Vec<(i32, i32)> = from_tail.iter().map(cell).collect();
    assert_eq!(tail_cells, vec![(9, 8), (9, 7), (8, 7)]);
    assert!(from_tail.iter().all(|r| r.get_glyph() == 64 && r.get_color() == (0, 255, 0)));
}

#[test]
fn find_turn_gives_the_latest_record_of_the_cell() {
    let turns = vec![
        Turn::new(3, 3, Direction::Left),
        Turn::new(3, 3, Direction::Up),
        Turn::new(4, 3, Direction::Right),
    ];
    assert_eq!(Board::find_turn(&turns, &SnakeNode::new(3, 3)), Some(Direction::Up));
    assert_eq!(Board::find_turn(&turns, &Apple::new(4, 3)), Some(Direction::Right));
    assert_eq!(Board::find_turn(&turns, &SnakeNode::new(3, 4)), None);
    assert_eq!(Board::find_turn(&Vec::new(), &SnakeNode::new(3, 3)), None);
}

#[test]
fn add_turn_records_head_cell_and_facing() {
    let mut board = Board::new();
    board.snake_head = node(6, 7, Direction::Right);
    board.add_turn_at_player_position_with_player_facing();
    assert_eq!(board.turns.len(), 1);
    assert_eq!(
        (board.turns[0].x_position, board.turns[0].y_position, board.turns[0].direction),
        (6, 7, Direction::Right)
    );
    assert_eq!((board.snake_head.x_position, board.snake_head.y_position), (6, 7));
}

#[test]
fn are_at_same_position_compares_both_coordinates() {
    assert!(Board::are_at_same_position(&SnakeNode::new(2, 3), &Apple::new(2, 3)));
    assert!(!Board::are_at_same_position(&SnakeNode::new(2, 3), &Apple::new(3, 2)));
    assert!(!Board::are_at_same_position(&SnakeNode::new(2, 3), &Turn::new(2, 4, Direction::Up)));
}

#[test]
fn move_snake_does_not_score() {
    let mut board = Board::new();
    board.snake_head = SnakeNode::new(3, 3);
    board.apple = Apple::new(3, 4);
    board.move_snake(Direction::Down);
    assert_eq!((board.snake_head.x_position, board.snake_head.y_position), (3, 4));
    assert_eq!(board.score, 0);
    assert!(!board.should_add_to_tail);
}

#[test]
fn can_tick_refuses_steps_beyond_i32() {
    let mut board = Board::new();
    assert!(board.can_tick(Direction::Left));

    board.snake_head = SnakeNode::new(i32::MAX, 0);
    assert!(!board.can_tick(Direction::Right));
    assert!(board.can_tick(Direction::Left));
    assert!(board.can_tick(Direction::Down));

    board.snake_head = SnakeNode::new(3, 3);
    board.apple = Apple::new(3, 4);
    board.score = i32::MAX;
    assert!(!board.can_tick(Direction::Down));
    assert!(board.can_tick(Direction::Up));

    board.score = 0;
    board.snake_tail = vec![node(0, i32::MIN, Direction::Up)];
    assert!(!board.can_tick(Direction::Down));
    board.turns = vec![Turn::new(0, i32::MIN, Direction::Right)];
    assert!(board.can_tick(Direction::Down));
    board.turns = Vec::new();
    board.should_add_to_tail = true;
    assert!(board.can_tick(Direction::Down));

    board.should_add_to_tail = false;
    board.snake_head = node(0, i32::MIN, Direction::Right);
    board.snake_tail = vec![node(0, i32::MIN, Direction::Right)];
    assert!(!board.can_tick(Direction::Up));
    assert!(board.can_tick(Direction::Down));
    assert!(board.can_tick(Direction::Right));
}

#[test]
fn intended_direction_falls_back_to_the_heads_facing() {
    let mut board = Board::new();
    assert_eq!(board.intended_direction(None), Direction::Down);
    assert_eq!(board.intended_direction(Some(Direction::Left)), Direction::Left);
    assert_eq!(
        board.intended_direction(Direction::from_key_code(Some(VirtualKeyCode::P))),
        Direction::Down
    );
    board.snake_head.change_facing(Direction::Up);
    assert_eq!(board.intended_direction(None), Direction::Up);
    assert_eq!(
        board.intended_direction(Direction::from_key_code(Some(VirtualKeyCode::Right))),
        Direction::Right
    );
}
