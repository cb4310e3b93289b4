use std::collections::VecDeque;

use snake_game::constants::{
    FRAME_DURATION_HORIZONTAL, FRAME_DURATION_VERTICAL, SCREEN_CELLS, SCREEN_HEIGHT, SCREEN_WIDTH,
};
use snake_game::input::{process_input, remember_direction, InputEvent, Key, KeyKind};
use snake_game::screen::{
    calculate_index, check_position, clear_screen, find_empty_position, first_empty_position,
    new_screen, render_screen, screen_text,
};
use snake_game::snake::{calculate_next_head_position, is_opposite, steer, tick_duration};
use snake_game::types::{Direction, GameState, Position};

fn filled(cell: u8) -> Vec<u8> {
    let mut buffer = Vec::new();
    for _ in 0..SCREEN_CELLS {
        buffer.push(cell);
    }
    buffer
}

#[test]
fn calculate_index_is_row_major() {
    assert_eq!(calculate_index(0, 0), 0);
    assert_eq!(calculate_index(12, 1), 113);
    assert_eq!(calculate_index(100, 0), 100);
    assert_eq!(calculate_index(0, 1), 101);
    assert_eq!(calculate_index(100, 39), 4039);
}

#[test]
fn new_screen_draws_the_frame() {
    let screen = new_screen();
    assert_eq!(screen.len(), 4040);
    assert_eq!(SCREEN_WIDTH * SCREEN_HEIGHT, SCREEN_CELLS);
    let mut text = String::new();
    text.push_str(&"=".repeat(101));
    for _ in 0..38 {
        text.push('|');
        text.push_str(&" ".repeat(99));
        text.push('|');
    }
    text.push_str(&"=".repeat(101));
    assert_eq!(screen, text.as_bytes().to_vec());
}

#[test]
fn new_screen_is_blank_exactly_in_the_interior() {
    let screen = new_screen();
    for y in 0..SCREEN_HEIGHT {
        for x in 0..SCREEN_WIDTH {
            let interior = (1..=99).contains(&x) && (1..=38).contains(&y);
            assert_eq!(screen[y * SCREEN_WIDTH + x] == b' ', interior);
        }
    }
}

#[test]
fn screen_text_ends_each_row_with_a_line_break() {
    let mut screen = new_screen();
    screen[101 + 12] = b'@';
    let mut expected = String::new();
    expected.push_str(&"=".repeat(101));
    expected.push('\n');
    expected.push('|');
    expected.push_str(&" ".repeat(11));
    expected.push('@');
    expected.push_str(&" ".repeat(87));
    expected.push('|');
    expected.push('\n');
    for _ in 0..37 {
        expected.push('|');
        expected.push_str(&" ".repeat(99));
        expected.push('|');
        expected.push('\n');
    }
    expected.push_str(&"=".repeat(101));
    expected.push('\n');
    let text = screen_text(&screen);
    assert_eq!(text.len(), 4080);
    assert_eq!(text, expected.as_bytes().to_vec());
}

#[test]
fn clear_screen_resets_the_interior_only() {
    let mut buffer = filled(b'x');
    clear_screen(&mut buffer);
    for y in 0..SCREEN_HEIGHT {
        for x in 0..SCREEN_WIDTH {
            let wiped = (1..=99).contains(&x) && (1..=38).contains(&y);
            let expected = if wiped { b' ' } else { b'x' };
            assert_eq!(buffer[y * SCREEN_WIDTH + x], expected);
        }
    }
}

#[test]
fn clear_screen_restores_a_stamped_grid() {
    let mut buffer = new_screen();
    let snake: VecDeque<Position> =
        VecDeque::from(vec![Position { x: 12, y: 1 }, Position { x: 11, y: 1 }]);
    render_screen(&mut buffer, &snake, &Position { x: 60, y: 15 });
    assert_ne!(buffer, new_screen());
    clear_screen(&mut buffer);
    assert_eq!(buffer, new_screen());
}

#[test]
fn clear_screen_blanks_marks_in_the_last_interior_column() {
    for mark in [b'O', b'@', b'%'] {
        let mut buffer = new_screen();
        buffer[calculate_index(99, 1)] = mark;
        buffer[calculate_index(99, 38)] = mark;
        buffer[calculate_index(1, 38)] = mark;
        clear_screen(&mut buffer);
        assert_eq!(buffer[calculate_index(99, 1)], b' ');
        assert_eq!(buffer, new_screen());
    }
}

#[test]
fn clear_screen_leaves_no_mark_of_a_snake_at_the_edge() {
    let mut buffer = new_screen();
    let snake: VecDeque<Position> = VecDeque::from(vec![
        Position { x: 99, y: 1 },
        Position { x: 98, y: 1 },
        Position { x: 98, y: 2 },
    ]);
    render_screen(&mut buffer, &snake, &Position { x: 99, y: 38 });
    assert_eq!(buffer[calculate_index(99, 1)], b'@');
    assert_eq!(buffer[calculate_index(99, 38)], b'%');
    clear_screen(&mut buffer);
    assert_eq!(buffer, new_screen());
}

#[test]
fn render_screen_stamps_body_head_and_food() {
    let mut buffer = new_screen();
    let snake: VecDeque<Position> = VecDeque::from(vec![
        Position { x: 12, y: 1 },
        Position { x: 11, y: 1 },
        Position { x: 10, y: 1 },
    ]);
    render_screen(&mut buffer, &snake, &Position { x: 60, y: 15 });
    let mut expected = new_screen();
    expected[113] = b'@';
    expected[112] = b'O';
    expected[111] = b'O';
    expected[15 * 101 + 60] = b'%';
    assert_eq!(buffer, expected);
}

#[test]
fn render_screen_puts_food_over_head_over_body() {
    let mut buffer = new_screen();
    let snake: VecDeque<Position> = VecDeque::from(vec![
        Position { x: 5, y: 5 },
        Position { x: 6, y: 5 },
        Position { x: 5, y: 5 },
    ]);
    render_screen(&mut buffer, &snake, &Position { x: 6, y: 5 });
    assert_eq!(buffer[5 * 101 + 5], b'@');
    assert_eq!(buffer[5 * 101 + 6], b'%');
    let mut over_head = new_screen();
    let short: VecDeque<Position> = VecDeque::from(vec![Position { x: 5, y: 5 }]);
    render_screen(&mut over_head, &short, &Position { x: 5, y: 5 });
    assert_eq!(over_head[5 * 101 + 5], b'%');
}

#[test]
fn check_position_takes_blank_interior_cells_only() {
    let screen = new_screen();
    assert_eq!(check_position(&screen, 1, 1), Some(Position { x: 1, y: 1 }));
    assert_eq!(check_position(&screen, 98, 38), Some(Position { x: 98, y: 38 }));
    assert_eq!(check_position(&screen, 99, 1), Some(Position { x: 99, y: 1 }));
    assert_eq!(check_position(&screen, 99, 38), Some(Position { x: 99, y: 38 }));
    assert_eq!(check_position(&screen, 0, 1), None);
    assert_eq!(check_position(&screen, 1, 0), None);
    assert_eq!(check_position(&screen, 1, 39), None);
    assert_eq!(check_position(&screen, 100, 1), None);
    assert_eq!(check_position(&screen, 5000, 5000), None);
    let blank = filled(b' ');
    assert_eq!(check_position(&blank, 99, 38), Some(Position { x: 99, y: 38 }));
    assert_eq!(check_position(&blank, 100, 38), None);
    assert_eq!(check_position(&blank, 0, 38), None);
}

#[test]
fn first_empty_position_reads_row_by_row() {
    assert_eq!(first_empty_position(&new_screen()), Some(Position { x: 1, y: 1 }));
    assert_eq!(first_empty_position(&filled(b'#')), None);
    let mut buffer = filled(b'#');
    buffer[3 * 101 + 50] = b' ';
    buffer[4 * 101 + 2] = b' ';
    buffer[3 * 101 + 70] = b' ';
    buffer[0] = b' ';
    buffer[39 * 101 + 5] = b' ';
    assert_eq!(first_empty_position(&buffer), Some(Position { x: 50, y: 3 }));
}

#[test]
fn find_empty_position_finds_the_only_blank_cell() {
    let mut rng = rand::thread_rng();
    let mut buffer = filled(b'#');
    buffer[20 * 101 + 33] = b' ';
    assert_eq!(find_empty_position(&buffer, &mut rng), Some(Position { x: 33, y: 20 }));
}

#[test]
fn find_empty_position_gives_nothing_on_a_full_grid() {
    let mut rng = rand::thread_rng();
    assert_eq!(find_empty_position(&filled(b'#'), &mut rng), None);
    let mut buffer = filled(b'#');
    buffer[0] = b' ';
    buffer[100] = b' ';
    buffer[39 * 101 + 7] = b' ';
    assert_eq!(find_empty_position(&buffer, &mut rng), None);
}

#[test]
fn find_empty_position_draws_blank_interior_cells_at_random() {
    let mut rng = rand::thread_rng();
    let screen = new_screen();
    let mut seen_other_column = false;
    let mut seen_other_row = false;
    for _ in 0..200 {
        let place = find_empty_position(&screen, &mut rng).unwrap();
        assert!(1 <= place.x && place.x <= 99);
        assert!(1 <= place.y && place.y <= 38);
        assert_eq!(screen[place.y * 101 + place.x], b' ');
        seen_other_column = seen_other_column || place.x != 1;
        seen_other_row = seen_other_row || place.y != 1;
    }
    assert!(seen_other_column);
    assert!(seen_other_row);
}

#[test]
fn next_head_position_steps_one_cell() {
    let head = Position { x: 12, y: 5 };
    assert_eq!(
        calculate_next_head_position(&head, &Direction::UP),
        Ok(Position { x: 12, y: 4 })
    );
    assert_eq!(
        calculate_next_head_position(&head, &Direction::DOWN),
        Ok(Position { x: 12, y: 6 })
    );
    assert_eq!(
        calculate_next_head_position(&head, &Direction::LEFT),
        Ok(Position { x: 11, y: 5 })
    );
    assert_eq!(
        calculate_next_head_position(&head, &Direction::RIGHT),
        Ok(Position { x: 13, y: 5 })
    );
}

#[test]
fn next_head_position_stops_at_the_frame() {
    let paused = Err(GameState::PAUSED);
    assert_eq!(calculate_next_head_position(&Position { x: 1, y: 1 }, &Direction::LEFT), paused);
    assert_eq!(calculate_next_head_position(&Position { x: 1, y: 1 }, &Direction::UP), paused);
    assert_eq!(calculate_next_head_position(&Position { x: 99, y: 38 }, &Direction::RIGHT), paused);
    assert_eq!(calculate_next_head_position(&Position { x: 99, y: 38 }, &Direction::DOWN), paused);
    assert_eq!(
        calculate_next_head_position(&Position { x: 98, y: 37 }, &Direction::RIGHT),
        Ok(Position { x: 99, y: 37 })
    );
    assert_eq!(
        calculate_next_head_position(&Position { x: 98, y: 37 }, &Direction::DOWN),
        Ok(Position { x: 98, y: 38 })
    );
}

#[test]
fn next_head_position_handles_cells_off_the_interior() {
    let paused = Err(GameState::PAUSED);
    assert_eq!(calculate_next_head_position(&Position { x: 0, y: 0 }, &Direction::LEFT), paused);
    assert_eq!(calculate_next_head_position(&Position { x: 0, y: 0 }, &Direction::UP), paused);
    assert_eq!(
        calculate_next_head_position(&Position { x: usize::MAX, y: 5 }, &Direction::RIGHT),
        paused
    );
    assert_eq!(
        calculate_next_head_position(&Position { x: 5, y: usize::MAX }, &Direction::DOWN),
        paused
    );
    assert_eq!(
        calculate_next_head_position(&Position { x: 0, y: 5 }, &Direction::RIGHT),
        Ok(Position { x: 1, y: 5 })
    );
    assert_eq!(
        calculate_next_head_position(&Position { x: 100, y: 5 }, &Direction::LEFT),
        Ok(Position { x: 99, y: 5 })
    );
    assert_eq!(calculate_next_head_position(&Position { x: 200, y: 5 }, &Direction::LEFT), paused);
    assert_eq!(calculate_next_head_position(&Position { x: 0, y: 5 }, &Direction::UP), paused);
}

#[test]
fn opposite_directions_are_up_down_and_left_right() {
    let all = [Direction::UP, Direction::RIGHT, Direction::DOWN, Direction::LEFT];
    for a in all {
        for b in all {
            let expected = matches!(
                (a, b),
                (Direction::UP, Direction::DOWN)
                    | (Direction::DOWN, Direction::UP)
                    | (Direction::LEFT, Direction::RIGHT)
                    | (Direction::RIGHT, Direction::LEFT)
            );
            assert_eq!(is_opposite(a, b), expected);
            assert_eq!(steer(a, b), if expected { a } else { b });
        }
    }
}

#[test]
fn tick_duration_depends_on_the_axis() {
    assert_eq!(FRAME_DURATION_HORIZONTAL, 100_000_000);
    assert_eq!(FRAME_DURATION_VERTICAL, 150_000_000);
    assert_eq!(tick_duration(Direction::LEFT), 100_000_000);
    assert_eq!(tick_duration(Direction::RIGHT), 100_000_000);
    assert_eq!(tick_duration(Direction::UP), 150_000_000);
    assert_eq!(tick_duration(Direction::DOWN), 150_000_000);
}

fn press(code: Key) -> InputEvent {
    InputEvent::Key { code, kind: KeyKind::Press }
}

#[test]
fn process_input_decodes_arrows_and_commands() {
    let current = Direction::LEFT;
    assert_eq!(process_input(current, press(Key::Up)), Ok(Direction::UP));
    assert_eq!(process_input(current, press(Key::Down)), Ok(Direction::DOWN));
    assert_eq!(process_input(current, press(Key::Left)), Ok(Direction::LEFT));
    assert_eq!(process_input(current, press(Key::Right)), Ok(Direction::RIGHT));
    assert_eq!(process_input(current, press(Key::Char('q'))), Err(GameState::OVER));
    assert_eq!(process_input(current, press(Key::Char('p'))), Err(GameState::PAUSED));
    assert_eq!(process_input(current, press(Key::Char('s'))), Err(GameState::ACTIVE));
}

#[test]
fn process_input_repeats_the_direction_otherwise() {
    for current in [Direction::UP, Direction::RIGHT, Direction::DOWN, Direction::LEFT] {
        assert_eq!(process_input(current, press(Key::Char('x'))), Ok(current));
        assert_eq!(process_input(current, press(Key::Char('Q'))), Ok(current));
        assert_eq!(process_input(current, press(Key::Other)), Ok(current));
        assert_eq!(process_input(current, InputEvent::Other), Ok(current));
        for kind in [KeyKind::Repeat, KeyKind::Release] {
            let up = InputEvent::Key { code: Key::Up, kind };
            assert_eq!(process_input(current, up), Ok(current));
            let quit = InputEvent::Key { code: Key::Char('q'), kind };
            assert_eq!(process_input(current, quit), Ok(current));
        }
    }
}

#[test]
fn remember_direction_follows_requests_and_ignores_signals() {
    assert_eq!(remember_direction(Direction::RIGHT, Ok(Direction::UP)), Direction::UP);
    assert_eq!(remember_direction(Direction::UP, Ok(Direction::DOWN)), Direction::DOWN);
    assert_eq!(remember_direction(Direction::UP, Err(GameState::PAUSED)), Direction::UP);
    assert_eq!(remember_direction(Direction::LEFT, Err(GameState::ACTIVE)), Direction::LEFT);
    assert_eq!(remember_direction(Direction::LEFT, Err(GameState::OVER)), Direction::LEFT);
}
