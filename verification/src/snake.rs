//! Movement of the snake: the next head cell, the reversal guard and the
//! tick duration that belongs to a heading.

use vstd::prelude::*;
use crate::constants::{
    FRAME_DURATION_HORIZONTAL, FRAME_DURATION_VERTICAL, SCREEN_HEIGHT, SCREEN_WIDTH,
};
use crate::types::{Direction, GameState, Position};

verus! {

/// The playable interior: every cell but the one-cell frame around the grid.
pub open spec fn in_interior(x: int, y: int) -> bool {
    1 <= x <= SCREEN_WIDTH - 2 && 1 <= y <= SCREEN_HEIGHT - 2
}

/// The column one step from `head` in `direction`; it may lie off the grid.
pub open spec fn next_x(head: Position, direction: Direction) -> int {
    match direction {
        Direction::LEFT => head.x - 1,
        Direction::RIGHT => head.x + 1,
        _ => head.x as int,
    }
}

/// The row one step from `head` in `direction`; it may lie off the grid.
pub open spec fn next_y(head: Position, direction: Direction) -> int {
    match direction {
        Direction::UP => head.y - 1,
        Direction::DOWN => head.y + 1,
        _ => head.y as int,
    }
}

/// Whether one step from `head` in `direction` leaves the playable interior.
pub open spec fn hits_wall(head: Position, direction: Direction) -> bool {
    !in_interior(next_x(head, direction), next_y(head, direction))
}

/// The cell one step from `head` in `direction`, or the state that a
/// collision with the wall puts the game in.
pub fn calculate_next_head_position(head: &Position, direction: &Direction) -> (r: Result<
    Position,
    GameState,
>)
    ensures
        hits_wall(*head, *direction) <==> r.is_err(),
        r.is_err() ==> r == Err::<Position, GameState>(GameState::PAUSED),
        r.is_ok() ==> r.unwrap().x == next_x(*head, *direction) && r.unwrap().y == next_y(
            *head,
            *direction,
        ),
{
    let inside_now: bool = head.x <= SCREEN_WIDTH - 1 && head.y <= SCREEN_HEIGHT - 1;
    if !inside_now || (head.x == 0 && matches!(direction, Direction::LEFT)) || (head.y == 0
        && matches!(direction, Direction::UP)) {
        return Err(GameState::PAUSED);
    }
    let next_position = match direction {
        Direction::UP => Position { x: head.x, y: head.y - 1 },
        Direction::DOWN => Position { x: head.x, y: head.y + 1 },
        Direction::LEFT => Position { x: head.x - 1, y: head.y },
        Direction::RIGHT => Position { x: head.x + 1, y: head.y },
    };
    if next_position.x < 1 || next_position.x >= SCREEN_WIDTH - 1 || next_position.y < 1
        || next_position.y >= SCREEN_HEIGHT - 1 {
        Err(GameState::PAUSED)
    } else {
        Ok(next_position)
    }
}

/// Whether `a` and `b` point against each other.
pub open spec fn opposite(a: Direction, b: Direction) -> bool {
    match (a, b) {
        (Direction::UP, Direction::DOWN) => true,
        (Direction::DOWN, Direction::UP) => true,
        (Direction::LEFT, Direction::RIGHT) => true,
        (Direction::RIGHT, Direction::LEFT) => true,
        _ => false,
    }
}

/// The heading after the player asks for `requested`: the request, unless it
/// would turn the snake back onto its own neck.
pub open spec fn steered(heading: Direction, requested: Direction) -> Direction {
    if opposite(heading, requested) {
        heading
    } else {
        requested
    }
}

/// Tells whether `a` and `b` point against each other.
pub fn is_opposite(a: Direction, b: Direction) -> (r: bool)
    ensures
        r == opposite(a, b),
{
    match (a, b) {
        (Direction::UP, Direction::DOWN) => true,
        (Direction::DOWN, Direction::UP) => true,
        (Direction::LEFT, Direction::RIGHT) => true,
        (Direction::RIGHT, Direction::LEFT) => true,
        _ => false,
    }
}

/// Applies a direction request to the heading. A reversal is dropped without
/// a word; any other request becomes the heading.
pub fn steer(heading: Direction, requested: Direction) -> (r: Direction)
    ensures
        r == steered(heading, requested),
{
    if is_opposite(heading, requested) {
        heading
    } else {
        requested
    }
}

/// Nanoseconds per tick for a heading.
pub open spec fn tick_duration_of(heading: Direction) -> u64 {
    match heading {
        Direction::UP | Direction::DOWN => FRAME_DURATION_VERTICAL,
        _ => FRAME_DURATION_HORIZONTAL,
    }
}

/// The tick duration that belongs to `heading`: the vertical one for `UP` and
/// `DOWN`, the horizontal one for `LEFT` and `RIGHT`.
pub fn tick_duration(heading: Direction) -> (r: u64)
    ensures
        r == tick_duration_of(heading),
        r > 0,
{
    match heading {
        Direction::UP | Direction::DOWN => FRAME_DURATION_VERTICAL,
        _ => FRAME_DURATION_HORIZONTAL,
    }
}

} // verus!
