//! Decoding of keyboard events into direction requests and control signals.

use vstd::prelude::*;
use crate::types::{Direction, GameState};

verus! {

/// A key, as far as the game tells keys apart.
#[derive(Debug, Clone, Copy, PartialEq, Eq)]
pub enum Key {
    Up,
    Down,
    Left,
    Right,
    Char(char),
    Other,
}

/// What happened to a key.
#[derive(Debug, Clone, Copy, PartialEq, Eq)]
pub enum KeyKind {
    Press,
    Repeat,
    Release,
}

/// An event of the input device: a key event, or anything else.
#[derive(Debug, Clone, Copy, PartialEq, Eq)]
pub enum InputEvent {
    Key { code: Key, kind: KeyKind },
    Other,
}

/// What an event means to the game. A pressed arrow key asks for its
/// direction; `q` quits, `p` pauses and `s` resumes, each as the state it
/// asks for. Every other event repeats the direction known so far.
pub open spec fn decoded(snake_direction: Direction, event: InputEvent) -> Result<
    Direction,
    GameState,
> {
    match event {
        InputEvent::Key { code, kind: KeyKind::Press } => match code {
            Key::Up => Ok(Direction::UP),
            Key::Down => Ok(Direction::DOWN),
            Key::Left => Ok(Direction::LEFT),
            Key::Right => Ok(Direction::RIGHT),
            Key::Char(c) => if c == 'q' {
                Err(GameState::OVER)
            } else if c == 'p' {
                Err(GameState::PAUSED)
            } else if c == 's' {
                Err(GameState::ACTIVE)
            } else {
                Ok(snake_direction)
            },
            Key::Other => Ok(snake_direction),
        },
        _ => Ok(snake_direction),
    }
}

/// Decodes one event of the input device. Reading the event is left to the
/// caller.
pub fn process_input(snake_direction: Direction, event: InputEvent) -> (r: Result<
    Direction,
    GameState,
>)
    ensures
        r == decoded(snake_direction, event),
{
    match event {
        InputEvent::Key { code, kind } => {
            if !matches!(kind, KeyKind::Press) {
                return Ok(snake_direction);
            }
            match code {
                Key::Up => Ok(Direction::UP),
                Key::Down => Ok(Direction::DOWN),
                Key::Left => Ok(Direction::LEFT),
                Key::Right => Ok(Direction::RIGHT),
                Key::Char(c) => {
                    if c == 'q' {
                        Err(GameState::OVER)
                    } else if c == 'p' {
                        Err(GameState::PAUSED)
                    } else if c == 's' {
                        Err(GameState::ACTIVE)
                    } else {
                        Ok(snake_direction)
                    }
                },
                Key::Other => Ok(snake_direction),
            }
        },
        InputEvent::Other => Ok(snake_direction),
    }
}

/// The direction that the input task knows once it has decoded a message:
/// the direction asked for, or the one known before where the message is a
/// control signal.
pub open spec fn known_after(known: Direction, message: Result<Direction, GameState>) -> Direction {
    match message {
        Ok(requested) => requested,
        Err(_) => known,
    }
}

/// Keeps the last known direction up to date for the input task, so that the
/// next event that means nothing repeats it.
pub fn remember_direction(known: Direction, message: Result<Direction, GameState>) -> (r:
    Direction)
    ensures
        r == known_after(known, message),
{
    match message {
        Ok(requested) => requested,
        Err(_) => known,
    }
}

} // verus!
