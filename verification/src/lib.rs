//! A terminal snake game's simulation core: the grid buffer, the snake's
//! movement and growth, food placement, key decoding and the fixed-timestep
//! scheduler. Every function carries a contract that Verus proves.

pub mod constants;
pub mod types;
pub mod snake;
pub mod screen;
pub mod input;
pub mod game;
