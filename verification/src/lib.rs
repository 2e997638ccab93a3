//! Turn-following movement engine for a grid snake game.
//!
//! The head is steered once per tick; every turn it makes is recorded at the
//! cell where it was made, and each body segment adopts the turn recorded at
//! the cell it stands on before it advances. The body therefore replays the
//! head's path without storing it.
pub mod apple;
pub mod board;
pub mod bracket;
pub mod controller;
pub mod laws;
pub mod player;
pub mod screen_representation;
pub mod snake;
