//! A grid-based snake: the movement and growth rules, collision detection,
//! food placement and the choice of a sprite for each body segment, with
//! every rule stated as a contract and proved.

pub mod cells;
pub mod constants;
pub mod game;
pub mod layout;
pub mod food;
pub mod model;
pub mod player;
pub mod segment;
pub mod utils;
