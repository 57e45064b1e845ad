//! Grid movement, push resolution and sprite animation for a small
//! tile-based box-pushing puzzle game.

pub mod components;
pub mod resources;
pub mod sprites;
pub mod error;
pub mod world;
pub mod move_system;
pub mod animate_system;
pub mod input_system;
pub mod json;
pub mod level;
pub mod draw_system;
