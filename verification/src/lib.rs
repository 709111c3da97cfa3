//! Rules of a tile-based platformer, kept apart from the engine that runs them.

pub mod animation;
pub mod contact;
pub mod enemy;
pub mod ground;
pub mod input;
pub mod killzone;
pub mod movement;
pub mod pickups;
pub mod platform;
pub mod player;
pub mod spawn;
pub mod state;
pub mod timer;
pub mod tips;
pub mod walls;

pub use contact::{Lean, Side};
pub use state::{GameState, Score};
pub use timer::{Timer, TimerMode, TimerView};
