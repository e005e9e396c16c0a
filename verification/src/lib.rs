//! Engine of a matching game for young children: a prompt is played, the child
//! picks the matching item among a few options, and the game moves through
//! three levels and a timed boss level.

pub mod controls;
pub mod draw;
pub mod game;
pub mod laws;
pub mod model;
pub mod rules;
pub mod settings;
pub mod state;
pub mod text;

pub use game::GameEngine;
pub use settings::GameSettings;
pub use state::{GameStatus, GameVariant, SessionState, SoundEvent};
