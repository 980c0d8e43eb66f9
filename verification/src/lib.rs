//! Core logic of a small text-menu adventure shell: the location state
//! machine, the configuration-driven action dispatcher, and the experience
//! and leveling progression, all verified. Terminal rendering, process
//! spawning, environment lookups and file access live outside the library
//! and hand it plain values.

pub mod character;
pub mod config;
pub mod dispatch;
pub mod game;
pub mod location;
pub mod menu;
pub mod name;
pub mod render;
pub mod text;

pub use character::Character;
pub use character::PocketItem;
pub use config::ActionsConfig;
pub use config::CharacterConfig;
pub use config::Config;
pub use config::NamedCommand;
pub use game::Game;
pub use game::RewardNote;
pub use location::Location;
