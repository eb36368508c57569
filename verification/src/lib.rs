//! Game-flow core of a minigame-cycling arcade game.
//!
//! The player alternates between a calm interlude and short timed minigames
//! while a fever thermometer accumulates the outcomes until the run is won or
//! lost. This crate holds the orchestration: the game state, the fade
//! transition that gates spawning and despawning, the minigame selector, the
//! per-minigame countdown, the thermometer, and the events that bind them.
//! Rendering, assets, input and the minigames' own mechanics live outside and
//! talk to the core through [`events::GameEvent`].
//!
//! All durations are in nanoseconds.

pub mod animation;
pub mod clock;
pub mod events;
pub mod game;
pub mod game_state;
pub mod laws;
pub mod minigame_manager;
pub mod minigame_timer;
pub mod minigames;
pub mod thermometer;
pub mod transition;
