//! Game rules of a vertical shoot 'em up: game and menu states, the level
//! director that releases enemy waves, the boss controller, the player's
//! weapons and damage, enemy health, dialogue progression, music choice and
//! sprite animation frames.
//!
//! Everything here works on plain values (integers, booleans, indices); the
//! engine side hands in what it observed this frame and applies what comes
//! back.
pub mod states;
pub mod animation;
pub mod enemy;
mod random;
pub mod boss;
pub mod level;
pub mod player;
pub mod dialogue;
pub mod audio;
