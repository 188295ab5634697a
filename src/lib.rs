//! Obstacle spawning and level progression for a side-scrolling arcade game.
//!
//! The engine that draws, collides and animates lives outside this crate; the
//! crate decides what to spawn, where, and how the level state changes.
pub mod chance;
pub mod game;
pub mod geometry;
pub mod items;
pub mod level;
pub mod obstacle_spawner;
pub mod score;
pub mod spawner_settings;
pub mod timer;
