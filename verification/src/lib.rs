//! Cooperative scheduling core of a small tile-based role-playing game.
//!
//! Game logic is written as resumable state machines: a task is polled once
//! per fixed time step, runs until its next suspension point and hands
//! control back to the driving loop. Screens ("modes") live on a stack; only
//! the top one is updated, all of them are drawn.
pub mod async_utils;
pub mod direction;
pub mod driver;
pub mod random;
pub mod input;
pub mod strings;
pub mod numeric;
pub mod progress;
pub mod enemy;
pub mod aseprite;
pub mod saved_options;
pub mod sprite;
pub mod draw;
pub mod resources;
pub mod text;
pub mod audio;
pub mod fade;
pub mod meter;
pub mod window;
pub mod actor;
pub mod levels;
pub mod contexts;
pub mod modes;
pub mod script;
pub mod game;
