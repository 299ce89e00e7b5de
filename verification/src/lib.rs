//! Rules of a small arcade space shooter: scoring, speed levels, the end of a
//! run, the high-score record and the texts shown to the player.

pub mod components;
pub mod game;
pub mod score;
pub mod text;
pub mod ui;
