//! Match timer, scoring state machine and proportional screen layout for a
//! two-competitor scoreboard.
pub mod bjj_match;
pub mod flags;
pub mod grid;
pub mod scoreboard;

pub use scoreboard::AppState;
