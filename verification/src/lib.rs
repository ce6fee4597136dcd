//! Control logic of a small aircraft simulator and of a vertical
//! shoot-'em-up game: directional input, flight-trail bookkeeping and the
//! rules of the game (scoring, difficulty, spawning, game-over flow).
//!
//! Everything here works on plain values; rendering, windowing, audio,
//! floating-point motion and the dataflow bridge live in the application.

pub mod control;
pub mod path;
pub mod plane_war;
