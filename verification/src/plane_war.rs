//! Rules of the plane-war game: game flow, scoring, difficulty and spawning.

pub mod combat;
pub mod difficulty;
pub mod flow;
pub mod hud;
pub mod record;
pub mod spawn;
