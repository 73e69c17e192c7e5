//! Decision logic of a game-streaming client for webOS televisions.

pub mod cadence;
pub mod clock;
pub mod delivery;
pub mod discovery;
pub mod hdr;
pub mod loading;
pub mod ndl;
pub mod playing;
pub mod priority;
pub mod pump;
pub mod stamps;
pub mod text;
