//! Keeps a SplatNet session alive: the rules by which the settings are read,
//! the hourly ping is prepared and its outcome is judged.

pub mod config;
pub mod json;
pub mod ping;
pub mod record;
pub mod scheduler;
