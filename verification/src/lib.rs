//! Verified core of a desktop front end that drives BlueMap renders of
//! Minecraft Java worlds: log classification, job bookkeeping, status
//! reporting, configuration generation and the small text utilities they
//! rest on.
use vstd::prelude::*;

pub mod clock;
pub mod commands;
pub mod config;
pub mod environment;
pub mod job;
pub mod logs;
pub mod pattern;
pub mod progress;
pub mod status;
pub mod text;
pub mod version;
pub mod world;

verus! {
}
