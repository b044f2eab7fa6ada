//! Supervision of a radio stream recognizer: resolving a station address into
//! a playback plan, cutting bounded capture windows out of the stream, and
//! sequencing recognition cycles under a watchdog.

pub mod address;
pub mod capture;
pub mod cycle;
pub mod fleet;
pub mod manifest;
pub mod plan;
pub mod resolver;
pub mod sink;
pub mod station;
pub mod supervisor;
pub mod text;
