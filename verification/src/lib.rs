//! Typed model of the local game-client telemetry API.
//!
//! The library decodes JSON telemetry documents (represented as
//! [`json::JsonValue`] trees) into a strongly typed snapshot, classifies
//! free-text engine identifiers into closed enumerations, and extracts
//! session credentials from a process argument string.

use vstd::prelude::*;

pub mod active;
pub mod classify;
pub mod events;
pub mod team;
pub mod json;
pub mod laws;
pub mod player;
pub mod process_info;
pub mod runes;
pub mod snapshot;
pub mod stats;
pub mod strutil;

verus! {

/// A summoner's display name.
pub type SummonerName = String;

/// Seconds since game start, kept as the IEEE-754 bit pattern of the
/// upstream double. The library carries the value; it never interprets it
/// numerically.
pub type Time = u64;

/// A champion level.
pub type Level = i32;

/// An upstream fractional quantity (gold, a champion statistic, a score),
/// kept as the IEEE-754 bit pattern of the upstream double, carried but
/// never interpreted numerically by the library.
pub type NumBits = u64;

} // verus!
