//! Decoding and tracking for a network of positioning beacons and modems.
//!
//! The library turns two fixed-layout little-endian byte buffers — a device
//! roster snapshot and a coordinate snapshot — into a queryable in-memory
//! device list, and folds coordinate snapshots into that list under a
//! strict-freshness and quality-gate policy.

pub mod bytes;
pub mod coords;
pub mod device;
pub mod errors;
pub mod roster;
