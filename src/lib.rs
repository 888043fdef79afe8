//! Tick-driven session logic: round-trip latency measurement and smoothing,
//! a shared spawn rate steered by clients, a burst spawn queue drained one
//! object per tick, and a reaper that retires objects after a fixed age.
//!
//! All times are simulation times in nanoseconds.

pub mod latency;
pub mod rate;
pub mod spawn;
pub mod ttl;
pub mod world;
pub mod server;
pub mod client;
