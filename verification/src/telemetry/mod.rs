//! # Telemetry
//!
//! High-speed binary logging of flight data snapshots.

pub mod telemetry;

pub use telemetry::{TelemetryPacket, PACKET_LEN};
