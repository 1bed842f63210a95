//! # Rust GNC
//!
//! The discrete, safety-relevant decisions of a Guidance, Navigation, and
//! Control stack for unmanned aerial vehicles: the arming interlock, the
//! failsafe command overrides, the Quad-X mixing geometry and the binary
//! telemetry frame.

/// Flight control decisions: arming, failsafe responses and motor mixing.
pub mod control;

/// High-speed binary logging for post-flight analysis.
pub mod telemetry;
