//! State and arithmetic behind a live GPU telemetry display: the samples kept
//! per device, the user's choices, the thermometer colour and unit conversion.

pub mod color;
pub mod monitor;
pub mod stats;
pub mod temperature;
