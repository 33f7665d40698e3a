//! Decision logic of a fixed-step simulation bridge: a deterministic tick
//! coordinator, a synthetic weather oscillator, a last-write-wins sensor
//! register and the fixed fan-out of telemetry signals to a signal broker.
pub mod config;
pub mod coordinator;
pub mod render;
pub mod sensor;
pub mod signals;
pub mod weather;
