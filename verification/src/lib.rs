//! Paw Phone: the logic of a cat-to-cat messenger that stages a theatrical
//! satellite "uplink ceremony" for every message. Everything here is pure
//! state and decisions; drawing, sound, threads and files live with the caller.

pub mod app;
pub mod chance;
pub mod connection;
pub mod haptics;
pub mod models;
pub mod persistence;
pub mod personality;
pub mod phase;
pub mod synth;
pub mod telemetry;
pub mod text;
