//! Battery and device logic for AirPods over Bluetooth Low Energy.
//!
//! The library decodes the Apple manufacturer advertisement, identifies the
//! AirPods model, filters and ranks discovered devices, smooths battery
//! readings, validates configuration and classifies errors.

pub mod airpods;
pub mod text;
pub mod keyed;
pub mod time;
pub mod error;
pub mod bluetooth;
pub mod config;
pub mod diagnostics;
