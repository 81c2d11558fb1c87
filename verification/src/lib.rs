//! Watches a USB HID accessory for a specific button-press signature and
//! decides how to react: finding the device among several product variants,
//! keeping a connection that heals itself after errors, recognizing the
//! trigger signature in the report stream, and planning the configured
//! actions without stalling the monitoring loop.

pub mod actions;
pub mod autostart;
pub mod cli;
pub mod config;
pub mod hid_monitor;
pub mod monitor;
