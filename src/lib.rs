//! Decides and applies clock-tier changes for network-attached mining
//! devices, driven by the current spot price of electricity.
//!
//! Prices are fixed-point integers: millionths of the currency unit per kWh.
//! Instants are milliseconds since the Unix epoch.

pub mod control;
pub mod config;
pub mod price;
pub mod schedule;
pub mod sync;
pub mod tier;
