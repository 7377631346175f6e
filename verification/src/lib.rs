//! Station-mode connection establishment.
//!
//! Drives a wireless network interface from an unconfigured state through
//! configuration, radio start and association to a fully ready,
//! address-assigned state, or fails fast on the first stage error. The
//! driver calls themselves (radio, network stack, clock) are performed by
//! the caller; this crate holds the decision logic, verified.

pub mod config;
pub mod connect;
pub mod http_status;
pub mod station;
