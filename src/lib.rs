//! Secure exchange of device and dashboard contracts between two runtimes:
//! a shared schema, a JSON codec for it, an encrypting text-safe envelope,
//! and a role gate for the messages that cross the boundary.

pub mod json;
pub mod contracts;
pub mod controls;
pub mod dashboard;
pub mod boundary;
pub mod role_gate;
pub mod bluetooth;
pub mod home_assistant;
pub mod bulb;
