//! Control and monitor a server's BMC over Redfish: the verified core.

pub mod text;
pub mod models;
pub mod config;
pub mod client;
pub mod snapshot;
pub mod report;
pub mod ui;
pub mod laws;
