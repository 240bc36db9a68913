//! Host telemetry: the verified core of an agent that samples operating-system
//! state into one report per tick and streams the reports to a collector.
pub mod meminfo;
pub mod models;
pub mod ranking;
pub mod sections;
pub mod collector;
pub mod metadata;
pub mod transport;
pub mod buffer;
