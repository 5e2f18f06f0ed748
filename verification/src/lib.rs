//! Ingestion core for GPS/telematics device telemetry: record decoding, row
//! preparation, batching and the write plan for the history and current-state
//! tables, with machine-checked contracts.

pub mod config;
pub mod errors;
pub mod fields;
pub mod logging;
pub mod models;
pub mod services;
pub mod supervisor;
pub mod text;
pub mod timestamp;
