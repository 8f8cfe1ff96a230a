//! An authenticated client core for a remote learning-management REST
//! API: it models JSON payloads, decodes buffered HTTP responses into
//! typed course and enrollment records or a structured error envelope,
//! and joins a concurrent per-course fan-out into one ordered result
//! with all-or-nothing failure. Network, configuration files and
//! logging live outside this crate; it consumes a resolved server
//! profile and response snapshots, and hands back typed values.

pub mod aggregate;
pub mod canvas;
pub mod cli;
pub mod config;
pub mod error;
pub mod http;
pub mod json;
pub mod num;
