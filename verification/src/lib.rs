//! Verified core of the Polymarket trading backend: credential encryption,
//! transaction encoding, market and strategy helpers, and the request logic
//! of the HTTP API.

pub mod strategies;
pub mod crypto;
pub mod api;
pub mod text;
pub mod tracing;
pub mod db;
pub mod services;
