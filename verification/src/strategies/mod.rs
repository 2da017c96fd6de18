//! Trading strategies: the shared signal type and helpers.

pub mod base;
