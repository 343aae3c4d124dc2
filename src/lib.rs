//! Read-only access to stored price predictions: request validation, the
//! "latest per pair" selection rules, and the mapping of failures to
//! client-visible outcomes.
pub mod config;
pub mod error;
pub mod health;
pub mod predictions;
pub mod repository;
pub mod storage;
