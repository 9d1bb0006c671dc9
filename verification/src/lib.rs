//! Monitoring and failover logic for a Solana validator: the request
//! authentication rules, the sentry's health checks and failover decisions,
//! the JSON envelope of the monitor's API, and the text that the tools print.
//!
//! Everything here computes on plain values; reading files, talking HTTP and
//! RPC, and sleeping are left to the program that drives this library.

pub mod text;
pub mod json;
pub mod responder;
pub mod handlers;
pub mod webhook;
pub mod sentry;
pub mod scan;
pub mod keys;
pub mod monitor;
pub mod config;
pub mod auth;
pub mod failover;
pub mod summary;
