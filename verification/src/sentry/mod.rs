//! The sentry: it polls the validator nodes and an outside RPC service,
//! raises alerts, and fails the voting identity over to a healthy node.

pub mod client;
pub mod config;
pub mod sentry;
