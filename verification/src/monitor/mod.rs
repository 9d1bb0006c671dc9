//! The monitor that runs beside each validator node.

pub mod config;
pub mod netmon;
