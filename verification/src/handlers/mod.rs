//! What the monitor's API endpoints answer.

pub mod error;
pub mod post;
pub mod status;
pub mod set_identity;
pub mod stats;
pub mod tower;
