//! Accepting requests signed with the administrator's key.

pub mod auth;
pub mod lib;
pub mod signed_payload;
