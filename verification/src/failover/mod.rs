//! Moving the voting identity by hand to a chosen node.

pub mod failover;
