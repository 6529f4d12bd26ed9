//! Data exchanged with the rocode server.
pub mod memory;
pub mod skill;
pub mod message;
pub mod session;
