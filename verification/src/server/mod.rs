//! The server's client registry and the decisions of its connection tasks.

pub mod accept;
pub mod channel;
pub mod data;
pub mod transfer;
