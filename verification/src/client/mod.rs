//! The client's networking decisions, its game scene and its inventory lookups.

pub mod game;
pub mod inventory;
pub mod network;
