//! Items shared by the client and the server.

pub mod component;
pub mod packet;
