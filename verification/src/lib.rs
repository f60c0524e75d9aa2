//! Bioscape: the shared packet model, sprite and marker components, and the
//! decision logic of the client's and the server's network tasks.

pub mod client;
pub mod common;
pub mod server;
