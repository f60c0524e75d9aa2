//! Components attached to game entities.

pub mod marker;
pub mod sprite;
