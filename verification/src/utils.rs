//! Plain data that the renderer is configured with.

pub mod coordinates;
