//! Puppets: the layer stack of their image, their configuration, which layers are
//! drawn, and what the keys of their window do.

pub mod config;
pub mod input;
pub mod ora;
pub mod visibility;
