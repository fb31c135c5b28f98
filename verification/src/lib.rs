//! Layered puppets driven by face tracking: the verified core.

pub mod obs_source;
pub mod puppet;
pub mod tracker;
