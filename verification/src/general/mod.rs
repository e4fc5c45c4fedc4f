//! What the general commands answer with.
pub mod me;
pub mod world_boss;
