//! What the item commands answer with.
pub mod search;
