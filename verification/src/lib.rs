//! Message building for a SimpleMMO Discord bot: the text of every embed the
//! bot sends, the time arithmetic behind it, and the small decisions that the
//! commands make.
pub mod embed;
pub mod general;
pub mod graph;
pub mod hooks;
pub mod item;
pub mod models;
pub mod smmo;
pub mod text;
pub mod time;
pub mod to_embed;
pub mod utils;
