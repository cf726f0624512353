//! What the client promises as a whole, operation by operation.
pub mod receiving;
pub mod talking;
pub mod settings;
pub mod texts;
pub mod lists;
pub mod models;
pub mod overlay;
pub mod plugins;
pub mod program;
pub mod sound;
