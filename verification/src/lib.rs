//! Battle rules of a small turn-based bullet-hell engine.
pub mod text;
pub mod scripts;
pub mod names;
pub mod state;
pub mod phase;
pub mod menu;
pub mod render;
pub mod combat;
pub mod animation;
pub mod editor;
pub mod setup;
pub mod input;
pub mod python;
pub mod paths;
pub mod answer;
