//! Animation state machine and tile collision rules for a top-down farming
//! actor, with every rule stated as a contract and proved.

pub mod action;
pub mod animation;
pub mod clock;
pub mod input;
pub mod level;
pub mod movement;
pub mod screen;
pub mod state;
pub mod tilemap;
