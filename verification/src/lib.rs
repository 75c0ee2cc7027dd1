//! The rules of a small two-character idle game: sprite animation state,
//! the animation and texture tables of each character, the texture manifest
//! handed to the page, and the chores that earn the player cash.

pub mod assets;
pub mod text;
pub mod sprite;
pub mod roster;
pub mod manifest;
pub mod game;
