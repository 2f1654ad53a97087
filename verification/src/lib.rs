//! Rules-engine pieces for historical formats, conspiracies and combat-damage
//! sources, with their contracts proved by Verus.

pub mod owned;
pub mod text;
pub mod types;
pub mod database;
pub mod game;
pub mod manabrew;
