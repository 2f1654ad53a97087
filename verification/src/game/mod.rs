//! Game-rule logic: deck checks, conspiracies and damage sources.

pub mod conspiracy;
pub mod damage_source;
pub mod deck_validation;
pub mod game_object;
pub mod layers;
