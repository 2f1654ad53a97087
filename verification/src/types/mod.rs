//! The engine's data model: players, objects, cards and format settings.

pub mod ability;
pub mod card;
pub mod card_type;
pub mod custom_format;
pub mod format;
pub mod game_state;
pub mod identifiers;
pub mod mana;
pub mod player;
pub mod zones;
