//! Card data and format-scoped views of it.

pub mod card_database;
pub mod historical_card_text;
pub mod historical_printing;

pub use card_database::CardDatabase;
