//! Card types (CR 205).

use vstd::prelude::*;

verus! {

#[derive(Clone, Copy, Debug, PartialEq, Eq, Hash, Structural)]
pub enum Supertype {
    Basic,
    Legendary,
    Snow,
    World,
    Ongoing,
}

#[derive(Clone, Copy, Debug, PartialEq, Eq, Hash, Structural)]
pub enum CoreType {
    Artifact,
    Battle,
    Conspiracy,
    Creature,
    Dungeon,
    Enchantment,
    Instant,
    Kindred,
    Land,
    Phenomenon,
    Plane,
    Planeswalker,
    Scheme,
    Sorcery,
    Vanguard,
}

/// The type line of a card or object.
#[derive(Clone, Debug, PartialEq, Eq)]
pub struct CardType {
    pub supertypes: Vec<Supertype>,
    pub core_types: Vec<CoreType>,
    pub subtypes: Vec<String>,
}

} // verus!
