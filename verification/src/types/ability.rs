//! Choices recorded on an object (CR 607 linked choices, CR 702.106 agendas).

use vstd::prelude::*;
use crate::types::mana::ManaColor;

verus! {

/// A choice made for an object, such as a card name secretly chosen for a
/// hidden agenda.
#[derive(Clone, Debug, PartialEq, Eq)]
pub enum ChosenAttribute {
    CardName(String),
    CreatureType(String),
    Color(ManaColor),
}

} // verus!
