//! Game objects: cards and tokens in a zone, with their current
//! characteristics.

use vstd::prelude::*;
use crate::owned::copy_vec;
use crate::types::ability::ChosenAttribute;
use crate::types::card_type::CardType;
use crate::types::identifiers::ObjectId;
use crate::types::mana::ManaColor;
use crate::types::player::PlayerId;
use crate::types::zones::Zone;

verus! {

/// An object in the game. `card_types`, `color` and `mana_value` hold the
/// characteristics after continuous effects have been applied.
#[derive(Debug)]
pub struct GameObject {
    pub id: ObjectId,
    pub name: String,
    pub owner: PlayerId,
    pub controller: PlayerId,
    pub zone: Zone,
    pub face_down: bool,
    pub card_types: CardType,
    pub color: Vec<ManaColor>,
    pub mana_value: u32,
    pub chosen_attributes: Vec<ChosenAttribute>,
    /// Advances on every zone change (CR 400.7).
    pub incarnation: u64,
}

/// CR 108.4a: an object that is neither a permanent nor a spell has no
/// controller; asked for one, the rules use its owner.
pub open spec fn controller_or_owner_of(obj: GameObject) -> PlayerId {
    if obj.zone == Zone::Battlefield || obj.zone == Zone::Stack {
        obj.controller
    } else {
        obj.owner
    }
}

impl GameObject {
    /// The controller of a permanent or spell, otherwise the owner.
    pub fn controller_or_owner(&self) -> (r: PlayerId)
        ensures
            r == controller_or_owner_of(*self),
    {
        match self.zone {
            Zone::Battlefield | Zone::Stack => self.controller,
            _ => self.owner,
        }
    }

    /// The object's current colors.
    pub fn effective_colors(&self) -> (r: Vec<ManaColor>)
        ensures
            r@ == self.color@,
    {
        copy_vec(&self.color)
    }

    /// The object's current mana value.
    pub fn effective_mana_value(&self) -> (r: u32)
        ensures
            r == self.mana_value,
    {
        self.mana_value
    }
}

} // verus!
