//! The game state as far as command-zone cards and damage sources read it.

use vstd::prelude::*;
use std::collections::{HashMap, VecDeque};
use crate::game::game_object::GameObject;
use crate::types::card_type::CoreType;
use crate::types::identifiers::ObjectId;
use crate::types::mana::ManaColor;
use crate::types::player::PlayerId;

verus! {

/// The last known characteristics of one incarnation of an object, taken as
/// it left its zone (CR 608.2h).
#[derive(Debug)]
pub struct LKISnapshot {
    pub controller: PlayerId,
    pub colors: Vec<ManaColor>,
    pub mana_value: u32,
    pub card_types: Vec<CoreType>,
    pub subtypes: Vec<String>,
}

/// The game state. Objects and last-known information are keyed by the
/// number inside their `ObjectId`; last-known information is further keyed
/// by incarnation.
#[derive(Debug)]
pub struct GameState {
    pub objects: HashMap<u64, GameObject>,
    pub command_zone: VecDeque<ObjectId>,
    pub lki_by_incarnation: HashMap<u64, HashMap<u64, LKISnapshot>>,
    /// Set when the cached layer results must be rebuilt from scratch.
    pub layers_dirty: bool,
}

/// The game state as mathematical maps and sequences.
#[verifier::ext_equal]
pub struct GameStateView {
    pub objects: Map<u64, GameObject>,
    pub command_zone: Seq<ObjectId>,
    pub lki_by_incarnation: Map<u64, HashMap<u64, LKISnapshot>>,
    pub layers_dirty: bool,
}

impl View for GameState {
    type V = GameStateView;

    open spec fn view(&self) -> GameStateView {
        GameStateView {
            objects: self.objects@,
            command_zone: self.command_zone@,
            lki_by_incarnation: self.lki_by_incarnation@,
            layers_dirty: self.layers_dirty,
        }
    }
}

impl GameState {
    /// A state with no objects and clean layers.
    pub fn new() -> (r: GameState)
        ensures
            r@.objects == Map::<u64, GameObject>::empty(),
            r@.command_zone == Seq::<ObjectId>::empty(),
            r@.lki_by_incarnation == Map::<u64, HashMap<u64, LKISnapshot>>::empty(),
            !r@.layers_dirty,
    {
        GameState {
            objects: HashMap::new(),
            command_zone: VecDeque::new(),
            lki_by_incarnation: HashMap::new(),
            layers_dirty: false,
        }
    }
}

} // verus!
