//! Incarnation-aware characteristic reads shared by damage and protection.

use vstd::prelude::*;
use crate::game::game_object::{controller_or_owner_of, GameObject};
use crate::owned::copy_vec;
use crate::types::card_type::CoreType;
use crate::types::game_state::{GameState, GameStateView, LKISnapshot};
use crate::types::identifiers::ObjectIncarnationRef;
use crate::types::mana::ManaColor;
use crate::types::player::PlayerId;

verus! {

broadcast use vstd::std_specs::hash::group_hash_axioms;

/// A source's current characteristics or the last known characteristics of
/// exactly the incarnation that dealt damage. Never projects a replacement
/// object stored under the same id into the old source.
#[derive(Clone, Copy, Debug)]
pub enum DamageSourceView<'a> {
    Live(&'a GameObject),
    Lki(&'a LKISnapshot),
}

impl<'a> From<&'a GameObject> for DamageSourceView<'a> {
    fn from(object: &'a GameObject) -> (r: Self) {
        DamageSourceView::Live(object)
    }
}

impl<'a> vstd::std_specs::convert::FromSpecImpl<&'a GameObject> for DamageSourceView<'a> {
    /// A live object viewed as a damage source is itself.
    open spec fn obeys_from_spec() -> bool {
        true
    }

    open spec fn from_spec(object: &'a GameObject) -> Self {
        DamageSourceView::Live(object)
    }
}

/// The object stored under the reference's id is still that incarnation.
pub open spec fn live_incarnation(s: GameStateView, source: ObjectIncarnationRef) -> bool {
    s.objects.contains_key(source.object_id.0) && s.objects[source.object_id.0].incarnation
        == source.incarnation
}

/// Last-known information was recorded for exactly that incarnation.
pub open spec fn recorded_incarnation(s: GameStateView, source: ObjectIncarnationRef) -> bool {
    s.lki_by_incarnation.contains_key(source.object_id.0) && s.lki_by_incarnation[source.object_id.0]@.contains_key(
        source.incarnation,
    )
}

/// CR 400.7: a zone change creates a different object. Look back by
/// incarnation, not through an id-only cache, which may describe a later
/// object. The live object is used only while it is the same incarnation;
/// otherwise the snapshot of exactly that incarnation, if one was recorded.
pub fn damage_source_view(state: &GameState, source: ObjectIncarnationRef) -> (r: Option<
    DamageSourceView<'_>,
>)
    ensures
        match r {
            Some(DamageSourceView::Live(obj)) => live_incarnation(state@, source) && *obj
                == state@.objects[source.object_id.0],
            Some(DamageSourceView::Lki(snapshot)) => !live_incarnation(state@, source)
                && recorded_incarnation(state@, source) && *snapshot
                == state@.lki_by_incarnation[source.object_id.0]@[source.incarnation],
            None => !live_incarnation(state@, source) && !recorded_incarnation(state@, source),
        },
        ({
            let k = source.object_id.0;
            let live = state@.objects.contains_key(k) && state@.objects[k].incarnation
                == source.incarnation;
            let recorded = state@.lki_by_incarnation.contains_key(k)
                && state@.lki_by_incarnation[k]@.contains_key(source.incarnation);
            &&& live ==> (r matches Some(DamageSourceView::Live(obj)) && *obj
                == state@.objects[k])
            &&& !live && recorded ==> (r matches Some(DamageSourceView::Lki(snapshot))
                && *snapshot == state@.lki_by_incarnation[k]@[source.incarnation])
            &&& !live && !recorded ==> r is None
        }),
{
    if let Some(object) = state.objects.get(&source.object_id.0) {
        if object.incarnation == source.incarnation {
            return Some(DamageSourceView::Live(object));
        }
    }
    match state.lki_by_incarnation.get(&source.object_id.0) {
        Some(incarnations) => match incarnations.get(&source.incarnation) {
            Some(snapshot) => Some(DamageSourceView::Lki(snapshot)),
            None => None,
        },
        None => None,
    }
}

/// Whether last-known information exists for a pinned incarnation depends on
/// the recorded snapshots alone: it holds even when no object is stored under
/// the id any more (a token that ceased to exist, a card that left the game).
pub proof fn lemma_recorded_incarnation_reads_only_snapshots(
    s: GameStateView,
    source: ObjectIncarnationRef,
)
    ensures
        recorded_incarnation(s, source) <==> (s.lki_by_incarnation.contains_key(
            source.object_id.0,
        ) && s.lki_by_incarnation[source.object_id.0]@.contains_key(source.incarnation)),
        live_incarnation(s, source) ==> s.objects[source.object_id.0].incarnation
            == source.incarnation,
        !s.objects.contains_key(source.object_id.0) ==> !live_incarnation(s, source),
{
}

/// The controller a damage source reads.
pub open spec fn source_controller(v: DamageSourceView) -> PlayerId {
    match v {
        DamageSourceView::Live(obj) => obj.controller,
        DamageSourceView::Lki(snapshot) => snapshot.controller,
    }
}

/// The controller, or for a live object that is neither permanent nor spell,
/// the owner (CR 108.4a); a snapshot's recorded controller.
pub open spec fn source_controller_or_owner(v: DamageSourceView) -> PlayerId {
    match v {
        DamageSourceView::Live(obj) => controller_or_owner_of(*obj),
        DamageSourceView::Lki(snapshot) => snapshot.controller,
    }
}

/// The colors a damage source reads.
pub open spec fn source_colors(v: DamageSourceView) -> Seq<ManaColor> {
    match v {
        DamageSourceView::Live(obj) => obj.color@,
        DamageSourceView::Lki(snapshot) => snapshot.colors@,
    }
}

/// The mana value a damage source reads.
pub open spec fn source_mana_value(v: DamageSourceView) -> u32 {
    match v {
        DamageSourceView::Live(obj) => obj.mana_value,
        DamageSourceView::Lki(snapshot) => snapshot.mana_value,
    }
}

/// The card types a damage source reads.
pub open spec fn source_core_types(v: DamageSourceView) -> Seq<CoreType> {
    match v {
        DamageSourceView::Live(obj) => obj.card_types.core_types@,
        DamageSourceView::Lki(snapshot) => snapshot.card_types@,
    }
}

/// The subtypes a damage source reads.
pub open spec fn source_subtypes(v: DamageSourceView) -> Seq<String> {
    match v {
        DamageSourceView::Live(obj) => obj.card_types.subtypes@,
        DamageSourceView::Lki(snapshot) => snapshot.subtypes@,
    }
}

impl<'a> DamageSourceView<'a> {
    pub fn controller(self) -> (r: PlayerId)
        ensures
            r == source_controller(self),
    {
        match self {
            DamageSourceView::Live(object) => object.controller,
            DamageSourceView::Lki(snapshot) => snapshot.controller,
        }
    }

    pub fn controller_or_owner(self) -> (r: PlayerId)
        ensures
            r == source_controller_or_owner(self),
    {
        match self {
            DamageSourceView::Live(object) => object.controller_or_owner(),
            DamageSourceView::Lki(snapshot) => snapshot.controller,
        }
    }

    pub fn effective_colors(self) -> (r: Vec<ManaColor>)
        ensures
            r@ == source_colors(self),
    {
        match self {
            DamageSourceView::Live(object) => object.effective_colors(),
            DamageSourceView::Lki(snapshot) => copy_vec(&snapshot.colors),
        }
    }

    pub fn effective_mana_value(self) -> (r: u32)
        ensures
            r == source_mana_value(self),
    {
        match self {
            DamageSourceView::Live(object) => object.effective_mana_value(),
            DamageSourceView::Lki(snapshot) => snapshot.mana_value,
        }
    }

    pub fn core_types(self) -> (r: &'a [CoreType])
        ensures
            r@ == source_core_types(self),
    {
        match self {
            DamageSourceView::Live(object) => object.card_types.core_types.as_slice(),
            DamageSourceView::Lki(snapshot) => snapshot.card_types.as_slice(),
        }
    }

    pub fn subtypes(self) -> (r: &'a [String])
        ensures
            r@ == source_subtypes(self),
    {
        match self {
            DamageSourceView::Live(object) => object.card_types.subtypes.as_slice(),
            DamageSourceView::Lki(snapshot) => snapshot.subtypes.as_slice(),
        }
    }
}

} // verus!
