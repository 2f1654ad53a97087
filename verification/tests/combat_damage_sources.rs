//! Combat-damage scenarios, checked at the point this library decides them:
//! which characteristics a pinned damage source or recipient is read from.
//!
//! The stack, priority and damage runtime that drives these scenarios is not
//! part of this library. Each test builds the game state the scenario reaches
//! (zone changes record last-known information for the departing incarnation
//! and start a new one, CR 400.7) and checks the reads the damage step makes
//! through `damage_source_view`, with the scenario's players, colors, types
//! and incarnations.

use engine::game::damage_source::{damage_source_view, DamageSourceView};
use engine::game::game_object::GameObject;
use engine::types::card_type::{CardType, CoreType};
use engine::types::game_state::{GameState, LKISnapshot};
use engine::types::identifiers::{ObjectId, ObjectIncarnationRef};
use engine::types::mana::ManaColor;
use engine::types::player::PlayerId;
use engine::types::zones::Zone;

const P0: PlayerId = PlayerId(0);
const P1: PlayerId = PlayerId(1);

fn creature(state: &mut GameState, id: u64, owner: PlayerId, name: &str) -> ObjectId {
    let object = GameObject {
        id: ObjectId(id),
        name: name.to_string(),
        owner,
        controller: owner,
        zone: Zone::Battlefield,
        face_down: false,
        card_types: CardType {
            supertypes: vec![],
            core_types: vec![CoreType::Creature],
            subtypes: vec![],
        },
        color: vec![],
        mana_value: 2,
        chosen_attributes: vec![],
        incarnation: 1,
    };
    state.objects.insert(id, object);
    ObjectId(id)
}

fn object_mut(state: &mut GameState, id: ObjectId) -> &mut GameObject {
    state.objects.get_mut(&id.0).unwrap()
}

/// The pin a queued assignment keeps: the object's current incarnation.
fn pin(state: &GameState, id: ObjectId) -> ObjectIncarnationRef {
    ObjectIncarnationRef {
        object_id: id,
        incarnation: state.objects[&id.0].incarnation,
    }
}

/// A zone change: record the leaving incarnation's last known
/// characteristics, then the object becomes a new incarnation under its owner.
fn move_to_zone(state: &mut GameState, id: ObjectId, zone: Zone) {
    let object = state.objects.get_mut(&id.0).unwrap();
    let snapshot = LKISnapshot {
        controller: object.controller,
        colors: object.color.clone(),
        mana_value: object.mana_value,
        card_types: object.card_types.core_types.clone(),
        subtypes: object.card_types.subtypes.clone(),
    };
    state
        .lki_by_incarnation
        .entry(id.0)
        .or_default()
        .insert(object.incarnation, snapshot);
    object.zone = zone;
    object.incarnation += 1;
    object.controller = object.owner;
}

fn is_live(view: &Option<DamageSourceView<'_>>) -> bool {
    matches!(view, Some(DamageSourceView::Live(_)))
}

fn is_lki(view: &Option<DamageSourceView<'_>>) -> bool {
    matches!(view, Some(DamageSourceView::Lki(_)))
}

fn can_be_dealt_damage(types: &[CoreType]) -> bool {
    types
        .iter()
        .any(|t| matches!(t, CoreType::Creature | CoreType::Planeswalker | CoreType::Battle))
}

#[test]
fn queued_damage_rejects_a_recipient_that_lost_all_damageable_types() {
    let mut state = GameState::new();
    let attacker = creature(&mut state, 1, P0, "Attacker");
    let blocker = creature(&mut state, 2, P1, "Blocker");
    let source = pin(&state, attacker);
    let recipient = pin(&state, blocker);
    object_mut(&mut state, blocker).card_types.core_types = vec![CoreType::Enchantment];
    let recipient_view = damage_source_view(&state, recipient).unwrap();
    assert!(!can_be_dealt_damage(recipient_view.core_types()));
    let source_view = damage_source_view(&state, source);
    assert!(
        is_live(&source_view),
        "the source still deals its assignment from the same incarnation"
    );
}

#[test]
fn queued_damage_uses_current_lifelink_but_frozen_power() {
    // The live source is read with its current characteristics.
    let mut state = GameState::new();
    let attacker = creature(&mut state, 1, P0, "Attacker");
    creature(&mut state, 2, P1, "Blocker");
    let source = pin(&state, attacker);
    object_mut(&mut state, attacker).color = vec![ManaColor::White];
    object_mut(&mut state, attacker).mana_value = 7;
    let view = damage_source_view(&state, source).unwrap();
    assert!(matches!(view, DamageSourceView::Live(_)));
    assert_eq!(view.effective_colors(), vec![ManaColor::White]);
    assert_eq!(view.effective_mana_value(), 7);
    assert_eq!(view.controller(), P0, "P0 gains the lifelink life");
}

#[test]
fn queued_commander_damage_counts_after_a_zone_change() {
    let mut state = GameState::new();
    let attacker = creature(&mut state, 1, P0, "Commander");
    creature(&mut state, 2, P1, "Blocker");
    let source = pin(&state, attacker);
    move_to_zone(&mut state, attacker, Zone::Graveyard);
    let view = damage_source_view(&state, source);
    assert!(is_lki(&view));
    assert_eq!(view.unwrap().controller(), P0);
}

#[test]
fn observer_triggers_once_for_a_sacrificed_combat_source() {
    let mut state = GameState::new();
    let attacker = creature(&mut state, 1, P0, "Trampler");
    creature(&mut state, 2, P1, "Blocker");
    let source = pin(&state, attacker);
    move_to_zone(&mut state, attacker, Zone::Graveyard);
    // A changed current object must not supply the old damage source's type.
    object_mut(&mut state, attacker).card_types.core_types.clear();
    let old = damage_source_view(&state, source).unwrap();
    assert!(old.core_types().contains(&CoreType::Creature));
    assert_eq!(old.controller(), P0, "a creature you control dealt the damage");
    let current = damage_source_view(&state, pin(&state, attacker)).unwrap();
    assert!(current.core_types().is_empty());
}

#[test]
fn protection_added_after_assignment_checks_a_sacrificed_sources_color() {
    for color in [ManaColor::Red, ManaColor::Green] {
        let mut state = GameState::new();
        let attacker = creature(&mut state, 1, P0, "Colored source");
        creature(&mut state, 2, P1, "Blocker");
        object_mut(&mut state, attacker).color = vec![color];
        let source = pin(&state, attacker);
        move_to_zone(&mut state, attacker, Zone::Graveyard);
        object_mut(&mut state, attacker).color = vec![];
        let view = damage_source_view(&state, source).unwrap();
        assert!(matches!(view, DamageSourceView::Lki(_)));
        let prevented_by_protection_from_red = view.effective_colors().contains(&ManaColor::Red);
        let damage_marked = if prevented_by_protection_from_red { 0 } else { 3 };
        assert_eq!(damage_marked, if color == ManaColor::Red { 0 } else { 3 });
    }
}

#[test]
fn eliminated_active_players_damage_object_survives_and_uses_lki() {
    let mut state = GameState::new();
    let attacker = creature(&mut state, 1, P0, "Departing lifelinker");
    let source = pin(&state, attacker);
    // The conceding player's objects leave the game.
    move_to_zone(&mut state, attacker, Zone::Exile);
    assert_ne!(state.objects[&attacker.0].zone, Zone::Battlefield);
    let view = damage_source_view(&state, source);
    assert!(is_lki(&view));
    assert_eq!(view.unwrap().controller(), P0);
}

#[test]
fn queued_damage_allows_a_real_bounce_response_and_still_deals_from_lki() {
    let mut state = GameState::new();
    let attacker = creature(&mut state, 1, P0, "Attacker");
    let blocker = creature(&mut state, 2, P1, "Blocker");
    let source = pin(&state, attacker);
    let recipient = pin(&state, blocker);
    move_to_zone(&mut state, attacker, Zone::Hand);
    assert_eq!(state.objects[&attacker.0].zone, Zone::Hand);
    let view = damage_source_view(&state, source);
    assert!(is_lki(&view), "damage is still dealt from the bounced source's LKI");
    assert_eq!(view.unwrap().controller(), P0);
    assert!(is_live(&damage_source_view(&state, recipient)));
}

#[test]
fn queued_damage_uses_original_source_lki_and_skips_returned_recipient() {
    let mut state = GameState::new();
    let attacker = creature(&mut state, 1, P0, "Lifelink attacker");
    creature(&mut state, 2, P1, "Blocker");
    let original = pin(&state, attacker);
    move_to_zone(&mut state, attacker, Zone::Hand);
    move_to_zone(&mut state, attacker, Zone::Battlefield);
    let returned = object_mut(&mut state, attacker);
    assert_ne!(returned.incarnation, original.incarnation);
    returned.controller = P1;
    let view = damage_source_view(&state, original);
    assert!(!is_live(&view), "old recipient has left");
    assert_eq!(
        view.unwrap().controller(),
        P0,
        "old source's lifelink controller is read from LKI"
    );
    let current = damage_source_view(&state, pin(&state, attacker)).unwrap();
    assert_eq!(current.controller(), P1);
}

#[test]
fn queued_player_damage_credits_old_incarnation_for_casting_permissions_and_monarch() {
    let mut state = GameState::new();
    let attacker = creature(&mut state, 1, P0, "Assassin attacker");
    object_mut(&mut state, attacker).card_types.subtypes = vec!["Assassin".to_string()];
    creature(&mut state, 2, P1, "Blocker");
    let original = pin(&state, attacker);
    move_to_zone(&mut state, attacker, Zone::Hand);
    move_to_zone(&mut state, attacker, Zone::Battlefield);
    let returned = object_mut(&mut state, attacker);
    assert_ne!(returned.incarnation, original.incarnation);
    returned.controller = P1;
    returned.card_types.subtypes = vec!["Goblin".to_string()];
    let view = damage_source_view(&state, original).unwrap();
    assert_eq!(view.controller(), P0);
    assert_eq!(view.subtypes(), &["Assassin".to_string()]);
    assert!(view.core_types().contains(&CoreType::Creature));
    let current = damage_source_view(&state, pin(&state, attacker)).unwrap();
    assert_eq!(current.controller(), P1);
    assert_eq!(current.subtypes(), &["Goblin".to_string()]);
}

#[test]
fn queued_player_damage_credits_old_incarnation_for_initiative() {
    let mut state = GameState::new();
    let attacker = creature(&mut state, 1, P0, "Trampler");
    creature(&mut state, 2, P1, "Blocker");
    let original = pin(&state, attacker);
    move_to_zone(&mut state, attacker, Zone::Hand);
    move_to_zone(&mut state, attacker, Zone::Battlefield);
    object_mut(&mut state, attacker).controller = P1;
    let view = damage_source_view(&state, original).unwrap();
    assert_eq!(view.controller(), P0, "the initiative goes to P0");
}

#[test]
fn queued_lifelink_replacement_resumes_once_and_finishes_damage() {
    let mut state = GameState::new();
    let attacker = creature(&mut state, 1, P0, "Lifelinker");
    creature(&mut state, 2, P1, "Blocker");
    let source = pin(&state, attacker);
    let view = damage_source_view(&state, source);
    assert!(is_live(&view));
    assert_eq!(view.unwrap().controller(), P0);
    assert_eq!(state.objects[&attacker.0].zone, Zone::Battlefield);
}

#[test]
fn queued_lifelink_keeps_owed_gain_when_source_leaves_during_choice() {
    let mut state = GameState::new();
    let attacker = creature(&mut state, 1, P0, "Lifelinker");
    creature(&mut state, 2, P1, "Blocker");
    let source = pin(&state, attacker);
    move_to_zone(&mut state, attacker, Zone::Hand);
    let view = damage_source_view(&state, source);
    assert!(is_lki(&view));
    assert_eq!(view.unwrap().controller(), P0, "the owed gain stays P0's");
    assert_eq!(state.objects[&attacker.0].zone, Zone::Hand);
}

#[test]
fn queued_recipient_removed_from_combat_still_receives_damage() {
    let mut state = GameState::new();
    let attacker = creature(&mut state, 1, P0, "Attacker");
    let blocker = creature(&mut state, 2, P1, "Blocker");
    let source = pin(&state, attacker);
    let recipient = pin(&state, blocker);
    // Removal from combat is not a zone change: same incarnation.
    let recipient_view = damage_source_view(&state, recipient);
    assert!(is_live(&recipient_view));
    assert!(can_be_dealt_damage(recipient_view.unwrap().core_types()));
    assert!(is_live(&damage_source_view(&state, source)));
}

#[test]
fn eliminated_controller_returns_stolen_combatant_for_live_damage() {
    let p2 = PlayerId(2);
    let mut state = GameState::new();
    let attacker = creature(&mut state, 1, p2, "Stolen lifelinker");
    creature(&mut state, 2, P1, "Blocker");
    object_mut(&mut state, attacker).controller = P0;
    let source = pin(&state, attacker);
    // P0 concedes: control returns to the owner without a zone change.
    object_mut(&mut state, attacker).controller = p2;
    assert_eq!(state.objects[&attacker.0].incarnation, source.incarnation);
    let view = damage_source_view(&state, source);
    assert!(is_live(&view));
    assert_eq!(view.unwrap().controller(), p2, "P2 gains the lifelink life");
}

#[test]
fn queued_damage_uses_first_incarnation_after_two_departures() {
    let mut state = GameState::new();
    let attacker = creature(&mut state, 1, P0, "Original lifelinker");
    creature(&mut state, 2, P1, "Blocker");
    let original = pin(&state, attacker);
    for zone in [Zone::Hand, Zone::Battlefield] {
        move_to_zone(&mut state, attacker, zone);
    }
    object_mut(&mut state, attacker).controller = P1;
    let second = pin(&state, attacker);
    move_to_zone(&mut state, attacker, Zone::Graveyard);
    let first_view = damage_source_view(&state, original).unwrap();
    assert_eq!(first_view.controller(), P0, "P0 gains the life");
    let second_view = damage_source_view(&state, second).unwrap();
    assert_eq!(second_view.controller(), P1);
    assert!(matches!(first_view, DamageSourceView::Lki(_)));
    assert_ne!(original.incarnation, second.incarnation);
}
