//! Historical printing admission and format-scoped card text.
//!
//! The format's name-based deck checks (card pool, restrictions, ante, deck
//! size) are not part of this library: `validate_deck_with_printings` hands
//! the deck to them once printings are proven. `name_gate` below stands in
//! for them with the Swedish Old School rules these scenarios exercise.

use engine::database::card_database::{CardDatabase, DatabaseCard};
use engine::database::historical_card_text::{
    oracle_text_for_format, resolve_card_face_for_format, CLASSIC_CARD_TEXT_UNAVAILABLE,
    CLASSIC_ILLUSIONARY_MASK_TEXT, CLASSIC_TIME_VAULT_TEXT,
};
use engine::database::historical_printing::{
    validate_deck_with_printings, HistoricalPrinting, PrintingCatalog, PRINTING_COUNT_MISMATCH,
};
use engine::game::deck_validation::DeckCompatibilityRequest;
use engine::types::card::CardFace;
use engine::types::card_type::{CardType, CoreType, Supertype};
use engine::types::custom_format::{
    CardTextPolicy, CombatDamageTiming, CustomFormatRules, FormatLegality,
    HistoricalPrintingPolicy, LegacyRuleSet,
};
use engine::types::format::{FormatConfig, SelectedFormat};
use std::cell::RefCell;

fn database() -> CardDatabase {
    let mut cards = Vec::new();
    for name in [
        "Plains",
        "Island",
        "Black Lotus",
        "Jeweled Bird",
        "Time Vault",
        "Illusionary Mask",
    ] {
        let basic = matches!(name, "Plains" | "Island");
        cards.push(DatabaseCard {
            face: CardFace {
                name: name.to_string(),
                card_type: CardType {
                    supertypes: if basic { vec![Supertype::Basic] } else { vec![] },
                    core_types: if basic { vec![CoreType::Land] } else { vec![CoreType::Artifact] },
                    subtypes: vec![],
                },
                oracle_text: Some(
                    if name == "Jeweled Bird" {
                        "Remove this card from your deck before playing if you're not playing for ante."
                    } else {
                        "Modern database text."
                    }
                    .to_string(),
                ),
            },
            printings: [
                "LEA", "LEB", "2ED", "ARN", "ATQ", "LEG", "DRK", "SUM", "3ED", "4ED", "CEI",
                "CED", "M30",
            ]
            .iter()
            .map(|set| set.to_string())
            .collect(),
        });
    }
    CardDatabase::from_cards(cards)
}

fn swedish_old_school() -> CustomFormatRules {
    CustomFormatRules {
        id: "swedish_old_school".to_string(),
        legality: FormatLegality {
            legacy: LegacyRuleSet {
                damage_timing: CombatDamageTiming::Modern,
                printing_policy: HistoricalPrintingPolicy::SwedishOriginal,
                card_text: CardTextPolicy::Oracle,
            },
        },
    }
}

fn request() -> DeckCompatibilityRequest {
    DeckCompatibilityRequest {
        main_deck: vec!["Plains".into(); 60],
        selected_format: Some(SelectedFormat::Resolved(Box::new(
            FormatConfig::for_custom_rules(&swedish_old_school()),
        ))),
        player_count: 2,
        ..Default::default()
    }
}

fn printing(card_name: &str, set_code: &str, language: &str) -> HistoricalPrinting {
    HistoricalPrinting {
        card_name: card_name.into(),
        set_code: set_code.into(),
        language: language.into(),
    }
}

fn catalog(entries: &[(&str, HistoricalPrinting)]) -> PrintingCatalog {
    let mut catalog = PrintingCatalog::new();
    for (id, printing) in entries {
        catalog.insert(id.to_string(), printing.clone());
    }
    catalog
}

/// The Swedish Old School name rules: a name-only check refuses any format
/// that still requires selected printings, Classic card text is unsupported,
/// Black Lotus is restricted, ante cards are banned, and decks hold 60 cards.
fn name_gate(request: &DeckCompatibilityRequest) -> Result<(), Vec<String>> {
    let mut errors = Vec::new();
    if let Some(SelectedFormat::Resolved(config)) = &request.selected_format {
        if let Some(rules) = &config.custom_rules {
            if rules.legality.legacy.printing_policy != HistoricalPrintingPolicy::Any {
                errors.push("Selected printing IDs are required for this format".to_string());
            }
            if rules.legality.legacy.card_text == CardTextPolicy::ClassicMagic {
                errors.push("Classic Magic card text is not supported".to_string());
            }
        }
    }
    let all = request.main_deck.iter().chain(&request.sideboard);
    if all.clone().filter(|name| *name == "Black Lotus").count() > 1 {
        errors.push("Black Lotus is restricted".to_string());
    }
    if all.clone().any(|name| name == "Jeweled Bird") {
        errors.push("Jeweled Bird is an ante card".to_string());
    }
    if request.main_deck.len() < 60 {
        errors.push("The main deck needs 60 cards".to_string());
    }
    if errors.is_empty() {
        Ok(())
    } else {
        Err(errors)
    }
}

#[test]
fn swedish_checks_selected_editions_and_language_including_basic_lands() {
    let db = database();
    let request = request();
    let ids = vec!["selected".to_string(); 60];
    for set in ["LEA", "LEB", "2ED", "ARN", "ATQ", "LEG", "DRK", "SUM"] {
        let catalog = catalog(&[("selected", printing("Plains", set, "en"))]);
        assert_eq!(
            validate_deck_with_printings(&db, &request, &ids, &catalog, name_gate),
            Ok(()),
            "{set}"
        );
    }
    // Every card NAME still has an Alpha printing; selecting a reprint must fail.
    for (set, language) in [
        ("3ED", "en"),
        ("4ED", "en"),
        ("CED", "en"),
        ("CEI", "en"),
        ("M30", "en"),
        ("LEG", "it"),
        ("LEA", ""),
        ("", "en"),
    ] {
        let catalog = catalog(&[("selected", printing("Plains", set, language))]);
        assert!(
            validate_deck_with_printings(&db, &request, &ids, &catalog, name_gate).is_err(),
            "{set}/{language}"
        );
    }
}

#[test]
fn selected_printings_must_cover_all_copies_and_match_catalog_identity() {
    let db = database();
    let request = request();
    let ids = vec!["selected".to_string(); 60];
    let mut catalog = catalog(&[("selected", printing("Plains", "LEA", "en"))]);
    assert!(validate_deck_with_printings(&db, &request, &ids[..59], &catalog, name_gate).is_err());
    assert!(validate_deck_with_printings(
        &db,
        &request,
        &vec!["selected".to_string(); 61],
        &catalog,
        name_gate
    )
    .is_err());
    assert!(validate_deck_with_printings(
        &db,
        &request,
        &vec!["missing".to_string(); 60],
        &catalog,
        name_gate
    )
    .is_err());
    catalog.insert("selected".into(), printing("Island", "LEA", "en"));
    assert!(validate_deck_with_printings(&db, &request, &ids, &catalog, name_gate).is_err());
}

#[test]
fn printed_admission_keeps_sideboard_restrictions_ante_and_deck_size_checks() {
    let db = database();
    let catalog = catalog(&[
        ("land", printing("Plains", "LEA", "en")),
        ("lotus", printing("Black Lotus", "LEA", "en")),
        ("bird", printing("Jeweled Bird", "ARN", "en")),
        ("reprint", printing("Black Lotus", "3ED", "en")),
    ]);
    let mut request = request();
    request.sideboard = vec!["Black Lotus".into()];
    let mut ids = vec!["land".to_string(); 60];
    ids.push("lotus".into());
    assert_eq!(
        validate_deck_with_printings(&db, &request, &ids, &catalog, name_gate),
        Ok(())
    );
    ids[60] = "reprint".into();
    assert!(validate_deck_with_printings(&db, &request, &ids, &catalog, name_gate).is_err());
    ids[60] = "lotus".into();
    request.main_deck[0] = "Black Lotus".into();
    ids[0] = "lotus".into();
    assert!(validate_deck_with_printings(&db, &request, &ids, &catalog, name_gate).is_err());
    request.main_deck[0] = "Plains".into();
    ids[0] = "land".into();
    request.sideboard[0] = "Jeweled Bird".into();
    ids[60] = "bird".into();
    assert!(validate_deck_with_printings(&db, &request, &ids, &catalog, name_gate).is_err());
    request.sideboard.clear();
    ids.pop();
    request.main_deck.pop();
    ids.pop();
    assert!(validate_deck_with_printings(&db, &request, &ids, &catalog, name_gate).is_err());
}

#[test]
fn classic_text_is_format_scoped_and_does_not_mutate_database_faces() {
    let db = database();
    let modern = FormatConfig::standard();
    let mut rules = swedish_old_school();
    rules.legality.legacy.card_text = CardTextPolicy::ClassicMagic;
    let classic = FormatConfig::for_custom_rules(&rules);
    for (name, expected) in [
        ("Time Vault", CLASSIC_TIME_VAULT_TEXT),
        ("Illusionary Mask", CLASSIC_ILLUSIONARY_MASK_TEXT),
    ] {
        let face = db.get_face_by_name(name).unwrap();
        assert_eq!(oracle_text_for_format(face, &classic), Some(expected));
        assert_eq!(
            oracle_text_for_format(face, &modern),
            Some("Modern database text.")
        );
        assert_eq!(resolve_card_face_for_format(face, &modern).unwrap(), *face);
        assert!(resolve_card_face_for_format(face, &classic).is_err());
        assert_eq!(face.oracle_text.as_deref(), Some("Modern database text."));
    }
    let plains = db.get_face_by_name("Plains").unwrap();
    assert_eq!(
        oracle_text_for_format(plains, &classic),
        plains.oracle_text.as_deref()
    );
    assert!(CLASSIC_TIME_VAULT_TEXT.contains("Skip your next turn:"));
    assert!(CLASSIC_TIME_VAULT_TEXT.contains("Remove a time counter"));
    assert!(CLASSIC_ILLUSIONARY_MASK_TEXT.contains("0/1"));
    assert!(CLASSIC_ILLUSIONARY_MASK_TEXT.contains("removing all mask counters"));
}

#[test]
fn classic_admission_stays_closed_independently_of_combat_and_printing() {
    let db = database();
    let mut request = request();
    let mut rules = swedish_old_school();
    rules.legality.legacy.card_text = CardTextPolicy::ClassicMagic;
    assert_eq!(rules.legality.legacy.damage_timing, CombatDamageTiming::Modern);
    let config = FormatConfig::for_custom_rules(&rules);
    request.selected_format = Some(SelectedFormat::Resolved(Box::new(config)));
    let ids = vec!["land".to_string(); 60];
    let catalog = catalog(&[("land", printing("Plains", "LEA", "en"))]);
    assert!(name_gate(&request).is_err());
    assert!(validate_deck_with_printings(&db, &request, &ids, &catalog, name_gate).is_err());
}

#[test]
fn old_payload_defaults_and_swedish_registry_withholding_are_preserved() {
    let legacy = LegacyRuleSet::default();
    assert_eq!(legacy.printing_policy, HistoricalPrintingPolicy::Any);
    assert_eq!(legacy.card_text, CardTextPolicy::Oracle);
    let preset = swedish_old_school();
    let config = FormatConfig::for_custom_rules(&preset);
    assert_eq!(config.clone(), config);
    assert_eq!(config.custom_rules.as_ref(), Some(&preset));
}

// ---- further checks of the admission contract ----

#[test]
fn printing_errors_are_reported_per_copy_in_order() {
    let db = database();
    let mut request = request();
    request.main_deck = vec!["Plains".into(), "Island".into(), "Black Lotus".into()];
    request.companion = Some("Time Vault".into());
    let catalog = catalog(&[
        ("ok", printing("Plains", "lea", "EN")),
        ("wrong-card", printing("Plains", "LEA", "en")),
        ("reprint", printing("Black Lotus", "4ED", "en")),
    ]);
    let ids: Vec<String> = ["ok", "wrong-card", "reprint", "gone"]
        .iter()
        .map(|id| id.to_string())
        .collect();
    let called = RefCell::new(false);
    let gate = |_: &DeckCompatibilityRequest| {
        *called.borrow_mut() = true;
        Ok(())
    };
    assert_eq!(
        validate_deck_with_printings(&db, &request, &ids, &catalog, gate),
        Err(vec![
            "Illegal selected printing wrong-card for Island".to_string(),
            "Illegal selected printing reprint for Black Lotus".to_string(),
            "Unknown selected printing: gone".to_string(),
        ])
    );
    assert!(!*called.borrow(), "the name checks never see an unproven deck");
}

#[test]
fn count_mismatch_is_a_single_error() {
    let db = database();
    let request = request();
    let catalog = catalog(&[("selected", printing("Plains", "LEA", "en"))]);
    assert_eq!(
        validate_deck_with_printings(&db, &request, &[], &catalog, name_gate),
        Err(vec![PRINTING_COUNT_MISMATCH.to_string()])
    );
}

#[test]
fn proven_printings_reach_the_name_checks_with_only_the_printing_rule_discharged() {
    let db = database();
    let mut request = request();
    request.sideboard = vec!["Island".into()];
    let catalog = catalog(&[
        ("land", printing("Plains", "LEA", "en")),
        ("island", printing("Island", "SUM", "en")),
    ]);
    let mut ids = vec!["land".to_string(); 60];
    ids.push("island".into());
    let seen = RefCell::new(None);
    let gate = |checked: &DeckCompatibilityRequest| {
        *seen.borrow_mut() = Some(checked.clone());
        Err(vec!["name check".to_string()])
    };
    assert_eq!(
        validate_deck_with_printings(&db, &request, &ids, &catalog, gate),
        Err(vec!["name check".to_string()])
    );
    let checked = seen.into_inner().unwrap();
    assert_eq!(checked.main_deck, request.main_deck);
    assert_eq!(checked.sideboard, request.sideboard);
    let Some(SelectedFormat::Resolved(config)) = &checked.selected_format else {
        panic!("format kept")
    };
    let rules = config.custom_rules.as_ref().unwrap();
    assert_eq!(rules.id, "swedish_old_school");
    assert_eq!(rules.legality.legacy.printing_policy, HistoricalPrintingPolicy::Any);
    assert_eq!(rules.legality.legacy.card_text, CardTextPolicy::Oracle);
    // The caller's request keeps its printing requirement.
    let Some(SelectedFormat::Resolved(original)) = &request.selected_format else {
        panic!("format kept")
    };
    assert_eq!(
        original.custom_rules.as_ref().unwrap().legality.legacy.printing_policy,
        HistoricalPrintingPolicy::SwedishOriginal
    );
}

#[test]
fn formats_without_a_printing_rule_go_straight_to_the_name_checks() {
    let db = database();
    let mut request = request();
    request.selected_format = Some(SelectedFormat::Resolved(Box::new(FormatConfig::standard())));
    let empty = PrintingCatalog::new();
    assert_eq!(validate_deck_with_printings(&db, &request, &[], &empty, name_gate), Ok(()));
    request.selected_format = None;
    assert_eq!(
        validate_deck_with_printings(&db, &request, &[], &empty, |_: &DeckCompatibilityRequest| Err(
            vec!["no format".to_string()]
        )),
        Err(vec!["no format".to_string()])
    );
}

#[test]
fn classic_faces_fail_closed_with_the_reason() {
    let db = database();
    let mut rules = swedish_old_school();
    rules.legality.legacy.card_text = CardTextPolicy::ClassicMagic;
    let classic = FormatConfig::for_custom_rules(&rules);
    let plains = db.get_face_by_name("plains").unwrap();
    assert_eq!(
        resolve_card_face_for_format(plains, &classic),
        Err(CLASSIC_CARD_TEXT_UNAVAILABLE)
    );
    let bird = db.get_face_by_name("JEWELED BIRD").unwrap();
    assert_eq!(bird.name, "Jeweled Bird");
    assert!(db.get_face_by_name("Mox Pearl").is_none());
    assert_eq!(db.printings_for("island").unwrap().len(), 13);
    let nameless = CardFace {
        name: "Time Vault".to_string(),
        card_type: CardType { supertypes: vec![], core_types: vec![], subtypes: vec![] },
        oracle_text: None,
    };
    assert_eq!(oracle_text_for_format(&nameless, &FormatConfig::standard()), None);
    assert_eq!(oracle_text_for_format(&nameless, &classic), Some(CLASSIC_TIME_VAULT_TEXT));
}
