//! Format-scoped historical text. Authored text is kept apart from a runnable
//! card face: changing the Oracle text alone would leave modern compiled
//! abilities in place and is not a valid rules override.

use vstd::prelude::*;
use crate::text::str_eq;
use crate::types::card::{CardFace, CardFaceView};
use crate::types::custom_format::CardTextPolicy;
use crate::types::format::FormatConfig;

verus! {

pub const CLASSIC_MAGIC_TEXT_SOURCE: &'static str = "https://raw.githubusercontent.com/northern-information/lordsofthepit.com/main/src/pages/formats.md";

/// Published Classic Magic text, retaining the source's pre-modern terminology.
pub const CLASSIC_TIME_VAULT_TEXT: &'static str = "Time Vault comes into play tapped. Time Vault doesn’t untap during your untap step.\nSkip your next turn: Untap Time Vault and put a time counter on it.\nT, Remove a time counter from Time Vault: Take an extra turn after this one. Play this ability if only there’s a time counter on Time Vault.";

pub const CLASSIC_ILLUSIONARY_MASK_TEXT: &'static str = "X: Put a creature card with converted mana cost X or less from your hand into play face down as a 0/1 creature. Put X mask counters on that creature. Play this ability only any time you could play a sorcery. You may turn the creature face up any time you could play an instant by removing all mask counters from it.";

/// Why a Classic Magic format cannot load playable faces yet.
pub const CLASSIC_CARD_TEXT_UNAVAILABLE: &'static str = "Classic Magic card text is unavailable: Time Vault needs a skip-turn activation cost; Illusionary Mask needs 0/1 mask-counter face-down and instant-timing face-up actions";

/// The card-text policy of a format: its custom rules' setting, or Oracle
/// text when it has no custom rules.
pub open spec fn format_text_policy(config: FormatConfig) -> CardTextPolicy {
    match config.custom_rules {
        Some(rules) => rules.legality.legacy.card_text,
        None => CardTextPolicy::Oracle,
    }
}

/// The Classic Magic wording for the two cards that have one.
pub open spec fn classic_text_override(name: Seq<char>) -> Option<Seq<char>> {
    if name == "Time Vault"@ {
        Some(CLASSIC_TIME_VAULT_TEXT@)
    } else if name == "Illusionary Mask"@ {
        Some(CLASSIC_ILLUSIONARY_MASK_TEXT@)
    } else {
        None
    }
}

/// The text a face shows under a format: the Classic wording where the
/// format asks for it and one exists, the face's own Oracle text otherwise.
pub open spec fn format_oracle_text(face: CardFaceView, config: FormatConfig) -> Option<Seq<char>> {
    if format_text_policy(config) == CardTextPolicy::ClassicMagic && classic_text_override(
        face.name,
    ) is Some {
        classic_text_override(face.name)
    } else {
        face.oracle_text
    }
}

/// The view of an optional string slice.
pub open spec fn opt_str_view(t: Option<&str>) -> Option<Seq<char>> {
    match t {
        Some(s) => Some(s@),
        None => None,
    }
}

/// Resolve authoring/display text without changing the shared Oracle database.
/// This is not a compiled-ability resolver: callers loading playable faces must
/// use `resolve_card_face_for_format` and handle its unsupported-policy error.
pub fn oracle_text_for_format<'a>(face: &'a CardFace, config: &FormatConfig) -> (r: Option<&'a str>)
    ensures
        opt_str_view(r) == format_oracle_text(face@, *config),
        (config.custom_rules is None || config.custom_rules->0.legality.legacy.card_text
            == CardTextPolicy::Oracle) ==> opt_str_view(r) == face@.oracle_text,
{
    if text_policy(config) == CardTextPolicy::ClassicMagic {
        if str_eq(face.name.as_str(), "Time Vault") {
            return Some(CLASSIC_TIME_VAULT_TEXT);
        }
        if str_eq(face.name.as_str(), "Illusionary Mask") {
            return Some(CLASSIC_ILLUSIONARY_MASK_TEXT);
        }
    }
    match &face.oracle_text {
        Some(text) => Some(text.as_str()),
        None => None,
    }
}

fn text_policy(config: &FormatConfig) -> (r: CardTextPolicy)
    ensures
        r == format_text_policy(*config),
{
    match &config.custom_rules {
        Some(rules) => rules.legality.legacy.card_text,
        None => CardTextPolicy::Oracle,
    }
}

/// Fail closed until both authentic overrides have executable runtime support.
/// Returning a face with historical text and modern compiled abilities would
/// falsely admit a playable Classic deck. The policy gate applies even to a
/// deck without these two cards: runtime copies may introduce them.
pub fn resolve_card_face_for_format(face: &CardFace, config: &FormatConfig) -> (r: Result<
    CardFace,
    &'static str,
>)
    ensures
        format_text_policy(*config) == CardTextPolicy::Oracle ==> (r matches Ok(f) && f@ == face@),
        format_text_policy(*config) == CardTextPolicy::ClassicMagic ==> (r matches Err(m) && m@
            == CLASSIC_CARD_TEXT_UNAVAILABLE@),
        (config.custom_rules is None || config.custom_rules->0.legality.legacy.card_text
            == CardTextPolicy::Oracle) ==> (r matches Ok(f) && f@ == face@),
        (config.custom_rules is Some && config.custom_rules->0.legality.legacy.card_text
            == CardTextPolicy::ClassicMagic) ==> r is Err,
{
    match text_policy(config) {
        CardTextPolicy::Oracle => Ok(face.clone()),
        CardTextPolicy::ClassicMagic => Err(CLASSIC_CARD_TEXT_UNAVAILABLE),
    }
}

/// Card text is format-scoped: Oracle-text formats show every face's own
/// text, and even a Classic Magic format shows its own text for every card
/// other than Time Vault and Illusionary Mask.
pub proof fn lemma_card_text_is_format_scoped(face: CardFaceView, config: FormatConfig)
    ensures
        format_text_policy(config) == CardTextPolicy::Oracle ==> format_oracle_text(face, config)
            == face.oracle_text,
        classic_text_override(face.name) is None ==> format_oracle_text(face, config)
            == face.oracle_text,
{
}

/// A format plays Classic Magic text exactly when its custom rules say so:
/// with no custom rules, or custom rules whose card text is Oracle, every
/// face (Time Vault and Illusionary Mask included) shows its own Oracle text.
/// When the rules do say Classic Magic, Time Vault shows the Classic wording,
/// and every card other than Time Vault and Illusionary Mask still shows its
/// own text.
pub proof fn lemma_card_text_follows_the_rules_setting(face: CardFaceView, config: FormatConfig)
    ensures
        (config.custom_rules is None || config.custom_rules->0.legality.legacy.card_text
            == CardTextPolicy::Oracle) ==> format_oracle_text(face, config) == face.oracle_text,
        (config.custom_rules is Some && config.custom_rules->0.legality.legacy.card_text
            == CardTextPolicy::ClassicMagic && face.name == "Time Vault"@) ==> format_oracle_text(
            face,
            config,
        ) == Some(CLASSIC_TIME_VAULT_TEXT@),
        (face.name != "Time Vault"@ && face.name != "Illusionary Mask"@) ==> format_oracle_text(
            face,
            config,
        ) == face.oracle_text,
{
}

} // verus!
