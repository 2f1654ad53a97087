//! Custom-format rule sets, including the historical (legacy) rule axes.

use vstd::prelude::*;

verus! {

/// Which card text a format plays with.
#[derive(Clone, Copy, Debug, PartialEq, Eq, Hash, Structural)]
pub enum CardTextPolicy {
    /// The database's current Oracle text.
    Oracle,
    /// The Classic Magic wording for Time Vault and Illusionary Mask.
    ClassicMagic,
}

/// Which printings of a card a format admits.
#[derive(Clone, Copy, Debug, PartialEq, Eq, Hash, Structural)]
pub enum HistoricalPrintingPolicy {
    /// Any printing of a legal card name.
    Any,
    /// Swedish Old School: English printings from the eight original editions.
    SwedishOriginal,
}

/// When combat damage is dealt.
#[derive(Clone, Copy, Debug, PartialEq, Eq, Hash, Structural)]
pub enum CombatDamageTiming {
    /// Damage is dealt immediately (current rules).
    Modern,
    /// Damage goes on the stack as one object (pre-M10 rules).
    OnStack,
}

/// The historical rule axes of a custom format.
#[derive(Clone, Copy, Debug, PartialEq, Eq, Hash, Structural)]
pub struct LegacyRuleSet {
    pub damage_timing: CombatDamageTiming,
    pub printing_policy: HistoricalPrintingPolicy,
    pub card_text: CardTextPolicy,
}

impl Default for LegacyRuleSet {
    /// Modern damage, any printing, Oracle text: what an old payload without
    /// the newer fields means.
    fn default() -> (r: Self)
        ensures
            r.damage_timing == CombatDamageTiming::Modern,
            r.printing_policy == HistoricalPrintingPolicy::Any,
            r.card_text == CardTextPolicy::Oracle,
    {
        LegacyRuleSet {
            damage_timing: CombatDamageTiming::Modern,
            printing_policy: HistoricalPrintingPolicy::Any,
            card_text: CardTextPolicy::Oracle,
        }
    }
}

/// The legality section of a custom format.
#[derive(Clone, Copy, Debug, PartialEq, Eq, Hash, Structural)]
pub struct FormatLegality {
    pub legacy: LegacyRuleSet,
}

/// A custom format's rules.
#[derive(Debug, PartialEq, Eq)]
pub struct CustomFormatRules {
    pub id: String,
    pub legality: FormatLegality,
}

impl Clone for CustomFormatRules {
    fn clone(&self) -> (r: Self)
        ensures
            r == *self,
    {
        CustomFormatRules { id: self.id.clone(), legality: self.legality }
    }
}

} // verus!
