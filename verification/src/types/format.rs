//! The configuration a game or deck check runs under.

use vstd::prelude::*;
use crate::types::custom_format::CustomFormatRules;

verus! {

/// A format's configuration; `custom_rules` is present for custom formats.
#[derive(Debug, PartialEq, Eq)]
pub struct FormatConfig {
    pub custom_rules: Option<CustomFormatRules>,
}

impl FormatConfig {
    /// A built-in format with no custom rules.
    pub fn standard() -> (r: FormatConfig)
        ensures
            r.custom_rules is None,
    {
        FormatConfig { custom_rules: None }
    }

    /// The configuration of a custom format with the given rules.
    pub fn for_custom_rules(rules: &CustomFormatRules) -> (r: FormatConfig)
        ensures
            r.custom_rules == Some(*rules),
    {
        FormatConfig { custom_rules: Some(rules.clone()) }
    }
}

impl Clone for FormatConfig {
    fn clone(&self) -> (r: Self)
        ensures
            r == *self,
    {
        match &self.custom_rules {
            Some(rules) => FormatConfig { custom_rules: Some(rules.clone()) },
            None => FormatConfig { custom_rules: None },
        }
    }
}

/// The format a deck check was asked about.
#[derive(Clone, Debug, PartialEq, Eq)]
pub enum SelectedFormat {
    /// A fully resolved configuration.
    Resolved(Box<FormatConfig>),
}

} // verus!
