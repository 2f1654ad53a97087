//! The deck-check request.

use vstd::prelude::*;
use crate::owned::{append_opt_string, append_strings};
use crate::types::format::SelectedFormat;

verus! {

/// A submitted deck and the format it should be checked against.
#[derive(Clone, Debug)]
pub struct DeckCompatibilityRequest {
    pub main_deck: Vec<String>,
    pub sideboard: Vec<String>,
    pub commander: Vec<String>,
    pub companion: Option<String>,
    pub signature_spell: Option<String>,
    pub planar_deck: Vec<String>,
    pub scheme_deck: Vec<String>,
    pub selected_format: Option<SelectedFormat>,
    pub player_count: u8,
    pub summary_only: bool,
}

/// A one-element sequence for a present value, empty otherwise.
pub open spec fn optional_copy(o: Option<String>) -> Seq<String> {
    match o {
        Some(s) => seq![s],
        None => Seq::empty(),
    }
}

impl DeckCompatibilityRequest {
    /// Every submitted card copy in order: main deck, sideboard, commander,
    /// companion, signature spell, planar deck, scheme deck.
    pub open spec fn submitted_copies(self) -> Seq<String> {
        self.main_deck@ + self.sideboard@ + self.commander@ + optional_copy(self.companion)
            + optional_copy(self.signature_spell) + self.planar_deck@ + self.scheme_deck@
    }

    /// The names of every submitted card copy, in `submitted_copies` order.
    pub fn submitted_copy_names(&self) -> (r: Vec<String>)
        ensures
            r@ == self.submitted_copies(),
    {
        let mut r: Vec<String> = Vec::new();
        append_strings(&mut r, &self.main_deck);
        append_strings(&mut r, &self.sideboard);
        append_strings(&mut r, &self.commander);
        append_opt_string(&mut r, &self.companion);
        append_opt_string(&mut r, &self.signature_spell);
        append_strings(&mut r, &self.planar_deck);
        append_strings(&mut r, &self.scheme_deck);
        assert(r@ =~= self.submitted_copies());
        r
    }
}

impl Default for DeckCompatibilityRequest {
    /// An empty two-player request with no selected format.
    fn default() -> (r: Self)
        ensures
            r.submitted_copies().len() == 0,
            r.selected_format is None,
            r.player_count == 2,
            !r.summary_only,
    {
        let r = DeckCompatibilityRequest {
            main_deck: Vec::new(),
            sideboard: Vec::new(),
            commander: Vec::new(),
            companion: None,
            signature_spell: None,
            planar_deck: Vec::new(),
            scheme_deck: Vec::new(),
            selected_format: None,
            player_count: 2,
            summary_only: false,
        };
        assert(r.submitted_copies().len() == 0);
        r
    }
}

} // verus!
