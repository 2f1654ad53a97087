//! Card faces as the database stores them.

use vstd::prelude::*;
use crate::owned::{clone_opt_string, clone_strings, copy_vec, opt_string_view, strings_view};
use crate::types::card_type::{CardType, CoreType, Supertype};

verus! {

/// One face of a card: its name, type line and printed (Oracle) text.
#[derive(Debug, PartialEq, Eq)]
pub struct CardFace {
    pub name: String,
    pub card_type: CardType,
    pub oracle_text: Option<String>,
}

/// What a card face says, as mathematical sequences.
pub struct CardFaceView {
    pub name: Seq<char>,
    pub supertypes: Seq<Supertype>,
    pub core_types: Seq<CoreType>,
    pub subtypes: Seq<Seq<char>>,
    pub oracle_text: Option<Seq<char>>,
}

impl View for CardFace {
    type V = CardFaceView;

    open spec fn view(&self) -> CardFaceView {
        CardFaceView {
            name: self.name@,
            supertypes: self.card_type.supertypes@,
            core_types: self.card_type.core_types@,
            subtypes: strings_view(self.card_type.subtypes@),
            oracle_text: opt_string_view(self.oracle_text),
        }
    }
}

impl Clone for CardFace {
    fn clone(&self) -> (r: Self)
        ensures
            r@ == self@,
    {
        let r = CardFace {
            name: self.name.clone(),
            card_type: CardType {
                supertypes: copy_vec(&self.card_type.supertypes),
                core_types: copy_vec(&self.card_type.core_types),
                subtypes: clone_strings(&self.card_type.subtypes),
            },
            oracle_text: clone_opt_string(&self.oracle_text),
        };
        assert(r@.subtypes =~= self@.subtypes);
        r
    }
}

} // verus!
