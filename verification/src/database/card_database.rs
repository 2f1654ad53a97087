//! The card database: card faces with the editions each card was printed in.
//! Names are looked up ignoring ASCII case; the first matching card wins.

use vstd::prelude::*;
use crate::text::{eq_ignore_ascii_case, str_eq_ignore_ascii_case};
use crate::types::card::CardFace;

verus! {

/// A card known to the database and the set codes of its printings.
pub struct DatabaseCard {
    pub face: CardFace,
    pub printings: Vec<String>,
}

/// The card database.
pub struct CardDatabase {
    pub cards: Vec<DatabaseCard>,
}

/// A card answers to a name when the names agree up to ASCII case.
pub open spec fn answers_to(card: DatabaseCard, name: Seq<char>) -> bool {
    eq_ignore_ascii_case(card.face.name@, name)
}

/// `i` is the first card that answers to `name`.
pub open spec fn is_first_answer(cards: Seq<DatabaseCard>, name: Seq<char>, i: int) -> bool {
    &&& 0 <= i < cards.len()
    &&& answers_to(cards[i], name)
    &&& forall|j: int| 0 <= j < i ==> !answers_to(#[trigger] cards[j], name)
}

/// The card a name looks up, if any.
pub open spec fn lookup_card(cards: Seq<DatabaseCard>, name: Seq<char>) -> Option<DatabaseCard> {
    if exists|i: int| is_first_answer(cards, name, i) {
        Some(cards[choose|i: int| is_first_answer(cards, name, i)])
    } else {
        None
    }
}

proof fn lemma_first_answer_unique(cards: Seq<DatabaseCard>, name: Seq<char>, i: int, k: int)
    requires
        is_first_answer(cards, name, i),
        is_first_answer(cards, name, k),
    ensures
        i == k,
{
    if i < k {
        assert(!answers_to(cards[i], name));
    } else if k < i {
        assert(!answers_to(cards[k], name));
    }
}

impl CardDatabase {
    /// The face a name looks up.
    pub open spec fn face_named(self, name: Seq<char>) -> Option<CardFace> {
        match lookup_card(self.cards@, name) {
            Some(card) => Some(card.face),
            None => None,
        }
    }

    /// The printings of the card a name looks up.
    pub open spec fn printings_named(self, name: Seq<char>) -> Option<Seq<String>> {
        match lookup_card(self.cards@, name) {
            Some(card) => Some(card.printings@),
            None => None,
        }
    }

    /// A database holding exactly the given cards, in order.
    pub fn from_cards(cards: Vec<DatabaseCard>) -> (r: CardDatabase)
        ensures
            r.cards@ == cards@,
    {
        CardDatabase { cards }
    }

    fn find(&self, name: &str) -> (r: Option<usize>)
        ensures
            match r {
                Some(i) => is_first_answer(self.cards@, name@, i as int) && lookup_card(
                    self.cards@,
                    name@,
                ) == Some(self.cards@[i as int]),
                None => lookup_card(self.cards@, name@) is None,
            },
    {
        let mut i: usize = 0;
        while i < self.cards.len()
            invariant
                i <= self.cards.len(),
                forall|j: int| 0 <= j < i ==> !answers_to(#[trigger] self.cards@[j], name@),
            decreases self.cards.len() - i,
        {
            if str_eq_ignore_ascii_case(self.cards[i].face.name.as_str(), name) {
                proof {
                    assert(is_first_answer(self.cards@, name@, i as int));
                    let k = choose|k: int| is_first_answer(self.cards@, name@, k);
                    lemma_first_answer_unique(self.cards@, name@, i as int, k);
                }
                return Some(i);
            }
            i = i + 1;
        }
        proof {
            assert forall|k: int| !is_first_answer(self.cards@, name@, k) by {
                if 0 <= k < self.cards@.len() {
                    assert(!answers_to(self.cards@[k], name@));
                }
            }
        }
        None
    }

    /// The face a name looks up, ignoring ASCII case.
    pub fn get_face_by_name(&self, name: &str) -> (r: Option<&CardFace>)
        ensures
            match r {
                Some(f) => self.face_named(name@) == Some(*f),
                None => self.face_named(name@) is None,
            },
    {
        match self.find(name) {
            Some(i) => Some(&self.cards[i].face),
            None => None,
        }
    }

    /// The set codes the card a name looks up was printed in.
    pub fn printings_for(&self, name: &str) -> (r: Option<&Vec<String>>)
        ensures
            match r {
                Some(p) => self.printings_named(name@) == Some(p@),
                None => self.printings_named(name@) is None,
            },
    {
        match self.find(name) {
            Some(i) => Some(&self.cards[i].printings),
            None => None,
        }
    }
}

} // verus!
