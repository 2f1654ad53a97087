//! CR 905: Conspiracy Draft — conspiracy cards in the command zone, including
//! hidden agenda (CR 905.4a + CR 702.106).
//!
//! Conspiracy cards are nontraditional cards that exist only in the command
//! zone. At the start of the game each player may put any number of
//! conspiracy cards from their sideboard into the command zone (CR 905.4);
//! their owner is their controller (CR 905.5). A face-up conspiracy's
//! abilities function from the command zone ([`functions_from_command_zone`]).
//!
//! Hidden agenda (CR 905.4a + CR 702.106): a conspiracy with hidden agenda is
//! put into the command zone face down; any time its controller has priority
//! they may turn it face up ([`turn_hidden_agenda_face_up`]). While face down
//! it is not yet functioning.

use vstd::prelude::*;
use crate::game::game_object::GameObject;
use crate::game::layers::mark_layers_full;
use crate::text::{
    chars_of, eq_ignore_ascii_case, first_line_len, fold_char, is_unicode_whitespace,
    is_whitespace, lemma_first_line_len, lemma_trim_end, lemma_trim_start,
    starts_with_ignore_ascii_case, str_eq_ignore_ascii_case, trim,
};
use crate::types::ability::ChosenAttribute;
use crate::types::card::CardFace;
use crate::types::card_type::CoreType;
use crate::types::game_state::{GameState, GameStateView};
use crate::types::identifiers::ObjectId;
use crate::types::player::PlayerId;
use crate::types::zones::Zone;
use std::collections::VecDeque;

verus! {

broadcast use vstd::std_specs::hash::group_hash_axioms;

/// CR 905: the object has the conspiracy card type.
pub open spec fn object_is_conspiracy(obj: GameObject) -> bool {
    obj.card_types.core_types@.contains(CoreType::Conspiracy)
}

/// CR 905: True when the object is a conspiracy card.
pub fn is_conspiracy(obj: &GameObject) -> (r: bool)
    ensures
        r == object_is_conspiracy(*obj),
{
    let types = &obj.card_types.core_types;
    let mut i: usize = 0;
    while i < types.len()
        invariant
            types@ == obj.card_types.core_types@,
            i <= types.len(),
            forall|j: int| 0 <= j < i ==> types@[j] != CoreType::Conspiracy,
        decreases types.len() - i,
    {
        if types[i] == CoreType::Conspiracy {
            assert(types@[i as int] == CoreType::Conspiracy);
            return true;
        }
        i = i + 1;
    }
    false
}

/// The keyword "hidden agenda" (matched ignoring ASCII case).
pub open spec fn hidden_agenda_tag() -> Seq<char> {
    seq!['h', 'i', 'd', 'd', 'e', 'n', ' ', 'a', 'g', 'e', 'n', 'd', 'a']
}

/// The keyword "double agenda" (matched ignoring ASCII case).
pub open spec fn double_agenda_tag() -> Seq<char> {
    seq!['d', 'o', 'u', 'b', 'l', 'e', ' ', 'a', 'g', 'e', 'n', 'd', 'a']
}

/// What may follow the keyword: nothing, a space, or reminder text.
pub open spec fn agenda_boundary(rest: Seq<char>) -> bool {
    rest.len() == 0 || rest[0] == ' ' || rest[0] == '('
}

/// The agenda count one line announces: 1 for a line that starts with
/// "hidden agenda", 2 for "double agenda" (ASCII case ignored, surrounding
/// whitespace trimmed), when the keyword ends at a boundary; 0 otherwise.
pub open spec fn line_agenda_count(line: Seq<char>) -> usize {
    let t = trim(line);
    if starts_with_ignore_ascii_case(t, hidden_agenda_tag()) {
        if agenda_boundary(t.skip(13)) {
            1
        } else {
            0
        }
    } else if starts_with_ignore_ascii_case(t, double_agenda_tag()) {
        if agenda_boundary(t.skip(13)) {
            2
        } else {
            0
        }
    } else {
        0
    }
}

pub proof fn lemma_first_line_len_bound(s: Seq<char>)
    ensures
        first_line_len(s) <= s.len(),
        first_line_len(s) < s.len() ==> s[first_line_len(s) as int] == '\n',
        forall|j: int| 0 <= j < first_line_len(s) ==> #[trigger] s[j] != '\n',
    decreases s.len(),
{
    if s.len() > 0 && s[0] != '\n' {
        lemma_first_line_len_bound(s.drop_first());
        assert forall|j: int| 0 <= j < first_line_len(s) implies #[trigger] s[j] != '\n' by {
            if j > 0 {
                assert(s[j] == s.drop_first()[j - 1]);
            }
        }
    }
}

/// CR 702.106a/f: the count the first announcing line of the text gives,
/// lines being split at `\n`; 0 when no line announces an agenda.
pub open spec fn text_agenda_count(text: Seq<char>) -> usize
    decreases text.len(),
{
    let n = first_line_len(text);
    if line_agenda_count(text.take(n as int)) != 0 {
        line_agenda_count(text.take(n as int))
    } else if n < text.len() {
        proof {
            lemma_first_line_len_bound(text);
        }
        text_agenda_count(text.skip(n + 1 as int))
    } else {
        0
    }
}

/// The agenda count of a face: from its Oracle text, 0 without one.
pub open spec fn face_agenda_count(face: CardFace) -> usize {
    match face.oracle_text {
        Some(text) => text_agenda_count(text@),
        None => 0,
    }
}

fn hidden_tag() -> (r: Vec<char>)
    ensures
        r@ == hidden_agenda_tag(),
{
    let r = vec!['h', 'i', 'd', 'd', 'e', 'n', ' ', 'a', 'g', 'e', 'n', 'd', 'a'];
    assert(r@ =~= hidden_agenda_tag());
    r
}

fn double_tag() -> (r: Vec<char>)
    ensures
        r@ == double_agenda_tag(),
{
    let r = vec!['d', 'o', 'u', 'b', 'l', 'e', ' ', 'a', 'g', 'e', 'n', 'd', 'a'];
    assert(r@ =~= double_agenda_tag());
    r
}

fn tag_at(chars: &Vec<char>, lo: usize, hi: usize, tag: &Vec<char>) -> (r: bool)
    requires
        lo <= hi <= chars.len(),
    ensures
        r == starts_with_ignore_ascii_case(chars@.subrange(lo as int, hi as int), tag@),
{
    let ghost t = chars@.subrange(lo as int, hi as int);
    if hi - lo < tag.len() {
        return false;
    }
    let mut j: usize = 0;
    while j < tag.len()
        invariant
            lo <= hi <= chars.len(),
            tag.len() <= hi - lo,
            j <= tag.len(),
            t == chars@.subrange(lo as int, hi as int),
            forall|k: int|
                0 <= k < j ==> #[trigger] crate::text::ascii_fold(t.take(tag.len() as int)[k])
                    == crate::text::ascii_fold(tag@[k]),
        decreases tag.len() - j,
    {
        if fold_char(chars[lo + j]) != fold_char(tag[j]) {
            assert(crate::text::ascii_fold(t.take(tag.len() as int)[j as int])
                != crate::text::ascii_fold(tag@[j as int]));
            return false;
        }
        j = j + 1;
    }
    true
}

fn boundary_at(chars: &Vec<char>, pos: usize, hi: usize) -> (r: bool)
    requires
        pos <= hi <= chars.len(),
    ensures
        r == agenda_boundary(chars@.subrange(pos as int, hi as int)),
{
    pos == hi || chars[pos] == ' ' || chars[pos] == '('
}

fn line_count(chars: &Vec<char>, start: usize, end: usize) -> (r: usize)
    requires
        start <= end <= chars.len(),
    ensures
        r == line_agenda_count(chars@.subrange(start as int, end as int)),
{
    let ghost line = chars@.subrange(start as int, end as int);
    let mut lo = start;
    while lo < end && is_whitespace(chars[lo])
        invariant
            start <= lo <= end <= chars.len(),
            forall|j: int| start <= j < lo ==> is_unicode_whitespace(#[trigger] chars@[j]),
        decreases end - lo,
    {
        lo = lo + 1;
    }
    let mut hi = end;
    while hi > lo && is_whitespace(chars[hi - 1])
        invariant
            start <= lo <= hi <= end <= chars.len(),
            forall|j: int| hi <= j < end ==> is_unicode_whitespace(#[trigger] chars@[j]),
        decreases hi - lo,
    {
        hi = hi - 1;
    }
    proof {
        lemma_trim_start(line, lo - start);
        assert(line.skip(lo - start) =~= chars@.subrange(lo as int, end as int));
        let rest = chars@.subrange(lo as int, end as int);
        lemma_trim_end(rest, hi - lo);
        assert(rest.take(hi - lo) =~= chars@.subrange(lo as int, hi as int));
    }
    let ghost t = chars@.subrange(lo as int, hi as int);
    assert(trim(line) == t);
    let hidden = hidden_tag();
    if tag_at(chars, lo, hi, &hidden) {
        assert(t.skip(13) =~= chars@.subrange(lo + 13, hi as int));
        if boundary_at(chars, lo + 13, hi) {
            return 1;
        } else {
            return 0;
        }
    }
    let double = double_tag();
    if tag_at(chars, lo, hi, &double) {
        assert(t.skip(13) =~= chars@.subrange(lo + 13, hi as int));
        if boundary_at(chars, lo + 13, hi) {
            return 2;
        } else {
            return 0;
        }
    }
    0
}

fn text_count(text: &str) -> (r: usize)
    ensures
        r == text_agenda_count(text@),
{
    let chars = chars_of(text);
    let n = chars.len();
    let mut start: usize = 0;
    assert(chars@.skip(0) =~= chars@);
    loop
        invariant
            n == chars.len(),
            chars@ == text@,
            start <= n,
            text_agenda_count(chars@) == text_agenda_count(chars@.skip(start as int)),
        decreases n - start,
    {
        let mut end = start;
        while end < n && chars[end] != '\n'
            invariant
                n == chars.len(),
                start <= end <= n,
                forall|j: int| start <= j < end ==> #[trigger] chars@[j] != '\n',
            decreases n - end,
        {
            end = end + 1;
        }
        let ghost suffix = chars@.skip(start as int);
        proof {
            assert forall|j: int| 0 <= j < end - start implies #[trigger] suffix[j] != '\n' by {
                assert(suffix[j] == chars@[start + j]);
            }
            lemma_first_line_len(suffix, end - start);
            assert(suffix.take(end - start) =~= chars@.subrange(start as int, end as int));
        }
        let c = line_count(&chars, start, end);
        if c != 0 {
            return c;
        }
        if end == n {
            return 0;
        }
        proof {
            assert(suffix.skip(end - start + 1) =~= chars@.skip(end + 1));
        }
        start = end + 1;
    }
}

/// CR 702.106a/f: Hidden agenda names one card; double agenda names two.
/// Reads the first Oracle-text line that starts with either keyword.
pub fn agenda_name_count(face: &CardFace) -> (r: usize)
    ensures
        r == face_agenda_count(*face),
{
    match &face.oracle_text {
        Some(text) => text_count(text.as_str()),
        None => 0,
    }
}

/// CR 702.106a: True when the conspiracy card has the hidden-agenda keyword
/// (double agenda, CR 702.106f, included), which makes it start the game face
/// down (CR 905.4a).
pub fn has_hidden_agenda(face: &CardFace) -> (r: bool)
    ensures
        r == (face_agenda_count(*face) != 0),
{
    agenda_name_count(face) != 0
}

/// CR 905.4 + CR 113.6b: a conspiracy face up in the command zone functions
/// from there.
pub open spec fn functions_in_command_zone(obj: GameObject) -> bool {
    obj.zone == Zone::Command && !obj.face_down && object_is_conspiracy(obj)
}

/// CR 905.4 + CR 113.6b: True when this object is a conspiracy that is
/// currently functioning from the command zone, i.e. face up there. A
/// face-down (hidden agenda, CR 905.4a) conspiracy does not yet function.
pub fn functions_from_command_zone(obj: &GameObject) -> (r: bool)
    ensures
        r == functions_in_command_zone(*obj),
        r <==> (obj.zone == Zone::Command && !obj.face_down
            && obj.card_types.core_types@.contains(CoreType::Conspiracy)),
{
    obj.zone == Zone::Command && !obj.face_down && is_conspiracy(obj)
}

/// The object stored under `id` is a functioning conspiracy owned by `player`.
pub open spec fn is_functioning_conspiracy_of(
    objects: Map<u64, GameObject>,
    player: PlayerId,
    id: ObjectId,
) -> bool {
    &&& objects.contains_key(id.0)
    &&& functions_in_command_zone(objects[id.0])
    &&& objects[id.0].owner == player
}

/// CR 905.4 / CR 905.5: The face-up conspiracies a player owns in the command
/// zone, in command-zone order. Face-down hidden-agenda conspiracies are
/// excluded, as are conspiracies owned by other players (CR 404.2: the
/// command zone is filtered by owner, who is also the controller).
pub fn conspiracies_in_command_zone(state: &GameState, player: PlayerId) -> (r: Vec<ObjectId>)
    ensures
        r@ == state@.command_zone.filter(
            |id: ObjectId| is_functioning_conspiracy_of(state@.objects, player, id),
        ),
        forall|k: int|
            0 <= k < r@.len() ==> {
                &&& state@.command_zone.contains(#[trigger] r@[k])
                &&& state@.objects.contains_key(r@[k].0)
                &&& state@.objects[r@[k].0].card_types.core_types@.contains(CoreType::Conspiracy)
                &&& state@.objects[r@[k].0].zone == Zone::Command
                &&& !state@.objects[r@[k].0].face_down
                &&& state@.objects[r@[k].0].owner == player
            },
{
    let ghost pred = |id: ObjectId| is_functioning_conspiracy_of(state@.objects, player, id);
    let mut r: Vec<ObjectId> = Vec::new();
    let mut i: usize = 0;
    while i < state.command_zone.len()
        invariant
            i <= state@.command_zone.len(),
            pred == (|id: ObjectId| is_functioning_conspiracy_of(state@.objects, player, id)),
            r@ == state@.command_zone.take(i as int).filter(pred),
        decreases state@.command_zone.len() - i,
    {
        let id = state.command_zone[i];
        let keep = match state.objects.get(&id.0) {
            Some(obj) => functions_from_command_zone(obj) && obj.owner == player,
            None => false,
        };
        proof {
            reveal_with_fuel(Seq::<ObjectId>::filter, 1);
            assert(state@.command_zone.take(i + 1).drop_last() =~= state@.command_zone.take(
                i as int,
            ));
        }
        if keep {
            r.push(id);
        }
        i = i + 1;
    }
    assert(state@.command_zone.take(i as int) =~= state@.command_zone);
    proof {
        lemma_listed_conspiracies_are_face_up_owned(state@, player);
    }
    r
}

/// An object as it begins the game in the command zone: its owner controls
/// it, and it is face down exactly when it has hidden agenda.
pub open spec fn started_object(obj: GameObject, hidden_agenda: bool) -> GameObject {
    GameObject { zone: Zone::Command, face_down: hidden_agenda, controller: obj.owner, ..obj }
}

/// The state after `start_with_conspiracy`.
pub open spec fn started_state(s: GameStateView, id: ObjectId, hidden_agenda: bool) -> GameStateView {
    if s.objects.contains_key(id.0) && object_is_conspiracy(s.objects[id.0]) {
        GameStateView {
            objects: s.objects.insert(id.0, started_object(s.objects[id.0], hidden_agenda)),
            command_zone: if s.command_zone.contains(id) {
                s.command_zone
            } else {
                s.command_zone.push(id)
            },
            lki_by_incarnation: s.lki_by_incarnation,
            layers_dirty: true,
        }
    } else {
        s
    }
}

fn command_zone_contains(zone: &VecDeque<ObjectId>, id: ObjectId) -> (r: bool)
    ensures
        r == zone@.contains(id),
{
    let mut i: usize = 0;
    while i < zone.len()
        invariant
            i <= zone@.len(),
            forall|j: int| 0 <= j < i ==> zone@[j] != id,
        decreases zone@.len() - i,
    {
        if zone[i] == id {
            assert(zone@[i as int] == id);
            return true;
        }
        i = i + 1;
    }
    false
}

/// CR 905.4 / CR 905.4a / CR 905.5: Begin the game with a conspiracy in the
/// command zone, controlled by its owner. A conspiracy with hidden agenda
/// enters face down; every other conspiracy enters face up. Layers are marked
/// dirty so a face-up conspiracy's statics are gathered on the next pass.
///
/// No-op if `id` is not a known object or is not a conspiracy card. The id is
/// appended to the command zone only if not already present.
pub fn start_with_conspiracy(state: &mut GameState, id: ObjectId, hidden_agenda: bool)
    ensures
        final(state)@ == started_state(old(state)@, id, hidden_agenda),
{
    match state.objects.get(&id.0) {
        None => {
            return ;
        },
        Some(obj) => {
            if !is_conspiracy(obj) {
                return ;
            }
        },
    }
    let mut obj = match state.objects.remove(&id.0) {
        Some(obj) => obj,
        None => {
            return ;
        },
    };
    obj.zone = Zone::Command;
    obj.face_down = hidden_agenda;
    obj.controller = obj.owner;
    state.objects.insert(id.0, obj);
    if !command_zone_contains(&state.command_zone, id) {
        state.command_zone.push_back(id);
    }
    mark_layers_full(state);
    assert(state@.objects =~= started_state(old(state)@, id, hidden_agenda).objects);
}

/// The card names recorded among an object's choices, in order.
pub open spec fn chosen_card_names(attrs: Seq<ChosenAttribute>) -> Seq<Seq<char>>
    decreases attrs.len(),
{
    if attrs.len() == 0 {
        Seq::empty()
    } else {
        let before = chosen_card_names(attrs.drop_last());
        match attrs.last() {
            ChosenAttribute::CardName(name) => before.push(name@),
            _ => before,
        }
    }
}

/// CR 702.106a/f: a commitment that can be revealed: one non-empty name, or
/// two non-empty names that differ beyond ASCII case.
pub open spec fn revealable_commitment(names: Seq<Seq<char>>) -> bool {
    ||| names.len() == 1 && names[0].len() > 0
    ||| names.len() == 2 && names[0].len() > 0 && names[1].len() > 0 && !eq_ignore_ascii_case(
        names[0],
        names[1],
    )
}

/// `player` may turn the object under `id` face up: it is a face-down
/// conspiracy they own in the command zone, with a revealable commitment.
pub open spec fn may_reveal_hidden_agenda(s: GameStateView, id: ObjectId, player: PlayerId) -> bool {
    &&& s.objects.contains_key(id.0)
    &&& s.objects[id.0].zone == Zone::Command
    &&& s.objects[id.0].face_down
    &&& s.objects[id.0].owner == player
    &&& object_is_conspiracy(s.objects[id.0])
    &&& revealable_commitment(chosen_card_names(s.objects[id.0].chosen_attributes@))
}

fn commitment_is_revealable(attrs: &Vec<ChosenAttribute>) -> (r: bool)
    ensures
        r == revealable_commitment(chosen_card_names(attrs@)),
{
    let mut names: Vec<&String> = Vec::new();
    let mut i: usize = 0;
    while i < attrs.len()
        invariant
            i <= attrs.len(),
            names@.map_values(|n: &String| n@) == chosen_card_names(attrs@.take(i as int)),
        decreases attrs.len() - i,
    {
        let ghost before = names@;
        match &attrs[i] {
            ChosenAttribute::CardName(name) => {
                names.push(name);
            },
            _ => {},
        }
        proof {
            assert(attrs@.take(i + 1).drop_last() =~= attrs@.take(i as int));
            assert(names@.map_values(|n: &String| n@) =~= chosen_card_names(
                attrs@.take(i + 1),
            ));
        }
        i = i + 1;
    }
    assert(attrs@.take(attrs.len() as int) =~= attrs@);
    let ghost view = names@.map_values(|n: &String| n@);
    if names.len() == 1 {
        assert(view[0] == names@[0]@);
        !names[0].as_str().is_empty()
    } else if names.len() == 2 {
        assert(view[0] == names@[0]@);
        assert(view[1] == names@[1]@);
        !names[0].as_str().is_empty() && !names[1].as_str().is_empty() && !str_eq_ignore_ascii_case(
            names[0].as_str(),
            names[1].as_str(),
        )
    } else {
        false
    }
}

/// CR 905.4a + CR 702.106: whether `player` may turn the conspiracy under
/// `id` face up: it must be a face-down conspiracy they own in the command
/// zone (CR 404.2 / CR 905.5), committed to one name or two distinct names.
pub fn can_reveal_hidden_agenda(state: &GameState, id: ObjectId, player: PlayerId) -> (r: bool)
    ensures
        r == may_reveal_hidden_agenda(state@, id, player),
{
    match state.objects.get(&id.0) {
        None => false,
        Some(obj) => {
            if obj.zone != Zone::Command || !obj.face_down || obj.owner != player
                || !is_conspiracy(obj) {
                return false;
            }
            commitment_is_revealable(&obj.chosen_attributes)
        },
    }
}

/// The state after the conspiracy under `id` turns face up.
pub open spec fn revealed_state(s: GameStateView, id: ObjectId) -> GameStateView {
    GameStateView {
        objects: s.objects.insert(id.0, GameObject { face_down: false, ..s.objects[id.0] }),
        layers_dirty: true,
        ..s
    }
}

/// CR 905.4a + CR 702.106: Turn a face-down hidden-agenda conspiracy face up.
/// Returns `false` and changes nothing unless `can_reveal_hidden_agenda`
/// allows it; on success the conspiracy turns face up and begins functioning,
/// so layers are marked dirty (CR 611.2).
pub fn turn_hidden_agenda_face_up(state: &mut GameState, id: ObjectId, player: PlayerId) -> (r:
    bool)
    ensures
        r == may_reveal_hidden_agenda(old(state)@, id, player),
        r ==> final(state)@ == revealed_state(old(state)@, id),
        !r ==> final(state)@ == old(state)@,
{
    if !can_reveal_hidden_agenda(state, id, player) {
        return false;
    }
    let mut obj = match state.objects.remove(&id.0) {
        Some(obj) => obj,
        None => {
            return false;
        },
    };
    obj.face_down = false;
    state.objects.insert(id.0, obj);
    mark_layers_full(state);
    assert(state@.objects =~= revealed_state(old(state)@, id).objects);
    true
}

/// Starting the game with a conspiracy is idempotent: doing it a second time
/// with the same face-down choice changes nothing more.
pub proof fn lemma_start_with_conspiracy_idempotent(s: GameStateView, id: ObjectId, hidden_agenda: bool)
    ensures
        started_state(started_state(s, id, hidden_agenda), id, hidden_agenda) == started_state(
            s,
            id,
            hidden_agenda,
        ),
{
    let once = started_state(s, id, hidden_agenda);
    if s.objects.contains_key(id.0) && object_is_conspiracy(s.objects[id.0]) {
        let obj = once.objects[id.0];
        assert(obj.card_types == s.objects[id.0].card_types);
        assert(once.command_zone.contains(id)) by {
            if !s.command_zone.contains(id) {
                assert(once.command_zone[s.command_zone.len() as int] == id);
            }
        }
        assert(started_object(obj, hidden_agenda) == obj);
        assert(once.objects.insert(id.0, obj) =~= once.objects);
        assert(started_state(once, id, hidden_agenda) =~= once);
    }
}

/// CR 905.4 / 905.4a / 905.5: a conspiracy that begins the game is in the
/// command zone under its owner's control, and functions there exactly when
/// it did not start face down with a hidden agenda; other objects are kept.
pub proof fn lemma_started_conspiracy_functions_unless_hidden(
    s: GameStateView,
    id: ObjectId,
    hidden_agenda: bool,
)
    requires
        s.objects.contains_key(id.0),
        object_is_conspiracy(s.objects[id.0]),
    ensures
        ({
            let t = started_state(s, id, hidden_agenda);
            &&& t.command_zone.contains(id)
            &&& t.objects[id.0].zone == Zone::Command
            &&& t.objects[id.0].controller == s.objects[id.0].owner
            &&& functions_in_command_zone(t.objects[id.0]) == !hidden_agenda
            &&& is_functioning_conspiracy_of(t.objects, s.objects[id.0].owner, id)
                == !hidden_agenda
            &&& forall|k: u64| k != id.0 && s.objects.contains_key(k) ==> #[trigger] t.objects[k]
                == s.objects[k]
        }),
{
    let t = started_state(s, id, hidden_agenda);
    assert(t.objects[id.0].card_types == s.objects[id.0].card_types);
    if !s.command_zone.contains(id) {
        assert(t.command_zone[s.command_zone.len() as int] == id);
    }
}

/// CR 905.4a + 702.106: a conspiracy that started face down with a hidden
/// agenda can be turned face up by its owner, and only its owner, exactly
/// when its commitment is one name or two distinct names.
pub proof fn lemma_hidden_start_revealable_by_owner(s: GameStateView, id: ObjectId, player: PlayerId)
    requires
        s.objects.contains_key(id.0),
        object_is_conspiracy(s.objects[id.0]),
    ensures
        may_reveal_hidden_agenda(started_state(s, id, true), id, player) <==> (player
            == s.objects[id.0].owner && revealable_commitment(
            chosen_card_names(s.objects[id.0].chosen_attributes@),
        )),
{
    let t = started_state(s, id, true);
    assert(t.objects[id.0].card_types == s.objects[id.0].card_types);
}

/// CR 702.106: once turned face up, a hidden agenda functions from the command
/// zone, no player can turn it face up again, and no other object changes.
pub proof fn lemma_revealed_agenda_functions(s: GameStateView, id: ObjectId, player: PlayerId)
    requires
        may_reveal_hidden_agenda(s, id, player),
    ensures
        functions_in_command_zone(revealed_state(s, id).objects[id.0]),
        forall|p: PlayerId| !may_reveal_hidden_agenda(revealed_state(s, id), id, p),
        forall|k: u64| k != id.0 ==> #[trigger] revealed_state(s, id).objects.contains_key(k)
            == s.objects.contains_key(k),
        forall|k: u64| k != id.0 && s.objects.contains_key(k) ==> #[trigger] revealed_state(
            s,
            id,
        ).objects[k] == s.objects[k],
{
    let t = revealed_state(s, id);
    assert(t.objects[id.0].card_types == s.objects[id.0].card_types);
}

/// CR 905.4a: a face-down conspiracy never functions from the command zone,
/// so it is never among a player's functioning conspiracies.
pub proof fn lemma_face_down_conspiracy_does_not_function(
    objects: Map<u64, GameObject>,
    player: PlayerId,
    id: ObjectId,
)
    requires
        objects.contains_key(id.0),
        objects[id.0].face_down,
    ensures
        !functions_in_command_zone(objects[id.0]),
        !is_functioning_conspiracy_of(objects, player, id),
{
}

/// Only a conspiracy card functions from the command zone: whatever else is
/// there (a commander, an emblem, any object without the conspiracy type)
/// never does, and neither does a face-down card or one outside the zone.
pub proof fn lemma_only_face_up_conspiracy_cards_function(obj: GameObject)
    ensures
        functions_in_command_zone(obj) ==> {
            &&& obj.card_types.core_types@.contains(CoreType::Conspiracy)
            &&& obj.zone == Zone::Command
            &&& !obj.face_down
        },
{
}

/// Every id `conspiracies_in_command_zone` lists is in the command zone and
/// names a face-up conspiracy card there that the player owns.
pub proof fn lemma_listed_conspiracies_are_face_up_owned(s: GameStateView, player: PlayerId)
    ensures
        ({
            let listed = s.command_zone.filter(
                |id: ObjectId| is_functioning_conspiracy_of(s.objects, player, id),
            );
            forall|k: int|
                0 <= k < listed.len() ==> {
                    &&& s.command_zone.contains(#[trigger] listed[k])
                    &&& s.objects.contains_key(listed[k].0)
                    &&& s.objects[listed[k].0].card_types.core_types@.contains(
                        CoreType::Conspiracy,
                    )
                    &&& s.objects[listed[k].0].zone == Zone::Command
                    &&& !s.objects[listed[k].0].face_down
                    &&& s.objects[listed[k].0].owner == player
                }
        }),
{
    let pred = |id: ObjectId| is_functioning_conspiracy_of(s.objects, player, id);
    let listed = s.command_zone.filter(pred);
    assert forall|k: int| 0 <= k < listed.len() implies {
        &&& s.command_zone.contains(#[trigger] listed[k])
        &&& s.objects.contains_key(listed[k].0)
        &&& s.objects[listed[k].0].card_types.core_types@.contains(CoreType::Conspiracy)
        &&& s.objects[listed[k].0].zone == Zone::Command
        &&& !s.objects[listed[k].0].face_down
        &&& s.objects[listed[k].0].owner == player
    } by {
        s.command_zone.lemma_filter_pred(pred, k);
        assert(listed.contains(listed[k]));
        s.command_zone.lemma_filter_contains_rev(pred, listed[k]);

        lemma_only_face_up_conspiracy_cards_function(s.objects[listed[k].0]);
    }
}

/// CR 702.106a/f: a hidden agenda can be revealed only on a commitment of one
/// or two non-empty card names, and two names must differ beyond ASCII case;
/// the same name chosen twice is never revealable.
pub proof fn lemma_revealable_commitments_are_distinct_names(
    s: GameStateView,
    id: ObjectId,
    player: PlayerId,
)
    ensures
        may_reveal_hidden_agenda(s, id, player) ==> {
            let names = chosen_card_names(s.objects[id.0].chosen_attributes@);
            &&& 1 <= names.len() <= 2
            &&& forall|i: int| 0 <= i < names.len() ==> (#[trigger] names[i]).len() > 0
            &&& names.len() == 2 ==> !eq_ignore_ascii_case(names[0], names[1])
            &&& names.len() == 2 ==> names[0] != names[1]
        },
{
    if may_reveal_hidden_agenda(s, id, player) {
        let names = chosen_card_names(s.objects[id.0].chosen_attributes@);
        if names.len() == 2 && names[0] == names[1] {
            assert(eq_ignore_ascii_case(names[0], names[1]));
        }
    }
}

/// A conspiracy whose commitment is one name chosen twice (up to ASCII case)
/// stays face down: no player can reveal it.
pub proof fn lemma_repeated_name_is_never_revealable(
    s: GameStateView,
    id: ObjectId,
    first: Seq<char>,
    second: Seq<char>,
)
    requires
        s.objects.contains_key(id.0),
        chosen_card_names(s.objects[id.0].chosen_attributes@) == seq![first, second],
        eq_ignore_ascii_case(first, second),
    ensures
        forall|p: PlayerId| !may_reveal_hidden_agenda(s, id, p),
{
    assert forall|p: PlayerId| !may_reveal_hidden_agenda(s, id, p) by {
        lemma_revealable_commitments_are_distinct_names(s, id, p);
        let names = chosen_card_names(s.objects[id.0].chosen_attributes@);
        assert(names[0] == first && names[1] == second);
    }
}

} // verus!
