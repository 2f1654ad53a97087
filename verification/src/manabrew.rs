//! Admission decisions of the opt-in ManaBrew presentation for authoritative,
//! token-authenticated sessions: which seat a token may view, the prompt ID
//! that seat gets at a state revision, and the message-size bound.

use vstd::prelude::*;
use vstd::string::*;
use crate::types::player::PlayerId;

verus! {

/// Why a ManaBrew request was refused.
#[derive(Debug, PartialEq, Eq)]
pub enum ManabrewError {
    InvalidPlayerToken,
    GameNotStarted,
    PromptIdExhausted,
    InvalidPayload(String),
}

/// The largest serialized client message accepted, within the WebSocket frame
/// limit.
pub const MANABREW_MESSAGE_LIMIT: usize = 65536;

pub const MANABREW_MESSAGE_TOO_LARGE: &'static str = "ManaBrew message exceeds 65536 bytes";

/// The prompt ID of a seat at a state revision: `4 * revision + seat + 1`,
/// when that fits in a `u32`.
pub open spec fn prompt_id_for(state_revision: u64, viewer: PlayerId) -> Option<u32> {
    let id = 4 * state_revision + viewer.0 + 1;
    if id <= u32::MAX {
        Some(id as u32)
    } else {
        None
    }
}

/// Seat-bound, revision-bound, nonzero prompt IDs. Checked arithmetic never
/// wraps an old capability into validity.
pub fn manabrew_prompt_id(state_revision: u64, viewer: PlayerId) -> (r: Option<u32>)
    ensures
        r == prompt_id_for(state_revision, viewer),
{
    let scaled = match state_revision.checked_mul(4) {
        Some(v) => v,
        None => {
            return None;
        },
    };
    let id = match scaled.checked_add(viewer.0 as u64 + 1) {
        Some(v) => v,
        None => {
            return None;
        },
    };
    if id <= 0xFFFF_FFFFu64 {
        Some(id as u32)
    } else {
        None
    }
}

fn seat_is_ai(ai_seats: &Vec<PlayerId>, player: PlayerId) -> (r: bool)
    ensures
        r == ai_seats@.contains(player),
{
    let mut i: usize = 0;
    while i < ai_seats.len()
        invariant
            i <= ai_seats.len(),
            forall|j: int| 0 <= j < i ==> ai_seats@[j] != player,
        decreases ai_seats.len() - i,
    {
        if ai_seats[i] == player {
            assert(ai_seats@[i as int] == player);
            return true;
        }
        i = i + 1;
    }
    false
}

/// The seat a session token may view and its prompt ID: the token must name
/// a human seat (never an AI seat) of a started game, and the prompt ID must
/// fit. `token_player` is the seat the session resolved the token to.
pub fn authorize_manabrew_viewer(
    token_player: Option<PlayerId>,
    ai_seats: &Vec<PlayerId>,
    game_started: bool,
    state_revision: u64,
) -> (r: Result<(PlayerId, u32), ManabrewError>)
    ensures
        match token_player {
            None => r matches Err(ManabrewError::InvalidPlayerToken),
            Some(viewer) => if ai_seats@.contains(viewer) {
                r matches Err(ManabrewError::InvalidPlayerToken)
            } else if !game_started {
                r matches Err(ManabrewError::GameNotStarted)
            } else {
                match prompt_id_for(state_revision, viewer) {
                    Some(id) => r == Ok::<(PlayerId, u32), ManabrewError>((viewer, id)),
                    None => r matches Err(ManabrewError::PromptIdExhausted),
                }
            },
        },
{
    let viewer = match token_player {
        Some(player) => {
            if seat_is_ai(ai_seats, player) {
                return Err(ManabrewError::InvalidPlayerToken);
            }
            player
        },
        None => {
            return Err(ManabrewError::InvalidPlayerToken);
        },
    };
    if !game_started {
        return Err(ManabrewError::GameNotStarted);
    }
    match manabrew_prompt_id(state_revision, viewer) {
        Some(id) => Ok((viewer, id)),
        None => Err(ManabrewError::PromptIdExhausted),
    }
}

/// The compatibility-envelope bound on a serialized client message.
pub fn guard_message_size(byte_len: usize) -> (r: Result<(), String>)
    ensures
        byte_len <= MANABREW_MESSAGE_LIMIT ==> r is Ok,
        byte_len > MANABREW_MESSAGE_LIMIT ==> (r matches Err(m) && m@
            == MANABREW_MESSAGE_TOO_LARGE@),
{
    if byte_len > MANABREW_MESSAGE_LIMIT {
        return Err(String::from_str(MANABREW_MESSAGE_TOO_LARGE));
    }
    Ok(())
}

/// Prompt IDs are never zero, and for the four seats of a table two
/// (revision, seat) pairs share an ID only when they are the same pair, so a
/// prompt from one seat or revision can never answer for another.
pub proof fn lemma_prompt_ids_distinct(r1: u64, s1: PlayerId, r2: u64, s2: PlayerId)
    requires
        s1.0 < 4,
        s2.0 < 4,
        prompt_id_for(r1, s1) is Some,
        prompt_id_for(r2, s2) is Some,
    ensures
        prompt_id_for(r1, s1)->0 != 0,
        prompt_id_for(r1, s1) == prompt_id_for(r2, s2) ==> r1 == r2 && s1 == s2,
{
}

} // verus!
