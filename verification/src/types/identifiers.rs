//! Identifiers of game objects and of their incarnations.

use vstd::prelude::*;

verus! {

/// The stable id of a game object. A zone change keeps the id but starts a
/// new incarnation (CR 400.7).
#[derive(Clone, Copy, Debug, PartialEq, Eq, Hash, Structural)]
pub struct ObjectId(pub u64);

/// One incarnation of an object: the id together with the incarnation
/// number that was current when the reference was taken.
#[derive(Clone, Copy, Debug, PartialEq, Eq, Hash, Structural)]
pub struct ObjectIncarnationRef {
    pub object_id: ObjectId,
    pub incarnation: u64,
}

} // verus!
