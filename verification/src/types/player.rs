//! Player identity.

use vstd::prelude::*;

verus! {

/// A seat at the table, numbered from zero.
#[derive(Clone, Copy, Debug, PartialEq, Eq, Hash, Structural)]
pub struct PlayerId(pub u8);

} // verus!
