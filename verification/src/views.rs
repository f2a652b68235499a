//! What a handler has to remember between two events.

use crate::identity::AccessibleId;
use vstd::prelude::*;

verus! {

/// What the store files a snapshot under.
pub type CacheKey = AccessibleId;

/// What is kept of the caret when it moves.
#[derive(Clone, Copy, Debug, PartialEq, Eq, Structural)]
pub struct CaretPositionView {
    /// Where the caret was.
    pub previous_position: i32,
    /// The element that had the focus.
    pub previous_focus: CacheKey,
}

} // verus!
