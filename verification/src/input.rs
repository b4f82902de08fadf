//! What the bar reports when the user clicks on a block.

use vstd::prelude::*;

verus! {

/// One click, as the bar reports it. Every field is taken as it comes: a
/// block has to cope with buttons, positions and names that it has never
/// heard of.
#[derive(Debug, Clone, PartialEq, Eq)]
pub struct I3BarEvent {
    /// The name of the block that was hit, if the bar gave one.
    pub name: Option<String>,
    /// The identity of the block that was hit, if the bar gave one.
    pub instance: Option<String>,
    /// The number of the mouse button.
    pub button: u64,
    /// Where the pointer was, in pixels from the left edge.
    pub x: i64,
    /// Where the pointer was, in pixels from the top edge.
    pub y: i64,
    /// The modifier keys that were held.
    pub modifiers: Vec<String>,
}

} // verus!
