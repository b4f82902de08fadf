//! The context that every block of one bar is built with.

use vstd::prelude::*;

verus! {

/// What all blocks of a bar share: the names of the icon set and of the
/// colour theme that the bar was started with. A block keeps its copy and
/// never changes it.
#[derive(Debug, Clone, PartialEq, Eq)]
pub struct Config {
    pub icons: String,
    pub theme: String,
}

} // verus!
