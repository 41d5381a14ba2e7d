//! Plain state shared with the presentation layer.

use vstd::prelude::*;

verus! {

/// The x-axis a damage graph is keyed by: discrete turns, or the game's
/// action-value resource.
#[derive(Debug, Clone, Copy, PartialEq, Eq, Structural)]
pub enum Unit {
    Turn,
    ActionValue,
}

/// Progress of a self-update: whether the new build has been downloaded.
#[derive(Debug, Clone, Copy, PartialEq, Eq, Structural)]
pub struct UpdateState {
    pub downloaded: bool,
}

} // verus!
