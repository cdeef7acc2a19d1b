//! Placeholder key handlers an embedding program can wire to keys and fill
//! in later. Each receives the new level of its key on every transition.

use vstd::prelude::*;

verus! {

/// Handler for a "back" key; does nothing yet.
pub fn handle_back(_state: bool) {
}

/// Handler for a "forward" key; does nothing yet.
pub fn handle_forward(_state: bool) {
}

/// Handler for a "toggle" key; does nothing yet.
pub fn handle_toggle(_state: bool) {
}

} // verus!
