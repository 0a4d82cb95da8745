//! Application menu management for Kui.

use vstd::prelude::*;

verus! {

/// Initialize the menu subsystem.
///
/// The menu subsystem keeps no state of its own, so there is nothing to set up.
pub fn init() {
}

} // verus!
