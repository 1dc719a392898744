//! The settings panel's program state. The widget tree and message
//! handling live with the UI toolkit outside the library; the state itself
//! carries nothing.

use vstd::prelude::*;

verus! {

/// The settings panel.
#[derive(Default)]
pub struct Controls {}

impl Controls {
    /// A fresh settings panel.
    pub fn new() -> (c: Controls)
        ensures
            c == (Controls {  }),
    {
        Controls {  }
    }
}

} // verus!
