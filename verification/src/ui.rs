//! Widget markers shared with the GUI frontends. The clock widget carries
//! no data of its own; rendering lives outside this crate.

use vstd::prelude::*;

verus! {

/// The clock widget.
#[derive(Clone, Copy, Debug, PartialEq, Eq, Structural)]
pub struct ShunpoWidgetClock;

impl ShunpoWidgetClock {
    /// A fresh clock widget.
    pub fn new() -> (r: Self)
        ensures
            r == (ShunpoWidgetClock {  }),
    {
        Self
    }
}

} // verus!
