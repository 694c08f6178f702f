use vstd::prelude::*;

verus! {

/// Which face the service's window shows; kept by the GUI frontends.
#[derive(Clone, Copy, Debug, PartialEq, Eq, Structural)]
pub enum ShunpoMode {
    Launcher,
    Clock,
}

} // verus!
