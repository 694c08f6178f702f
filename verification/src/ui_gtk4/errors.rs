use vstd::prelude::*;

verus! {

/// Errors of the GUI consumer: the display or the target monitor could not
/// be found.
#[derive(Clone, Copy, Debug, PartialEq, Eq, Structural)]
pub enum ShunpoGtk4Error {
    DefaultDisplay,
    FindMonitor,
}

} // verus!
