//! The one input decision of the system: a released key either
//! requests exit or is ignored. The host loop observes the returned
//! signal after the frame; the simulation itself never terminates the
//! process.
use vstd::prelude::*;

verus! {

/// A key release as the host reports it. Only the key conventionally
/// labeled `Q` is bound to a command; everything else is `Other`.
#[derive(Clone, Copy, Debug, PartialEq, Eq, Structural)]
pub enum Key {
    Q,
    Other,
}

/// Decide the frame's input: exit is requested exactly when the key
/// just released is `Q`; any other release, or none, is silently
/// ignored.
pub fn handle_input(released: Option<Key>) -> (quit: bool)
    ensures
        quit == (released == Some(Key::Q)),
{
    match released {
        Some(Key::Q) => true,
        _ => false,
    }
}

} // verus!
