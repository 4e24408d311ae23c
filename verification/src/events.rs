use vstd::prelude::*;

verus! {

/// An input event exchanged between the host and the hosted simulation.
///
/// The vocabulary is closed: a key transition for one of the four arrow
/// keys, or a synthetic request to release every held key at once.
#[derive(Debug, Clone, Copy, PartialEq, Eq, Structural)]
pub enum Event {
    ClearInputs,
    KeyPressed { key: Key },
    KeyReleased { key: Key },
}

/// A key of the closed input vocabulary.
#[derive(Debug, Clone, Copy, PartialEq, Eq, Structural)]
pub enum Key {
    Up,
    Down,
    Left,
    Right,
}

} // verus!
