//! The events that a pen is fed.

use vstd::prelude::*;

verus! {

/// One event of the pointer, as the surface delivers it.
#[derive(Debug, Clone, Copy, PartialEq, Eq)]
pub enum PenEvent<E> {
    /// The pen touches the surface, or moves while touching it.
    Down { element: E },
    /// The pen is lifted.
    Up { element: E },
    /// The pen hovers over the surface.
    Proximity { element: E },
    /// The pen input is cancelled.
    Cancel,
}

} // verus!
