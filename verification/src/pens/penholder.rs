//! The tools that the pen holder can switch between.

use vstd::prelude::*;

verus! {

/// One of the tools of the drawing surface.
#[derive(Debug, Clone, Copy, PartialEq, Eq, Structural)]
pub enum PenStyle {
    Brush,
    Shaper,
    Eraser,
    Selector,
    Tools,
}

} // verus!
