//! The pen-input core of a freehand drawing surface.
//!
//! [`pens::brush::Brush`] turns a stream of pen events into the requests that
//! build one stroke at a time in the host's stroke store, and
//! [`surfaceflags::SurfaceFlags`] is the bundle of side-effect signals that each
//! processing step hands back to the surface.

pub mod compose;
pub mod pens;
pub mod sheet;
pub mod surfaceflags;
