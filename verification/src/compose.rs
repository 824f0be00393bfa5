//! What the pens share with the code that composes strokes: the pen events, the
//! path builder that turns them into segments, and the drawing styles.
//!
//! The geometry itself is the host's. An element, a segment and the visual
//! parameters of a style are values that the library carries and never reads.

use crate::pens::penevent::PenEvent;
use parry2d_f64::bounding_volume::Aabb;
use parry2d_f64::math::Vector;
use vstd::prelude::*;

verus! {

/// Builds the path of one stroke from the pen events that it is fed.
///
/// Nothing is assumed of an implementation: what the library proves holds for
/// every builder.
pub trait PathBuilder: Sized {
    /// One sample of the pen: its position and whatever else the host records.
    type Element: Copy;

    /// One finished piece of path geometry.
    type Segment;

    /// Where on the sheet the element lies.
    fn element_pos(element: &Self::Element) -> Vector;

    /// A new builder for a path that starts at `element`.
    fn start(element: Self::Element) -> Self;

    /// Feeds one event to the builder. `Some` holds the segments that the event
    /// finished, in path order; `None` means that nothing is to be recorded.
    fn handle_event(&mut self, event: PenEvent<Self::Element>) -> Option<Vec<Self::Segment>>;
}

/// A path builder that can say how far its path reaches on the sheet.
///
/// As with `PathBuilder`, nothing is assumed of an implementation.
pub trait PathComposer<SV, TV>: PathBuilder {
    /// The bounds of the path built so far when it is drawn with `style`.
    fn composed_bounds(&self, style: &Style<SV, TV>) -> Aabb;
}

/// The options of the smooth style.
#[derive(Debug, Clone, Copy, PartialEq, Eq)]
pub struct SmoothOptions<V> {
    /// Draw every segment at one width, whatever pressure the pen reports.
    pub segment_constant_width: bool,
    /// Width, colors and the other visual parameters.
    pub visuals: V,
}

/// The options of the textured style.
#[derive(Debug, Clone, Copy, PartialEq, Eq)]
pub struct TexturedOptions<V> {
    /// The seed of the texture. Every stroke gets one of its own.
    pub seed: Option<u64>,
    /// Width, color, density and the other visual parameters.
    pub visuals: V,
}

/// The style that a stroke is drawn with.
#[derive(Debug, Clone, Copy, PartialEq, Eq)]
pub enum Style<SV, TV> {
    Smooth(SmoothOptions<SV>),
    Textured(TexturedOptions<TV>),
}

impl<V: Default> Default for SmoothOptions<V> {
    fn default() -> (options: Self)
        ensures
            !options.segment_constant_width,
    {
        SmoothOptions { segment_constant_width: false, visuals: V::default() }
    }
}

impl<V: Default> Default for TexturedOptions<V> {
    fn default() -> (options: Self)
        ensures
            options.seed is None,
    {
        TexturedOptions { seed: None, visuals: V::default() }
    }
}

} // verus!
