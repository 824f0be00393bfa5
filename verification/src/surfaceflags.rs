//! Flags returned to the surface that draws the engine.
//!
//! Every processing step produces one [`SurfaceFlags`] value. The surface merges
//! the values of consecutive steps into one accumulator before it acts on them.

use crate::pens::penholder::PenStyle;
use vstd::prelude::*;

verus! {

/// Flags returned to the surface drawing the engine.
///
/// Each boolean asks for one effect. The two optional fields distinguish "no
/// opinion" (`None`) from an explicit value.
#[must_use]
#[derive(Debug, Clone, Copy)]
pub struct SurfaceFlags {
    /// The application should be quit.
    pub quit: bool,
    /// The surface needs redrawing.
    pub redraw: bool,
    /// The surface needs resizing.
    pub resize: bool,
    /// The sheet should be resized to fit the strokes.
    pub resize_to_fit_strokes: bool,
    /// The pen holder should change to this pen style.
    pub change_to_pen: Option<PenStyle>,
    /// The pen style has changed.
    pub pen_changed: bool,
    /// The sheet has changed: strokes were inserted, modified or removed.
    pub sheet_changed: bool,
    /// The selection has changed.
    pub selection_changed: bool,
    /// `Some` when the scrollbar visibility should change, `None` when it should stay.
    pub hide_scrollbars: Option<bool>,
    /// The camera offset has changed.
    pub camera_offset_changed: bool,
}

/// The later of two optional requests: `other` where it holds a value, else `first`.
pub open spec fn later_request<T>(first: Option<T>, other: Option<T>) -> Option<T> {
    if other is Some {
        other
    } else {
        first
    }
}

impl SurfaceFlags {
    /// The flags that ask for nothing.
    pub open spec fn empty() -> SurfaceFlags {
        SurfaceFlags {
            quit: false,
            redraw: false,
            resize: false,
            resize_to_fit_strokes: false,
            change_to_pen: None,
            pen_changed: false,
            sheet_changed: false,
            selection_changed: false,
            hide_scrollbars: None,
            camera_offset_changed: false,
        }
    }

    /// What merging `other` into `self` gives: an effect that either side asks
    /// for stays asked for, and an optional request of `other` replaces that of
    /// `self` only where `other` holds one.
    pub open spec fn merged(self, other: SurfaceFlags) -> SurfaceFlags {
        SurfaceFlags {
            quit: self.quit || other.quit,
            redraw: self.redraw || other.redraw,
            resize: self.resize || other.resize,
            resize_to_fit_strokes: self.resize_to_fit_strokes || other.resize_to_fit_strokes,
            change_to_pen: later_request(self.change_to_pen, other.change_to_pen),
            pen_changed: self.pen_changed || other.pen_changed,
            sheet_changed: self.sheet_changed || other.sheet_changed,
            selection_changed: self.selection_changed || other.selection_changed,
            hide_scrollbars: later_request(self.hide_scrollbars, other.hide_scrollbars),
            camera_offset_changed: self.camera_offset_changed || other.camera_offset_changed,
        }
    }

    /// Whether `self` and `other` agree on every boolean flag.
    pub open spec fn same_signals(self, other: SurfaceFlags) -> bool {
        &&& self.quit == other.quit
        &&& self.redraw == other.redraw
        &&& self.resize == other.resize
        &&& self.resize_to_fit_strokes == other.resize_to_fit_strokes
        &&& self.pen_changed == other.pen_changed
        &&& self.sheet_changed == other.sheet_changed
        &&& self.selection_changed == other.selection_changed
        &&& self.camera_offset_changed == other.camera_offset_changed
    }

    /// Merging with another `SurfaceFlags`, prioritizing `other` for conflicting values.
    pub fn merged_with_other(self, other: Self) -> (merged: Self)
        ensures
            merged == self.merged(other),
    {
        let mut merged = self;
        merged.quit = self.quit || other.quit;
        merged.redraw = self.redraw || other.redraw;
        merged.resize = self.resize || other.resize;
        merged.resize_to_fit_strokes = self.resize_to_fit_strokes || other.resize_to_fit_strokes;
        merged.change_to_pen = if other.change_to_pen.is_some() {
            other.change_to_pen
        } else {
            self.change_to_pen
        };

        merged.pen_changed = self.pen_changed || other.pen_changed;
        merged.sheet_changed = self.sheet_changed || other.sheet_changed;
        merged.selection_changed = self.selection_changed || other.selection_changed;
        merged.hide_scrollbars = if other.hide_scrollbars.is_some() {
            other.hide_scrollbars
        } else {
            self.hide_scrollbars
        };
        merged.camera_offset_changed = self.camera_offset_changed || other.camera_offset_changed;

        merged
    }

    /// Merges `other` into `self` in place.
    pub fn merge_with_other(&mut self, other: Self)
        ensures
            *final(self) == old(self).merged(other),
    {
        *self = self.merged_with_other(other);
    }
}

impl Default for SurfaceFlags {
    fn default() -> (flags: Self)
        ensures
            flags == SurfaceFlags::empty(),
    {
        Self {
            quit: false,
            redraw: false,
            resize: false,
            resize_to_fit_strokes: false,
            change_to_pen: None,
            pen_changed: false,
            sheet_changed: false,
            selection_changed: false,
            hide_scrollbars: None,
            camera_offset_changed: false,
        }
    }
}

/// Merging is commutative on the boolean flags: the order of the two operands
/// changes none of them.
pub proof fn lemma_merge_signals_commute(a: SurfaceFlags, b: SurfaceFlags)
    ensures
        a.merged(b).same_signals(b.merged(a)),
{
}

/// Merging is associative, on the boolean flags and on the optional requests alike.
pub proof fn lemma_merge_associative(a: SurfaceFlags, b: SurfaceFlags, c: SurfaceFlags)
    ensures
        a.merged(b).merged(c) == a.merged(b.merged(c)),
{
}

/// The empty flags are the neutral element of merging, on either side.
pub proof fn lemma_merge_empty_neutral(a: SurfaceFlags)
    ensures
        a.merged(SurfaceFlags::empty()) == a,
        SurfaceFlags::empty().merged(a) == a,
{
}

/// An optional request survives a merge with "no opinion" in either order, and
/// of two explicit requests the right operand's wins.
pub proof fn lemma_merge_requests_right_biased(a: SurfaceFlags, b: SurfaceFlags)
    ensures
        b.change_to_pen is None ==> a.merged(b).change_to_pen == a.change_to_pen,
        a.change_to_pen is None ==> a.merged(b).change_to_pen == b.change_to_pen,
        b.change_to_pen is Some ==> a.merged(b).change_to_pen == b.change_to_pen,
        b.hide_scrollbars is None ==> a.merged(b).hide_scrollbars == a.hide_scrollbars,
        a.hide_scrollbars is None ==> a.merged(b).hide_scrollbars == b.hide_scrollbars,
        b.hide_scrollbars is Some ==> a.merged(b).hide_scrollbars == b.hide_scrollbars,
{
}

} // verus!
