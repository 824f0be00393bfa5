//! The brush: the pen that draws freehand strokes.
//!
//! A brush is either idle or drawing one stroke. Every pen event moves it along
//! that two-state lifecycle and yields the actions that the host performs, in
//! order, on its audio player and its stroke store. Those actions name no
//! stroke: from `InsertStroke` on, every action concerns the stroke that this
//! `InsertStroke` created, until the next one.

use crate::compose::PathBuilder;
use crate::compose::PathComposer;
use crate::compose::SmoothOptions;
use crate::compose::Style;
use crate::compose::TexturedOptions;
use crate::pens::penevent::PenEvent;
use crate::sheet::box_contains;
use crate::sheet::loosened_box;
use crate::sheet::within_loosened;
use crate::surfaceflags::SurfaceFlags;
use parry2d_f64::bounding_volume::Aabb;
use parry2d_f64::math::Vector;
use rand::Rng;
use rand::SeedableRng;
use vstd::prelude::*;

verus! {

/// How far past the sheet's bounds a pen-down event is still accepted, in
/// distance units of the sheet. Pointer hardware overshoots the edge a little.
pub const INPUT_OVERSHOOT: u32 = 30;

/// The style that the brush draws with.
#[derive(Debug, Copy, Clone, Eq, PartialEq, Structural)]
pub enum BrushStyle {
    Marker,
    Solid,
    Textured,
}

impl Default for BrushStyle {
    fn default() -> (style: Self)
        ensures
            style == BrushStyle::Solid,
    {
        Self::Solid
    }
}

/// One thing that the host does for the brush.
#[derive(Debug, Clone, PartialEq, Eq)]
pub enum BrushAction<E, S, SV, TV> {
    /// Play the sound of one marker stroke.
    PlayMarkerSound,
    /// Start the sound of the brush.
    StartBrushSound,
    /// Stop the sound of the brush.
    StopBrushSound,
    /// Insert a new stroke into the store: a single dot at `start`, drawn with `style`.
    InsertStroke { start: E, style: Style<SV, TV> },
    /// Append `segment` to the stroke.
    AddSegment { segment: S },
    /// Recompute the geometry and the bounds of the whole stroke.
    UpdateGeometry,
    /// Regenerate the rendering of the whole stroke, and wait for it.
    RegenerateRendering,
    /// Regenerate the rendering of the whole stroke in the background.
    RegenerateRenderingThreaded,
    /// Render only the last `no_segments` segments of the stroke and append them
    /// to its rendering.
    AppendRenderingLastSegments { no_segments: usize },
}

/// Where the brush is in its lifecycle.
#[derive(Debug, Clone)]
pub enum BrushState<B> {
    /// No stroke is in progress.
    Idle,
    /// One stroke is in progress, and `path_builder` accumulates its geometry.
    Drawing { path_builder: B },
}

/// The brush: its style, the options of both families of styles, and the
/// stroke in progress, if there is one.
///
/// Both option records are kept whatever the style is, so that switching the
/// style between strokes loses no configuration.
#[derive(Debug, Clone)]
pub struct Brush<B: PathBuilder, SV, TV> {
    pub style: BrushStyle,
    pub smooth_options: SmoothOptions<SV>,
    pub textured_options: TexturedOptions<TV>,
    /// The lifecycle state. Handling pen events is what moves it.
    pub state: BrushState<B>,
}

/// One `AddSegment` for every segment, in the order of `segments`.
pub open spec fn segment_actions<E, S, SV, TV>(segments: Seq<S>) -> Seq<BrushAction<E, S, SV, TV>> {
    Seq::new(segments.len(), |i: int| BrushAction::AddSegment { segment: segments[i] })
}

/// The segments that the path builder handed back, none where it handed back `None`.
pub open spec fn yielded_segments<S>(yielded: Option<Seq<S>>) -> Seq<S> {
    match yielded {
        Some(segments) => segments,
        None => Seq::empty(),
    }
}

/// What the builder's answer holds, as a sequence.
pub open spec fn yield_view<S>(yielded: Option<Vec<S>>) -> Option<Seq<S>> {
    match yielded {
        Some(segments) => Some(segments@),
        None => None,
    }
}

/// The audio cue that starts a stroke of `style`.
pub open spec fn start_audio_action<E, S, SV, TV>(style: BrushStyle) -> BrushAction<E, S, SV, TV> {
    match style {
        BrushStyle::Marker => BrushAction::PlayMarkerSound,
        BrushStyle::Solid => BrushAction::StartBrushSound,
        BrushStyle::Textured => BrushAction::StartBrushSound,
    }
}

/// The actions of a stroke's start: the audio cue, the insertion of the stroke,
/// the segments that the first event finished, and a full rendering.
pub open spec fn stroke_started<E, S, SV, TV>(
    style: BrushStyle,
    start: E,
    derived: Style<SV, TV>,
    yielded: Option<Seq<S>>,
) -> Seq<BrushAction<E, S, SV, TV>> {
    seq![start_audio_action(style), BrushAction::InsertStroke { start, style: derived }]
        + segment_actions(yielded_segments(yielded)) + seq![BrushAction::RegenerateRendering]
}

/// The actions of one more pen-down event in a stroke: where the builder handed
/// back segments, those segments and a rendering of just as many; else nothing.
pub open spec fn stroke_extended<E, S, SV, TV>(yielded: Option<Seq<S>>) -> Seq<
    BrushAction<E, S, SV, TV>,
> {
    match yielded {
        Some(segments) => segment_actions(segments) + seq![
            BrushAction::AppendRenderingLastSegments { no_segments: segments.len() as usize },
        ],
        None => Seq::empty(),
    }
}

/// The actions of a stroke's end: the audio stops, the last segments are
/// recorded, and the whole stroke gets its final geometry and rendering.
pub open spec fn stroke_finished<E, S, SV, TV>(yielded: Option<Seq<S>>) -> Seq<
    BrushAction<E, S, SV, TV>,
> {
    seq![BrushAction::StopBrushSound] + segment_actions(yielded_segments(yielded)) + seq![
        BrushAction::UpdateGeometry,
        BrushAction::RegenerateRendering,
    ]
}

/// The actions of a cancelled stroke: the audio stops, and the stroke gets its
/// final geometry and a rendering that nobody waits for.
pub open spec fn stroke_cancelled<E, S, SV, TV>() -> Seq<BrushAction<E, S, SV, TV>> {
    seq![
        BrushAction::StopBrushSound,
        BrushAction::UpdateGeometry,
        BrushAction::RegenerateRenderingThreaded,
    ]
}

/// Whether the event starts a stroke: an accepted pen-down event on an idle brush.
pub open spec fn starts_stroke<E>(drawing: bool, event: PenEvent<E>, accepted: bool) -> bool {
    !drawing && event is Down && accepted
}

/// Whether the event is fed to the path builder: an accepted pen-down event,
/// and the pen-up event that ends a stroke.
pub open spec fn feeds_builder<E>(drawing: bool, event: PenEvent<E>, accepted: bool) -> bool {
    (event is Down && accepted) || (event is Up && drawing)
}

/// Whether the event leaves the brush as it is: a proximity event, a pen-down
/// event that is not accepted, and a pen-up or cancel event on an idle brush.
pub open spec fn leaves_brush<E>(drawing: bool, event: PenEvent<E>, accepted: bool) -> bool {
    match event {
        PenEvent::Down { .. } => !accepted,
        PenEvent::Up { .. } => !drawing,
        PenEvent::Proximity { .. } => true,
        PenEvent::Cancel => !drawing,
    }
}

/// Whether the brush is drawing after the event.
pub open spec fn next_drawing<E>(drawing: bool, event: PenEvent<E>, accepted: bool) -> bool {
    match event {
        PenEvent::Down { .. } => drawing || accepted,
        PenEvent::Up { .. } => false,
        PenEvent::Proximity { .. } => drawing,
        PenEvent::Cancel => false,
    }
}

/// The actions of one event, in the order in which the host performs them.
///
/// `derived` is the style of a stroke that the event starts, and `yielded` is
/// what the path builder hands back where the event is fed to it.
pub open spec fn actions_for<E, S, SV, TV>(
    drawing: bool,
    style: BrushStyle,
    event: PenEvent<E>,
    accepted: bool,
    derived: Style<SV, TV>,
    yielded: Option<Seq<S>>,
) -> Seq<BrushAction<E, S, SV, TV>> {
    match event {
        PenEvent::Down { element } => if !accepted {
            Seq::empty()
        } else if drawing {
            stroke_extended(yielded)
        } else {
            stroke_started(style, element, derived, yielded)
        },
        PenEvent::Up { .. } => if drawing {
            stroke_finished(yielded)
        } else {
            seq![BrushAction::StopBrushSound]
        },
        PenEvent::Proximity { .. } => Seq::empty(),
        PenEvent::Cancel => if drawing {
            stroke_cancelled()
        } else {
            seq![BrushAction::StopBrushSound]
        },
    }
}

impl<B: PathBuilder, SV, TV> Brush<B, SV, TV> {
    /// Whether a stroke is in progress.
    pub open spec fn drawing(self) -> bool {
        self.state is Drawing
    }

    /// The style that a stroke started now is drawn with: a marker stroke has
    /// the smooth options with constant width forced on, a solid stroke the
    /// smooth options as they are, a textured stroke the textured options.
    pub open spec fn derived_style(self) -> Style<SV, TV> {
        match self.style {
            BrushStyle::Marker => Style::Smooth(
                SmoothOptions { segment_constant_width: true, visuals: self.smooth_options.visuals },
            ),
            BrushStyle::Solid => Style::Smooth(self.smooth_options),
            BrushStyle::Textured => Style::Textured(self.textured_options),
        }
    }

    /// The options that the stroke in progress is composed with, for its bounds
    /// and its drawing: the smooth options as they are for a marker and a solid
    /// brush, the textured options for a textured one.
    pub open spec fn composing_style(self) -> Style<SV, TV> {
        match self.style {
            BrushStyle::Marker => Style::Smooth(self.smooth_options),
            BrushStyle::Solid => Style::Smooth(self.smooth_options),
            BrushStyle::Textured => Style::Textured(self.textured_options),
        }
    }
}

/// Whether parry finds `pos` within the sheet's bounds grown by
/// `INPUT_OVERSHOOT` on every side.
pub open spec fn within_input_bounds(sheet_bounds: Aabb, pos: Vector) -> bool {
    box_contains(loosened_box(sheet_bounds, INPUT_OVERSHOOT), pos)
}

/// Whether `fed` is the path builder that the event is fed to: the one of the
/// stroke in progress, or, on an idle brush, one that `PathBuilder::start`
/// gave for the element of the pen-down event.
pub open spec fn fed_from<B: PathBuilder, SV, TV>(
    before: Brush<B, SV, TV>,
    event: PenEvent<B::Element>,
    fed: B,
) -> bool {
    match before.state {
        BrushState::Drawing { path_builder } => fed == path_builder,
        BrushState::Idle => match event {
            PenEvent::Down { element } => call_ensures(B::start, (element,), fed),
            _ => false,
        },
    }
}

/// Whether `out` holds the actions of an event that was fed to the path
/// builder `fed`, which handed back `yielded`.
pub open spec fn fed_step<B: PathBuilder, SV, TV>(
    before: Brush<B, SV, TV>,
    event: PenEvent<B::Element>,
    accepted: bool,
    after: Brush<B, SV, TV>,
    out: (SurfaceFlags, Vec<BrushAction<B::Element, B::Segment, SV, TV>>),
    fed: B,
    yielded: Option<Vec<B::Segment>>,
) -> bool {
    &&& fed_from(before, event, fed)
    &&& out.1@ == actions_for(
        before.drawing(),
        before.style,
        event,
        accepted,
        after.derived_style(),
        yield_view(yielded),
    )
}

/// Whether the brush goes on with the path builder `fed`, as it is after the
/// event was fed to it: so it is after every pen-down event that is fed. A
/// pen-up event ends the stroke, and the builder with it.
pub open spec fn keeps_builder<B: PathBuilder, SV, TV>(
    event: PenEvent<B::Element>,
    after: Brush<B, SV, TV>,
    fed: B,
) -> bool {
    event is Down ==> after.state == (BrushState::Drawing { path_builder: fed })
}

/// Whether `after` and `out` are what `event` makes of the brush `before`,
/// `accepted` saying whether a pen-down event lies within the input bounds.
///
/// The style and the options stay, but for the seed of the textured options:
/// the start of a textured stroke sets it, to the seed drawn for the stroke or
/// to `None` where none could be drawn. A brush that the event leaves alone is
/// unchanged, path builder included. Where the event is fed to the
/// path builder, the actions are those of the answer that
/// `PathBuilder::handle_event` gave for that builder and this event; elsewhere
/// they are fixed.
pub open spec fn stepped<B: PathBuilder, SV, TV>(
    before: Brush<B, SV, TV>,
    event: PenEvent<B::Element>,
    accepted: bool,
    after: Brush<B, SV, TV>,
    out: (SurfaceFlags, Vec<BrushAction<B::Element, B::Segment, SV, TV>>),
) -> bool {
    let drawing = before.drawing();
    &&& out.0 == SurfaceFlags::empty()
    &&& after.drawing() == next_drawing(drawing, event, accepted)
    &&& after.style == before.style
    &&& after.smooth_options == before.smooth_options
    &&& after.textured_options.visuals == before.textured_options.visuals
    &&& !(starts_stroke(drawing, event, accepted) && before.style == BrushStyle::Textured)
        ==> after.textured_options.seed == before.textured_options.seed
    &&& leaves_brush(drawing, event, accepted) ==> after == before
    &&& if feeds_builder(drawing, event, accepted) {
        exists|fed: &mut B, yielded: Option<Vec<B::Segment>>|
            #[trigger] call_ensures(B::handle_event, (fed, event), yielded) && fed_step(
                before,
                event,
                accepted,
                after,
                out,
                mut_ref_current(fed),
                yielded,
            )
    } else {
        out.1@ == actions_for::<B::Element, B::Segment, SV, TV>(
            drawing,
            before.style,
            event,
            accepted,
            after.derived_style(),
            None,
        )
    }
}

impl<B: PathBuilder, SV: Copy, TV: Copy> Brush<B, SV, TV> {
    /// An idle brush with the given style and options.
    pub fn new(
        style: BrushStyle,
        smooth_options: SmoothOptions<SV>,
        textured_options: TexturedOptions<TV>,
    ) -> (brush: Self)
        ensures
            brush == (Brush::<B, SV, TV> {
                style,
                smooth_options,
                textured_options,
                state: BrushState::Idle,
            }),
    {
        Self { style, smooth_options, textured_options, state: BrushState::Idle }
    }

    /// Whether a stroke is in progress.
    pub fn is_drawing(&self) -> (drawing: bool)
        ensures
            drawing == self.drawing(),
    {
        match &self.state {
            BrushState::Idle => false,
            BrushState::Drawing { .. } => true,
        }
    }

    /// Handles one pen event on a sheet with the bounds `sheet_bounds`.
    ///
    /// A pen-down event is accepted exactly when parry finds the position of
    /// its element within the sheet's bounds grown by `INPUT_OVERSHOOT`. The
    /// position is what the path builder gives for the element. Where the
    /// event is fed to the path builder, the actions are those of the
    /// builder's answer, and after a pen-down event the brush goes on with the
    /// builder as the call left it.
    pub fn handle_event(&mut self, event: PenEvent<B::Element>, sheet_bounds: &Aabb) -> (out: (
        SurfaceFlags,
        Vec<BrushAction<B::Element, B::Segment, SV, TV>>,
    ))
        ensures
            match event {
                PenEvent::Down { element } => (exists|pos: Vector|
                    {
                        &&& call_ensures(B::element_pos, (&element,), pos)
                        &&& #[trigger] stepped(
                            *old(self),
                            event,
                            within_input_bounds(*sheet_bounds, pos),
                            *final(self),
                            out,
                        )
                        &&& within_input_bounds(*sheet_bounds, pos) ==> exists|
                            fed: &mut B,
                            yielded: Option<Vec<B::Segment>>,
                        |
                            #[trigger] call_ensures(B::handle_event, (fed, event), yielded)
                                && fed_step(
                                *old(self),
                                event,
                                true,
                                *final(self),
                                out,
                                mut_ref_current(fed),
                                yielded,
                            ) && keeps_builder(event, *final(self), mut_ref_future(fed))
                    }),
                _ => stepped(*old(self), event, true, *final(self), out),
            },
    {
        match event {
            PenEvent::Down { element } => {
                let pos = B::element_pos(&element);
                let accepted = within_loosened(sheet_bounds, INPUT_OVERSHOOT, &pos);
                let out = self.step(event, accepted);
                assert(stepped(
                    *old(self),
                    event,
                    within_input_bounds(*sheet_bounds, pos),
                    *self,
                    out,
                ));
                out
            },
            _ => self.step(event, true),
        }
    }

    /// Handles one pen event, `accepted` saying whether a pen-down event lies
    /// within the input bounds. For other events `accepted` changes nothing.
    ///
    /// Where the event starts a textured stroke, the stroke's seed is drawn
    /// here, and only then. Where the operating system gives none, the stroke
    /// has no seed.
    pub fn step(&mut self, event: PenEvent<B::Element>, accepted: bool) -> (out: (
        SurfaceFlags,
        Vec<BrushAction<B::Element, B::Segment, SV, TV>>,
    ))
        ensures
            stepped(*old(self), event, accepted, *final(self), out),
            feeds_builder(old(self).drawing(), event, accepted) ==> exists|
                fed: &mut B,
                yielded: Option<Vec<B::Segment>>,
            |
                #[trigger] call_ensures(B::handle_event, (fed, event), yielded) && fed_step(
                    *old(self),
                    event,
                    accepted,
                    *final(self),
                    out,
                    mut_ref_current(fed),
                    yielded,
                ) && keeps_builder(event, *final(self), mut_ref_future(fed)),
    {
        let seed = match (&self.state, &event, self.style) {
            (BrushState::Idle, PenEvent::Down { .. }, BrushStyle::Textured) => {
                if accepted {
                    fresh_seed()
                } else {
                    None
                }
            },
            _ => None,
        };
        self.step_seeded(event, accepted, seed)
    }

    /// Handles one pen event as `step` does, with `seed` as the seed of the
    /// stroke where the event starts a textured one: `None` stands for a
    /// stroke without a seed. Elsewhere `seed` is not looked at.
    pub fn step_seeded(
        &mut self,
        event: PenEvent<B::Element>,
        accepted: bool,
        seed: Option<u64>,
    ) -> (out: (SurfaceFlags, Vec<BrushAction<B::Element, B::Segment, SV, TV>>))
        ensures
            stepped(*old(self), event, accepted, *final(self), out),
            starts_stroke(old(self).drawing(), event, accepted) && old(self).style
                == BrushStyle::Textured ==> final(self).textured_options.seed == seed,
            feeds_builder(old(self).drawing(), event, accepted) ==> exists|
                fed: &mut B,
                yielded: Option<Vec<B::Segment>>,
            |
                #[trigger] call_ensures(B::handle_event, (fed, event), yielded) && fed_step(
                    *old(self),
                    event,
                    accepted,
                    *final(self),
                    out,
                    mut_ref_current(fed),
                    yielded,
                ) && keeps_builder(event, *final(self), mut_ref_future(fed)),
    {
        let surface_flags = SurfaceFlags::default();
        let style = self.style;
        let ghost drawing = self.drawing();
        let ghost mut yielded_view: Option<Seq<B::Segment>> = None;
        let mut state = BrushState::Idle;
        core::mem::swap(&mut self.state, &mut state);

        let actions = match (state, event) {
            (BrushState::Idle, PenEvent::Down { element }) => {
                if accepted {
                    // A new seed for a new textured stroke
                    if style == BrushStyle::Textured {
                        self.textured_options.seed = seed;
                    }
                    let derived = self.gen_style_for_current_options();

                    let mut path_builder = B::start(element);
                    let yielded = path_builder.handle_event(event);
                    proof {
                        yielded_view = yield_view(yielded);
                    }

                    self.state = BrushState::Drawing { path_builder };
                    actions_on_start(style, element, derived, yielded)
                } else {
                    Vec::new()
                }
            },
            (BrushState::Idle, PenEvent::Up { .. }) => {
                let mut actions = Vec::new();
                actions.push(stop_audio(style));
                actions
            },
            (BrushState::Drawing { path_builder }, PenEvent::Down { .. }) => {
                let mut path_builder = path_builder;
                let actions = if accepted {
                    let yielded = path_builder.handle_event(event);
                    proof {
                        yielded_view = yield_view(yielded);
                    }
                    actions_on_extend(yielded)
                } else {
                    Vec::new()
                };
                self.state = BrushState::Drawing { path_builder };
                actions
            },
            (BrushState::Drawing { path_builder }, PenEvent::Up { .. }) => {
                let mut path_builder = path_builder;
                let yielded = path_builder.handle_event(event);
                proof {
                    yielded_view = yield_view(yielded);
                }
                actions_on_finish(style, yielded)
            },
            (BrushState::Idle, PenEvent::Cancel) => {
                let mut actions = Vec::new();
                actions.push(stop_audio(style));
                actions
            },
            (BrushState::Drawing { .. }, PenEvent::Cancel) => actions_on_cancel(style),
            (state, PenEvent::Proximity { .. }) => {
                self.state = state;
                Vec::new()
            },
        };

        assert(actions@ == actions_for(
            drawing,
            style,
            event,
            accepted,
            self.derived_style(),
            yielded_view,
        ));
        (surface_flags, actions)
    }

    /// The style of a stroke that starts now, derived from the brush's style
    /// and options.
    pub fn gen_style_for_current_options(&self) -> (style: Style<SV, TV>)
        ensures
            style == self.derived_style(),
    {
        match &self.style {
            BrushStyle::Marker => {
                let mut options = self.smooth_options;
                options.segment_constant_width = true;

                Style::Smooth(options)
            },
            BrushStyle::Solid => {
                let options = self.smooth_options;

                Style::Smooth(options)
            },
            BrushStyle::Textured => {
                let options = self.textured_options;

                Style::Textured(options)
            },
        }
    }

    /// What there is to compose for the sheet: the path builder of the stroke
    /// in progress and the options to compose it with, `None` on an idle brush.
    pub fn composition(&self) -> (composed: Option<(&B, Style<SV, TV>)>)
        ensures
            match composed {
                Some((path_builder, style)) => self.state == (BrushState::Drawing {
                    path_builder: *path_builder,
                }) && style == self.composing_style(),
                None => !self.drawing(),
            },
    {
        match (&self.state, self.style) {
            (BrushState::Idle, _) => None,
            (BrushState::Drawing { path_builder }, BrushStyle::Marker) => Some(
                (path_builder, Style::Smooth(self.smooth_options)),
            ),
            (BrushState::Drawing { path_builder }, BrushStyle::Solid) => Some(
                (path_builder, Style::Smooth(self.smooth_options)),
            ),
            (BrushState::Drawing { path_builder }, BrushStyle::Textured) => Some(
                (path_builder, Style::Textured(self.textured_options)),
            ),
        }
    }
}

impl<B: PathComposer<SV, TV>, SV: Copy, TV: Copy> Brush<B, SV, TV> {
    /// The bounds of the stroke in progress on the sheet, for the host to
    /// redraw no more than it must: `None` on an idle brush, and else what the
    /// path builder gives as its bounds when composed with the options of the
    /// brush's style.
    pub fn bounds_on_sheet(&self) -> (bounds: Option<Aabb>)
        ensures
            match bounds {
                Some(bounds) => self.state is Drawing && call_ensures(
                    B::composed_bounds,
                    (&self.state->path_builder, &self.composing_style()),
                    bounds,
                ),
                None => self.state is Idle,
            },
    {
        match (&self.state, self.style) {
            (BrushState::Idle, _) => None,
            (BrushState::Drawing { path_builder }, BrushStyle::Marker) => {
                Some(path_builder.composed_bounds(&Style::Smooth(self.smooth_options)))
            },
            (BrushState::Drawing { path_builder }, BrushStyle::Solid) => {
                Some(path_builder.composed_bounds(&Style::Smooth(self.smooth_options)))
            },
            (BrushState::Drawing { path_builder }, BrushStyle::Textured) => {
                Some(path_builder.composed_bounds(&Style::Textured(self.textured_options)))
            },
        }
    }
}

impl<B: PathBuilder, SV: Copy + Default, TV: Copy + Default> Default for Brush<B, SV, TV> {
    /// An idle brush of the default style, with the default options.
    fn default() -> (brush: Self)
        ensures
            brush.style == BrushStyle::Solid,
            !brush.smooth_options.segment_constant_width,
            brush.textured_options.seed is None,
            brush.state is Idle,
    {
        Self {
            style: BrushStyle::default(),
            smooth_options: SmoothOptions::default(),
            textured_options: TexturedOptions::default(),
            state: BrushState::Idle,
        }
    }
}

/// Appends one `AddSegment` per segment to `actions`, in order.
pub fn push_segments<E, S, SV, TV>(
    actions: &mut Vec<BrushAction<E, S, SV, TV>>,
    new_segments: Vec<S>,
)
    ensures
        final(actions)@ == old(actions)@ + segment_actions::<E, S, SV, TV>(new_segments@),
{
    let ghost before = actions@;
    for new_segment in it: new_segments.into_iter()
        invariant
            it.seq() == new_segments@,
            actions@ == before + segment_actions::<E, S, SV, TV>(new_segments@.take(it.index())),
    {
        actions.push(BrushAction::AddSegment { segment: new_segment });
    }
}

/// The actions of a stroke's start, for what the path builder handed back on
/// the first event.
pub fn actions_on_start<E, S, SV, TV>(
    style: BrushStyle,
    start: E,
    derived: Style<SV, TV>,
    yielded: Option<Vec<S>>,
) -> (actions: Vec<BrushAction<E, S, SV, TV>>)
    ensures
        actions@ == stroke_started(style, start, derived, yield_view(yielded)),
{
    let mut actions = Vec::new();
    actions.push(start_audio(style));
    actions.push(BrushAction::InsertStroke { start, style: derived });
    if let Some(new_segments) = yielded {
        push_segments(&mut actions, new_segments);
    }
    actions.push(BrushAction::RegenerateRendering);
    actions
}

/// The actions of one more pen-down event in a stroke, for what the path
/// builder handed back on it.
pub fn actions_on_extend<E, S, SV, TV>(yielded: Option<Vec<S>>) -> (actions: Vec<
    BrushAction<E, S, SV, TV>,
>)
    ensures
        actions@ == stroke_extended::<E, S, SV, TV>(yield_view(yielded)),
{
    let mut actions = Vec::new();
    if let Some(new_segments) = yielded {
        let no_segments = new_segments.len();
        push_segments(&mut actions, new_segments);
        actions.push(BrushAction::AppendRenderingLastSegments { no_segments });
    }
    actions
}

/// The actions of a stroke's end, for what the path builder handed back on the
/// pen-up event.
pub fn actions_on_finish<E, S, SV, TV>(style: BrushStyle, yielded: Option<Vec<S>>) -> (actions:
    Vec<BrushAction<E, S, SV, TV>>)
    ensures
        actions@ == stroke_finished::<E, S, SV, TV>(yield_view(yielded)),
{
    let mut actions = Vec::new();
    actions.push(stop_audio(style));
    if let Some(new_segments) = yielded {
        push_segments(&mut actions, new_segments);
    }
    // Finish up the last stroke
    actions.push(BrushAction::UpdateGeometry);
    actions.push(BrushAction::RegenerateRendering);
    actions
}

/// The actions of a cancelled stroke.
pub fn actions_on_cancel<E, S, SV, TV>(style: BrushStyle) -> (actions: Vec<
    BrushAction<E, S, SV, TV>,
>)
    ensures
        actions@ == stroke_cancelled::<E, S, SV, TV>(),
{
    let mut actions = Vec::new();
    actions.push(stop_audio(style));
    // Finish up the last stroke
    actions.push(BrushAction::UpdateGeometry);
    actions.push(BrushAction::RegenerateRenderingThreaded);
    actions
}

/// The audio cue that starts a stroke: a marker makes one sound per stroke, the
/// other styles a sound that lasts as long as the stroke.
pub fn start_audio<E, S, SV, TV>(style: BrushStyle) -> (cue: BrushAction<E, S, SV, TV>)
    ensures
        cue == start_audio_action::<E, S, SV, TV>(style),
{
    match style {
        BrushStyle::Marker => BrushAction::PlayMarkerSound,
        BrushStyle::Solid | BrushStyle::Textured => BrushAction::StartBrushSound,
    }
}

/// The audio cue that ends a stroke. It is the same for every style.
pub fn stop_audio<E, S, SV, TV>(_style: BrushStyle) -> (cue: BrushAction<E, S, SV, TV>)
    ensures
        cue == BrushAction::<E, S, SV, TV>::StopBrushSound,
{
    BrushAction::StopBrushSound
}

/// Draws the seed of one stroke. `SeedableRng::from_rng` seeds a `Pcg64`
/// generator of `rand_pcg` from `OsRng`, the operating system's source of
/// entropy, and `Rng::gen` takes the generator's next number. `None` is the
/// error of `from_rng`: the operating system gave no entropy. Nothing is
/// claimed of the number.
#[verifier::external_body]
fn fresh_seed() -> Option<u64> {
    match rand_pcg::Pcg64::from_rng(rand::rngs::OsRng) {
        Ok(mut generator) => Some(generator.gen()),
        Err(_) => None,
    }
}

} // verus!
