//! What holds of the brush over whole runs of pen events.
//!
//! A run is a sequence of steps. Each step holds one event with what the brush
//! cannot know by itself: whether a pen-down event was accepted, the style that
//! a stroke started then is drawn with, and what the path builder handed back.

use crate::compose::Style;
use crate::pens::brush::actions_for;
use crate::pens::brush::fed_from;
use crate::pens::brush::fed_step;
use crate::pens::brush::feeds_builder;
use crate::pens::brush::next_drawing;
use crate::pens::brush::segment_actions;
use crate::pens::brush::start_audio_action;
use crate::pens::brush::starts_stroke;
use crate::pens::brush::stepped;
use crate::pens::brush::stroke_cancelled;
use crate::pens::brush::stroke_extended;
use crate::pens::brush::stroke_finished;
use crate::pens::brush::stroke_started;
use crate::pens::brush::yield_view;
use crate::pens::brush::yielded_segments;
use crate::pens::brush::BrushAction;
use crate::pens::brush::BrushStyle;
use crate::pens::brush::Brush;
use crate::compose::PathBuilder;
use crate::pens::penevent::PenEvent;
use crate::surfaceflags::SurfaceFlags;
use vstd::prelude::*;

verus! {

/// One step of a run.
pub struct PenStep<E, S, SV, TV> {
    /// The style of the brush when the event arrives.
    pub style: BrushStyle,
    pub event: PenEvent<E>,
    /// Whether a pen-down event lies within the input bounds.
    pub accepted: bool,
    /// The style of a stroke that the event starts.
    pub derived: Style<SV, TV>,
    /// What the path builder hands back where the event is fed to it.
    pub yielded: Option<Seq<S>>,
}

/// How many strokes the actions insert into the store.
pub open spec fn inserted_strokes<E, S, SV, TV>(actions: Seq<BrushAction<E, S, SV, TV>>) -> nat
    decreases actions.len(),
{
    if actions.len() == 0 {
        0
    } else {
        inserted_strokes(actions.drop_last()) + if actions.last() is InsertStroke {
            1nat
        } else {
            0nat
        }
    }
}

/// The segments that the actions append to the stroke, in order.
pub open spec fn recorded_segments<E, S, SV, TV>(actions: Seq<BrushAction<E, S, SV, TV>>) -> Seq<S>
    decreases actions.len(),
{
    if actions.len() == 0 {
        Seq::empty()
    } else {
        let before = recorded_segments(actions.drop_last());
        match actions.last() {
            BrushAction::AddSegment { segment } => before.push(segment),
            _ => before,
        }
    }
}

/// Whether the brush is drawing after the run, having been `drawing` before it.
pub open spec fn drawing_after<E, S, SV, TV>(
    drawing: bool,
    steps: Seq<PenStep<E, S, SV, TV>>,
) -> bool
    decreases steps.len(),
{
    if steps.len() == 0 {
        drawing
    } else {
        next_drawing(
            drawing_after(drawing, steps.drop_last()),
            steps.last().event,
            steps.last().accepted,
        )
    }
}

/// The actions of the whole run, in order.
pub open spec fn actions_of<E, S, SV, TV>(drawing: bool, steps: Seq<PenStep<E, S, SV, TV>>) -> Seq<
    BrushAction<E, S, SV, TV>,
>
    decreases steps.len(),
{
    if steps.len() == 0 {
        Seq::empty()
    } else {
        let earlier = steps.drop_last();
        let step = steps.last();
        actions_of(drawing, earlier) + actions_for(
            drawing_after(drawing, earlier),
            step.style,
            step.event,
            step.accepted,
            step.derived,
            step.yielded,
        )
    }
}

/// The segments that the path builder hands back over the whole run, in order.
pub open spec fn yielded_of<E, S, SV, TV>(drawing: bool, steps: Seq<PenStep<E, S, SV, TV>>) -> Seq<
    S,
>
    decreases steps.len(),
{
    if steps.len() == 0 {
        Seq::empty()
    } else {
        let earlier = steps.drop_last();
        let step = steps.last();
        if feeds_builder(drawing_after(drawing, earlier), step.event, step.accepted) {
            yielded_of(drawing, earlier) + yielded_segments(step.yielded)
        } else {
            yielded_of(drawing, earlier)
        }
    }
}

/// One more action adds at most one inserted stroke and at most one recorded
/// segment, according to what it is.
pub proof fn lemma_count_push<E, S, SV, TV>(
    actions: Seq<BrushAction<E, S, SV, TV>>,
    action: BrushAction<E, S, SV, TV>,
)
    ensures
        inserted_strokes(actions.push(action)) == inserted_strokes(actions) + if action
            is InsertStroke {
            1nat
        } else {
            0nat
        },
        recorded_segments(actions.push(action)) == match action {
            BrushAction::AddSegment { segment } => recorded_segments(actions).push(segment),
            _ => recorded_segments(actions),
        },
{
    assert(actions.push(action).drop_last() == actions);
}

/// The strokes inserted and the segments recorded by two runs of actions, one
/// after the other, are those of the first followed by those of the second.
pub proof fn lemma_count_concat<E, S, SV, TV>(
    first: Seq<BrushAction<E, S, SV, TV>>,
    second: Seq<BrushAction<E, S, SV, TV>>,
)
    ensures
        inserted_strokes(first + second) == inserted_strokes(first) + inserted_strokes(second),
        recorded_segments(first + second) == recorded_segments(first) + recorded_segments(second),
    decreases second.len(),
{
    if second.len() == 0 {
        assert(first + second == first);
        assert(recorded_segments(first) + Seq::<S>::empty() == recorded_segments(first));
    } else {
        let earlier = second.drop_last();
        lemma_count_concat(first, earlier);
        assert((first + second).drop_last() == first + earlier);
        assert((first + second).last() == second.last());
        match second.last() {
            BrushAction::AddSegment { segment } => {
                assert((recorded_segments(first) + recorded_segments(earlier)).push(segment)
                    == recorded_segments(first) + recorded_segments(earlier).push(segment));
            },
            _ => {},
        }
    }
}

/// The actions that record segments record exactly those segments, in order,
/// and insert no stroke.
pub proof fn lemma_segment_actions_record<E, S, SV, TV>(segments: Seq<S>)
    ensures
        recorded_segments(segment_actions::<E, S, SV, TV>(segments)) == segments,
        inserted_strokes(segment_actions::<E, S, SV, TV>(segments)) == 0,
    decreases segments.len(),
{
    let actions = segment_actions::<E, S, SV, TV>(segments);
    if segments.len() == 0 {
        assert(recorded_segments(actions) == segments);
    } else {
        lemma_segment_actions_record::<E, S, SV, TV>(segments.drop_last());
        assert(actions.drop_last() == segment_actions::<E, S, SV, TV>(segments.drop_last()));
        assert(actions.last() == BrushAction::<E, S, SV, TV>::AddSegment {
            segment: segments.last(),
        });
        assert(segments.drop_last().push(segments.last()) == segments);
    }
}

/// A stroke's start inserts one stroke and records what the path builder
/// handed back.
pub proof fn lemma_stroke_started<E, S, SV, TV>(
    style: BrushStyle,
    start: E,
    derived: Style<SV, TV>,
    yielded: Option<Seq<S>>,
)
    ensures
        inserted_strokes(stroke_started(style, start, derived, yielded)) == 1,
        recorded_segments(stroke_started(style, start, derived, yielded)) == yielded_segments(
            yielded,
        ),
{
    let segments = yielded_segments(yielded);
    let recording = segment_actions::<E, S, SV, TV>(segments);
    let nothing = Seq::<BrushAction<E, S, SV, TV>>::empty();
    let cue = start_audio_action::<E, S, SV, TV>(style);
    let insert = BrushAction::<E, S, SV, TV>::InsertStroke { start, style: derived };
    let opening = seq![cue, insert];
    lemma_segment_actions_record::<E, S, SV, TV>(segments);
    lemma_count_push(nothing, cue);
    lemma_count_push(nothing.push(cue), insert);
    assert(opening == nothing.push(cue).push(insert));
    lemma_count_concat(opening, recording);
    lemma_count_push(opening + recording, BrushAction::RegenerateRendering);
    assert(stroke_started(style, start, derived, yielded) == (opening + recording).push(
        BrushAction::RegenerateRendering,
    ));
    assert(Seq::<S>::empty() + segments == segments);
}

/// One more pen-down event in a stroke inserts no stroke and records what the
/// path builder handed back.
pub proof fn lemma_stroke_extended<E, S, SV, TV>(yielded: Option<Seq<S>>)
    ensures
        inserted_strokes(stroke_extended::<E, S, SV, TV>(yielded)) == 0,
        recorded_segments(stroke_extended::<E, S, SV, TV>(yielded)) == yielded_segments(yielded),
{
    match yielded {
        Some(segments) => {
            let recording = segment_actions::<E, S, SV, TV>(segments);
            let rendering = BrushAction::<E, S, SV, TV>::AppendRenderingLastSegments {
                no_segments: segments.len() as usize,
            };
            lemma_segment_actions_record::<E, S, SV, TV>(segments);
            lemma_count_push(recording, rendering);
            assert(stroke_extended::<E, S, SV, TV>(yielded) == recording.push(rendering));
        },
        None => {},
    }
}

/// A stroke's end inserts no stroke and records what the path builder handed
/// back.
pub proof fn lemma_stroke_finished<E, S, SV, TV>(yielded: Option<Seq<S>>)
    ensures
        inserted_strokes(stroke_finished::<E, S, SV, TV>(yielded)) == 0,
        recorded_segments(stroke_finished::<E, S, SV, TV>(yielded)) == yielded_segments(yielded),
{
    let segments = yielded_segments(yielded);
    let recording = segment_actions::<E, S, SV, TV>(segments);
    let nothing = Seq::<BrushAction<E, S, SV, TV>>::empty();
    let opening = seq![BrushAction::<E, S, SV, TV>::StopBrushSound];
    lemma_segment_actions_record::<E, S, SV, TV>(segments);
    lemma_count_push(nothing, BrushAction::StopBrushSound);
    assert(opening == nothing.push(BrushAction::StopBrushSound));
    lemma_count_concat(opening, recording);
    lemma_count_push(opening + recording, BrushAction::UpdateGeometry);
    lemma_count_push(
        (opening + recording).push(BrushAction::UpdateGeometry),
        BrushAction::RegenerateRendering,
    );
    assert(stroke_finished::<E, S, SV, TV>(yielded) == (opening + recording).push(
        BrushAction::UpdateGeometry,
    ).push(BrushAction::RegenerateRendering));
    assert(Seq::<S>::empty() + segments == segments);
}

/// The actions that hold neither an insertion nor a segment: those of a
/// cancelled stroke, the lone audio stop of an idle brush, and no action at all.
pub proof fn lemma_silent_actions<E, S, SV, TV>()
    ensures
        inserted_strokes(stroke_cancelled::<E, S, SV, TV>()) == 0,
        recorded_segments(stroke_cancelled::<E, S, SV, TV>()) == Seq::<S>::empty(),
        inserted_strokes(seq![BrushAction::<E, S, SV, TV>::StopBrushSound]) == 0,
        recorded_segments(seq![BrushAction::<E, S, SV, TV>::StopBrushSound]) == Seq::<S>::empty(),
        inserted_strokes(Seq::<BrushAction<E, S, SV, TV>>::empty()) == 0,
        recorded_segments(Seq::<BrushAction<E, S, SV, TV>>::empty()) == Seq::<S>::empty(),
{
    let nothing = Seq::<BrushAction<E, S, SV, TV>>::empty();
    let stop = BrushAction::<E, S, SV, TV>::StopBrushSound;
    lemma_count_push(nothing, stop);
    lemma_count_push(nothing.push(stop), BrushAction::UpdateGeometry);
    lemma_count_push(
        nothing.push(stop).push(BrushAction::UpdateGeometry),
        BrushAction::RegenerateRenderingThreaded,
    );
    assert(seq![stop] == nothing.push(stop));
    assert(stroke_cancelled::<E, S, SV, TV>() == nothing.push(stop).push(
        BrushAction::UpdateGeometry,
    ).push(BrushAction::RegenerateRenderingThreaded));
}

/// Whatever the event and the state, its actions record exactly the segments
/// that the path builder handed back, once each and in order, and nothing
/// where the builder is not fed. They insert one stroke where the event starts
/// a stroke, and none otherwise.
pub proof fn lemma_event_actions<E, S, SV, TV>(drawing: bool, step: PenStep<E, S, SV, TV>)
    ensures
        recorded_segments(
            actions_for(drawing, step.style, step.event, step.accepted, step.derived, step.yielded),
        ) == if feeds_builder(drawing, step.event, step.accepted) {
            yielded_segments(step.yielded)
        } else {
            Seq::empty()
        },
        inserted_strokes(
            actions_for(drawing, step.style, step.event, step.accepted, step.derived, step.yielded),
        ) == if starts_stroke(drawing, step.event, step.accepted) {
            1nat
        } else {
            0nat
        },
{
    lemma_silent_actions::<E, S, SV, TV>();
    lemma_stroke_extended::<E, S, SV, TV>(step.yielded);
    lemma_stroke_finished::<E, S, SV, TV>(step.yielded);
    match step.event {
        PenEvent::Down { element } => {
            lemma_stroke_started(step.style, element, step.derived, step.yielded);
        },
        _ => {},
    }
}

/// Over any run of events, from either state, every segment that a step holds
/// as handed back by the path builder is recorded once, in the order in which
/// it came, and nothing else is recorded.
pub proof fn lemma_run_records_yielded<E, S, SV, TV>(
    drawing: bool,
    steps: Seq<PenStep<E, S, SV, TV>>,
)
    ensures
        recorded_segments(actions_of(drawing, steps)) == yielded_of(drawing, steps),
    decreases steps.len(),
{
    if steps.len() > 0 {
        let earlier = steps.drop_last();
        let step = steps.last();
        let now = drawing_after(drawing, earlier);
        lemma_run_records_yielded(drawing, earlier);
        lemma_event_actions(now, step);
        lemma_count_concat(
            actions_of(drawing, earlier),
            actions_for(now, step.style, step.event, step.accepted, step.derived, step.yielded),
        );
        assert(yielded_of(drawing, earlier) + Seq::<S>::empty() == yielded_of(drawing, earlier));
    }
}

/// As long as no event is an accepted pen-down event, an idle brush stays
/// idle, inserts no stroke and records no segment.
pub proof fn lemma_idle_stays_idle<E, S, SV, TV>(steps: Seq<PenStep<E, S, SV, TV>>)
    requires
        forall|i: int|
            0 <= i < steps.len() ==> !((#[trigger] steps[i]).event is Down && steps[i].accepted),
    ensures
        !drawing_after(false, steps),
        inserted_strokes(actions_of(false, steps)) == 0,
        recorded_segments(actions_of(false, steps)) == Seq::<S>::empty(),
    decreases steps.len(),
{
    if steps.len() == 0 {
        lemma_silent_actions::<E, S, SV, TV>();
    } else {
        let earlier = steps.drop_last();
        let step = steps.last();
        assert forall|i: int| 0 <= i < earlier.len() implies !((#[trigger] earlier[i]).event is Down
            && earlier[i].accepted) by {
            assert(earlier[i] == steps[i]);
        }
        lemma_idle_stays_idle(earlier);
        assert(step == steps[steps.len() - 1]);
        lemma_event_actions(false, step);
        lemma_count_concat(
            actions_of(false, earlier),
            actions_for(false, step.style, step.event, step.accepted, step.derived, step.yielded),
        );
        assert(Seq::<S>::empty() + Seq::<S>::empty() == Seq::<S>::empty());
    }
}

/// A run that ends with a pen-up or a cancel event leaves the brush idle,
/// whatever came before.
pub proof fn lemma_lifted_pen_is_idle<E, S, SV, TV>(
    drawing: bool,
    steps: Seq<PenStep<E, S, SV, TV>>,
)
    requires
        steps.len() > 0,
        steps.last().event is Up || steps.last().event is Cancel,
    ensures
        !drawing_after(drawing, steps),
{
}

/// While the pen is neither lifted nor cancelled, at most one stroke is
/// inserted: none by a brush that is drawing already, and by an idle brush one
/// if and only if it ends up drawing. A second accepted pen-down event extends
/// the stroke of the first.
pub proof fn lemma_one_stroke_until_lifted<E, S, SV, TV>(
    drawing: bool,
    steps: Seq<PenStep<E, S, SV, TV>>,
)
    requires
        forall|i: int|
            0 <= i < steps.len() ==> !((#[trigger] steps[i]).event is Up) && !(steps[i].event
                is Cancel),
    ensures
        drawing ==> drawing_after(drawing, steps),
        inserted_strokes(actions_of(drawing, steps)) == if !drawing && drawing_after(
            drawing,
            steps,
        ) {
            1nat
        } else {
            0nat
        },
    decreases steps.len(),
{
    if steps.len() == 0 {
        lemma_silent_actions::<E, S, SV, TV>();
    } else {
        let earlier = steps.drop_last();
        let step = steps.last();
        assert forall|i: int| 0 <= i < earlier.len() implies !((#[trigger] earlier[i]).event is Up)
            && !(earlier[i].event is Cancel) by {
            assert(earlier[i] == steps[i]);
        }
        lemma_one_stroke_until_lifted(drawing, earlier);
        assert(step == steps[steps.len() - 1]);
        let now = drawing_after(drawing, earlier);
        lemma_event_actions(now, step);
        lemma_count_concat(
            actions_of(drawing, earlier),
            actions_for(now, step.style, step.event, step.accepted, step.derived, step.yielded),
        );
    }
}

/// A pen-down event outside the input bounds changes nothing: the brush is as
/// it was, in either state, and there is nothing for the host to do.
pub proof fn lemma_rejected_down_is_dropped<B: PathBuilder, SV, TV>(
    before: Brush<B, SV, TV>,
    event: PenEvent<B::Element>,
    after: Brush<B, SV, TV>,
    out: (SurfaceFlags, Vec<BrushAction<B::Element, B::Segment, SV, TV>>),
)
    requires
        event is Down,
        stepped(before, event, false, after, out),
    ensures
        after == before,
        out.0 == SurfaceFlags::empty(),
        out.1@ == Seq::<BrushAction<B::Element, B::Segment, SV, TV>>::empty(),
{
}

/// A cancel event always leaves the brush idle and hands back nothing but its
/// actions. The rendering of a cancelled stroke is regenerated in the
/// background, so that its outcome never reaches the brush.
pub proof fn lemma_cancel_always_succeeds<B: PathBuilder, SV, TV>(
    before: Brush<B, SV, TV>,
    accepted: bool,
    after: Brush<B, SV, TV>,
    out: (SurfaceFlags, Vec<BrushAction<B::Element, B::Segment, SV, TV>>),
)
    requires
        stepped(before, PenEvent::Cancel, accepted, after, out),
    ensures
        !after.drawing(),
        out.0 == SurfaceFlags::empty(),
        before.drawing() ==> out.1@ == stroke_cancelled::<B::Element, B::Segment, SV, TV>(),
        !before.drawing() ==> out.1@ == seq![
            BrushAction::<B::Element, B::Segment, SV, TV>::StopBrushSound,
        ],
{
}

/// The style of a new stroke depends on the brush's style and options alone,
/// and a marker's has constant width forced on, whatever the smooth options say.
pub proof fn lemma_derived_style<B: PathBuilder, SV, TV>(a: Brush<B, SV, TV>, b: Brush<B, SV, TV>)
    ensures
        a.style == b.style && a.smooth_options == b.smooth_options && a.textured_options
            == b.textured_options ==> a.derived_style() == b.derived_style(),
        a.style == BrushStyle::Marker ==> (a.derived_style() matches Style::Smooth(options)
            && options.segment_constant_width && options.visuals == a.smooth_options.visuals),
        a.style == BrushStyle::Solid ==> a.derived_style() == Style::<SV, TV>::Smooth(
            a.smooth_options,
        ),
        a.style == BrushStyle::Textured ==> a.derived_style() == Style::<SV, TV>::Textured(
            a.textured_options,
        ),
{
}

/// One event that a brush has handled: the brush before and after it, and what
/// the brush handed back.
pub struct Handled<B: PathBuilder, SV, TV> {
    pub before: Brush<B, SV, TV>,
    pub event: PenEvent<B::Element>,
    pub accepted: bool,
    pub after: Brush<B, SV, TV>,
    pub out: (SurfaceFlags, Vec<BrushAction<B::Element, B::Segment, SV, TV>>),
}

/// Whether `trace` is what one brush did on consecutive events, starting as
/// `drawing` says: every entry is a step of the brush, and every entry starts
/// in the state that the one before left. The host may change the style and the
/// options between two events.
pub open spec fn is_trace<B: PathBuilder, SV, TV>(
    drawing: bool,
    trace: Seq<Handled<B, SV, TV>>,
) -> bool {
    &&& forall|i: int|
        0 <= i < trace.len() ==> stepped(
            (#[trigger] trace[i]).before,
            trace[i].event,
            trace[i].accepted,
            trace[i].after,
            trace[i].out,
        )
    &&& trace.len() > 0 ==> trace[0].before.drawing() == drawing
    &&& forall|i: int, j: int|
        0 <= i && j == i + 1 && j < trace.len() ==> (#[trigger] trace[j]).before.drawing() == (
        #[trigger] trace[i]).after.drawing()
}

/// The actions of the whole trace, in order.
pub open spec fn trace_actions<B: PathBuilder, SV, TV>(trace: Seq<Handled<B, SV, TV>>) -> Seq<
    BrushAction<B::Element, B::Segment, SV, TV>,
>
    decreases trace.len(),
{
    if trace.len() == 0 {
        Seq::empty()
    } else {
        trace_actions(trace.drop_last()) + trace.last().out.1@
    }
}

/// Whether `yielded` holds what the path builder answered in this step of the
/// brush: there is a call of `PathBuilder::handle_event` with the step's event,
/// on the builder that the step feeds, whose answer it is.
pub open spec fn answered<B: PathBuilder, SV, TV>(
    taken: Handled<B, SV, TV>,
    yielded: Option<Seq<B::Segment>>,
) -> bool {
    exists|fed: &mut B, answer: Option<Vec<B::Segment>>|
        #[trigger] call_ensures(B::handle_event, (fed, taken.event), answer) && fed_from(
            taken.before,
            taken.event,
            mut_ref_current(fed),
        ) && yielded == yield_view(answer)
}

/// What the path builder handed back in a step of the brush: where the step
/// feeds the builder, the builder's answer, which accounts for the step's
/// actions.
pub proof fn lemma_step_yield<B: PathBuilder, SV, TV>(taken: Handled<B, SV, TV>) -> (yielded: Option<
    Seq<B::Segment>,
>)
    requires
        stepped(taken.before, taken.event, taken.accepted, taken.after, taken.out),
    ensures
        taken.out.1@ == actions_for(
            taken.before.drawing(),
            taken.before.style,
            taken.event,
            taken.accepted,
            taken.after.derived_style(),
            yielded,
        ),
        taken.after.drawing() == next_drawing(
            taken.before.drawing(),
            taken.event,
            taken.accepted,
        ),
        feeds_builder(taken.before.drawing(), taken.event, taken.accepted) ==> answered(
            taken,
            yielded,
        ),
{
    if feeds_builder(taken.before.drawing(), taken.event, taken.accepted) {
        let (fed, answer) = choose|fed: &mut B, answer: Option<Vec<B::Segment>>|
            #[trigger] call_ensures(B::handle_event, (fed, taken.event), answer) && fed_step(
                taken.before,
                taken.event,
                taken.accepted,
                taken.after,
                taken.out,
                mut_ref_current(fed),
                answer,
            );
        yield_view(answer)
    } else {
        None
    }
}

/// A trace without its last event is a trace, and the last event starts where
/// that shorter trace ends.
pub proof fn lemma_trace_prefix<B: PathBuilder, SV, TV>(
    drawing: bool,
    trace: Seq<Handled<B, SV, TV>>,
)
    requires
        is_trace(drawing, trace),
        trace.len() > 0,
    ensures
        is_trace(drawing, trace.drop_last()),
        stepped(
            trace.last().before,
            trace.last().event,
            trace.last().accepted,
            trace.last().after,
            trace.last().out,
        ),
        trace.last().before.drawing() == if trace.len() > 1 {
            trace.drop_last().last().after.drawing()
        } else {
            drawing
        },
{
    let earlier = trace.drop_last();
    assert forall|i: int| 0 <= i < earlier.len() implies stepped(
        (#[trigger] earlier[i]).before,
        earlier[i].event,
        earlier[i].accepted,
        earlier[i].after,
        earlier[i].out,
    ) by {
        assert(earlier[i] == trace[i]);
    }
    assert forall|i: int, j: int| 0 <= i && j == i + 1 && j < earlier.len() implies (
    #[trigger] earlier[j]).before.drawing() == (#[trigger] earlier[i]).after.drawing() by {
        assert(earlier[i] == trace[i]);
        assert(earlier[j] == trace[j]);
    }
    assert(trace.last() == trace[trace.len() - 1]);
    if earlier.len() > 0 {
        assert(earlier[0] == trace[0]);
        assert(earlier.last() == trace[trace.len() - 2]);
    }
}

/// Whatever a brush does on consecutive events is a run: there are steps with
/// the same events, accepted as they were, whose actions are the brush's and
/// after which the run is drawing exactly when the brush is. Where a step
/// feeds the path builder, what the step holds as handed back is the builder's
/// answer. So what holds of every run holds of every brush.
pub proof fn lemma_trace_is_run<B: PathBuilder, SV, TV>(
    drawing: bool,
    trace: Seq<Handled<B, SV, TV>>,
) -> (steps: Seq<PenStep<B::Element, B::Segment, SV, TV>>)
    requires
        is_trace(drawing, trace),
    ensures
        steps.len() == trace.len(),
        forall|i: int|
            0 <= i < steps.len() ==> (#[trigger] steps[i]).event == trace[i].event
                && steps[i].accepted == trace[i].accepted && steps[i].style
                == trace[i].before.style,
        forall|i: int|
            0 <= i < steps.len() && feeds_builder(
                (#[trigger] trace[i]).before.drawing(),
                trace[i].event,
                trace[i].accepted,
            ) ==> answered(trace[i], steps[i].yielded),
        actions_of(drawing, steps) == trace_actions(trace),
        drawing_after(drawing, steps) == if trace.len() > 0 {
            trace.last().after.drawing()
        } else {
            drawing
        },
    decreases trace.len(),
{
    if trace.len() == 0 {
        Seq::empty()
    } else {
        let earlier = trace.drop_last();
        let taken = trace.last();
        lemma_trace_prefix(drawing, trace);
        let steps_before = lemma_trace_is_run(drawing, earlier);
        let yielded = lemma_step_yield(taken);
        let step = PenStep {
            style: taken.before.style,
            event: taken.event,
            accepted: taken.accepted,
            derived: taken.after.derived_style(),
            yielded,
        };
        let steps = steps_before.push(step);
        assert(steps.drop_last() == steps_before);
        assert(steps.last() == step);
        assert forall|i: int| 0 <= i < steps.len() implies (#[trigger] steps[i]).event
            == trace[i].event && steps[i].accepted == trace[i].accepted && steps[i].style
            == trace[i].before.style by {
            if i < steps_before.len() {
                assert(steps[i] == steps_before[i]);
                assert(earlier[i] == trace[i]);
            }
        }
        assert forall|i: int|
            0 <= i < steps.len() && feeds_builder(
                (#[trigger] trace[i]).before.drawing(),
                trace[i].event,
                trace[i].accepted,
            ) implies answered(trace[i], steps[i].yielded) by {
            if i < steps_before.len() {
                assert(steps[i] == steps_before[i]);
                assert(earlier[i] == trace[i]);
            }
        }
        steps
    }
}

/// An idle brush that is handed no accepted pen-down event is idle at the end,
/// and has asked for no stroke and no segment on the way.
pub proof fn lemma_idle_brush_stays_idle<B: PathBuilder, SV, TV>(trace: Seq<Handled<B, SV, TV>>)
    requires
        is_trace(false, trace),
        forall|i: int|
            0 <= i < trace.len() ==> !((#[trigger] trace[i]).event is Down && trace[i].accepted),
    ensures
        trace.len() > 0 ==> !trace.last().after.drawing(),
        inserted_strokes(trace_actions(trace)) == 0,
        recorded_segments(trace_actions(trace)) == Seq::<B::Segment>::empty(),
{
    let steps = lemma_trace_is_run(false, trace);
    assert forall|i: int| 0 <= i < steps.len() implies !((#[trigger] steps[i]).event is Down
        && steps[i].accepted) by {
        assert(steps[i].event == trace[i].event);
    }
    lemma_idle_stays_idle(steps);
}

/// A brush that sees neither a pen-up nor a cancel event asks for at most one
/// stroke: for none if it was drawing already, and else for one exactly when
/// it is drawing at the end.
pub proof fn lemma_brush_draws_one_stroke<B: PathBuilder, SV, TV>(
    drawing: bool,
    trace: Seq<Handled<B, SV, TV>>,
)
    requires
        is_trace(drawing, trace),
        trace.len() > 0,
        forall|i: int|
            0 <= i < trace.len() ==> !((#[trigger] trace[i]).event is Up) && !(trace[i].event
                is Cancel),
    ensures
        inserted_strokes(trace_actions(trace)) == if !drawing && trace.last().after.drawing() {
            1nat
        } else {
            0nat
        },
{
    let steps = lemma_trace_is_run(drawing, trace);
    assert forall|i: int| 0 <= i < steps.len() implies !((#[trigger] steps[i]).event is Up) && !(
    steps[i].event is Cancel) by {
        assert(steps[i].event == trace[i].event);
    }
    lemma_one_stroke_until_lifted(drawing, steps);
}

/// In one step of the brush, the segments recorded are those of the path
/// builder's answer, once each and in order, where the step feeds the builder,
/// and none where it does not.
pub proof fn lemma_step_records_answer<B: PathBuilder, SV, TV>(taken: Handled<B, SV, TV>) -> (yielded:
    Option<Seq<B::Segment>>)
    requires
        stepped(taken.before, taken.event, taken.accepted, taken.after, taken.out),
    ensures
        feeds_builder(taken.before.drawing(), taken.event, taken.accepted) ==> answered(
            taken,
            yielded,
        ) && recorded_segments(taken.out.1@) == yielded_segments(yielded),
        !feeds_builder(taken.before.drawing(), taken.event, taken.accepted) ==> recorded_segments(
            taken.out.1@,
        ) == Seq::<B::Segment>::empty(),
        inserted_strokes(taken.out.1@) == if starts_stroke(
            taken.before.drawing(),
            taken.event,
            taken.accepted,
        ) {
            1nat
        } else {
            0nat
        },
{
    let yielded = lemma_step_yield(taken);
    lemma_event_actions(
        taken.before.drawing(),
        PenStep {
            style: taken.before.style,
            event: taken.event,
            accepted: taken.accepted,
            derived: taken.after.derived_style(),
            yielded,
        },
    );
    yielded
}

/// Over whatever a brush does on consecutive events, the segments recorded are
/// the path builder's answers, one after the other: no segment is dropped,
/// doubled or out of order. The steps that come back hold those answers.
pub proof fn lemma_brush_records_answers<B: PathBuilder, SV, TV>(
    drawing: bool,
    trace: Seq<Handled<B, SV, TV>>,
) -> (steps: Seq<PenStep<B::Element, B::Segment, SV, TV>>)
    requires
        is_trace(drawing, trace),
    ensures
        steps.len() == trace.len(),
        forall|i: int|
            0 <= i < steps.len() ==> (#[trigger] steps[i]).event == trace[i].event
                && steps[i].accepted == trace[i].accepted,
        forall|i: int|
            0 <= i < steps.len() && feeds_builder(
                (#[trigger] trace[i]).before.drawing(),
                trace[i].event,
                trace[i].accepted,
            ) ==> answered(trace[i], steps[i].yielded),
        recorded_segments(trace_actions(trace)) == yielded_of(drawing, steps),
{
    let steps = lemma_trace_is_run(drawing, trace);
    lemma_run_records_yielded(drawing, steps);
    steps
}

} // verus!
