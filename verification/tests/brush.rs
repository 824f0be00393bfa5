use parry2d_f64::bounding_volume::Aabb;
use parry2d_f64::math::Vector;
use rnote_engine::compose::PathBuilder;
use rnote_engine::compose::PathComposer;
use rnote_engine::compose::SmoothOptions;
use rnote_engine::compose::Style;
use rnote_engine::compose::TexturedOptions;
use rnote_engine::pens::brush::actions_on_cancel;
use rnote_engine::pens::brush::actions_on_extend;
use rnote_engine::pens::brush::actions_on_finish;
use rnote_engine::pens::brush::actions_on_start;
use rnote_engine::pens::brush::push_segments;
use rnote_engine::pens::brush::start_audio;
use rnote_engine::pens::brush::stop_audio;
use rnote_engine::pens::brush::Brush;
use rnote_engine::pens::brush::BrushAction;
use rnote_engine::pens::brush::BrushStyle;
use rnote_engine::pens::brush::INPUT_OVERSHOOT;
use rnote_engine::pens::penevent::PenEvent;
use rnote_engine::surfaceflags::SurfaceFlags;

#[derive(Debug, Clone, Copy, PartialEq)]
struct Element {
    x: f64,
    y: f64,
    pressure: f64,
}

#[derive(Debug, Clone, Copy, PartialEq)]
struct Line {
    start: Element,
    end: Element,
}

#[derive(Debug, Clone, Copy, PartialEq, Default)]
struct SmoothVisuals {
    width: f64,
}

#[derive(Debug, Clone, Copy, PartialEq, Default)]
struct TexturedVisuals {
    width: f64,
    density: f64,
}

/// Joins the elements it is fed by straight lines. An element at the place of
/// the last one finishes nothing; a hard press finishes the line twice, once
/// up to its middle.
#[derive(Debug, Clone, PartialEq)]
struct LineBuilder {
    last: Element,
    fed: Vec<PenEvent<Element>>,
}

impl PathBuilder for LineBuilder {
    type Element = Element;
    type Segment = Line;

    fn element_pos(element: &Element) -> Vector {
        Vector::new(element.x, element.y)
    }

    fn start(element: Element) -> Self {
        LineBuilder { last: element, fed: Vec::new() }
    }

    fn handle_event(&mut self, event: PenEvent<Element>) -> Option<Vec<Line>> {
        self.fed.push(event);
        match event {
            PenEvent::Down { element } => {
                if element.x == self.last.x && element.y == self.last.y {
                    return None;
                }
                let start = self.last;
                self.last = element;
                if element.pressure > 0.9 {
                    let middle = at((start.x + element.x) / 2.0, (start.y + element.y) / 2.0);
                    Some(vec![Line { start, end: middle }, Line { start: middle, end: element }])
                } else {
                    Some(vec![Line { start, end: element }])
                }
            }
            PenEvent::Up { element } => {
                let start = self.last;
                self.last = element;
                if element.x == start.x && element.y == start.y {
                    Some(Vec::new())
                } else {
                    Some(vec![Line { start, end: element }])
                }
            }
            PenEvent::Proximity { .. } | PenEvent::Cancel => None,
        }
    }
}

/// A square of half the style's width on every side of the last element.
impl PathComposer<SmoothVisuals, TexturedVisuals> for LineBuilder {
    fn composed_bounds(&self, style: &Style<SmoothVisuals, TexturedVisuals>) -> Aabb {
        let half = match style {
            Style::Smooth(options) => options.visuals.width / 2.0,
            Style::Textured(options) => options.visuals.width / 2.0,
        };
        Aabb::new(
            Vector::new(self.last.x - half, self.last.y - half),
            Vector::new(self.last.x + half, self.last.y + half),
        )
    }
}

type TestBrush = Brush<LineBuilder, SmoothVisuals, TexturedVisuals>;
type Action = BrushAction<Element, Line, SmoothVisuals, TexturedVisuals>;

fn at(x: f64, y: f64) -> Element {
    Element { x, y, pressure: 0.5 }
}

fn pressed(x: f64, y: f64) -> Element {
    Element { x, y, pressure: 1.0 }
}

fn down(x: f64, y: f64) -> PenEvent<Element> {
    PenEvent::Down { element: at(x, y) }
}

fn up(x: f64, y: f64) -> PenEvent<Element> {
    PenEvent::Up { element: at(x, y) }
}

fn sheet() -> Aabb {
    Aabb::new(Vector::new(0.0, 0.0), Vector::new(100.0, 200.0))
}

fn smooth() -> SmoothOptions<SmoothVisuals> {
    SmoothOptions { segment_constant_width: false, visuals: SmoothVisuals { width: 2.5 } }
}

fn textured() -> TexturedOptions<TexturedVisuals> {
    TexturedOptions { seed: None, visuals: TexturedVisuals { width: 6.0, density: 5.0 } }
}

fn brush(style: BrushStyle) -> TestBrush {
    Brush::new(style, smooth(), textured())
}

fn line(x0: f64, y0: f64, x1: f64, y1: f64) -> Line {
    Line { start: at(x0, y0), end: at(x1, y1) }
}

fn recorded(actions: &[Action]) -> Vec<Line> {
    let mut lines = Vec::new();
    for action in actions {
        if let BrushAction::AddSegment { segment } = action {
            lines.push(*segment);
        }
    }
    lines
}

fn inserted(actions: &[Action]) -> usize {
    let mut count = 0;
    for action in actions {
        if matches!(action, BrushAction::InsertStroke { .. }) {
            count += 1;
        }
    }
    count
}

fn is_empty(flags: &SurfaceFlags) -> bool {
    !flags.quit
        && !flags.redraw
        && !flags.resize
        && !flags.resize_to_fit_strokes
        && flags.change_to_pen.is_none()
        && !flags.pen_changed
        && !flags.sheet_changed
        && !flags.selection_changed
        && flags.hide_scrollbars.is_none()
        && !flags.camera_offset_changed
}

#[test]
fn brush_style_defaults_to_solid() {
    assert_eq!(BrushStyle::default(), BrushStyle::Solid);
}

#[test]
fn default_brush_is_an_idle_solid_brush() {
    let brush = TestBrush::default();
    assert_eq!(brush.style, BrushStyle::Solid);
    assert!(!brush.smooth_options.segment_constant_width);
    assert_eq!(brush.smooth_options.visuals, SmoothVisuals::default());
    assert_eq!(brush.textured_options.seed, None);
    assert_eq!(brush.textured_options.visuals, TexturedVisuals::default());
    assert!(!brush.is_drawing());
    assert!(brush.composition().is_none());
}

#[test]
fn new_brush_keeps_what_it_is_given() {
    let brush = brush(BrushStyle::Marker);
    assert_eq!(brush.style, BrushStyle::Marker);
    assert_eq!(brush.smooth_options, smooth());
    assert_eq!(brush.textured_options, textured());
    assert!(!brush.is_drawing());
}

#[test]
fn input_overshoot_is_thirty_units() {
    assert_eq!(INPUT_OVERSHOOT, 30);
}

#[test]
fn idle_brush_stays_idle_without_an_accepted_down() {
    let mut brush = brush(BrushStyle::Solid);
    let events = [
        PenEvent::Proximity { element: at(10.0, 10.0) },
        up(10.0, 10.0),
        PenEvent::Cancel,
        down(500.0, 10.0),
        PenEvent::Proximity { element: at(500.0, 500.0) },
        down(-31.0, 10.0),
        up(500.0, 10.0),
        PenEvent::Cancel,
    ];
    let mut all = Vec::new();
    for event in events {
        let (flags, actions) = brush.handle_event(event, &sheet());
        assert!(is_empty(&flags));
        assert!(!brush.is_drawing());
        all.extend(actions);
    }
    assert_eq!(inserted(&all), 0);
    assert_eq!(recorded(&all), Vec::<Line>::new());
    assert_eq!(
        all,
        vec![
            BrushAction::StopBrushSound,
            BrushAction::StopBrushSound,
            BrushAction::StopBrushSound,
            BrushAction::StopBrushSound
        ]
    );
}

#[test]
fn idle_up_and_cancel_only_stop_the_audio() {
    let mut brush = brush(BrushStyle::Marker);
    let (_, actions) = brush.handle_event(up(1.0, 1.0), &sheet());
    assert_eq!(actions, vec![BrushAction::StopBrushSound]);
    let (_, actions) = brush.handle_event(PenEvent::Cancel, &sheet());
    assert_eq!(actions, vec![BrushAction::StopBrushSound]);
    let (_, actions) = brush.handle_event(PenEvent::Proximity { element: at(1.0, 1.0) }, &sheet());
    assert_eq!(actions, Vec::<Action>::new());
    assert!(!brush.is_drawing());
}

#[test]
fn accepted_down_starts_one_stroke() {
    let mut brush = brush(BrushStyle::Solid);
    let (flags, actions) = brush.handle_event(down(10.0, 20.0), &sheet());
    assert!(is_empty(&flags));
    assert!(brush.is_drawing());
    // the builder starts at the element, so that the first event finishes nothing
    assert_eq!(
        actions,
        vec![
            BrushAction::StartBrushSound,
            BrushAction::InsertStroke { start: at(10.0, 20.0), style: Style::Smooth(smooth()) },
            BrushAction::RegenerateRendering,
        ]
    );
    assert_eq!(inserted(&actions), 1);
    let (builder, _) = brush.composition().unwrap();
    assert_eq!(builder.fed, vec![down(10.0, 20.0)]);
}

#[test]
fn second_down_extends_the_stroke_of_the_first() {
    let mut brush = brush(BrushStyle::Solid);
    let (_, first) = brush.handle_event(down(10.0, 20.0), &sheet());
    let (flags, second) = brush.handle_event(down(15.0, 25.0), &sheet());
    assert!(is_empty(&flags));
    assert!(brush.is_drawing());
    assert_eq!(inserted(&first), 1);
    assert_eq!(inserted(&second), 0);
    assert_eq!(
        second,
        vec![
            BrushAction::AddSegment { segment: line(10.0, 20.0, 15.0, 25.0) },
            BrushAction::AppendRenderingLastSegments { no_segments: 1 },
        ]
    );
}

#[test]
fn down_that_finishes_two_segments_renders_the_last_two() {
    let mut brush = brush(BrushStyle::Solid);
    let _ = brush.handle_event(down(0.0, 0.0), &sheet());
    let hard = PenEvent::Down { element: pressed(10.0, 20.0) };
    let (_, actions) = brush.handle_event(hard, &sheet());
    assert_eq!(
        actions,
        vec![
            BrushAction::AddSegment { segment: Line { start: at(0.0, 0.0), end: at(5.0, 10.0) } },
            BrushAction::AddSegment {
                segment: Line { start: at(5.0, 10.0), end: pressed(10.0, 20.0) }
            },
            BrushAction::AppendRenderingLastSegments { no_segments: 2 },
        ]
    );
}

#[test]
fn down_that_finishes_nothing_asks_for_nothing() {
    let mut brush = brush(BrushStyle::Solid);
    let _ = brush.handle_event(down(10.0, 20.0), &sheet());
    let (_, actions) = brush.handle_event(down(10.0, 20.0), &sheet());
    assert_eq!(actions, Vec::<Action>::new());
    assert!(brush.is_drawing());
    let (builder, _) = brush.composition().unwrap();
    assert_eq!(builder.fed.len(), 2);
}

#[test]
fn up_finishes_the_stroke() {
    let mut brush = brush(BrushStyle::Solid);
    let _ = brush.handle_event(down(10.0, 20.0), &sheet());
    let (flags, actions) = brush.handle_event(up(30.0, 40.0), &sheet());
    assert!(is_empty(&flags));
    assert!(!brush.is_drawing());
    assert!(brush.composition().is_none());
    assert_eq!(
        actions,
        vec![
            BrushAction::StopBrushSound,
            BrushAction::AddSegment { segment: line(10.0, 20.0, 30.0, 40.0) },
            BrushAction::UpdateGeometry,
            BrushAction::RegenerateRendering,
        ]
    );
}

#[test]
fn up_is_fed_to_the_builder_wherever_it_lies() {
    let mut brush = brush(BrushStyle::Solid);
    let _ = brush.handle_event(down(10.0, 20.0), &sheet());
    let (_, actions) = brush.handle_event(up(900.0, 900.0), &sheet());
    assert!(!brush.is_drawing());
    assert_eq!(recorded(&actions), vec![line(10.0, 20.0, 900.0, 900.0)]);
}

#[test]
fn up_without_final_segments_still_finishes() {
    let mut brush = brush(BrushStyle::Solid);
    let _ = brush.handle_event(down(10.0, 20.0), &sheet());
    let (_, actions) = brush.handle_event(up(10.0, 20.0), &sheet());
    assert!(!brush.is_drawing());
    assert_eq!(
        actions,
        vec![
            BrushAction::StopBrushSound,
            BrushAction::UpdateGeometry,
            BrushAction::RegenerateRendering
        ]
    );
}

#[test]
fn cancel_ends_the_stroke_without_feeding_the_builder() {
    let mut brush = brush(BrushStyle::Solid);
    let _ = brush.handle_event(down(10.0, 20.0), &sheet());
    let _ = brush.handle_event(down(11.0, 21.0), &sheet());
    let (flags, actions) = brush.handle_event(PenEvent::Cancel, &sheet());
    assert!(is_empty(&flags));
    assert!(!brush.is_drawing());
    assert_eq!(
        actions,
        vec![
            BrushAction::StopBrushSound,
            BrushAction::UpdateGeometry,
            BrushAction::RegenerateRenderingThreaded,
        ]
    );
}

#[test]
fn proximity_changes_nothing_in_either_state() {
    let mut brush = brush(BrushStyle::Solid);
    let hover = PenEvent::Proximity { element: at(50.0, 50.0) };
    let (_, actions) = brush.handle_event(hover, &sheet());
    assert_eq!(actions, Vec::<Action>::new());
    assert!(!brush.is_drawing());
    let _ = brush.handle_event(down(10.0, 20.0), &sheet());
    let before = brush.clone();
    let (_, actions) = brush.handle_event(hover, &sheet());
    assert_eq!(actions, Vec::<Action>::new());
    assert!(brush.is_drawing());
    assert_eq!(brush.composition().unwrap().0, before.composition().unwrap().0);
}

#[test]
fn every_segment_of_a_stroke_is_recorded_once_and_in_order() {
    let mut brush = brush(BrushStyle::Solid);
    let mut reference = LineBuilder::start(at(0.0, 0.0));
    let mut events = vec![down(0.0, 0.0)];
    for i in 1..=20 {
        let step = f64::from(i);
        if i % 5 == 0 {
            // a repeated position finishes nothing
            events.push(down(step - 1.0, 2.0 * (step - 1.0)));
        } else if i % 7 == 0 {
            events.push(PenEvent::Down { element: pressed(step, 2.0 * step) });
        } else if i % 6 == 0 {
            events.push(PenEvent::Proximity { element: at(step, 2.0 * step) });
        } else {
            events.push(down(step, 2.0 * step));
        }
    }
    events.push(up(21.0, 42.0));

    let mut yielded = Vec::new();
    let mut all = Vec::new();
    for event in events {
        if !matches!(event, PenEvent::Proximity { .. }) {
            yielded.extend(reference.handle_event(event).unwrap_or_default());
        }
        let (_, actions) = brush.handle_event(event, &sheet());
        all.extend(actions);
    }
    assert!(!brush.is_drawing());
    assert_eq!(inserted(&all), 1);
    assert_eq!(yielded.len(), 16);
    assert_eq!(recorded(&all), yielded);
    assert_eq!(recorded(&all)[0], line(0.0, 0.0, 1.0, 2.0));
    assert_eq!(all.last(), Some(&BrushAction::RegenerateRendering));
}

#[test]
fn each_stroke_is_inserted_once() {
    let mut brush = brush(BrushStyle::Marker);
    let events = [
        down(1.0, 1.0),
        down(2.0, 2.0),
        up(3.0, 3.0),
        up(3.0, 3.0),
        down(4.0, 4.0),
        PenEvent::Cancel,
        PenEvent::Cancel,
        down(5.0, 5.0),
        down(6.0, 6.0),
        down(7.0, 7.0),
    ];
    let mut all = Vec::new();
    for event in events {
        all.extend(brush.handle_event(event, &sheet()).1);
    }
    assert_eq!(inserted(&all), 3);
    assert!(brush.is_drawing());
}

#[test]
fn point_within_the_overshoot_is_accepted() {
    // the sheet ends at x = 100 and the overshoot is 30
    let mut brush = brush(BrushStyle::Solid);
    let (_, actions) = brush.handle_event(down(129.0, 50.0), &sheet());
    assert!(brush.is_drawing());
    assert_eq!(inserted(&actions), 1);
}

#[test]
fn point_past_the_overshoot_is_rejected() {
    let mut brush = brush(BrushStyle::Textured);
    let before = brush.clone();
    let (flags, actions) = brush.handle_event(down(131.0, 50.0), &sheet());
    assert!(is_empty(&flags));
    assert!(!brush.is_drawing());
    assert_eq!(actions, Vec::<Action>::new());
    assert_eq!(brush.style, before.style);
    assert_eq!(brush.smooth_options, before.smooth_options);
    assert_eq!(brush.textured_options, before.textured_options);
}

#[test]
fn overshoot_holds_on_every_side() {
    let accepted = [(-29.0, 50.0), (50.0, -29.0), (50.0, 229.0), (129.0, 229.0), (-30.0, 230.0)];
    for (x, y) in accepted {
        let mut brush = brush(BrushStyle::Solid);
        let _ = brush.handle_event(down(x, y), &sheet());
        assert!(brush.is_drawing(), "({x}, {y}) lies within the input bounds");
    }
    let rejected = [(-31.0, 50.0), (50.0, -31.0), (50.0, 231.0), (131.0, 231.0), (50.0, 1e9)];
    for (x, y) in rejected {
        let mut brush = brush(BrushStyle::Solid);
        let (_, actions) = brush.handle_event(down(x, y), &sheet());
        assert!(!brush.is_drawing(), "({x}, {y}) lies outside the input bounds");
        assert_eq!(actions, Vec::<Action>::new());
    }
}

#[test]
fn rejected_down_while_drawing_is_dropped() {
    let mut brush = brush(BrushStyle::Solid);
    let _ = brush.handle_event(down(10.0, 20.0), &sheet());
    let before = brush.clone();
    let (_, actions) = brush.handle_event(down(400.0, 20.0), &sheet());
    assert_eq!(actions, Vec::<Action>::new());
    assert!(brush.is_drawing());
    // the builder was not fed
    assert_eq!(brush.composition().unwrap().0, before.composition().unwrap().0);
    let (_, actions) = brush.handle_event(down(20.0, 20.0), &sheet());
    assert_eq!(recorded(&actions), vec![line(10.0, 20.0, 20.0, 20.0)]);
}

#[test]
fn step_takes_the_bounds_check_as_given() {
    let mut brush = brush(BrushStyle::Solid);
    let (_, actions) = brush.step(down(10.0, 20.0), false);
    assert_eq!(actions, Vec::<Action>::new());
    assert!(!brush.is_drawing());
    let (_, actions) = brush.step(down(1e6, 1e6), true);
    assert_eq!(inserted(&actions), 1);
    assert!(brush.is_drawing());
    let (_, actions) = brush.step(PenEvent::Cancel, false);
    assert_eq!(actions.len(), 3);
    assert!(!brush.is_drawing());
}

#[test]
fn marker_stroke_has_constant_width_forced_on() {
    let mut brush = brush(BrushStyle::Marker);
    assert!(!brush.smooth_options.segment_constant_width);
    let expected = Style::Smooth(SmoothOptions {
        segment_constant_width: true,
        visuals: SmoothVisuals { width: 2.5 },
    });
    assert_eq!(brush.gen_style_for_current_options(), expected);
    let (_, actions) = brush.handle_event(down(10.0, 20.0), &sheet());
    assert_eq!(
        actions,
        vec![
            BrushAction::PlayMarkerSound,
            BrushAction::InsertStroke { start: at(10.0, 20.0), style: expected },
            BrushAction::RegenerateRendering,
        ]
    );
    // the brush's own options are as they were
    assert!(!brush.smooth_options.segment_constant_width);
}

#[test]
fn solid_stroke_has_the_smooth_options_as_configured() {
    let mut brush = brush(BrushStyle::Solid);
    assert_eq!(brush.gen_style_for_current_options(), Style::Smooth(smooth()));
    brush.smooth_options.segment_constant_width = true;
    brush.smooth_options.visuals.width = 9.0;
    assert_eq!(
        brush.gen_style_for_current_options(),
        Style::Smooth(SmoothOptions {
            segment_constant_width: true,
            visuals: SmoothVisuals { width: 9.0 }
        })
    );
}

#[test]
fn textured_stroke_has_the_textured_options() {
    let mut brush = brush(BrushStyle::Textured);
    brush.textured_options.seed = Some(7);
    assert_eq!(
        brush.gen_style_for_current_options(),
        Style::Textured(TexturedOptions {
            seed: Some(7),
            visuals: TexturedVisuals { width: 6.0, density: 5.0 }
        })
    );
}

#[test]
fn style_derivation_is_repeatable() {
    for style in [BrushStyle::Marker, BrushStyle::Solid, BrushStyle::Textured] {
        let a = brush(style);
        let b = brush(style);
        assert_eq!(a.gen_style_for_current_options(), b.gen_style_for_current_options());
        assert_eq!(a.gen_style_for_current_options(), a.gen_style_for_current_options());
    }
}

#[test]
fn textured_stroke_gets_a_seed_of_its_own() {
    let mut brush = brush(BrushStyle::Textured);
    assert_eq!(brush.textured_options.seed, None);
    let (_, first) = brush.handle_event(down(10.0, 20.0), &sheet());
    let first_seed = brush.textured_options.seed;
    assert!(first_seed.is_some());
    assert_eq!(
        first[1],
        BrushAction::InsertStroke {
            start: at(10.0, 20.0),
            style: Style::Textured(TexturedOptions {
                seed: first_seed,
                visuals: TexturedVisuals { width: 6.0, density: 5.0 }
            })
        }
    );
    // the seed stays for the whole stroke
    let _ = brush.handle_event(down(11.0, 21.0), &sheet());
    let _ = brush.handle_event(up(12.0, 22.0), &sheet());
    assert_eq!(brush.textured_options.seed, first_seed);

    let (_, second) = brush.handle_event(down(10.0, 20.0), &sheet());
    let second_seed = brush.textured_options.seed;
    assert!(second_seed.is_some());
    assert_ne!(first_seed, second_seed);
    assert!(matches!(
        second[1],
        BrushAction::InsertStroke { style: Style::Textured(options), .. } if options.seed == second_seed
    ));
}

#[test]
fn given_seed_becomes_the_seed_of_a_textured_stroke() {
    let mut brush = brush(BrushStyle::Textured);
    let (flags, actions) = brush.step_seeded(down(10.0, 20.0), true, Some(7));
    assert!(is_empty(&flags));
    assert!(brush.is_drawing());
    assert_eq!(brush.textured_options.seed, Some(7));
    assert_eq!(
        actions,
        vec![
            BrushAction::StartBrushSound,
            BrushAction::InsertStroke {
                start: at(10.0, 20.0),
                style: Style::Textured(TexturedOptions {
                    seed: Some(7),
                    visuals: TexturedVisuals { width: 6.0, density: 5.0 }
                })
            },
            BrushAction::RegenerateRendering,
        ]
    );
    // only the start of a stroke takes a seed
    let _ = brush.step_seeded(down(11.0, 21.0), true, Some(8));
    assert_eq!(brush.textured_options.seed, Some(7));
    let _ = brush.step_seeded(up(12.0, 22.0), true, Some(9));
    assert_eq!(brush.textured_options.seed, Some(7));
    let _ = brush.step_seeded(down(12.0, 22.0), false, Some(10));
    assert_eq!(brush.textured_options.seed, Some(7));
    let _ = brush.step_seeded(down(12.0, 22.0), true, Some(11));
    assert_eq!(brush.textured_options.seed, Some(11));
}

#[test]
fn textured_stroke_without_a_seed_to_draw_has_none() {
    let mut brush = brush(BrushStyle::Textured);
    brush.textured_options.seed = Some(5);
    let (_, actions) = brush.step_seeded(down(10.0, 20.0), true, None);
    assert!(brush.is_drawing());
    assert_eq!(brush.textured_options.seed, None);
    assert_eq!(
        actions[1],
        BrushAction::InsertStroke {
            start: at(10.0, 20.0),
            style: Style::Textured(TexturedOptions {
                seed: None,
                visuals: TexturedVisuals { width: 6.0, density: 5.0 }
            })
        }
    );
}

#[test]
fn given_seed_is_not_looked_at_for_smooth_strokes() {
    for style in [BrushStyle::Marker, BrushStyle::Solid] {
        let mut brush = brush(style);
        let (_, actions) = brush.step_seeded(down(10.0, 20.0), true, Some(7));
        assert!(brush.is_drawing());
        assert_eq!(brush.textured_options.seed, None);
        assert_eq!(inserted(&actions), 1);
    }
}

#[test]
fn smooth_strokes_leave_the_seed_alone() {
    for style in [BrushStyle::Marker, BrushStyle::Solid] {
        let mut brush = brush(style);
        brush.textured_options.seed = Some(42);
        let _ = brush.handle_event(down(10.0, 20.0), &sheet());
        let _ = brush.handle_event(up(12.0, 22.0), &sheet());
        assert_eq!(brush.textured_options.seed, Some(42));
    }
}

#[test]
fn style_of_a_stroke_is_fixed_at_its_start() {
    let mut brush = brush(BrushStyle::Solid);
    let (_, first) = brush.handle_event(down(10.0, 20.0), &sheet());
    brush.style = BrushStyle::Marker;
    brush.smooth_options.visuals.width = 40.0;
    let (_, later) = brush.handle_event(down(11.0, 21.0), &sheet());
    let (_, last) = brush.handle_event(up(12.0, 22.0), &sheet());
    assert_eq!(
        first[1],
        BrushAction::InsertStroke { start: at(10.0, 20.0), style: Style::Smooth(smooth()) }
    );
    assert_eq!(inserted(&later) + inserted(&last), 0);
    assert_eq!(brush.style, BrushStyle::Marker);
}

#[test]
fn composition_follows_the_style() {
    let mut brush = brush(BrushStyle::Marker);
    assert!(brush.composition().is_none());
    let _ = brush.handle_event(down(10.0, 20.0), &sheet());
    // a marker is composed with the smooth options as they are
    let (builder, style) = brush.composition().unwrap();
    assert_eq!(builder.last, at(10.0, 20.0));
    assert_eq!(style, Style::Smooth(smooth()));
    brush.style = BrushStyle::Solid;
    assert_eq!(brush.composition().unwrap().1, Style::Smooth(smooth()));
    brush.style = BrushStyle::Textured;
    assert_eq!(brush.composition().unwrap().1, Style::Textured(textured()));
    let _ = brush.handle_event(PenEvent::Cancel, &sheet());
    assert!(brush.composition().is_none());
}

#[test]
fn audio_cues_follow_the_style() {
    let marker: Action = start_audio(BrushStyle::Marker);
    let solid: Action = start_audio(BrushStyle::Solid);
    let textured: Action = start_audio(BrushStyle::Textured);
    assert_eq!(marker, BrushAction::PlayMarkerSound);
    assert_eq!(solid, BrushAction::StartBrushSound);
    assert_eq!(textured, BrushAction::StartBrushSound);
    for style in [BrushStyle::Marker, BrushStyle::Solid, BrushStyle::Textured] {
        let stop: Action = stop_audio(style);
        assert_eq!(stop, BrushAction::StopBrushSound);
    }
}

#[test]
fn push_segments_appends_in_order() {
    let mut actions: Vec<Action> = vec![BrushAction::UpdateGeometry];
    push_segments(&mut actions, vec![line(0.0, 0.0, 1.0, 1.0), line(1.0, 1.0, 2.0, 2.0)]);
    assert_eq!(
        actions,
        vec![
            BrushAction::UpdateGeometry,
            BrushAction::AddSegment { segment: line(0.0, 0.0, 1.0, 1.0) },
            BrushAction::AddSegment { segment: line(1.0, 1.0, 2.0, 2.0) },
        ]
    );
    push_segments(&mut actions, Vec::new());
    assert_eq!(actions.len(), 3);
}

#[test]
fn start_actions_for_each_answer_of_the_builder() {
    let style = Style::Smooth(smooth());
    let nothing: Vec<Action> = actions_on_start(BrushStyle::Solid, at(1.0, 2.0), style, None);
    let empty: Vec<Action> =
        actions_on_start(BrushStyle::Solid, at(1.0, 2.0), style, Some(Vec::new()));
    let opening = vec![
        BrushAction::StartBrushSound,
        BrushAction::InsertStroke { start: at(1.0, 2.0), style },
        BrushAction::RegenerateRendering,
    ];
    assert_eq!(nothing, opening);
    assert_eq!(empty, opening);
    let two: Vec<Action> = actions_on_start(
        BrushStyle::Marker,
        at(1.0, 2.0),
        style,
        Some(vec![line(1.0, 2.0, 3.0, 4.0), line(3.0, 4.0, 5.0, 6.0)]),
    );
    assert_eq!(
        two,
        vec![
            BrushAction::PlayMarkerSound,
            BrushAction::InsertStroke { start: at(1.0, 2.0), style },
            BrushAction::AddSegment { segment: line(1.0, 2.0, 3.0, 4.0) },
            BrushAction::AddSegment { segment: line(3.0, 4.0, 5.0, 6.0) },
            BrushAction::RegenerateRendering,
        ]
    );
}

#[test]
fn extend_actions_for_each_answer_of_the_builder() {
    let nothing: Vec<Action> = actions_on_extend(None);
    assert_eq!(nothing, Vec::<Action>::new());
    // an answer without segments still asks for a rendering, of no segment
    let empty: Vec<Action> = actions_on_extend(Some(Vec::new()));
    assert_eq!(empty, vec![BrushAction::AppendRenderingLastSegments { no_segments: 0 }]);
    let three: Vec<Action> = actions_on_extend(Some(vec![
        line(0.0, 0.0, 1.0, 0.0),
        line(1.0, 0.0, 2.0, 0.0),
        line(2.0, 0.0, 3.0, 0.0),
    ]));
    assert_eq!(
        three,
        vec![
            BrushAction::AddSegment { segment: line(0.0, 0.0, 1.0, 0.0) },
            BrushAction::AddSegment { segment: line(1.0, 0.0, 2.0, 0.0) },
            BrushAction::AddSegment { segment: line(2.0, 0.0, 3.0, 0.0) },
            BrushAction::AppendRenderingLastSegments { no_segments: 3 },
        ]
    );
}

#[test]
fn finish_and_cancel_actions() {
    let finished: Vec<Action> =
        actions_on_finish(BrushStyle::Textured, Some(vec![line(0.0, 0.0, 1.0, 0.0)]));
    assert_eq!(
        finished,
        vec![
            BrushAction::StopBrushSound,
            BrushAction::AddSegment { segment: line(0.0, 0.0, 1.0, 0.0) },
            BrushAction::UpdateGeometry,
            BrushAction::RegenerateRendering,
        ]
    );
    let bare: Vec<Action> = actions_on_finish(BrushStyle::Textured, None);
    assert_eq!(
        bare,
        vec![
            BrushAction::StopBrushSound,
            BrushAction::UpdateGeometry,
            BrushAction::RegenerateRendering
        ]
    );
    let cancelled: Vec<Action> = actions_on_cancel(BrushStyle::Marker);
    assert_eq!(
        cancelled,
        vec![
            BrushAction::StopBrushSound,
            BrushAction::UpdateGeometry,
            BrushAction::RegenerateRenderingThreaded,
        ]
    );
}

/// A store that records what it is asked and fails every rendering.
#[derive(Debug, Default)]
struct FailingStore {
    strokes: Vec<Vec<Line>>,
    failures: usize,
    background: usize,
}

fn perform(store: &mut FailingStore, actions: Vec<Action>) {
    for action in actions {
        match action {
            BrushAction::InsertStroke { .. } => store.strokes.push(Vec::new()),
            BrushAction::AddSegment { segment } => {
                store.strokes.last_mut().unwrap().push(segment)
            }
            BrushAction::RegenerateRendering
            | BrushAction::AppendRenderingLastSegments { .. } => store.failures += 1,
            BrushAction::RegenerateRenderingThreaded => store.background += 1,
            BrushAction::UpdateGeometry
            | BrushAction::PlayMarkerSound
            | BrushAction::StartBrushSound
            | BrushAction::StopBrushSound => {}
        }
    }
}

#[test]
fn failed_renderings_never_reach_the_brush() {
    let mut store = FailingStore::default();
    let mut brush = brush(BrushStyle::Solid);
    for event in [down(1.0, 1.0), down(2.0, 2.0), down(3.0, 3.0), PenEvent::Cancel] {
        let (flags, actions) = brush.handle_event(event, &sheet());
        assert!(is_empty(&flags));
        perform(&mut store, actions);
    }
    assert!(!brush.is_drawing());
    assert_eq!(store.background, 1);
    assert_eq!(store.failures, 3);
    assert_eq!(store.strokes, vec![vec![line(1.0, 1.0, 2.0, 2.0), line(2.0, 2.0, 3.0, 3.0)]]);

    // the next stroke starts as if nothing had failed
    for event in [down(5.0, 5.0), down(6.0, 6.0), up(7.0, 7.0)] {
        perform(&mut store, brush.handle_event(event, &sheet()).1);
    }
    assert!(!brush.is_drawing());
    assert_eq!(store.strokes.len(), 2);
    assert_eq!(store.strokes[1], vec![line(5.0, 5.0, 6.0, 6.0), line(6.0, 6.0, 7.0, 7.0)]);
}

#[test]
fn idle_brush_has_no_bounds_on_the_sheet() {
    let mut brush = brush(BrushStyle::Solid);
    assert!(brush.bounds_on_sheet().is_none());
    let _ = brush.handle_event(down(10.0, 20.0), &sheet());
    assert!(brush.bounds_on_sheet().is_some());
    let _ = brush.handle_event(up(12.0, 22.0), &sheet());
    assert!(brush.bounds_on_sheet().is_none());
    let _ = brush.handle_event(down(10.0, 20.0), &sheet());
    let _ = brush.handle_event(PenEvent::Cancel, &sheet());
    assert!(brush.bounds_on_sheet().is_none());
}

#[test]
fn bounds_on_the_sheet_follow_the_style() {
    // the smooth width is 2.5 and the textured width is 6
    let mut brush = brush(BrushStyle::Solid);
    let _ = brush.handle_event(down(10.0, 20.0), &sheet());
    let _ = brush.handle_event(down(30.0, 40.0), &sheet());
    let smooth = Aabb::new(Vector::new(28.75, 38.75), Vector::new(31.25, 41.25));
    assert_eq!(brush.bounds_on_sheet(), Some(smooth));
    brush.style = BrushStyle::Marker;
    assert_eq!(brush.bounds_on_sheet(), Some(smooth));
    brush.style = BrushStyle::Textured;
    let textured = Aabb::new(Vector::new(27.0, 37.0), Vector::new(33.0, 43.0));
    assert_eq!(brush.bounds_on_sheet(), Some(textured));
}
