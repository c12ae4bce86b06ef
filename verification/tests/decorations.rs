use text_deco::content::{Content, Style};
use text_deco::deco::{
    check_decorate, decorate, evasion_line, gap_padding, min_width, DecoLine, Decoration,
};
use text_deco::font::{Coverage, Font, FontMetrics, LineMetrics, Rect};
use text_deco::frame::{Frame, FrameItem, Span};
use text_deco::highlight::get_top_bottom;
use text_deco::length::{Em, Point, Size};
use text_deco::path::{Line, Outline, OutlineCommand, PathEl};
use text_deco::resolve::{line_style, resolve_offset, resolve_stroke, LineStyle};
use text_deco::scan::{collision_paths, meets_box};
use text_deco::shift::{is_shapable, ShiftNode, ShiftStyles, SUBSCRIPT, SUPERSCRIPT};
use text_deco::text::{BottomEdge, BottomEdgeMetric, Glyph, TextItem, TopEdge, TopEdgeMetric};
use text_deco::visualize::{
    Color, Geometry, LineCap, LineJoin, Paint, PartialStroke, Shape, Smart, Stroke,
};

use kurbo::ParamCurve;

// A face with five glyphs, 1000 units to the em:
//   0  nothing
//   1  'a'  a box from (50, 0) to (450, 500)
//   2  'i'  a stem from (50, 0) to (150, 500) and a dot from (50, 600) to (150, 700);
//           U+2071 maps to it too
//   3  'p'  a stem from (50, -250) to (150, 500) and a bowl from (150, 0) to (450, 500)
//   4  ' '  nothing
const FONT: [u8; 480] = [
    0x00, 0x01, 0x00, 0x00, 0x00, 0x06, 0x00, 0x40, 0x00, 0x02, 0x00, 0x20,
    0x63, 0x6D, 0x61, 0x70, 0x00, 0x0C, 0x44, 0x04, 0x00, 0x00, 0x00, 0x6C,
    0x00, 0x00, 0x00, 0x58, 0x67, 0x6C, 0x79, 0x66, 0x09, 0xBF, 0x12, 0x62,
    0x00, 0x00, 0x00, 0xC4, 0x00, 0x00, 0x00, 0x92, 0x68, 0x65, 0x61, 0x64,
    0x61, 0x08, 0x42, 0xA7, 0x00, 0x00, 0x01, 0x58, 0x00, 0x00, 0x00, 0x36,
    0x68, 0x68, 0x65, 0x61, 0x05, 0x16, 0x01, 0x5F, 0x00, 0x00, 0x01, 0x90,
    0x00, 0x00, 0x00, 0x24, 0x6C, 0x6F, 0x63, 0x61, 0x00, 0x5A, 0x00, 0x76,
    0x00, 0x00, 0x01, 0xB4, 0x00, 0x00, 0x00, 0x0C, 0x6D, 0x61, 0x78, 0x70,
    0x00, 0x08, 0x00, 0x09, 0x00, 0x00, 0x01, 0xC0, 0x00, 0x00, 0x00, 0x20,
    0x00, 0x00, 0x00, 0x01, 0x00, 0x00, 0x00, 0x04, 0x00, 0x00, 0x00, 0x0C,
    0x00, 0x0C, 0x00, 0x00, 0x00, 0x00, 0x00, 0x4C, 0x00, 0x00, 0x00, 0x00,
    0x00, 0x00, 0x00, 0x05, 0x00, 0x00, 0x00, 0x20, 0x00, 0x00, 0x00, 0x20,
    0x00, 0x00, 0x00, 0x04, 0x00, 0x00, 0x00, 0x61, 0x00, 0x00, 0x00, 0x61,
    0x00, 0x00, 0x00, 0x01, 0x00, 0x00, 0x00, 0x69, 0x00, 0x00, 0x00, 0x69,
    0x00, 0x00, 0x00, 0x02, 0x00, 0x00, 0x00, 0x70, 0x00, 0x00, 0x00, 0x70,
    0x00, 0x00, 0x00, 0x03, 0x00, 0x00, 0x20, 0x71, 0x00, 0x00, 0x20, 0x71,
    0x00, 0x00, 0x00, 0x02, 0x00, 0x01, 0x00, 0x32, 0x00, 0x00, 0x01, 0xC2,
    0x01, 0xF4, 0x00, 0x03, 0x00, 0x00, 0x01, 0x01, 0x01, 0x01, 0x00, 0x32,
    0x01, 0x90, 0x00, 0x00, 0xFE, 0x70, 0x00, 0x00, 0x00, 0x00, 0x01, 0xF4,
    0x00, 0x00, 0x00, 0x02, 0x00, 0x32, 0x00, 0x00, 0x00, 0x96, 0x02, 0xBC,
    0x00, 0x03, 0x00, 0x07, 0x00, 0x00, 0x01, 0x01, 0x01, 0x01, 0x01, 0x01,
    0x01, 0x01, 0x00, 0x32, 0x00, 0x64, 0x00, 0x00, 0xFF, 0x9C, 0x00, 0x00,
    0x00, 0x64, 0x00, 0x00, 0xFF, 0x9C, 0x00, 0x00, 0x00, 0x00, 0x01, 0xF4,
    0x00, 0x00, 0x00, 0x64, 0x00, 0x00, 0x00, 0x64, 0x00, 0x00, 0x00, 0x02,
    0x00, 0x32, 0xFF, 0x06, 0x01, 0xC2, 0x01, 0xF4, 0x00, 0x03, 0x00, 0x07,
    0x00, 0x00, 0x01, 0x01, 0x01, 0x01, 0x01, 0x01, 0x01, 0x01, 0x00, 0x32,
    0x00, 0x64, 0x00, 0x00, 0xFF, 0x9C, 0x00, 0x64, 0x01, 0x2C, 0x00, 0x00,
    0xFE, 0xD4, 0xFF, 0x06, 0x00, 0x00, 0x02, 0xEE, 0x00, 0x00, 0xFE, 0x0C,
    0x00, 0x00, 0x01, 0xF4, 0x00, 0x00, 0x00, 0x00, 0x00, 0x01, 0x00, 0x00,
    0x00, 0x01, 0x00, 0x00, 0x00, 0x00, 0x00, 0x00, 0x5F, 0x0F, 0x3C, 0xF5,
    0x00, 0x00, 0x03, 0xE8, 0x00, 0x00, 0x00, 0x00, 0x00, 0x00, 0x00, 0x00,
    0x00, 0x00, 0x00, 0x00, 0x00, 0x00, 0x00, 0x00, 0x00, 0x32, 0xFF, 0x06,
    0x01, 0xC2, 0x02, 0xBC, 0x00, 0x00, 0x00, 0x08, 0x00, 0x02, 0x00, 0x00,
    0x00, 0x00, 0x00, 0x00, 0x00, 0x01, 0x00, 0x00, 0x03, 0x20, 0xFF, 0x38,
    0x00, 0x00, 0x01, 0xF4, 0x00, 0x32, 0x00, 0x32, 0x01, 0xC2, 0x00, 0x01,
    0x00, 0x00, 0x00, 0x00, 0x00, 0x00, 0x00, 0x00, 0x00, 0x00, 0x00, 0x00,
    0x00, 0x00, 0x00, 0x00, 0x00, 0x00, 0x00, 0x00, 0x00, 0x11, 0x00, 0x2D,
    0x00, 0x49, 0x00, 0x49, 0x00, 0x01, 0x00, 0x00, 0x00, 0x05, 0x00, 0x08,
    0x00, 0x02, 0x00, 0x00, 0x00, 0x00, 0x00, 0x01, 0x00, 0x00, 0x00, 0x00,
    0x00, 0x00, 0x00, 0x00, 0x00, 0x00, 0x00, 0x00, 0x00, 0x00, 0x00, 0x00,
];

// Lengths in these tests are thousandths of a point.
const SIZE: i64 = 10_000;

const BLACK: Paint = Paint::Solid(Color::Luma(0));
const RED: Paint = Paint::Solid(Color::Rgba(0xFF, 0, 0, 0xFF));
const YELLOW: Paint = Paint::Solid(Color::Rgba(0xFF, 0xFF, 0x5F, 0xFF));

fn em(units: i32) -> Em {
    Em { units, per_em: 1000 }
}

fn metrics() -> FontMetrics {
    FontMetrics {
        units_per_em: 1000,
        ascender: em(800),
        cap_height: em(700),
        x_height: em(500),
        descender: em(-200),
        strikethrough: LineMetrics { position: em(250), thickness: em(50) },
        underline: LineMetrics { position: em(-100), thickness: em(50) },
        overline: LineMetrics { position: em(800), thickness: em(50) },
    }
}

fn face() -> ttf_parser::Face<'static> {
    ttf_parser::Face::parse(&FONT, 0).unwrap()
}

fn font() -> Font {
    Font { metrics: metrics() }
}

fn bbox(face: &ttf_parser::Face, id: u16) -> Option<Rect> {
    face.glyph_bounding_box(ttf_parser::GlyphId(id))
        .map(|b| Rect { x_min: b.x_min, y_min: b.y_min, x_max: b.x_max, y_max: b.y_max })
}

// What the face covers among the characters of `asked`.
fn coverage(asked: &str) -> Coverage {
    let face = face();
    Coverage { chars: asked.chars().filter(|c| face.glyph_index(*c).is_some()).collect() }
}

// What the face covers among the characters that these tests ask about.
fn covered() -> Coverage {
    coverage("ai pbx1 \u{2071}\u{00B9}\u{2070}\u{2093}")
}

fn advance(c: char) -> i32 {
    match c {
        'a' | 'p' => 500,
        'i' => 200,
        ' ' => 250,
        _ => panic!("no such glyph"),
    }
}

fn run(text: &str) -> TextItem {
    let face = face();
    let font = font();
    let mut glyphs = Vec::new();
    let mut width = 0;
    for c in text.chars() {
        let id = face.glyph_index(c).unwrap().0;
        glyphs.push(Glyph {
            id,
            x_advance: em(advance(c)),
            x_offset: em(0),
            bbox: bbox(&face, id),
        });
        width += i64::from(advance(c)) * SIZE / 1000;
    }
    TextItem { font, size: SIZE, fill: BLACK, width, glyphs }
}

struct Recorder(Outline);

impl ttf_parser::OutlineBuilder for Recorder {
    fn move_to(&mut self, x: f32, y: f32) {
        self.0.push(OutlineCommand::MoveTo(x.round() as i32, y.round() as i32));
    }

    fn line_to(&mut self, x: f32, y: f32) {
        self.0.push(OutlineCommand::LineTo(x.round() as i32, y.round() as i32));
    }

    fn quad_to(&mut self, x1: f32, y1: f32, x: f32, y: f32) {
        self.0.push(OutlineCommand::QuadTo(
            x1.round() as i32,
            y1.round() as i32,
            x.round() as i32,
            y.round() as i32,
        ));
    }

    fn curve_to(&mut self, x1: f32, y1: f32, x2: f32, y2: f32, x: f32, y: f32) {
        self.0.push(OutlineCommand::CurveTo(
            x1.round() as i32,
            y1.round() as i32,
            x2.round() as i32,
            y2.round() as i32,
            x.round() as i32,
            y.round() as i32,
        ));
    }

    fn close(&mut self) {
        self.0.push(OutlineCommand::Close);
    }
}

fn outlines(text: &TextItem) -> Vec<Outline> {
    let face = face();
    let mut all = Vec::new();
    for glyph in &text.glyphs {
        let mut recorder = Recorder(Vec::new());
        face.outline_glyph(ttf_parser::GlyphId(glyph.id), &mut recorder);
        all.push(recorder.0);
    }
    all
}

fn point(p: Point) -> kurbo::Point {
    kurbo::Point::new(p.x as f64, p.y as f64)
}

fn crossings(paths: &[Vec<PathEl>], line: &Line) -> Vec<i64> {
    let probe = kurbo::Line::new(point(line.start), point(line.end));
    let mut found = Vec::new();
    for path in paths {
        let mut bez = kurbo::BezPath::new();
        for el in path {
            match *el {
                PathEl::MoveTo(p) => bez.move_to(point(p)),
                PathEl::LineTo(p) => bez.line_to(point(p)),
                PathEl::QuadTo(c, p) => bez.quad_to(point(c), point(p)),
                PathEl::CurveTo(c, d, p) => bez.curve_to(point(c), point(d), point(p)),
                PathEl::ClosePath => bez.close_path(),
            }
        }
        for seg in bez.segments() {
            for hit in seg.intersect_line(probe) {
                found.push(probe.eval(hit.line_t).x.round() as i64);
            }
        }
    }
    found
}

// The whole pass over one run: find the line, scan, intersect, draw.
fn draw(frame: &mut Frame, deco: &Decoration, text: &TextItem, shift: i64, pos: Point) {
    let collisions = match evasion_line(deco, text, shift, pos) {
        Some(line) => crossings(&collision_paths(text, &outlines(text), &line), &line),
        None => Vec::new(),
    };
    assert!(check_decorate(deco, text, shift, pos, &collisions));
    decorate(frame, deco, text, shift, pos, &collisions);
}

fn stroke(paint: Paint, thickness: i64) -> Stroke {
    Stroke { paint, thickness, line_cap: LineCap::Butt, line_join: LineJoin::Miter }
}

fn line(from: i64, to: i64, y: i64, stroke: Stroke) -> (Point, FrameItem) {
    (
        Point { x: from, y },
        FrameItem::Shape(
            Shape {
                geometry: Geometry::Line(Point { x: to - from, y: 0 }),
                fill: None,
                stroke: Some(stroke),
            },
            Span::Detached,
        ),
    )
}

fn rect(x: i64, y: i64, width: i64, height: i64, fill: Paint) -> (Point, FrameItem) {
    (
        Point { x, y },
        FrameItem::Shape(
            Shape {
                geometry: Geometry::Rect(Size { x: width, y: height }),
                fill: Some(fill),
                stroke: None,
            },
            Span::Detached,
        ),
    )
}

fn underline(offset: Smart<i64>, evade: bool, extent: i64) -> Decoration {
    Decoration { line: DecoLine::Underline(PartialStroke::auto(), offset, evade), extent }
}

fn lengths(frame: &Frame) -> Vec<i64> {
    frame
        .items
        .iter()
        .map(|(_, item)| match item {
            FrameItem::Shape(Shape { geometry: Geometry::Line(p), .. }, _) => p.x,
            _ => panic!("not a line"),
        })
        .collect()
}

#[test]
fn glyphs_carry_the_boxes_of_the_face() {
    let text = run("aip ");
    assert_eq!(text.glyphs[0].bbox, Some(Rect { x_min: 50, y_min: 0, x_max: 450, y_max: 500 }));
    assert_eq!(text.glyphs[1].bbox, Some(Rect { x_min: 50, y_min: 0, x_max: 150, y_max: 700 }));
    assert_eq!(
        text.glyphs[2].bbox,
        Some(Rect { x_min: 50, y_min: -250, x_max: 450, y_max: 500 })
    );
    assert_eq!(text.glyphs[3].bbox, None);
    assert_eq!(bbox(&face(), 0), None);
    assert_eq!(bbox(&face(), 900), None);
}

#[test]
fn coverage_lists_what_the_face_has() {
    let covered = covered();
    assert!(covered.has_glyph('a'));
    assert!(covered.has_glyph(' '));
    assert!(covered.has_glyph('\u{2071}'));
    assert!(!covered.has_glyph('b'));
    assert!(!covered.has_glyph('\u{2070}'));
    assert!(!covered.has_glyph('q'));
    assert!(!Coverage { chars: vec![] }.has_glyph('a'));
    assert!(Coverage { chars: vec!['x', 'y', 'x'] }.has_glyph('y'));
}

#[test]
fn font_units_resolve_at_the_font_size() {
    let font = font();
    assert_eq!(font.to_em(-250), Em { units: -250, per_em: 1000 });
    assert_eq!(font.units_at(500, SIZE), 5000);
    assert_eq!(font.units_at(-250, SIZE), -2500);
    assert_eq!(font.units_at(1, 1500), 1);
    assert_eq!(font.units_at(-1, 1500), -2);
    assert_eq!(font.metrics().units_per_em, 1000);
    assert_eq!(face().units_per_em(), 1000);
}

#[test]
fn runs_are_well_formed() {
    assert!(run("ai p").is_wf());
    assert_eq!(run("ai p").width(), 14_500);
    let mut negative = run("a");
    negative.size = -1;
    assert!(!negative.is_wf());
    let mut huge = run("a");
    huge.size = (1 << 28) + 1;
    assert!(!huge.is_wf());
    let mut wide = run("a");
    wide.width = (1 << 59) + 1;
    assert!(!wide.is_wf());
    let mut no_denominator = run("ai");
    no_denominator.glyphs[1].x_offset = Em { units: 1, per_em: 0 };
    assert!(!no_denominator.is_wf());
    let mut no_units = run("a");
    no_units.font.metrics.units_per_em = 0;
    assert!(!no_units.is_wf());
}

#[test]
fn pen_must_stay_in_range() {
    let mut text = run("a");
    text.size = 1 << 28;
    text.glyphs = vec![Glyph {
        id: 1,
        x_advance: Em { units: i32::MAX, per_em: 1 },
        x_offset: em(0),
        bbox: None,
    }];
    assert!(text.is_wf());
    text.glyphs.push(Glyph {
        id: 1,
        x_advance: Em { units: 8, per_em: 1 },
        x_offset: em(0),
        bbox: None,
    });
    assert!(!text.is_wf());
}

#[test]
fn line_styles_follow_the_font() {
    let text = run("ai");
    let auto = PartialStroke::auto();
    assert_eq!(
        line_style(&DecoLine::Underline(auto, Smart::Auto, true), &text, 0),
        Some(LineStyle { stroke: stroke(BLACK, 500), offset: 1000, evade: true })
    );
    assert_eq!(
        line_style(&DecoLine::Overline(auto, Smart::Auto, false), &text, 0),
        Some(LineStyle { stroke: stroke(BLACK, 500), offset: -8000, evade: false })
    );
    assert_eq!(
        line_style(&DecoLine::Strikethrough(auto, Smart::Auto), &text, 0),
        Some(LineStyle { stroke: stroke(BLACK, 500), offset: -2500, evade: false })
    );
    assert_eq!(
        line_style(
            &DecoLine::Highlight(
                YELLOW,
                TopEdge::Metric(TopEdgeMetric::Ascender),
                BottomEdge::Metric(BottomEdgeMetric::Descender)
            ),
            &text,
            0
        ),
        None
    );
}

#[test]
fn line_styles_track_the_baseline_shift() {
    let text = run("ai");
    let auto = PartialStroke::auto();
    assert_eq!(
        line_style(&DecoLine::Underline(auto, Smart::Auto, true), &text, -5000).unwrap().offset,
        6000
    );
    assert_eq!(
        line_style(&DecoLine::Underline(auto, Smart::Custom(300), true), &text, 2000)
            .unwrap()
            .offset,
        -1700
    );
}

#[test]
fn overrides_win_over_the_font() {
    let nominal = LineMetrics { position: em(-100), thickness: em(50) };
    let other = LineMetrics { position: em(-300), thickness: em(90) };
    assert_eq!(resolve_offset(Smart::Custom(1234), nominal, SIZE, 0), 1234);
    assert_eq!(resolve_offset(Smart::Custom(1234), other, 7, 0), 1234);
    assert_eq!(resolve_offset(Smart::Auto, nominal, SIZE, 0), 1000);
    assert_eq!(resolve_offset(Smart::Auto, other, SIZE, 0), 3000);
    let set = Stroke { paint: RED, thickness: 77, line_cap: LineCap::Round, line_join: LineJoin::Bevel };
    assert_eq!(resolve_stroke(PartialStroke::from_stroke(set), nominal, BLACK, SIZE), set);
    assert_eq!(resolve_stroke(PartialStroke::from_stroke(set), other, YELLOW, 7), set);
}

#[test]
fn resolving_twice_is_resolving_once() {
    let nominal = LineMetrics { position: em(-100), thickness: em(50) };
    let other = LineMetrics { position: em(-300), thickness: em(90) };
    let partial = PartialStroke {
        paint: Smart::Custom(RED),
        thickness: Smart::Auto,
        line_cap: Smart::Auto,
        line_join: Smart::Custom(LineJoin::Round),
    };
    let once = resolve_stroke(partial, nominal, BLACK, SIZE);
    assert_eq!(
        once,
        Stroke { paint: RED, thickness: 500, line_cap: LineCap::Butt, line_join: LineJoin::Round }
    );
    assert_eq!(resolve_stroke(PartialStroke::from_stroke(once), other, YELLOW, 3 * SIZE), once);
    let offset = resolve_offset(Smart::Auto, nominal, SIZE, 0);
    assert_eq!(resolve_offset(Smart::Custom(offset), other, 3 * SIZE, 0), offset);
}

#[test]
fn strikethrough_is_one_full_segment() {
    let text = run("ai");
    let deco = Decoration {
        line: DecoLine::Strikethrough(PartialStroke::auto(), Smart::Auto),
        extent: 0,
    };
    let pos = Point { x: 1000, y: 20_000 };
    assert_eq!(evasion_line(&deco, &text, 0, pos), None);
    let mut frame = Frame::new();
    draw(&mut frame, &deco, &text, 0, pos);
    assert_eq!(frame.items, vec![line(1000, 8000, 17_500, stroke(BLACK, 500))]);
}

#[test]
fn strikethrough_reads_no_collisions() {
    let text = run("ai");
    let deco = Decoration {
        line: DecoLine::Strikethrough(PartialStroke::auto(), Smart::Auto),
        extent: 0,
    };
    let mut frame = Frame::new();
    decorate(&mut frame, &deco, &text, 0, Point { x: 0, y: 0 }, &vec![500, 4500, 5500, 6500]);
    assert_eq!(frame.items, vec![line(0, 7000, -2500, stroke(BLACK, 500))]);
}

#[test]
fn line_without_evasion_is_one_segment_whatever_the_glyphs() {
    let pos = Point { x: 1000, y: 0 };
    for text in [run("ai"), run("ap"), run("pp")] {
        for collisions in [vec![], vec![6500, 7500], vec![-100, 0, 100_000]] {
            let mut frame = Frame::new();
            let deco = underline(Smart::Auto, false, 300);
            assert_eq!(evasion_line(&deco, &text, 0, pos), None);
            decorate(&mut frame, &deco, &text, 0, pos, &collisions);
            assert_eq!(
                frame.items,
                vec![line(700, 1000 + text.width + 300, 1000, stroke(BLACK, 500))]
            );
        }
    }
}

#[test]
fn extent_shrinks_a_line_on_both_sides() {
    let text = run("ai");
    let mut frame = Frame::new();
    draw(&mut frame, &underline(Smart::Auto, false, -1000), &text, 0, Point { x: 0, y: 0 });
    assert_eq!(frame.items, vec![line(1000, 6000, 1000, stroke(BLACK, 500))]);
}

#[test]
fn underline_below_ai_meets_nothing() {
    let text = run("ai");
    let deco = underline(Smart::Auto, true, 0);
    let pos = Point { x: 1000, y: 20_000 };
    let probe = evasion_line(&deco, &text, 0, pos).unwrap();
    assert_eq!(
        probe,
        Line { start: Point { x: 1000, y: 1000 }, end: Point { x: 8000, y: 1000 } }
    );
    assert_eq!(collision_paths(&text, &outlines(&text), &probe), Vec::<Vec<PathEl>>::new());
    let mut frame = Frame::new();
    draw(&mut frame, &deco, &text, 0, pos);
    assert_eq!(frame.items, vec![line(1000, 8000, 21_000, stroke(BLACK, 500))]);
}

#[test]
fn underline_through_ai_keeps_only_wide_pieces() {
    let text = run("ai");
    let deco = underline(Smart::Custom(-3000), true, 0);
    let pos = Point { x: 0, y: 0 };
    let probe = evasion_line(&deco, &text, 0, pos).unwrap();
    let paths = collision_paths(&text, &outlines(&text), &probe);
    assert_eq!(paths.len(), 2);
    let mut collisions = crossings(&paths, &probe);
    collisions.sort();
    assert_eq!(collisions, vec![500, 4500, 5500, 6500]);
    let mut frame = Frame::new();
    draw(&mut frame, &deco, &text, 0, pos);
    assert_eq!(frame.items, vec![line(1300, 3700, -3000, stroke(BLACK, 500))]);
    assert!(lengths(&frame).iter().all(|&length| length >= 1620));
}

#[test]
fn line_through_the_dot_of_i_stops_before_it() {
    let text = run("ai");
    let deco = Decoration {
        line: DecoLine::Overline(PartialStroke::auto(), Smart::Custom(-6500), true),
        extent: 0,
    };
    let pos = Point { x: 0, y: 0 };
    let probe = evasion_line(&deco, &text, 0, pos).unwrap();
    let paths = collision_paths(&text, &outlines(&text), &probe);
    assert_eq!(paths.len(), 1);
    let mut collisions = crossings(&paths, &probe);
    collisions.sort();
    assert_eq!(collisions, vec![5500, 6500]);
    let mut frame = Frame::new();
    draw(&mut frame, &deco, &text, 0, pos);
    assert_eq!(frame.items, vec![line(0, 4700, -6500, stroke(BLACK, 500))]);
    assert!(lengths(&frame).iter().all(|&length| length >= 1620));
}

#[test]
fn underline_evades_the_descender_of_p() {
    let text = run("ap");
    let deco = underline(Smart::Auto, true, 0);
    let pos = Point { x: 0, y: 50_000 };
    let mut frame = Frame::new();
    draw(&mut frame, &deco, &text, 0, pos);
    assert_eq!(
        frame.items,
        vec![
            line(0, 4700, 51_000, stroke(BLACK, 500)),
            line(7300, 10_000, 51_000, stroke(BLACK, 500)),
        ]
    );
}

#[test]
fn evading_underline_stays_within_its_sentinels_and_keeps_its_gaps() {
    let gap = gap_padding(SIZE);
    for (word, extent) in [("ap", 0), ("pap", 500), ("p p", 2000), ("ppp", 0)] {
        let text = run(word);
        let pos = Point { x: 3000, y: 0 };
        let mut frame = Frame::new();
        draw(&mut frame, &underline(Smart::Auto, true, extent), &text, 0, pos);
        let ends: Vec<(i64, i64)> = frame
            .items
            .iter()
            .zip(lengths(&frame))
            .map(|((origin, _), length)| (origin.x, origin.x + length))
            .collect();
        assert!(!ends.is_empty());
        assert!(ends.first().unwrap().0 >= pos.x - extent - gap);
        assert!(ends.last().unwrap().1 <= pos.x + text.width + extent + gap);
        for (from, to) in &ends {
            assert!(to - from >= min_width(SIZE));
            assert!(from < to);
        }
        for pair in ends.windows(2) {
            assert!(pair[1].0 - pair[0].1 >= gap);
        }
    }
}

#[test]
fn scan_places_each_glyph_at_the_pen() {
    let mut text = run("pp");
    text.glyphs[1].x_offset = em(30);
    let probe = Line { start: Point { x: 2000, y: 1000 }, end: Point { x: 12_000, y: 1000 } };
    let paths = collision_paths(&text, &outlines(&text), &probe);
    assert_eq!(paths.len(), 2);
    assert_eq!(paths[0][0], PathEl::MoveTo(Point { x: 2500, y: 2500 }));
    assert_eq!(paths[1][0], PathEl::MoveTo(Point { x: 7800, y: 2500 }));
    assert_eq!(
        paths[0],
        vec![
            PathEl::MoveTo(Point { x: 2500, y: 2500 }),
            PathEl::LineTo(Point { x: 3500, y: 2500 }),
            PathEl::LineTo(Point { x: 3500, y: -5000 }),
            PathEl::LineTo(Point { x: 2500, y: -5000 }),
            PathEl::LineTo(Point { x: 2500, y: 2500 }),
            PathEl::ClosePath,
            PathEl::MoveTo(Point { x: 3500, y: 0 }),
            PathEl::LineTo(Point { x: 6500, y: 0 }),
            PathEl::LineTo(Point { x: 6500, y: -5000 }),
            PathEl::LineTo(Point { x: 3500, y: -5000 }),
            PathEl::LineTo(Point { x: 3500, y: 0 }),
            PathEl::ClosePath,
        ]
    );
}

#[test]
fn scan_skips_glyphs_whose_box_the_line_misses() {
    let text = run("a pi");
    let all = outlines(&text);
    let at = |y: i64| {
        let probe = Line { start: Point { x: 0, y }, end: Point { x: text.width, y } };
        collision_paths(&text, &all, &probe).len()
    };
    assert_eq!(at(-7001), 0);
    assert_eq!(at(-7000), 1);
    assert_eq!(at(-5001), 1);
    assert_eq!(at(-5000), 3);
    assert_eq!(at(0), 3);
    assert_eq!(at(1), 1);
    assert_eq!(at(2500), 1);
    assert_eq!(at(2501), 0);
}

#[test]
fn box_edges_count_as_inside() {
    let text = run("p");
    let bbox = Rect { x_min: 50, y_min: -250, x_max: 450, y_max: 500 };
    assert!(meets_box(&text, bbox, -5000));
    assert!(meets_box(&text, bbox, 2500));
    assert!(!meets_box(&text, bbox, -5001));
    assert!(!meets_box(&text, bbox, 2501));
}

#[test]
fn highlight_on_p_reaches_below_the_descender() {
    let text = run("p");
    let top_edge = TopEdge::Metric(TopEdgeMetric::Ascender);
    let bottom_edge = BottomEdge::Metric(BottomEdgeMetric::Descender);
    let nominal_bottom = bottom_edge.resolve(&text.font, SIZE, None);
    assert_eq!(nominal_bottom, -2000);
    let (top, bottom) = get_top_bottom(&text, top_edge, bottom_edge);
    assert_eq!((top, bottom), (8000, -2500));
    assert!(bottom < nominal_bottom);
    let deco = Decoration { line: DecoLine::Highlight(YELLOW, top_edge, bottom_edge), extent: 0 };
    let mut frame = Frame::new();
    draw(&mut frame, &deco, &text, 0, Point { x: 1000, y: 20_000 });
    assert_eq!(frame.items, vec![rect(1000, 12_000, 5000, 10_500, YELLOW)]);
}

#[test]
fn highlight_is_widened_to_the_glyphs() {
    let text = run("ai");
    let (top, bottom) = get_top_bottom(
        &text,
        TopEdge::Metric(TopEdgeMetric::XHeight),
        BottomEdge::Metric(BottomEdgeMetric::Baseline),
    );
    assert_eq!((top, bottom), (7000, 0));
    let (top, bottom) = get_top_bottom(&text, TopEdge::Length(9000), BottomEdge::Length(-100));
    assert_eq!((top, bottom), (9000, -100));
    let spaces = run("  ");
    let (top, bottom) = get_top_bottom(&spaces, TopEdge::Length(10), BottomEdge::Length(5));
    assert_eq!((top, bottom), (10, 5));
}

#[test]
fn highlight_covers_every_glyph_box() {
    let edges = [
        (TopEdge::Metric(TopEdgeMetric::Ascender), BottomEdge::Metric(BottomEdgeMetric::Descender)),
        (TopEdge::Metric(TopEdgeMetric::Baseline), BottomEdge::Metric(BottomEdgeMetric::Baseline)),
        (TopEdge::Metric(TopEdgeMetric::Bounds), BottomEdge::Metric(BottomEdgeMetric::Bounds)),
        (TopEdge::Length(-20_000), BottomEdge::Length(20_000)),
    ];
    for word in ["a", "ai p", "p", " "] {
        let text = run(word);
        for (top_edge, bottom_edge) in edges {
            let (top, bottom) = get_top_bottom(&text, top_edge, bottom_edge);
            for glyph in &text.glyphs {
                if let Some(bbox) = glyph.bbox {
                    assert!(top >= text.font.units_at(bbox.y_max, SIZE));
                    assert!(bottom <= text.font.units_at(bbox.y_min, SIZE));
                }
            }
        }
    }
}

#[test]
fn highlight_takes_extent_and_shift() {
    let text = run("ai");
    let deco = Decoration {
        line: DecoLine::Highlight(
            RED,
            TopEdge::Metric(TopEdgeMetric::Ascender),
            BottomEdge::Metric(BottomEdgeMetric::Descender),
        ),
        extent: 400,
    };
    let mut frame = Frame::new();
    draw(&mut frame, &deco, &text, -3000, Point { x: 1000, y: 20_000 });
    assert_eq!(frame.items, vec![rect(600, 15_000, 7800, 10_000, RED)]);
}

#[test]
fn highlight_goes_behind_and_underline_in_front() {
    let text = run("ap");
    let pos = Point { x: 0, y: 0 };
    let marker = rect(0, 0, 1, 1, BLACK);
    let highlight = Decoration {
        line: DecoLine::Highlight(
            YELLOW,
            TopEdge::Metric(TopEdgeMetric::Ascender),
            BottomEdge::Metric(BottomEdgeMetric::Descender),
        ),
        extent: 0,
    };
    let mut frame = Frame::new();
    frame.push(marker.0, marker.1);
    draw(&mut frame, &underline(Smart::Auto, true, 0), &text, 0, pos);
    draw(&mut frame, &highlight, &text, 0, pos);
    assert_eq!(
        frame.items,
        vec![
            rect(0, -8000, 10_000, 10_500, YELLOW),
            marker,
            line(0, 4700, 1000, stroke(BLACK, 500)),
            line(7300, 10_000, 1000, stroke(BLACK, 500)),
        ]
    );
    let mut other_order = Frame::new();
    other_order.push(marker.0, marker.1);
    draw(&mut other_order, &highlight, &text, 0, pos);
    draw(&mut other_order, &underline(Smart::Auto, true, 0), &text, 0, pos);
    assert_eq!(other_order.items, frame.items);
}

#[test]
fn edges_resolve_against_the_font() {
    let font = font();
    let bbox = Some(Rect { x_min: 0, y_min: -30, x_max: 10, y_max: 640 });
    assert_eq!(TopEdge::Metric(TopEdgeMetric::Ascender).resolve(&font, SIZE, bbox), 8000);
    assert_eq!(TopEdge::Metric(TopEdgeMetric::CapHeight).resolve(&font, SIZE, bbox), 7000);
    assert_eq!(TopEdge::Metric(TopEdgeMetric::XHeight).resolve(&font, SIZE, bbox), 5000);
    assert_eq!(TopEdge::Metric(TopEdgeMetric::Baseline).resolve(&font, SIZE, bbox), 0);
    assert_eq!(TopEdge::Metric(TopEdgeMetric::Bounds).resolve(&font, SIZE, bbox), 6400);
    assert_eq!(TopEdge::Metric(TopEdgeMetric::Bounds).resolve(&font, SIZE, None), 0);
    assert_eq!(TopEdge::Length(123).resolve(&font, SIZE, bbox), 123);
    assert_eq!(BottomEdge::Metric(BottomEdgeMetric::Baseline).resolve(&font, SIZE, bbox), 0);
    assert_eq!(BottomEdge::Metric(BottomEdgeMetric::Descender).resolve(&font, SIZE, bbox), -2000);
    assert_eq!(BottomEdge::Metric(BottomEdgeMetric::Bounds).resolve(&font, SIZE, bbox), -300);
    assert_eq!(BottomEdge::Metric(BottomEdgeMetric::Bounds).resolve(&font, SIZE, None), 0);
    assert_eq!(BottomEdge::Length(-45).resolve(&font, SIZE, bbox), -45);
}

#[test]
fn decorations_are_checked_before_they_are_drawn() {
    let text = run("ai");
    let pos = Point { x: 0, y: 0 };
    let good = underline(Smart::Auto, true, 0);
    assert!(good.is_wf());
    assert!(check_decorate(&good, &text, 0, pos, &vec![1, 2, 3]));
    // A line that does not evade and a highlight read no collisions.
    assert!(check_decorate(&underline(Smart::Auto, false, 0), &text, 0, pos, &vec![i64::MAX]));
    assert!(!check_decorate(&good, &text, 0, pos, &vec![1, i64::MAX, 3]));
    assert!(!check_decorate(&good, &text, i64::MIN, pos, &vec![]));
    assert!(!check_decorate(&good, &text, 0, Point { x: i64::MAX, y: 0 }, &vec![]));
    assert!(!check_decorate(&good, &text, 0, Point { x: 0, y: i64::MIN }, &vec![]));
    assert!(!underline(Smart::Custom(i64::MAX), true, 0).is_wf());
    assert!(!underline(Smart::Auto, true, i64::MIN).is_wf());
    let high = Decoration {
        line: DecoLine::Highlight(
            YELLOW,
            TopEdge::Length(i64::MAX),
            BottomEdge::Metric(BottomEdgeMetric::Descender),
        ),
        extent: 0,
    };
    assert!(!high.is_wf());
    let mut bad = run("a");
    bad.size = -5;
    assert!(!check_decorate(&good, &bad, 0, pos, &vec![]));
}

#[test]
fn first_retrievable_font_decides_what_can_be_shaped() {
    assert!(is_shapable(&vec![Some(covered())], "ai p"));
    assert!(is_shapable(&vec![None, None, Some(covered())], "\u{2071}"));
    assert!(is_shapable(&vec![Some(covered())], ""));
    assert!(!is_shapable(&vec![Some(covered())], "ab"));
    assert!(!is_shapable(&vec![None, Some(covered())], "\u{00B9}"));
    assert!(!is_shapable(&vec![None, None], "a"));
    assert!(!is_shapable(&vec![], ""));
}

#[test]
fn superscript_uses_dedicated_characters_where_the_font_has_them() {
    let node = ShiftNode::<SUPERSCRIPT>(Content::Sequence(vec![
        Content::Text("i".to_string()),
        Content::Space,
        Content::Empty,
        Content::Text("i".to_string()),
    ]));
    let styles = ShiftNode::<SUPERSCRIPT>::styles();
    assert_eq!(
        node.realize(&vec![None, Some(covered())], &styles),
        Content::Text("\u{2071} \u{2071}".to_string())
    );
}

#[test]
fn superscript_falls_back_to_shifted_text() {
    let styles = ShiftNode::<SUPERSCRIPT>::styles();
    assert_eq!(
        styles,
        ShiftStyles {
            typographic: true,
            baseline: Em { units: -1, per_em: 2 },
            size: Em { units: 3, per_em: 5 },
        }
    );
    let shifted = |body: Content| {
        Content::Styled(
            Box::new(body),
            vec![
                Style::Baseline(Em { units: -1, per_em: 2 }),
                Style::Size(Em { units: 3, per_em: 5 }),
            ],
        )
    };
    // The font has no superscript one.
    let one = ShiftNode::<SUPERSCRIPT>(Content::Text("1".to_string()));
    assert_eq!(one.realize(&vec![Some(covered())], &styles), shifted(Content::Text("1".to_string())));
    // There is no superscript a.
    let a = ShiftNode::<SUPERSCRIPT>(Content::Text("a".to_string()));
    assert_eq!(a.realize(&vec![Some(covered())], &styles), shifted(Content::Text("a".to_string())));
    // No font could be retrieved.
    let i = ShiftNode::<SUPERSCRIPT>(Content::Text("i".to_string()));
    assert_eq!(i.realize(&vec![None], &styles), shifted(Content::Text("i".to_string())));
    // Dedicated characters are not wanted.
    let plain = ShiftStyles { typographic: false, ..styles };
    assert_eq!(i.realize(&vec![Some(covered())], &plain), shifted(Content::Text("i".to_string())));
}

#[test]
fn subscript_is_lowered() {
    let styles = ShiftNode::<SUBSCRIPT>::styles();
    assert_eq!(styles.baseline, Em { units: 1, per_em: 5 });
    assert_eq!(styles.size, Em { units: 3, per_em: 5 });
    let node = ShiftNode::<SUBSCRIPT>(Content::Text("i".to_string()));
    assert_eq!(
        node.realize(&vec![Some(covered())], &styles),
        Content::Styled(
            Box::new(Content::Text("i".to_string())),
            vec![
                Style::Baseline(Em { units: 1, per_em: 5 }),
                Style::Size(Em { units: 3, per_em: 5 }),
            ],
        )
    );
    let space = ShiftNode::<SUBSCRIPT>(Content::Space);
    assert_eq!(space.realize(&vec![Some(covered())], &styles), Content::Text(" ".to_string()));
}

#[test]
fn boxes_and_outlines_may_be_written_by_hand() {
    let glyph = |bbox| Glyph { id: 7, x_advance: em(600), x_offset: em(0), bbox };
    let text = TextItem {
        font: font(),
        size: SIZE,
        fill: RED,
        width: 18_000,
        glyphs: vec![
            glyph(Some(Rect { x_min: 0, y_min: -100, x_max: 600, y_max: 900 })),
            glyph(None),
            glyph(Some(Rect { x_min: 0, y_min: 0, x_max: 600, y_max: 300 })),
        ],
    };
    assert!(text.is_wf());
    assert_eq!(
        get_top_bottom(
            &text,
            TopEdge::Metric(TopEdgeMetric::Ascender),
            BottomEdge::Metric(BottomEdgeMetric::Baseline)
        ),
        (9000, -1000)
    );
    let stem = vec![
        OutlineCommand::MoveTo(100, -100),
        OutlineCommand::LineTo(200, -100),
        OutlineCommand::LineTo(200, 900),
        OutlineCommand::LineTo(100, 900),
        OutlineCommand::LineTo(100, -100),
        OutlineCommand::Close,
    ];
    let all = vec![stem.clone(), stem.clone(), stem];
    let probe = Line { start: Point { x: 0, y: 500 }, end: Point { x: 18_000, y: 500 } };
    // Only the first glyph has a box that reaches below the baseline.
    let paths = collision_paths(&text, &all, &probe);
    assert_eq!(paths.len(), 1);
    assert_eq!(crossings(&paths, &probe), vec![2000, 1000]);
    let mut frame = Frame::new();
    decorate(
        &mut frame,
        &underline(Smart::Custom(500), true, 0),
        &text,
        0,
        Point { x: 0, y: 0 },
        &vec![2000, 1000],
    );
    assert_eq!(frame.items, vec![line(2800, 18_000, 500, stroke(RED, 500))]);
}
