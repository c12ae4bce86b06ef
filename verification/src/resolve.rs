//! Resolving how a decorative line is drawn: its stroke and its offset.
//!
//! What a decoration sets explicitly is taken as it is. What it leaves open
//! comes from the run: the paint that fills the text, and the font's nominal
//! position and thickness for the kind of line, at the font size.

use vstd::prelude::*;
use crate::deco::DecoLine;
use crate::font::{FontMetrics, LineMetrics};
use crate::length::{Abs, in_range, is_font_size};
use crate::text::TextItem;
use crate::visualize::{Paint, PartialStroke, Smart, Stroke};

verus! {

/// How a decorative line is drawn on a run.
#[derive(Clone, Copy, Debug, PartialEq, Eq, Hash)]
pub struct LineStyle {
    /// What the line is stroked with.
    pub stroke: Stroke,
    /// How far below the position of the run the line lies.
    pub offset: Abs,
    /// Whether the line evades the glyphs.
    pub evade: bool,
}

/// The stroke of a line: each property as set explicitly; where none is set,
/// the paint that fills the text, the font's nominal thickness at the font
/// size, butt caps and miter joins.
pub open spec fn stroke_of(stroke: PartialStroke, nominal: LineMetrics, fill: Paint, font_size: int) -> Stroke {
    stroke.or(Stroke::plain(fill, nominal.thickness.at_spec(font_size) as i64))
}

/// The offset of a line below the position of the run: the offset set
/// explicitly, or else the font's nominal position at the font size, negated
/// because y points down; either less the baseline shift.
pub open spec fn offset_of(offset: Smart<Abs>, nominal: LineMetrics, font_size: int, shift: int) -> int {
    offset.or((-nominal.position.at_spec(font_size)) as i64) - shift
}

/// The parts of a decorative line: the stroke and offset that it sets, the
/// font's nominal metrics for its kind, and whether it evades. A
/// strikethrough never evades. A highlight has none.
pub open spec fn line_parts(line: DecoLine, metrics: FontMetrics) -> Option<
    (PartialStroke, Smart<Abs>, LineMetrics, bool),
> {
    match line {
        DecoLine::Strikethrough(s, o) => Some((s, o, metrics.strikethrough, false)),
        DecoLine::Overline(s, o, e) => Some((s, o, metrics.overline, e)),
        DecoLine::Underline(s, o, e) => Some((s, o, metrics.underline, e)),
        DecoLine::Highlight(_, _, _) => None,
    }
}

/// How a decorative line is drawn on a run; `None` for a highlight.
pub open spec fn line_style_of(
    line: DecoLine,
    metrics: FontMetrics,
    fill: Paint,
    font_size: int,
    shift: int,
) -> Option<LineStyle> {
    match line_parts(line, metrics) {
        Some((stroke, offset, nominal, evade)) => Some(
            LineStyle {
                stroke: stroke_of(stroke, nominal, fill, font_size),
                offset: offset_of(offset, nominal, font_size, shift) as i64,
                evade,
            },
        ),
        None => None,
    }
}

/// Resolve the stroke of a line.
pub fn resolve_stroke(stroke: PartialStroke, nominal: LineMetrics, fill: Paint, font_size: Abs) -> (r:
    Stroke)
    requires
        nominal.wf(),
        is_font_size(font_size as int),
    ensures
        r == stroke_of(stroke, nominal, fill, font_size as int),
{
    stroke.unwrap_or(Stroke::new(fill, nominal.thickness.at(font_size)))
}

/// Resolve the offset of a line.
pub fn resolve_offset(offset: Smart<Abs>, nominal: LineMetrics, font_size: Abs, shift: Abs) -> (r:
    Abs)
    requires
        nominal.wf(),
        is_font_size(font_size as int),
        in_range(shift as int),
        offset matches Smart::Custom(v) ==> in_range(v as int),
    ensures
        r == offset_of(offset, nominal, font_size as int, shift as int),
        in_range(r as int + shift as int),
{
    let nominal_offset: Abs = -nominal.position.at(font_size);
    offset.unwrap_or(nominal_offset) - shift
}

/// Resolve how a decorative line is drawn on a run; `None` for a highlight.
pub fn line_style(line: &DecoLine, text: &TextItem, shift: Abs) -> (style: Option<LineStyle>)
    requires
        text.wf(),
        line.wf(),
        in_range(shift as int),
    ensures
        style == line_style_of(
            *line,
            text.font.metrics,
            text.fill,
            text.size as int,
            shift as int,
        ),
        style matches Some(s) ==> in_range(s.offset as int + shift as int),
{
    let (stroke, metrics, offset, evade) = match *line {
        DecoLine::Strikethrough(s, o) => (s, text.font.metrics.strikethrough, o, false),
        DecoLine::Overline(s, o, e) => (s, text.font.metrics.overline, o, e),
        DecoLine::Underline(s, o, e) => (s, text.font.metrics.underline, o, e),
        DecoLine::Highlight(_, _, _) => {
            return None;
        },
    };
    let offset = resolve_offset(offset, metrics, text.size, shift);
    let stroke = resolve_stroke(stroke, metrics, text.fill, text.size);
    Some(LineStyle { stroke, offset, evade })
}

/// An explicit override resolves to itself, whatever the font and the font
/// size, and resolving what was resolved before changes nothing: an offset
/// comes out as it was set, less the baseline shift; a stroke that sets every
/// property comes out as it was set; and a resolved stroke or offset, set
/// again as an override, resolves to the same.
pub proof fn lemma_override_resolves_to_itself(
    stroke: PartialStroke,
    offset: Smart<Abs>,
    set_stroke: Stroke,
    set_offset: Abs,
    nominal: LineMetrics,
    fill: Paint,
    font_size: int,
    other_nominal: LineMetrics,
    other_fill: Paint,
    other_font_size: int,
    shift: int,
)
    ensures
        offset_of(Smart::Custom(set_offset), nominal, font_size, shift) == set_offset - shift,
        stroke_of(PartialStroke::exactly(set_stroke), nominal, fill, font_size) == set_stroke,
        stroke_of(
            PartialStroke::exactly(stroke_of(stroke, nominal, fill, font_size)),
            other_nominal,
            other_fill,
            other_font_size,
        ) == stroke_of(stroke, nominal, fill, font_size),
        offset_of(
            Smart::Custom(offset.or((-nominal.position.at_spec(font_size)) as i64)),
            other_nominal,
            other_font_size,
            shift,
        ) == offset_of(offset, nominal, font_size, shift),
{
}

} // verus!
