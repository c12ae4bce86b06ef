//! Decorations of a run of text, and the pass that draws one.
//!
//! A highlight is drawn at once. So is a line that does not evade the glyphs.
//! A line that evades is drawn in three steps: [`evasion_line`] says along
//! which line to look for collisions, [`crate::scan::collision_paths`] builds
//! the paths of the glyphs that the line may collide with, and [`decorate`]
//! takes the x-coordinates at which the line crosses those paths. Finding the
//! crossings is floating-point work and is left to the caller.

use vstd::prelude::*;
use crate::frame::{Frame, FrameItem, Span};
use crate::highlight::{get_top_bottom, highlight_item, top_bottom};
use crate::length::{
    check_coordinate, check_range, Abs, Point, Size, in_range, is_coordinate, is_font_size,
    lemma_floor_div_bounds,
};
use crate::path::Line;
use crate::segments::{
    assemble_segments, edge_points, emitted, has_outlying_piece, is_reach,
    lemma_no_outlying_piece, lemma_pieces_apart, lemma_pieces_in_reach,
    lemma_pieces_within_sentinels, spans, Segment,
};
use crate::resolve::{line_parts, line_style, line_style_of};
use crate::text::{BottomEdge, TextItem, TopEdge};
use crate::visualize::{Geometry, Paint, PartialStroke, Smart, Stroke};

verus! {

/// A kind of decorative line, or a highlight.
#[derive(Clone, Copy, Debug, PartialEq, Eq, Hash)]
pub enum DecoLine {
    /// A line under the text: its stroke, its offset from the baseline, and
    /// whether it evades the glyphs.
    Underline(PartialStroke, Smart<Abs>, bool),
    /// A line through the text: its stroke and its offset from the baseline.
    Strikethrough(PartialStroke, Smart<Abs>),
    /// A line over the text: its stroke, its offset from the baseline, and
    /// whether it evades the glyphs.
    Overline(PartialStroke, Smart<Abs>, bool),
    /// A background: its fill, its top edge and its bottom edge.
    Highlight(Paint, TopEdge, BottomEdge),
}

/// A line that is positioned over, under or on top of text, or a background
/// behind it.
#[derive(Clone, Copy, Debug, PartialEq, Eq, Hash)]
pub struct Decoration {
    pub line: DecoLine,
    /// How far the decoration reaches beyond the text on either side; within
    /// the text where negative.
    pub extent: Abs,
}

impl DecoLine {
    /// Every length set explicitly is within the accepted range.
    pub open spec fn wf(self) -> bool {
        match self {
            DecoLine::Underline(_, offset, _) => offset matches Smart::Custom(v) ==> in_range(
                v as int,
            ),
            DecoLine::Strikethrough(_, offset) => offset matches Smart::Custom(v) ==> in_range(
                v as int,
            ),
            DecoLine::Overline(_, offset, _) => offset matches Smart::Custom(v) ==> in_range(
                v as int,
            ),
            DecoLine::Highlight(_, top_edge, bottom_edge) => top_edge.wf() && bottom_edge.wf(),
        }
    }
}

impl Decoration {
    /// Every length set explicitly is within the accepted range.
    pub open spec fn wf(self) -> bool {
        self.line.wf() && in_range(self.extent as int)
    }

    /// Tests [`Decoration::wf`].
    pub fn is_wf(&self) -> (r: bool)
        ensures
            r == self.wf(),
    {
        let line_ok = match self.line {
            DecoLine::Underline(_, offset, _) => offset_in_range(offset),
            DecoLine::Strikethrough(_, offset) => offset_in_range(offset),
            DecoLine::Overline(_, offset, _) => offset_in_range(offset),
            DecoLine::Highlight(_, top_edge, bottom_edge) => {
                let top_ok = match top_edge {
                    TopEdge::Length(l) => check_range(l),
                    TopEdge::Metric(_) => true,
                };
                let bottom_ok = match bottom_edge {
                    BottomEdge::Length(l) => check_range(l),
                    BottomEdge::Metric(_) => true,
                };
                top_ok && bottom_ok
            },
        };
        line_ok && check_range(self.extent)
    }

    /// Put this decoration in front of the decorations that apply further out.
    pub fn fold(self, outer: Vec<Decoration>) -> (folded: Vec<Decoration>)
        ensures
            folded@ == seq![self] + outer@,
    {
        let mut folded = outer;
        let ghost before = folded@;
        folded.insert(0, self);
        assert(folded@ =~= seq![self] + before);
        folded
    }
}

fn offset_in_range(offset: Smart<Abs>) -> (r: bool)
    ensures
        r == (offset matches Smart::Custom(v) ==> in_range(v as int)),
{
    match offset {
        Smart::Custom(v) => check_range(v),
        Smart::Auto => true,
    }
}

/// The padding kept between a decorative line and a glyph it evades: 0.08 of
/// the font size, rounded down.
pub open spec fn gap_padding_at(font_size: int) -> int {
    font_size * 8 / 100
}

/// The width below which a piece of an evading line is not drawn: 0.162 of
/// the font size, rounded up. A whole number of units is at least 0.162 of the
/// font size exactly where it is at least this.
pub open spec fn min_width_at(font_size: int) -> int {
    (font_size * 162 + 999) / 1000
}

/// The minimum width is positive at every positive font size.
pub proof fn lemma_min_width_positive(font_size: int)
    requires
        font_size > 0,
    ensures
        min_width_at(font_size) > 0,
{
    vstd::arithmetic::div_mod::lemma_div_is_ordered(1000, font_size * 162 + 999, 1000);
}

/// The padding kept between a decorative line and a glyph it evades.
pub fn gap_padding(font_size: Abs) -> (gap: Abs)
    requires
        is_font_size(font_size as int),
    ensures
        gap == gap_padding_at(font_size as int),
        0 <= gap <= font_size,
{
    font_size * 8 / 100
}

/// The width below which a piece of an evading line is not drawn.
pub fn min_width(font_size: Abs) -> (width: Abs)
    requires
        is_font_size(font_size as int),
    ensures
        width == min_width_at(font_size as int),
        0 <= width <= font_size,
{
    (font_size * 162 + 999) / 1000
}

/// The drawing command of a piece of a line: a stroked horizontal line at
/// height `y` from `from` to `to`.
pub open spec fn line_item(from: int, to: int, y: int, stroke: Stroke) -> (Point, FrameItem) {
    (
        Point { x: from as i64, y: y as i64 },
        FrameItem::Shape(
            Geometry::Line(Point { x: (to - from) as i64, y: 0 }).stroked_spec(stroke),
            Span::Detached,
        ),
    )
}

/// The drawing commands of the pieces of a line, in their order.
pub open spec fn line_items(pieces: Seq<(int, int)>, y: int, stroke: Stroke) -> Seq<
    (Point, FrameItem),
> {
    Seq::new(pieces.len(), |i: int| line_item(pieces[i].0, pieces[i].1, y, stroke))
}

/// The pieces that a decorative line is drawn in.
///
/// A line that does not evade is one piece, from one extent left of the run
/// to one extent right of it, whatever the glyphs and the collisions. A line
/// that evades is cut at the collisions, between sentinels that lie one
/// padding further out.
pub open spec fn line_pieces(
    evade: bool,
    font_size: int,
    width: int,
    extent: int,
    x: int,
    collisions: Seq<i64>,
) -> Seq<(int, int)> {
    let start = x - extent;
    let end = x + width + extent;
    if !evade {
        seq![(start, end)]
    } else {
        let gap = gap_padding_at(font_size);
        emitted(
            edge_points(collisions, (start - gap) as i64, (end + gap) as i64),
            gap,
            min_width_at(font_size),
        )
    }
}

/// The frame after a decoration is drawn on a run.
///
/// A highlight goes behind everything in the frame. The pieces of a line go
/// in front of everything, from left to right, at the height of the run plus
/// the line's offset.
pub open spec fn decorated(
    frame: Seq<(Point, FrameItem)>,
    deco: Decoration,
    text: &TextItem,
    shift: int,
    pos: Point,
    collisions: Seq<i64>,
) -> Seq<(Point, FrameItem)> {
    match deco.line {
        DecoLine::Highlight(fill, top_edge, bottom_edge) => {
            let (top, bottom) = top_bottom(text, top_edge, bottom_edge);
            seq![
                highlight_item(
                    fill,
                    top,
                    bottom,
                    text.width as int,
                    deco.extent as int,
                    shift,
                    pos,
                ),
            ] + frame
        },
        _ => {
            let style = line_style_of(
                deco.line,
                text.font.metrics,
                text.fill,
                text.size as int,
                shift,
            )->0;
            frame + line_items(
                line_pieces(
                    style.evade,
                    text.size as int,
                    text.width as int,
                    deco.extent as int,
                    pos.x as int,
                    collisions,
                ),
                pos.y + style.offset,
                style.stroke,
            )
        },
    }
}

/// The line along which an evading decoration is tested against the glyphs:
/// from the position of the run to its right end, at the line's offset below
/// the baseline. `None` for a decoration that does not evade.
pub open spec fn evasion_line_of(deco: Decoration, text: &TextItem, shift: int, pos: Point) -> Option<
    Line,
> {
    match line_style_of(deco.line, text.font.metrics, text.fill, text.size as int, shift) {
        Some(style) => if style.evade {
            Some(
                Line {
                    start: Point { x: pos.x, y: style.offset },
                    end: Point { x: (pos.x + text.width) as i64, y: style.offset },
                },
            )
        } else {
            None
        },
        None => None,
    }
}

/// The line along which an evading decoration is tested against the glyphs.
///
/// Where the result is a line, the collisions that [`decorate`] takes are the
/// x-coordinates at which that line crosses the paths that
/// [`crate::scan::collision_paths`] returns for it. Where it is `None`,
/// `decorate` reads no collisions.
pub fn evasion_line(deco: &Decoration, text: &TextItem, shift: Abs, pos: Point) -> (line: Option<Line>)
    requires
        text.wf(),
        deco.wf(),
        in_range(shift as int),
        in_range(pos.x as int),
    ensures
        line == evasion_line_of(*deco, text, shift as int, pos),
{
    match line_style(&deco.line, text, shift) {
        Some(style) => {
            if style.evade {
                let right: Abs = pos.x + text.width();
                Some(
                    Line { start: Point::new(pos.x, style.offset), end: Point::new(right, style.offset) },
                )
            } else {
                None
            }
        },
        None => None,
    }
}

/// Draw a piece of a line, unless the line evades and the piece is narrower
/// than the minimum width.
fn push_segment(
    frame: &mut Frame,
    from: Abs,
    to: Abs,
    y: Abs,
    stroke: Stroke,
    min_width: Abs,
    evade: bool,
)
    requires
        is_reach(from as int),
        is_reach(to as int),
    ensures
        final(frame)@ == (if to - from >= min_width || !evade {
            old(frame)@.push(line_item(from as int, to as int, y as int, stroke))
        } else {
            old(frame)@
        }),
{
    let origin = Point::new(from, y);
    let target = Point::new(to - from, 0);
    if target.x >= min_width || !evade {
        let shape = Geometry::Line(target).stroked(stroke);
        frame.push(origin, FrameItem::Shape(shape, Span::detached()));
    }
}

/// Whether each collision lies where a path can lie.
pub open spec fn collisions_in_reach(collisions: Seq<i64>) -> bool {
    forall|i: int| 0 <= i < collisions.len() ==> is_coordinate(#[trigger] collisions[i] as int)
}

/// What [`decorate`] relies on: a run and a decoration that are well-formed,
/// a shift and a position within the accepted range and, where the
/// decoration is a line that evades, collisions that lie where a line can be
/// cut. Of a highlight or a line that does not evade, any collisions do.
pub open spec fn can_decorate(
    deco: Decoration,
    text: &TextItem,
    shift: Abs,
    pos: Point,
    collisions: Seq<i64>,
) -> bool {
    &&& text.wf()
    &&& deco.wf()
    &&& in_range(shift as int)
    &&& in_range(pos.x as int)
    &&& in_range(pos.y as int)
    &&& evasion_line_of(deco, text, shift as int, pos) is Some ==> collisions_in_reach(collisions)
}

/// Tests [`can_decorate`].
pub fn check_decorate(
    deco: &Decoration,
    text: &TextItem,
    shift: Abs,
    pos: Point,
    collisions: &Vec<Abs>,
) -> (r: bool)
    ensures
        r == can_decorate(*deco, text, shift, pos, collisions@),
{
    if !text.is_wf() || !deco.is_wf() || !check_range(shift)
        || !check_range(pos.x) || !check_range(pos.y) {
        return false;
    }
    if evasion_line(deco, text, shift, pos).is_none() {
        return true;
    }
    let mut i: usize = 0;
    while i < collisions.len()
        invariant
            i <= collisions@.len(),
            can_decorate(*deco, text, shift, pos, collisions@) == collisions_in_reach(collisions@),
            forall|j: int| 0 <= j < i ==> is_coordinate(#[trigger] collisions@[j] as int),
        decreases collisions@.len() - i,
    {
        if !check_coordinate(collisions[i]) {
            return false;
        }
        i += 1;
    }
    true
}

/// Add a decoration to a single run of shaped text.
///
/// `pos` is the position of the run in the frame and `shift` the baseline
/// shift that the run was set with. `collisions` holds the x-coordinates at
/// which the line of [`evasion_line`] crosses the glyphs; it is read only
/// where the decoration is a line that evades.
pub fn decorate(
    frame: &mut Frame,
    deco: &Decoration,
    text: &TextItem,
    shift: Abs,
    pos: Point,
    collisions: &Vec<Abs>,
)
    requires
        can_decorate(*deco, text, shift, pos, collisions@),
    ensures
        final(frame)@ == decorated(old(frame)@, *deco, text, shift as int, pos, collisions@),
{
    let width = text.width();
    match deco.line {
        DecoLine::Highlight(fill, top_edge, bottom_edge) => {
            let (top, bottom) = get_top_bottom(text, top_edge, bottom_edge);
            let bg = Geometry::Rect(Size::new(width + 2 * deco.extent, top - bottom)).filled(fill);
            let offset: Abs = (-top) - shift;
            let origin = Point::new(pos.x - deco.extent, pos.y + offset);
            frame.prepend(origin, FrameItem::Shape(bg, Span::detached()));
            return;
        },
        _ => {},
    }
    let style = match line_style(&deco.line, text, shift) {
        Some(style) => style,
        None => {
            return;
        },
    };
    let y: Abs = pos.y + style.offset;
    let gap_padding = gap_padding(text.size);
    let min_width = min_width(text.size);
    let start: Abs = pos.x - deco.extent;
    let end: Abs = pos.x + width + deco.extent;
    let ghost pieces = line_pieces(
        style.evade,
        text.size as int,
        text.width as int,
        deco.extent as int,
        pos.x as int,
        collisions@,
    );
    if !style.evade {
        push_segment(frame, start, end, y, style.stroke, min_width, style.evade);
        assert(frame@ =~= old(frame)@ + line_items(pieces, y as int, style.stroke));
        return;
    }
    let segments = assemble_segments(collisions, start, end, gap_padding, min_width);
    proof {
        lemma_pieces_apart(
            collisions@,
            (start - gap_padding) as i64,
            (end + gap_padding) as i64,
            gap_padding as int,
            min_width as int,
        );
        assert(spans(segments@) == pieces);
    }
    let mut i: usize = 0;
    while i < segments.len()
        invariant
            i <= segments@.len(),
            style.evade,
            spans(segments@) == pieces,
            forall|j: int|
                0 <= j < segments@.len() ==> is_reach((#[trigger] segments@[j]).from as int)
                    && is_reach(segments@[j].to as int),
            forall|j: int| 0 <= j < pieces.len() ==> (#[trigger] pieces[j]).1 - pieces[j].0 >= min_width,
            frame@ == old(frame)@ + line_items(pieces.subrange(0, i as int), y as int, style.stroke),
        decreases segments@.len() - i,
    {
        let segment: Segment = segments[i];
        assert(pieces[i as int] == segment@);
        push_segment(frame, segment.from, segment.to, y, style.stroke, min_width, style.evade);
        i += 1;
        assert(frame@ =~= old(frame)@ + line_items(
            pieces.subrange(0, i as int),
            y as int,
            style.stroke,
        ));
    }
    assert(pieces.subrange(0, i as int) =~= pieces);
}

/// A line that does not evade is drawn as exactly one piece, in front of
/// what the frame held: from one extent left of the run to one extent right
/// of it. The glyphs of the run and the collisions have no part in it.
pub proof fn lemma_plain_line_is_one_piece(
    frame: Seq<(Point, FrameItem)>,
    deco: Decoration,
    text: &TextItem,
    shift: int,
    pos: Point,
    collisions: Seq<i64>,
)
    requires
        line_parts(deco.line, text.font.metrics) matches Some(parts) && !parts.3,
    ensures
        decorated(frame, deco, text, shift, pos, collisions) == frame.push(
            line_item(
                pos.x - deco.extent,
                pos.x + text.width + deco.extent,
                pos.y + line_style_of(
                    deco.line,
                    text.font.metrics,
                    text.fill,
                    text.size as int,
                    shift,
                )->0.offset,
                line_style_of(
                    deco.line,
                    text.font.metrics,
                    text.fill,
                    text.size as int,
                    shift,
                )->0.stroke,
            ),
        ),
{
    let style = line_style_of(deco.line, text.font.metrics, text.fill, text.size as int, shift)->0;
    let pieces = line_pieces(
        style.evade,
        text.size as int,
        text.width as int,
        deco.extent as int,
        pos.x as int,
        collisions,
    );
    assert(pieces =~= seq![(pos.x - deco.extent, pos.x + text.width + deco.extent)]);
    assert(frame + line_items(pieces, pos.y + style.offset, style.stroke) =~= frame.push(
        line_item(
            pos.x - deco.extent,
            pos.x + text.width + deco.extent,
            pos.y + style.offset,
            style.stroke,
        ),
    ));
}

/// Of a line that evades, on any run: no piece is shorter than the minimum
/// width, so none has a negative length, and none is empty at a positive font
/// size; two pieces that follow one another lie at least one padding apart;
/// and unless a piece is emitted outside the sentinels, the first piece
/// begins at `x - extent - padding` or right of it and the last ends at
/// `x + width + extent + padding` or left of it.
pub proof fn lemma_evading_line(
    font_size: int,
    width: int,
    extent: int,
    x: int,
    collisions: Seq<i64>,
)
    requires
        is_font_size(font_size),
        in_range(width),
        in_range(extent),
        in_range(x),
    ensures
        ({
            let pieces = line_pieces(true, font_size, width, extent, x, collisions);
            let gap = gap_padding_at(font_size);
            let lo = x - extent - gap;
            let hi = x + width + extent + gap;
            &&& forall|j: int|
                0 <= j < pieces.len() ==> (#[trigger] pieces[j]).1 - pieces[j].0 >= min_width_at(
                    font_size,
                )
            &&& font_size > 0 ==> forall|j: int|
                0 <= j < pieces.len() ==> (#[trigger] pieces[j]).0 < pieces[j].1
            &&& forall|j: int|
                0 <= j < pieces.len() - 1 ==> (#[trigger] pieces[j + 1]).0 - pieces[j].1 >= gap
            &&& !has_outlying_piece(
                edge_points(collisions, lo as i64, hi as i64),
                lo,
                hi,
                gap,
                min_width_at(font_size),
            ) ==> forall|j: int|
                0 <= j < pieces.len() ==> lo <= (#[trigger] pieces[j]).0 && pieces[j].1 <= hi
        }),
{
    let gap = gap_padding_at(font_size);
    let lo = x - extent - gap;
    let hi = x + width + extent + gap;
    lemma_floor_div_bounds(font_size * 8, 100);
    assert(0 <= gap <= font_size * 8);
    if font_size > 0 {
        lemma_min_width_positive(font_size);
    }
    lemma_pieces_apart(collisions, lo as i64, hi as i64, gap, min_width_at(font_size));
    if !has_outlying_piece(
        edge_points(collisions, lo as i64, hi as i64),
        lo,
        hi,
        gap,
        min_width_at(font_size),
    ) {
        lemma_pieces_within_sentinels(
            collisions,
            lo as i64,
            hi as i64,
            gap,
            min_width_at(font_size),
        );
    }
}

/// Of a line that evades, on a run that is not drawn in: where every collision
/// lies on the run, between `x` and `x + width`, no piece begins left of
/// `x - extent - padding` and none ends right of `x + width + extent + padding`.
pub proof fn lemma_evading_line_within_sentinels(
    font_size: int,
    width: int,
    extent: int,
    x: int,
    collisions: Seq<i64>,
)
    requires
        is_font_size(font_size),
        in_range(width),
        in_range(extent),
        in_range(x),
        width >= 0,
        extent >= 0,
        forall|k: int| 0 <= k < collisions.len() ==> x <= #[trigger] collisions[k] <= x + width,
    ensures
        ({
            let pieces = line_pieces(true, font_size, width, extent, x, collisions);
            let gap = gap_padding_at(font_size);
            forall|j: int|
                0 <= j < pieces.len() ==> x - extent - gap <= (#[trigger] pieces[j]).0
                    && pieces[j].1 <= x + width + extent + gap
        }),
{
    let gap = gap_padding_at(font_size);
    let lo = x - extent - gap;
    let hi = x + width + extent + gap;
    lemma_floor_div_bounds(font_size * 8, 100);
    assert(0 <= gap <= font_size * 8);
    lemma_no_outlying_piece(collisions, lo as i64, hi as i64, gap, min_width_at(font_size));
    lemma_evading_line(font_size, width, extent, x, collisions);
}

/// The ends of a drawing command that is a line from its position straight to
/// the right or to the left: where it begins and where it ends.
pub open spec fn line_ends(item: (Point, FrameItem)) -> Option<(int, int)> {
    match item.1 {
        FrameItem::Shape(shape, _) => match shape.geometry {
            Geometry::Line(to) => if to.y == 0 {
                Some((item.0.x as int, item.0.x + to.x))
            } else {
                None
            },
            _ => None,
        },
    }
}

/// What a line that evades adds to a frame, on a run set at a positive font
/// size: the frame keeps what it held, and what follows are horizontal lines
/// of positive length, from left to right, each beginning at least one
/// padding right of where the one before ends.
pub proof fn lemma_evading_line_drawn(
    frame: Seq<(Point, FrameItem)>,
    deco: Decoration,
    text: &TextItem,
    shift: Abs,
    pos: Point,
    collisions: Seq<i64>,
)
    requires
        can_decorate(deco, text, shift, pos, collisions),
        evasion_line_of(deco, text, shift as int, pos) is Some,
        text.size > 0,
    ensures
        ({
            let after = decorated(frame, deco, text, shift as int, pos, collisions);
            let gap = gap_padding_at(text.size as int);
            &&& after.len() >= frame.len()
            &&& after.subrange(0, frame.len() as int) == frame
            &&& forall|i: int|
                frame.len() <= i < after.len() ==> (#[trigger] line_ends(after[i]) matches Some(
                    ends,
                ) && ends.0 < ends.1)
            &&& forall|i: int|
                frame.len() <= i < after.len() - 1 ==> (#[trigger] line_ends(after[i + 1])
                    matches Some(next) && line_ends(after[i]) matches Some(ends) && next.0
                    - ends.1 >= gap)
        }),
{
    let size = text.size as int;
    let style = line_style_of(deco.line, text.font.metrics, text.fill, size, shift as int)->0;
    let gap = gap_padding_at(size);
    let start = pos.x - deco.extent;
    let end = pos.x + text.width + deco.extent;
    let pieces = line_pieces(true, size, text.width as int, deco.extent as int, pos.x as int, collisions);
    let drawn = line_items(pieces, pos.y + style.offset, style.stroke);
    let after = decorated(frame, deco, text, shift as int, pos, collisions);
    assert(style.evade);
    assert(after == frame + drawn);
    lemma_floor_div_bounds(size * 8, 100);
    assert(0 <= gap <= size * 8);
    lemma_pieces_in_reach(
        collisions,
        (start - gap) as i64,
        (end + gap) as i64,
        gap,
        min_width_at(size),
    );
    lemma_evading_line(size, text.width as int, deco.extent as int, pos.x as int, collisions);
    assert(after.subrange(0, frame.len() as int) =~= frame);
    let n = frame.len() as int;
    assert forall|i: int| n <= i < after.len() implies #[trigger] line_ends(after[i]) == Some(
        pieces[i - n],
    ) by {
        let piece = pieces[i - n];
        assert(after[i] == drawn[i - n]);
        assert(is_reach(piece.0) && is_reach(piece.1));
    }
    assert forall|i: int| n <= i < after.len() implies (#[trigger] line_ends(after[i]) matches Some(
        ends,
    ) && ends.0 < ends.1) by {
        let piece = pieces[i - n];
        assert(piece.0 < piece.1);
    }
    assert forall|i: int| n <= i < after.len() - 1 implies (#[trigger] line_ends(after[i + 1])
        matches Some(next) && line_ends(after[i]) matches Some(ends) && next.0 - ends.1
        >= gap) by {
        let j = i - n;
        let piece = pieces[j];
        let next = pieces[j + 1];
        assert(line_ends(after[i]) == Some(piece));
        assert(line_ends(after[i + 1]) == Some(next));
        assert(next.0 - piece.1 >= gap);
    }
}

} // verus!
