//! The box of a highlight: from the edges it is given, widened to the glyphs.

use vstd::prelude::*;
use crate::frame::{FrameItem, Span};
use crate::length::{Abs, Point, Size, in_range};
use crate::text::{BottomEdge, TextItem, TopEdge};
use crate::visualize::{Geometry, Paint};

verus! {

/// The larger of two numbers.
pub open spec fn larger(a: int, b: int) -> int {
    if a >= b {
        a
    } else {
        b
    }
}

/// The smaller of two numbers.
pub open spec fn smaller(a: int, b: int) -> int {
    if a <= b {
        a
    } else {
        b
    }
}

/// The top of a highlight once it is widened to the first `k` glyphs of a
/// run: the nominal top, or the top of the highest bounding box among those
/// glyphs where that lies higher.
pub open spec fn top_upto(text: &TextItem, nominal: int, k: nat) -> int
    decreases k,
{
    if k == 0 {
        nominal
    } else {
        let before = top_upto(text, nominal, (k - 1) as nat);
        match text.glyphs@[k - 1].bbox {
            Some(bbox) => larger(before, text.font.metrics.units_at(bbox.y_max, text.size as int)),
            None => before,
        }
    }
}

/// The bottom of a highlight once it is widened to the first `k` glyphs of a
/// run: the nominal bottom, or the bottom of the lowest bounding box among
/// those glyphs where that lies lower.
pub open spec fn bottom_upto(text: &TextItem, nominal: int, k: nat) -> int
    decreases k,
{
    if k == 0 {
        nominal
    } else {
        let before = bottom_upto(text, nominal, (k - 1) as nat);
        match text.glyphs@[k - 1].bbox {
            Some(bbox) => smaller(before, text.font.metrics.units_at(bbox.y_min, text.size as int)),
            None => before,
        }
    }
}

/// The top and bottom of a highlight on a run, as heights above the
/// baseline: the edges resolved against the font, widened to the bounding
/// box of every glyph of the run.
pub open spec fn top_bottom(text: &TextItem, top_edge: TopEdge, bottom_edge: BottomEdge) -> (
    int,
    int,
) {
    (
        top_upto(
            text,
            top_edge.resolve_spec(text.font.metrics, text.size as int, None),
            text.glyphs@.len(),
        ),
        bottom_upto(
            text,
            bottom_edge.resolve_spec(text.font.metrics, text.size as int, None),
            text.glyphs@.len(),
        ),
    )
}

/// The highlight reaches from the nominal edges or beyond, and covers every
/// glyph of the run that has a bounding box: its top lies at the top of the
/// box or higher, its bottom at the bottom of the box or lower.
pub proof fn lemma_highlight_covers(text: &TextItem, top: int, bottom: int, k: nat)
    requires
        k <= text.glyphs@.len(),
    ensures
        top_upto(text, top, k) >= top,
        bottom_upto(text, bottom, k) <= bottom,
        forall|i: int|
            0 <= i < k ==> ((#[trigger] text.glyphs@[i]).bbox matches Some(bbox) ==> top_upto(
                text,
                top,
                k,
            ) >= text.font.metrics.units_at(bbox.y_max, text.size as int) && bottom_upto(
                text,
                bottom,
                k,
            ) <= text.font.metrics.units_at(bbox.y_min, text.size as int)),
    decreases k,
{
    if k > 0 {
        lemma_highlight_covers(text, top, bottom, (k - 1) as nat);
    }
}

/// Compute the top and bottom of a highlight on a run.
pub fn get_top_bottom(text: &TextItem, top_edge: TopEdge, bottom_edge: BottomEdge) -> (r: (Abs, Abs))
    requires
        text.wf(),
        top_edge.wf(),
        bottom_edge.wf(),
    ensures
        (r.0 as int, r.1 as int) == top_bottom(text, top_edge, bottom_edge),
        in_range(r.0 as int),
        in_range(r.1 as int),
        forall|i: int|
            0 <= i < text.glyphs@.len() ==> ((#[trigger] text.glyphs@[i]).bbox matches Some(
                bbox,
            ) ==> r.0 >= text.font.metrics.units_at(bbox.y_max, text.size as int) && r.1
                <= text.font.metrics.units_at(bbox.y_min, text.size as int)),
{
    let mut top: Abs = top_edge.resolve(&text.font, text.size, None);
    let mut bottom: Abs = bottom_edge.resolve(&text.font, text.size, None);
    let ghost nominal_top = top as int;
    let ghost nominal_bottom = bottom as int;
    let mut k: usize = 0;
    while k < text.glyphs.len()
        invariant
            k <= text.glyphs@.len(),
            text.wf(),
            top == top_upto(text, nominal_top, k as nat),
            bottom == bottom_upto(text, nominal_bottom, k as nat),
            in_range(top as int),
            in_range(bottom as int),
        decreases text.glyphs@.len() - k,
    {
        match text.glyphs[k].bbox {
            Some(bbox) => {
                let glyph_top = text.font.units_at(bbox.y_max, text.size);
                let glyph_bottom = text.font.units_at(bbox.y_min, text.size);
                if glyph_top > top {
                    top = glyph_top;
                }
                if glyph_bottom < bottom {
                    bottom = glyph_bottom;
                }
            },
            None => {},
        }
        k += 1;
    }
    proof {
        lemma_highlight_covers(text, nominal_top, nominal_bottom, text.glyphs@.len());
    }
    (top, bottom)
}

/// The drawing command of a highlight: a filled rectangle as wide as the
/// run and the extent on either side, from `top` above the baseline of the
/// shifted run down to `bottom`.
pub open spec fn highlight_item(
    fill: Paint,
    top: int,
    bottom: int,
    width: int,
    extent: int,
    shift: int,
    pos: Point,
) -> (Point, FrameItem) {
    (
        Point { x: (pos.x - extent) as i64, y: (pos.y + (-top - shift)) as i64 },
        FrameItem::Shape(
            Geometry::Rect(
                Size { x: (width + 2 * extent) as i64, y: (top - bottom) as i64 },
            ).filled_spec(fill),
            Span::Detached,
        ),
    )
}

/// A highlight covers every glyph of its run that has a bounding box: its
/// top lies at the top of the box or higher, its bottom at the bottom of the
/// box or lower. It also reaches the edges that it was given, or beyond.
pub proof fn lemma_highlight_coverage(text: &TextItem, top_edge: TopEdge, bottom_edge: BottomEdge)
    ensures
        top_bottom(text, top_edge, bottom_edge).0 >= top_edge.resolve_spec(
            text.font.metrics,
            text.size as int,
            None,
        ),
        top_bottom(text, top_edge, bottom_edge).1 <= bottom_edge.resolve_spec(
            text.font.metrics,
            text.size as int,
            None,
        ),
        forall|i: int|
            0 <= i < text.glyphs@.len() ==> ((#[trigger] text.glyphs@[i]).bbox matches Some(
                bbox,
            ) ==> top_bottom(text, top_edge, bottom_edge).0 >= text.font.metrics.units_at(
                bbox.y_max,
                text.size as int,
            ) && top_bottom(text, top_edge, bottom_edge).1 <= text.font.metrics.units_at(
                bbox.y_min,
                text.size as int,
            )),
{
    lemma_highlight_covers(
        text,
        top_edge.resolve_spec(text.font.metrics, text.size as int, None),
        bottom_edge.resolve_spec(text.font.metrics, text.size as int, None),
        text.glyphs@.len(),
    );
}

} // verus!
