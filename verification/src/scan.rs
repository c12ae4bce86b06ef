//! Finding the glyphs that a decorative line may collide with.
//!
//! The scan walks a run from left to right with a pen that starts at the left
//! end of the line. A glyph whose bounding box the line passes through may
//! collide with the line; its path is built where the glyph is drawn, to be
//! intersected with the line.

use vstd::prelude::*;
use crate::font::{FontMetrics, Rect};
use crate::length::{Abs, in_range};
use crate::path::{outline_path, path_of, BezPath, Line, Outline, PathEl};
use crate::text::{pen, TextItem};

verus! {

/// Whether a horizontal line at height `y` passes through a glyph's bounding
/// box at a font size. The box is given with y pointing up, `y` with y
/// pointing down; both edges of the box count as inside.
pub open spec fn line_meets_box(bbox: Rect, metrics: FontMetrics, font_size: int, y: int) -> bool {
    -metrics.units_at(bbox.y_max, font_size) <= y <= -metrics.units_at(bbox.y_min, font_size)
}

/// Whether a horizontal line at height `y` may collide with the `k`-th glyph
/// of a run: the glyph has a bounding box and the line passes through it.
pub open spec fn may_collide(text: &TextItem, k: int, y: int) -> bool {
    match text.glyphs@[k].bbox {
        Some(bbox) => line_meets_box(bbox, text.font.metrics, text.size as int, y),
        None => false,
    }
}

/// Where the `k`-th glyph of a run is drawn when the pen starts at `x`.
pub open spec fn glyph_origin(text: &TextItem, x: int, k: int) -> int {
    x + pen(text.glyphs@, text.size as int, k as nat) + text.glyphs@[k].x_offset.at_spec(
        text.size as int,
    )
}

/// The paths of those among the first `k` glyphs of a run that a horizontal
/// line at height `y` may collide with, from left to right.
pub open spec fn scanned(text: &TextItem, outlines: Seq<Outline>, x: int, y: int, k: nat) -> Seq<
    Seq<PathEl>,
>
    decreases k,
{
    if k == 0 {
        Seq::empty()
    } else {
        let before = scanned(text, outlines, x, y, (k - 1) as nat);
        if may_collide(text, k - 1, y) {
            before.push(
                path_of(
                    outlines[k - 1]@,
                    text.font.metrics.units_per_em as u32,
                    text.size as int,
                    glyph_origin(text, x, k - 1),
                ),
            )
        } else {
            before
        }
    }
}

/// The elements of each path in a list.
pub open spec fn path_views(paths: Seq<BezPath>) -> Seq<Seq<PathEl>> {
    Seq::new(paths.len(), |i: int| paths[i]@)
}

/// Whether a horizontal line at height `y` passes through a glyph's bounding box.
pub fn meets_box(text: &TextItem, bbox: Rect, y: Abs) -> (r: bool)
    requires
        text.wf(),
    ensures
        r == line_meets_box(bbox, text.font.metrics, text.size as int, y as int),
{
    let y_min: Abs = -text.font.units_at(bbox.y_max, text.size);
    let y_max: Abs = -text.font.units_at(bbox.y_min, text.size);
    y >= y_min && y <= y_max
}

/// Scan a run for the glyphs that a horizontal line may collide with.
///
/// The line gives the start of the pen, `line.start.x`, and its height,
/// `line.start.y`. `outlines` holds the outline of each glyph of the run, in the
/// order of the run and in font design units. The result holds the path of
/// each glyph whose bounding box the line passes through, from left to right.
pub fn collision_paths(text: &TextItem, outlines: &Vec<Outline>, line: &Line) -> (paths: Vec<BezPath>)
    requires
        text.wf(),
        outlines@.len() == text.glyphs@.len(),
        in_range(line.start.x as int),
    ensures
        path_views(paths@) == scanned(
            text,
            outlines@,
            line.start.x as int,
            line.start.y as int,
            text.glyphs@.len(),
        ),
{
    let y: Abs = line.start.y;
    let mut x: Abs = line.start.x;
    let mut paths: Vec<BezPath> = Vec::new();
    let mut k: usize = 0;
    while k < text.glyphs.len()
        invariant
            k <= text.glyphs@.len(),
            text.wf(),
            outlines@.len() == text.glyphs@.len(),
            in_range(line.start.x as int),
            y == line.start.y,
            x == line.start.x + pen(text.glyphs@, text.size as int, k as nat),
            path_views(paths@) == scanned(text, outlines@, line.start.x as int, y as int, k as nat),
        decreases text.glyphs@.len() - k,
    {
        let glyph = text.glyphs[k];
        assert(text.glyphs@[k as int].wf());
        assert(in_range(pen(text.glyphs@, text.size as int, k as nat)));
        assert(in_range(pen(text.glyphs@, text.size as int, (k + 1) as nat)));
        let dx: Abs = glyph.x_offset.at(text.size) + x;
        let bbox = glyph.bbox;
        x = x + glyph.x_advance.at(text.size);
        let intersect = match bbox {
            Some(bbox) => meets_box(text, bbox, y),
            None => false,
        };
        if intersect {
            let path = outline_path(
                &outlines[k],
                text.font.metrics.units_per_em as u32,
                text.size,
                dx,
            );
            paths.push(path);
        }
        k += 1;
        assert(path_views(paths@) =~= scanned(
            text,
            outlines@,
            line.start.x as int,
            y as int,
            k as nat,
        ));
    }
    paths
}

} // verus!
