//! Runs of shaped text.

use vstd::prelude::*;
use crate::font::{Font, FontMetrics, Rect};
use crate::length::{Abs, Em, in_range, is_font_size, check_range, check_font_size};
use crate::visualize::Paint;

verus! {

/// A glyph in a run.
#[derive(Clone, Copy, Debug, PartialEq, Eq, Hash)]
pub struct Glyph {
    /// The glyph's id in the run's font.
    pub id: u16,
    /// How far the pen moves after the glyph.
    pub x_advance: Em,
    /// How far the glyph is drawn from the pen.
    pub x_offset: Em,
    /// The glyph's bounding box in the run's font; `None` for a glyph without
    /// one, such as a space.
    pub bbox: Option<Rect>,
}

impl Glyph {
    /// Advance and offset have a denominator.
    pub open spec fn wf(self) -> bool {
        self.x_advance.wf() && self.x_offset.wf()
    }
}

/// How far the pen has moved from the start of a run once the first `k`
/// glyphs are set, each advance resolved at the font size on its own.
pub open spec fn pen(glyphs: Seq<Glyph>, font_size: int, k: nat) -> int
    decreases k,
{
    if k == 0 {
        0
    } else {
        pen(glyphs, font_size, (k - 1) as nat) + glyphs[k - 1].x_advance.at_spec(font_size)
    }
}

/// A run of shaped glyphs that share one font, size and fill.
pub struct TextItem {
    /// The font the glyphs are taken from.
    pub font: Font,
    /// The font size.
    pub size: Abs,
    /// What the glyphs are filled with.
    pub fill: Paint,
    /// The width of the run in the layout.
    pub width: Abs,
    /// The glyphs, from left to right.
    pub glyphs: Vec<Glyph>,
}

impl TextItem {
    /// What the computations on a run rely on: a font size and a width in
    /// range, denominators everywhere, and a pen that stays in range along
    /// the whole run.
    pub open spec fn wf(&self) -> bool {
        &&& is_font_size(self.size as int)
        &&& in_range(self.width as int)
        &&& self.font.metrics.wf()
        &&& forall|i: int| 0 <= i < self.glyphs@.len() ==> (#[trigger] self.glyphs@[i]).wf()
        &&& forall|k: nat|
            k <= self.glyphs@.len() ==> in_range(#[trigger] pen(self.glyphs@, self.size as int, k))
    }

    /// The width of the run in the layout.
    pub fn width(&self) -> (w: Abs)
        ensures
            w == self.width,
    {
        self.width
    }

    /// Tests [`TextItem::wf`].
    pub fn is_wf(&self) -> (r: bool)
        ensures
            r == self.wf(),
    {
        if !check_font_size(self.size) || !check_range(self.width) || !self.font.metrics.is_wf() {
            return false;
        }
        let mut x: Abs = 0;
        let mut i: usize = 0;
        while i < self.glyphs.len()
            invariant
                i <= self.glyphs@.len(),
                is_font_size(self.size as int),
                x == pen(self.glyphs@, self.size as int, i as nat),
                forall|j: int| 0 <= j < i ==> (#[trigger] self.glyphs@[j]).wf(),
                forall|k: nat| k <= i ==> in_range(#[trigger] pen(self.glyphs@, self.size as int, k)),
            decreases self.glyphs@.len() - i,
        {
            let g = self.glyphs[i];
            if !g.x_advance.is_wf() || !g.x_offset.is_wf() {
                assert(!self.glyphs@[i as int].wf());
                return false;
            }
            let step = g.x_advance.at(self.size);
            x = x + step;
            i += 1;
            assert(x == pen(self.glyphs@, self.size as int, i as nat));
            if !check_range(x) {
                assert(!in_range(pen(self.glyphs@, self.size as int, i as nat)));
                return false;
            }
            assert forall|k: nat| k <= i implies in_range(
                #[trigger] pen(self.glyphs@, self.size as int, k),
            ) by {
                if k < i {
                } else {
                    assert(k == i as nat);
                }
            }
        }
        true
    }
}

/// Which font metric the top edge of a box follows.
#[derive(Clone, Copy, Debug, PartialEq, Eq, Hash)]
pub enum TopEdgeMetric {
    /// The font's ascender.
    Ascender,
    /// The height of flat capital letters.
    CapHeight,
    /// The height of flat lowercase letters.
    XHeight,
    /// The baseline.
    Baseline,
    /// The top of the glyph's bounding box.
    Bounds,
}

/// The top edge of a box around text.
#[derive(Clone, Copy, Debug, PartialEq, Eq, Hash)]
pub enum TopEdge {
    /// The edge follows a font metric.
    Metric(TopEdgeMetric),
    /// The edge lies at this height above the baseline.
    Length(Abs),
}

/// Which font metric the bottom edge of a box follows.
#[derive(Clone, Copy, Debug, PartialEq, Eq, Hash)]
pub enum BottomEdgeMetric {
    /// The baseline.
    Baseline,
    /// The font's descender.
    Descender,
    /// The bottom of the glyph's bounding box.
    Bounds,
}

/// The bottom edge of a box around text.
#[derive(Clone, Copy, Debug, PartialEq, Eq, Hash)]
pub enum BottomEdge {
    /// The edge follows a font metric.
    Metric(BottomEdgeMetric),
    /// The edge lies at this height above the baseline.
    Length(Abs),
}

impl TopEdge {
    /// An explicit height is within the accepted range.
    pub open spec fn wf(self) -> bool {
        self matches TopEdge::Length(l) ==> in_range(l as int)
    }

    /// The height of the edge above the baseline. An edge that follows the
    /// glyph bounds lies on the baseline where no bounds are given.
    pub open spec fn resolve_spec(self, metrics: FontMetrics, font_size: int, bbox: Option<Rect>) -> int {
        match self {
            TopEdge::Metric(TopEdgeMetric::Ascender) => metrics.ascender.at_spec(font_size),
            TopEdge::Metric(TopEdgeMetric::CapHeight) => metrics.cap_height.at_spec(font_size),
            TopEdge::Metric(TopEdgeMetric::XHeight) => metrics.x_height.at_spec(font_size),
            TopEdge::Metric(TopEdgeMetric::Baseline) => 0,
            TopEdge::Metric(TopEdgeMetric::Bounds) => match bbox {
                Some(b) => metrics.units_at(b.y_max, font_size),
                None => 0,
            },
            TopEdge::Length(l) => l as int,
        }
    }

    /// Resolve the edge against a font at a font size.
    pub fn resolve(self, font: &Font, font_size: Abs, bbox: Option<Rect>) -> (r: Abs)
        requires
            self.wf(),
            font.metrics.wf(),
            is_font_size(font_size as int),
        ensures
            r == self.resolve_spec(font.metrics, font_size as int, bbox),
            in_range(r as int),
    {
        match self {
            TopEdge::Metric(TopEdgeMetric::Ascender) => font.metrics.ascender.at(font_size),
            TopEdge::Metric(TopEdgeMetric::CapHeight) => font.metrics.cap_height.at(font_size),
            TopEdge::Metric(TopEdgeMetric::XHeight) => font.metrics.x_height.at(font_size),
            TopEdge::Metric(TopEdgeMetric::Baseline) => 0,
            TopEdge::Metric(TopEdgeMetric::Bounds) => match bbox {
                Some(b) => font.units_at(b.y_max, font_size),
                None => 0,
            },
            TopEdge::Length(l) => l,
        }
    }
}

impl BottomEdge {
    /// An explicit height is within the accepted range.
    pub open spec fn wf(self) -> bool {
        self matches BottomEdge::Length(l) ==> in_range(l as int)
    }

    /// The height of the edge above the baseline. An edge that follows the
    /// glyph bounds lies on the baseline where no bounds are given.
    pub open spec fn resolve_spec(self, metrics: FontMetrics, font_size: int, bbox: Option<Rect>) -> int {
        match self {
            BottomEdge::Metric(BottomEdgeMetric::Baseline) => 0,
            BottomEdge::Metric(BottomEdgeMetric::Descender) => metrics.descender.at_spec(font_size),
            BottomEdge::Metric(BottomEdgeMetric::Bounds) => match bbox {
                Some(b) => metrics.units_at(b.y_min, font_size),
                None => 0,
            },
            BottomEdge::Length(l) => l as int,
        }
    }

    /// Resolve the edge against a font at a font size.
    pub fn resolve(self, font: &Font, font_size: Abs, bbox: Option<Rect>) -> (r: Abs)
        requires
            self.wf(),
            font.metrics.wf(),
            is_font_size(font_size as int),
        ensures
            r == self.resolve_spec(font.metrics, font_size as int, bbox),
            in_range(r as int),
    {
        match self {
            BottomEdge::Metric(BottomEdgeMetric::Baseline) => 0,
            BottomEdge::Metric(BottomEdgeMetric::Descender) => font.metrics.descender.at(font_size),
            BottomEdge::Metric(BottomEdgeMetric::Bounds) => match bbox {
                Some(b) => font.units_at(b.y_min, font_size),
                None => 0,
            },
            BottomEdge::Length(l) => l,
        }
    }
}

} // verus!
