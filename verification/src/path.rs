//! Glyph outlines and the paths built from them.
//!
//! An outline is what a font stores for a glyph: drawing commands in font
//! design units with y pointing up. A path is that outline at a font size and
//! a place on the line of text: lengths, with y pointing down.

use vstd::prelude::*;
use crate::length::{Abs, Em, Point, is_coordinate, is_font_size, MAX_LENGTH};

verus! {

/// One drawing command of a glyph outline, in font design units.
#[derive(Clone, Copy, Debug, PartialEq, Eq, Hash)]
pub enum OutlineCommand {
    /// Start a contour at a point.
    MoveTo(i32, i32),
    /// Draw a straight line to a point.
    LineTo(i32, i32),
    /// Draw a quadratic curve past a control point to a point.
    QuadTo(i32, i32, i32, i32),
    /// Draw a cubic curve past two control points to a point.
    CurveTo(i32, i32, i32, i32, i32, i32),
    /// End the contour.
    Close,
}

/// The outline of a glyph.
pub type Outline = Vec<OutlineCommand>;

/// One element of a path.
#[derive(Clone, Copy, Debug, PartialEq, Eq, Hash)]
pub enum PathEl {
    /// Start a subpath at a point.
    MoveTo(Point),
    /// Draw a straight line to a point.
    LineTo(Point),
    /// Draw a quadratic curve past a control point to a point.
    QuadTo(Point, Point),
    /// Draw a cubic curve past two control points to a point.
    CurveTo(Point, Point, Point),
    /// Close the subpath.
    ClosePath,
}

/// A path of lines and curves.
pub type BezPath = Vec<PathEl>;

/// A straight line between two points.
#[derive(Clone, Copy, Debug, PartialEq, Eq, Hash)]
pub struct Line {
    pub start: Point,
    pub end: Point,
}

/// The length that an outline coordinate comes to at a font size.
pub open spec fn scaled(v: i32, units_per_em: u32, font_size: int) -> int {
    (Em { units: v, per_em: units_per_em }).at_spec(font_size)
}

/// Where a point of an outline lies in a path: scaled to the font size, moved
/// right by the origin, and with y flipped to point down.
pub open spec fn placed(x: i32, y: i32, units_per_em: u32, font_size: int, x_offset: int) -> Point {
    Point {
        x: (scaled(x, units_per_em, font_size) + x_offset) as i64,
        y: (-scaled(y, units_per_em, font_size)) as i64,
    }
}

/// The path element that an outline command becomes.
pub open spec fn path_el(
    command: OutlineCommand,
    units_per_em: u32,
    font_size: int,
    x_offset: int,
) -> PathEl {
    match command {
        OutlineCommand::MoveTo(x, y) => PathEl::MoveTo(
            placed(x, y, units_per_em, font_size, x_offset),
        ),
        OutlineCommand::LineTo(x, y) => PathEl::LineTo(
            placed(x, y, units_per_em, font_size, x_offset),
        ),
        OutlineCommand::QuadTo(x1, y1, x, y) => PathEl::QuadTo(
            placed(x1, y1, units_per_em, font_size, x_offset),
            placed(x, y, units_per_em, font_size, x_offset),
        ),
        OutlineCommand::CurveTo(x1, y1, x2, y2, x, y) => PathEl::CurveTo(
            placed(x1, y1, units_per_em, font_size, x_offset),
            placed(x2, y2, units_per_em, font_size, x_offset),
            placed(x, y, units_per_em, font_size, x_offset),
        ),
        OutlineCommand::Close => PathEl::ClosePath,
    }
}

/// The path that an outline becomes: one element for each command, in order.
pub open spec fn path_of(
    outline: Seq<OutlineCommand>,
    units_per_em: u32,
    font_size: int,
    x_offset: int,
) -> Seq<PathEl> {
    Seq::new(outline.len(), |i: int| path_el(outline[i], units_per_em, font_size, x_offset))
}

/// Builds the path of a glyph from the commands of its outline.
pub struct BezPathBuilder {
    pub path: BezPath,
    pub units_per_em: u32,
    pub font_size: Abs,
    pub x_offset: Abs,
}

impl BezPathBuilder {
    /// What the builder relies on: a denominator, a font size, and an origin
    /// from which every scaled coordinate can be reached.
    pub open spec fn wf(&self) -> bool {
        &&& self.units_per_em > 0
        &&& is_font_size(self.font_size as int)
        &&& is_coordinate(self.x_offset as int)
    }

    /// Whether `later` is this builder with `el` added to its path.
    pub open spec fn extended_by(&self, later: &BezPathBuilder, el: PathEl) -> bool {
        &&& later.path@ == self.path@.push(el)
        &&& later.units_per_em == self.units_per_em
        &&& later.font_size == self.font_size
        &&& later.x_offset == self.x_offset
    }

    /// The point that the builder places an outline point at.
    pub open spec fn place(&self, x: i32, y: i32) -> Point {
        placed(x, y, self.units_per_em, self.font_size as int, self.x_offset as int)
    }

    /// A builder with an empty path.
    pub fn new(units_per_em: u32, font_size: Abs, x_offset: Abs) -> (b: BezPathBuilder)
        ensures
            b.path@ == Seq::<PathEl>::empty(),
            b.units_per_em == units_per_em,
            b.font_size == font_size,
            b.x_offset == x_offset,
    {
        BezPathBuilder { path: Vec::new(), units_per_em, font_size, x_offset }
    }

    /// The path built so far.
    pub fn finish(self) -> (path: BezPath)
        ensures
            path == self.path,
    {
        self.path
    }

    /// Place an outline point in the path's coordinates.
    pub fn p(&self, x: i32, y: i32) -> (point: Point)
        requires
            self.wf(),
        ensures
            point == self.place(x, y),
    {
        let px: Abs = self.s(x) + self.x_offset;
        let py: Abs = -self.s(y);
        Point::new(px, py)
    }

    /// Scale an outline coordinate to the font size.
    pub fn s(&self, v: i32) -> (r: Abs)
        requires
            self.wf(),
        ensures
            r == scaled(v, self.units_per_em, self.font_size as int),
            -MAX_LENGTH <= r <= MAX_LENGTH,
    {
        Em::from_units(v, self.units_per_em).at(self.font_size)
    }

    /// Start a contour.
    pub fn move_to(&mut self, x: i32, y: i32)
        requires
            old(self).wf(),
        ensures
            old(self).extended_by(final(self), PathEl::MoveTo(old(self).place(x, y))),
    {
        let p = self.p(x, y);
        self.path.push(PathEl::MoveTo(p));
    }

    /// Draw a straight line.
    pub fn line_to(&mut self, x: i32, y: i32)
        requires
            old(self).wf(),
        ensures
            old(self).extended_by(final(self), PathEl::LineTo(old(self).place(x, y))),
    {
        let p = self.p(x, y);
        self.path.push(PathEl::LineTo(p));
    }

    /// Draw a quadratic curve.
    pub fn quad_to(&mut self, x1: i32, y1: i32, x: i32, y: i32)
        requires
            old(self).wf(),
        ensures
            old(self).extended_by(
                final(self),
                PathEl::QuadTo(old(self).place(x1, y1), old(self).place(x, y)),
            ),
    {
        let control = self.p(x1, y1);
        let p = self.p(x, y);
        self.path.push(PathEl::QuadTo(control, p));
    }

    /// Draw a cubic curve.
    pub fn curve_to(&mut self, x1: i32, y1: i32, x2: i32, y2: i32, x: i32, y: i32)
        requires
            old(self).wf(),
        ensures
            old(self).extended_by(
                final(self),
                PathEl::CurveTo(
                    old(self).place(x1, y1),
                    old(self).place(x2, y2),
                    old(self).place(x, y),
                ),
            ),
    {
        let first = self.p(x1, y1);
        let second = self.p(x2, y2);
        let p = self.p(x, y);
        self.path.push(PathEl::CurveTo(first, second, p));
    }

    /// End the contour.
    pub fn close(&mut self)
        ensures
            old(self).extended_by(final(self), PathEl::ClosePath),
    {
        self.path.push(PathEl::ClosePath);
    }

    /// Hand one outline command to the operation it names.
    pub fn command(&mut self, command: OutlineCommand)
        requires
            old(self).wf(),
        ensures
            old(self).extended_by(
                final(self),
                path_el(
                    command,
                    old(self).units_per_em,
                    old(self).font_size as int,
                    old(self).x_offset as int,
                ),
            ),
    {
        match command {
            OutlineCommand::MoveTo(x, y) => self.move_to(x, y),
            OutlineCommand::LineTo(x, y) => self.line_to(x, y),
            OutlineCommand::QuadTo(x1, y1, x, y) => self.quad_to(x1, y1, x, y),
            OutlineCommand::CurveTo(x1, y1, x2, y2, x, y) => self.curve_to(x1, y1, x2, y2, x, y),
            OutlineCommand::Close => self.close(),
        }
    }
}

/// Build the path of a glyph: its outline at a font size, with its origin at
/// `x_offset` on the baseline, and y pointing down.
pub fn outline_path(outline: &Outline, units_per_em: u32, font_size: Abs, x_offset: Abs) -> (path:
    BezPath)
    requires
        units_per_em > 0,
        is_font_size(font_size as int),
        is_coordinate(x_offset as int),
    ensures
        path@ == path_of(outline@, units_per_em, font_size as int, x_offset as int),
{
    let mut builder = BezPathBuilder::new(units_per_em, font_size, x_offset);
    let mut i: usize = 0;
    while i < outline.len()
        invariant
            i <= outline@.len(),
            builder.wf(),
            builder.units_per_em == units_per_em,
            builder.font_size == font_size,
            builder.x_offset == x_offset,
            builder.path@ == path_of(
                outline@.subrange(0, i as int),
                units_per_em,
                font_size as int,
                x_offset as int,
            ),
        decreases outline@.len() - i,
    {
        builder.command(outline[i]);
        i += 1;
        assert(builder.path@ =~= path_of(
            outline@.subrange(0, i as int),
            units_per_em,
            font_size as int,
            x_offset as int,
        ));
    }
    assert(outline@.subrange(0, i as int) =~= outline@);
    builder.finish()
}

} // verus!
