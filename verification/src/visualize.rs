//! Paints, strokes and the shapes that decorations are drawn with.

use vstd::prelude::*;
use crate::length::{Abs, Point, Size};

verus! {

/// A value that is either left to be derived from context or set explicitly.
#[derive(Clone, Copy, Debug, PartialEq, Eq, Hash)]
pub enum Smart<T> {
    /// Derive the value from context.
    Auto,
    /// Use this value.
    Custom(T),
}

impl<T> Smart<T> {
    /// The explicit value, or `default` where none was set.
    pub open spec fn or(self, default: T) -> T {
        match self {
            Smart::Auto => default,
            Smart::Custom(v) => v,
        }
    }

    /// Whether the value is left to context.
    pub fn is_auto(&self) -> (r: bool)
        ensures
            r == (*self is Auto),
    {
        match self {
            Smart::Auto => true,
            Smart::Custom(_) => false,
        }
    }

    /// The explicit value, or `default` where none was set.
    pub fn unwrap_or(self, default: T) -> (r: T)
        ensures
            r == self.or(default),
    {
        match self {
            Smart::Auto => default,
            Smart::Custom(v) => v,
        }
    }
}

/// A color in one of three color spaces.
#[derive(Clone, Copy, Debug, PartialEq, Eq, Hash)]
pub enum Color {
    /// An 8-bit luma color.
    Luma(u8),
    /// An 8-bit RGBA color.
    Rgba(u8, u8, u8, u8),
    /// An 8-bit CMYK color.
    Cmyk(u8, u8, u8, u8),
}

/// How a shape is filled or stroked.
#[derive(Clone, Copy, Debug, PartialEq, Eq, Hash)]
pub enum Paint {
    /// A solid color.
    Solid(Color),
}

/// How the ends of a stroke are drawn.
#[derive(Clone, Copy, Debug, PartialEq, Eq, Hash)]
pub enum LineCap {
    Butt,
    Round,
    Square,
}

/// How the corners of a stroke are drawn.
#[derive(Clone, Copy, Debug, PartialEq, Eq, Hash)]
pub enum LineJoin {
    Miter,
    Round,
    Bevel,
}

/// A fully specified stroke.
#[derive(Clone, Copy, Debug, PartialEq, Eq, Hash)]
pub struct Stroke {
    pub paint: Paint,
    pub thickness: Abs,
    pub line_cap: LineCap,
    pub line_join: LineJoin,
}

impl Stroke {
    /// A stroke of the given paint and thickness with butt caps and miter joins.
    pub open spec fn plain(paint: Paint, thickness: Abs) -> Stroke {
        Stroke { paint, thickness, line_cap: LineCap::Butt, line_join: LineJoin::Miter }
    }

    /// A stroke of the given paint and thickness with butt caps and miter joins.
    pub fn new(paint: Paint, thickness: Abs) -> (s: Stroke)
        ensures
            s == Stroke::plain(paint, thickness),
    {
        Stroke { paint, thickness, line_cap: LineCap::Butt, line_join: LineJoin::Miter }
    }
}

/// A stroke of which any property may be left to context.
#[derive(Clone, Copy, Debug, PartialEq, Eq, Hash)]
pub struct PartialStroke {
    pub paint: Smart<Paint>,
    pub thickness: Smart<Abs>,
    pub line_cap: Smart<LineCap>,
    pub line_join: Smart<LineJoin>,
}

impl PartialStroke {
    /// The stroke that takes each property set here and the others from `default`.
    pub open spec fn or(self, default: Stroke) -> Stroke {
        Stroke {
            paint: self.paint.or(default.paint),
            thickness: self.thickness.or(default.thickness),
            line_cap: self.line_cap.or(default.line_cap),
            line_join: self.line_join.or(default.line_join),
        }
    }

    /// The partial stroke that sets every property as `stroke` has it.
    pub open spec fn exactly(stroke: Stroke) -> PartialStroke {
        PartialStroke {
            paint: Smart::Custom(stroke.paint),
            thickness: Smart::Custom(stroke.thickness),
            line_cap: Smart::Custom(stroke.line_cap),
            line_join: Smart::Custom(stroke.line_join),
        }
    }

    /// The stroke that leaves every property to context.
    pub open spec fn unset() -> PartialStroke {
        PartialStroke {
            paint: Smart::Auto,
            thickness: Smart::Auto,
            line_cap: Smart::Auto,
            line_join: Smart::Auto,
        }
    }

    /// The stroke that leaves every property to context.
    pub fn auto() -> (s: PartialStroke)
        ensures
            s == PartialStroke::unset(),
    {
        PartialStroke {
            paint: Smart::Auto,
            thickness: Smart::Auto,
            line_cap: Smart::Auto,
            line_join: Smart::Auto,
        }
    }

    /// The partial stroke that sets every property as `stroke` has it.
    pub fn from_stroke(stroke: Stroke) -> (s: PartialStroke)
        ensures
            s == PartialStroke::exactly(stroke),
    {
        PartialStroke {
            paint: Smart::Custom(stroke.paint),
            thickness: Smart::Custom(stroke.thickness),
            line_cap: Smart::Custom(stroke.line_cap),
            line_join: Smart::Custom(stroke.line_join),
        }
    }

    /// Fill in the properties left to context from `default`.
    pub fn unwrap_or(self, default: Stroke) -> (s: Stroke)
        ensures
            s == self.or(default),
    {
        Stroke {
            paint: self.paint.unwrap_or(default.paint),
            thickness: self.thickness.unwrap_or(default.thickness),
            line_cap: self.line_cap.unwrap_or(default.line_cap),
            line_join: self.line_join.unwrap_or(default.line_join),
        }
    }
}

/// The outline of a shape, relative to the position it is drawn at.
#[derive(Clone, Copy, Debug, PartialEq, Eq, Hash)]
pub enum Geometry {
    /// A line from the origin to a point.
    Line(Point),
    /// A rectangle with its origin in the top-left corner.
    Rect(Size),
}

/// A geometry with a fill, a stroke, or both.
#[derive(Clone, Copy, Debug, PartialEq, Eq, Hash)]
pub struct Shape {
    pub geometry: Geometry,
    pub fill: Option<Paint>,
    pub stroke: Option<Stroke>,
}

impl Geometry {
    /// This geometry, filled and without a stroke.
    pub open spec fn filled_spec(self, fill: Paint) -> Shape {
        Shape { geometry: self, fill: Some(fill), stroke: None }
    }

    /// This geometry, stroked and without a fill.
    pub open spec fn stroked_spec(self, stroke: Stroke) -> Shape {
        Shape { geometry: self, fill: None, stroke: Some(stroke) }
    }

    /// Fill the geometry without a stroke.
    pub fn filled(self, fill: Paint) -> (s: Shape)
        ensures
            s == self.filled_spec(fill),
    {
        Shape { geometry: self, fill: Some(fill), stroke: None }
    }

    /// Stroke the geometry without a fill.
    pub fn stroked(self, stroke: Stroke) -> (s: Shape)
        ensures
            s == self.stroked_spec(stroke),
    {
        Shape { geometry: self, fill: None, stroke: Some(stroke) }
    }
}

} // verus!
