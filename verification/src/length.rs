//! Lengths, points and font-relative lengths.
//!
//! Every length is a whole number of the smallest unit that the caller
//! distinguishes; the caller picks that unit once and keeps it. Font-relative
//! lengths stay exact fractions of an em until they are resolved at a font
//! size, where they are rounded down to a whole unit.

use vstd::prelude::*;

verus! {

/// An absolute length.
pub type Abs = i64;

/// The largest magnitude of a length that the computations accept.
pub const MAX_LENGTH: i64 = 0x0800_0000_0000_0000;

/// The largest font size that the computations accept.
pub const MAX_FONT_SIZE: i64 = 0x1000_0000;

/// Whether a length is small enough that sums of a few such lengths fit the machine word.
pub open spec fn in_range(v: int) -> bool {
    -MAX_LENGTH <= v <= MAX_LENGTH
}

/// The largest magnitude of an x-coordinate that a glyph can be placed at or a
/// line can be cut at.
pub const MAX_COORDINATE: i64 = 0x2000_0000_0000_0000;

/// Whether a glyph can be placed, or a line cut, at an x-coordinate. Any sum
/// of up to four lengths in range is such a coordinate.
pub open spec fn is_coordinate(v: int) -> bool {
    -MAX_COORDINATE <= v <= MAX_COORDINATE
}

/// Whether a length can serve as a font size.
pub open spec fn is_font_size(v: int) -> bool {
    0 <= v <= MAX_FONT_SIZE
}

/// Tests [`in_range`].
pub fn check_range(v: Abs) -> (r: bool)
    ensures
        r == in_range(v as int),
{
    -MAX_LENGTH <= v && v <= MAX_LENGTH
}

/// Tests [`is_coordinate`].
pub fn check_coordinate(v: Abs) -> (r: bool)
    ensures
        r == is_coordinate(v as int),
{
    -MAX_COORDINATE <= v && v <= MAX_COORDINATE
}

/// Tests [`is_font_size`].
pub fn check_font_size(v: Abs) -> (r: bool)
    ensures
        r == is_font_size(v as int),
{
    0 <= v && v <= MAX_FONT_SIZE
}

/// A position, or an offset between two positions.
#[derive(Clone, Copy, Debug, PartialEq, Eq, Hash)]
pub struct Point {
    pub x: Abs,
    pub y: Abs,
}

impl Point {
    pub fn new(x: Abs, y: Abs) -> (p: Point)
        ensures
            p == (Point { x, y }),
    {
        Point { x, y }
    }
}

/// The extent of a box along both axes.
#[derive(Clone, Copy, Debug, PartialEq, Eq, Hash)]
pub struct Size {
    pub x: Abs,
    pub y: Abs,
}

impl Size {
    pub fn new(x: Abs, y: Abs) -> (s: Size)
        ensures
            s == (Size { x, y }),
    {
        Size { x, y }
    }
}

/// A length relative to the font size: `units / per_em` of an em.
#[derive(Clone, Copy, Debug, PartialEq, Eq, Hash)]
pub struct Em {
    pub units: i32,
    pub per_em: u32,
}

impl Em {
    /// An em fraction is meaningful when its denominator is not zero.
    pub open spec fn wf(self) -> bool {
        self.per_em > 0
    }

    /// The length that this fraction of an em comes to at a font size,
    /// rounded down to a whole unit.
    pub open spec fn at_spec(self, font_size: int) -> int {
        (self.units as int * font_size) / (self.per_em as int)
    }

    /// The zero length.
    pub fn zero() -> (em: Em)
        ensures
            em == (Em { units: 0, per_em: 1 }),
            em.wf(),
    {
        Em { units: 0, per_em: 1 }
    }

    /// A length given in font design units, of which `units_per_em` make one em.
    pub fn from_units(units: i32, units_per_em: u32) -> (em: Em)
        ensures
            em == (Em { units, per_em: units_per_em }),
    {
        Em { units, per_em: units_per_em }
    }

    /// Tests [`Em::wf`].
    pub fn is_wf(self) -> (r: bool)
        ensures
            r == self.wf(),
    {
        self.per_em > 0
    }

    /// Resolve the length at a font size.
    pub fn at(self, font_size: Abs) -> (r: Abs)
        requires
            self.wf(),
            is_font_size(font_size as int),
        ensures
            r == self.at_spec(font_size as int),
            in_range(r as int),
    {
        proof {
            lemma_at_in_range(self, font_size as int);
        }
        let product: i64 = (self.units as i64) * font_size;
        match product.checked_div_euclid(self.per_em as i64) {
            Some(q) => q,
            None => 0,
        }
    }
}

/// A resolved font-relative length stays within the accepted range, and
/// within the magnitude of the undivided product.
pub proof fn lemma_at_in_range(em: Em, font_size: int)
    requires
        em.wf(),
        is_font_size(font_size),
    ensures
        in_range(em.units as int * font_size),
        in_range(em.at_spec(font_size)),
{
    let u = em.units as int;
    let d = em.per_em as int;
    let p = u * font_size;
    assert(-0x0800_0000_0000_0000 <= p <= 0x0800_0000_0000_0000) by (nonlinear_arith)
        requires
            p == u * font_size,
            -0x8000_0000 <= u <= 0x8000_0000,
            0 <= font_size <= 0x1000_0000,
    ;
    lemma_floor_div_bounds(p, d);
}

/// Dividing by a positive number and rounding down never grows the magnitude.
pub proof fn lemma_floor_div_bounds(p: int, d: int)
    requires
        d >= 1,
    ensures
        p >= 0 ==> 0 <= p / d <= p,
        p < 0 ==> p <= p / d < 0,
{
    vstd::arithmetic::div_mod::lemma_fundamental_div_mod(p, d);
    vstd::arithmetic::div_mod::lemma_mod_bound(p, d);
    let q = p / d;
    let r = p % d;
    assert(p == d * q + r);
    assert(0 <= r < d);
    if p >= 0 {
        assert(0 <= q <= p) by (nonlinear_arith)
            requires
                p == d * q + r,
                0 <= r < d,
                d >= 1,
                p >= 0,
        ;
    } else {
        assert(p <= q < 0) by (nonlinear_arith)
            requires
                p == d * q + r,
                0 <= r < d,
                d >= 1,
                p < 0,
        ;
    }
}

} // verus!
