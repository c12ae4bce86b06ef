//! Fonts, as far as decorations and scripts read them: nominal metrics, glyph
//! boxes and the characters covered.

use vstd::prelude::*;
use crate::length::{Abs, Em, in_range, is_font_size};

verus! {

/// The bounding box of a glyph, in font design units with y pointing up.
#[derive(Clone, Copy, Debug, PartialEq, Eq, Hash)]
pub struct Rect {
    pub x_min: i16,
    pub y_min: i16,
    pub x_max: i16,
    pub y_max: i16,
}

/// The nominal position and thickness of a decorative line.
#[derive(Clone, Copy, Debug, PartialEq, Eq, Hash)]
pub struct LineMetrics {
    /// The height of the line above the baseline.
    pub position: Em,
    /// The thickness of the line.
    pub thickness: Em,
}

impl LineMetrics {
    /// Position and thickness have a denominator.
    pub open spec fn wf(self) -> bool {
        self.position.wf() && self.thickness.wf()
    }
}

/// The nominal metrics of a font.
#[derive(Clone, Copy, Debug, PartialEq, Eq, Hash)]
pub struct FontMetrics {
    /// How many font design units make one em.
    pub units_per_em: u16,
    /// The height of the ascender above the baseline.
    pub ascender: Em,
    /// The height of flat capital letters above the baseline.
    pub cap_height: Em,
    /// The height of flat lowercase letters above the baseline.
    pub x_height: Em,
    /// The height of the descender above the baseline, mostly negative.
    pub descender: Em,
    /// Where a strikethrough goes.
    pub strikethrough: LineMetrics,
    /// Where an underline goes.
    pub underline: LineMetrics,
    /// Where an overline goes.
    pub overline: LineMetrics,
}

impl FontMetrics {
    /// Every font-relative length has a denominator.
    pub open spec fn wf(self) -> bool {
        &&& self.units_per_em > 0
        &&& self.ascender.wf()
        &&& self.cap_height.wf()
        &&& self.x_height.wf()
        &&& self.descender.wf()
        &&& self.strikethrough.wf()
        &&& self.underline.wf()
        &&& self.overline.wf()
    }

    /// Tests [`FontMetrics::wf`].
    pub fn is_wf(&self) -> (r: bool)
        ensures
            r == self.wf(),
    {
        self.units_per_em > 0 && self.ascender.is_wf() && self.cap_height.is_wf()
            && self.x_height.is_wf() && self.descender.is_wf()
            && self.strikethrough.position.is_wf() && self.strikethrough.thickness.is_wf()
            && self.underline.position.is_wf() && self.underline.thickness.is_wf()
            && self.overline.position.is_wf() && self.overline.thickness.is_wf()
    }

    /// A length given in font design units.
    pub open spec fn to_em_spec(self, units: i16) -> Em {
        Em { units: units as i32, per_em: self.units_per_em as u32 }
    }

    /// The length that `units` font design units come to at a font size.
    pub open spec fn units_at(self, units: i16, font_size: int) -> int {
        self.to_em_spec(units).at_spec(font_size)
    }
}

/// A font, as far as decorations read it: its nominal metrics.
#[derive(Clone, Copy, Debug, PartialEq, Eq, Hash)]
pub struct Font {
    pub metrics: FontMetrics,
}

impl Font {
    /// The nominal metrics.
    pub fn metrics(&self) -> (m: &FontMetrics)
        ensures
            *m == self.metrics,
    {
        &self.metrics
    }

    /// Turn font design units into a font-relative length.
    pub fn to_em(&self, units: i16) -> (em: Em)
        ensures
            em == self.metrics.to_em_spec(units),
    {
        Em::from_units(units as i32, self.metrics.units_per_em as u32)
    }

    /// The length that `units` font design units come to at a font size.
    pub fn units_at(&self, units: i16, font_size: Abs) -> (r: Abs)
        requires
            self.metrics.units_per_em > 0,
            is_font_size(font_size as int),
        ensures
            r == self.metrics.units_at(units, font_size as int),
            in_range(r as int),
    {
        self.to_em(units).at(font_size)
    }
}

/// The characters that a font has a glyph for, among those that the font was
/// asked about. A character that is not listed counts as one that the font has
/// no glyph for.
#[derive(Clone, Debug, PartialEq, Eq)]
pub struct Coverage {
    pub chars: Vec<char>,
}

impl Coverage {
    /// Whether the character is listed.
    pub open spec fn covers(&self, c: char) -> bool {
        self.chars@.contains(c)
    }

    /// Whether the character is listed.
    pub fn has_glyph(&self, c: char) -> (r: bool)
        ensures
            r == self.covers(c),
    {
        let mut i: usize = 0;
        while i < self.chars.len()
            invariant
                i <= self.chars@.len(),
                forall|j: int| 0 <= j < i ==> self.chars@[j] != c,
            decreases self.chars@.len() - i,
        {
            if self.chars[i] == c {
                return true;
            }
            i += 1;
        }
        false
    }
}

} // verus!
