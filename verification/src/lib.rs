//! Placement of underlines, overlines, strikethroughs and highlights on runs
//! of shaped text.
//!
//! All lengths are whole numbers of a unit that the caller picks; lengths
//! relative to the font size are exact fractions of an em until they are
//! resolved. The library decides where a decoration goes and appends the
//! drawing commands to a frame:
//!
//! - [`path`] builds the path of a glyph from its outline;
//! - [`resolve`] resolves the stroke and the offset of a line;
//! - [`scan`] finds the glyphs that a line may collide with;
//! - [`segments`] cuts a line into the pieces that stay clear of collisions;
//! - [`highlight`] computes the box of a highlight;
//! - [`deco`] holds the decorations and draws one on a run;
//! - [`elem`] holds the elements that ask for a decoration;
//! - [`shift`] sets text as sub- or superscript.

pub mod content;
pub mod deco;
pub mod elem;
pub mod font;
pub mod frame;
pub mod highlight;
pub mod length;
pub mod path;
pub mod resolve;
pub mod scan;
pub mod segments;
pub mod shift;
pub mod text;
pub mod visualize;
