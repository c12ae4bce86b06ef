//! The elements that decorate text.

use vstd::prelude::*;
use crate::content::{Content, ContentView, Style};
use crate::deco::{DecoLine, Decoration};
use crate::length::Abs;
use crate::text::{BottomEdge, BottomEdgeMetric, TopEdge, TopEdgeMetric};
use crate::visualize::{Color, Paint, PartialStroke, Smart};

verus! {

/// Underlines text.
#[derive(Debug, PartialEq, Eq)]
pub struct UnderlineElem {
    /// How to stroke the line. Left to context, the line takes on the text's
    /// color and the thickness that the font defines.
    pub stroke: Smart<PartialStroke>,
    /// The position of the line below the baseline. Left to context, it is
    /// read from the font.
    pub offset: Smart<Abs>,
    /// How far the line reaches beyond the content, or stays within it where negative.
    pub extent: Abs,
    /// Whether the line skips the sections in which it would collide with the glyphs.
    pub evade: bool,
    /// The content to underline.
    pub body: Content,
}

/// Adds a line over text.
#[derive(Debug, PartialEq, Eq)]
pub struct OverlineElem {
    /// How to stroke the line. Left to context, the line takes on the text's
    /// color and the thickness that the font defines.
    pub stroke: Smart<PartialStroke>,
    /// The position of the line below the baseline. Left to context, it is
    /// read from the font.
    pub offset: Smart<Abs>,
    /// How far the line reaches beyond the content, or stays within it where negative.
    pub extent: Abs,
    /// Whether the line skips the sections in which it would collide with the glyphs.
    pub evade: bool,
    /// The content to add a line over.
    pub body: Content,
}

/// Strikes through text.
#[derive(Debug, PartialEq, Eq)]
pub struct StrikeElem {
    /// How to stroke the line. Left to context, the line takes on the text's
    /// color and the thickness that the font defines.
    pub stroke: Smart<PartialStroke>,
    /// The position of the line below the baseline. Left to context, it is
    /// read from the font.
    pub offset: Smart<Abs>,
    /// How far the line reaches beyond the content, or stays within it where negative.
    pub extent: Abs,
    /// The content to strike through.
    pub body: Content,
}

/// Highlights text with a background color.
#[derive(Debug, PartialEq, Eq)]
pub struct HighlightElem {
    /// The color to highlight the text with.
    pub fill: Paint,
    /// The top end of the background rectangle. It is moved up where a glyph
    /// reaches higher.
    pub top_edge: TopEdge,
    /// The bottom end of the background rectangle. It is moved down where a
    /// glyph reaches lower.
    pub bottom_edge: BottomEdge,
    /// How far the background reaches beyond the content, or stays within it
    /// where negative.
    pub extent: Abs,
    /// The content to highlight.
    pub body: Content,
}

/// What content holds once a decoration applies to it.
pub open spec fn decorated_view(body: ContentView, deco: Decoration) -> ContentView {
    ContentView::Styled(Box::new(body), seq![Style::Deco(deco)])
}

impl UnderlineElem {
    /// An underline with every property at its default: stroke and offset
    /// left to context, no extent, evading.
    pub fn new(body: Content) -> (elem: UnderlineElem)
        ensures
            elem == (UnderlineElem {
                stroke: Smart::Auto,
                offset: Smart::Auto,
                extent: 0,
                evade: true,
                body,
            }),
    {
        UnderlineElem { stroke: Smart::Auto, offset: Smart::Auto, extent: 0, evade: true, body }
    }

    /// The decoration that the element asks for.
    pub open spec fn decoration(&self) -> Decoration {
        Decoration {
            line: DecoLine::Underline(
                self.stroke.or(PartialStroke::unset()),
                self.offset,
                self.evade,
            ),
            extent: self.extent,
        }
    }

    /// The body, with the underline applied to it as a style.
    pub fn show(&self) -> (shown: Content)
        ensures
            shown@ == decorated_view(self.body@, self.decoration()),
    {
        let (stroke, offset, evade) = (
            self.stroke.unwrap_or(PartialStroke::auto()),
            self.offset,
            self.evade,
        );
        self.body.clone().styled(
            Style::Deco(
                Decoration { line: DecoLine::Underline(stroke, offset, evade), extent: self.extent },
            ),
        )
    }
}

impl OverlineElem {
    /// An overline with every property at its default: stroke and offset
    /// left to context, no extent, evading.
    pub fn new(body: Content) -> (elem: OverlineElem)
        ensures
            elem == (OverlineElem {
                stroke: Smart::Auto,
                offset: Smart::Auto,
                extent: 0,
                evade: true,
                body,
            }),
    {
        OverlineElem { stroke: Smart::Auto, offset: Smart::Auto, extent: 0, evade: true, body }
    }

    /// The decoration that the element asks for.
    pub open spec fn decoration(&self) -> Decoration {
        Decoration {
            line: DecoLine::Overline(
                self.stroke.or(PartialStroke::unset()),
                self.offset,
                self.evade,
            ),
            extent: self.extent,
        }
    }

    /// The body, with the overline applied to it as a style.
    pub fn show(&self) -> (shown: Content)
        ensures
            shown@ == decorated_view(self.body@, self.decoration()),
    {
        let (stroke, offset, evade) = (
            self.stroke.unwrap_or(PartialStroke::auto()),
            self.offset,
            self.evade,
        );
        self.body.clone().styled(
            Style::Deco(
                Decoration { line: DecoLine::Overline(stroke, offset, evade), extent: self.extent },
            ),
        )
    }
}

impl StrikeElem {
    /// A strikethrough with every property at its default: stroke and
    /// offset left to context, no extent.
    pub fn new(body: Content) -> (elem: StrikeElem)
        ensures
            elem == (StrikeElem { stroke: Smart::Auto, offset: Smart::Auto, extent: 0, body }),
    {
        StrikeElem { stroke: Smart::Auto, offset: Smart::Auto, extent: 0, body }
    }

    /// The decoration that the element asks for. A strikethrough has no
    /// option to evade.
    pub open spec fn decoration(&self) -> Decoration {
        Decoration {
            line: DecoLine::Strikethrough(self.stroke.or(PartialStroke::unset()), self.offset),
            extent: self.extent,
        }
    }

    /// The body, with the strikethrough applied to it as a style.
    pub fn show(&self) -> (shown: Content)
        ensures
            shown@ == decorated_view(self.body@, self.decoration()),
    {
        let (stroke, offset) = (self.stroke.unwrap_or(PartialStroke::auto()), self.offset);
        self.body.clone().styled(
            Style::Deco(
                Decoration { line: DecoLine::Strikethrough(stroke, offset), extent: self.extent },
            ),
        )
    }
}

impl HighlightElem {
    /// The fill of a highlight that sets none.
    pub open spec fn default_fill() -> Paint {
        Paint::Solid(Color::Rgba(0xFF, 0xFF, 0x5F, 0xFF))
    }

    /// A highlight with every property at its default: a light yellow fill,
    /// from the ascender to the descender, no extent.
    pub fn new(body: Content) -> (elem: HighlightElem)
        ensures
            elem == (HighlightElem {
                fill: HighlightElem::default_fill(),
                top_edge: TopEdge::Metric(TopEdgeMetric::Ascender),
                bottom_edge: BottomEdge::Metric(BottomEdgeMetric::Descender),
                extent: 0,
                body,
            }),
    {
        HighlightElem {
            fill: Paint::Solid(Color::Rgba(0xFF, 0xFF, 0x5F, 0xFF)),
            top_edge: TopEdge::Metric(TopEdgeMetric::Ascender),
            bottom_edge: BottomEdge::Metric(BottomEdgeMetric::Descender),
            extent: 0,
            body,
        }
    }

    /// The decoration that the element asks for.
    pub open spec fn decoration(&self) -> Decoration {
        Decoration {
            line: DecoLine::Highlight(self.fill, self.top_edge, self.bottom_edge),
            extent: self.extent,
        }
    }

    /// The body, with the highlight applied to it as a style.
    pub fn show(&self) -> (shown: Content)
        ensures
            shown@ == decorated_view(self.body@, self.decoration()),
    {
        self.body.clone().styled(
            Style::Deco(
                Decoration {
                    line: DecoLine::Highlight(self.fill, self.top_edge, self.bottom_edge),
                    extent: self.extent,
                },
            ),
        )
    }
}

} // verus!
