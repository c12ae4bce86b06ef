//! Content: text and what is made of it.

use vstd::prelude::*;
use crate::deco::Decoration;
use crate::length::Em;

verus! {

/// A property that styles content.
#[derive(Clone, Copy, Debug, PartialEq, Eq, Hash)]
pub enum Style {
    /// Decorate the text.
    Deco(Decoration),
    /// Shift the baseline of the text down by a length.
    Baseline(Em),
    /// Set the text at a size relative to the size around it.
    Size(Em),
}

/// A piece of a document.
#[derive(Debug, PartialEq, Eq)]
pub enum Content {
    /// Nothing.
    Empty,
    /// A word space.
    Space,
    /// Plain text.
    Text(String),
    /// Pieces that follow one another.
    Sequence(Vec<Content>),
    /// A piece with styles that apply to it, the outermost first.
    Styled(Box<Content>, Vec<Style>),
    /// A piece to be set as a superscript or subscript, by its kind of script.
    Shift(usize, Box<Content>),
}

/// What a piece of a document holds.
pub enum ContentView {
    Empty,
    Space,
    Text(Seq<char>),
    Sequence(Seq<ContentView>),
    Styled(Box<ContentView>, Seq<Style>),
    Shift(usize, Box<ContentView>),
}

impl Content {
    /// What this piece holds.
    pub open spec fn view(&self) -> ContentView
        decreases self,
    {
        match self {
            Content::Empty => ContentView::Empty,
            Content::Space => ContentView::Space,
            Content::Text(text) => ContentView::Text(text@),
            Content::Sequence(items) => ContentView::Sequence(
                Seq::new(
                    items@.len(),
                    |i: int|
                        if 0 <= i < items@.len() {
                            items@[i].view()
                        } else {
                            ContentView::Empty
                        },
                ),
            ),
            Content::Styled(body, styles) => ContentView::Styled(Box::new(body.view()), styles@),
            Content::Shift(kind, body) => ContentView::Shift(*kind, Box::new(body.view())),
        }
    }
}

/// What each piece in a list holds.
pub open spec fn content_views(items: Seq<Content>) -> Seq<ContentView> {
    Seq::new(items.len(), |i: int| items[i]@)
}

/// A sequence holds what its pieces hold, in their order.
pub proof fn lemma_sequence_view(items: Vec<Content>)
    ensures
        Content::Sequence(items)@ == ContentView::Sequence(content_views(items@)),
{
    let a = Content::Sequence(items)@->Sequence_0;
    assert(a =~= content_views(items@));
}

impl Clone for Content {
    /// A copy that holds what this piece holds.
    fn clone(&self) -> (copy: Content)
        ensures
            copy@ == self@,
    {
        self.duplicate()
    }
}

impl Content {
    /// A copy that holds what this piece holds.
    pub fn duplicate(&self) -> (copy: Content)
        ensures
            copy@ == self@,
        decreases self,
    {
        match self {
            Content::Empty => Content::Empty,
            Content::Space => Content::Space,
            Content::Text(text) => Content::Text(text.clone()),
            Content::Sequence(items) => {
                let mut copies: Vec<Content> = Vec::new();
                let mut i: usize = 0;
                while i < items.len()
                    invariant
                        i <= items@.len(),
                        *self == Content::Sequence(*items),
                        copies@.len() == i,
                        forall|j: int| 0 <= j < i ==> (#[trigger] copies@[j])@ == items@[j]@,
                    decreases items@.len() - i,
                {
                    proof {
                        let inner = self->Sequence_0;
                        assert(decreases_to!(*self => inner));
                        assert(decreases_to!(inner => inner@));
                        assert(decreases_to!(inner@ => inner@[i as int]));
                    }
                    let item = items[i].duplicate();
                    copies.push(item);
                    i += 1;
                }
                proof {
                    assert(content_views(copies@) =~= content_views(items@));
                    lemma_sequence_view(copies);
                    lemma_sequence_view(*items);
                }
                Content::Sequence(copies)
            },
            Content::Styled(body, styles) => {
                let body_copy = body.duplicate();
                Content::Styled(Box::new(body_copy), copy_styles(styles))
            },
            Content::Shift(kind, body) => {
                let body_copy = body.duplicate();
                Content::Shift(*kind, Box::new(body_copy))
            },
        }
    }
}

/// A copy of a list of styles.
pub fn copy_styles(styles: &Vec<Style>) -> (copy: Vec<Style>)
    ensures
        copy@ == styles@,
{
    let mut copy: Vec<Style> = Vec::new();
    let mut i: usize = 0;
    while i < styles.len()
        invariant
            i <= styles@.len(),
            copy@ == styles@.subrange(0, i as int),
        decreases styles@.len() - i,
    {
        copy.push(styles[i]);
        i += 1;
        assert(copy@ =~= styles@.subrange(0, i as int));
    }
    assert(styles@.subrange(0, i as int) =~= styles@);
    copy
}

impl Content {
    /// What this piece holds once `styles` apply to it: the piece itself
    /// where there are none.
    pub open spec fn styled_view(content: ContentView, styles: Seq<Style>) -> ContentView {
        if styles.len() == 0 {
            content
        } else {
            ContentView::Styled(Box::new(content), styles)
        }
    }

    /// Apply one style to this piece.
    pub fn styled(self, style: Style) -> (styled: Content)
        ensures
            styled@ == ContentView::Styled(Box::new(self@), seq![style]),
    {
        let mut styles: Vec<Style> = Vec::new();
        styles.push(style);
        assert(styles@ =~= seq![style]);
        Content::Styled(Box::new(self), styles)
    }

    /// Apply a list of styles to this piece, the outermost first.
    pub fn styled_with_map(self, styles: Vec<Style>) -> (styled: Content)
        ensures
            styled@ == Content::styled_view(self@, styles@),
    {
        if styles.len() == 0 {
            self
        } else {
            Content::Styled(Box::new(self), styles)
        }
    }
}

} // verus!
