//! The canvas that receives drawing commands.

use vstd::prelude::*;
use crate::length::Point;
use crate::visualize::Shape;

verus! {

/// Where in a source text an item comes from.
#[derive(Clone, Copy, Debug, PartialEq, Eq, Hash)]
pub enum Span {
    /// The item belongs to no place in the source.
    Detached,
    /// The item comes from the numbered place in the source.
    Source(u64),
}

impl Span {
    /// The span of an item that belongs to no place in the source.
    pub fn detached() -> (s: Span)
        ensures
            s == Span::Detached,
    {
        Span::Detached
    }
}

/// One drawing command.
#[derive(Clone, Copy, Debug, PartialEq, Eq, Hash)]
pub enum FrameItem {
    /// A shape and the place in the source it comes from.
    Shape(Shape, Span),
}

/// An ordered list of positioned drawing commands. Later items are drawn on
/// top of earlier ones.
#[derive(Clone, Debug, PartialEq, Eq)]
pub struct Frame {
    pub items: Vec<(Point, FrameItem)>,
}

impl View for Frame {
    type V = Seq<(Point, FrameItem)>;

    open spec fn view(&self) -> Seq<(Point, FrameItem)> {
        self.items@
    }
}

impl Frame {
    /// An empty frame.
    pub fn new() -> (f: Frame)
        ensures
            f@ == Seq::<(Point, FrameItem)>::empty(),
    {
        Frame { items: Vec::new() }
    }

    /// The number of items in the frame.
    pub fn len(&self) -> (n: usize)
        ensures
            n == self@.len(),
    {
        self.items.len()
    }

    /// Add an item in front of everything drawn so far.
    pub fn push(&mut self, pos: Point, item: FrameItem)
        ensures
            final(self)@ == old(self)@.push((pos, item)),
    {
        self.items.push((pos, item));
    }

    /// Add an item behind everything drawn so far.
    pub fn prepend(&mut self, pos: Point, item: FrameItem)
        ensures
            final(self)@ == seq![(pos, item)] + old(self)@,
    {
        self.items.insert(0, (pos, item));
        assert(self.items@ =~= seq![(pos, item)] + old(self).items@);
    }
}

} // verus!
