//! The document: an ordered list of line segments with a nominal size, and the
//! traversal that hands each segment to a visitor.

use vstd::prelude::*;
use crate::geometry::{Point, Size};

verus! {

/// A line segment between two points of document space.
#[derive(Clone, Copy, Debug, PartialEq, Eq, Structural)]
pub struct Line {
    pub a: Point,
    pub b: Point,
}

/// Something that receives the segments of a document, one at a time.
///
/// A visitor describes itself by a state and by what one segment does to that state;
/// `visit` must do exactly that. A traversal is then the fold of `received` over the
/// document's segments.
pub trait DocumentVisitor {
    /// What is observable of the visitor.
    type State;

    /// The visitor's present state.
    spec fn state(&self) -> Self::State;

    /// The state that follows `state` once `line` has been received.
    spec fn received(state: Self::State, line: Line) -> Self::State;

    /// Receives one segment.
    fn visit(&mut self, line: &Line)
        ensures
            final(self).state() == Self::received(old(self).state(), *line),
    ;
}

/// The state of a visitor that started in `state` and received `lines` from first to last.
pub open spec fn visited_all<V: DocumentVisitor>(state: V::State, lines: Seq<Line>) -> V::State
    decreases lines.len(),
{
    if lines.len() == 0 {
        state
    } else {
        V::received(visited_all::<V>(state, lines.drop_last()), lines.last())
    }
}

/// The segments of the built-in shape: the outline of a square of side 100, drawn from
/// its corner (0, 100), with the first edge once more at the end.
pub open spec fn built_in_shape() -> Seq<Line> {
    seq![
        Line { a: Point { x: 0, y: 100 }, b: Point { x: 100, y: 100 } },
        Line { a: Point { x: 100, y: 100 }, b: Point { x: 100, y: 0 } },
        Line { a: Point { x: 100, y: 0 }, b: Point { x: 0, y: 0 } },
        Line { a: Point { x: 0, y: 0 }, b: Point { x: 0, y: 100 } },
        Line { a: Point { x: 0, y: 100 }, b: Point { x: 100, y: 100 } },
    ]
}

/// Segments in a fixed order, and the size of the surface they are drawn on.
pub struct Document {
    lines: Vec<Line>,
    content_size: Size,
}

impl View for Document {
    type V = Seq<Line>;

    /// The segments, in traversal order.
    closed spec fn view(&self) -> Seq<Line> {
        self.lines@
    }
}

impl Document {
    /// The nominal size of the drawing surface. It is whatever the document was made
    /// with, and no bound on where the segments lie.
    pub closed spec fn content_size(&self) -> Size {
        self.content_size
    }

    /// The built-in document: `built_in_shape` on a surface of 500 by 500.
    pub fn new() -> (doc: Document)
        ensures
            doc@ == built_in_shape(),
            doc.content_size() == (Size { width: 500, height: 500 }),
    {
        let mut lines: Vec<Line> = Vec::new();
        lines.push(Line { a: Point { x: 0, y: 100 }, b: Point { x: 100, y: 100 } });
        lines.push(Line { a: Point { x: 100, y: 100 }, b: Point { x: 100, y: 0 } });
        lines.push(Line { a: Point { x: 100, y: 0 }, b: Point { x: 0, y: 0 } });
        lines.push(Line { a: Point { x: 0, y: 0 }, b: Point { x: 0, y: 100 } });
        lines.push(Line { a: Point { x: 0, y: 100 }, b: Point { x: 100, y: 100 } });
        assert(lines@ =~= built_in_shape());
        Document { lines, content_size: Size { width: 500, height: 500 } }
    }

    /// A document of the given segments, in the given order, on a surface of the given size.
    pub fn from_lines(lines: Vec<Line>, content_size: Size) -> (doc: Document)
        ensures
            doc@ == lines@,
            doc.content_size() == content_size,
    {
        Document { lines, content_size }
    }

    /// The nominal size of the drawing surface.
    pub fn size(&self) -> (s: Size)
        ensures
            s == self.content_size(),
    {
        self.content_size
    }

    /// Hands every segment to the visitor, once each, from first to last.
    pub fn visit<V: DocumentVisitor>(&self, visitor: &mut V)
        ensures
            final(visitor).state() == visited_all::<V>(old(visitor).state(), self@),
    {
        let n: usize = self.lines.len();
        let mut i: usize = 0;
        while i < n
            invariant
                n == self.lines.len(),
                i <= n,
                visitor.state() == visited_all::<V>(old(visitor).state(), self.lines@.take(i as int)),
            decreases n - i,
        {
            visitor.visit(&self.lines[i]);
            proof {
                let next = self.lines@.take(i + 1);
                assert(next.drop_last() =~= self.lines@.take(i as int));
                assert(next.last() == self.lines@[i as int]);
            }
            i += 1;
        }
        assert(self.lines@.take(n as int) =~= self.lines@);
    }
}

} // verus!
