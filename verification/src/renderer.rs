//! The segment renderer: a visitor that turns each segment of a document into one
//! stroke of the frame's paint list.

use vstd::prelude::*;
use crate::document::{visited_all, Document, DocumentVisitor, Line};
use crate::geometry::{Point, Rect};

verus! {

/// A colour with alpha, eight bits a channel.
#[derive(Clone, Copy, Debug, PartialEq, Eq, Structural)]
pub struct Color {
    pub r: u8,
    pub g: u8,
    pub b: u8,
    pub a: u8,
}

/// One straight stroke to paint on the canvas, in the canvas's own coordinates.
#[derive(Clone, Copy, Debug, PartialEq, Eq, Structural)]
pub struct DrawCommand {
    pub start: Point,
    pub end: Point,
    pub width: u32,
    pub color: Color,
}

/// The width of every stroke, in pixels.
pub const STROKE_WIDTH: u32 = 2;

/// The colour of every stroke: opaque blue.
pub open spec fn stroke_color() -> Color {
    Color { r: 0, g: 0, b: 255, a: 255 }
}

/// The stroke that draws `line`: from end to end, at the coordinates the document
/// gives, in the fixed width and colour.
pub open spec fn stroke_of(line: Line) -> DrawCommand {
    DrawCommand { start: line.a, end: line.b, width: STROKE_WIDTH, color: stroke_color() }
}

/// The strokes that draw `lines`, one for each, in the same order.
pub open spec fn strokes_of(lines: Seq<Line>) -> Seq<DrawCommand> {
    Seq::new(lines.len(), |i: int| stroke_of(lines[i]))
}

/// Draws a document into a canvas whose clip rectangle the host has allocated.
pub struct DocumentRenderer<'a> {
    commands: Vec<DrawCommand>,
    clip: Rect,
    document: &'a Document,
}

impl<'a> DocumentRenderer<'a> {
    /// The paint list so far.
    pub closed spec fn painted(&self) -> Seq<DrawCommand> {
        self.commands@
    }

    /// The rectangle the renderer draws into.
    pub closed spec fn clip(&self) -> Rect {
        self.clip
    }

    /// The document it draws.
    pub closed spec fn document(&self) -> Document {
        *self.document
    }

    /// A renderer for `document` with an empty paint list, drawing into `clip`.
    pub fn new(clip: Rect, document: &'a Document) -> (renderer: Self)
        ensures
            renderer.painted() == Seq::<DrawCommand>::empty(),
            renderer.clip() == clip,
            renderer.document() == *document,
    {
        DocumentRenderer { commands: Vec::new(), clip, document }
    }

    /// The rectangle that was drawn into.
    pub fn clip_rect(&self) -> (r: Rect)
        ensures
            r == self.clip(),
    {
        self.clip
    }

    /// The paint list so far.
    pub fn commands(&self) -> (list: &Vec<DrawCommand>)
        ensures
            list@ == self.painted(),
    {
        &self.commands
    }

    /// Gives up the renderer for its paint list.
    pub fn into_commands(self) -> (list: Vec<DrawCommand>)
        ensures
            list@ == self.painted(),
    {
        self.commands
    }

    /// Traverses the document and appends one stroke for each of its segments, in the
    /// document's order. Nothing else changes.
    pub fn render(&mut self)
        ensures
            final(self).painted() == old(self).painted() + strokes_of(old(self).document()@),
            final(self).clip() == old(self).clip(),
            final(self).document() == old(self).document(),
    {
        let document: &'a Document = self.document;
        document.visit(self);
        proof {
            lemma_renderer_fold(old(self).state(), document@);
        }
    }
}

impl<'a> DocumentVisitor for DocumentRenderer<'a> {
    type State = (Seq<DrawCommand>, Rect, Document);

    closed spec fn state(&self) -> (Seq<DrawCommand>, Rect, Document) {
        (self.commands@, self.clip, *self.document)
    }

    open spec fn received(state: (Seq<DrawCommand>, Rect, Document), line: Line) -> (Seq<DrawCommand>, Rect, Document) {
        (state.0.push(stroke_of(line)), state.1, state.2)
    }

    /// Appends the stroke that draws `line`.
    fn visit(&mut self, line: &Line)
        ensures
            final(self).painted() == old(self).painted().push(stroke_of(*line)),
            final(self).clip() == old(self).clip(),
            final(self).document() == old(self).document(),
    {
        self.commands.push(DrawCommand {
            start: line.a,
            end: line.b,
            width: STROKE_WIDTH,
            color: Color { r: 0, g: 0, b: 255, a: 255 },
        });
    }
}

/// A rendering of `lines` holds as many strokes as there are segments, and the stroke at
/// each place runs between the ends of the segment at that place: every segment is
/// drawn once, in the document's order.
pub proof fn lemma_one_stroke_per_segment(lines: Seq<Line>)
    ensures
        strokes_of(lines).len() == lines.len(),
        forall|i: int| 0 <= i < lines.len() ==> {
            &&& (#[trigger] strokes_of(lines)[i]).start == lines[i].a
            &&& strokes_of(lines)[i].end == lines[i].b
            &&& strokes_of(lines)[i].width == STROKE_WIDTH
            &&& strokes_of(lines)[i].color == stroke_color()
        },
{
}

/// A renderer that has received `lines` has appended their strokes and kept the rest.
proof fn lemma_renderer_fold(state: (Seq<DrawCommand>, Rect, Document), lines: Seq<Line>)
    ensures
        visited_all::<DocumentRenderer>(state, lines) == (state.0 + strokes_of(lines), state.1, state.2),
    decreases lines.len(),
{
    if lines.len() == 0 {
        assert(state.0 + strokes_of(lines) =~= state.0);
    } else {
        lemma_renderer_fold(state, lines.drop_last());
        assert((state.0 + strokes_of(lines.drop_last())).push(stroke_of(lines.last()))
            =~= state.0 + strokes_of(lines));
    }
}

} // verus!
