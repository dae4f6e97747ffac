//! The editor: the panels it shows, the view panel's frame, and the brush stage that
//! stamps at the view's cursor.
//!
//! The host calls in twice a frame: once for the panels, with the frame's pointer
//! input, and once for the render pass. Both calls go through one `Editor`, so the
//! cursor that the render pass stamps at is the one the panel call left behind.

use vstd::prelude::*;
use crate::brush::{dispatch_at, initialize_outcome, BrushError, BrushStage, Dispatch, StagePhase};
use crate::document::{built_in_shape, Document};
use crate::geometry::{Point, Rect, Size};
use crate::renderer::{strokes_of, DocumentRenderer, DrawCommand};
use crate::viewport::Viewport;

verus! {

/// The panels of the editor.
#[derive(Clone, Copy, Debug, PartialEq, Eq, Structural)]
pub enum Panel {
    /// Shows the document; pan, zoom and the brush cursor live here.
    View,
    /// A placeholder for the tools.
    Tools,
}

impl Panel {
    /// The title under which the panel is docked.
    pub open spec fn title_text(self) -> Seq<char> {
        match self {
            Panel::View => "view"@,
            Panel::Tools => "tools"@,
        }
    }

    /// The title under which the panel is docked.
    pub fn title(&self) -> (title: String)
        ensures
            title@ == self.title_text(),
    {
        match self {
            Panel::View => "view".to_owned(),
            Panel::Tools => "tools".to_owned(),
        }
    }

    /// The panel that is docked under `title`, if there is one.
    pub fn from_title(title: &String) -> (panel: Option<Panel>)
        ensures
            title@ == Panel::View.title_text() ==> panel == Some(Panel::View),
            title@ == Panel::Tools.title_text() ==> panel == Some(Panel::Tools),
            panel is Some ==> title@ == panel->0.title_text(),
    {
        proof {
            reveal_strlit("view");
            reveal_strlit("tools");
            assert("view"@.len() == 4 && "tools"@.len() == 5);
        }
        if *title == Panel::View.title() {
            Some(Panel::View)
        } else if *title == Panel::Tools.title() {
            Some(Panel::Tools)
        } else {
            None
        }
    }
}

/// What the host gathered for one frame of the view panel.
#[derive(Clone, Copy, Debug)]
pub struct FrameInput {
    /// Where the pointer hovers on the screen, if it does.
    pub hover: Option<Point>,
    /// The view panel's rectangle on the screen.
    pub canvas: Rect,
    /// The rectangle the painter was given to draw into, in document space.
    pub clip: Rect,
    /// The visible rectangle that this frame's zoom and pan ask for, if there was any.
    pub proposed: Option<Rect>,
    /// Whether the canvas was double-clicked.
    pub double_clicked: bool,
}

/// The viewport after one frame of the view panel: the pointer is tracked against the
/// rectangle shown at the start of the frame, the document is rendered, zoom and pan
/// are taken, and a double click fits the view to what was rendered.
pub open spec fn after_frame(before: Viewport, input: FrameInput) -> Viewport {
    let drawn = before.hovered(input.hover, input.canvas).rendered(input.clip);
    let moved = if input.proposed is Some {
        drawn.zoomed(input.proposed->0, input.canvas)
    } else {
        drawn
    };
    if input.double_clicked {
        moved.fitted()
    } else {
        moved
    }
}

/// The state behind the view panel.
pub struct TabViewer {
    pub viewport: Viewport,
    pub document: Document,
}

impl TabViewer {
    /// The viewport shows a rectangle with an area.
    pub open spec fn wf(&self) -> bool {
        self.viewport.wf()
    }

    /// A viewer of `document` that shows its whole surface.
    pub fn new(document: Document) -> (viewer: TabViewer)
        ensures
            viewer.document == document,
            viewer.viewport == Viewport::initial(document.content_size()),
            viewer.wf(),
    {
        let viewport = Viewport::new(document.size());
        TabViewer { viewport, document }
    }

    /// Renders the document into `clip` and notes `clip` as the bounds of what was
    /// drawn. The paint list holds one stroke for each segment, in the document's order.
    pub fn draw(&mut self, clip: Rect) -> (commands: Vec<DrawCommand>)
        ensures
            commands@ == strokes_of(old(self).document@),
            final(self).viewport == old(self).viewport.rendered(clip),
            final(self).document == old(self).document,
    {
        let mut renderer = DocumentRenderer::new(clip, &self.document);
        renderer.render();
        let bounds = renderer.clip_rect();
        let commands = renderer.into_commands();
        self.viewport.record_bounds(bounds);
        commands
    }

    /// One frame of a panel. The view panel takes the frame's input and answers with the
    /// paint list; any other panel changes nothing and paints nothing.
    pub fn ui(&mut self, panel: Panel, input: &FrameInput) -> (commands: Vec<DrawCommand>)
        requires
            old(self).wf(),
        ensures
            final(self).wf(),
            final(self).document == old(self).document,
            panel == Panel::View ==> {
                &&& final(self).viewport == after_frame(old(self).viewport, *input)
                &&& commands@ == strokes_of(old(self).document@)
            },
            panel != Panel::View ==> {
                &&& final(self).viewport == old(self).viewport
                &&& commands@ == Seq::<DrawCommand>::empty()
            },
    {
        match panel {
            Panel::View => {
                self.viewport.track_pointer(input.hover, &input.canvas);
                let commands = self.draw(input.clip);
                if let Some(proposed) = input.proposed {
                    self.viewport.zoom_pan(proposed, &input.canvas);
                }
                if input.double_clicked {
                    self.viewport.fit();
                }
                commands
            },
            Panel::Tools => Vec::new(),
        }
    }
}

/// The editor: its panels, the view panel's state once the panels are set up, and the
/// brush stage.
pub struct Editor {
    panels: Vec<Panel>,
    tab_viewer: Option<TabViewer>,
    brush: BrushStage,
}

impl Editor {
    /// The panels, from left to right.
    pub closed spec fn panels(&self) -> Seq<Panel> {
        self.panels@
    }

    /// The view panel's state, once there is one.
    pub closed spec fn viewer(&self) -> Option<TabViewer> {
        self.tab_viewer
    }

    /// Where the brush stage is in its life.
    pub closed spec fn brush_phase(&self) -> StagePhase {
        self.brush.phase()
    }

    /// The view panel's state, if there is one, shows a rectangle with an area.
    pub open spec fn wf(&self) -> bool {
        self.viewer() is Some ==> self.viewer()->0.wf()
    }

    /// The cursor that the next dispatch stamps at: the view's cursor, or the origin as
    /// long as there is no view.
    pub open spec fn cursor(&self) -> Point {
        if self.viewer() is Some {
            self.viewer()->0.viewport.cursor_position
        } else {
            Point { x: 0, y: 0 }
        }
    }

    /// An editor with the tools panel to the left of the view panel, no view state yet,
    /// and a brush stage for which nothing has been created.
    pub fn new() -> (editor: Editor)
        ensures
            editor.panels() == seq![Panel::Tools, Panel::View],
            editor.viewer() is None,
            editor.brush_phase() == StagePhase::Uninitialized,
            editor.wf(),
    {
        let mut panels: Vec<Panel> = Vec::new();
        panels.push(Panel::Tools);
        panels.push(Panel::View);
        assert(panels@ =~= seq![Panel::Tools, Panel::View]);
        Editor { panels, tab_viewer: None, brush: BrushStage::new() }
    }

    /// The panels, from left to right.
    pub fn panel_list(&self) -> (list: &Vec<Panel>)
        ensures
            list@ == self.panels(),
    {
        &self.panels
    }

    /// Sets up the view panel: a fresh viewer of the built-in document.
    pub fn initialize_gui(&mut self)
        ensures
            final(self).viewer() is Some,
            final(self).viewer()->0.document@ == built_in_shape(),
            final(self).viewer()->0.document.content_size() == (Size { width: 500, height: 500 }),
            final(self).viewer()->0.viewport == Viewport::initial(Size { width: 500, height: 500 }),
            final(self).panels() == old(self).panels(),
            final(self).brush_phase() == old(self).brush_phase(),
            final(self).wf(),
    {
        self.tab_viewer = Some(TabViewer::new(Document::new()));
    }

    /// The view's visible rectangle and cursor, once the view panel is set up.
    pub fn viewport(&self) -> (v: Option<Viewport>)
        ensures
            v is Some <==> self.viewer() is Some,
            v is Some ==> v->0 == self.viewer()->0.viewport,
    {
        match &self.tab_viewer {
            Some(viewer) => Some(viewer.viewport),
            None => None,
        }
    }

    /// The size of the canvas that the view panel's document is drawn on, once the view
    /// panel is set up.
    pub fn canvas_size(&self) -> (size: Option<Size>)
        ensures
            size is Some <==> self.viewer() is Some,
            size is Some ==> size->0 == self.viewer()->0.document.content_size(),
    {
        match &self.tab_viewer {
            Some(viewer) => Some(viewer.document.size()),
            None => None,
        }
    }

    /// One frame of a panel: see `TabViewer::ui`.
    pub fn gui(&mut self, panel: Panel, input: &FrameInput) -> (commands: Vec<DrawCommand>)
        requires
            old(self).viewer() is Some,
            old(self).wf(),
        ensures
            final(self).wf(),
            final(self).viewer() is Some,
            final(self).viewer()->0.document == old(self).viewer()->0.document,
            final(self).panels() == old(self).panels(),
            final(self).brush_phase() == old(self).brush_phase(),
            panel == Panel::View ==> {
                &&& final(self).viewer()->0.viewport == after_frame(old(self).viewer()->0.viewport, *input)
                &&& commands@ == strokes_of(old(self).viewer()->0.document@)
            },
            panel != Panel::View ==> {
                &&& final(self).viewer()->0.viewport == old(self).viewer()->0.viewport
                &&& commands@ == Seq::<DrawCommand>::empty()
            },
    {
        match &mut self.tab_viewer {
            Some(viewer) => viewer.ui(panel, input),
            None => Vec::new(),
        }
    }

    /// Takes the host's report on the creation of the brush stage's binding layout and
    /// pipeline: see `BrushStage::initialize`.
    pub fn initialize(&mut self, layout_created: bool, pipeline_built: bool) -> (outcome: Result<(), BrushError>)
        ensures
            outcome == initialize_outcome(old(self).brush_phase(), layout_created, pipeline_built),
            outcome is Ok ==> final(self).brush_phase() == StagePhase::Ready,
            outcome is Err ==> final(self).brush_phase() == old(self).brush_phase(),
            final(self).viewer() == old(self).viewer(),
            final(self).panels() == old(self).panels(),
    {
        self.brush.initialize(layout_created, pipeline_built)
    }

    /// This frame's dispatch: it stamps at the cursor as the panel call left it.
    pub fn render(&self) -> (outcome: Result<Dispatch, BrushError>)
        ensures
            self.brush_phase() == StagePhase::Ready ==> outcome == Ok::<Dispatch, BrushError>(dispatch_at(self.cursor())),
            self.brush_phase() != StagePhase::Ready ==> outcome == Err::<Dispatch, BrushError>(BrushError::NotReady),
    {
        let cursor = match &self.tab_viewer {
            Some(viewer) => viewer.viewport.cursor_position,
            None => Point { x: 0, y: 0 },
        };
        self.brush.record_dispatch(cursor)
    }

    /// Gives up the brush stage's layout and pipeline: see `BrushStage::destroy`.
    pub fn shutdown(&mut self) -> (release: bool)
        ensures
            release == (old(self).brush_phase() == StagePhase::Ready),
            release ==> final(self).brush_phase() == StagePhase::Destroyed,
            !release ==> final(self).brush_phase() == old(self).brush_phase(),
            final(self).viewer() == old(self).viewer(),
            final(self).panels() == old(self).panels(),
    {
        self.brush.destroy()
    }
}

/// A frame with a pointer over a canvas with an area leaves the cursor at the document
/// point under that pointer, measured against the rectangle shown when the frame began;
/// a frame without one leaves the cursor where it was.
pub proof fn lemma_frame_cursor(before: Viewport, input: FrameInput)
    ensures
        Viewport::follows(input.hover, input.canvas) ==> after_frame(before, input).cursor_position
            == before.to_document(input.canvas, input.hover->0),
        !Viewport::follows(input.hover, input.canvas) ==> after_frame(before, input).cursor_position
            == before.cursor_position,
{
}

/// A frame with a double click leaves exactly the rectangle that this frame's render
/// pass drew into as the visible rectangle, provided that rectangle has an area.
pub proof fn lemma_double_click_fits(before: Viewport, input: FrameInput)
    requires
        input.double_clicked,
        input.clip.is_non_degenerate(),
    ensures
        after_frame(before, input).visible_rect == input.clip,
{
}

} // verus!
