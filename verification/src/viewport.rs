//! The viewport: which rectangle of the document is shown, where the cursor is in
//! document space, and how pointer tracking, zoom and pan, and the fit gesture change
//! them.
//!
//! The scale of a view is the canvas's extent over the visible extent, axis by axis. It
//! is kept as that fraction and never divided out, so the zoom limits are exact.

use vstd::prelude::*;
use crate::geometry::{lemma_transform_round_trip, Point, Rect, Size};

verus! {

/// The largest scale a zoom gesture can reach: thirty canvas units to a document unit.
pub const MAX_SCALE: i64 = 30;

/// The inverse of the smallest scale a zoom gesture can reach: ten document units to a
/// canvas unit.
pub const MAX_SHRINK: i64 = 10;

/// On one axis, the scale lies between a tenth and thirty.
pub open spec fn scale_in_range(visible_extent: int, canvas_extent: int) -> bool {
    &&& canvas_extent <= MAX_SCALE * visible_extent
    &&& visible_extent <= MAX_SHRINK * canvas_extent
}

/// On both axes, the scale of `visible` on `canvas` lies between a tenth and thirty.
pub open spec fn zoom_in_range(visible: Rect, canvas: Rect) -> bool {
    &&& scale_in_range(visible.spec_width(), canvas.spec_width())
    &&& scale_in_range(visible.spec_height(), canvas.spec_height())
}

/// The visible extent nearest to `extent` whose scale on a canvas of `canvas_extent` is
/// in range.
pub open spec fn clamp_extent(extent: int, canvas_extent: int) -> int {
    let least = (canvas_extent + (MAX_SCALE - 1)) / (MAX_SCALE as int);
    let most = MAX_SHRINK * canvas_extent;
    if extent < least {
        least
    } else if extent > most {
        most
    } else {
        extent
    }
}

/// The interval from `lo` that is `clamp_extent` long; where that would pass the largest
/// coordinate, the interval of that length that ends there.
pub open spec fn clamp_axis(lo: int, hi: int, canvas_extent: int) -> (int, int) {
    let extent = clamp_extent(hi - lo, canvas_extent);
    if lo + extent <= i32::MAX {
        (lo, lo + extent)
    } else {
        (i32::MAX - extent, i32::MAX as int)
    }
}

/// `proposed` with each extent brought into the zoom range of `canvas`.
pub open spec fn clamped(proposed: Rect, canvas: Rect) -> Rect {
    let x = clamp_axis(proposed.min.x as int, proposed.max.x as int, canvas.spec_width());
    let y = clamp_axis(proposed.min.y as int, proposed.max.y as int, canvas.spec_height());
    Rect {
        min: Point { x: x.0 as i32, y: y.0 as i32 },
        max: Point { x: x.1 as i32, y: y.1 as i32 },
    }
}

/// Runs `clamp_axis` on machine integers.
pub fn clamp_interval(lo: i32, hi: i32, canvas_extent: i64) -> (r: (i32, i32))
    requires
        0 < canvas_extent <= 0xffff_ffff,
    ensures
        r.0 == clamp_axis(lo as int, hi as int, canvas_extent as int).0,
        r.1 == clamp_axis(lo as int, hi as int, canvas_extent as int).1,
        r.0 < r.1,
        scale_in_range(r.1 - r.0, canvas_extent as int),
        scale_in_range(hi - lo, canvas_extent as int) ==> r.0 == lo && r.1 == hi,
{
    let extent: i64 = hi as i64 - lo as i64;
    let least: i64 = (canvas_extent + (MAX_SCALE - 1)) / MAX_SCALE;
    let most: i64 = MAX_SHRINK * canvas_extent;
    let kept: i64 = if extent < least {
        least
    } else if extent > most {
        most
    } else {
        extent
    };
    let end: i64 = lo as i64 + kept;
    if end <= i32::MAX as i64 {
        (lo, end as i32)
    } else {
        ((i32::MAX as i64 - kept) as i32, i32::MAX)
    }
}

/// What is shown and where the cursor is.
#[derive(Clone, Copy, Debug)]
pub struct Viewport {
    /// The rectangle of document space that fills the canvas.
    pub visible_rect: Rect,
    /// The cursor in document space, as of the last frame that had a pointer over the canvas.
    pub cursor_position: Point,
    /// The rectangle that the last render pass drew into, if there was one.
    pub last_content_bounds: Option<Rect>,
}

impl Viewport {
    /// The visible rectangle has positive width and height.
    pub open spec fn wf(self) -> bool {
        self.visible_rect.is_non_degenerate()
    }

    /// The first view of a surface of the given size: all of it, from the origin, with
    /// an extent below one raised to one.
    pub open spec fn initial(content_size: Size) -> Viewport {
        Viewport {
            visible_rect: Rect {
                min: Point { x: 0, y: 0 },
                max: Point {
                    x: if content_size.width < 1 { 1 } else { content_size.width },
                    y: if content_size.height < 1 { 1 } else { content_size.height },
                },
            },
            cursor_position: Point { x: 0, y: 0 },
            last_content_bounds: None,
        }
    }

    /// A pointer at `hover` moves the cursor: there is one, and it is on a canvas that
    /// has an area.
    pub open spec fn follows(hover: Option<Point>, canvas: Rect) -> bool {
        &&& hover is Some
        &&& canvas.is_non_degenerate()
        &&& canvas.contains(hover->0)
    }

    /// The document point under the canvas point `p`.
    pub open spec fn to_document(self, canvas: Rect, p: Point) -> Point {
        canvas.map_point(self.visible_rect, p)
    }

    /// The canvas point over the document point `d`.
    pub open spec fn to_screen(self, canvas: Rect, d: Point) -> Point {
        self.visible_rect.map_point(canvas, d)
    }

    /// The viewport after a frame whose pointer was at `hover`.
    pub open spec fn hovered(self, hover: Option<Point>, canvas: Rect) -> Viewport {
        if Self::follows(hover, canvas) {
            Viewport { cursor_position: self.to_document(canvas, hover->0), ..self }
        } else {
            self
        }
    }

    /// The viewport after a zoom or pan that asks for `proposed`.
    pub open spec fn zoomed(self, proposed: Rect, canvas: Rect) -> Viewport {
        if canvas.is_non_degenerate() {
            Viewport { visible_rect: clamped(proposed, canvas), ..self }
        } else {
            self
        }
    }

    /// The viewport after every gesture of `gestures`, from first to last.
    pub open spec fn zoomed_all(self, gestures: Seq<Rect>, canvas: Rect) -> Viewport
        decreases gestures.len(),
    {
        if gestures.len() == 0 {
            self
        } else {
            self.zoomed_all(gestures.drop_last(), canvas).zoomed(gestures.last(), canvas)
        }
    }

    /// The viewport after a render pass that drew into `bounds`.
    pub open spec fn rendered(self, bounds: Rect) -> Viewport {
        Viewport { last_content_bounds: Some(bounds), ..self }
    }

    /// The fit gesture has something to snap to.
    pub open spec fn can_fit(self) -> bool {
        self.last_content_bounds is Some && self.last_content_bounds->0.is_non_degenerate()
    }

    /// The viewport after the fit gesture.
    pub open spec fn fitted(self) -> Viewport {
        if self.can_fit() {
            Viewport { visible_rect: self.last_content_bounds->0, ..self }
        } else {
            self
        }
    }

    /// The first view of a surface of the given size.
    pub fn new(content_size: Size) -> (v: Viewport)
        ensures
            v == Self::initial(content_size),
            v.wf(),
    {
        Viewport {
            visible_rect: Rect {
                min: Point { x: 0, y: 0 },
                max: Point {
                    x: if content_size.width < 1 { 1 } else { content_size.width },
                    y: if content_size.height < 1 { 1 } else { content_size.height },
                },
            },
            cursor_position: Point { x: 0, y: 0 },
            last_content_bounds: None,
        }
    }

    /// The document point under the canvas point `p`; nothing for a point off the canvas
    /// or a canvas without area.
    pub fn screen_to_document(&self, canvas: &Rect, p: Point) -> (d: Option<Point>)
        requires
            self.wf(),
        ensures
            d is Some <==> canvas.is_non_degenerate() && canvas.contains(p),
            d is Some ==> d->0 == self.to_document(*canvas, p) && self.visible_rect.contains(d->0),
    {
        if canvas.non_degenerate() && canvas.holds(p) {
            Some(canvas.transform(&self.visible_rect, p))
        } else {
            None
        }
    }

    /// The canvas point over the document point `d`; nothing for a point that is not
    /// visible or a canvas without area.
    pub fn document_to_screen(&self, canvas: &Rect, d: Point) -> (p: Option<Point>)
        requires
            self.wf(),
        ensures
            p is Some <==> canvas.is_non_degenerate() && self.visible_rect.contains(d),
            p is Some ==> p->0 == self.to_screen(*canvas, d) && canvas.contains(p->0),
    {
        if canvas.non_degenerate() && self.visible_rect.holds(d) {
            Some(self.visible_rect.transform(canvas, d))
        } else {
            None
        }
    }

    /// Takes one frame's pointer. A pointer over the canvas moves the cursor to the
    /// document point under it; otherwise the cursor stays.
    pub fn track_pointer(&mut self, hover: Option<Point>, canvas: &Rect)
        requires
            old(self).wf(),
        ensures
            *final(self) == old(self).hovered(hover, *canvas),
            final(self).wf(),
            Self::follows(hover, *canvas) ==> final(self).visible_rect.contains(final(self).cursor_position),
    {
        if let Some(p) = hover {
            if let Some(d) = self.screen_to_document(canvas, p) {
                self.cursor_position = d;
            }
        }
    }

    /// Takes the rectangle that a zoom or pan asks for. Its place is kept; its extents
    /// are brought into the zoom range of the canvas. A canvas without area changes
    /// nothing.
    pub fn zoom_pan(&mut self, proposed: Rect, canvas: &Rect)
        requires
            old(self).wf(),
        ensures
            *final(self) == old(self).zoomed(proposed, *canvas),
            final(self).wf(),
            canvas.is_non_degenerate() ==> zoom_in_range(final(self).visible_rect, *canvas),
            canvas.is_non_degenerate() && zoom_in_range(proposed, *canvas) ==> final(self).visible_rect == proposed,
    {
        if canvas.non_degenerate() {
            let x: (i32, i32) = clamp_interval(proposed.min.x, proposed.max.x, canvas.width());
            let y: (i32, i32) = clamp_interval(proposed.min.y, proposed.max.y, canvas.height());
            self.visible_rect = Rect {
                min: Point { x: x.0, y: y.0 },
                max: Point { x: x.1, y: y.1 },
            };
        }
    }

    /// Notes the rectangle that a finished render pass drew into.
    pub fn record_bounds(&mut self, bounds: Rect)
        ensures
            *final(self) == old(self).rendered(bounds),
    {
        self.last_content_bounds = Some(bounds);
    }

    /// The fit gesture: shows exactly what the last render pass drew into. Without a
    /// render pass, or if it drew into no area, nothing changes.
    pub fn fit(&mut self)
        requires
            old(self).wf(),
        ensures
            *final(self) == old(self).fitted(),
            final(self).wf(),
            old(self).can_fit() ==> final(self).visible_rect == old(self).last_content_bounds->0,
    {
        if let Some(bounds) = self.last_content_bounds {
            if bounds.non_degenerate() {
                self.visible_rect = bounds;
            }
        }
    }
}

/// A visible document point, mapped to the canvas and back, comes back at or just below
/// itself: on each axis it loses less than one canvas unit's worth of document units,
/// plus one unit of rounding.
pub proof fn lemma_document_screen_round_trip(v: Viewport, canvas: Rect, d: Point)
    requires
        v.wf(),
        canvas.is_non_degenerate(),
        v.visible_rect.contains(d),
    ensures
        ({
            let back = v.to_document(canvas, v.to_screen(canvas, d));
            &&& canvas.contains(v.to_screen(canvas, d))
            &&& v.visible_rect.contains(back)
            &&& back.x <= d.x
            &&& back.y <= d.y
            &&& (d.x - back.x) * canvas.spec_width() < v.visible_rect.spec_width() + canvas.spec_width()
            &&& (d.y - back.y) * canvas.spec_height() < v.visible_rect.spec_height() + canvas.spec_height()
        }),
{
    lemma_transform_round_trip(v.visible_rect, canvas, d);
}

/// A canvas point, mapped to the document and back, comes back at or just below itself:
/// on each axis it loses less than one document unit's worth of canvas units, plus one
/// unit of rounding.
pub proof fn lemma_screen_document_round_trip(v: Viewport, canvas: Rect, p: Point)
    requires
        v.wf(),
        canvas.is_non_degenerate(),
        canvas.contains(p),
    ensures
        ({
            let back = v.to_screen(canvas, v.to_document(canvas, p));
            &&& v.visible_rect.contains(v.to_document(canvas, p))
            &&& canvas.contains(back)
            &&& back.x <= p.x
            &&& back.y <= p.y
            &&& (p.x - back.x) * v.visible_rect.spec_width() < canvas.spec_width() + v.visible_rect.spec_width()
            &&& (p.y - back.y) * v.visible_rect.spec_height() < canvas.spec_height() + v.visible_rect.spec_height()
        }),
{
    lemma_transform_round_trip(canvas, v.visible_rect, p);
}

/// Where the canvas has at least as many units as the visible rectangle on both axes
/// (a scale of one or more), the round trip loses at most one document unit.
pub proof fn lemma_round_trip_when_magnified(v: Viewport, canvas: Rect, d: Point)
    requires
        v.wf(),
        canvas.is_non_degenerate(),
        v.visible_rect.contains(d),
        v.visible_rect.spec_width() <= canvas.spec_width(),
        v.visible_rect.spec_height() <= canvas.spec_height(),
    ensures
        ({
            let back = v.to_document(canvas, v.to_screen(canvas, d));
            &&& d.x - 1 <= back.x <= d.x
            &&& d.y - 1 <= back.y <= d.y
        }),
{
    lemma_document_screen_round_trip(v, canvas, d);
    let back = v.to_document(canvas, v.to_screen(canvas, d));
    assert(d.x - back.x < 2) by (nonlinear_arith)
        requires
            (d.x - back.x) * canvas.spec_width() < v.visible_rect.spec_width() + canvas.spec_width(),
            0 < v.visible_rect.spec_width() <= canvas.spec_width(),
    ;
    assert(d.y - back.y < 2) by (nonlinear_arith)
        requires
            (d.y - back.y) * canvas.spec_height() < v.visible_rect.spec_height() + canvas.spec_height(),
            0 < v.visible_rect.spec_height() <= canvas.spec_height(),
    ;
}

/// However many zoom and pan gestures follow one another on a canvas with an area, the
/// scale after the last of them lies between a tenth and thirty on both axes; the same
/// holds after none, if it held before.
pub proof fn lemma_zoom_stays_in_range(v: Viewport, gestures: Seq<Rect>, canvas: Rect)
    requires
        canvas.is_non_degenerate(),
        gestures.len() > 0 || zoom_in_range(v.visible_rect, canvas),
    ensures
        zoom_in_range(v.zoomed_all(gestures, canvas).visible_rect, canvas),
        v.zoomed_all(gestures, canvas).visible_rect.is_non_degenerate(),
{
    if gestures.len() > 0 {
        lemma_clamped_in_range(gestures.last(), canvas);
    }
}

/// A clamped rectangle has an area and a scale in range.
pub proof fn lemma_clamped_in_range(proposed: Rect, canvas: Rect)
    requires
        canvas.is_non_degenerate(),
    ensures
        zoom_in_range(clamped(proposed, canvas), canvas),
        clamped(proposed, canvas).is_non_degenerate(),
        zoom_in_range(proposed, canvas) ==> clamped(proposed, canvas) == proposed,
{
}

} // verus!
