//! Points and rectangles on the integer grid, and the affine map between two rectangles.
//!
//! Document space and screen space are both grids of whole units. A rectangle is given
//! by two corners; its extents are mathematical integers, so that no pair of corners
//! can overflow them.

use vstd::prelude::*;
use vstd::arithmetic::div_mod::{lemma_fundamental_div_mod, lemma_mod_bound};

verus! {

/// A point of the plane, in whole units.
#[derive(Clone, Copy, Debug, PartialEq, Eq, Structural)]
pub struct Point {
    pub x: i32,
    pub y: i32,
}

/// A width and a height, in whole units.
#[derive(Clone, Copy, Debug, PartialEq, Eq, Structural)]
pub struct Size {
    pub width: i32,
    pub height: i32,
}

/// An axis-aligned rectangle from `min` to `max`, both corners included.
#[derive(Clone, Copy, Debug, PartialEq, Eq, Structural)]
pub struct Rect {
    pub min: Point,
    pub max: Point,
}

/// Where `v` lands when the interval that starts at `from_min` and is `from_extent` long
/// is stretched onto the one that starts at `to_min` and is `to_extent` long; a fraction
/// of a unit is dropped.
pub open spec fn map_axis(v: int, from_min: int, from_extent: int, to_min: int, to_extent: int) -> int {
    to_min + ((v - from_min) * to_extent) / from_extent
}

/// Mapping a coordinate of the first interval to the second and back never overshoots,
/// and falls short by less than one unit of the second interval, measured in the first,
/// plus one unit of rounding.
pub proof fn lemma_axis_round_trip(v: int, a_min: int, a_extent: int, b_min: int, b_extent: int)
    requires
        a_extent > 0,
        b_extent > 0,
        a_min <= v <= a_min + a_extent,
    ensures
        ({
            let there = map_axis(v, a_min, a_extent, b_min, b_extent);
            let back = map_axis(there, b_min, b_extent, a_min, a_extent);
            &&& b_min <= there <= b_min + b_extent
            &&& a_min <= back <= v
            &&& (v - back) * b_extent < a_extent + b_extent
        }),
{
    let t = v - a_min;
    let q = (t * b_extent) / a_extent;
    let u = (q * a_extent) / b_extent;
    assert(0 <= t * b_extent <= a_extent * b_extent) by (nonlinear_arith)
        requires
            0 <= t <= a_extent,
            b_extent > 0,
    ;
    lemma_fundamental_div_mod(t * b_extent, a_extent);
    lemma_mod_bound(t * b_extent, a_extent);
    assert(0 <= q <= b_extent) by (nonlinear_arith)
        requires
            0 <= t * b_extent <= a_extent * b_extent,
            t * b_extent == a_extent * q + (t * b_extent) % a_extent,
            0 <= (t * b_extent) % a_extent < a_extent,
            a_extent > 0,
    ;
    assert(0 <= q * a_extent) by (nonlinear_arith)
        requires
            0 <= q,
            a_extent > 0,
    ;
    lemma_fundamental_div_mod(q * a_extent, b_extent);
    lemma_mod_bound(q * a_extent, b_extent);
    assert(0 <= u <= t && (t - u) * b_extent < a_extent + b_extent) by (nonlinear_arith)
        requires
            t * b_extent == a_extent * q + (t * b_extent) % a_extent,
            0 <= (t * b_extent) % a_extent < a_extent,
            q * a_extent == b_extent * u + (q * a_extent) % b_extent,
            0 <= (q * a_extent) % b_extent < b_extent,
            0 <= q * a_extent,
            0 <= t,
            a_extent > 0,
            b_extent > 0,
    ;
    assert(map_axis(b_min + q, b_min, b_extent, a_min, a_extent) == a_min + u);
}

/// Runs `map_axis` on machine integers, for a coordinate inside the first interval.
pub fn map_coordinate(v: i32, from_min: i32, from_max: i32, to_min: i32, to_max: i32) -> (r: i32)
    requires
        from_min < from_max,
        to_min <= to_max,
        from_min <= v <= from_max,
    ensures
        r == map_axis(v as int, from_min as int, from_max - from_min, to_min as int, to_max - to_min),
        to_min <= r <= to_max,
{
    let offset: u64 = (v as i64 - from_min as i64) as u64;
    let from_extent: u64 = (from_max as i64 - from_min as i64) as u64;
    let to_extent: u64 = (to_max as i64 - to_min as i64) as u64;
    assert(offset * to_extent <= from_extent * to_extent <= 0xffff_ffff * 0xffff_ffff) by (nonlinear_arith)
        requires
            offset <= from_extent <= 0xffff_ffff,
            to_extent <= 0xffff_ffff,
    ;
    let scaled: u64 = offset * to_extent;
    let q: u64 = scaled / from_extent;
    proof {
        lemma_fundamental_div_mod(scaled as int, from_extent as int);
        lemma_mod_bound(scaled as int, from_extent as int);
        assert(q <= to_extent) by (nonlinear_arith)
            requires
                scaled <= from_extent * to_extent,
                scaled == from_extent * q + (scaled as int) % (from_extent as int),
                0 <= (scaled as int) % (from_extent as int),
                from_extent > 0,
        ;
    }
    (to_min as i64 + q as i64) as i32
}

impl Point {
    /// The point with the given coordinates.
    pub fn new(x: i32, y: i32) -> (p: Point)
        ensures
            p == (Point { x, y }),
    {
        Point { x, y }
    }
}

impl Rect {
    /// The rectangle between two corners.
    pub fn new(min: Point, max: Point) -> (r: Rect)
        ensures
            r == (Rect { min, max }),
    {
        Rect { min, max }
    }

    /// How far the rectangle reaches along x.
    pub open spec fn spec_width(self) -> int {
        self.max.x - self.min.x
    }

    /// How far the rectangle reaches along y.
    pub open spec fn spec_height(self) -> int {
        self.max.y - self.min.y
    }

    /// Both extents are strictly positive.
    pub open spec fn is_non_degenerate(self) -> bool {
        self.spec_width() > 0 && self.spec_height() > 0
    }

    /// The point lies in the rectangle, borders included.
    pub open spec fn contains(self, p: Point) -> bool {
        &&& self.min.x <= p.x <= self.max.x
        &&& self.min.y <= p.y <= self.max.y
    }

    /// The image of `p` when this rectangle is stretched onto `to`.
    pub open spec fn map_point(self, to: Rect, p: Point) -> Point {
        Point {
            x: map_axis(p.x as int, self.min.x as int, self.spec_width(), to.min.x as int, to.spec_width()) as i32,
            y: map_axis(p.y as int, self.min.y as int, self.spec_height(), to.min.y as int, to.spec_height()) as i32,
        }
    }

    /// The extent along x.
    pub fn width(&self) -> (w: i64)
        ensures
            w == self.spec_width(),
    {
        self.max.x as i64 - self.min.x as i64
    }

    /// The extent along y.
    pub fn height(&self) -> (h: i64)
        ensures
            h == self.spec_height(),
    {
        self.max.y as i64 - self.min.y as i64
    }

    /// Whether both extents are strictly positive.
    pub fn non_degenerate(&self) -> (b: bool)
        ensures
            b == self.is_non_degenerate(),
    {
        self.min.x < self.max.x && self.min.y < self.max.y
    }

    /// Whether the point lies in the rectangle, borders included.
    pub fn holds(&self, p: Point) -> (b: bool)
        ensures
            b == self.contains(p),
    {
        self.min.x <= p.x && p.x <= self.max.x && self.min.y <= p.y && p.y <= self.max.y
    }

    /// Stretches this rectangle onto `to` and returns where `p` lands.
    pub fn transform(&self, to: &Rect, p: Point) -> (r: Point)
        requires
            self.is_non_degenerate(),
            to.min.x <= to.max.x,
            to.min.y <= to.max.y,
            self.contains(p),
        ensures
            r == self.map_point(*to, p),
            r.x == map_axis(p.x as int, self.min.x as int, self.spec_width(), to.min.x as int, to.spec_width()),
            r.y == map_axis(p.y as int, self.min.y as int, self.spec_height(), to.min.y as int, to.spec_height()),
            to.contains(r),
    {
        Point {
            x: map_coordinate(p.x, self.min.x, self.max.x, to.min.x, to.max.x),
            y: map_coordinate(p.y, self.min.y, self.max.y, to.min.y, to.max.y),
        }
    }
}

/// A point of one rectangle, mapped into a second and back, comes back at or just below
/// itself: on each axis the loss is less than one unit of the second rectangle, measured
/// in the first, plus one unit of rounding.
pub proof fn lemma_transform_round_trip(a: Rect, b: Rect, p: Point)
    requires
        a.is_non_degenerate(),
        b.is_non_degenerate(),
        a.contains(p),
    ensures
        ({
            let there = a.map_point(b, p);
            let back = b.map_point(a, there);
            &&& b.contains(there)
            &&& a.contains(back)
            &&& back.x <= p.x
            &&& back.y <= p.y
            &&& (p.x - back.x) * b.spec_width() < a.spec_width() + b.spec_width()
            &&& (p.y - back.y) * b.spec_height() < a.spec_height() + b.spec_height()
        }),
{
    lemma_axis_round_trip(p.x as int, a.min.x as int, a.spec_width(), b.min.x as int, b.spec_width());
    lemma_axis_round_trip(p.y as int, a.min.y as int, a.spec_height(), b.min.y as int, b.spec_height());
}

} // verus!
