//! Axis-aligned rectangle algebra.
//!
//! [`Rect`] is a normalized rectangle (top-left corner plus non-negative
//! size, y growing downward); [`Extents`] is the unnormalized drag-anchor
//! form: two free corner points whose order is not guaranteed, kept apart
//! so the interaction code remembers which corner is being dragged.
//!
//! Coordinates are integer desktop pixels. Stored values are bounded by
//! [`COORD_LIMIT`] so that every sum of a handful of coordinates fits an
//! `i32`; the bound is far beyond any real desktop.

use vstd::math::{max, min};
use vstd::prelude::*;

verus! {

/// Bound on the magnitude of a well-formed coordinate, `2^28` pixels.
pub const COORD_LIMIT: i32 = 0x1000_0000;

/// A coordinate a well-formed rectangle may store.
pub open spec fn in_range(v: int) -> bool {
    -(COORD_LIMIT as int) <= v <= COORD_LIMIT as int
}

/// A coordinate produced by one step of arithmetic on well-formed
/// rectangles (a sum or difference of two in-range values).
pub open spec fn in_wide_range(v: int) -> bool {
    -2 * (COORD_LIMIT as int) <= v <= 2 * (COORD_LIMIT as int)
}

/// An axis-aligned rectangle: top-left corner and size.
#[derive(Debug, Clone, Copy, PartialEq, Eq, Structural)]
pub struct Rect {
    pub x: i32,
    pub y: i32,
    pub width: i32,
    pub height: i32,
}

/// Two free corner points of an in-progress drag, not normalized:
/// `start` may lie right of or below `end`.
#[derive(Debug, Clone, Copy, PartialEq, Eq, Structural)]
pub struct Extents {
    pub start_x: i32,
    pub start_y: i32,
    pub end_x: i32,
    pub end_y: i32,
}

impl Rect {
    /// The x coordinate one past the right edge.
    pub open spec fn right(self) -> int {
        self.x + self.width
    }

    /// The y coordinate one past the bottom edge.
    pub open spec fn bottom(self) -> int {
        self.y + self.height
    }

    /// Well-formed: non-negative size, all edges within [`COORD_LIMIT`].
    pub open spec fn wf(self) -> bool {
        &&& in_range(self.x as int)
        &&& in_range(self.y as int)
        &&& in_range(self.right())
        &&& in_range(self.bottom())
        &&& self.width >= 0
        &&& self.height >= 0
    }

    /// Loosely bounded: edges within twice [`COORD_LIMIT`]. Holds of every
    /// well-formed rectangle and of one padded by an in-range amount, and
    /// leaves room to add or subtract two such values in an `i32`.
    pub open spec fn loose(self) -> bool {
        &&& in_wide_range(self.x as int)
        &&& in_wide_range(self.y as int)
        &&& in_wide_range(self.right())
        &&& in_wide_range(self.bottom())
        &&& self.width >= 0
        &&& self.height >= 0
    }

    /// The pixel-coverage model of a rectangle: the half-open integer box
    /// `[x, x+width) x [y, y+height)`. Degenerate rectangles cover nothing.
    pub open spec fn covers(self, px: int, py: int) -> bool {
        &&& self.x <= px < self.right()
        &&& self.y <= py < self.bottom()
    }

    /// Both rectangles overlap with strictly positive width and height.
    pub open spec fn spec_intersects(self, other: Rect) -> bool {
        &&& min(self.right(), other.right()) - max(self.x as int, other.x as int) > 0
        &&& min(self.bottom(), other.bottom()) - max(self.y as int, other.y as int) > 0
    }
}

impl Default for Rect {
    /// The zero rectangle at the origin.
    fn default() -> (r: Rect)
        ensures
            r == (Rect { x: 0, y: 0, width: 0, height: 0 }),
    {
        Rect { x: 0, y: 0, width: 0, height: 0 }
    }
}

impl Rect {
    pub fn new(x: i32, y: i32, width: i32, height: i32) -> (r: Rect)
        ensures
            r == (Rect { x, y, width, height }),
    {
        Rect { x, y, width, height }
    }

    /// True iff the overlap of the two rectangles has strictly positive
    /// width and height: rectangles that merely touch do not intersect.
    pub fn intersects(&self, other: &Rect) -> (r: bool)
        requires
            self.loose(),
            other.loose(),
        ensures
            r == self.spec_intersects(*other),
    {
        let self_right = self.x + self.width;
        let other_right = other.x + other.width;
        let self_bottom = self.y + self.height;
        let self_top = if self.y > other.y {
            self.y
        } else {
            other.y
        };
        let self_left = if self.x > other.x {
            self.x
        } else {
            other.x
        };
        let min_right = if self_right < other_right {
            self_right
        } else {
            other_right
        };
        let other_bottom = other.y + other.height;
        let min_bottom = if self_bottom < other_bottom {
            self_bottom
        } else {
            other_bottom
        };
        min_right - self_left > 0 && min_bottom - self_top > 0
    }

    /// The overlap rectangle; meaningful only when `self.intersects(other)`.
    pub fn intersecting_rect(&self, other: &Rect) -> (r: Rect)
        requires
            self.loose(),
            other.loose(),
            self.spec_intersects(*other),
        ensures
            r.x == max(self.x as int, other.x as int),
            r.y == max(self.y as int, other.y as int),
            r.right() == min(self.right(), other.right()),
            r.bottom() == min(self.bottom(), other.bottom()),
            r.width > 0,
            r.height > 0,
            forall|px: int, py: int|
                #[trigger] r.covers(px, py) <==> self.covers(px, py) && other.covers(px, py),
            self.wf() && other.wf() ==> r.wf(),
    {
        let x = if self.x > other.x {
            self.x
        } else {
            other.x
        };
        let y = if self.y > other.y {
            self.y
        } else {
            other.y
        };
        let self_right = self.x + self.width;
        let other_right = other.x + other.width;
        let right = if self_right < other_right {
            self_right
        } else {
            other_right
        };
        let self_bottom = self.y + self.height;
        let other_bottom = other.y + other.height;
        let bottom = if self_bottom < other_bottom {
            self_bottom
        } else {
            other_bottom
        };
        Rect { x, y, width: right - x, height: bottom - y }
    }

    /// Normalized corner form: `start` at the top-left, `end` one past the
    /// bottom-right.
    pub fn to_extents(self) -> (e: Extents)
        requires
            self.loose(),
        ensures
            e.start_x == self.x,
            e.start_y == self.y,
            e.end_x == self.right(),
            e.end_y == self.bottom(),
    {
        Extents {
            start_x: self.x,
            start_y: self.y,
            end_x: self.x + self.width,
            end_y: self.y + self.height,
        }
    }

    /// Grows `self` to the smallest rectangle containing both `self` and
    /// `other`; a default (zero) `self` simply adopts `other`, so the first
    /// monitor initializes a bounding area instead of being joined with the
    /// origin.
    pub fn extend(&mut self, other: &Rect)
        requires
            old(self).wf(),
            other.wf(),
        ensures
            *old(self) == (Rect { x: 0, y: 0, width: 0, height: 0 }) ==> *final(self) == *other,
            *old(self) != (Rect { x: 0, y: 0, width: 0, height: 0 }) ==> {
                &&& final(self).x == min(old(self).x as int, other.x as int)
                &&& final(self).y == min(old(self).y as int, other.y as int)
                &&& final(self).right() == max(old(self).right(), other.right())
                &&& final(self).bottom() == max(old(self).bottom(), other.bottom())
            },
            final(self).wf(),
    {
        if *self == Rect::default() {
            *self = *other;
            return ;
        }
        let x = if self.x < other.x {
            self.x
        } else {
            other.x
        };
        let y = if self.y < other.y {
            self.y
        } else {
            other.y
        };
        let self_right = self.x + self.width;
        let other_right = other.x + other.width;
        let right = if self_right > other_right {
            self_right
        } else {
            other_right
        };
        let self_bottom = self.y + self.height;
        let other_bottom = other.y + other.height;
        let bottom = if self_bottom > other_bottom {
            self_bottom
        } else {
            other_bottom
        };
        *self = Rect { x, y, width: right - x, height: bottom - y };
    }

    /// Clips `self` to fit inside `area`: `None` when the two do not
    /// intersect, else the overlap rectangle, which lies fully inside
    /// `area`.
    pub fn constrain(&self, area: &Rect) -> (r: Option<Rect>)
        requires
            self.loose(),
            area.loose(),
        ensures
            r is None <==> !self.spec_intersects(*area),
            r is Some ==> {
                &&& r->0.x >= area.x
                &&& r->0.y >= area.y
                &&& r->0.right() <= area.right()
                &&& r->0.bottom() <= area.bottom()
                &&& r->0.width > 0
                &&& r->0.height > 0
                &&& forall|px: int, py: int|
                    #[trigger] r->0.covers(px, py) <==> self.covers(px, py) && area.covers(
                        px,
                        py,
                    )
                &&& area.wf() ==> r->0.wf()
            },
    {
        if !self.intersects(area) {
            None
        } else {
            Some(self.intersecting_rect(area))
        }
    }
}

impl Extents {
    /// All four coordinates within [`COORD_LIMIT`].
    pub open spec fn wf(self) -> bool {
        &&& in_range(self.start_x as int)
        &&& in_range(self.start_y as int)
        &&& in_range(self.end_x as int)
        &&& in_range(self.end_y as int)
    }

    /// Loosely bounded: coordinates within three times [`COORD_LIMIT`],
    /// as a well-formed extents translated by an in-range drag offset may
    /// be. Normalizing still fits comfortably in an `i32`.
    pub open spec fn loose(self) -> bool {
        &&& -3 * (COORD_LIMIT as int) <= self.start_x <= 3 * (COORD_LIMIT as int)
        &&& -3 * (COORD_LIMIT as int) <= self.start_y <= 3 * (COORD_LIMIT as int)
        &&& -3 * (COORD_LIMIT as int) <= self.end_x <= 3 * (COORD_LIMIT as int)
        &&& -3 * (COORD_LIMIT as int) <= self.end_y <= 3 * (COORD_LIMIT as int)
    }

    /// The pixel-coverage model of the normalized rectangle of `self`:
    /// the half-open box of [`Extents::to_rect`]'s result.
    pub open spec fn norm_covers(self, px: int, py: int) -> bool {
        &&& self.norm_x() <= px < self.norm_x() + self.norm_width()
        &&& self.norm_y() <= py < self.norm_y() + self.norm_height()
    }

    /// The x coordinate of the normalized left edge.
    pub open spec fn norm_x(self) -> int {
        min(self.start_x as int, self.end_x as int)
    }

    /// The y coordinate of the normalized top edge.
    pub open spec fn norm_y(self) -> int {
        min(self.start_y as int, self.end_y as int)
    }

    /// The width of the normalized rectangle.
    pub open spec fn norm_width(self) -> int {
        max(self.start_x as int, self.end_x as int) - self.norm_x()
    }

    /// The height of the normalized rectangle.
    pub open spec fn norm_height(self) -> int {
        max(self.start_y as int, self.end_y as int) - self.norm_y()
    }

    /// Normalizes to a [`Rect`] by swapping the corners per axis, so the
    /// result always has non-negative width and height. Which corner was
    /// the drag anchor is discarded: `to_rect().to_extents()` need not give
    /// back the original extents.
    pub fn to_rect(self) -> (r: Rect)
        requires
            self.loose(),
        ensures
            r.x == self.norm_x(),
            r.y == self.norm_y(),
            r.width == self.norm_width(),
            r.height == self.norm_height(),
            r.width >= 0,
            r.height >= 0,
            self.wf() ==> r.wf(),
            forall|px: int, py: int| #[trigger] r.covers(px, py) == self.norm_covers(px, py),
    {
        let (x, width) = if self.start_x < self.end_x {
            (self.start_x, self.end_x - self.start_x)
        } else {
            (self.end_x, self.start_x - self.end_x)
        };
        let (y, height) = if self.start_y < self.end_y {
            (self.start_y, self.end_y - self.start_y)
        } else {
            (self.end_y, self.start_y - self.end_y)
        };
        Rect { x, y, width, height }
    }

    /// Normalizes to a [`Rect`] and then moves its origin (never its size)
    /// the least amount that keeps the whole rectangle inside `area`.
    /// Unlike [`Rect::constrain`] this only repositions.
    pub fn to_rect_clamped(self, area: &Rect) -> (r: Rect)
        requires
            self.loose(),
            area.wf(),
            self.norm_width() <= area.width,
            self.norm_height() <= area.height,
        ensures
            r.width == self.norm_width(),
            r.height == self.norm_height(),
            r.x == clamped(self.norm_x(), area.x as int, area.right() - self.norm_width()),
            r.y == clamped(self.norm_y(), area.y as int, area.bottom() - self.norm_height()),
            r.x >= area.x,
            r.y >= area.y,
            r.right() <= area.right(),
            r.bottom() <= area.bottom(),
            r.wf(),
    {
        let mut rect = self.to_rect();
        rect.x = clamp_i32(rect.x, area.x, area.x + area.width - rect.width);
        rect.y = clamp_i32(rect.y, area.y, area.y + area.height - rect.height);
        rect
    }
}

/// `v` pulled into the interval `[lo, hi]`.
pub open spec fn clamped(v: int, lo: int, hi: int) -> int {
    if v < lo {
        lo
    } else if v > hi {
        hi
    } else {
        v
    }
}

/// Executable counterpart of [`clamped`].
pub fn clamp_i32(v: i32, lo: i32, hi: i32) -> (r: i32)
    requires
        lo <= hi,
    ensures
        r == clamped(v as int, lo as int, hi as int),
{
    if v < lo {
        lo
    } else if v > hi {
        hi
    } else {
        v
    }
}

/// One of the circular hot-zones drawn around a drag handle.
#[derive(Debug, Clone, Copy, PartialEq, Eq, Structural)]
pub struct Circle {
    pub x: i32,
    pub y: i32,
    pub radius: i32,
}

impl Circle {
    pub fn new(x: i32, y: i32, radius: i32) -> (c: Circle)
        ensures
            c == (Circle { x, y, radius }),
    {
        Circle { x, y, radius }
    }
}

} // verus!
