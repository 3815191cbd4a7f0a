//! Coordinate-space conversions and point/rectangle predicates.
//!
//! Three coordinate spaces exist: *global* (desktop-wide), *local*
//! (relative to one monitor's origin) and *render* (normalized device
//! coordinates). Conversions between global and local are integer
//! translations and are verified here; the render-space conversion is
//! floating point and is declared only, for the rendering layer to
//! implement on its own types.

use vstd::prelude::*;

use crate::rect::{in_range, in_wide_range, Extents, Rect};

verus! {

/// Conversion from global coordinates into the local space of the monitor
/// occupying `rect`.
pub trait ToLocal<T> {
    /// When the conversion is free of overflow.
    spec fn to_local_req(&self, rect: &Rect) -> bool;

    /// The converted value.
    spec fn spec_to_local(&self, rect: &Rect) -> T;

    fn to_local(&self, rect: &Rect) -> (r: T)
        requires
            self.to_local_req(rect),
        ensures
            r == self.spec_to_local(rect),
    ;
}

/// Conversion from coordinates local to the monitor occupying `rect` into
/// global coordinates: input events are reported relative to whichever
/// surface received them and must be normalized before being compared
/// across monitors.
pub trait ToGlobal<T> {
    /// When the conversion is free of overflow.
    spec fn to_global_req(&self, rect: &Rect) -> bool;

    /// The converted value.
    spec fn spec_to_global(&self, rect: &Rect) -> T;

    fn to_global(&self, rect: &Rect) -> (r: T)
        requires
            self.to_global_req(rect),
        ensures
            r == self.spec_to_global(rect),
    ;
}

/// Conversion into normalized render space. Render space is floating
/// point, so no implementation lives in this crate: the rendering layer
/// implements the trait for its own float-valued types.
pub trait ToRender<T, U> {
    fn to_render(&self, width: U, height: U) -> T;
}

/// Euclidean distance, rounded down to an integer.
pub trait DistanceTo<T> {
    /// When the distance can be computed without overflow.
    spec fn distance_req(&self, other: &(T, T)) -> bool;

    /// What the returned distance means.
    spec fn distance_post(&self, other: &(T, T), r: T) -> bool;

    fn distance_to(&self, other: &(T, T)) -> (r: T)
        requires
            self.distance_req(other),
        ensures
            self.distance_post(other, r),
    ;
}

/// Inclusive membership test: a point exactly on the boundary counts as
/// inside, so a pointer on a selection's edge still grabs it.
pub trait Contains<T> {
    /// When the test is free of overflow.
    spec fn contains_req(&self, item: &T) -> bool;

    /// The membership relation decided by `contains`.
    spec fn spec_contains(&self, item: &T) -> bool;

    fn contains(&self, item: &T) -> (r: bool)
        requires
            self.contains_req(item),
        ensures
            r == self.spec_contains(item),
    ;
}

/// Symmetric growing (or, for negative amounts, shrinking) of a rectangle
/// on all four sides, with the size floored at zero.
pub trait Padded<T> {
    /// When the padding is free of overflow.
    spec fn padded_req(&self, amount: T) -> bool;

    /// The padded rectangle.
    spec fn spec_padded(&self, amount: T) -> Rect;

    fn padded(&self, amount: T) -> (r: Rect)
        requires
            self.padded_req(amount),
        ensures
            r == self.spec_padded(amount),
    ;
}

impl ToLocal<Extents> for Extents {
    open spec fn to_local_req(&self, rect: &Rect) -> bool {
        self.wf() && rect.loose()
    }

    open spec fn spec_to_local(&self, rect: &Rect) -> Extents {
        Extents {
            start_x: (self.start_x - rect.x) as i32,
            start_y: (self.start_y - rect.y) as i32,
            end_x: (self.end_x - rect.x) as i32,
            end_y: (self.end_y - rect.y) as i32,
        }
    }

    fn to_local(&self, rect: &Rect) -> (r: Extents) {
        Extents {
            start_x: self.start_x - rect.x,
            start_y: self.start_y - rect.y,
            end_x: self.end_x - rect.x,
            end_y: self.end_y - rect.y,
        }
    }
}

impl ToLocal<Rect> for Rect {
    open spec fn to_local_req(&self, rect: &Rect) -> bool {
        self.loose() && rect.loose()
    }

    open spec fn spec_to_local(&self, rect: &Rect) -> Rect {
        Rect {
            x: (self.x - rect.x) as i32,
            y: (self.y - rect.y) as i32,
            width: self.width,
            height: self.height,
        }
    }

    fn to_local(&self, rect: &Rect) -> (r: Rect) {
        Rect { x: self.x - rect.x, y: self.y - rect.y, width: self.width, height: self.height }
    }
}

impl ToLocal<(i32, i32)> for (i32, i32) {
    open spec fn to_local_req(&self, rect: &Rect) -> bool {
        in_wide_range(self.0 as int) && in_wide_range(self.1 as int) && rect.loose()
    }

    open spec fn spec_to_local(&self, rect: &Rect) -> (i32, i32) {
        ((self.0 - rect.x) as i32, (self.1 - rect.y) as i32)
    }

    fn to_local(&self, rect: &Rect) -> (r: (i32, i32)) {
        (self.0 - rect.x, self.1 - rect.y)
    }
}

impl ToGlobal<(i32, i32)> for (i32, i32) {
    open spec fn to_global_req(&self, rect: &Rect) -> bool {
        in_wide_range(self.0 as int) && in_wide_range(self.1 as int) && rect.loose()
    }

    open spec fn spec_to_global(&self, rect: &Rect) -> (i32, i32) {
        ((self.0 + rect.x) as i32, (self.1 + rect.y) as i32)
    }

    fn to_global(&self, rect: &Rect) -> (r: (i32, i32)) {
        (self.0 + rect.x, self.1 + rect.y)
    }
}

/// The squared Euclidean distance between two points.
pub open spec fn dist_sq(a: (i32, i32), b: (i32, i32)) -> int {
    (b.0 - a.0) * (b.0 - a.0) + (b.1 - a.1) * (b.1 - a.1)
}

impl DistanceTo<i32> for (i32, i32) {
    open spec fn distance_req(&self, other: &(i32, i32)) -> bool {
        &&& in_range(self.0 as int)
        &&& in_range(self.1 as int)
        &&& in_range(other.0 as int)
        &&& in_range(other.1 as int)
    }

    /// `r` is the Euclidean distance rounded down: the unique integer with
    /// `r^2 <= dist_sq < (r+1)^2`.
    open spec fn distance_post(&self, other: &(i32, i32), r: i32) -> bool {
        &&& r >= 0
        &&& r * r <= dist_sq(*self, *other)
        &&& dist_sq(*self, *other) < (r + 1) * (r + 1)
    }

    fn distance_to(&self, other: &(i32, i32)) -> (r: i32) {
        let dx = other.0 as i64 - self.0 as i64;
        let dy = other.1 as i64 - self.1 as i64;
        proof {
            assert(dx * dx + dy * dy == dist_sq(*self, *other)) by (nonlinear_arith)
                requires
                    dx == other.0 - self.0,
                    dy == other.1 - self.1,
            ;
            assert(0 <= dx * dx < 0x800_0000_0000_0000 && 0 <= dy * dy < 0x800_0000_0000_0000)
                by (nonlinear_arith)
                requires
                    -0x2000_0001 < dx < 0x2000_0001,
                    -0x2000_0001 < dy < 0x2000_0001,
            ;
        }
        let sq = (dx * dx + dy * dy) as u64;
        let root = isqrt_u64(sq);
        proof {
            assert(root < 0x8000_0000) by (nonlinear_arith)
                requires
                    root * root <= sq,
                    sq < 0x1000_0000_0000_0000,
                    root >= 0,
            ;
        }
        root as i32
    }
}

/// Integer square root, rounded down: the unique `r` with
/// `r^2 <= n < (r+1)^2`, found by binary search.
pub fn isqrt_u64(n: u64) -> (r: u64)
    ensures
        r * r <= n,
        n < (r + 1) * (r + 1),
{
    let mut lo: u64 = 0;
    let mut hi: u64 = 0x1_0000_0000;
    proof {
        assert(hi * hi > n) by (nonlinear_arith)
            requires
                hi == 0x1_0000_0000,
                n < 0xFFFF_FFFF_FFFF_FFFF + 1,
        ;
    }
    while lo + 1 < hi
        invariant
            lo < hi,
            hi <= 0x1_0000_0000,
            lo * lo <= n,
            n < hi * hi,
        decreases hi - lo,
    {
        let mid = lo + (hi - lo) / 2;
        proof {
            assert(mid * mid < 0x1_0000_0000_0000_0000) by (nonlinear_arith)
                requires
                    mid < 0x1_0000_0000,
            ;
        }
        if mid * mid <= n {
            lo = mid;
        } else {
            hi = mid;
        }
    }
    lo
}

impl Contains<(i32, i32)> for Rect {
    open spec fn contains_req(&self, item: &(i32, i32)) -> bool {
        self.loose()
    }

    open spec fn spec_contains(&self, item: &(i32, i32)) -> bool {
        &&& self.x <= item.0 <= self.right()
        &&& self.y <= item.1 <= self.bottom()
    }

    fn contains(&self, item: &(i32, i32)) -> (r: bool) {
        item.0 >= self.x && item.0 <= self.x + self.width && item.1 >= self.y && item.1 <= self.y
            + self.height
    }
}

impl Contains<Rect> for Rect {
    open spec fn contains_req(&self, item: &Rect) -> bool {
        self.loose() && item.loose()
    }

    open spec fn spec_contains(&self, item: &Rect) -> bool {
        &&& self.x <= item.x
        &&& self.y <= item.y
        &&& self.right() >= item.right()
        &&& self.bottom() >= item.bottom()
    }

    fn contains(&self, item: &Rect) -> (r: bool) {
        self.x <= item.x && self.y <= item.y && self.x + self.width >= item.x + item.width
            && self.y + self.height >= item.y + item.height
    }
}

impl Padded<i32> for Rect {
    open spec fn padded_req(&self, amount: i32) -> bool {
        self.loose() && in_range(amount as int)
    }

    open spec fn spec_padded(&self, amount: i32) -> Rect {
        Rect {
            x: (self.x - amount) as i32,
            y: (self.y - amount) as i32,
            width: if self.width + 2 * amount < 0 {
                0
            } else {
                (self.width + 2 * amount) as i32
            },
            height: if self.height + 2 * amount < 0 {
                0
            } else {
                (self.height + 2 * amount) as i32
            },
        }
    }

    fn padded(&self, amount: i32) -> (r: Rect) {
        let mut width = self.width + 2 * amount;
        let mut height = self.height + 2 * amount;
        if width < 0 {
            width = 0;
        }
        if height < 0 {
            height = 0;
        }
        Rect { x: self.x - amount, y: self.y - amount, width, height }
    }
}

/// Padding a rectangle outward and then back inward gives back the
/// original rectangle, provided the amount is non-negative and the
/// rectangle was well-formed away from the clamp-to-zero boundary
/// (both dimensions larger than twice the amount).
pub proof fn lemma_padded_round_trip(a: Rect, amount: i32)
    requires
        a.loose(),
        0 <= amount,
        in_range(amount as int),
        a.width > 2 * amount,
        a.height > 2 * amount,
    ensures
        a.spec_padded(amount).spec_padded((-amount) as i32) == a,
{
    assert(a.spec_padded(amount).spec_padded((-amount) as i32) == a);
}

} // verus!
