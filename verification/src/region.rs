//! Region algebra on rectangles: set difference and symmetric difference,
//! used to compute the minimal repaint region between the previous and the
//! new selection geometry.
//!
//! Results are lists of rectangles whose union of covered pixels is exact,
//! but the pieces may overlap one another at shared corners: callers must
//! tolerate redundant coverage, not expect a disjoint tiling.

use vstd::prelude::*;

use crate::rect::Rect;

verus! {

/// Some rectangle of `rs` covers the pixel `(px, py)`.
pub open spec fn region_covers(rs: Seq<Rect>, px: int, py: int) -> bool {
    exists|i: int| 0 <= i < rs.len() && #[trigger] rs[i].covers(px, py)
}

/// Rectangles that do not intersect share no pixel.
pub proof fn lemma_no_intersect_disjoint(a: Rect, b: Rect)
    requires
        !a.spec_intersects(b),
    ensures
        forall|px: int, py: int| !(#[trigger] a.covers(px, py) && b.covers(px, py)),
{
}

proof fn lemma_region_covers_append(s1: Seq<Rect>, s2: Seq<Rect>)
    ensures
        forall|px: int, py: int|
            #[trigger] region_covers(s1 + s2, px, py) <==> region_covers(s1, px, py)
                || region_covers(s2, px, py),
{
    assert forall|px: int, py: int|
        #[trigger] region_covers(s1 + s2, px, py) <==> region_covers(s1, px, py) || region_covers(
        s2,
        px,
        py,
    ) by {
        if region_covers(s1 + s2, px, py) {
            let i = choose|i: int| 0 <= i < (s1 + s2).len() && #[trigger] (s1 + s2)[i].covers(
                px,
                py,
            );
            if i < s1.len() {
                assert(s1[i].covers(px, py));
            } else {
                assert(s2[i - s1.len()].covers(px, py));
            }
        }
        if region_covers(s1, px, py) {
            let i = choose|i: int| 0 <= i < s1.len() && #[trigger] s1[i].covers(px, py);
            assert((s1 + s2)[i].covers(px, py));
        }
        if region_covers(s2, px, py) {
            let i = choose|i: int| 0 <= i < s2.len() && #[trigger] s2[i].covers(px, py);
            assert((s1 + s2)[s1.len() + i].covers(px, py));
        }
    }
}

/// Appends `r` to the region when it has positive size; a degenerate `r`
/// covers no pixel and is dropped.
fn push_if_positive(v: &mut Vec<Rect>, r: Rect)
    ensures
        forall|px: int, py: int|
            #[trigger] region_covers(final(v)@, px, py) <==> region_covers(old(v)@, px, py)
                || r.covers(px, py),
        forall|i: int|
            0 <= i < final(v)@.len() ==> (#[trigger] final(v)@[i]) == r || (0 <= i < old(v)@.len()
                && final(v)@[i] == old(v)@[i]),
        final(v)@.len() >= old(v)@.len(),
        r.width > 0 && r.height > 0 ==> final(v)@ == old(v)@.push(r),
        !(r.width > 0 && r.height > 0) ==> final(v)@ == old(v)@,
{
    let ghost pre = v@;
    if r.width > 0 && r.height > 0 {
        v.push(r);
    }
    proof {
        assert forall|px: int, py: int|
            #[trigger] region_covers(v@, px, py) <==> region_covers(pre, px, py) || r.covers(
            px,
            py,
        ) by {
            if region_covers(v@, px, py) {
                let i = choose|i: int| 0 <= i < v@.len() && #[trigger] v@[i].covers(px, py);
                if i < pre.len() {
                    assert(pre[i].covers(px, py));
                }
            }
            if region_covers(pre, px, py) {
                let i = choose|i: int| 0 <= i < pre.len() && #[trigger] pre[i].covers(px, py);
                assert(v@[i].covers(px, py));
            }
            if r.covers(px, py) {
                assert(r.width > 0 && r.height > 0);
                assert(v@[pre.len() as int].covers(px, py));
            }
        }
    }
}

impl Rect {
    /// Up to four rectangles (top, bottom, left and right strip) covering
    /// exactly the pixels of `self` that are not pixels of `other`. The
    /// strips may overlap at corners.
    pub fn subtract(&self, other: &Rect) -> (v: Vec<Rect>)
        requires
            self.loose(),
            other.loose(),
        ensures
            forall|px: int, py: int|
                region_covers(v@, px, py) <==> #[trigger] self.covers(px, py) && !other.covers(
                    px,
                    py,
                ),
            forall|i: int|
                0 <= i < v@.len() ==> (#[trigger] v@[i]).width > 0 && v@[i].height > 0,
            self.wf() ==> forall|i: int| 0 <= i < v@.len() ==> (#[trigger] v@[i]).wf(),
    {
        let mut v: Vec<Rect> = Vec::new();
        if !self.intersects(other) {
            push_if_positive(&mut v, *self);
            proof {
                lemma_no_intersect_disjoint(*self, *other);
            }
            return v;
        }
        let mid = self.intersecting_rect(other);
        let top = Rect { x: self.x, y: self.y, width: self.width, height: mid.y - self.y };
        let bottom = Rect {
            x: self.x,
            y: mid.y + mid.height,
            width: self.width,
            height: (self.y + self.height) - (mid.y + mid.height),
        };
        let left = Rect { x: self.x, y: self.y, width: mid.x - self.x, height: self.height };
        let right = Rect {
            x: mid.x + mid.width,
            y: self.y,
            width: (self.x + self.width) - (mid.x + mid.width),
            height: self.height,
        };
        push_if_positive(&mut v, top);
        push_if_positive(&mut v, bottom);
        push_if_positive(&mut v, left);
        push_if_positive(&mut v, right);
        proof {
            assert forall|px: int, py: int|
                region_covers(v@, px, py) <==> #[trigger] self.covers(px, py) && !other.covers(
                    px,
                    py,
                ) by {
                assert(region_covers(v@, px, py) <==> top.covers(px, py) || bottom.covers(px, py)
                    || left.covers(px, py) || right.covers(px, py));
                assert(self.covers(px, py) && other.covers(px, py) <==> mid.covers(px, py));
            }
        }
        v
    }

    /// The symmetric difference of the two rectangles' pixel sets: both
    /// rectangles verbatim when they do not intersect, else the strips of
    /// each one outside their overlap. A pixel inside both or inside
    /// neither is claimed by no piece of the result.
    pub fn xor(&self, other: &Rect) -> (v: Vec<Rect>)
        requires
            self.loose(),
            other.loose(),
        ensures
            forall|px: int, py: int|
                region_covers(v@, px, py) <==> (#[trigger] self.covers(px, py) != other.covers(
                    px,
                    py,
                )),
            self.width > 0 && self.height > 0 && other.width > 0 && other.height > 0
                ==> forall|i: int|
                0 <= i < v@.len() ==> (#[trigger] v@[i]).width > 0 && v@[i].height > 0,
            self.wf() && other.wf() ==> forall|i: int| 0 <= i < v@.len() ==> (#[trigger] v@[i]).wf(),
    {
        if !self.intersects(other) {
            proof {
                lemma_no_intersect_disjoint(*self, *other);
            }
            let mut v: Vec<Rect> = Vec::new();
            v.push(*self);
            v.push(*other);
            proof {
                assert forall|px: int, py: int|
                    region_covers(v@, px, py) <==> (#[trigger] self.covers(px, py)
                        != other.covers(px, py)) by {
                    if self.covers(px, py) {
                        assert(v@[0].covers(px, py));
                    }
                    if other.covers(px, py) {
                        assert(v@[1].covers(px, py));
                    }
                    if region_covers(v@, px, py) {
                        let i = choose|i: int| 0 <= i < v@.len() && #[trigger] v@[i].covers(
                            px,
                            py,
                        );
                        assert(v@[i] == *self || v@[i] == *other);
                    }
                }
            }
            return v;
        }
        let mid = self.intersecting_rect(other);
        let mut v = self.subtract(&mid);
        let mut w = other.subtract(&mid);
        let ghost v_part = v@;
        let ghost w_part = w@;
        v.append(&mut w);
        proof {
            lemma_region_covers_append(v_part, w_part);
            assert(v@ == v_part + w_part);
        }
        v
    }
}

/// The symmetric difference of two positive-size rectangles is empty
/// exactly when the rectangles are equal: any rectangle list that covers
/// it with positive-size pieces (as [`Rect::xor`] produces) is empty iff
/// the two inputs coincide.
pub proof fn lemma_xor_empty_iff_eq(a: Rect, b: Rect, v: Seq<Rect>)
    requires
        a.width > 0,
        a.height > 0,
        b.width > 0,
        b.height > 0,
        forall|px: int, py: int|
            region_covers(v, px, py) <==> (#[trigger] a.covers(px, py) != b.covers(px, py)),
        forall|i: int| 0 <= i < v.len() ==> (#[trigger] v[i]).width > 0 && v[i].height > 0,
    ensures
        v.len() == 0 <==> a == b,
{
    if v.len() == 0 {
        assert(forall|px: int, py: int| !region_covers(v, px, py));
        assert(a.covers(a.x as int, a.y as int));
        assert(b.covers(b.x as int, b.y as int));
        assert(b.covers(a.x as int, a.y as int));
        assert(a.covers(b.x as int, b.y as int));
        assert(a.x == b.x && a.y == b.y);
        if a.right() < b.right() {
            assert(!a.covers(a.right(), a.y as int));
            assert(b.covers(a.right(), a.y as int));
            assert(region_covers(v, a.right(), a.y as int));
        }
        if b.right() < a.right() {
            assert(a.covers(b.right(), a.y as int));
            assert(!b.covers(b.right(), a.y as int));
            assert(region_covers(v, b.right(), a.y as int));
        }
        if a.bottom() < b.bottom() {
            assert(!a.covers(a.x as int, a.bottom()));
            assert(b.covers(a.x as int, a.bottom()));
            assert(region_covers(v, a.x as int, a.bottom()));
        }
        if b.bottom() < a.bottom() {
            assert(a.covers(a.x as int, b.bottom()));
            assert(!b.covers(a.x as int, b.bottom()));
            assert(region_covers(v, a.x as int, b.bottom()));
        }
        assert(a == b);
    } else {
        assert(v[0].covers(v[0].x as int, v[0].y as int));
        assert(region_covers(v, v[0].x as int, v[0].y as int));
        assert(a.covers(v[0].x as int, v[0].y as int) != b.covers(v[0].x as int, v[0].y as int));
        assert(a != b);
    }
}

} // verus!
