//! The selection engine: one context struct owning the selection state
//! machine and the damage accumulator, mutated synchronously by event
//! handlers.
//!
//! The host windowing layer is expected to call in this order: construct
//! the engine, register every monitor, optionally seed a selection, then
//! feed pointer and key events (already converted to engine-level values)
//! and consume the per-monitor damage lists after each change. The engine
//! never terminates on its own: it reports its decision through
//! [`ExitState`].
//!
//! Damage contract: after any state change, every pixel whose rendering
//! may have changed is covered by some rectangle of the affected
//! monitor's damage list (a superset of the changed pixels, never a
//! subset); the consumer clears a list once it has repainted.

use vstd::prelude::*;

use vstd::pervasive::unreached;

use crate::rect::{clamped, in_range, Extents, Rect, COORD_LIMIT};
use crate::region::region_covers;
use crate::selection::{
    find_handle, handles, spec_find_handle, spec_handles, DisplaySelection, RectangleSelection,
    Selection, SelectionModifier,
};
use crate::traits::{Contains, ToGlobal, ToLocal};
use crate::window::{FindWindowExt, WindowDescriptor, WindowSearchParam};

verus! {

/// What the engine has decided so far: keep running, abandon without a
/// result, or exit with the chosen rectangle in capture-pixel space
/// (already offset by the desktop area's origin).
#[derive(Debug, Clone, Copy, PartialEq, Eq, Structural)]
pub enum ExitState {
    Continue,
    ExitOnly,
    ExitWithSelection(Rect),
}

/// The keys the engine reacts to; every other key is `Other` and ignored.
#[derive(Debug, Clone, Copy, PartialEq, Eq, Structural)]
pub enum Key {
    Escape,
    Tab,
    Return,
    Other,
}

/// `r` lies inside the box of `area` (inclusive bounds).
pub open spec fn rect_in_area(r: Rect, area: Rect) -> bool {
    &&& area.x <= r.x
    &&& r.right() <= area.right()
    &&& area.y <= r.y
    &&& r.bottom() <= area.bottom()
}

/// All four corner coordinates of `e` lie inside the box of `area`.
pub open spec fn extents_in_area(e: Extents, area: Rect) -> bool {
    &&& area.x <= e.start_x <= area.right()
    &&& area.x <= e.end_x <= area.right()
    &&& area.y <= e.start_y <= area.bottom()
    &&& area.y <= e.end_y <= area.bottom()
}

/// The selection engine's context: all mutable state of one interactive
/// session, mutated only by the event handlers below.
pub struct Engine {
    /// Each monitor's rectangle in global coordinates; a monitor is
    /// identified by its index in this list.
    pub monitors: Vec<Rect>,
    /// The union bounding box of all monitors, maintained incrementally;
    /// it always contains every monitor rectangle.
    pub area: Rect,
    /// The current selection mode and pick.
    pub selection: Selection,
    /// Candidate windows for window mode, topmost first.
    pub windows: Vec<WindowDescriptor>,
    /// Hit-test radius around each drag handle, in pixels.
    pub handle_radius: i32,
    /// The engine's exit decision so far.
    pub exit: ExitState,
    /// Per monitor, the list of dirty rectangles in that monitor's local
    /// space, awaiting repaint.
    pub damage: Vec<Vec<Rect>>,
}

impl Engine {
    /// The selection's internal invariant: geometry well-formed and
    /// inside the desktop area, monitor picks in range.
    pub open spec fn selection_wf(&self) -> bool {
        match self.selection {
            Selection::Rectangle(opt) => match opt {
                Some(sel) => {
                    &&& sel.extents.wf()
                    &&& extents_in_area(sel.extents, self.area)
                    &&& match sel.modifier {
                        Some(SelectionModifier::Center(ax, ay, orig)) => {
                            &&& in_range(ax as int)
                            &&& in_range(ay as int)
                            &&& orig.wf()
                            &&& extents_in_area(orig, self.area)
                        },
                        _ => true,
                    }
                },
                None => true,
            },
            Selection::Display(opt) => match opt {
                Some(d) => d.monitor_index < self.monitors@.len(),
                None => true,
            },
            Selection::Window(opt) => match opt {
                Some(w) => w.rect.wf() && rect_in_area(w.rect, self.area),
                None => true,
            },
        }
    }

    /// No concrete pick exists in any mode.
    pub open spec fn no_pick(&self) -> bool {
        match self.selection {
            Selection::Rectangle(opt) => opt is None,
            Selection::Display(opt) => opt is None,
            Selection::Window(opt) => opt is None,
        }
    }

    /// The engine's invariant, established by the constructor and
    /// preserved by every event handler.
    pub open spec fn wf(&self) -> bool {
        &&& self.area.wf()
        &&& forall|i: int|
            0 <= i < self.monitors@.len() ==> (#[trigger] self.monitors@[i]).wf()
                && self.monitors@[i].width > 0 && self.monitors@[i].height > 0
        &&& forall|i: int|
            0 <= i < self.monitors@.len() ==> rect_in_area(#[trigger] self.monitors@[i], self.area)
        &&& self.monitors@.len() == 0 ==> self.area == (Rect { x: 0, y: 0, width: 0, height: 0 })
        &&& self.monitors@.len() == 0 ==> self.no_pick() && self.windows@.len() == 0
        &&& self.damage@.len() == self.monitors@.len()
        &&& forall|i: int, j: int|
            0 <= i < self.damage@.len() && 0 <= j < self.damage@[i]@.len() ==> (
            #[trigger] self.damage@[i]@[j]).loose()
        &&& 0 <= self.handle_radius <= COORD_LIMIT
        &&& forall|i: int|
            0 <= i < self.windows@.len() ==> (#[trigger] self.windows@[i]).rect.wf()
                && rect_in_area(self.windows@[i].rect, self.area)
        &&& self.selection_wf()
    }

    /// Everything but the selection, the exit decision and the damage
    /// lists is the same in both engines.
    pub open spec fn same_surroundings(&self, other: &Engine) -> bool {
        &&& self.monitors == other.monitors
        &&& self.area == other.area
        &&& self.windows == other.windows
        &&& self.handle_radius == other.handle_radius
    }

    /// Every damage rectangle recorded in `other` is still recorded, at
    /// the same position, in `self`.
    pub open spec fn damage_preserved(&self, other: &Engine) -> bool {
        &&& self.damage@.len() == other.damage@.len()
        &&& forall|i: int, j: int|
            0 <= i < other.damage@.len() && 0 <= j < other.damage@[i]@.len()
                ==> #[trigger] self.damage@[i]@[j] == other.damage@[i]@[j]
        &&& forall|i: int|
            0 <= i < other.damage@.len() ==> other.damage@[i]@.len() <= (
            #[trigger] self.damage@[i]@).len()
    }

    /// Monitor `i`'s damage list covers the global pixel `(px, py)`,
    /// expressed in that monitor's local space.
    pub open spec fn damage_covers_global(&self, i: int, px: int, py: int) -> bool {
        region_covers(self.damage@[i]@, px - self.monitors@[i].x, py - self.monitors@[i].y)
    }

    /// A fresh engine: no monitors, a default (zero) area, rectangle mode
    /// with nothing picked, not exiting.
    pub fn new(handle_radius: i32) -> (e: Engine)
        requires
            0 <= handle_radius <= COORD_LIMIT,
        ensures
            e.wf(),
            e.monitors@.len() == 0,
            e.area == (Rect { x: 0, y: 0, width: 0, height: 0 }),
            e.selection is Rectangle && e.selection->Rectangle_0 is None,
            e.windows@.len() == 0,
            e.handle_radius == handle_radius,
            e.exit == ExitState::Continue,
            e.damage@.len() == 0,
    {
        Engine {
            monitors: Vec::new(),
            area: Rect { x: 0, y: 0, width: 0, height: 0 },
            selection: Selection::Rectangle(None),
            windows: Vec::new(),
            handle_radius,
            exit: ExitState::Continue,
            damage: Vec::new(),
        }
    }

    /// Registers a monitor: extends the desktop area with its rectangle
    /// and queues an initial full-monitor repaint. Late-arriving monitors
    /// grow the area; existing geometry is not reclamped.
    pub fn add_monitor(&mut self, rect: Rect)
        requires
            old(self).wf(),
            rect.wf(),
            rect.width > 0,
            rect.height > 0,
        ensures
            final(self).wf(),
            final(self).monitors@ == old(self).monitors@.push(rect),
            final(self).selection == old(self).selection,
            final(self).windows == old(self).windows,
            final(self).handle_radius == old(self).handle_radius,
            final(self).exit == old(self).exit,
            rect_in_area(rect, final(self).area),
            rect_in_area(old(self).area, final(self).area) || old(self).monitors@.len() == 0,
            final(self).damage@.len() == old(self).damage@.len() + 1,
            forall|i: int|
                0 <= i < old(self).damage@.len() ==> #[trigger] final(self).damage@[i]
                    == old(self).damage@[i],
            final(self).damage@[old(self).damage@.len() as int]@ == seq![
                Rect { x: 0, y: 0, width: rect.width, height: rect.height },
            ],
    {
        proof {
            if old(self).monitors@.len() > 0 {
                assert(old(self).monitors@[0].width > 0);
                assert(rect_in_area(old(self).monitors@[0], old(self).area));
                assert(old(self).area != (Rect { x: 0, y: 0, width: 0, height: 0 }));
            }
        }
        self.area.extend(&rect);
        self.monitors.push(rect);
        let mut initial: Vec<Rect> = Vec::new();
        initial.push(Rect { x: 0, y: 0, width: rect.width, height: rect.height });
        self.damage.push(initial);
    }

    /// Hands out and clears one monitor's accumulated damage; the caller
    /// is about to repaint exactly those regions.
    pub fn take_damage(&mut self, monitor_index: usize) -> (v: Vec<Rect>)
        requires
            old(self).wf(),
            monitor_index < old(self).damage@.len(),
        ensures
            final(self).wf(),
            v == old(self).damage@[monitor_index as int],
            final(self).damage@.len() == old(self).damage@.len(),
            final(self).damage@[monitor_index as int]@.len() == 0,
            forall|i: int|
                0 <= i < old(self).damage@.len() && i != monitor_index
                    ==> #[trigger] final(self).damage@[i] == old(self).damage@[i],
            final(self).monitors == old(self).monitors,
            final(self).area == old(self).area,
            final(self).selection == old(self).selection,
            final(self).windows == old(self).windows,
            final(self).handle_radius == old(self).handle_radius,
            final(self).exit == old(self).exit,
    {
        let mut out: Vec<Rect> = Vec::new();
        core::mem::swap(&mut out, &mut self.damage[monitor_index]);
        out
    }

    /// Intersects every piece with every monitor and appends the
    /// non-empty intersections, in local space, to that monitor's damage
    /// list: afterwards each monitor's list covers every pixel of every
    /// piece that lies on that monitor.
    fn record_damage(&mut self, pieces: &Vec<Rect>)
        requires
            old(self).wf(),
            forall|k: int| 0 <= k < pieces@.len() ==> (#[trigger] pieces@[k]).loose(),
        ensures
            final(self).wf(),
            final(self).same_surroundings(old(self)),
            final(self).selection == old(self).selection,
            final(self).exit == old(self).exit,
            final(self).damage_preserved(old(self)),
            forall|i: int, k: int, px: int, py: int|
                0 <= i < final(self).monitors@.len() && 0 <= k < pieces@.len()
                    && #[trigger] pieces@[k].covers(px, py)
                    && #[trigger] final(self).monitors@[i].covers(px, py)
                    ==> final(self).damage_covers_global(i, px, py),
    {
        let ghost orig = *self;
        let mut i: usize = 0;
        while i < self.monitors.len()
            invariant
                self.wf(),
                self.monitors == orig.monitors,
                self.area == orig.area,
                self.selection == orig.selection,
                self.windows == orig.windows,
                self.handle_radius == orig.handle_radius,
                self.exit == orig.exit,
                0 <= i <= self.monitors@.len(),
                forall|k: int| 0 <= k < pieces@.len() ==> (#[trigger] pieces@[k]).loose(),
                self.damage_preserved(&orig),
                forall|i2: int, k: int, px: int, py: int|
                    0 <= i2 < i && 0 <= k < pieces@.len() && #[trigger] pieces@[k].covers(px, py)
                        && #[trigger] self.monitors@[i2].covers(px, py) ==> self
                        .damage_covers_global(i2, px, py),
            decreases self.monitors@.len() - i,
        {
            let mon = self.monitors[i];
            let mut row: Vec<Rect> = Vec::new();
            core::mem::swap(&mut row, &mut self.damage[i]);
            let ghost row_start = row@;
            let mut k: usize = 0;
            while k < pieces.len()
                invariant
                    0 <= k <= pieces@.len(),
                    mon.wf(),
                    forall|k2: int| 0 <= k2 < pieces@.len() ==> (#[trigger] pieces@[k2]).loose(),
                    forall|j: int| 0 <= j < row_start.len() ==> #[trigger] row@[j] == row_start[j],
                    row_start.len() <= row@.len(),
                    forall|j: int| 0 <= j < row@.len() ==> (#[trigger] row@[j]).loose(),
                    forall|k2: int, px: int, py: int|
                        0 <= k2 < k && #[trigger] pieces@[k2].covers(px, py) && mon.covers(px, py)
                            ==> region_covers(row@, px - mon.x, py - mon.y),
                decreases pieces@.len() - k,
            {
                let p = pieces[k];
                let ghost row_pre = row@;
                match p.constrain(&mon) {
                    Some(c) => {
                        let local = c.to_local(&mon);
                        row.push(local);
                        proof {
                            assert forall|px: int, py: int|
                                p.covers(px, py) && mon.covers(px, py) implies region_covers(
                                row@,
                                px - mon.x,
                                py - mon.y,
                            ) by {
                                assert(c.covers(px, py));
                                assert(row@[row_pre.len() as int].covers(px - mon.x, py - mon.y));
                            }
                            assert forall|px: int, py: int|
                                region_covers(row_pre, px, py) implies region_covers(
                                row@,
                                px,
                                py,
                            ) by {
                                let j = choose|j: int|
                                    0 <= j < row_pre.len() && #[trigger] row_pre[j].covers(px, py);
                                assert(row@[j].covers(px, py));
                            }
                        }
                    },
                    None => {
                        proof {
                            crate::region::lemma_no_intersect_disjoint(p, mon);
                        }
                    },
                }
                k += 1;
            }
            core::mem::swap(&mut row, &mut self.damage[i]);
            i += 1;
        }
    }

    /// Queues a full repaint of every monitor.
    fn invalidate_all(&mut self)
        requires
            old(self).wf(),
        ensures
            final(self).wf(),
            final(self).same_surroundings(old(self)),
            final(self).selection == old(self).selection,
            final(self).exit == old(self).exit,
            final(self).damage_preserved(old(self)),
            forall|i: int, px: int, py: int|
                0 <= i < final(self).monitors@.len()
                    && #[trigger] final(self).monitors@[i].covers(px, py)
                    ==> final(self).damage_covers_global(i, px, py),
    {
        let ghost orig = *self;
        let mut i: usize = 0;
        while i < self.monitors.len()
            invariant
                self.wf(),
                self.monitors == orig.monitors,
                self.area == orig.area,
                self.selection == orig.selection,
                self.windows == orig.windows,
                self.handle_radius == orig.handle_radius,
                self.exit == orig.exit,
                0 <= i <= self.monitors@.len(),
                self.damage_preserved(&orig),
                forall|i2: int, px: int, py: int|
                    0 <= i2 < i && #[trigger] self.monitors@[i2].covers(px, py) ==> self
                        .damage_covers_global(i2, px, py),
            decreases self.monitors@.len() - i,
        {
            let mon = self.monitors[i];
            let full = Rect { x: 0, y: 0, width: mon.width, height: mon.height };
            let ghost pre = self.damage@[i as int]@;
            self.damage[i].push(full);
            proof {
                assert forall|px: int, py: int| mon.covers(px, py) implies region_covers(
                    self.damage@[i as int]@,
                    px - mon.x,
                    py - mon.y,
                ) by {
                    assert(self.damage@[i as int]@[pre.len() as int].covers(
                        px - mon.x,
                        py - mon.y,
                    ));
                }
            }
            i += 1;
        }
    }
}

/// How a motion event at global position `(gx, gy)` reshapes a dragged
/// selection's extents: with no modifier the free corner follows the
/// pointer; an edge or corner modifier moves only its coordinates; the
/// `Center` modifier translates the grab-time snapshot by the total
/// pointer offset and then clamps the resulting rectangle's origin into
/// the desktop area.
pub open spec fn motion_extents(
    e: Extents,
    m: Option<SelectionModifier>,
    gx: i32,
    gy: i32,
    area: Rect,
) -> Extents {
    match m {
        Option::None => Extents {
            start_x: e.start_x,
            start_y: e.start_y,
            end_x: gx,
            end_y: gy,
        },
        Option::Some(SelectionModifier::Left) => Extents {
            start_x: gx,
            start_y: e.start_y,
            end_x: e.end_x,
            end_y: e.end_y,
        },
        Option::Some(SelectionModifier::Right) => Extents {
            start_x: e.start_x,
            start_y: e.start_y,
            end_x: gx,
            end_y: e.end_y,
        },
        Option::Some(SelectionModifier::Top) => Extents {
            start_x: e.start_x,
            start_y: gy,
            end_x: e.end_x,
            end_y: e.end_y,
        },
        Option::Some(SelectionModifier::Bottom) => Extents {
            start_x: e.start_x,
            start_y: e.start_y,
            end_x: e.end_x,
            end_y: gy,
        },
        Option::Some(SelectionModifier::TopRight) => Extents {
            start_x: e.start_x,
            start_y: gy,
            end_x: gx,
            end_y: e.end_y,
        },
        Option::Some(SelectionModifier::BottomRight) => Extents {
            start_x: e.start_x,
            start_y: e.start_y,
            end_x: gx,
            end_y: gy,
        },
        Option::Some(SelectionModifier::BottomLeft) => Extents {
            start_x: gx,
            start_y: e.start_y,
            end_x: e.end_x,
            end_y: gy,
        },
        Option::Some(SelectionModifier::TopLeft) => Extents {
            start_x: gx,
            start_y: gy,
            end_x: e.end_x,
            end_y: e.end_y,
        },
        Option::Some(SelectionModifier::Center(ax, ay, orig)) => {
            let t = Extents {
                start_x: (orig.start_x - ax + gx) as i32,
                start_y: (orig.start_y - ay + gy) as i32,
                end_x: (orig.end_x - ax + gx) as i32,
                end_y: (orig.end_y - ay + gy) as i32,
            };
            let cx = clamped(t.norm_x(), area.x as int, area.right() - t.norm_width());
            let cy = clamped(t.norm_y(), area.y as int, area.bottom() - t.norm_height());
            Extents {
                start_x: cx as i32,
                start_y: cy as i32,
                end_x: (cx + t.norm_width()) as i32,
                end_y: (cy + t.norm_height()) as i32,
            }
        },
    }
}

/// The padded hit-box around one handle: a square of twice the handle
/// radius centered on the handle position.
pub open spec fn handle_box(h: (i32, i32, SelectionModifier), radius: i32) -> Rect {
    Rect {
        x: (h.0 - radius) as i32,
        y: (h.1 - radius) as i32,
        width: (2 * radius) as i32,
        height: (2 * radius) as i32,
    }
}

/// Some padded handle hit-box of `e` covers the pixel `(px, py)`.
pub open spec fn handle_boxes_cover(e: Extents, radius: i32, px: int, py: int) -> bool {
    exists|k: int| 0 <= k < 8 && #[trigger] handle_box(spec_handles(e)[k], radius).covers(px, py)
}

impl Engine {
    /// Applies one motion event to a dragged selection's extents.
    fn apply_motion(e: Extents, m: Option<SelectionModifier>, gx: i32, gy: i32, area: &Rect) -> (r:
        Extents)
        requires
            e.wf(),
            area.wf(),
            extents_in_area(e, *area),
            in_range(gx as int),
            in_range(gy as int),
            area.x <= gx <= area.right(),
            area.y <= gy <= area.bottom(),
            match m {
                Option::Some(SelectionModifier::Center(ax, ay, orig)) => {
                    &&& in_range(ax as int)
                    &&& in_range(ay as int)
                    &&& orig.wf()
                    &&& extents_in_area(orig, *area)
                },
                _ => true,
            },
        ensures
            r == motion_extents(e, m, gx, gy, *area),
            r.wf(),
            extents_in_area(r, *area),
    {
        match m {
            Option::None => Extents {
                start_x: e.start_x,
                start_y: e.start_y,
                end_x: gx,
                end_y: gy,
            },
            Option::Some(SelectionModifier::Left) => Extents {
                start_x: gx,
                start_y: e.start_y,
                end_x: e.end_x,
                end_y: e.end_y,
            },
            Option::Some(SelectionModifier::Right) => Extents {
                start_x: e.start_x,
                start_y: e.start_y,
                end_x: gx,
                end_y: e.end_y,
            },
            Option::Some(SelectionModifier::Top) => Extents {
                start_x: e.start_x,
                start_y: gy,
                end_x: e.end_x,
                end_y: e.end_y,
            },
            Option::Some(SelectionModifier::Bottom) => Extents {
                start_x: e.start_x,
                start_y: e.start_y,
                end_x: e.end_x,
                end_y: gy,
            },
            Option::Some(SelectionModifier::TopRight) => Extents {
                start_x: e.start_x,
                start_y: gy,
                end_x: gx,
                end_y: e.end_y,
            },
            Option::Some(SelectionModifier::BottomRight) => Extents {
                start_x: e.start_x,
                start_y: e.start_y,
                end_x: gx,
                end_y: gy,
            },
            Option::Some(SelectionModifier::BottomLeft) => Extents {
                start_x: gx,
                start_y: e.start_y,
                end_x: e.end_x,
                end_y: gy,
            },
            Option::Some(SelectionModifier::TopLeft) => Extents {
                start_x: gx,
                start_y: gy,
                end_x: e.end_x,
                end_y: e.end_y,
            },
            Option::Some(SelectionModifier::Center(ax, ay, orig)) => {
                let translated = Extents {
                    start_x: orig.start_x - (ax - gx),
                    start_y: orig.start_y - (ay - gy),
                    end_x: orig.end_x - (ax - gx),
                    end_y: orig.end_y - (ay - gy),
                };
                translated.to_rect_clamped(area).to_extents()
            },
        }
    }

    /// The repaint region of one motion step: the symmetric difference of
    /// the old and new selection rectangles, plus the padded hit-boxes of
    /// the new extents' eight handles.
    fn selection_change_regions(old_e: &Extents, new_e: &Extents, radius: i32) -> (v: Vec<Rect>)
        requires
            old_e.wf(),
            new_e.wf(),
            0 <= radius <= COORD_LIMIT,
        ensures
            forall|k: int| 0 <= k < v@.len() ==> (#[trigger] v@[k]).loose(),
            forall|px: int, py: int|
                (#[trigger] old_e.norm_covers(px, py) != #[trigger] new_e.norm_covers(px, py))
                    ==> region_covers(v@, px, py),
            forall|px: int, py: int|
                handle_boxes_cover(*new_e, radius, px, py) ==> region_covers(v@, px, py),
    {
        let old_rect = old_e.to_rect();
        let new_rect = new_e.to_rect();
        let mut v = old_rect.xor(&new_rect);
        let ghost xor_part = v@;
        let hs = handles(new_e);
        let mut k: usize = 0;
        while k < hs.len()
            invariant
                hs@ == spec_handles(*new_e),
                new_e.wf(),
                0 <= radius <= COORD_LIMIT,
                0 <= k <= 8,
                forall|j: int| 0 <= j < v@.len() ==> (#[trigger] v@[j]).loose(),
                forall|px: int, py: int|
                    #[trigger] region_covers(xor_part, px, py) ==> region_covers(v@, px, py),
                forall|j: int, px: int, py: int|
                    0 <= j < k && #[trigger] handle_box(spec_handles(*new_e)[j], radius).covers(
                        px,
                        py,
                    ) ==> region_covers(v@, px, py),
            decreases 8 - k,
        {
            let h = hs[k];
            let hb = Rect { x: h.0 - radius, y: h.1 - radius, width: 2 * radius, height: 2
                * radius };
            let ghost pre = v@;
            v.push(hb);
            proof {
                assert(hb == handle_box(spec_handles(*new_e)[k as int], radius));
                assert forall|px: int, py: int|
                    #[trigger] region_covers(pre, px, py) implies region_covers(v@, px, py) by {
                    let j = choose|j: int| 0 <= j < pre.len() && #[trigger] pre[j].covers(px, py);
                    assert(v@[j].covers(px, py));
                }
                assert forall|px: int, py: int| #[trigger] hb.covers(px, py) implies region_covers(
                    v@,
                    px,
                    py,
                ) by {
                    assert(v@[pre.len() as int].covers(px, py));
                }
            }
            k += 1;
        }
        proof {
            assert forall|px: int, py: int|
                (#[trigger] old_e.norm_covers(px, py) != #[trigger] new_e.norm_covers(px, py))
                implies region_covers(v@, px, py) by {
                assert(old_rect.covers(px, py) != new_rect.covers(px, py));
                assert(region_covers(xor_part, px, py));
            }
        }
        v
    }

    /// A motion event while a rectangle selection is actively dragged
    /// reshapes it according to its modifier and queues repaint damage
    /// for the changed pixels and the handle hit-boxes; any other motion
    /// changes nothing.
    pub fn pointer_motion(&mut self, monitor_index: usize, local_pos: (i32, i32))
        requires
            old(self).wf(),
            monitor_index < old(self).monitors@.len(),
            0 <= local_pos.0 <= old(self).monitors@[monitor_index as int].width,
            0 <= local_pos.1 <= old(self).monitors@[monitor_index as int].height,
        ensures
            final(self).wf(),
            final(self).same_surroundings(old(self)),
            final(self).exit == old(self).exit,
            final(self).damage_preserved(old(self)),
            ({
                let gx = (local_pos.0 + old(self).monitors@[monitor_index as int].x) as i32;
                let gy = (local_pos.1 + old(self).monitors@[monitor_index as int].y) as i32;
                match old(self).selection {
                    Selection::Rectangle(Some(sel)) => {
                        if sel.active {
                            final(self).selection == Selection::Rectangle(
                                Some(
                                    RectangleSelection {
                                        extents: motion_extents(
                                            sel.extents,
                                            sel.modifier,
                                            gx,
                                            gy,
                                            old(self).area,
                                        ),
                                        modifier: sel.modifier,
                                        active: true,
                                    },
                                ),
                            )
                        } else {
                            final(self).selection == old(self).selection && final(self).damage
                                == old(self).damage
                        }
                    },
                    _ => final(self).selection == old(self).selection && final(self).damage == old(
                        self,
                    ).damage,
                }
            }),
            ({
                let gx = (local_pos.0 + old(self).monitors@[monitor_index as int].x) as i32;
                let gy = (local_pos.1 + old(self).monitors@[monitor_index as int].y) as i32;
                match old(self).selection {
                    Selection::Rectangle(Some(sel)) => sel.active ==> {
                        let new_e = motion_extents(sel.extents, sel.modifier, gx, gy, old(self).area);
                        &&& forall|i: int, px: int, py: int|
                            0 <= i < final(self).monitors@.len()
                                && #[trigger] final(self).monitors@[i].covers(px, py)
                                && (sel.extents.norm_covers(px, py) != new_e.norm_covers(px, py))
                                ==> final(self).damage_covers_global(i, px, py)
                        &&& forall|i: int, px: int, py: int|
                            0 <= i < final(self).monitors@.len()
                                && #[trigger] final(self).monitors@[i].covers(px, py)
                                && handle_boxes_cover(new_e, final(self).handle_radius, px, py)
                                ==> final(self).damage_covers_global(i, px, py)
                    },
                    _ => true,
                }
            }),
    {
        let mon = self.monitors[monitor_index];
        let global = local_pos.to_global(&mon);
        let sel_opt = match &self.selection {
            Selection::Rectangle(opt) => *opt,
            _ => None,
        };
        match sel_opt {
            Some(sel) => {
                if sel.active {
                    let new_e = Engine::apply_motion(
                        sel.extents,
                        sel.modifier,
                        global.0,
                        global.1,
                        &self.area,
                    );
                    self.selection = Selection::Rectangle(
                        Some(
                            RectangleSelection {
                                extents: new_e,
                                modifier: sel.modifier,
                                active: true,
                            },
                        ),
                    );
                    let pieces = Engine::selection_change_regions(
                        &sel.extents,
                        &new_e,
                        self.handle_radius,
                    );
                    self.record_damage(&pieces);
                    proof {
                        assert forall|i: int, px: int, py: int|
                            0 <= i < self.monitors@.len() && #[trigger] self.monitors@[i].covers(
                                px,
                                py,
                            ) && (sel.extents.norm_covers(px, py) != new_e.norm_covers(px, py))
                            implies self.damage_covers_global(i, px, py) by {
                            assert(region_covers(pieces@, px, py));
                            let k = choose|k: int|
                                0 <= k < pieces@.len() && #[trigger] pieces@[k].covers(px, py);
                        }
                        assert forall|i: int, px: int, py: int|
                            0 <= i < self.monitors@.len() && #[trigger] self.monitors@[i].covers(
                                px,
                                py,
                            ) && handle_boxes_cover(new_e, self.handle_radius, px, py) implies self
                            .damage_covers_global(i, px, py) by {
                            assert(region_covers(pieces@, px, py));
                            let k = choose|k: int|
                                0 <= k < pieces@.len() && #[trigger] pieces@[k].covers(px, py);
                        }
                    }
                }
            },
            None => {},
        }
    }

    /// A button press: in rectangle mode it grabs a handle, starts a
    /// center drag, or starts a fresh selection at the pointer; in
    /// display mode it picks the pressed monitor; in window mode it picks
    /// the topmost window under the pointer. Every press queues a full
    /// repaint.
    pub fn pointer_press(&mut self, monitor_index: usize, local_pos: (i32, i32))
        requires
            old(self).wf(),
            monitor_index < old(self).monitors@.len(),
            0 <= local_pos.0 <= old(self).monitors@[monitor_index as int].width,
            0 <= local_pos.1 <= old(self).monitors@[monitor_index as int].height,
        ensures
            final(self).wf(),
            final(self).same_surroundings(old(self)),
            final(self).exit == old(self).exit,
            final(self).damage_preserved(old(self)),
            forall|i: int, px: int, py: int|
                0 <= i < final(self).monitors@.len()
                    && #[trigger] final(self).monitors@[i].covers(px, py)
                    ==> final(self).damage_covers_global(i, px, py),
            ({
                let gx = (local_pos.0 + old(self).monitors@[monitor_index as int].x) as i32;
                let gy = (local_pos.1 + old(self).monitors@[monitor_index as int].y) as i32;
                let radius = old(self).handle_radius;
                match old(self).selection {
                    Selection::Rectangle(opt) => match opt {
                        Some(sel) => {
                            if spec_find_handle(sel.extents, (gx, gy), radius) is Some {
                                final(self).selection == Selection::Rectangle(
                                    Some(
                                        RectangleSelection {
                                            extents: sel.extents,
                                            modifier: spec_find_handle(sel.extents, (gx, gy), radius),
                                            active: true,
                                        },
                                    ),
                                )
                            } else if sel.extents.norm_x() <= gx <= sel.extents.norm_x()
                                + sel.extents.norm_width() && sel.extents.norm_y() <= gy
                                <= sel.extents.norm_y() + sel.extents.norm_height() {
                                final(self).selection == Selection::Rectangle(
                                    Some(
                                        RectangleSelection {
                                            extents: sel.extents,
                                            modifier: Some(
                                                SelectionModifier::Center(gx, gy, sel.extents),
                                            ),
                                            active: true,
                                        },
                                    ),
                                )
                            } else {
                                final(self).selection == Selection::Rectangle(
                                    Some(
                                        RectangleSelection {
                                            extents: Extents {
                                                start_x: gx,
                                                start_y: gy,
                                                end_x: gx,
                                                end_y: gy,
                                            },
                                            modifier: None,
                                            active: true,
                                        },
                                    ),
                                )
                            }
                        },
                        None => final(self).selection == Selection::Rectangle(
                            Some(
                                RectangleSelection {
                                    extents: Extents {
                                        start_x: gx,
                                        start_y: gy,
                                        end_x: gx,
                                        end_y: gy,
                                    },
                                    modifier: None,
                                    active: true,
                                },
                            ),
                        ),
                    },
                    Selection::Display(_) => final(self).selection == Selection::Display(
                        Some(DisplaySelection { monitor_index }),
                    ),
                    Selection::Window(_) => match final(self).selection {
                        Selection::Window(picked) => match picked {
                            Some(w) => exists|i: int|
                                {
                                    &&& 0 <= i < old(self).windows@.len()
                                    &&& w == old(self).windows@[i]
                                    &&& old(self).windows@[i].rect.spec_contains(&(gx, gy))
                                    &&& forall|j: int|
                                        0 <= j < i ==> !(#[trigger] old(
                                            self,
                                        ).windows@[j]).rect.spec_contains(&(gx, gy))
                                },
                            None => forall|i: int|
                                0 <= i < old(self).windows@.len() ==> !(#[trigger] old(
                                    self,
                                ).windows@[i]).rect.spec_contains(&(gx, gy)),
                        },
                        _ => false,
                    },
                }
            }),
    {
        let mon = self.monitors[monitor_index];
        let global = local_pos.to_global(&mon);
        let mut taken = Selection::Rectangle(None);
        core::mem::swap(&mut taken, &mut self.selection);
        match taken {
            Selection::Rectangle(opt) => {
                match opt {
                    Some(sel) => {
                        match find_handle(&sel.extents, global, self.handle_radius) {
                            Some(m) => {
                                self.selection = Selection::Rectangle(
                                    Some(
                                        RectangleSelection {
                                            extents: sel.extents,
                                            modifier: Some(m),
                                            active: true,
                                        },
                                    ),
                                );
                            },
                            None => {
                                if sel.extents.to_rect().contains(&global) {
                                    self.selection = Selection::Rectangle(
                                        Some(
                                            RectangleSelection {
                                                extents: sel.extents,
                                                modifier: Some(
                                                    SelectionModifier::Center(
                                                        global.0,
                                                        global.1,
                                                        sel.extents,
                                                    ),
                                                ),
                                                active: true,
                                            },
                                        ),
                                    );
                                } else {
                                    self.selection = Selection::Rectangle(
                                        Some(RectangleSelection::new(global.0, global.1)),
                                    );
                                }
                            },
                        }
                    },
                    None => {
                        self.selection = Selection::Rectangle(
                            Some(RectangleSelection::new(global.0, global.1)),
                        );
                    },
                }
            },
            Selection::Display(_) => {
                self.selection = Selection::Display(Some(DisplaySelection::new(monitor_index)));
            },
            Selection::Window(_) => {
                let picked = match self.windows.find_by_position(&global) {
                    Some(w) => Some(crate::window::clone_window(w)),
                    None => None,
                };
                self.selection = Selection::Window(picked);
            },
        }
        self.invalidate_all();
    }

    /// Releasing the button ends the drag: the selection stays where it
    /// is, no longer active and with no modifier.
    pub fn pointer_release(&mut self)
        requires
            old(self).wf(),
        ensures
            final(self).wf(),
            final(self).same_surroundings(old(self)),
            final(self).exit == old(self).exit,
            final(self).damage == old(self).damage,
            match old(self).selection {
                Selection::Rectangle(Some(sel)) => final(self).selection == Selection::Rectangle(
                    Some(
                        RectangleSelection { extents: sel.extents, modifier: None, active: false },
                    ),
                ),
                _ => final(self).selection == old(self).selection,
            },
    {
        let sel_opt = match &self.selection {
            Selection::Rectangle(opt) => *opt,
            _ => None,
        };
        match sel_opt {
            Some(sel) => {
                self.selection = Selection::Rectangle(
                    Some(
                        RectangleSelection { extents: sel.extents, modifier: None, active: false },
                    ),
                );
            },
            None => {},
        }
    }
}

/// The next mode in the Tab cycle, discarding any in-progress pick:
/// rectangle mode moves to display mode, display mode to window mode,
/// and leaving window mode flattens its pick into a rectangle selection.
pub open spec fn spec_mode_switch(s: Selection) -> Selection {
    match s {
        Selection::Rectangle(_) => Selection::Display(None),
        Selection::Display(_) => Selection::Window(None),
        Selection::Window(_) => s.spec_flattened(),
    }
}

impl Engine {
    /// A key press: Escape abandons, Tab switches mode (queueing a full
    /// repaint), Return commits the current pick as the exit rectangle in
    /// capture-pixel space; every other key is ignored.
    pub fn key_press(&mut self, key: Key)
        requires
            old(self).wf(),
        ensures
            final(self).wf(),
            final(self).same_surroundings(old(self)),
            final(self).damage_preserved(old(self)),
            key == Key::Escape ==> final(self).selection == old(self).selection && final(self).exit
                == ExitState::ExitOnly && final(self).damage == old(self).damage,
            key == Key::Other ==> final(self).selection == old(self).selection && final(self).exit
                == old(self).exit && final(self).damage == old(self).damage,
            key == Key::Tab ==> {
                &&& final(self).selection == spec_mode_switch(old(self).selection)
                &&& final(self).exit == old(self).exit
                &&& forall|i: int, px: int, py: int|
                    0 <= i < final(self).monitors@.len()
                        && #[trigger] final(self).monitors@[i].covers(px, py)
                        ==> final(self).damage_covers_global(i, px, py)
            },
            key == Key::Return ==> {
                &&& final(self).selection == old(self).selection
                &&& final(self).damage == old(self).damage
                &&& match old(self).selection.spec_flattened() {
                    Selection::Rectangle(Some(sel)) => final(self).exit
                        == ExitState::ExitWithSelection(
                        Rect {
                            x: (sel.extents.norm_x() - old(self).area.x) as i32,
                            y: (sel.extents.norm_y() - old(self).area.y) as i32,
                            width: sel.extents.norm_width() as i32,
                            height: sel.extents.norm_height() as i32,
                        },
                    ),
                    Selection::Display(Some(d)) => final(self).exit == ExitState::ExitWithSelection(
                        Rect {
                            x: (old(self).monitors@[d.monitor_index as int].x - old(self).area.x) as i32,
                            y: (old(self).monitors@[d.monitor_index as int].y - old(self).area.y) as i32,
                            width: old(self).monitors@[d.monitor_index as int].width,
                            height: old(self).monitors@[d.monitor_index as int].height,
                        },
                    ),
                    _ => final(self).exit == old(self).exit,
                }
            },
    {
        match key {
            Key::Escape => {
                self.exit = ExitState::ExitOnly;
            },
            Key::Tab => {
                let switched = match &self.selection {
                    Selection::Rectangle(_) => Selection::Display(None),
                    Selection::Display(_) => Selection::Window(None),
                    Selection::Window(_) => self.selection.flattened(),
                };
                self.selection = switched;
                self.invalidate_all();
            },
            Key::Return => {
                let flattened = self.selection.flattened();
                match flattened {
                    Selection::Rectangle(Some(sel)) => {
                        let rect = sel.extents.to_rect();
                        let translated = Rect {
                            x: rect.x - self.area.x,
                            y: rect.y - self.area.y,
                            width: rect.width,
                            height: rect.height,
                        };
                        self.exit = ExitState::ExitWithSelection(translated);
                    },
                    Selection::Display(Some(d)) => {
                        let mon = self.monitors[d.monitor_index];
                        let translated = Rect {
                            x: mon.x - self.area.x,
                            y: mon.y - self.area.y,
                            width: mon.width,
                            height: mon.height,
                        };
                        self.exit = ExitState::ExitWithSelection(translated);
                    },
                    Selection::Window(_) => {
                        let _: () = unreached();
                    },
                    _ => {},
                }
            },
            Key::Other => {},
        }
    }

    /// The monitor to crop the final rectangle from: the first monitor
    /// whose rectangle wholly contains it, together with the rectangle in
    /// that monitor's local space (each monitor keeps its own full-detail
    /// screenshot, so cropping from one monitor preserves clarity);
    /// `None` when the rectangle spans monitors or lies outside them all.
    pub fn crop_monitor(&self, rect: &Rect) -> (r: Option<(usize, Rect)>)
        requires
            self.wf(),
            rect.loose(),
        ensures
            match r {
                Some((i, local)) => {
                    &&& 0 <= i < self.monitors@.len()
                    &&& self.monitors@[i as int].spec_contains(rect)
                    &&& forall|j: int|
                        0 <= j < i ==> !(#[trigger] self.monitors@[j]).spec_contains(rect)
                    &&& local == (Rect {
                        x: (rect.x - self.monitors@[i as int].x) as i32,
                        y: (rect.y - self.monitors@[i as int].y) as i32,
                        width: rect.width,
                        height: rect.height,
                    })
                },
                None => forall|j: int|
                    0 <= j < self.monitors@.len() ==> !(#[trigger] self.monitors@[j]).spec_contains(
                        rect,
                    ),
            },
    {
        let mut i: usize = 0;
        while i < self.monitors.len()
            invariant
                self.wf(),
                rect.loose(),
                0 <= i <= self.monitors@.len(),
                forall|j: int| 0 <= j < i ==> !(#[trigger] self.monitors@[j]).spec_contains(rect),
            decreases self.monitors@.len() - i,
        {
            let mon = self.monitors[i];
            if mon.contains(rect) {
                return Some((i, rect.to_local(&mon)));
            }
            i += 1;
        }
        None
    }

    /// Whether `rect` can be stored by the engine: well-formed and inside
    /// the desktop area. The surrounding binary checks externally
    /// supplied rectangles (a parsed pre-seed, a window list) with this
    /// before seeding them.
    pub fn rect_fits(&self, rect: &Rect) -> (r: bool)
        requires
            self.wf(),
        ensures
            r == (rect.wf() && rect_in_area(*rect, self.area)),
    {
        rect.x >= -COORD_LIMIT && rect.x <= COORD_LIMIT && rect.y >= -COORD_LIMIT && rect.y
            <= COORD_LIMIT && rect.width >= 0 && rect.height >= 0 && rect.x <= COORD_LIMIT
            - rect.width && rect.y <= COORD_LIMIT - rect.height && rect.x >= self.area.x
            && rect.y >= self.area.y && rect.x + rect.width <= self.area.x + self.area.width
            && rect.y + rect.height <= self.area.y + self.area.height
    }

    /// Installs the candidate window list for window mode, topmost first.
    pub fn set_windows(&mut self, windows: Vec<WindowDescriptor>)
        requires
            old(self).wf(),
            old(self).monitors@.len() > 0,
            forall|i: int|
                0 <= i < windows@.len() ==> (#[trigger] windows@[i]).rect.wf() && rect_in_area(
                    windows@[i].rect,
                    old(self).area,
                ),
        ensures
            final(self).wf(),
            final(self).windows == windows,
            final(self).monitors == old(self).monitors,
            final(self).area == old(self).area,
            final(self).selection == old(self).selection,
            final(self).handle_radius == old(self).handle_radius,
            final(self).exit == old(self).exit,
            final(self).damage == old(self).damage,
    {
        self.windows = windows;
    }

    /// Pre-seeds an inactive rectangle selection (from a parsed textual
    /// rectangle) before the first paint.
    pub fn seed_rectangle(&mut self, rect: Rect)
        requires
            old(self).wf(),
            old(self).monitors@.len() > 0,
            rect.wf(),
            rect_in_area(rect, old(self).area),
        ensures
            final(self).wf(),
            final(self).same_surroundings(old(self)),
            final(self).exit == old(self).exit,
            final(self).damage_preserved(old(self)),
            final(self).selection == Selection::Rectangle(
                Some(
                    RectangleSelection {
                        extents: Extents {
                            start_x: rect.x,
                            start_y: rect.y,
                            end_x: (rect.x + rect.width) as i32,
                            end_y: (rect.y + rect.height) as i32,
                        },
                        modifier: None,
                        active: false,
                    },
                ),
            ),
    {
        let extents = rect.to_extents();
        self.selection = Selection::Rectangle(
            Some(RectangleSelection { extents, modifier: None, active: false }),
        );
        self.invalidate_all();
    }

    /// Pre-seeds the selection with the first window whose searched
    /// attribute matches the parameter's pattern, in window mode.
    pub fn seed_window_search(&mut self, param: WindowSearchParam)
        requires
            old(self).wf(),
            old(self).monitors@.len() > 0,
        ensures
            final(self).wf(),
            final(self).same_surroundings(old(self)),
            final(self).exit == old(self).exit,
            final(self).damage_preserved(old(self)),
            match final(self).selection {
                Selection::Window(picked) => match picked {
                    Some(w) => exists|i: int|
                        {
                            &&& 0 <= i < old(self).windows@.len()
                            &&& w == old(self).windows@[i]
                            &&& crate::window::param_matches(param, old(self).windows@[i])
                            &&& forall|j: int|
                                0 <= j < i ==> !crate::window::param_matches(
                                    param,
                                    #[trigger] old(self).windows@[j],
                                )
                        },
                    None => forall|i: int|
                        0 <= i < old(self).windows@.len() ==> !crate::window::param_matches(
                            param,
                            #[trigger] old(self).windows@[i],
                        ),
                },
                _ => false,
            },
    {
        let picked = match self.windows.find_by_search_param(param) {
            Some(w) => Some(crate::window::clone_window(w)),
            None => None,
        };
        self.selection = Selection::Window(picked);
        self.invalidate_all();
    }

    /// Pre-seeds the selection with the topmost window containing the
    /// given global position (the mouse), in window mode.
    pub fn seed_window_at(&mut self, pos: (i32, i32))
        requires
            old(self).wf(),
            old(self).monitors@.len() > 0,
        ensures
            final(self).wf(),
            final(self).same_surroundings(old(self)),
            final(self).exit == old(self).exit,
            final(self).damage_preserved(old(self)),
            match final(self).selection {
                Selection::Window(picked) => match picked {
                    Some(w) => exists|i: int|
                        {
                            &&& 0 <= i < old(self).windows@.len()
                            &&& w == old(self).windows@[i]
                            &&& old(self).windows@[i].rect.spec_contains(&pos)
                            &&& forall|j: int|
                                0 <= j < i ==> !(#[trigger] old(
                                    self,
                                ).windows@[j]).rect.spec_contains(&pos)
                        },
                    None => forall|i: int|
                        0 <= i < old(self).windows@.len() ==> !(#[trigger] old(
                            self,
                        ).windows@[i]).rect.spec_contains(&pos),
                },
                _ => false,
            },
    {
        let picked = match self.windows.find_by_position(&pos) {
            Some(w) => Some(crate::window::clone_window(w)),
            None => None,
        };
        self.selection = Selection::Window(picked);
        self.invalidate_all();
    }

    /// Pre-seeds the selection with an externally supplied window pick
    /// (the compositor's focused window), in window mode.
    pub fn seed_window(&mut self, window: Option<WindowDescriptor>)
        requires
            old(self).wf(),
            old(self).monitors@.len() > 0,
            match window {
                Some(w) => w.rect.wf() && rect_in_area(w.rect, old(self).area),
                None => true,
            },
        ensures
            final(self).wf(),
            final(self).same_surroundings(old(self)),
            final(self).exit == old(self).exit,
            final(self).damage_preserved(old(self)),
            final(self).selection == Selection::Window(window),
    {
        self.selection = Selection::Window(window);
        self.invalidate_all();
    }

    /// Commits immediately when a concrete rectangle (or flattened
    /// window) pick exists, as the auto-capture startup path does; a
    /// session without such a pick keeps running.
    pub fn try_auto_capture(&mut self)
        requires
            old(self).wf(),
        ensures
            final(self).wf(),
            final(self).same_surroundings(old(self)),
            final(self).selection == old(self).selection,
            final(self).damage == old(self).damage,
            match old(self).selection.spec_flattened() {
                Selection::Rectangle(Some(sel)) => final(self).exit
                    == ExitState::ExitWithSelection(
                    Rect {
                        x: (sel.extents.norm_x() - old(self).area.x) as i32,
                        y: (sel.extents.norm_y() - old(self).area.y) as i32,
                        width: sel.extents.norm_width() as i32,
                        height: sel.extents.norm_height() as i32,
                    },
                ),
                _ => final(self).exit == old(self).exit,
            },
    {
        let flattened = self.selection.flattened();
        match flattened {
            Selection::Rectangle(Some(sel)) => {
                let rect = sel.extents.to_rect();
                let translated = Rect {
                    x: rect.x - self.area.x,
                    y: rect.y - self.area.y,
                    width: rect.width,
                    height: rect.height,
                };
                self.exit = ExitState::ExitWithSelection(translated);
            },
            _ => {},
        }
    }
}

} // verus!
