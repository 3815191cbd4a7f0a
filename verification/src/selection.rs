//! Selection state: the current mode (rectangle, whole-monitor or window),
//! the in-progress geometry, and hit-testing of the eight drag handles.

use vstd::prelude::*;

use crate::rect::{in_range, Extents, Rect, COORD_LIMIT};
use crate::traits::dist_sq;
use crate::window::WindowDescriptor;

verus! {

/// Which part of a selection a held pointer button is dragging: one of the
/// four edges, one of the four corners, or the whole rectangle.
///
/// `Center` records the global grab position and a snapshot of the extents
/// at grab time, so a drag translates the snapshot by the total pointer
/// offset instead of accumulating per-event deltas that would drift.
#[derive(Debug, Clone, Copy, PartialEq, Eq, Structural)]
pub enum SelectionModifier {
    Left,
    Right,
    Top,
    Bottom,
    TopRight,
    BottomRight,
    BottomLeft,
    TopLeft,
    Center(i32, i32, Extents),
}

/// An in-progress rectangle selection. `active` means a pointer button is
/// currently held and motion events reshape the extents.
#[derive(Debug, Clone, Copy, PartialEq, Eq, Structural)]
pub struct RectangleSelection {
    pub extents: Extents,
    pub modifier: Option<SelectionModifier>,
    pub active: bool,
}

impl RectangleSelection {
    /// A fresh zero-size selection anchored at `(x, y)`, already being
    /// dragged.
    pub fn new(x: i32, y: i32) -> (s: RectangleSelection)
        ensures
            s.extents == (Extents { start_x: x, start_y: y, end_x: x, end_y: y }),
            s.modifier is None,
            s.active,
    {
        RectangleSelection {
            extents: Extents { start_x: x, start_y: y, end_x: x, end_y: y },
            modifier: None,
            active: true,
        }
    }
}

/// The monitor currently highlighted in whole-monitor mode, identified by
/// its position in the engine's monitor list.
#[derive(Debug, Clone, Copy, PartialEq, Eq, Structural)]
pub struct DisplaySelection {
    pub monitor_index: usize,
}

impl DisplaySelection {
    pub fn new(monitor_index: usize) -> (s: DisplaySelection)
        ensures
            s.monitor_index == monitor_index,
    {
        DisplaySelection { monitor_index }
    }
}

/// The current selection mode together with its pick, if any: the outer
/// `Option` distinguishes "mode active, nothing picked yet" from "a
/// concrete pick exists".
#[derive(Debug, Clone)]
pub enum Selection {
    Rectangle(Option<RectangleSelection>),
    Display(Option<DisplaySelection>),
    Window(Option<WindowDescriptor>),
}

impl Default for Selection {
    /// The initial state: rectangle mode with nothing picked.
    fn default() -> (s: Selection)
        ensures
            s is Rectangle && s->Rectangle_0 is None,
    {
        Selection::Rectangle(None)
    }
}

impl Selection {
    /// Wraps an optional window pick as a window-mode selection.
    pub fn from_window(window: Option<WindowDescriptor>) -> (s: Selection)
        ensures
            s == Selection::Window(window),
    {
        Selection::Window(window)
    }

    /// The label shown while no concrete pick exists, chosen purely from
    /// the selection variant.
    pub fn mode_text(&self) -> (s: &'static str)
        ensures
            self is Rectangle ==> s@ == "RECTANGLE MODE"@,
            self is Display ==> s@ == "DISPLAY MODE"@,
            self is Window ==> s@ == "WINDOW MODE"@,
    {
        match self {
            Selection::Rectangle(_) => "RECTANGLE MODE",
            Selection::Display(_) => "DISPLAY MODE",
            Selection::Window(_) => "WINDOW MODE",
        }
    }

    /// Whether flattening leaves a selection in rectangle or display mode:
    /// a window pick becomes an equivalent inactive rectangle selection.
    pub open spec fn spec_flattened(&self) -> Selection {
        match *self {
            Selection::Window(Some(window)) => Selection::Rectangle(
                Some(
                    RectangleSelection {
                        extents: Extents {
                            start_x: window.rect.x,
                            start_y: window.rect.y,
                            end_x: (window.rect.x + window.rect.width) as i32,
                            end_y: (window.rect.y + window.rect.height) as i32,
                        },
                        modifier: None,
                        active: false,
                    },
                ),
            ),
            Selection::Window(None) => Selection::Rectangle(None),
            Selection::Rectangle(r) => Selection::Rectangle(r),
            Selection::Display(d) => Selection::Display(d),
        }
    }

    /// Every window pick held by the selection has a well-formed rectangle.
    pub open spec fn windows_wf(&self) -> bool {
        match *self {
            Selection::Window(Some(window)) => window.rect.wf(),
            _ => true,
        }
    }

    /// Flattens a window-mode pick into an equivalent rectangle-mode
    /// selection (its rectangle as extents, no modifier, not active), so
    /// downstream logic never has to special-case window geometry.
    pub fn flattened(&self) -> (s: Selection)
        requires
            self.windows_wf(),
        ensures
            s == self.spec_flattened(),
            !(s is Window),
    {
        match self {
            Selection::Window(Some(window)) => Selection::Rectangle(
                Some(
                    RectangleSelection {
                        extents: window.rect.to_extents(),
                        modifier: None,
                        active: false,
                    },
                ),
            ),
            Selection::Window(None) => Selection::Rectangle(None),
            Selection::Rectangle(r) => Selection::Rectangle(*r),
            Selection::Display(d) => Selection::Display(*d),
        }
    }
}

/// The midpoint `a + (b - a) / 2`, with the halving rounded toward zero as
/// integer division does in executable code.
pub open spec fn spec_mid(a: int, b: int) -> int {
    if b >= a {
        a + (b - a) / 2
    } else {
        a - (a - b) / 2
    }
}

/// Executable counterpart of [`spec_mid`].
pub fn mid_coord(a: i32, b: i32) -> (r: i32)
    requires
        in_range(a as int),
        in_range(b as int),
    ensures
        r == spec_mid(a as int, b as int),
{
    if b >= a {
        let d = (b - a) as u32;
        a + (d / 2) as i32
    } else {
        let d = (a - b) as u32;
        a - (d / 2) as i32
    }
}

/// The eight handle positions of a selection's extents in their fixed
/// enumeration order: the four corners first, then the four edge
/// midpoints, so that a press on an overlapping pair resolves to the
/// corner.
pub open spec fn spec_handles(e: Extents) -> Seq<(i32, i32, SelectionModifier)> {
    seq![
        (e.start_x, e.start_y, SelectionModifier::TopLeft),
        (e.end_x, e.start_y, SelectionModifier::TopRight),
        (e.end_x, e.end_y, SelectionModifier::BottomRight),
        (e.start_x, e.end_y, SelectionModifier::BottomLeft),
        (spec_mid(e.start_x as int, e.end_x as int) as i32, e.start_y, SelectionModifier::Top),
        (e.end_x, spec_mid(e.start_y as int, e.end_y as int) as i32, SelectionModifier::Right),
        (spec_mid(e.start_x as int, e.end_x as int) as i32, e.end_y, SelectionModifier::Bottom),
        (e.start_x, spec_mid(e.start_y as int, e.end_y as int) as i32, SelectionModifier::Left),
    ]
}

/// The handle positions for altering a selection, corners before edges.
pub fn handles(e: &Extents) -> (v: Vec<(i32, i32, SelectionModifier)>)
    requires
        e.wf(),
    ensures
        v@ == spec_handles(*e),
{
    let mid_x = mid_coord(e.start_x, e.end_x);
    let mid_y = mid_coord(e.start_y, e.end_y);
    let v = vec![
        (e.start_x, e.start_y, SelectionModifier::TopLeft),
        (e.end_x, e.start_y, SelectionModifier::TopRight),
        (e.end_x, e.end_y, SelectionModifier::BottomRight),
        (e.start_x, e.end_y, SelectionModifier::BottomLeft),
        (mid_x, e.start_y, SelectionModifier::Top),
        (e.end_x, mid_y, SelectionModifier::Right),
        (mid_x, e.end_y, SelectionModifier::Bottom),
        (e.start_x, mid_y, SelectionModifier::Left),
    ];
    proof {
        assert(v@ =~= spec_handles(*e));
    }
    v
}

/// The pointer at `pos` grabs a handle centered at `(cx, cy)`: within
/// `radius`, boundary inclusive, so a point exactly `radius` away still
/// counts as a hit.
pub open spec fn handle_hit(cx: i32, cy: i32, pos: (i32, i32), radius: i32) -> bool {
    dist_sq((cx, cy), pos) <= radius * radius
}

/// Executable counterpart of [`handle_hit`], computed exactly on squared
/// distances.
pub fn within_radius(cx: i32, cy: i32, pos: (i32, i32), radius: i32) -> (r: bool)
    requires
        in_range(cx as int),
        in_range(cy as int),
        in_range(pos.0 as int),
        in_range(pos.1 as int),
        0 <= radius <= COORD_LIMIT,
    ensures
        r == handle_hit(cx, cy, pos, radius),
{
    let dx = pos.0 as i64 - cx as i64;
    let dy = pos.1 as i64 - cy as i64;
    let rr = radius as i64;
    proof {
        assert(dx * dx + dy * dy == dist_sq((cx, cy), pos)) by (nonlinear_arith)
            requires
                dx == pos.0 - cx,
                dy == pos.1 - cy,
        ;
        assert(0 <= dx * dx < 0x800_0000_0000_0000 && 0 <= dy * dy < 0x800_0000_0000_0000 && 0
            <= rr * rr < 0x800_0000_0000_0000) by (nonlinear_arith)
            requires
                -0x2000_0001 < dx < 0x2000_0001,
                -0x2000_0001 < dy < 0x2000_0001,
                0 <= rr < 0x2000_0001,
        ;
    }
    dx * dx + dy * dy <= rr * rr
}

/// The first handle of `e` (in the order of [`spec_handles`]: corners
/// before edges) whose center the pointer at `pos` hits within `radius`.
pub open spec fn spec_find_handle(e: Extents, pos: (i32, i32), radius: i32) -> Option<
    SelectionModifier,
> {
    let mid_x = spec_mid(e.start_x as int, e.end_x as int) as i32;
    let mid_y = spec_mid(e.start_y as int, e.end_y as int) as i32;
    if handle_hit(e.start_x, e.start_y, pos, radius) {
        Some(SelectionModifier::TopLeft)
    } else if handle_hit(e.end_x, e.start_y, pos, radius) {
        Some(SelectionModifier::TopRight)
    } else if handle_hit(e.end_x, e.end_y, pos, radius) {
        Some(SelectionModifier::BottomRight)
    } else if handle_hit(e.start_x, e.end_y, pos, radius) {
        Some(SelectionModifier::BottomLeft)
    } else if handle_hit(mid_x, e.start_y, pos, radius) {
        Some(SelectionModifier::Top)
    } else if handle_hit(e.end_x, mid_y, pos, radius) {
        Some(SelectionModifier::Right)
    } else if handle_hit(mid_x, e.end_y, pos, radius) {
        Some(SelectionModifier::Bottom)
    } else if handle_hit(e.start_x, mid_y, pos, radius) {
        Some(SelectionModifier::Left)
    } else {
        None
    }
}

/// Hit-tests the pointer against the eight drag handles of `e`; ties are
/// resolved by enumeration order (corners before edges), first match wins.
/// A pointer exactly `radius` away from a handle center counts as a hit.
pub fn find_handle(e: &Extents, pos: (i32, i32), radius: i32) -> (r: Option<SelectionModifier>)
    requires
        e.wf(),
        in_range(pos.0 as int),
        in_range(pos.1 as int),
        0 <= radius <= COORD_LIMIT,
    ensures
        r == spec_find_handle(*e, pos, radius),
{
    let mid_x = mid_coord(e.start_x, e.end_x);
    let mid_y = mid_coord(e.start_y, e.end_y);
    if within_radius(e.start_x, e.start_y, pos, radius) {
        Some(SelectionModifier::TopLeft)
    } else if within_radius(e.end_x, e.start_y, pos, radius) {
        Some(SelectionModifier::TopRight)
    } else if within_radius(e.end_x, e.end_y, pos, radius) {
        Some(SelectionModifier::BottomRight)
    } else if within_radius(e.start_x, e.end_y, pos, radius) {
        Some(SelectionModifier::BottomLeft)
    } else if within_radius(mid_x, e.start_y, pos, radius) {
        Some(SelectionModifier::Top)
    } else if within_radius(e.end_x, mid_y, pos, radius) {
        Some(SelectionModifier::Right)
    } else if within_radius(mid_x, e.end_y, pos, radius) {
        Some(SelectionModifier::Bottom)
    } else if within_radius(e.start_x, mid_y, pos, radius) {
        Some(SelectionModifier::Left)
    } else {
        None
    }
}

} // verus!
