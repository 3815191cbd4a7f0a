use watershot::rect::{Circle, Extents, Rect};
use watershot::traits::{Contains, DistanceTo, Padded, ToGlobal, ToLocal};

/// The half-open pixel-coverage model used by the region contracts.
fn rect_covers(r: &Rect, px: i32, py: i32) -> bool {
    r.x <= px && px < r.x + r.width && r.y <= py && py < r.y + r.height
}

fn region_covers(v: &[Rect], px: i32, py: i32) -> bool {
    v.iter().any(|r| rect_covers(r, px, py))
}

#[test]
fn to_rect_normalizes_and_discards_the_anchor() {
    // Dragged from bottom-right to top-left: start exceeds end.
    let dragged = Extents {
        start_x: 50,
        start_y: 60,
        end_x: 10,
        end_y: 20,
    };
    let rect = dragged.to_rect();
    assert_eq!(
        rect,
        Rect {
            x: 10,
            y: 20,
            width: 40,
            height: 40
        }
    );
    assert!(rect.width >= 0 && rect.height >= 0);
    // Normalization keeps the rectangle but not which corner was the anchor.
    let back = rect.to_extents();
    assert_ne!(back, dragged);
    assert_eq!(back.to_rect(), rect);
}

#[test]
fn extend_builds_the_monitor_area_in_any_order() {
    let m0 = Rect {
        x: 0,
        y: 0,
        width: 1920,
        height: 1080,
    };
    let m1 = Rect {
        x: 1920,
        y: 0,
        width: 1080,
        height: 1920,
    };
    let expected = Rect {
        x: 0,
        y: 0,
        width: 3000,
        height: 1920,
    };

    let mut area = Rect::default();
    area.extend(&m0);
    area.extend(&m1);
    assert_eq!(area, expected);

    let mut area = Rect::default();
    area.extend(&m1);
    area.extend(&m0);
    assert_eq!(area, expected);
}

#[test]
fn intersects_requires_positive_overlap() {
    let a = Rect {
        x: 0,
        y: 0,
        width: 10,
        height: 10,
    };
    let b = Rect {
        x: 5,
        y: 5,
        width: 10,
        height: 10,
    };
    // Touching at an edge is not intersecting.
    let touching = Rect {
        x: 10,
        y: 0,
        width: 10,
        height: 10,
    };
    let far = Rect {
        x: 30,
        y: 30,
        width: 5,
        height: 5,
    };
    assert!(a.intersects(&b));
    assert!(b.intersects(&a));
    assert!(!a.intersects(&touching));
    assert!(!a.intersects(&far));
    assert_eq!(
        a.intersecting_rect(&b),
        Rect {
            x: 5,
            y: 5,
            width: 5,
            height: 5
        }
    );
}

#[test]
fn constrain_is_none_without_overlap_and_contained_otherwise() {
    let area = Rect {
        x: 0,
        y: 0,
        width: 10,
        height: 10,
    };
    let outside = Rect {
        x: 20,
        y: 20,
        width: 5,
        height: 5,
    };
    assert_eq!(outside.constrain(&area), None);

    let poking_out = Rect {
        x: 5,
        y: 0,
        width: 20,
        height: 10,
    };
    let clipped = poking_out.constrain(&area).unwrap();
    assert_eq!(
        clipped,
        Rect {
            x: 5,
            y: 0,
            width: 5,
            height: 10
        }
    );
    // Fully contained in the area.
    assert!(clipped.x >= area.x && clipped.y >= area.y);
    assert!(clipped.x + clipped.width <= area.x + area.width);
    assert!(clipped.y + clipped.height <= area.y + area.height);
}

#[test]
fn padded_grows_shrinks_and_round_trips() {
    let a = Rect {
        x: 10,
        y: 10,
        width: 100,
        height: 100,
    };
    assert_eq!(
        a.padded(5),
        Rect {
            x: 5,
            y: 5,
            width: 110,
            height: 110
        }
    );
    // Round trip away from the clamp boundary.
    assert_eq!(a.padded(5).padded(-5), a);
    assert_eq!(a.padded(49).padded(-49), a);
    // Shrinking floors the size at zero.
    let tiny = Rect {
        x: 0,
        y: 0,
        width: 4,
        height: 4,
    };
    assert_eq!(
        tiny.padded(-10),
        Rect {
            x: 10,
            y: 10,
            width: 0,
            height: 0
        }
    );
}

#[test]
fn xor_tiles_the_symmetric_difference() {
    let a = Rect {
        x: 0,
        y: 0,
        width: 10,
        height: 10,
    };
    let b = Rect {
        x: 5,
        y: 5,
        width: 10,
        height: 10,
    };
    let pieces = a.xor(&b);
    // In a only: covered.
    assert!(region_covers(&pieces, 2, 2));
    // In b only: covered.
    assert!(region_covers(&pieces, 12, 12));
    // In both: not covered.
    assert!(!region_covers(&pieces, 7, 7));
    // In neither: not covered.
    assert!(!region_covers(&pieces, 20, 20));
    // Every piece is non-degenerate.
    assert!(pieces.iter().all(|p| p.width > 0 && p.height > 0));
}

#[test]
fn xor_of_equal_rects_is_empty_and_of_disjoint_rects_is_both() {
    let a = Rect {
        x: 3,
        y: 4,
        width: 10,
        height: 10,
    };
    assert_eq!(a.xor(&a), Vec::<Rect>::new());

    let far = Rect {
        x: 100,
        y: 100,
        width: 5,
        height: 5,
    };
    assert_eq!(a.xor(&far), vec![a, far]);
}

#[test]
fn subtract_covers_exactly_self_minus_other() {
    let a = Rect {
        x: 0,
        y: 0,
        width: 10,
        height: 10,
    };
    let hole = Rect {
        x: 2,
        y: 2,
        width: 4,
        height: 4,
    };
    let pieces = a.subtract(&hole);
    for px in -1..12 {
        for py in -1..12 {
            let expected = rect_covers(&a, px, py) && !rect_covers(&hole, px, py);
            assert_eq!(region_covers(&pieces, px, py), expected, "at ({px},{py})");
        }
    }
}

#[test]
fn to_rect_clamped_repositions_without_shrinking() {
    let area = Rect {
        x: 0,
        y: 0,
        width: 100,
        height: 100,
    };
    let hanging_out = Extents {
        start_x: 90,
        start_y: 90,
        end_x: 120,
        end_y: 120,
    };
    assert_eq!(
        hanging_out.to_rect_clamped(&area),
        Rect {
            x: 70,
            y: 70,
            width: 30,
            height: 30
        }
    );
    let inside = Extents {
        start_x: 20,
        start_y: 15,
        end_x: 60,
        end_y: 55,
    };
    assert_eq!(
        inside.to_rect_clamped(&area),
        Rect {
            x: 20,
            y: 15,
            width: 40,
            height: 40
        }
    );
}

#[test]
fn contains_is_boundary_inclusive() {
    let r = Rect {
        x: 0,
        y: 0,
        width: 10,
        height: 10,
    };
    assert!(r.contains(&(0, 0)));
    assert!(r.contains(&(10, 10)));
    assert!(!r.contains(&(11, 10)));
    let inner = Rect {
        x: 2,
        y: 2,
        width: 8,
        height: 8,
    };
    assert!(r.contains(&inner));
    assert!(!inner.contains(&r));
}

#[test]
fn local_and_global_conversions_are_translations() {
    let monitor = Rect {
        x: 1920,
        y: 100,
        width: 1080,
        height: 1920,
    };
    assert_eq!((2000, 150).to_local(&monitor), (80, 50));
    assert_eq!((80, 50).to_global(&monitor), (2000, 150));
    let r = Rect {
        x: 2000,
        y: 150,
        width: 10,
        height: 20,
    };
    let local: Rect = r.to_local(&monitor);
    assert_eq!(
        local,
        Rect {
            x: 80,
            y: 50,
            width: 10,
            height: 20
        }
    );
    let e = Extents {
        start_x: 2000,
        start_y: 150,
        end_x: 2010,
        end_y: 170,
    };
    let local: Extents = e.to_local(&monitor);
    assert_eq!(
        local,
        Extents {
            start_x: 80,
            start_y: 50,
            end_x: 90,
            end_y: 70
        }
    );
}

#[test]
fn distance_to_is_the_rounded_down_euclidean_distance() {
    assert_eq!((0, 0).distance_to(&(3, 4)), 5);
    assert_eq!((0, 0).distance_to(&(10, 0)), 10);
    // sqrt(101) rounds down to 10.
    assert_eq!((0, 0).distance_to(&(10, 1)), 10);
    assert_eq!((5, 5).distance_to(&(5, 5)), 0);
    assert_eq!((-3, -4).distance_to(&(0, 0)), 5);
}

#[test]
fn circle_new_stores_its_fields() {
    let c = Circle::new(5, 6, 7);
    assert_eq!(c.x, 5);
    assert_eq!(c.y, 6);
    assert_eq!(c.radius, 7);
}
