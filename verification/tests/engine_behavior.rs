use watershot::engine::{Engine, ExitState, Key};
use watershot::rect::{Extents, Rect};
use watershot::selection::{
    find_handle, handles, RectangleSelection, Selection, SelectionModifier,
};

fn rect(x: i32, y: i32, width: i32, height: i32) -> Rect {
    Rect {
        x,
        y,
        width,
        height,
    }
}

fn engine_with_monitor() -> Engine {
    let mut engine = Engine::new(10);
    engine.add_monitor(rect(0, 0, 1920, 1080));
    engine
}

fn rectangle_selection(engine: &Engine) -> RectangleSelection {
    match &engine.selection {
        Selection::Rectangle(Some(sel)) => *sel,
        _ => panic!("expected a concrete rectangle selection"),
    }
}

#[test]
fn press_creates_a_fresh_selection_and_motion_drags_the_free_corner() {
    let mut engine = engine_with_monitor();
    engine.pointer_press(0, (100, 100));
    let sel = rectangle_selection(&engine);
    assert_eq!(
        sel.extents,
        Extents {
            start_x: 100,
            start_y: 100,
            end_x: 100,
            end_y: 100
        }
    );
    assert!(sel.active);
    assert_eq!(sel.modifier, None);

    engine.pointer_motion(0, (300, 250));
    let sel = rectangle_selection(&engine);
    assert_eq!(sel.extents.to_rect(), rect(100, 100, 200, 150));
}

#[test]
fn release_keeps_the_geometry_and_ends_the_drag() {
    let mut engine = engine_with_monitor();
    engine.pointer_press(0, (100, 100));
    engine.pointer_motion(0, (200, 200));
    engine.pointer_release();
    let sel = rectangle_selection(&engine);
    assert!(!sel.active);
    assert_eq!(sel.modifier, None);
    assert_eq!(sel.extents.to_rect(), rect(100, 100, 100, 100));
    // Motion without a held button changes nothing.
    engine.pointer_motion(0, (500, 500));
    assert_eq!(rectangle_selection(&engine).extents.to_rect(), rect(100, 100, 100, 100));
}

#[test]
fn handle_hit_is_boundary_inclusive() {
    let extents = Extents {
        start_x: 100,
        start_y: 100,
        end_x: 300,
        end_y: 300,
    };
    // Exactly radius away from the top-left corner: a hit.
    assert_eq!(
        find_handle(&extents, (110, 100), 10),
        Some(SelectionModifier::TopLeft)
    );
    // One pixel beyond the radius: no hit on any handle.
    assert_eq!(find_handle(&extents, (111, 100), 10), None);
    assert_eq!(find_handle(&extents, (110, 101), 10), None);
    // Away from every corner, the midpoint of the top edge wins.
    assert_eq!(
        find_handle(&extents, (200, 100), 10),
        Some(SelectionModifier::Top)
    );
    // When handles coincide (a zero-size selection), ties resolve by
    // enumeration order: corners before edges, first match wins.
    let point = Extents {
        start_x: 100,
        start_y: 100,
        end_x: 100,
        end_y: 100,
    };
    assert_eq!(
        find_handle(&point, (100, 100), 10),
        Some(SelectionModifier::TopLeft)
    );
}

#[test]
fn handles_enumerate_corners_before_edges() {
    let extents = Extents {
        start_x: 0,
        start_y: 0,
        end_x: 10,
        end_y: 20,
    };
    let hs = handles(&extents);
    assert_eq!(
        hs,
        vec![
            (0, 0, SelectionModifier::TopLeft),
            (10, 0, SelectionModifier::TopRight),
            (10, 20, SelectionModifier::BottomRight),
            (0, 20, SelectionModifier::BottomLeft),
            (5, 0, SelectionModifier::Top),
            (10, 10, SelectionModifier::Right),
            (5, 20, SelectionModifier::Bottom),
            (0, 10, SelectionModifier::Left),
        ]
    );

    // Edge midpoints follow the drag direction: the halving rounds toward
    // the start corner.
    let forward = Extents {
        start_x: 0,
        start_y: 0,
        end_x: 5,
        end_y: 0,
    };
    assert_eq!(handles(&forward)[4], (2, 0, SelectionModifier::Top));
    let reversed = Extents {
        start_x: 5,
        start_y: 0,
        end_x: 0,
        end_y: 0,
    };
    assert_eq!(handles(&reversed)[4], (3, 0, SelectionModifier::Top));
}

#[test]
fn pressing_a_handle_grabs_it_and_drags_only_its_coordinates() {
    let mut engine = engine_with_monitor();
    engine.seed_rectangle(rect(100, 100, 200, 200));
    // Exactly on the bottom-right corner handle.
    engine.pointer_press(0, (300, 300));
    let sel = rectangle_selection(&engine);
    assert_eq!(sel.modifier, Some(SelectionModifier::BottomRight));
    assert!(sel.active);

    engine.pointer_motion(0, (350, 320));
    let sel = rectangle_selection(&engine);
    assert_eq!(
        sel.extents,
        Extents {
            start_x: 100,
            start_y: 100,
            end_x: 350,
            end_y: 320
        }
    );

    // The left edge handle moves only the start x coordinate.
    engine.pointer_release();
    engine.pointer_press(0, (100, 210));
    let sel = rectangle_selection(&engine);
    assert_eq!(sel.modifier, Some(SelectionModifier::Left));
    engine.pointer_motion(0, (80, 500));
    let sel = rectangle_selection(&engine);
    assert_eq!(
        sel.extents,
        Extents {
            start_x: 80,
            start_y: 100,
            end_x: 350,
            end_y: 320
        }
    );
}

#[test]
fn center_drag_translates_from_the_grab_snapshot_and_clamps() {
    let mut engine = Engine::new(5);
    engine.add_monitor(rect(0, 0, 100, 100));
    engine.seed_rectangle(rect(10, 10, 40, 40));
    // Press inside the selection, away from every handle.
    engine.pointer_press(0, (30, 30));
    let sel = rectangle_selection(&engine);
    let orig = Extents {
        start_x: 10,
        start_y: 10,
        end_x: 50,
        end_y: 50,
    };
    assert_eq!(sel.modifier, Some(SelectionModifier::Center(30, 30, orig)));

    // Dragging to (40, 35) translates by (10, 5); still inside the area.
    engine.pointer_motion(0, (40, 35));
    let sel = rectangle_selection(&engine);
    assert_eq!(
        sel.extents,
        Extents {
            start_x: 20,
            start_y: 15,
            end_x: 60,
            end_y: 55
        }
    );

    // Dragging far to the bottom-right clamps the origin into the area.
    engine.pointer_motion(0, (95, 95));
    let sel = rectangle_selection(&engine);
    assert_eq!(sel.extents.to_rect(), rect(60, 60, 40, 40));
}

#[test]
fn monitors_extend_the_area_in_any_order() {
    let mut engine = Engine::new(10);
    engine.add_monitor(rect(0, 0, 1920, 1080));
    engine.add_monitor(rect(1920, 0, 1080, 1920));
    assert_eq!(engine.area, rect(0, 0, 3000, 1920));

    let mut engine = Engine::new(10);
    engine.add_monitor(rect(1920, 0, 1080, 1920));
    engine.add_monitor(rect(0, 0, 1920, 1080));
    assert_eq!(engine.area, rect(0, 0, 3000, 1920));
}

#[test]
fn tab_cycles_the_modes_and_discards_the_pick() {
    let mut engine = engine_with_monitor();
    assert_eq!(engine.selection.mode_text(), "RECTANGLE MODE");
    engine.pointer_press(0, (10, 10));
    engine.key_press(Key::Tab);
    assert!(matches!(engine.selection, Selection::Display(None)));
    assert_eq!(engine.selection.mode_text(), "DISPLAY MODE");
    engine.key_press(Key::Tab);
    assert!(matches!(engine.selection, Selection::Window(None)));
    assert_eq!(engine.selection.mode_text(), "WINDOW MODE");
    engine.key_press(Key::Tab);
    // Leaving window mode flattens; an empty pick flattens to nothing.
    assert!(matches!(engine.selection, Selection::Rectangle(None)));
}

#[test]
fn display_mode_picks_the_pressed_monitor_and_commits_its_rect() {
    let mut engine = Engine::new(10);
    engine.add_monitor(rect(-500, 0, 500, 500));
    engine.add_monitor(rect(0, 0, 1920, 1080));
    engine.key_press(Key::Tab);
    engine.pointer_press(1, (5, 5));
    match &engine.selection {
        Selection::Display(Some(d)) => assert_eq!(d.monitor_index, 1),
        _ => panic!("expected a display selection"),
    }
    engine.key_press(Key::Return);
    // The area origin is (-500, 0), so the monitor rect is shifted by 500.
    assert_eq!(
        engine.exit,
        ExitState::ExitWithSelection(rect(500, 0, 1920, 1080))
    );
}

#[test]
fn escape_exits_without_a_selection() {
    let mut engine = engine_with_monitor();
    engine.pointer_press(0, (10, 10));
    engine.key_press(Key::Escape);
    assert_eq!(engine.exit, ExitState::ExitOnly);
}

#[test]
fn commit_without_a_pick_is_a_no_op() {
    let mut engine = engine_with_monitor();
    engine.key_press(Key::Return);
    assert_eq!(engine.exit, ExitState::Continue);
    engine.key_press(Key::Tab);
    engine.key_press(Key::Return);
    assert_eq!(engine.exit, ExitState::Continue);
    engine.key_press(Key::Other);
    assert_eq!(engine.exit, ExitState::Continue);
}

#[test]
fn commit_translates_into_capture_pixel_space() {
    let mut engine = Engine::new(10);
    engine.add_monitor(rect(-1920, -500, 1920, 1080));
    engine.pointer_press(0, (100, 100));
    engine.pointer_motion(0, (300, 250));
    engine.pointer_release();
    engine.key_press(Key::Return);
    // Global rect is (-1820, -400, 200, 150); the area origin (-1920, -500)
    // is subtracted for cropping.
    assert_eq!(
        engine.exit,
        ExitState::ExitWithSelection(rect(100, 100, 200, 150))
    );
}

#[test]
fn damage_accumulates_and_is_taken_per_monitor() {
    let mut engine = engine_with_monitor();
    // Registration queues a full-monitor repaint.
    let initial = engine.take_damage(0);
    assert_eq!(initial, vec![rect(0, 0, 1920, 1080)]);
    assert_eq!(engine.take_damage(0), Vec::<Rect>::new());

    // A drag step queues damage covering the changed pixels.
    engine.pointer_press(0, (100, 100));
    engine.take_damage(0);
    engine.pointer_motion(0, (150, 140));
    let pieces = engine.take_damage(0);
    // The newly selected region changed, so it must be covered.
    let covered = |px: i32, py: i32| {
        pieces
            .iter()
            .any(|r| r.x <= px && px < r.x + r.width && r.y <= py && py < r.y + r.height)
    };
    for (px, py) in [(100, 100), (149, 139), (120, 120)] {
        assert!(covered(px, py), "({px},{py}) must be repainted");
    }
    assert_eq!(engine.take_damage(0), Vec::<Rect>::new());
}

#[test]
fn auto_capture_commits_a_seeded_rectangle() {
    let mut engine = engine_with_monitor();
    engine.try_auto_capture();
    assert_eq!(engine.exit, ExitState::Continue);
    engine.seed_rectangle(rect(5, 6, 70, 80));
    engine.try_auto_capture();
    assert_eq!(engine.exit, ExitState::ExitWithSelection(rect(5, 6, 70, 80)));
}

#[test]
fn crop_monitor_finds_the_first_monitor_containing_the_rect() {
    let mut engine = Engine::new(10);
    engine.add_monitor(rect(0, 0, 1920, 1080));
    engine.add_monitor(rect(1920, 0, 1080, 1920));

    // Wholly on the second monitor: cropped there, in local coordinates.
    assert_eq!(
        engine.crop_monitor(&rect(2000, 100, 50, 60)),
        Some((1, rect(80, 100, 50, 60)))
    );
    // Wholly on the first monitor.
    assert_eq!(
        engine.crop_monitor(&rect(10, 20, 30, 40)),
        Some((0, rect(10, 20, 30, 40)))
    );
    // Spanning both monitors: no single source.
    assert_eq!(engine.crop_monitor(&rect(1900, 0, 100, 100)), None);
}

#[test]
fn rect_fits_accepts_only_rects_inside_the_area() {
    let engine = engine_with_monitor();
    assert!(engine.rect_fits(&rect(0, 0, 1920, 1080)));
    assert!(engine.rect_fits(&rect(10, 10, 100, 100)));
    assert!(!engine.rect_fits(&rect(-5, 0, 100, 100)));
    assert!(!engine.rect_fits(&rect(1900, 0, 100, 100)));
    assert!(!engine.rect_fits(&rect(0, 0, -1, 5)));
}
