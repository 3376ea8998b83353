use stroke_selection::geometry::{Path, Point2, Point3};
use stroke_selection::selectable::{
    validate_projection, Event3d, Fate, LaneStrokeSelectable, PlanControl, StrokeRef, UiCommand,
    BAND_RADIUS, INVALID_ID, SELECTABLE_LAYER,
};

fn demo_path() -> Path {
    let points = vec![Point2 { x: 0, y: 0 }, Point2 { x: 10000, y: 0 }];
    Path::new(points, 10000)
}

fn demo_proxy() -> LaneStrokeSelectable {
    LaneStrokeSelectable::new(StrokeRef { index: 7 }, demo_path())
}

#[test]
fn new_proxy_is_live_with_placeholder_identity() {
    let p = demo_proxy();
    assert_eq!(p.id, INVALID_ID);
    assert_eq!(p.stroke_ref, StrokeRef { index: 7 });
    assert_eq!(p.path, demo_path());
    assert!(p.live);
}

#[test]
fn registration_announces_band_to_pick_surface() {
    let mut p = demo_proxy();
    let (cmd, fate) = p.receive_add_to_ui(42);
    assert_eq!(fate, Fate::Live);
    assert_eq!(p.id, 42);
    match cmd {
        Some(UiCommand::AddInteractable3d(id, band, layer)) => {
            assert_eq!(id, 42);
            assert_eq!(band.path, demo_path());
            assert_eq!(band.radius, BAND_RADIUS);
            assert_eq!(layer, SELECTABLE_LAYER);
        }
        other => panic!("expected an add command, got {:?}", other),
    }
}

#[test]
fn clear_selection_deregisters_and_dies() {
    let mut p = demo_proxy();
    let _ = p.receive_add_to_ui(42);
    let (cmd, fate) = p.receive_clear_selectables();
    assert_eq!(cmd, Some(UiCommand::RemoveInteractable3d(42)));
    assert_eq!(fate, Fate::Die);
    assert!(!p.live);
}

#[test]
fn drag_start_selects_interval_around_anchor() {
    let mut p = demo_proxy();
    let ev = Event3d::DragStarted {
        at: Point3 { x: 4000, y: 0, z: 0 },
        at_on_path: Some(4000),
    };
    let (cmd, fate) = p.receive_event3d(ev);
    assert_eq!(cmd, Some(PlanControl::Select(StrokeRef { index: 7 }, 2500, 5500)));
    assert_eq!(fate, Fate::Live);
}

#[test]
fn drag_start_near_path_start_is_left_clamped() {
    let mut p = demo_proxy();
    let ev = Event3d::DragStarted {
        at: Point3 { x: 500, y: 0, z: 0 },
        at_on_path: Some(500),
    };
    let (cmd, _) = p.receive_event3d(ev);
    assert_eq!(cmd, Some(PlanControl::Select(StrokeRef { index: 7 }, 0, 2000)));
}

#[test]
fn drag_start_without_projection_is_dropped() {
    let mut p = demo_proxy();
    let ev = Event3d::DragStarted {
        at: Point3 { x: 0, y: 99000, z: 0 },
        at_on_path: None,
    };
    let (cmd, fate) = p.receive_event3d(ev);
    assert_eq!(cmd, None);
    assert_eq!(fate, Fate::Live);
}

#[test]
fn drag_ongoing_with_narrow_span_expands() {
    let mut p = demo_proxy();
    let ev = Event3d::DragOngoing {
        from: Point3 { x: 2000, y: 0, z: 0 },
        to: Point3 { x: 2200, y: 0, z: 0 },
        from_on_path: Some(2000),
        to_on_path: Some(2200),
    };
    let (cmd, _) = p.receive_event3d(ev);
    assert_eq!(cmd, Some(PlanControl::Select(StrokeRef { index: 7 }, 700, 3500)));
}

#[test]
fn drag_ongoing_with_missing_projection_is_dropped() {
    let mut p = demo_proxy();
    let ev = Event3d::DragOngoing {
        from: Point3 { x: 2000, y: 0, z: 0 },
        to: Point3 { x: 0, y: 99000, z: 0 },
        from_on_path: Some(2000),
        to_on_path: None,
    };
    let (cmd, _) = p.receive_event3d(ev);
    assert_eq!(cmd, None);
}

#[test]
fn drag_finished_commits_unconditionally() {
    let mut p = demo_proxy();
    // An earlier gesture that fails to project changes nothing about the
    // commit that follows.
    let (dropped, _) = p.receive_event3d(Event3d::DragStarted {
        at: Point3 { x: 0, y: 99000, z: 0 },
        at_on_path: None,
    });
    assert_eq!(dropped, None);
    let (cmd, fate) = p.receive_event3d(Event3d::DragFinished {
        to: Point3 { x: 1200, y: 3400, z: 560 },
    });
    assert_eq!(cmd, Some(PlanControl::Commit(true, Point2 { x: 1200, y: 3400 })));
    assert_eq!(fate, Fate::Live);
}

#[test]
fn other_events_are_ignored() {
    let mut p = demo_proxy();
    let (cmd, fate) = p.receive_event3d(Event3d::Other);
    assert_eq!(cmd, None);
    assert_eq!(fate, Fate::Live);
}

#[test]
fn cleared_proxy_processes_no_further_gestures() {
    let mut p = demo_proxy();
    let _ = p.receive_add_to_ui(42);
    let _ = p.receive_clear_selectables();
    let (cmd, fate) = p.receive_event3d(Event3d::DragStarted {
        at: Point3 { x: 4000, y: 0, z: 0 },
        at_on_path: Some(4000),
    });
    assert_eq!(cmd, None);
    assert_eq!(fate, Fate::Die);
    let (cmd2, fate2) = p.receive_event3d(Event3d::DragFinished {
        to: Point3 { x: 1, y: 2, z: 3 },
    });
    assert_eq!(cmd2, None);
    assert_eq!(fate2, Fate::Die);
    // A second clear names nobody: the proxy already left the pick surface.
    let (cmd3, fate3) = p.receive_clear_selectables();
    assert_eq!(cmd3, None);
    assert_eq!(fate3, Fate::Die);
    // Registration is likewise refused after the end of life.
    let (cmd4, fate4) = p.receive_add_to_ui(43);
    assert_eq!(cmd4, None);
    assert_eq!(fate4, Fate::Die);
    assert_eq!(p.id, 42);
}

#[test]
fn validate_projection_keeps_only_results_on_the_path() {
    let path = demo_path();
    assert_eq!(validate_projection(&path, Some(4000)), Some(4000));
    assert_eq!(validate_projection(&path, Some(10000)), Some(10000));
    assert_eq!(validate_projection(&path, Some(10001)), None);
    assert_eq!(validate_projection(&path, None), None);
}
