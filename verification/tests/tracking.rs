use sticky_notes::anchor::{anchor_to_nearest, unanchor};
use sticky_notes::geometry::{Position, Rect};
use sticky_notes::inventory::ExternalWindow;
use sticky_notes::registry::{AnchorInfo, AnchorState, Anchored};
use sticky_notes::tracking::{begin_tick, find_local_window, finish_tick, plan_tick, track_anchor};
use sticky_notes::tracking::{LocalState, LocalWindow, Step, TrackAction, DEADBAND};

fn target(id: u32, x: i32, y: i32) -> ExternalWindow {
    ExternalWindow { id, x, y, width: 400_000, height: 300_000, owner_name: "Editor".to_string() }
}

fn anchor(id: u32, offset_x: i64, offset_y: i64) -> AnchorInfo {
    AnchorInfo { target_window_id: id, offset_x, offset_y, target_app_name: "Editor".to_string() }
}

fn at(x: i32, y: i32) -> LocalState {
    LocalState::At(Position { x, y })
}

fn open_at(label: &str, x: i32, y: i32) -> LocalWindow {
    LocalWindow { label: label.to_string(), position: Some(Position { x, y }) }
}

#[test]
fn deadband_is_one_logical_pixel() {
    assert_eq!(DEADBAND, 1000);
}

#[test]
fn half_a_pixel_of_drift_causes_no_move() {
    let external = vec![target(1, 100_000, 200_000)];
    let action = track_anchor(&anchor(1, 10_000, -5_000), &external, at(110_500, 195_500));
    assert_eq!(action, TrackAction::Keep);
}

#[test]
fn no_drift_causes_no_move() {
    let external = vec![target(1, 100_000, 200_000)];
    let action = track_anchor(&anchor(1, 10_000, -5_000), &external, at(110_000, 195_000));
    assert_eq!(action, TrackAction::Keep);
}

#[test]
fn exactly_one_pixel_of_drift_causes_no_move() {
    let external = vec![target(1, 100_000, 200_000)];
    let info = anchor(1, 10_000, -5_000);
    assert_eq!(track_anchor(&info, &external, at(111_000, 196_000)), TrackAction::Keep);
    assert_eq!(track_anchor(&info, &external, at(109_000, 194_000)), TrackAction::Keep);
}

#[test]
fn more_than_one_pixel_on_either_axis_causes_a_move() {
    let external = vec![target(1, 100_000, 200_000)];
    let info = anchor(1, 10_000, -5_000);
    let back = TrackAction::MoveTo { x: 110_000, y: 195_000 };
    assert_eq!(track_anchor(&info, &external, at(111_001, 195_000)), back);
    assert_eq!(track_anchor(&info, &external, at(108_999, 195_000)), back);
    assert_eq!(track_anchor(&info, &external, at(110_000, 196_001)), back);
    assert_eq!(track_anchor(&info, &external, at(110_000, 193_999)), back);
}

#[test]
fn move_goes_beyond_the_range_of_a_coordinate_without_wrapping() {
    let external = vec![target(1, i32::MAX, i32::MIN)];
    let info = anchor(1, 4_294_967_295, -4_294_967_295);
    assert_eq!(
        track_anchor(&info, &external, at(0, 0)),
        TrackAction::MoveTo { x: 6_442_450_942, y: -6_442_450_943 }
    );
}

#[test]
fn vanished_target_is_lost_whatever_the_note_does() {
    let external = vec![target(2, 0, 0)];
    let info = anchor(1, 0, 0);
    assert_eq!(track_anchor(&info, &external, at(0, 0)), TrackAction::Lost);
    assert_eq!(track_anchor(&info, &external, LocalState::Unreadable), TrackAction::Lost);
    assert_eq!(track_anchor(&info, &external, LocalState::Closed), TrackAction::Lost);
    assert_eq!(track_anchor(&info, &[], at(0, 0)), TrackAction::Lost);
}

#[test]
fn closed_note_is_forgotten_and_unreadable_note_waits() {
    let external = vec![target(1, 0, 0)];
    let info = anchor(1, 0, 0);
    assert_eq!(track_anchor(&info, &external, LocalState::Closed), TrackAction::Forget);
    assert_eq!(track_anchor(&info, &external, LocalState::Unreadable), TrackAction::Keep);
}

#[test]
fn only_forget_and_lost_drop_the_anchor() {
    assert!(TrackAction::Forget.drops());
    assert!(TrackAction::Lost.drops());
    assert!(!TrackAction::Keep.drops());
    assert!(!TrackAction::MoveTo { x: 0, y: 0 }.drops());
}

#[test]
fn local_window_is_looked_up_by_label() {
    let windows = vec![
        open_at("sticky_0", 1, 2),
        LocalWindow { label: "sticky_1".to_string(), position: None },
        open_at("sticky_0", 7, 8),
    ];
    assert_eq!(find_local_window(&"sticky_0".to_string(), &windows), at(1, 2));
    assert_eq!(find_local_window(&"sticky_1".to_string(), &windows), LocalState::Unreadable);
    assert_eq!(find_local_window(&"sticky_2".to_string(), &windows), LocalState::Closed);
    assert_eq!(find_local_window(&"sticky_0".to_string(), &[]), LocalState::Closed);
}

#[test]
fn note_converges_to_target_plus_offset_after_each_move() {
    let mut state = AnchorState::new();
    let label = "sticky_0".to_string();
    let local = Rect { x: 300_000, y: 400_000, width: 300_000, height: 250_000 };
    let mut external = vec![target(1, 100_000, 100_000)];
    anchor_to_nearest(&mut state, label.clone(), Some(local), &external).unwrap();
    let mut position = Position { x: local.x, y: local.y };

    for (dx, dy) in [(50_000, 50_000), (-30_000, 0), (0, -1_001), (123_456, -654_321)] {
        external[0].x += dx;
        external[0].y += dy;
        let snapshot = begin_tick(&mut state).unwrap();
        let windows = vec![LocalWindow { label: label.clone(), position: Some(position) }];
        let plan = plan_tick(&snapshot, &external, &windows);
        assert_eq!(plan.len(), 1);
        let expected = (external[0].x as i64 + 200_000, external[0].y as i64 + 300_000);
        assert_eq!(plan[0].label, label);
        assert_eq!(plan[0].action, TrackAction::MoveTo { x: expected.0, y: expected.1 });
        position = Position { x: expected.0 as i32, y: expected.1 as i32 };
        finish_tick(&mut state, &plan);

        let windows = vec![open_at("sticky_0", position.x, position.y)];
        let settled = plan_tick(&state.snapshot(), &external, &windows);
        assert_eq!(settled[0].action, TrackAction::Keep);
    }
    assert_eq!(position, Position { x: 443_456, y: -205_322 });
    let info = state.get(&label).unwrap();
    assert_eq!((info.offset_x, info.offset_y), (200_000, 300_000));
}

#[test]
fn first_tick_after_attach_leaves_the_note_alone() {
    let mut state = AnchorState::new();
    let local = Rect { x: 12_345, y: -6_789, width: 300_000, height: 250_000 };
    let external = vec![target(1, 100_000, 100_000)];
    anchor_to_nearest(&mut state, "sticky_0".to_string(), Some(local), &external).unwrap();
    let snapshot = begin_tick(&mut state).unwrap();
    let plan = plan_tick(&snapshot, &external, &vec![open_at("sticky_0", 12_345, -6_789)]);
    assert_eq!(plan, vec![Step { label: "sticky_0".to_string(), action: TrackAction::Keep }]);
}

#[test]
fn plan_has_one_step_for_each_entry_in_order() {
    let snapshot = vec![
        Anchored { label: "a".to_string(), anchor: anchor(1, 0, 0) },
        Anchored { label: "b".to_string(), anchor: anchor(2, 0, 0) },
        Anchored { label: "c".to_string(), anchor: anchor(1, 5_000, 5_000) },
        Anchored { label: "d".to_string(), anchor: anchor(1, 0, 0) },
        Anchored { label: "e".to_string(), anchor: anchor(1, 0, 0) },
    ];
    let external = vec![target(1, 10_000, 10_000)];
    let windows = vec![
        open_at("a", 10_000, 10_000),
        open_at("b", 0, 0),
        open_at("c", 0, 0),
        LocalWindow { label: "e".to_string(), position: None },
    ];
    let plan = plan_tick(&snapshot, &external, &windows);
    assert_eq!(
        plan,
        vec![
            Step { label: "a".to_string(), action: TrackAction::Keep },
            Step { label: "b".to_string(), action: TrackAction::Lost },
            Step { label: "c".to_string(), action: TrackAction::MoveTo { x: 15_000, y: 15_000 } },
            Step { label: "d".to_string(), action: TrackAction::Forget },
            Step { label: "e".to_string(), action: TrackAction::Keep },
        ]
    );
}

#[test]
fn plan_of_an_empty_snapshot_is_empty() {
    let plan = plan_tick(&Vec::new(), &vec![target(1, 0, 0)], &vec![open_at("a", 0, 0)]);
    assert!(plan.is_empty());
}

#[test]
fn lost_target_removes_its_anchor_and_notifies_once() {
    let mut state = AnchorState::new();
    let external = vec![target(1, 0, 0), target(2, 1_000_000, 1_000_000)];
    let near_first = Rect { x: 10_000, y: 10_000, width: 300_000, height: 250_000 };
    let near_second = Rect { x: 1_010_000, y: 1_010_000, width: 300_000, height: 250_000 };
    anchor_to_nearest(&mut state, "sticky_0".to_string(), Some(near_first), &external).unwrap();
    anchor_to_nearest(&mut state, "sticky_1".to_string(), Some(near_second), &external).unwrap();
    assert_eq!(state.get(&"sticky_0".to_string()).unwrap().target_window_id, 1);
    assert_eq!(state.get(&"sticky_1".to_string()).unwrap().target_window_id, 2);
    let kept_before = state.get(&"sticky_1".to_string()).unwrap().duplicate();

    let remaining = vec![target(2, 1_000_000, 1_000_000)];
    let windows = vec![open_at("sticky_0", 10_000, 10_000), open_at("sticky_1", 1_010_000, 1_010_000)];
    let snapshot = begin_tick(&mut state).unwrap();
    let plan = plan_tick(&snapshot, &remaining, &windows);
    let notices: Vec<&Step> = plan.iter().filter(|s| s.action == TrackAction::Lost).collect();
    assert_eq!(notices.len(), 1);
    assert_eq!(notices[0].label, "sticky_0");
    finish_tick(&mut state, &plan);

    assert!(!state.is_anchored(&"sticky_0".to_string()));
    assert_eq!(state.get(&"sticky_1".to_string()), Some(&kept_before));
    assert_eq!(state.len(), 1);
    assert!(state.polling_active());

    let snapshot = begin_tick(&mut state).unwrap();
    let plan = plan_tick(&snapshot, &remaining, &windows);
    assert!(plan.iter().all(|s| s.action != TrackAction::Lost));
}

#[test]
fn finish_tick_drops_forgotten_and_lost_anchors_only() {
    let mut state = AnchorState::new();
    for (label, id) in [("a", 1), ("b", 2), ("c", 3), ("d", 4)] {
        state.insert(label.to_string(), anchor(id, 0, 0));
    }
    let plan = vec![
        Step { label: "a".to_string(), action: TrackAction::Keep },
        Step { label: "b".to_string(), action: TrackAction::Lost },
        Step { label: "c".to_string(), action: TrackAction::MoveTo { x: 1, y: 2 } },
        Step { label: "d".to_string(), action: TrackAction::Forget },
        Step { label: "unknown".to_string(), action: TrackAction::Lost },
    ];
    finish_tick(&mut state, &plan);
    assert_eq!(state.len(), 2);
    assert_eq!(state.get(&"a".to_string()), Some(&anchor(1, 0, 0)));
    assert_eq!(state.get(&"c".to_string()), Some(&anchor(3, 0, 0)));
    finish_tick(&mut state, &Vec::new());
    assert_eq!(state.len(), 2);
}

#[test]
fn tick_on_an_empty_registry_ends_the_loop() {
    let mut state = AnchorState::new();
    state.get_and_set_polling_flag();
    assert_eq!(begin_tick(&mut state), None);
    assert!(!state.polling_active());
}

#[test]
fn tick_with_anchors_keeps_the_loop_alive() {
    let mut state = AnchorState::new();
    anchor_to_nearest(
        &mut state,
        "sticky_0".to_string(),
        Some(Rect { x: 0, y: 0, width: 1, height: 1 }),
        &[target(1, 0, 0)],
    )
    .unwrap();
    let snapshot = begin_tick(&mut state).unwrap();
    assert_eq!(snapshot, vec![Anchored { label: "sticky_0".to_string(), anchor: anchor(1, 0, 0) }]);
    assert!(state.polling_active());
    assert_eq!(state.len(), 1);
}

#[test]
fn loop_ends_at_the_first_tick_after_the_last_detach() {
    let mut state = AnchorState::new();
    let external = vec![target(1, 0, 0)];
    let label = "sticky_0".to_string();
    let frame = Some(Rect { x: 0, y: 0, width: 1, height: 1 });
    assert!(anchor_to_nearest(&mut state, label.clone(), frame, &external).unwrap().start_polling);
    assert!(begin_tick(&mut state).is_some());
    unanchor(&mut state, &label);
    assert!(state.polling_active());
    assert!(begin_tick(&mut state).is_none());
    assert!(!state.polling_active());
    assert!(anchor_to_nearest(&mut state, label.clone(), frame, &external).unwrap().start_polling);
}
