use sticky_notes::anchor::{anchor_to_nearest, start_polling_if_needed, toggle, unanchor};
use sticky_notes::anchor::{AnchorError, Toggled};
use sticky_notes::geometry::{centroid_distance_of, Rect, UNITS_PER_PIXEL};
use sticky_notes::inventory::ExternalWindow;
use sticky_notes::registry::{AnchorInfo, AnchorState};
use sticky_notes::resolver::{find_nearest_window, find_window_by_id};

fn px(pixels: i32) -> i32 {
    pixels * UNITS_PER_PIXEL
}

fn window(id: u32, x: i32, y: i32, width: i32, height: i32, owner: &str) -> ExternalWindow {
    ExternalWindow {
        id,
        x: px(x),
        y: px(y),
        width: px(width),
        height: px(height),
        owner_name: owner.to_string(),
    }
}

fn rect(x: i32, y: i32, width: i32, height: i32) -> Rect {
    Rect { x: px(x), y: px(y), width: px(width), height: px(height) }
}

#[test]
fn one_pixel_is_a_thousand_units() {
    assert_eq!(UNITS_PER_PIXEL, 1000);
}

#[test]
fn centroid_distance_is_four_times_the_squared_distance() {
    let a = Rect { x: 0, y: 0, width: 10, height: 10 };
    let b = Rect { x: 3, y: 4, width: 10, height: 10 };
    assert_eq!(centroid_distance_of(&a, &b), 100);
    assert_eq!(centroid_distance_of(&b, &a), 100);
    assert_eq!(centroid_distance_of(&a, &a), 0);
}

#[test]
fn centroid_distance_keeps_half_units() {
    let a = Rect { x: 0, y: 0, width: 1, height: 0 };
    let b = Rect { x: 0, y: 0, width: 0, height: 0 };
    assert_eq!(centroid_distance_of(&a, &b), 1);
}

#[test]
fn centroid_distance_of_the_farthest_corners_does_not_overflow() {
    let a = Rect { x: i32::MIN, y: i32::MIN, width: i32::MIN, height: i32::MIN };
    let b = Rect { x: i32::MAX, y: i32::MAX, width: i32::MAX, height: i32::MAX };
    let gap: u128 = 3 * (i32::MAX as i64 - i32::MIN as i64) as u128;
    assert_eq!(centroid_distance_of(&a, &b), 2 * gap * gap);
}

#[test]
fn nearest_of_two_candidates_is_the_one_around_the_note() {
    let candidates = vec![
        window(1, 0, 0, 200, 200, "Editor"),
        window(2, 1000, 1000, 100, 100, "Browser"),
    ];
    let found = find_nearest_window(px(40), px(40), px(100), px(100), &candidates);
    assert_eq!(found, Some(&candidates[0]));
}

#[test]
fn nearest_does_not_depend_on_position_in_the_list() {
    let candidates = vec![
        window(2, 1000, 1000, 100, 100, "Browser"),
        window(1, 0, 0, 200, 200, "Editor"),
    ];
    let found = find_nearest_window(px(40), px(40), px(100), px(100), &candidates);
    assert_eq!(found.map(|w| w.id), Some(1));
}

#[test]
fn nearest_goes_by_centres_not_by_corners() {
    let candidates = vec![
        window(1, 0, 0, 1000, 1000, "Wide"),
        window(2, 120, 120, 60, 60, "Small"),
    ];
    let found = find_nearest_window(px(10), px(10), px(20), px(20), &candidates);
    assert_eq!(found.map(|w| w.id), Some(2));
}

#[test]
fn nearest_of_equally_near_candidates_is_the_first() {
    let candidates = vec![
        window(7, 100, 0, 50, 50, "Right"),
        window(8, -100, 0, 50, 50, "Left"),
    ];
    let found = find_nearest_window(px(0), px(0), px(50), px(50), &candidates);
    assert_eq!(found.map(|w| w.id), Some(7));
}

#[test]
fn nearest_of_nothing_is_none() {
    let candidates: Vec<ExternalWindow> = Vec::new();
    assert_eq!(find_nearest_window(0, 0, 10, 10, &candidates), None);
}

#[test]
fn window_is_found_by_its_id() {
    let windows = vec![window(4, 0, 0, 100, 100, "A"), window(9, 5, 5, 100, 100, "B")];
    assert_eq!(find_window_by_id(9, &windows), Some(&windows[1]));
    assert_eq!(find_window_by_id(5, &windows), None);
    assert_eq!(find_window_by_id(4, &[]), None);
}

#[test]
fn first_of_two_windows_with_one_id_is_found() {
    let windows = vec![
        window(4, 0, 0, 100, 100, "First"),
        window(4, 500, 500, 100, 100, "Second"),
    ];
    assert_eq!(find_window_by_id(4, &windows).map(|w| w.owner_name.as_str()), Some("First"));
}

#[test]
fn attach_records_the_offset_to_the_nearest_window() {
    let mut state = AnchorState::new();
    let external = vec![
        window(11, 100, 100, 400, 300, "Editor"),
        window(12, 2000, 2000, 400, 300, "Browser"),
    ];
    let label = "sticky_0".to_string();
    let attached =
        anchor_to_nearest(&mut state, label.clone(), Some(rect(300, 400, 300, 250)), &external)
            .unwrap();
    assert_eq!(attached.target_name, "Editor");
    assert!(attached.start_polling);
    assert!(state.polling_active());
    assert_eq!(state.len(), 1);
    assert_eq!(
        state.get(&label),
        Some(&AnchorInfo {
            target_window_id: 11,
            offset_x: 200_000,
            offset_y: 300_000,
            target_app_name: "Editor".to_string(),
        })
    );
}

#[test]
fn attach_offset_may_be_negative_and_fractional() {
    let mut state = AnchorState::new();
    let external = vec![window(3, 500, 500, 100, 100, "Term")];
    let label = "sticky_1".to_string();
    let local = Rect { x: 499_500, y: 480_250, width: px(100), height: px(100) };
    anchor_to_nearest(&mut state, label.clone(), Some(local), &external).unwrap();
    let info = state.get(&label).unwrap();
    assert_eq!((info.offset_x, info.offset_y), (-500, -19_750));
}

#[test]
fn attach_offset_spans_the_whole_coordinate_range() {
    let mut state = AnchorState::new();
    let external = vec![ExternalWindow {
        id: 1,
        x: i32::MIN,
        y: i32::MAX,
        width: 0,
        height: 0,
        owner_name: String::new(),
    }];
    let label = "sticky_2".to_string();
    let local = Rect { x: i32::MAX, y: i32::MIN, width: 0, height: 0 };
    anchor_to_nearest(&mut state, label.clone(), Some(local), &external).unwrap();
    let info = state.get(&label).unwrap();
    assert_eq!((info.offset_x, info.offset_y), (4_294_967_295, -4_294_967_295));
}

#[test]
fn attach_without_candidates_fails_and_leaves_an_empty_registry_empty() {
    let mut state = AnchorState::new();
    let result =
        anchor_to_nearest(&mut state, "sticky_0".to_string(), Some(rect(0, 0, 300, 250)), &[]);
    assert_eq!(result, Err(AnchorError::NoCandidates));
    assert!(state.is_empty());
    assert!(!state.polling_active());
}

#[test]
fn attach_without_candidates_leaves_other_anchors_alone() {
    let mut state = AnchorState::new();
    let external = vec![window(11, 100, 100, 400, 300, "Editor")];
    let kept = "sticky_0".to_string();
    anchor_to_nearest(&mut state, kept.clone(), Some(rect(0, 0, 300, 250)), &external).unwrap();
    let before = state.snapshot();

    let result =
        anchor_to_nearest(&mut state, "sticky_1".to_string(), Some(rect(0, 0, 300, 250)), &[]);
    assert_eq!(result, Err(AnchorError::NoCandidates));
    assert_eq!(state.snapshot(), before);
    assert!(!state.is_anchored(&"sticky_1".to_string()));
    assert!(state.polling_active());
}

#[test]
fn attach_without_geometry_fails_and_changes_nothing() {
    let mut state = AnchorState::new();
    let external = vec![window(11, 100, 100, 400, 300, "Editor")];
    let result = anchor_to_nearest(&mut state, "sticky_0".to_string(), None, &external);
    assert_eq!(result, Err(AnchorError::GeometryUnavailable));
    assert!(state.is_empty());
    assert!(!state.polling_active());
}

#[test]
fn empty_inventory_is_reported_before_missing_geometry() {
    let mut state = AnchorState::new();
    let result = anchor_to_nearest(&mut state, "sticky_0".to_string(), None, &[]);
    assert_eq!(result, Err(AnchorError::NoCandidates));
}

#[test]
fn error_messages_name_the_reason() {
    assert_eq!(AnchorError::NoCandidates.message(), "No external windows found to anchor to");
    assert_eq!(
        AnchorError::GeometryUnavailable.message(),
        "Could not read the position and size of the note"
    );
}

#[test]
fn only_the_first_attach_starts_the_loop() {
    let mut state = AnchorState::new();
    let external = vec![window(11, 100, 100, 400, 300, "Editor")];
    let first =
        anchor_to_nearest(&mut state, "sticky_0".to_string(), Some(rect(0, 0, 300, 250)), &external)
            .unwrap();
    let again =
        anchor_to_nearest(&mut state, "sticky_0".to_string(), Some(rect(0, 0, 300, 250)), &external)
            .unwrap();
    let other =
        anchor_to_nearest(&mut state, "sticky_1".to_string(), Some(rect(9, 9, 300, 250)), &external)
            .unwrap();
    assert!(first.start_polling);
    assert!(!again.start_polling);
    assert!(!other.start_polling);
    assert!(state.polling_active());
    assert_eq!(state.len(), 2);
}

#[test]
fn start_polling_is_needed_once() {
    let mut state = AnchorState::new();
    assert!(start_polling_if_needed(&mut state));
    assert!(state.polling_active());
    assert!(!start_polling_if_needed(&mut state));
    assert!(state.polling_active());
}

#[test]
fn attach_again_replaces_the_anchor() {
    let mut state = AnchorState::new();
    let label = "sticky_0".to_string();
    let external = vec![
        window(11, 0, 0, 100, 100, "Editor"),
        window(12, 1000, 0, 100, 100, "Browser"),
    ];
    anchor_to_nearest(&mut state, label.clone(), Some(rect(10, 10, 100, 100)), &external).unwrap();
    assert_eq!(state.get(&label).unwrap().target_window_id, 11);
    let attached =
        anchor_to_nearest(&mut state, label.clone(), Some(rect(990, 20, 100, 100)), &external)
            .unwrap();
    assert_eq!(attached.target_name, "Browser");
    assert_eq!(state.len(), 1);
    let info = state.get(&label).unwrap();
    assert_eq!(info.target_window_id, 12);
    assert_eq!((info.offset_x, info.offset_y), (-10_000, 20_000));
}

#[test]
fn unanchor_removes_the_anchor_and_is_idempotent() {
    let mut state = AnchorState::new();
    let label = "sticky_0".to_string();
    let other = "sticky_1".to_string();
    let external = vec![window(11, 0, 0, 100, 100, "Editor")];
    anchor_to_nearest(&mut state, label.clone(), Some(rect(10, 10, 100, 100)), &external).unwrap();
    anchor_to_nearest(&mut state, other.clone(), Some(rect(20, 20, 100, 100)), &external).unwrap();

    unanchor(&mut state, &label);
    assert!(!state.is_anchored(&label));
    assert!(state.is_anchored(&other));
    assert_eq!(state.len(), 1);

    unanchor(&mut state, &label);
    assert_eq!(state.len(), 1);
    assert!(state.polling_active());

    unanchor(&mut state, &"never_anchored".to_string());
    assert_eq!(state.len(), 1);
}

#[test]
fn toggle_attaches_then_detaches() {
    let mut state = AnchorState::new();
    let label = "sticky_0".to_string();
    let external = vec![window(11, 0, 0, 100, 100, "Editor")];

    let first = toggle(&mut state, label.clone(), Some(rect(10, 10, 100, 100)), &external);
    match first {
        Ok(Toggled::Attached(attached)) => {
            assert_eq!(attached.target_name, "Editor");
            assert!(attached.start_polling);
        }
        other => panic!("expected an anchoring, got {:?}", other),
    }
    assert!(state.is_anchored(&label));

    let second = toggle(&mut state, label.clone(), Some(rect(10, 10, 100, 100)), &external);
    assert_eq!(second, Ok(Toggled::Detached));
    assert!(!state.is_anchored(&label));
}

#[test]
fn toggle_detaches_without_looking_at_the_inventory() {
    let mut state = AnchorState::new();
    let label = "sticky_0".to_string();
    let external = vec![window(11, 0, 0, 100, 100, "Editor")];
    anchor_to_nearest(&mut state, label.clone(), Some(rect(10, 10, 100, 100)), &external).unwrap();
    assert_eq!(toggle(&mut state, label.clone(), None, &[]), Ok(Toggled::Detached));
    assert!(state.is_empty());
}

#[test]
fn toggle_of_a_free_note_reports_why_it_cannot_attach() {
    let mut state = AnchorState::new();
    let external = vec![window(11, 0, 0, 100, 100, "Editor")];
    assert_eq!(
        toggle(&mut state, "sticky_0".to_string(), Some(rect(0, 0, 1, 1)), &[]),
        Err(AnchorError::NoCandidates)
    );
    assert_eq!(
        toggle(&mut state, "sticky_0".to_string(), None, &external),
        Err(AnchorError::GeometryUnavailable)
    );
    assert!(state.is_empty());
}
