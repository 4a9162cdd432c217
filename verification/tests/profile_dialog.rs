use codex_peek::windows::profile_dialog::{
    add_profile_dialog_monitor_anchor, centered_dialog_origin, profile_manager_dialog_monitor_anchor,
    DialogMonitorAnchor, DialogOrigin, DialogWindowSize, DialogWorkArea,
};

#[test]
fn centered_dialog_centers_a_standard_manager_in_the_work_area() {
    let origin = centered_dialog_origin(
        DialogWorkArea::new(0, 0, 1920, 1040),
        DialogWindowSize::new(650, 410),
    );

    assert_eq!(origin, DialogOrigin::new(635, 315));
}

#[test]
fn centered_dialog_preserves_negative_secondary_monitor_coordinates() {
    let origin = centered_dialog_origin(
        DialogWorkArea::new(-1920, -40, 0, 1000),
        DialogWindowSize::new(513, 401),
    );

    assert_eq!(origin, DialogOrigin::new(-1217, 279));
}

#[test]
fn centered_dialog_rounds_odd_dimensions_down_from_the_work_area_start() {
    let origin = centered_dialog_origin(
        DialogWorkArea::new(10, 15, 1931, 1056),
        DialogWindowSize::new(651, 411),
    );

    assert_eq!(origin, DialogOrigin::new(645, 330));
}

#[test]
fn centered_dialog_anchors_an_oversized_window_at_the_work_area_start() {
    let origin = centered_dialog_origin(
        DialogWorkArea::new(100, 50, 2020, 1090),
        DialogWindowSize::new(2000, 1200),
    );

    assert_eq!(origin, DialogOrigin::new(100, 50));
}

#[test]
fn add_dialog_follows_a_live_owner_and_otherwise_the_cursor() {
    let size = DialogWindowSize::new(650, 410);
    assert_eq!(add_profile_dialog_monitor_anchor(42, Some(size)), DialogMonitorAnchor::Owner(42));
    assert_eq!(add_profile_dialog_monitor_anchor(0, Some(size)), DialogMonitorAnchor::Cursor);
    assert_eq!(add_profile_dialog_monitor_anchor(42, None), DialogMonitorAnchor::Cursor);
    assert_eq!(
        add_profile_dialog_monitor_anchor(42, Some(DialogWindowSize::new(0, 410))),
        DialogMonitorAnchor::Cursor
    );
    assert_eq!(
        add_profile_dialog_monitor_anchor(42, Some(DialogWindowSize::new(650, -1))),
        DialogMonitorAnchor::Cursor
    );
    assert_eq!(profile_manager_dialog_monitor_anchor(), DialogMonitorAnchor::Cursor);
}
