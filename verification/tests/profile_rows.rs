use codex_peek::windows::design::{
    profile_manager_layout, scale_logical, DialogColor, DialogLayoutInput, DialogPalette,
    DialogTheme, LogicalRect, OUTER_PADDING,
};
use codex_peek::windows::profile_dialog::ProfileManagerControl;
use codex_peek::windows::profile_rows::{
    composite_dialog_color, dialog_child_setpos_rect, fit_manager_layout_to_client_height,
    manager_control_id,
    physical_to_logical_floor, profile_row_content_padding, profile_row_first_line_layout,
    profile_row_surface_color, profile_row_visual_state, translate_rect_y, ProfileRowSurfaceRole,
};
use codex_peek::windows::{ProfileUsageStatus, UsageProfileView};
use codex_peek::UsageProfileId;

fn work_profile(used_percent: Option<u8>, usage_status: Option<ProfileUsageStatus>) -> UsageProfileView {
    UsageProfileView {
        id: UsageProfileId::Managed(1),
        label: "Work".to_string(),
        summary: "Ready".to_string(),
        details: String::new(),
        selected: false,
        login_required: false,
        used_percent,
        usage_status,
        managed: true,
    }
}

#[test]
fn profile_row_visual_state_uses_native_selection_and_focus() {
    let profile = work_profile(Some(42), Some(ProfileUsageStatus::Healthy));

    let neutral = profile_row_visual_state(&profile, false, false);
    assert_eq!(neutral.surface, ProfileRowSurfaceRole::Neutral);
    assert!(!neutral.focused);

    let selected = profile_row_visual_state(&profile, true, true);
    assert_eq!(selected.surface, ProfileRowSurfaceRole::Selected);
    assert!(selected.focused);
}

#[test]
fn profile_row_visual_state_preserves_typed_status_and_clamps_percent() {
    for (percent, status, expected_percent) in [
        (24, ProfileUsageStatus::Healthy, 24),
        (81, ProfileUsageStatus::Warning, 81),
        (255, ProfileUsageStatus::Critical, 100),
    ] {
        let profile = work_profile(Some(percent), Some(status));

        assert_eq!(
            profile_row_visual_state(&profile, false, false).progress,
            Some((expected_percent, status))
        );
    }
}

#[test]
fn profile_row_visual_state_requires_complete_usage_and_exposes_text_marker_flags() {
    let profile = UsageProfileView {
        id: UsageProfileId::System,
        label: "Main".to_string(),
        summary: "Login required".to_string(),
        details: String::new(),
        selected: true,
        login_required: true,
        used_percent: None,
        usage_status: None,
        managed: false,
    };

    let visual = profile_row_visual_state(&profile, false, false);
    assert_eq!(visual.progress, None);
    assert!(visual.system_marker);
    assert!(visual.current_marker);

    let incomplete_usage = UsageProfileView {
        login_required: false,
        used_percent: Some(0),
        ..profile
    };
    assert_eq!(profile_row_visual_state(&incomplete_usage, false, false).progress, None);
}

#[test]
fn profile_row_translucent_track_composites_over_row_surface() {
    assert_eq!(
        composite_dialog_color(
            DialogColor::translucent(0x0000_0000, 36),
            DialogColor::opaque(0x00ff_ffff)
        ),
        0x00db_dbdb
    );
}

#[test]
fn profile_row_selected_surface_is_a_subtle_green_tint_on_both_themes() {
    let light = DialogPalette::for_theme(DialogTheme::Light);
    assert_eq!(profile_row_surface_color(light, ProfileRowSurfaceRole::Neutral), 0x00ff_ffff);
    assert_eq!(profile_row_surface_color(light, ProfileRowSurfaceRole::Selected), 0x00f4_fbf1);

    let dark = DialogPalette::for_theme(DialogTheme::Dark);
    assert_eq!(profile_row_surface_color(dark, ProfileRowSurfaceRole::Neutral), 0x0026_2626);
    assert_eq!(profile_row_surface_color(dark, ProfileRowSurfaceRole::Selected), 0x002c_3329);
}

#[test]
fn login_required_hides_progress_even_with_usage() {
    let mut profile = work_profile(Some(50), Some(ProfileUsageStatus::Healthy));
    profile.login_required = true;
    assert_eq!(profile_row_visual_state(&profile, false, false).progress, None);
    let missing_status = work_profile(Some(50), None);
    assert_eq!(profile_row_visual_state(&missing_status, false, false).progress, None);
}

#[test]
fn first_line_reserves_markers_on_the_trailing_side() {
    let line = LogicalRect::new(16, 4, 216, 24);
    let ltr = profile_row_first_line_layout(line, 50, 96, false);
    assert_eq!(ltr.markers, Some(LogicalRect::new(166, 4, 216, 24)));
    assert_eq!(ltr.name, LogicalRect::new(16, 4, 158, 24));
    let rtl = profile_row_first_line_layout(line, 50, 96, true);
    assert_eq!(rtl.markers, Some(LogicalRect::new(16, 4, 66, 24)));
    assert_eq!(rtl.name, LogicalRect::new(74, 4, 216, 24));
    let none = profile_row_first_line_layout(line, 0, 96, false);
    assert_eq!(none.markers, None);
    assert_eq!(none.name, line);
    let crowded = profile_row_first_line_layout(line, 500, 96, false);
    assert_eq!(crowded.markers, Some(line));
    assert_eq!(crowded.name, LogicalRect::new(16, 4, 16, 24));
}

#[test]
fn mirrored_parent_coordinates_round_trip() {
    let rect = LogicalRect::new(20, 5, 120, 37);
    let converted = dialog_child_setpos_rect(rect, 400, true);
    assert_eq!(converted, LogicalRect::new(280, 5, 380, 37));
    assert_eq!(dialog_child_setpos_rect(converted, 400, true), rect);
    assert_eq!(dialog_child_setpos_rect(rect, 400, false), rect);
}

#[test]
fn small_helpers_keep_their_units() {
    assert_eq!(physical_to_logical_floor(150, 144), 100);
    assert_eq!(physical_to_logical_floor(-5, 144), 0);
    assert_eq!(physical_to_logical_floor(100, 48), 100);
    assert_eq!(translate_rect_y(LogicalRect::new(1, 2, 3, 4), -2), LogicalRect::new(1, 0, 3, 2));
    assert_eq!(profile_row_content_padding(96), 16);
    assert_eq!(profile_row_content_padding(144), 24);
    assert_eq!(manager_control_id(ProfileManagerControl::AddBelowList), 4102);
    assert_eq!(manager_control_id(ProfileManagerControl::Delete), 4106);
}

fn mirrored_parent_physical_rect(rect: LogicalRect, width: i32) -> LogicalRect {
    LogicalRect::new(width - rect.right, rect.top, width - rect.left, rect.bottom)
}

#[test]
fn rtl_child_setpos_coordinates_produce_the_pure_layout_physical_rectangles_once() {
    let layout = profile_manager_layout(DialogLayoutInput::new(620, 144, true, [160, 120, 140, 100]));

    for desired in [
        layout.add_control,
        layout.name_edit,
        layout.action_buttons[0],
        layout.action_buttons[1],
        layout.action_buttons[2],
        layout.action_buttons[3],
    ] {
        let setpos = dialog_child_setpos_rect(desired, layout.client.width(), true);
        assert_eq!(mirrored_parent_physical_rect(setpos, layout.client.width()), desired);
    }
}

#[test]
fn constrained_manager_height_reduces_only_the_list_to_whole_rows() {
    for (dpi, expected_rows) in [(144, 2), (192, 1)] {
        let layout = profile_manager_layout(DialogLayoutInput::new(620, dpi, false, [160, 120, 140, 100]));
        let row_height = scale_logical(56, dpi);
        let fixed_height = layout.client.height() - layout.list.height();
        let maximum_height = fixed_height + row_height * expected_rows;

        let fitted = fit_manager_layout_to_client_height(layout, maximum_height, dpi);

        assert_eq!(fitted.client.height(), maximum_height);
        assert_eq!(fitted.list.height(), row_height * expected_rows);
        assert_eq!(fitted.add_control.height(), layout.add_control.height());
        assert_eq!(fitted.name_edit.height(), layout.name_edit.height());
        assert!(fitted
            .action_buttons
            .iter()
            .zip(layout.action_buttons)
            .all(|(actual, original)| actual.height() == original.height()));
        assert!(fitted.list.bottom <= fitted.add_control.top);
        assert!(fitted.action_buttons.iter().all(|rect| rect.bottom <= fitted.client.bottom));
    }
}

#[test]
fn profile_row_content_padding_matches_shared_outer_padding() {
    for dpi in [96, 120, 144, 168, 192] {
        assert_eq!(profile_row_content_padding(dpi), scale_logical(OUTER_PADDING, dpi));
    }
}

#[test]
fn long_profile_names_reserve_a_non_overlapping_trailing_marker_region_at_every_dpi() {
    for dpi in [96, 120, 144, 168, 192] {
        let width = scale_logical(190, dpi);
        let marker_width = scale_logical(112, dpi);
        let line = LogicalRect::new(0, 0, width, scale_logical(19, dpi));

        for rtl in [false, true] {
            let layout = profile_row_first_line_layout(line, marker_width, dpi, rtl);
            let markers = layout.markers.expect("role markers must have a reserved region");
            assert_eq!(markers.width(), marker_width);
            assert!(!layout.name.intersects(markers));
            if rtl {
                assert_eq!(markers.left, line.left);
                assert_eq!(layout.name.right, line.right);
            } else {
                assert_eq!(markers.right, line.right);
                assert_eq!(layout.name.left, line.left);
            }
        }
    }
}
