use codex_peek::windows::design::{
    add_profile_layout, profile_manager_layout, scale_logical, DialogLayoutInput, DialogPalette,
    DialogTheme, LogicalRect,
};
use codex_peek::windows::ProfileUsageStatus;

#[test]
fn profile_status_colors_match_design_md() {
    let light = DialogPalette::for_theme(DialogTheme::Light);
    assert_eq!(light.status(ProfileUsageStatus::Healthy), 0x0074_c748);
    assert_eq!(light.status(ProfileUsageStatus::Warning), 0x0023_a6f5);
    assert_eq!(light.status(ProfileUsageStatus::Critical), 0x005c_5cff);
}

#[test]
fn logical_dimensions_scale_at_supported_dpis() {
    for (dpi, expected_row_height) in [(96, 56), (120, 70), (144, 84), (168, 98), (192, 112)] {
        assert_eq!(scale_logical(56, dpi), expected_row_height);
    }
}

#[test]
fn manager_layout_keeps_buttons_single_line_and_uses_whole_button_fallback() {
    let one_row = profile_manager_layout(DialogLayoutInput::new(620, 96, false, [74, 70, 82, 62]));
    assert_eq!(one_row.action_rows, 1);
    assert!(one_row
        .action_buttons
        .windows(2)
        .all(|pair| pair[0].right <= pair[1].left));

    let two_rows =
        profile_manager_layout(DialogLayoutInput::new(420, 96, false, [150, 146, 158, 138]));
    assert_eq!(two_rows.action_rows, 2);
    assert!(two_rows.action_buttons.iter().all(|rect| rect.width() >= 32));
}

#[test]
fn arabic_layout_mirrors_selection_edge_and_action_alignment() {
    let ltr = profile_manager_layout(DialogLayoutInput::new(620, 96, false, [74, 70, 82, 62]));
    let rtl = profile_manager_layout(DialogLayoutInput::new(620, 96, true, [74, 70, 82, 62]));
    assert_eq!(ltr.selection_edge.left, ltr.list.left);
    assert_eq!(rtl.selection_edge.right, rtl.list.right);
    assert_eq!(ltr.action_buttons[3].right, ltr.content.right);
    assert_eq!(rtl.action_buttons[0].left, rtl.content.left);
}

fn assert_rectangles_are_valid(client: LogicalRect, controls: &[LogicalRect]) {
    assert!(controls.iter().all(|rect| rect.is_inside(client)));
    assert!(controls
        .iter()
        .enumerate()
        .all(|(index, rect)| controls[index + 1..].iter().all(|other| !rect.intersects(*other))));
}

#[test]
fn dialog_layouts_stay_inside_client_and_keep_controls_separate_at_supported_dpis() {
    for dpi in [96, 120, 144, 168, 192] {
        let input = DialogLayoutInput::new(620, dpi, false, [74, 70, 82, 62]);
        let manager = profile_manager_layout(input);
        assert_rectangles_are_valid(
            manager.client,
            &[
                manager.list,
                manager.add_control,
                manager.name_label,
                manager.name_edit,
                manager.action_buttons[0],
                manager.action_buttons[1],
                manager.action_buttons[2],
                manager.action_buttons[3],
            ],
        );

        let add = add_profile_layout(input);
        assert_rectangles_are_valid(
            add.client,
            &[add.name_label, add.name_edit, add.action_buttons[0], add.action_buttons[1]],
        );
    }
}

#[test]
fn scale_logical_treats_low_dpi_as_96_and_rounds_half_up() {
    assert_eq!(scale_logical(56, 0), 56);
    assert_eq!(scale_logical(56, 72), 56);
    assert_eq!(scale_logical(3, 144), 5);
    assert_eq!(scale_logical(1, 120), 1);
}

#[test]
fn arabic_add_dialog_keeps_controls_inside_at_high_dpi() {
    let input = DialogLayoutInput::new(500, 192, true, [90, 80, 0, 0]);
    let add = add_profile_layout(input);
    assert_rectangles_are_valid(
        add.client,
        &[add.name_label, add.name_edit, add.action_buttons[0], add.action_buttons[1]],
    );
}

#[test]
fn button_width_pads_the_text_and_keeps_the_minimum_at_any_dpi() {
    assert_eq!(codex_peek::windows::design::button_width(74, 96), 98);
    assert_eq!(codex_peek::windows::design::button_width(10, 96), 72);
    assert_eq!(codex_peek::windows::design::button_width(10, 192), 144);
    assert_eq!(codex_peek::windows::design::button_width(0, 96_000), 72_000);
    assert_eq!(codex_peek::windows::design::button_width(5_000_000, 96), 5_000_024);
}
