use codex_peek::windows::design::{DialogPalette, DialogTheme};
use codex_peek::windows::dialog_events::{
    add_dialog_command_route, dialog_control_colors, dialog_message_route, dialog_theme_for,
    manager_command_route, primary_button_draw_applies, primary_button_draw_result,
    profile_row_draw_index, requested_dialog_dpi, AddDialogCommandRoute, DialogMessageRoute,
    ManagerCommandRoute, ProfileDialogKind, CDDS_PREPAINT, CDRF_SKIPDEFAULT, LBN_SELCHANGE,
    NM_CUSTOMDRAW, ODT_LISTBOX, PROFILE_LIST_ID, WM_COMMAND, WM_CTLCOLORBTN, WM_CTLCOLOREDIT,
    WM_CTLCOLORLISTBOX, WM_CTLCOLORSTATIC, WM_DRAWITEM, WM_ERASEBKGND, WM_NOTIFY,
};
use codex_peek::windows::dialog_resources::{DialogFontFace, DialogResourceBackend, DialogVisualResources, ResourceCall};
use codex_peek::windows::profile_dialog::ProfileDialogKeyboardCommand;
use codex_peek::windows::profile_rows::{DELETE_ID, LOGIN_ID, LOGOUT_ID, OPEN_ADD_ID, RENAME_ID};
use codex_peek::windows::shell_events::{WM_CLOSE, WM_DESTROY, WM_DPICHANGED, WM_PAINT, WM_SETTINGCHANGE, WM_THEMECHANGED};

struct CountingBackend {
    next: usize,
}

impl DialogResourceBackend for CountingBackend {
    fn resource_calls(&self) -> vstd::seq::Seq<ResourceCall> {
        vstd::seq::Seq::empty()
    }

    fn create_font(&mut self, _dpi: u32, _heading: bool, _face: DialogFontFace) -> usize {
        self.next += 1;
        self.next
    }

    fn stock_font(&mut self) -> usize {
        99
    }

    fn create_brush(&mut self, _colorref: u32) -> usize {
        self.next += 1;
        self.next
    }

    fn delete_object(&mut self, _handle: usize) {}
}

fn command(control: usize, notification: usize) -> usize {
    (notification << 16) | control
}

#[test]
fn dpi_change_reads_the_requested_dpi_from_the_high_word() {
    assert_eq!(
        dialog_message_route(ProfileDialogKind::Manager, WM_DPICHANGED, (144 << 16) | 144),
        DialogMessageRoute::DpiChanged { requested_dpi: 144 }
    );
    assert_eq!(
        dialog_message_route(ProfileDialogKind::AddPrompt, WM_DPICHANGED, (192 << 16) | 7),
        DialogMessageRoute::DpiChanged { requested_dpi: 192 }
    );
    assert_eq!(requested_dialog_dpi(0), 96);
    assert_eq!(requested_dialog_dpi(95), 96);
    assert_eq!(requested_dialog_dpi(120), 120);
}

#[test]
fn only_the_manager_draws_list_rows_and_both_dialogs_route_the_rest_alike() {
    for kind in [ProfileDialogKind::Manager, ProfileDialogKind::AddPrompt] {
        assert_eq!(dialog_message_route(kind, WM_SETTINGCHANGE, 0), DialogMessageRoute::VisualsChanged);
        assert_eq!(dialog_message_route(kind, WM_THEMECHANGED, 0), DialogMessageRoute::VisualsChanged);
        assert_eq!(dialog_message_route(kind, WM_ERASEBKGND, 0), DialogMessageRoute::EraseBackground);
        for message in [WM_CTLCOLORSTATIC, WM_CTLCOLORBTN, WM_CTLCOLOREDIT, WM_CTLCOLORLISTBOX] {
            assert_eq!(dialog_message_route(kind, message, 0), DialogMessageRoute::ControlColor);
        }
        assert_eq!(dialog_message_route(kind, WM_NOTIFY, 0), DialogMessageRoute::Notify);
        assert_eq!(dialog_message_route(kind, WM_COMMAND, 0), DialogMessageRoute::Command);
        assert_eq!(dialog_message_route(kind, WM_CLOSE, 0), DialogMessageRoute::Close);
        assert_eq!(dialog_message_route(kind, WM_DESTROY, 0), DialogMessageRoute::Handled);
        assert_eq!(dialog_message_route(kind, WM_PAINT, 0), DialogMessageRoute::Default);
    }
    assert_eq!(
        dialog_message_route(ProfileDialogKind::Manager, WM_DRAWITEM, 0),
        DialogMessageRoute::DrawItem
    );
    assert_eq!(
        dialog_message_route(ProfileDialogKind::AddPrompt, WM_DRAWITEM, 0),
        DialogMessageRoute::Default
    );
}

#[test]
fn manager_commands_follow_the_control_identifier() {
    assert_eq!(
        manager_command_route(command(2, 0)),
        ManagerCommandRoute::Keyboard(ProfileDialogKeyboardCommand::Cancel)
    );
    assert_eq!(
        manager_command_route(command(1, 0)),
        ManagerCommandRoute::Keyboard(ProfileDialogKeyboardCommand::Accept)
    );
    assert_eq!(
        manager_command_route(command(PROFILE_LIST_ID as usize, LBN_SELCHANGE as usize)),
        ManagerCommandRoute::SelectionChanged
    );
    assert_eq!(
        manager_command_route(command(PROFILE_LIST_ID as usize, 4)),
        ManagerCommandRoute::Ignore
    );
    assert_eq!(manager_command_route(command(OPEN_ADD_ID as usize, 0)), ManagerCommandRoute::OpenAdd);
    assert_eq!(manager_command_route(command(RENAME_ID as usize, 0)), ManagerCommandRoute::Rename);
    assert_eq!(manager_command_route(command(LOGIN_ID as usize, 0)), ManagerCommandRoute::Login);
    assert_eq!(manager_command_route(command(LOGOUT_ID as usize, 0)), ManagerCommandRoute::Logout);
    assert_eq!(manager_command_route(command(DELETE_ID as usize, 0)), ManagerCommandRoute::Delete);
    assert_eq!(manager_command_route(command(4101, 0)), ManagerCommandRoute::Ignore);
}

#[test]
fn add_prompt_commands_submit_on_ok_and_cancel_on_cancel() {
    assert_eq!(add_dialog_command_route(command(1, 0)), AddDialogCommandRoute::Submit);
    assert_eq!(add_dialog_command_route(command(2, 0)), AddDialogCommandRoute::Cancel);
    assert_eq!(add_dialog_command_route(command(4200, 0x0300)), AddDialogCommandRoute::Ignore);
}

#[test]
fn only_real_items_of_the_profile_list_are_drawn() {
    assert_eq!(profile_row_draw_index(ODT_LISTBOX, 4100, 3), Some(3));
    assert_eq!(profile_row_draw_index(ODT_LISTBOX, 4100, u32::MAX), None);
    assert_eq!(profile_row_draw_index(ODT_LISTBOX, 4101, 0), None);
    assert_eq!(profile_row_draw_index(4, 4100, 0), None);
}

#[test]
fn primary_button_custom_draw_applies_only_to_its_prepaint() {
    assert!(primary_button_draw_applies(NM_CUSTOMDRAW, 4104, 4104, CDDS_PREPAINT, 77));
    assert!(!primary_button_draw_applies(NM_CUSTOMDRAW, 4105, 4104, CDDS_PREPAINT, 77));
    assert!(!primary_button_draw_applies(NM_CUSTOMDRAW, 4104, 4104, 0x0001_0001, 77));
    assert!(!primary_button_draw_applies(NM_CUSTOMDRAW, 4104, 4104, CDDS_PREPAINT, 0));
    assert!(!primary_button_draw_applies(0xffff_fff0, 1, 1, CDDS_PREPAINT, 77));
    assert_eq!(primary_button_draw_result(true), CDRF_SKIPDEFAULT);
    assert_eq!(primary_button_draw_result(false), 0);
}

#[test]
fn static_text_and_buttons_sit_on_the_background_and_fields_on_the_surface() {
    let resources = DialogVisualResources::new_with_backend(96, DialogTheme::Light, CountingBackend { next: 0 });
    let palette = DialogPalette::for_theme(DialogTheme::Light);
    let set = resources.resources();
    for message in [WM_CTLCOLORSTATIC, WM_CTLCOLORBTN] {
        let colors = dialog_control_colors(&resources, message);
        assert_eq!(colors.text, palette.text.colorref);
        assert_eq!(colors.background, 0x00f3_f3f3);
        assert_eq!(colors.brush, set.background_brush);
    }
    for message in [WM_CTLCOLOREDIT, WM_CTLCOLORLISTBOX] {
        let colors = dialog_control_colors(&resources, message);
        assert_eq!(colors.text, 0x0020_2020);
        assert_eq!(colors.background, 0x00ff_ffff);
        assert_eq!(colors.brush, set.surface_brush);
    }
    assert_eq!(set.background_brush, 3);
    assert_eq!(set.surface_brush, 4);
}

#[test]
fn dialog_theme_follows_the_system_theme() {
    assert_eq!(dialog_theme_for(true), DialogTheme::Light);
    assert_eq!(dialog_theme_for(false), DialogTheme::Dark);
}
