//! The decisions of the profile dialogs' window procedures: which message
//! goes where, what a command identifier asks for, which owner-drawn item
//! and custom-draw notification is ours, and the colors of a child control.

use vstd::prelude::*;

use super::design::DialogTheme;
use super::dialog_resources::{DialogResourceBackend, DialogVisualResources};
use super::profile_dialog::{ProfileDialogKeyboardCommand, IDCANCEL, IDOK};
use super::profile_rows::{DELETE_ID, LOGIN_ID, LOGOUT_ID, OPEN_ADD_ID, RENAME_ID};
use super::shell_events::{WM_CLOSE, WM_DESTROY, WM_DPICHANGED, WM_SETTINGCHANGE, WM_THEMECHANGED};

verus! {

/// The manager's profile list.
pub const PROFILE_LIST_ID: i32 = 4100;
/// The manager's name field.
pub const PROFILE_NAME_ID: i32 = 4101;
/// The add prompt's name field.
pub const ADD_PROFILE_NAME_ID: i32 = 4200;

/// `LBN_SELCHANGE`.
pub const LBN_SELCHANGE: u32 = 1;
/// `ODT_LISTBOX`.
pub const ODT_LISTBOX: u32 = 2;
/// `NM_CUSTOMDRAW` (-12) as the unsigned notification code.
pub const NM_CUSTOMDRAW: u32 = 0xffff_fff4;
/// `CDDS_PREPAINT`.
pub const CDDS_PREPAINT: u32 = 1;
/// `CDRF_SKIPDEFAULT`.
pub const CDRF_SKIPDEFAULT: isize = 4;

/// `WM_ERASEBKGND`.
pub const WM_ERASEBKGND: u32 = 0x0014;
/// `WM_DRAWITEM`.
pub const WM_DRAWITEM: u32 = 0x002B;
/// `WM_NOTIFY`.
pub const WM_NOTIFY: u32 = 0x004E;
/// `WM_COMMAND`.
pub const WM_COMMAND: u32 = 0x0111;
/// `WM_CTLCOLOREDIT`.
pub const WM_CTLCOLOREDIT: u32 = 0x0133;
/// `WM_CTLCOLORLISTBOX`.
pub const WM_CTLCOLORLISTBOX: u32 = 0x0134;
/// `WM_CTLCOLORBTN`.
pub const WM_CTLCOLORBTN: u32 = 0x0135;
/// `WM_CTLCOLORSTATIC`.
pub const WM_CTLCOLORSTATIC: u32 = 0x0138;

/// Which of the two profile dialogs a message is for.
#[derive(Clone, Copy, Debug, PartialEq, Eq, Structural)]
pub enum ProfileDialogKind {
    Manager,
    AddPrompt,
}

/// Where a message of a profile dialog with live state goes.
#[derive(Clone, Copy, Debug, PartialEq, Eq, Structural)]
pub enum DialogMessageRoute {
    /// Move to the suggested rectangle when there is one, rebuild the look
    /// at the requested DPI, and lay the dialog out again.
    DpiChanged { requested_dpi: u32 },
    /// Rebuild the look for the system theme and lay the dialog out again.
    VisualsChanged,
    /// Erase with the background brush, or let Windows erase.
    EraseBackground,
    /// Draw a row of the profile list.
    DrawItem,
    /// Answer a child control's colors.
    ControlColor,
    /// Custom-draw the primary button.
    Notify,
    /// Handle a command, when the dialog accepts commands.
    Command,
    /// Close, when the dialog accepts commands.
    Close,
    /// Answer zero.
    Handled,
    /// Let Windows handle it.
    Default,
}

/// Whether a message asks for a child control's colors.
pub open spec fn is_control_color_message(message: u32) -> bool {
    message == WM_CTLCOLORSTATIC || message == WM_CTLCOLORBTN || message == WM_CTLCOLOREDIT
        || message == WM_CTLCOLORLISTBOX
}

/// The route of a message; only the manager has owner-drawn rows, and the
/// DPI a `WM_DPICHANGED` asks for is the high word of its `wparam`.
pub open spec fn message_route(kind: ProfileDialogKind, message: u32, wparam: usize) -> DialogMessageRoute {
    if message == WM_DPICHANGED {
        DialogMessageRoute::DpiChanged { requested_dpi: ((wparam / 0x1_0000) % 0x1_0000) as u32 }
    } else if message == WM_SETTINGCHANGE || message == WM_THEMECHANGED {
        DialogMessageRoute::VisualsChanged
    } else if message == WM_ERASEBKGND {
        DialogMessageRoute::EraseBackground
    } else if message == WM_DRAWITEM && kind == ProfileDialogKind::Manager {
        DialogMessageRoute::DrawItem
    } else if is_control_color_message(message) {
        DialogMessageRoute::ControlColor
    } else if message == WM_NOTIFY {
        DialogMessageRoute::Notify
    } else if message == WM_COMMAND {
        DialogMessageRoute::Command
    } else if message == WM_CLOSE {
        DialogMessageRoute::Close
    } else if message == WM_DESTROY {
        DialogMessageRoute::Handled
    } else {
        DialogMessageRoute::Default
    }
}

/// The high word of a message parameter.
fn high_word(wparam: usize) -> (r: u32)
    ensures
        r == (wparam / 0x1_0000) % 0x1_0000,
{
    let r = (wparam >> 16) & 0xffff;
    assert(r == (wparam / 0x1_0000) % 0x1_0000) by (bit_vector)
        requires
            r == (wparam >> 16) & 0xffff,
    ;
    r as u32
}

/// The low word of a message parameter.
fn low_word(wparam: usize) -> (r: u32)
    ensures
        r == wparam % 0x1_0000,
{
    let r = wparam & 0xffff;
    assert(r == wparam % 0x1_0000) by (bit_vector)
        requires
            r == wparam & 0xffff,
    ;
    r as u32
}

/// Routes a message of a profile dialog whose state is attached.
pub fn dialog_message_route(kind: ProfileDialogKind, message: u32, wparam: usize) -> (r: DialogMessageRoute)
    ensures
        r == message_route(kind, message, wparam),
{
    if message == WM_DPICHANGED {
        DialogMessageRoute::DpiChanged { requested_dpi: high_word(wparam) }
    } else if message == WM_SETTINGCHANGE || message == WM_THEMECHANGED {
        DialogMessageRoute::VisualsChanged
    } else if message == WM_ERASEBKGND {
        DialogMessageRoute::EraseBackground
    } else if message == WM_DRAWITEM && kind == ProfileDialogKind::Manager {
        DialogMessageRoute::DrawItem
    } else if message == WM_CTLCOLORSTATIC || message == WM_CTLCOLORBTN || message == WM_CTLCOLOREDIT
        || message == WM_CTLCOLORLISTBOX {
        DialogMessageRoute::ControlColor
    } else if message == WM_NOTIFY {
        DialogMessageRoute::Notify
    } else if message == WM_COMMAND {
        DialogMessageRoute::Command
    } else if message == WM_CLOSE {
        DialogMessageRoute::Close
    } else if message == WM_DESTROY {
        DialogMessageRoute::Handled
    } else {
        DialogMessageRoute::Default
    }
}

/// What a `WM_COMMAND` of the manager asks for.
#[derive(Clone, Copy, Debug, PartialEq, Eq, Structural)]
pub enum ManagerCommandRoute {
    /// Enter or Escape, answered by the keyboard rule.
    Keyboard(ProfileDialogKeyboardCommand),
    /// Another row of the list was selected.
    SelectionChanged,
    OpenAdd,
    Rename,
    Login,
    Logout,
    Delete,
    Ignore,
}

/// The command a manager `wparam` names: its low word is the control, its
/// high word the notification.
pub open spec fn manager_command(wparam: usize) -> ManagerCommandRoute {
    let control = (wparam % 0x1_0000) as int;
    let notification = (wparam / 0x1_0000) % 0x1_0000;
    if control == IDCANCEL {
        ManagerCommandRoute::Keyboard(ProfileDialogKeyboardCommand::Cancel)
    } else if control == IDOK {
        ManagerCommandRoute::Keyboard(ProfileDialogKeyboardCommand::Accept)
    } else if control == PROFILE_LIST_ID {
        if notification == LBN_SELCHANGE {
            ManagerCommandRoute::SelectionChanged
        } else {
            ManagerCommandRoute::Ignore
        }
    } else if control == OPEN_ADD_ID {
        ManagerCommandRoute::OpenAdd
    } else if control == RENAME_ID {
        ManagerCommandRoute::Rename
    } else if control == LOGIN_ID {
        ManagerCommandRoute::Login
    } else if control == LOGOUT_ID {
        ManagerCommandRoute::Logout
    } else if control == DELETE_ID {
        ManagerCommandRoute::Delete
    } else {
        ManagerCommandRoute::Ignore
    }
}

/// Reads a manager `WM_COMMAND`.
pub fn manager_command_route(wparam: usize) -> (r: ManagerCommandRoute)
    ensures
        r == manager_command(wparam),
{
    let control = low_word(wparam) as i32;
    let notification = high_word(wparam);
    if control == IDCANCEL {
        ManagerCommandRoute::Keyboard(ProfileDialogKeyboardCommand::Cancel)
    } else if control == IDOK {
        ManagerCommandRoute::Keyboard(ProfileDialogKeyboardCommand::Accept)
    } else if control == PROFILE_LIST_ID {
        if notification == LBN_SELCHANGE {
            ManagerCommandRoute::SelectionChanged
        } else {
            ManagerCommandRoute::Ignore
        }
    } else if control == OPEN_ADD_ID {
        ManagerCommandRoute::OpenAdd
    } else if control == RENAME_ID {
        ManagerCommandRoute::Rename
    } else if control == LOGIN_ID {
        ManagerCommandRoute::Login
    } else if control == LOGOUT_ID {
        ManagerCommandRoute::Logout
    } else if control == DELETE_ID {
        ManagerCommandRoute::Delete
    } else {
        ManagerCommandRoute::Ignore
    }
}

/// What a `WM_COMMAND` of the add prompt asks for.
#[derive(Clone, Copy, Debug, PartialEq, Eq, Structural)]
pub enum AddDialogCommandRoute {
    Submit,
    Cancel,
    Ignore,
}

/// Reads an add-prompt `WM_COMMAND`: OK submits, Cancel cancels, any
/// other control is ignored.
pub fn add_dialog_command_route(wparam: usize) -> (r: AddDialogCommandRoute)
    ensures
        r == (if wparam % 0x1_0000 == IDOK {
            AddDialogCommandRoute::Submit
        } else if wparam % 0x1_0000 == IDCANCEL {
            AddDialogCommandRoute::Cancel
        } else {
            AddDialogCommandRoute::Ignore
        }),
{
    let control = low_word(wparam) as i32;
    if control == IDOK {
        AddDialogCommandRoute::Submit
    } else if control == IDCANCEL {
        AddDialogCommandRoute::Cancel
    } else {
        AddDialogCommandRoute::Ignore
    }
}

/// The profile row a `DRAWITEMSTRUCT` asks for: only an item of the
/// manager's list box, and not the empty item `u32::MAX`.
pub fn profile_row_draw_index(ctl_type: u32, ctl_id: u32, item_id: u32) -> (r: Option<usize>)
    ensures
        r == (if ctl_type == ODT_LISTBOX && ctl_id == PROFILE_LIST_ID && item_id != u32::MAX {
            Some(item_id as usize)
        } else {
            None
        }),
{
    if ctl_type != ODT_LISTBOX || ctl_id != PROFILE_LIST_ID as u32 || item_id == u32::MAX {
        None
    } else {
        Some(item_id as usize)
    }
}

/// Whether a `WM_NOTIFY` is the pre-paint custom draw of the primary
/// button `expected_id`, with a device context to paint on.
pub fn primary_button_draw_applies(code: u32, id_from: usize, expected_id: i32, draw_stage: u32, hdc: usize) -> (b: bool)
    ensures
        b == (code == NM_CUSTOMDRAW && id_from == expected_id && draw_stage == CDDS_PREPAINT && hdc != 0),
{
    code == NM_CUSTOMDRAW && expected_id >= 0 && id_from == expected_id as usize && draw_stage
        == CDDS_PREPAINT && hdc != 0
}

/// The answer to the primary button's custom draw: skip the default
/// drawing when the button was painted.
pub fn primary_button_draw_result(painted: bool) -> (r: isize)
    ensures
        r == (if painted { CDRF_SKIPDEFAULT } else { 0 }),
{
    if painted {
        CDRF_SKIPDEFAULT
    } else {
        0
    }
}

/// The colors a child control is given: the palette's text color, and the
/// background with its brush for static text and buttons, else the surface
/// with its brush.
#[derive(Clone, Copy, Debug, PartialEq, Eq, Structural)]
pub struct ControlColors {
    pub text: u32,
    pub background: u32,
    pub brush: usize,
}

/// Answers a `WM_CTLCOLOR*` message from the look in use.
pub fn dialog_control_colors<B: DialogResourceBackend>(resources: &DialogVisualResources<B>, message: u32) -> (r: ControlColors)
    ensures
        r.text == resources.current_palette().text.colorref,
        (message == WM_CTLCOLORSTATIC || message == WM_CTLCOLORBTN) ==> r.background
            == resources.current_palette().background.colorref && r.brush
            == resources.active_set().background_brush,
        !(message == WM_CTLCOLORSTATIC || message == WM_CTLCOLORBTN) ==> r.background
            == resources.current_palette().surface.colorref && r.brush == resources.active_set().surface_brush,
{
    let palette = resources.palette();
    let set = resources.resources();
    if message == WM_CTLCOLORSTATIC || message == WM_CTLCOLORBTN {
        ControlColors { text: palette.text.colorref, background: palette.background.colorref, brush: set.background_brush }
    } else {
        ControlColors { text: palette.text.colorref, background: palette.surface.colorref, brush: set.surface_brush }
    }
}

/// The DPI a dialog is laid out for after a DPI change: at least 96.
pub fn requested_dialog_dpi(requested: u32) -> (r: u32)
    ensures
        r == (if requested < 96 { 96 } else { requested }),
{
    if requested < 96 {
        96
    } else {
        requested
    }
}

/// The theme of the dialogs: light when the system uses the light theme.
pub fn dialog_theme_for(system_uses_light_theme: bool) -> (t: DialogTheme)
    ensures
        t == (if system_uses_light_theme { DialogTheme::Light } else { DialogTheme::Dark }),
{
    if system_uses_light_theme {
        DialogTheme::Light
    } else {
        DialogTheme::Dark
    }
}

} // verus!
