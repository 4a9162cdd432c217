//! The drawing decisions of the profile dialogs: row states and colors, the
//! first line of a row, and fitting the manager into a short work area.

use vstd::prelude::*;

use super::design::{
    scale_logical, scaled_size, trunc_div, DialogColor, DialogPalette, LogicalRect, ProfileManagerLayout,
    GAP_8, OUTER_PADDING, ROW_HEIGHT,
};
use super::profile_dialog::ProfileManagerControl;
use super::{ProfileUsageStatus, UsageProfileView};
use crate::domain::UsageProfileId;

verus! {

/// A physical length at `dpi` in logical pixels, rounded down; negative
/// lengths count as zero and DPIs below 96 as 96.
pub fn physical_to_logical_floor(value: i32, dpi: u32) -> (r: i32)
    ensures
        r == (if value < 0 { 0 } else { value as int }) * 96 / (if dpi < 96 { 96 } else { dpi as int }),
{
    let dpi = if dpi < 96 { 96 } else { dpi };
    let v: i64 = if value < 0 { 0 } else { value as i64 };
    assert((v * 96) / (dpi as int) <= v) by (nonlinear_arith)
        requires
            0 <= v,
            dpi >= 96,
    ;
    ((v * 96) / (dpi as i64)) as i32
}

/// `rect` moved down by `offset`.
pub fn translate_rect_y(rect: LogicalRect, offset: i32) -> (r: LogicalRect)
    requires
        i32::MIN <= rect.top + offset <= i32::MAX,
        i32::MIN <= rect.bottom + offset <= i32::MAX,
    ensures
        r == (LogicalRect { left: rect.left, top: (rect.top + offset) as i32, right: rect.right, bottom: (rect.bottom + offset) as i32 }),
{
    LogicalRect::new(rect.left, rect.top + offset, rect.right, rect.bottom + offset)
}

pub open spec fn shifted(rect: LogicalRect, offset: int) -> LogicalRect {
    LogicalRect { left: rect.left, top: (rect.top + offset) as i32, right: rect.right, bottom: (rect.bottom + offset) as i32 }
}

/// The row height of the manager's list at `dpi`, at least one pixel.
pub open spec fn list_row_height(dpi: u32) -> int {
    let h = scaled_size(ROW_HEIGHT as int, dpi as int);
    if h < 1 { 1 } else { h }
}

/// How much the list shrinks so that the client fits `maximum_client_height`:
/// the list keeps between one and its original number of whole rows, and
/// every other control keeps its height.
pub open spec fn list_reduction(layout: ProfileManagerLayout, maximum_client_height: int, dpi: u32) -> int {
    let row = list_row_height(dpi);
    let list_height = layout.list.spec_height();
    let original_rows = if list_height / row < 1 { 1 } else { list_height / row };
    let fixed = layout.client.spec_height() - list_height;
    let wanted = trunc_div(maximum_client_height - fixed, row);
    let rows = if wanted < 1 { 1 } else if wanted > original_rows { original_rows } else { wanted };
    list_height - rows * row
}

/// The manager layout with the list cut to whole rows and everything below
/// it moved up, when the list must shrink; else the layout unchanged.
pub open spec fn fitted_layout(layout: ProfileManagerLayout, maximum_client_height: i32, dpi: u32) -> ProfileManagerLayout {
    let reduction = list_reduction(layout, maximum_client_height as int, dpi);
    if reduction <= 0 {
        layout
    } else {
        ProfileManagerLayout {
            client: LogicalRect { bottom: (layout.client.bottom - reduction) as i32, ..layout.client },
            content: LogicalRect { bottom: (layout.content.bottom - reduction) as i32, ..layout.content },
            list: LogicalRect { bottom: (layout.list.bottom - reduction) as i32, ..layout.list },
            selection_edge: LogicalRect { bottom: (layout.list.bottom - reduction) as i32, ..layout.selection_edge },
            add_control: shifted(layout.add_control, -reduction),
            name_label: shifted(layout.name_label, -reduction),
            name_edit: shifted(layout.name_edit, -reduction),
            action_buttons: [
                shifted(layout.action_buttons[0], -reduction),
                shifted(layout.action_buttons[1], -reduction),
                shifted(layout.action_buttons[2], -reduction),
                shifted(layout.action_buttons[3], -reduction),
            ],
            action_rows: layout.action_rows,
        }
    }
}

pub open spec fn rect_bounded(r: LogicalRect) -> bool {
    &&& -0x1000_0000 <= r.left <= 0x1000_0000
    &&& -0x1000_0000 <= r.top <= 0x1000_0000
    &&& -0x1000_0000 <= r.right <= 0x1000_0000
    &&& -0x1000_0000 <= r.bottom <= 0x1000_0000
}

/// Every coordinate of the layout lies within ±2^28.
pub open spec fn manager_layout_bounded(layout: ProfileManagerLayout) -> bool {
    &&& rect_bounded(layout.client)
    &&& rect_bounded(layout.content)
    &&& rect_bounded(layout.list)
    &&& rect_bounded(layout.selection_edge)
    &&& rect_bounded(layout.add_control)
    &&& rect_bounded(layout.name_label)
    &&& rect_bounded(layout.name_edit)
    &&& forall|i: int| 0 <= i < 4 ==> #[trigger] rect_bounded(layout.action_buttons[i])
}

/// Shrinks only the manager's list, to whole rows, so the client fits the
/// work area height; with too little room the one-row layout is kept and
/// the outer window is bounded later.
#[verifier::rlimit(30)]
pub fn fit_manager_layout_to_client_height(layout: ProfileManagerLayout, maximum_client_height: i32, dpi: u32) -> (r: ProfileManagerLayout)
    requires
        manager_layout_bounded(layout),
        -0x1000_0000 <= maximum_client_height <= 0x1000_0000,
        dpi <= 9600,
        layout.list.spec_height() >= 0,
    ensures
        r == fitted_layout(layout, maximum_client_height, dpi),
{
    let mut layout = layout;
    let scaled = scale_logical(ROW_HEIGHT, dpi);
    proof {
        let d = if dpi < 96 { 96int } else { dpi as int };
        assert(0 <= 56 * d + 48 <= 56 * 9600 + 48) by (nonlinear_arith)
            requires
                96 <= d <= 9600,
        ;
    }
    let row_height = if scaled < 1 { 1 } else { scaled };
    let list_height = layout.list.height();
    let original_rows = if list_height / row_height < 1 { 1 } else { list_height / row_height };
    let fixed_height = layout.client.height() - list_height;
    let wanted = (maximum_client_height - fixed_height) / row_height;
    let fitting_rows = if wanted < 1 { 1 } else if wanted > original_rows { original_rows } else { wanted };
    assert(fitting_rows * row_height <= list_height || fitting_rows == 1) by (nonlinear_arith)
        requires
            1 <= fitting_rows <= original_rows,
            row_height >= 1,
            original_rows == (if list_height / row_height < 1 { 1 } else { list_height / row_height }),
            list_height >= 0,
    ;
    assert(row_height <= 56 * 100 + 1);
    let new_list_height = fitting_rows * row_height;
    let reduction = list_height - new_list_height;
    if reduction <= 0 {
        return layout;
    }
    proof {
        assert(list_reduction(layout, maximum_client_height as int, dpi) == reduction as int);
    }
    layout.list.bottom = layout.list.bottom - reduction;
    layout.selection_edge.bottom = layout.list.bottom;
    layout.add_control = translate_rect_y(layout.add_control, -reduction);
    layout.name_label = translate_rect_y(layout.name_label, -reduction);
    layout.name_edit = translate_rect_y(layout.name_edit, -reduction);
    proof {
        assert(rect_bounded(layout.action_buttons[0]) && rect_bounded(layout.action_buttons[1]));
        assert(rect_bounded(layout.action_buttons[2]) && rect_bounded(layout.action_buttons[3]));
    }
    let b0 = translate_rect_y(layout.action_buttons[0], -reduction);
    let b1 = translate_rect_y(layout.action_buttons[1], -reduction);
    let b2 = translate_rect_y(layout.action_buttons[2], -reduction);
    let b3 = translate_rect_y(layout.action_buttons[3], -reduction);
    layout.action_buttons = [b0, b1, b2, b3];
    layout.client.bottom = layout.client.bottom - reduction;
    layout.content.bottom = layout.content.bottom - reduction;
    layout
}

/// A pure layout rectangle in the coordinates that `SetWindowPos` expects
/// from a child: a mirrored (RTL) parent flips it back, so the final screen
/// rectangle is `rect` itself.
pub open spec fn setpos_rect(rect: LogicalRect, parent_client_width: int, mirrored_parent: bool) -> LogicalRect {
    if mirrored_parent {
        LogicalRect { left: (parent_client_width - rect.right) as i32, top: rect.top, right: (parent_client_width - rect.left) as i32, bottom: rect.bottom }
    } else {
        rect
    }
}

/// The child rectangle to hand to `SetWindowPos` for a desired rectangle.
pub fn dialog_child_setpos_rect(rect: LogicalRect, parent_client_width: i32, mirrored_parent: bool) -> (r: LogicalRect)
    requires
        mirrored_parent ==> i32::MIN <= parent_client_width - rect.right <= i32::MAX,
        mirrored_parent ==> i32::MIN <= parent_client_width - rect.left <= i32::MAX,
    ensures
        r == setpos_rect(rect, parent_client_width as int, mirrored_parent),
{
    if mirrored_parent {
        LogicalRect::new(parent_client_width - rect.right, rect.top, parent_client_width - rect.left, rect.bottom)
    } else {
        rect
    }
}

/// Mirroring by the parent undoes the conversion: converting twice gives
/// the rectangle back, and the width and vertical extent never change.
pub proof fn lemma_setpos_rect_round_trip(rect: LogicalRect, parent_client_width: int, mirrored_parent: bool)
    requires
        i32::MIN <= parent_client_width - rect.right <= i32::MAX,
        i32::MIN <= parent_client_width - rect.left <= i32::MAX,
    ensures
        setpos_rect(setpos_rect(rect, parent_client_width, mirrored_parent), parent_client_width, mirrored_parent) == rect,
        setpos_rect(rect, parent_client_width, mirrored_parent).spec_width() == rect.spec_width(),
        setpos_rect(rect, parent_client_width, mirrored_parent).top == rect.top,
        setpos_rect(rect, parent_client_width, mirrored_parent).bottom == rect.bottom,
{
}

/// The surface of a profile row.
#[derive(Clone, Copy, Debug, PartialEq, Eq, Structural)]
pub enum ProfileRowSurfaceRole {
    /// An unselected row.
    Neutral,
    /// The row of the native list selection.
    Selected,
}

/// What an owner-drawn profile row shows, without colors or GDI handles.
#[derive(Clone, Copy, Debug, PartialEq, Eq)]
pub struct ProfileRowVisualState {
    pub surface: ProfileRowSurfaceRole,
    pub progress: Option<(u8, ProfileUsageStatus)>,
    pub system_marker: bool,
    pub current_marker: bool,
    pub focused: bool,
}

/// The row state of a profile: the native selection and focus, a progress
/// bar only when the usage is complete and no sign-in is needed (its
/// percentage capped at 100), and the system and current markers.
pub open spec fn row_visual(profile: UsageProfileView, selected: bool, focused: bool) -> ProfileRowVisualState {
    ProfileRowVisualState {
        surface: if selected { ProfileRowSurfaceRole::Selected } else { ProfileRowSurfaceRole::Neutral },
        progress: if profile.login_required {
            None
        } else {
            match (profile.used_percent, profile.usage_status) {
                (Some(p), Some(s)) => Some((if p > 100 { 100u8 } else { p }, s)),
                _ => None,
            }
        },
        system_marker: profile.id == UsageProfileId::System,
        current_marker: profile.selected,
        focused,
    }
}

/// The drawing state of a profile row.
pub fn profile_row_visual_state(profile: &UsageProfileView, selected: bool, focused: bool) -> (v: ProfileRowVisualState)
    ensures
        v == row_visual(*profile, selected, focused),
{
    let progress = if profile.login_required {
        None
    } else {
        match (profile.used_percent, profile.usage_status) {
            (Some(p), Some(s)) => Some((if p > 100 { 100u8 } else { p }, s)),
            _ => None,
        }
    };
    ProfileRowVisualState {
        surface: if selected { ProfileRowSurfaceRole::Selected } else { ProfileRowSurfaceRole::Neutral },
        progress,
        system_marker: profile.id == UsageProfileId::System,
        current_marker: profile.selected,
        focused,
    }
}

/// One 8-bit channel of `foreground` over `background` at opacity `alpha`,
/// rounded.
pub open spec fn blend_channel(foreground: u32, background: u32, alpha: u32, shift: u32) -> int {
    let f = (foreground >> shift) & 0xff;
    let b = (background >> shift) & 0xff;
    (f * alpha + b * (255 - alpha) + 127) / 255
}

/// A translucent color over an opaque one, as an opaque `COLORREF`.
pub open spec fn composite(foreground: DialogColor, background: DialogColor) -> int {
    let a = foreground.opacity as u32;
    blend_channel(foreground.colorref, background.colorref, a, 0) + blend_channel(foreground.colorref, background.colorref, a, 8)
        * 0x100 + blend_channel(foreground.colorref, background.colorref, a, 16) * 0x1_0000
}

fn blend(foreground: u32, background: u32, alpha: u32, shift: u32) -> (c: u32)
    requires
        alpha <= 255,
        shift < 32,
    ensures
        c == blend_channel(foreground, background, alpha, shift),
        c <= 255,
{
    let f = (foreground >> shift) & 0xff;
    let b = (background >> shift) & 0xff;
    assert(f <= 0xff && b <= 0xff) by (bit_vector)
        requires
            f == (foreground >> shift) & 0xff,
            b == (background >> shift) & 0xff,
    ;
    assert(f * alpha + b * (255 - alpha) <= 255 * 255) by (nonlinear_arith)
        requires
            f <= 255,
            b <= 255,
            alpha <= 255,
    ;
    (f * alpha + b * (255 - alpha) + 127) / 255
}

/// Composites a translucent dialog color over an opaque row surface, each
/// BGR channel weighted by the foreground's opacity.
pub fn composite_dialog_color(foreground: DialogColor, background: DialogColor) -> (c: u32)
    ensures
        c == composite(foreground, background),
{
    let alpha = foreground.opacity as u32;
    let b0 = blend(foreground.colorref, background.colorref, alpha, 0);
    let b8 = blend(foreground.colorref, background.colorref, alpha, 8);
    let b16 = blend(foreground.colorref, background.colorref, alpha, 16);
    let c = b0 | (b8 << 8) | (b16 << 16);
    assert(c == b0 + b8 * 0x100 + b16 * 0x1_0000) by (bit_vector)
        requires
            c == b0 | (b8 << 8) | (b16 << 16),
            b0 <= 255,
            b8 <= 255,
            b16 <= 255,
    ;
    c
}

/// Opacity of the healthy tint on a selected row.
pub const SELECTED_ROW_TINT_OPACITY: u8 = 20;

/// The opaque surface of a row: the palette's neutral surface, or for the
/// selection the healthy green at 20/255 over it.
pub fn profile_row_surface_color(palette: DialogPalette, role: ProfileRowSurfaceRole) -> (c: u32)
    ensures
        c == match role {
            ProfileRowSurfaceRole::Neutral => palette.surface.colorref as int,
            ProfileRowSurfaceRole::Selected => composite(
                DialogColor { colorref: palette.healthy.colorref, opacity: SELECTED_ROW_TINT_OPACITY },
                palette.surface,
            ),
        },
{
    match role {
        ProfileRowSurfaceRole::Neutral => palette.surface.colorref,
        ProfileRowSurfaceRole::Selected => composite_dialog_color(
            DialogColor::translucent(palette.healthy.colorref, SELECTED_ROW_TINT_OPACITY),
            palette.surface,
        ),
    }
}

/// The side padding of a row's content: the dialogs' outer padding at `dpi`.
pub fn profile_row_content_padding(dpi: u32) -> (p: i32)
    ensures
        p == #[verifier::truncate] (scaled_size(OUTER_PADDING as int, dpi as int) as i32),
{
    scale_logical(OUTER_PADDING, dpi)
}

/// The first line of a profile row: the name and, when there are markers,
/// their box.
#[derive(Clone, Copy, Debug, PartialEq, Eq, Structural)]
pub struct ProfileRowFirstLineLayout {
    pub name: LogicalRect,
    pub markers: Option<LogicalRect>,
}

/// The markers get their measured width first (at most the line), at the
/// trailing edge (the right in LTR, the left in RTL), then a gap of eight
/// logical pixels at most what is left, and the name gets the rest.
pub open spec fn first_line(line: LogicalRect, marker_width: int, dpi: u32, rtl: bool) -> ProfileRowFirstLineLayout {
    let width = if line.spec_width() < 0 { 0 } else { line.spec_width() };
    let marker = if marker_width < 0 { 0 } else if marker_width > width { width } else { marker_width };
    if marker == 0 {
        ProfileRowFirstLineLayout { name: line, markers: None }
    } else {
        let g = scaled_size(GAP_8 as int, dpi as int);
        let gap = if g < width - marker { g } else { width - marker };
        if rtl {
            ProfileRowFirstLineLayout {
                name: LogicalRect { left: (line.left + marker + gap) as i32, ..line },
                markers: Some(LogicalRect { right: (line.left + marker) as i32, ..line }),
            }
        } else {
            ProfileRowFirstLineLayout {
                name: LogicalRect { right: (line.right - marker - gap) as i32, ..line },
                markers: Some(LogicalRect { left: (line.right - marker) as i32, ..line }),
            }
        }
    }
}

/// Splits the first line of a row between the name and the role markers.
pub fn profile_row_first_line_layout(line: LogicalRect, marker_width: i32, dpi: u32, rtl: bool) -> (r: ProfileRowFirstLineLayout)
    requires
        i32::MIN <= line.spec_width() <= i32::MAX,
        dpi <= 9600,
    ensures
        r == first_line(line, marker_width as int, dpi, rtl),
{
    let width = if line.width() < 0 { 0 } else { line.width() };
    let marker_width = if marker_width < 0 { 0 } else if marker_width > width { width } else { marker_width };
    if marker_width == 0 {
        return ProfileRowFirstLineLayout { name: line, markers: None };
    }
    let scaled = scale_logical(GAP_8, dpi);
    proof {
        let d = if dpi < 96 { 96int } else { dpi as int };
        assert(0 <= 8 * d + 48 <= 8 * 9600 + 48) by (nonlinear_arith)
            requires
                96 <= d <= 9600,
        ;
    }
    let gap = if scaled < width - marker_width { scaled } else { width - marker_width };
    if rtl {
        let markers = LogicalRect::new(line.left, line.top, line.left + marker_width, line.bottom);
        ProfileRowFirstLineLayout {
            name: LogicalRect::new(markers.right + gap, line.top, line.right, line.bottom),
            markers: Some(markers),
        }
    } else {
        let markers = LogicalRect::new(line.right - marker_width, line.top, line.right, line.bottom);
        ProfileRowFirstLineLayout {
            name: LogicalRect::new(line.left, line.top, markers.left - gap, line.bottom),
            markers: Some(markers),
        }
    }
}

/// The name and the markers share the line without overlapping, and the
/// markers sit on the trailing side.
pub proof fn lemma_first_line_separates_name_and_markers(line: LogicalRect, marker_width: int, dpi: u32, rtl: bool)
    requires
        line.spec_width() >= 0,
        line.spec_height() >= 0,
        dpi <= 9600,
    ensures
        ({
            let r = first_line(line, marker_width, dpi, rtl);
            &&& r.name.spec_is_inside(line)
            &&& r.markers matches Some(m) ==> m.spec_is_inside(line) && !m.spec_intersects(r.name)
                && (if rtl { m.left == line.left } else { m.right == line.right })
        }),
{
    let d = if dpi < 96 { 96int } else { dpi as int };
    assert(0 <= 8 * d + 48) by (nonlinear_arith)
        requires
            96 <= d,
    ;
}

/// Win32 command identifiers of the manager's controls.
pub const OPEN_ADD_ID: i32 = 4102;
pub const RENAME_ID: i32 = 4103;
pub const LOGIN_ID: i32 = 4104;
pub const LOGOUT_ID: i32 = 4105;
pub const DELETE_ID: i32 = 4106;

/// The Win32 command identifier of a manager control; its geometry comes
/// from the layout alone.
pub fn manager_control_id(control: ProfileManagerControl) -> (id: i32)
    ensures
        id == match control {
            ProfileManagerControl::AddBelowList => OPEN_ADD_ID,
            ProfileManagerControl::Rename => RENAME_ID,
            ProfileManagerControl::Login => LOGIN_ID,
            ProfileManagerControl::Logout => LOGOUT_ID,
            ProfileManagerControl::Delete => DELETE_ID,
        },
{
    match control {
        ProfileManagerControl::AddBelowList => OPEN_ADD_ID,
        ProfileManagerControl::Rename => RENAME_ID,
        ProfileManagerControl::Login => LOGIN_ID,
        ProfileManagerControl::Logout => LOGOUT_ID,
        ProfileManagerControl::Delete => DELETE_ID,
    }
}

} // verus!
