//! Design tokens and the deterministic physical-pixel layouts of the profile
//! dialogs.

use vstd::prelude::*;

use crate::windows::ProfileUsageStatus;

verus! {

/// Brightness theme of a dialog.
#[derive(Clone, Copy, Debug, PartialEq, Eq, Structural)]
pub enum DialogTheme {
    Light,
    Dark,
}

/// A Win32 `COLORREF` (BB-GG-RR) together with an opacity from 0 to 255.
#[derive(Clone, Copy, Debug, PartialEq, Eq, Structural)]
pub struct DialogColor {
    pub colorref: u32,
    pub opacity: u8,
}

pub open spec fn opaque_color(colorref: u32) -> DialogColor {
    DialogColor { colorref, opacity: 255 }
}

pub open spec fn translucent_color(colorref: u32, opacity: u8) -> DialogColor {
    DialogColor { colorref, opacity }
}

impl DialogColor {
    /// A fully opaque color token.
    pub fn opaque(colorref: u32) -> (c: Self)
        ensures
            c == opaque_color(colorref),
    {
        DialogColor { colorref, opacity: 255 }
    }

    /// A color token with the given opacity.
    pub fn translucent(colorref: u32, opacity: u8) -> (c: Self)
        ensures
            c == translucent_color(colorref, opacity),
    {
        DialogColor { colorref, opacity }
    }
}

/// The color tokens shared by the dialog renderers.
#[derive(Clone, Copy, Debug, PartialEq, Eq, Structural)]
pub struct DialogPalette {
    pub background: DialogColor,
    pub surface: DialogColor,
    pub elevated_surface: DialogColor,
    pub border: DialogColor,
    pub subtle_border: DialogColor,
    pub text: DialogColor,
    pub secondary_text: DialogColor,
    pub muted_text: DialogColor,
    pub progress_track: DialogColor,
    pub hover: DialogColor,
    pub pressed: DialogColor,
    pub focus: DialogColor,
    pub healthy: DialogColor,
    pub warning: DialogColor,
    pub critical: DialogColor,
}

/// The design-system palette of each theme.
pub open spec fn palette_of(theme: DialogTheme) -> DialogPalette {
    match theme {
        DialogTheme::Light => DialogPalette {
            background: opaque_color(0x00f3_f3f3),
            surface: opaque_color(0x00ff_ffff),
            elevated_surface: opaque_color(0x00fa_fafa),
            border: opaque_color(0x00d5_d5d5),
            subtle_border: translucent_color(0x0000_0000, 20),
            text: opaque_color(0x0020_2020),
            secondary_text: opaque_color(0x0050_5050),
            muted_text: opaque_color(0x0073_7373),
            progress_track: translucent_color(0x0000_0000, 36),
            hover: translucent_color(0x0000_0000, 13),
            pressed: translucent_color(0x0000_0000, 23),
            focus: opaque_color(0x004d_8627),
            healthy: opaque_color(0x0074_c748),
            warning: opaque_color(0x0023_a6f5),
            critical: opaque_color(0x005c_5cff),
        },
        DialogTheme::Dark => DialogPalette {
            background: opaque_color(0x001f_1f1f),
            surface: opaque_color(0x0026_2626),
            elevated_surface: opaque_color(0x002c_2c2c),
            border: opaque_color(0x0040_4040),
            subtle_border: translucent_color(0x00ff_ffff, 20),
            text: opaque_color(0x00ee_eeee),
            secondary_text: opaque_color(0x00c8_c8c8),
            muted_text: opaque_color(0x0097_9797),
            progress_track: translucent_color(0x00ff_ffff, 36),
            hover: translucent_color(0x00ff_ffff, 15),
            pressed: translucent_color(0x00ff_ffff, 26),
            focus: opaque_color(0x0074_c748),
            healthy: opaque_color(0x0074_c748),
            warning: opaque_color(0x0023_a6f5),
            critical: opaque_color(0x005c_5cff),
        },
    }
}

/// The opaque color that a palette gives a usage status.
pub open spec fn status_color(palette: DialogPalette, status: ProfileUsageStatus) -> u32 {
    match status {
        ProfileUsageStatus::Healthy => palette.healthy.colorref,
        ProfileUsageStatus::Warning => palette.warning.colorref,
        ProfileUsageStatus::Critical => palette.critical.colorref,
    }
}

impl DialogPalette {
    /// The design-system color tokens of `theme`.
    pub fn for_theme(theme: DialogTheme) -> (p: Self)
        ensures
            p == palette_of(theme),
    {
        match theme {
            DialogTheme::Light => DialogPalette {
                background: DialogColor::opaque(0x00f3_f3f3),
                surface: DialogColor::opaque(0x00ff_ffff),
                elevated_surface: DialogColor::opaque(0x00fa_fafa),
                border: DialogColor::opaque(0x00d5_d5d5),
                subtle_border: DialogColor::translucent(0x0000_0000, 20),
                text: DialogColor::opaque(0x0020_2020),
                secondary_text: DialogColor::opaque(0x0050_5050),
                muted_text: DialogColor::opaque(0x0073_7373),
                progress_track: DialogColor::translucent(0x0000_0000, 36),
                hover: DialogColor::translucent(0x0000_0000, 13),
                pressed: DialogColor::translucent(0x0000_0000, 23),
                focus: DialogColor::opaque(0x004d_8627),
                healthy: DialogColor::opaque(0x0074_c748),
                warning: DialogColor::opaque(0x0023_a6f5),
                critical: DialogColor::opaque(0x005c_5cff),
            },
            DialogTheme::Dark => DialogPalette {
                background: DialogColor::opaque(0x001f_1f1f),
                surface: DialogColor::opaque(0x0026_2626),
                elevated_surface: DialogColor::opaque(0x002c_2c2c),
                border: DialogColor::opaque(0x0040_4040),
                subtle_border: DialogColor::translucent(0x00ff_ffff, 20),
                text: DialogColor::opaque(0x00ee_eeee),
                secondary_text: DialogColor::opaque(0x00c8_c8c8),
                muted_text: DialogColor::opaque(0x0097_9797),
                progress_track: DialogColor::translucent(0x00ff_ffff, 36),
                hover: DialogColor::translucent(0x00ff_ffff, 15),
                pressed: DialogColor::translucent(0x00ff_ffff, 26),
                focus: DialogColor::opaque(0x0074_c748),
                healthy: DialogColor::opaque(0x0074_c748),
                warning: DialogColor::opaque(0x0023_a6f5),
                critical: DialogColor::opaque(0x005c_5cff),
            },
        }
    }

    /// The opaque Win32 color of a profile usage status.
    pub fn status(self, status: ProfileUsageStatus) -> (c: u32)
        ensures
            c == status_color(self, status),
    {
        match status {
            ProfileUsageStatus::Healthy => self.healthy.colorref,
            ProfileUsageStatus::Warning => self.warning.colorref,
            ProfileUsageStatus::Critical => self.critical.colorref,
        }
    }
}

/// Outer dialog padding in logical pixels.
pub const OUTER_PADDING: i32 = 16;
/// Height of one profile list row in logical pixels.
pub const ROW_HEIGHT: i32 = 56;
/// Minimum height of buttons and edit controls in logical pixels.
pub const CONTROL_HEIGHT: i32 = 32;
/// Thickness of the selection edge in logical pixels.
pub const SELECTION_EDGE: i32 = 3;
/// Height of a row progress bar in logical pixels.
pub const PROGRESS_HEIGHT: i32 = 3;
/// Gap between dense controls in logical pixels.
pub const GAP_6: i32 = 6;
/// Gap between controls of one row in logical pixels.
pub const GAP_8: i32 = 8;
/// Gap between sections in logical pixels.
pub const GAP_12: i32 = 12;

/// Height of a text label in logical pixels.
pub const LABEL_HEIGHT: i32 = 18;
/// Number of profile rows the list shows.
pub const PROFILE_LIST_ROWS: i32 = 3;

/// Rust's integer division (rounding toward zero) for a positive divisor.
pub open spec fn trunc_div(a: int, b: int) -> int {
    if a >= 0 {
        a / b
    } else {
        -((-a) / b)
    }
}

/// The DPI that scaling uses: anything below 96 counts as 96.
pub open spec fn effective_dpi(dpi: int) -> int {
    if dpi < 96 {
        96
    } else {
        dpi
    }
}

/// The mathematical physical size of a logical value (rounded half up for
/// non-negative values).
pub open spec fn scaled_size(value: int, dpi: int) -> int {
    trunc_div(value * effective_dpi(dpi) + 48, 96)
}

/// Converts a logical size to physical pixels at `dpi`, rounding; DPIs below
/// 96 count as 96. The result is truncated to `i32` as the `i64` computation
/// is.
pub fn scale_logical(value: i32, dpi: u32) -> (r: i32)
    ensures
        r == #[verifier::truncate] (scaled_size(value as int, dpi as int) as i32),
{
    let dpi = at_least_96_dpi(dpi);
    let v = value as i64;
    let d = dpi as i64;
    assert(-0x8000_0000 * 0xffff_ffff <= v * d <= 0x7fff_ffff * 0xffff_ffff) by (nonlinear_arith)
        requires
            -0x8000_0000 <= v < 0x8000_0000,
            0 <= d < 0x1_0000_0000,
    ;
    let n: i64 = v * d + 48;
    let q: i64 = if n >= 0 {
        n / 96
    } else {
        -((-n) / 96)
    };
    #[verifier::truncate]
    (q as i32)
}

/// `scaled_size` for a non-negative value at a bounded DPI: at least the value,
/// at most a hundredfold of it plus one, and monotone.
pub proof fn lemma_scaled_size_bounds(value: int, dpi: int)
    requires
        0 <= value,
        dpi <= 9600,
    ensures
        value <= scaled_size(value, dpi) <= 100 * value + 1,
        scaled_size(value, dpi) == (value * effective_dpi(dpi) + 48) / 96,
{
    let d = effective_dpi(dpi);
    assert(96 * value <= value * d <= 9600 * value) by (nonlinear_arith)
        requires
            96 <= d <= 9600,
            0 <= value,
    ;
}

/// Scaling keeps the order of non-negative sizes.
pub proof fn lemma_scaled_size_monotone(a: int, b: int, dpi: int)
    requires
        0 <= a <= b,
    ensures
        scaled_size(a, dpi) <= scaled_size(b, dpi),
{
    let d = effective_dpi(dpi);
    assert(a * d <= b * d) by (nonlinear_arith)
        requires
            0 <= a <= b,
            0 <= d,
    ;
}

/// Physical width of a single-line button whose text measures `measured`.
pub open spec fn button_width_of(measured: int, dpi: int) -> int {
    let padded = measured + scaled_size(24, dpi);
    if padded > scaled_size(72, dpi) {
        padded
    } else {
        scaled_size(72, dpi)
    }
}

/// A logical size in physical pixels as `scale_logical` returns it: the
/// rounded size truncated to `i32`.
pub open spec fn scaled_px(value: int, dpi: int) -> int {
    #[verifier::truncate] (scaled_size(value, dpi) as i32) as int
}

/// Converts a measured button text width into the physical width of a
/// single-line button: the text plus padding, but at least the minimum width.
/// Every input is accepted for which the padded width fits in `i32`.
pub fn button_width(measured_text_width: i32, dpi: u32) -> (w: i32)
    requires
        i32::MIN <= measured_text_width + scaled_px(24, dpi as int) <= i32::MAX,
    ensures
        w == (if measured_text_width + scaled_px(24, dpi as int) > scaled_px(72, dpi as int) {
            measured_text_width + scaled_px(24, dpi as int)
        } else {
            scaled_px(72, dpi as int)
        }),
        dpi <= 9600 ==> w == button_width_of(measured_text_width as int, dpi as int),
{
    proof {
        if dpi <= 9600 {
            lemma_scaled_size_bounds(24, dpi as int);
            lemma_scaled_size_bounds(72, dpi as int);
        }
    }
    let padded = measured_text_width + scale_logical(24, dpi);
    let minimum = scale_logical(72, dpi);
    if padded > minimum {
        padded
    } else {
        minimum
    }
}

/// A physical-pixel rectangle with exclusive `right` and `bottom` edges.
#[derive(Clone, Copy, Debug, Default, PartialEq, Eq, Structural)]
pub struct LogicalRect {
    pub left: i32,
    pub top: i32,
    pub right: i32,
    pub bottom: i32,
}

pub open spec fn lrect(left: int, top: int, right: int, bottom: int) -> LogicalRect {
    LogicalRect { left: left as i32, top: top as i32, right: right as i32, bottom: bottom as i32 }
}

impl LogicalRect {
    pub open spec fn spec_width(self) -> int {
        self.right - self.left
    }

    pub open spec fn spec_height(self) -> int {
        self.bottom - self.top
    }

    /// `self` stays within `container` and has no negative extent.
    pub open spec fn spec_is_inside(self, container: LogicalRect) -> bool {
        &&& self.left >= container.left
        &&& self.top >= container.top
        &&& self.right <= container.right
        &&& self.bottom <= container.bottom
        &&& self.spec_width() >= 0
        &&& self.spec_height() >= 0
    }

    /// The interiors overlap; touching edges do not count.
    pub open spec fn spec_intersects(self, other: LogicalRect) -> bool {
        &&& self.left < other.right
        &&& self.right > other.left
        &&& self.top < other.bottom
        &&& self.bottom > other.top
    }

    /// Builds a rectangle from its edges.
    pub fn new(left: i32, top: i32, right: i32, bottom: i32) -> (r: Self)
        ensures
            r == (LogicalRect { left, top, right, bottom }),
    {
        LogicalRect { left, top, right, bottom }
    }

    /// Physical width.
    pub fn width(self) -> (w: i32)
        requires
            i32::MIN <= self.spec_width() <= i32::MAX,
        ensures
            w == self.spec_width(),
    {
        self.right - self.left
    }

    /// Physical height.
    pub fn height(self) -> (h: i32)
        requires
            i32::MIN <= self.spec_height() <= i32::MAX,
        ensures
            h == self.spec_height(),
    {
        self.bottom - self.top
    }

    /// Whether the rectangle stays within `container` with no negative extent.
    pub fn is_inside(self, container: Self) -> (b: bool)
        ensures
            b == self.spec_is_inside(container),
    {
        self.left >= container.left && self.top >= container.top && self.right
            <= container.right && self.bottom <= container.bottom && self.right >= self.left
            && self.bottom >= self.top
    }

    /// Whether the interiors overlap; rectangles that only touch do not.
    pub fn intersects(self, other: Self) -> (b: bool)
        ensures
            b == self.spec_intersects(other),
    {
        self.left < other.right && self.right > other.left && self.top < other.bottom
            && self.bottom > other.top
    }
}

/// Input of the pure dialog layouts: the requested logical client width, the
/// window DPI, the reading direction and the measured physical text widths of
/// the four manager actions (Rename, Login, Logout, Delete).
#[derive(Clone, Copy, Debug, PartialEq, Eq)]
pub struct DialogLayoutInput {
    pub client_width: i32,
    pub dpi: u32,
    pub rtl: bool,
    pub action_text_widths: [i32; 4],
}

pub open spec fn non_negative_of(value: i32) -> i32 {
    if value < 0 {
        0
    } else {
        value
    }
}

impl DialogLayoutInput {
    /// Builds a layout input, clamping negative widths to zero.
    pub fn new(client_width: i32, dpi: u32, rtl: bool, action_text_widths: [i32; 4]) -> (r: Self)
        ensures
            r.client_width == non_negative_of(client_width),
            r.dpi == dpi,
            r.rtl == rtl,
            forall|i: int|
                0 <= i < 4 ==> #[trigger] r.action_text_widths@[i] == non_negative_of(
                    action_text_widths@[i],
                ),
    {
        DialogLayoutInput {
            client_width: non_negative(client_width),
            dpi,
            rtl,
            action_text_widths: [
                non_negative(action_text_widths[0]),
                non_negative(action_text_widths[1]),
                non_negative(action_text_widths[2]),
                non_negative(action_text_widths[3]),
            ],
        }
    }
}

fn at_least_96_dpi(dpi: u32) -> (r: u32)
    ensures
        r == effective_dpi(dpi as int),
{
    if dpi < 96 {
        96
    } else {
        dpi
    }
}

fn non_negative(value: i32) -> (r: i32)
    ensures
        r == non_negative_of(value),
{
    if value < 0 {
        0
    } else {
        value
    }
}

/// Inputs whose layouts stay far from the `i32` limits: a DPI of at most 9600
/// and widths within about a million pixels.
pub open spec fn layout_input_in_range(input: DialogLayoutInput) -> bool {
    &&& input.dpi <= 9600
    &&& -0x10_0000 <= input.client_width <= 0x10_0000
    &&& forall|i: int|
        0 <= i < 4 ==> -0x10_0000 <= #[trigger] input.action_text_widths@[i] <= 0x10_0000
}

/// Physical rectangles of the profile manager dialog. The action buttons are
/// Rename, Login, Logout and Delete, on one or two rows.
#[derive(Clone, Copy, Debug, PartialEq, Eq)]
pub struct ProfileManagerLayout {
    pub client: LogicalRect,
    pub content: LogicalRect,
    pub list: LogicalRect,
    pub selection_edge: LogicalRect,
    pub add_control: LogicalRect,
    pub name_label: LogicalRect,
    pub name_edit: LogicalRect,
    pub action_buttons: [LogicalRect; 4],
    pub action_rows: u8,
}

/// Physical rectangles of the add-profile dialog. The action buttons are Add
/// and Cancel, on one or two rows.
#[derive(Clone, Copy, Debug, PartialEq, Eq)]
pub struct AddProfileLayout {
    pub client: LogicalRect,
    pub content: LogicalRect,
    pub name_label: LogicalRect,
    pub name_edit: LogicalRect,
    pub action_buttons: [LogicalRect; 2],
    pub action_rows: u8,
}

/// Two buttons of the given widths on one row, from the start edge in RTL
/// and against the end edge otherwise.
pub open spec fn pair_spec(
    content: LogicalRect,
    top: int,
    height: int,
    gap: int,
    w0: int,
    w1: int,
    rtl: bool,
) -> Seq<LogicalRect> {
    if rtl {
        let first = content.left as int;
        let second = first + w0 + gap;
        seq![lrect(first, top, first + w0, top + height), lrect(second, top, second + w1, top + height)]
    } else {
        let second = content.right - w1;
        let first = second - gap - w0;
        seq![lrect(first, top, first + w0, top + height), lrect(second, top, second + w1, top + height)]
    }
}

/// Four buttons of the given widths on one row.
pub open spec fn row_spec(
    content: LogicalRect,
    top: int,
    height: int,
    gap: int,
    w: Seq<int>,
    rtl: bool,
) -> Seq<LogicalRect> {
    if rtl {
        let first = content.left as int;
        let second = first + w[0] + gap;
        let third = second + w[1] + gap;
        let fourth = third + w[2] + gap;
        seq![
            lrect(first, top, first + w[0], top + height),
            lrect(second, top, second + w[1], top + height),
            lrect(third, top, third + w[2], top + height),
            lrect(fourth, top, fourth + w[3], top + height),
        ]
    } else {
        let fourth = content.right - w[3];
        let third = fourth - gap - w[2];
        let second = third - gap - w[1];
        let first = second - gap - w[0];
        seq![
            lrect(first, top, first + w[0], top + height),
            lrect(second, top, second + w[1], top + height),
            lrect(third, top, third + w[2], top + height),
            lrect(fourth, top, fourth + w[3], top + height),
        ]
    }
}

/// The manager's four action buttons: one row, or Rename/Login above
/// Logout/Delete.
pub open spec fn manager_buttons_spec(
    content: LogicalRect,
    top: int,
    height: int,
    gap: int,
    w: Seq<int>,
    rows: int,
    rtl: bool,
) -> Seq<LogicalRect> {
    if rows == 1 {
        row_spec(content, top, height, gap, w, rtl)
    } else {
        pair_spec(content, top, height, gap, w[0], w[1], rtl) + pair_spec(
            content,
            top + height + gap,
            height,
            gap,
            w[2],
            w[3],
            rtl,
        )
    }
}

/// The add dialog's two buttons: one row, or stacked against the start edge
/// in RTL and the end edge otherwise.
pub open spec fn add_buttons_spec(
    content: LogicalRect,
    top: int,
    height: int,
    gap: int,
    w0: int,
    w1: int,
    rows: int,
    rtl: bool,
) -> Seq<LogicalRect> {
    if rows == 1 {
        pair_spec(content, top, height, gap, w0, w1, rtl)
    } else if rtl {
        seq![
            lrect(content.left as int, top, content.left + w0, top + height),
            lrect(content.left as int, top + height + gap, content.left + w1, top + height * 2 + gap),
        ]
    } else {
        seq![
            lrect(content.right - w0, top, content.right as int, top + height),
            lrect(content.right - w1, top + height + gap, content.right as int, top + height * 2 + gap),
        ]
    }
}

/// Physical button widths of the four manager actions.
pub open spec fn manager_widths(input: DialogLayoutInput) -> Seq<int> {
    let d = input.dpi as int;
    seq![
        button_width_of(input.action_text_widths@[0] as int, d),
        button_width_of(input.action_text_widths@[1] as int, d),
        button_width_of(input.action_text_widths@[2] as int, d),
        button_width_of(input.action_text_widths@[3] as int, d),
    ]
}

/// Width of the manager content: the requested width, widened until two
/// buttons fit on each of two rows.
pub open spec fn manager_content_width(input: DialogLayoutInput) -> int {
    let w = manager_widths(input);
    let gap = scaled_size(GAP_8 as int, input.dpi as int);
    let first = w[0] + gap + w[1];
    let second = w[2] + gap + w[3];
    let two_rows = if first >= second {
        first
    } else {
        second
    };
    let requested = scaled_size(input.client_width as int, input.dpi as int);
    if requested >= two_rows {
        requested
    } else {
        two_rows
    }
}

/// One action row when all four buttons and their gaps fit, otherwise two.
pub open spec fn manager_rows(input: DialogLayoutInput) -> int {
    let w = manager_widths(input);
    let gap = scaled_size(GAP_8 as int, input.dpi as int);
    if w[0] + w[1] + w[2] + w[3] + gap * 3 <= manager_content_width(input) {
        1
    } else {
        2
    }
}

/// The profile manager layout, field by field.
#[verifier::opaque]
pub open spec fn manager_layout_spec(input: DialogLayoutInput) -> ProfileManagerLayout {
    let d = input.dpi as int;
    let padding = scaled_size(OUTER_PADDING as int, d);
    let gap_6 = scaled_size(GAP_6 as int, d);
    let gap_8 = scaled_size(GAP_8 as int, d);
    let gap_12 = scaled_size(GAP_12 as int, d);
    let control_height = scaled_size(CONTROL_HEIGHT as int, d);
    let content_width = manager_content_width(input);
    let rows = manager_rows(input);
    let list = lrect(padding, padding, padding + content_width, padding + scaled_size(168, d));
    let selection_width = scaled_size(SELECTION_EDGE as int, d);
    let selection_edge = if input.rtl {
        lrect(list.right - selection_width, list.top as int, list.right as int, list.bottom as int)
    } else {
        lrect(list.left as int, list.top as int, list.left + selection_width, list.bottom as int)
    };
    let add_top = list.bottom + gap_6;
    let add_left = if input.rtl {
        list.right - control_height
    } else {
        list.left as int
    };
    let add_control = lrect(add_left, add_top, add_left + control_height, add_top + control_height);
    let label_top = add_control.bottom + gap_12;
    let name_label = lrect(
        list.left as int,
        label_top,
        list.right as int,
        label_top + scaled_size(LABEL_HEIGHT as int, d),
    );
    let edit_top = name_label.bottom + gap_6;
    let name_edit = lrect(list.left as int, edit_top, list.right as int, edit_top + control_height);
    let actions_top = name_edit.bottom + gap_12;
    let buttons = manager_buttons_spec(
        list,
        actions_top,
        control_height,
        gap_8,
        manager_widths(input),
        rows,
        input.rtl,
    );
    let actions_height = control_height * rows + gap_8 * (rows - 1);
    let client = lrect(0, 0, content_width + padding * 2, actions_top + actions_height + padding);
    ProfileManagerLayout {
        client,
        content: lrect(list.left as int, list.top as int, list.right as int, client.bottom - padding),
        list,
        selection_edge,
        add_control,
        name_label,
        name_edit,
        action_buttons: [buttons[0], buttons[1], buttons[2], buttons[3]],
        action_rows: rows as u8,
    }
}

/// Width of the add dialog content: the requested width, widened to the
/// wider button.
pub open spec fn add_content_width(input: DialogLayoutInput) -> int {
    let d = input.dpi as int;
    let w0 = button_width_of(input.action_text_widths@[0] as int, d);
    let w1 = button_width_of(input.action_text_widths@[1] as int, d);
    let widest = if w0 >= w1 {
        w0
    } else {
        w1
    };
    let requested = scaled_size(input.client_width as int, d);
    if requested >= widest {
        requested
    } else {
        widest
    }
}

/// One action row when both buttons and the gap fit, otherwise two.
pub open spec fn add_rows(input: DialogLayoutInput) -> int {
    let d = input.dpi as int;
    let w0 = button_width_of(input.action_text_widths@[0] as int, d);
    let w1 = button_width_of(input.action_text_widths@[1] as int, d);
    if w0 + scaled_size(GAP_8 as int, d) + w1 <= add_content_width(input) {
        1
    } else {
        2
    }
}

/// The add-profile layout, field by field.
#[verifier::opaque]
pub open spec fn add_layout_spec(input: DialogLayoutInput) -> AddProfileLayout {
    let d = input.dpi as int;
    let padding = scaled_size(OUTER_PADDING as int, d);
    let gap_6 = scaled_size(GAP_6 as int, d);
    let gap_8 = scaled_size(GAP_8 as int, d);
    let gap_12 = scaled_size(GAP_12 as int, d);
    let control_height = scaled_size(CONTROL_HEIGHT as int, d);
    let w0 = button_width_of(input.action_text_widths@[0] as int, d);
    let w1 = button_width_of(input.action_text_widths@[1] as int, d);
    let content_width = add_content_width(input);
    let rows = add_rows(input);
    let content = lrect(padding, padding, padding + content_width, padding);
    let name_label = lrect(
        content.left as int,
        content.top as int,
        content.right as int,
        content.top + scaled_size(LABEL_HEIGHT as int, d),
    );
    let edit_top = name_label.bottom + gap_6;
    let name_edit = lrect(
        content.left as int,
        edit_top,
        content.right as int,
        edit_top + control_height,
    );
    let actions_top = name_edit.bottom + gap_12;
    let buttons = add_buttons_spec(
        content,
        actions_top,
        control_height,
        gap_8,
        w0,
        w1,
        rows,
        input.rtl,
    );
    let actions_height = control_height * rows + gap_8 * (rows - 1);
    let client = lrect(0, 0, content_width + padding * 2, actions_top + actions_height + padding);
    AddProfileLayout {
        client,
        content: lrect(
            content.left as int,
            content.top as int,
            content.right as int,
            client.bottom - padding,
        ),
        name_label,
        name_edit,
        action_buttons: [buttons[0], buttons[1]],
        action_rows: rows as u8,
    }
}

/// Bounds under which the button placement stays far from the `i32` limits.
pub open spec fn placement_in_range(content: LogicalRect, top: int, height: int, gap: int, w: Seq<int>) -> bool {
    &&& -0x800_0000 <= content.left <= 0x800_0000
    &&& -0x800_0000 <= content.right <= 0x800_0000
    &&& 0 <= top <= 0x800_0000
    &&& 0 <= height <= 0x800_0000
    &&& 0 <= gap <= 0x800_0000
    &&& forall|i: int| 0 <= i < w.len() ==> 0 <= #[trigger] w[i] <= 0x800_0000
}

fn place_pair(
    content: LogicalRect,
    top: i32,
    height: i32,
    gap: i32,
    first_width: i32,
    second_width: i32,
    rtl: bool,
) -> (r: [LogicalRect; 2])
    requires
        placement_in_range(content, top as int, height as int, gap as int, seq![first_width as int, second_width as int]),
    ensures
        r@ == pair_spec(content, top as int, height as int, gap as int, first_width as int, second_width as int, rtl),
{
    assert(0 <= first_width <= 0x800_0000 && 0 <= second_width <= 0x800_0000) by {
        let w = seq![first_width as int, second_width as int];
        assert(w[0] == first_width && w[1] == second_width);
    }
    if rtl {
        let first = content.left;
        let second = first + first_width + gap;
        let r = [
            LogicalRect::new(first, top, first + first_width, top + height),
            LogicalRect::new(second, top, second + second_width, top + height),
        ];
        assert(r@ =~= pair_spec(content, top as int, height as int, gap as int, first_width as int, second_width as int, rtl));
        r
    } else {
        let second = content.right - second_width;
        let first = second - gap - first_width;
        let r = [
            LogicalRect::new(first, top, first + first_width, top + height),
            LogicalRect::new(second, top, second + second_width, top + height),
        ];
        assert(r@ =~= pair_spec(content, top as int, height as int, gap as int, first_width as int, second_width as int, rtl));
        r
    }
}

fn place_row(
    content: LogicalRect,
    top: i32,
    height: i32,
    gap: i32,
    widths: [i32; 4],
    rtl: bool,
) -> (r: [LogicalRect; 4])
    requires
        placement_in_range(content, top as int, height as int, gap as int, widths@.map_values(|x: i32| x as int)),
    ensures
        r@ == row_spec(content, top as int, height as int, gap as int, widths@.map_values(|x: i32| x as int), rtl),
{
    let ghost w = widths@.map_values(|x: i32| x as int);
    assert(w[0] == widths[0] && w[1] == widths[1] && w[2] == widths[2] && w[3] == widths[3]);
    assert(0 <= w[0] <= 0x800_0000 && 0 <= w[1] <= 0x800_0000 && 0 <= w[2] <= 0x800_0000 && 0 <= w[3] <= 0x800_0000);
    if rtl {
        let first = content.left;
        let second = first + widths[0] + gap;
        let third = second + widths[1] + gap;
        let fourth = third + widths[2] + gap;
        let r = [
            LogicalRect::new(first, top, first + widths[0], top + height),
            LogicalRect::new(second, top, second + widths[1], top + height),
            LogicalRect::new(third, top, third + widths[2], top + height),
            LogicalRect::new(fourth, top, fourth + widths[3], top + height),
        ];
        assert(r@ =~= row_spec(content, top as int, height as int, gap as int, w, rtl));
        r
    } else {
        let fourth = content.right - widths[3];
        let third = fourth - gap - widths[2];
        let second = third - gap - widths[1];
        let first = second - gap - widths[0];
        let r = [
            LogicalRect::new(first, top, first + widths[0], top + height),
            LogicalRect::new(second, top, second + widths[1], top + height),
            LogicalRect::new(third, top, third + widths[2], top + height),
            LogicalRect::new(fourth, top, fourth + widths[3], top + height),
        ];
        assert(r@ =~= row_spec(content, top as int, height as int, gap as int, w, rtl));
        r
    }
}

fn manager_action_buttons(
    content: LogicalRect,
    top: i32,
    height: i32,
    gap: i32,
    widths: [i32; 4],
    rows: u8,
    rtl: bool,
) -> (r: [LogicalRect; 4])
    requires
        placement_in_range(content, top as int, height as int, gap as int, widths@.map_values(|x: i32| x as int)),
        top + height + gap <= 0x800_0000,
    ensures
        r@ == manager_buttons_spec(content, top as int, height as int, gap as int, widths@.map_values(|x: i32| x as int), rows as int, rtl),
{
    let ghost w = widths@.map_values(|x: i32| x as int);
    assert(w[0] == widths[0] && w[1] == widths[1] && w[2] == widths[2] && w[3] == widths[3]);
    if rows == 1 {
        place_row(content, top, height, gap, widths, rtl)
    } else {
        assert(placement_in_range(content, top as int, height as int, gap as int, seq![widths[0] as int, widths[1] as int]));
        assert(placement_in_range(content, (top + height + gap) as int, height as int, gap as int, seq![widths[2] as int, widths[3] as int]));
        let first = place_pair(content, top, height, gap, widths[0], widths[1], rtl);
        let second = place_pair(content, top + height + gap, height, gap, widths[2], widths[3], rtl);
        let r = [first[0], first[1], second[0], second[1]];
        assert(r@ =~= manager_buttons_spec(content, top as int, height as int, gap as int, w, rows as int, rtl));
        r
    }
}

fn add_action_buttons(
    content: LogicalRect,
    top: i32,
    height: i32,
    gap: i32,
    widths: [i32; 2],
    rows: u8,
    rtl: bool,
) -> (r: [LogicalRect; 2])
    requires
        placement_in_range(content, top as int, height as int, gap as int, seq![widths@[0] as int, widths@[1] as int]),
        top + height * 2 + gap <= 0x800_0000,
    ensures
        r@ == add_buttons_spec(content, top as int, height as int, gap as int, widths@[0] as int, widths@[1] as int, rows as int, rtl),
{
    let ghost w = seq![widths@[0] as int, widths@[1] as int];
    assert(w[0] == widths[0] && w[1] == widths[1]);
    if rows == 1 {
        place_pair(content, top, height, gap, widths[0], widths[1], rtl)
    } else if rtl {
        let r = [
            LogicalRect::new(content.left, top, content.left + widths[0], top + height),
            LogicalRect::new(content.left, top + height + gap, content.left + widths[1], top + height * 2 + gap),
        ];
        assert(r@ =~= add_buttons_spec(content, top as int, height as int, gap as int, widths@[0] as int, widths@[1] as int, rows as int, rtl));
        r
    } else {
        let r = [
            LogicalRect::new(content.right - widths[0], top, content.right, top + height),
            LogicalRect::new(content.right - widths[1], top + height + gap, content.right, top + height * 2 + gap),
        ];
        assert(r@ =~= add_buttons_spec(content, top as int, height as int, gap as int, widths@[0] as int, widths@[1] as int, rows as int, rtl));
        r
    }
}

/// The scaled sizes that the layouts use, with their bounds.
proof fn lemma_layout_scales(dpi: int)
    requires
        0 <= dpi <= 9600,
    ensures
        16 <= scaled_size(16, dpi) <= 1601,
        6 <= scaled_size(6, dpi) <= 601,
        8 <= scaled_size(8, dpi) <= 801,
        12 <= scaled_size(12, dpi) <= 1201,
        32 <= scaled_size(32, dpi) <= 3201,
        18 <= scaled_size(18, dpi) <= 1801,
        3 <= scaled_size(3, dpi) <= 301,
        168 <= scaled_size(168, dpi) <= 16801,
        24 <= scaled_size(24, dpi) <= 2401,
        72 <= scaled_size(72, dpi) <= 7201,
        scaled_size(32, dpi) <= scaled_size(72, dpi),
{
    lemma_scaled_size_bounds(16, dpi);
    lemma_scaled_size_bounds(6, dpi);
    lemma_scaled_size_bounds(8, dpi);
    lemma_scaled_size_bounds(12, dpi);
    lemma_scaled_size_bounds(32, dpi);
    lemma_scaled_size_bounds(18, dpi);
    lemma_scaled_size_bounds(3, dpi);
    lemma_scaled_size_bounds(168, dpi);
    lemma_scaled_size_bounds(24, dpi);
    lemma_scaled_size_bounds(72, dpi);
    lemma_scaled_size_monotone(32, 72, dpi);
}

/// A requested width within about a million logical pixels scales to well
/// under 2^27 physical pixels.
proof fn lemma_requested_width(value: int, dpi: int)
    requires
        -0x10_0000 <= value <= 0x10_0000,
        0 <= dpi <= 9600,
    ensures
        -0x680_0000 <= scaled_size(value, dpi) <= 0x680_0000,
{
    let d = effective_dpi(dpi);
    if value >= 0 {
        lemma_scaled_size_bounds(value, dpi);
    } else {
        assert(-0x10_0000 * 9600 <= value * d <= 0) by (nonlinear_arith)
            requires
                -0x10_0000 <= value < 0,
                96 <= d <= 9600,
        ;
    }
}

/// Button widths, content width and row count of the manager layout.
fn manager_metrics(input: DialogLayoutInput) -> (r: ([i32; 4], i32, u8))
    requires
        layout_input_in_range(input),
    ensures
        r.0@.map_values(|x: i32| x as int) == manager_widths(input),
        r.1 == manager_content_width(input),
        r.2 == manager_rows(input),
        forall|i: int| 0 <= i < 4 ==> 72 <= #[trigger] r.0@[i] <= 0x10_0000 + 7201,
        72 <= r.1 <= 0x680_0000,
{
    let dpi = input.dpi;
    proof {
        lemma_layout_scales(dpi as int);
        lemma_requested_width(input.client_width as int, dpi as int);
        assert(-0x10_0000 <= input.action_text_widths@[0] <= 0x10_0000);
        assert(-0x10_0000 <= input.action_text_widths@[1] <= 0x10_0000);
        assert(-0x10_0000 <= input.action_text_widths@[2] <= 0x10_0000);
        assert(-0x10_0000 <= input.action_text_widths@[3] <= 0x10_0000);
    }
    let gap_8 = scale_logical(GAP_8, dpi);
    let widths = [
        button_width(input.action_text_widths[0], dpi),
        button_width(input.action_text_widths[1], dpi),
        button_width(input.action_text_widths[2], dpi),
        button_width(input.action_text_widths[3], dpi),
    ];
    assert(widths@.map_values(|x: i32| x as int) =~= manager_widths(input));
    let single_row_width = widths[0] + widths[1] + widths[2] + widths[3] + gap_8 * 3;
    let first_pair = widths[0] + gap_8 + widths[1];
    let second_pair = widths[2] + gap_8 + widths[3];
    let two_row_width = if first_pair >= second_pair {
        first_pair
    } else {
        second_pair
    };
    let requested_content_width = scale_logical(input.client_width, dpi);
    let content_width = if requested_content_width >= two_row_width {
        requested_content_width
    } else {
        two_row_width
    };
    let action_rows: u8 = if single_row_width <= content_width {
        1
    } else {
        2
    };
    (widths, content_width, action_rows)
}

/// Lays out the profile manager in physical pixels.
///
/// The list, the small add control under it, the name label and edit, and
/// the four action buttons follow each other from top to bottom. The content
/// is at least the requested width and wide enough for two buttons per row;
/// the four buttons take one row when they fit and otherwise two rows of two.
/// RTL mirrors the selection edge, the add control and the button alignment.
pub fn profile_manager_layout(input: DialogLayoutInput) -> (layout: ProfileManagerLayout)
    requires
        layout_input_in_range(input),
    ensures
        layout == manager_layout_spec(input),
{
    let dpi = input.dpi;
    proof {
        reveal(manager_layout_spec);
        lemma_layout_scales(dpi as int);
    }
    let padding = scale_logical(OUTER_PADDING, dpi);
    let gap_6 = scale_logical(GAP_6, dpi);
    let gap_8 = scale_logical(GAP_8, dpi);
    let gap_12 = scale_logical(GAP_12, dpi);
    let control_height = scale_logical(CONTROL_HEIGHT, dpi);
    let (widths, content_width, action_rows) = manager_metrics(input);
    let client_width = content_width + padding * 2;
    let list = LogicalRect::new(
        padding,
        padding,
        padding + content_width,
        padding + scale_logical(ROW_HEIGHT * PROFILE_LIST_ROWS, dpi),
    );
    let selection_width = scale_logical(SELECTION_EDGE, dpi);
    let selection_edge = if input.rtl {
        LogicalRect::new(list.right - selection_width, list.top, list.right, list.bottom)
    } else {
        LogicalRect::new(list.left, list.top, list.left + selection_width, list.bottom)
    };
    let add_top = list.bottom + gap_6;
    let add_left = if input.rtl {
        list.right - control_height
    } else {
        list.left
    };
    let add_control = LogicalRect::new(
        add_left,
        add_top,
        add_left + control_height,
        add_top + control_height,
    );
    let label_top = add_control.bottom + gap_12;
    let name_label = LogicalRect::new(
        list.left,
        label_top,
        list.right,
        label_top + scale_logical(LABEL_HEIGHT, dpi),
    );
    let edit_top = name_label.bottom + gap_6;
    let name_edit = LogicalRect::new(list.left, edit_top, list.right, edit_top + control_height);
    let actions_top = name_edit.bottom + gap_12;
    let action_buttons = manager_action_buttons(
        list,
        actions_top,
        control_height,
        gap_8,
        widths,
        action_rows,
        input.rtl,
    );
    let actions_height = if action_rows == 1 {
        control_height
    } else {
        control_height * 2 + gap_8
    };
    assert(actions_height == control_height * (action_rows as int) + gap_8 * (action_rows - 1))
        by (nonlinear_arith)
        requires
            action_rows == 1 || action_rows == 2,
            action_rows == 1 ==> actions_height == control_height,
            action_rows == 2 ==> actions_height == control_height * 2 + gap_8,
    ;
    let client = LogicalRect::new(0, 0, client_width, actions_top + actions_height + padding);
    let layout = ProfileManagerLayout {
        client,
        content: LogicalRect::new(list.left, list.top, list.right, client.bottom - padding),
        list,
        selection_edge,
        add_control,
        name_label,
        name_edit,
        action_buttons,
        action_rows,
    };
    assert(layout.action_buttons =~= manager_layout_spec(input).action_buttons);
    layout
}

/// Lays out the add-profile dialog in physical pixels.
///
/// The name label and edit sit above the Add and Cancel buttons. The content
/// is at least the requested width and as wide as the wider button; the
/// buttons share a row when they fit, otherwise they stack. RTL aligns them to
/// the start edge instead of the end edge.
pub fn add_profile_layout(input: DialogLayoutInput) -> (layout: AddProfileLayout)
    requires
        layout_input_in_range(input),
    ensures
        layout == add_layout_spec(input),
{
    let dpi = input.dpi;
    proof {
        reveal(add_layout_spec);
        lemma_layout_scales(dpi as int);
        lemma_requested_width(input.client_width as int, dpi as int);
        assert(-0x10_0000 <= input.action_text_widths@[0] <= 0x10_0000);
        assert(-0x10_0000 <= input.action_text_widths@[1] <= 0x10_0000);
    }
    let padding = scale_logical(OUTER_PADDING, dpi);
    let gap_6 = scale_logical(GAP_6, dpi);
    let gap_8 = scale_logical(GAP_8, dpi);
    let gap_12 = scale_logical(GAP_12, dpi);
    let control_height = scale_logical(CONTROL_HEIGHT, dpi);
    let widths = [
        button_width(input.action_text_widths[0], dpi),
        button_width(input.action_text_widths[1], dpi),
    ];
    let widest = if widths[0] >= widths[1] {
        widths[0]
    } else {
        widths[1]
    };
    let requested = scale_logical(input.client_width, dpi);
    let content_width = if requested >= widest {
        requested
    } else {
        widest
    };
    assert(content_width == add_content_width(input));
    let action_rows: u8 = if widths[0] + gap_8 + widths[1] <= content_width {
        1
    } else {
        2
    };
    assert(action_rows == add_rows(input));
    let client_width = content_width + padding * 2;
    let content = LogicalRect::new(padding, padding, padding + content_width, padding);
    let name_label = LogicalRect::new(
        content.left,
        content.top,
        content.right,
        content.top + scale_logical(LABEL_HEIGHT, dpi),
    );
    let edit_top = name_label.bottom + gap_6;
    let name_edit = LogicalRect::new(
        content.left,
        edit_top,
        content.right,
        edit_top + control_height,
    );
    let actions_top = name_edit.bottom + gap_12;
    let action_buttons = add_action_buttons(
        content,
        actions_top,
        control_height,
        gap_8,
        widths,
        action_rows,
        input.rtl,
    );
    let actions_height = if action_rows == 1 {
        control_height
    } else {
        control_height * 2 + gap_8
    };
    assert(actions_height == control_height * (action_rows as int) + gap_8 * (action_rows - 1))
        by (nonlinear_arith)
        requires
            action_rows == 1 || action_rows == 2,
            action_rows == 1 ==> actions_height == control_height,
            action_rows == 2 ==> actions_height == control_height * 2 + gap_8,
    ;
    let client = LogicalRect::new(0, 0, client_width, actions_top + actions_height + padding);
    let layout = AddProfileLayout {
        client,
        content: LogicalRect::new(content.left, content.top, content.right, client.bottom - padding),
        name_label,
        name_edit,
        action_buttons,
        action_rows,
    };
    assert(layout.action_buttons =~= add_layout_spec(input).action_buttons);
    layout
}

/// Every rectangle lies within `client` and no two of them overlap.
pub open spec fn inside_and_separate(client: LogicalRect, rects: Seq<LogicalRect>) -> bool {
    &&& forall|i: int| 0 <= i < rects.len() ==> (#[trigger] rects[i]).spec_is_inside(client)
    &&& forall|i: int, j: int|
        0 <= i < j < rects.len() ==> !(#[trigger] rects[i]).spec_intersects(#[trigger] rects[j])
}

/// The controls of a profile manager layout, in creation order.
pub open spec fn manager_controls(layout: ProfileManagerLayout) -> Seq<LogicalRect> {
    seq![
        layout.list,
        layout.add_control,
        layout.name_label,
        layout.name_edit,
        layout.action_buttons[0],
        layout.action_buttons[1],
        layout.action_buttons[2],
        layout.action_buttons[3],
    ]
}

/// The controls of an add-profile layout, in creation order.
pub open spec fn add_controls(layout: AddProfileLayout) -> Seq<LogicalRect> {
    seq![layout.name_label, layout.name_edit, layout.action_buttons[0], layout.action_buttons[1]]
}

proof fn lemma_button_widths(input: DialogLayoutInput)
    requires
        layout_input_in_range(input),
    ensures
        forall|i: int|
            0 <= i < 4 ==> scaled_size(72, input.dpi as int) <= #[trigger] manager_widths(input)[i]
                <= 0x10_0000 + 7201,
{
    lemma_layout_scales(input.dpi as int);
    assert(-0x10_0000 <= input.action_text_widths@[0] <= 0x10_0000);
    assert(-0x10_0000 <= input.action_text_widths@[1] <= 0x10_0000);
    assert(-0x10_0000 <= input.action_text_widths@[2] <= 0x10_0000);
    assert(-0x10_0000 <= input.action_text_widths@[3] <= 0x10_0000);
}

/// `lrect` keeps coordinates that fit in `i32` unchanged.
proof fn lemma_lrect(left: int, top: int, right: int, bottom: int)
    requires
        -0x8000_0000 <= left < 0x8000_0000,
        -0x8000_0000 <= top < 0x8000_0000,
        -0x8000_0000 <= right < 0x8000_0000,
        -0x8000_0000 <= bottom < 0x8000_0000,
    ensures
        lrect(left, top, right, bottom).left == left,
        lrect(left, top, right, bottom).top == top,
        lrect(left, top, right, bottom).right == right,
        lrect(left, top, right, bottom).bottom == bottom,
{
}

/// The add layout's rectangles as plain integers.
proof fn lemma_add_layout_fields(input: DialogLayoutInput)
    requires
        layout_input_in_range(input),
    ensures
        ({
            let d = input.dpi as int;
            let l = add_layout_spec(input);
            let pad = scaled_size(16, d);
            let g8 = scaled_size(8, d);
            let ch = scaled_size(32, d);
            let cw = add_content_width(input);
            let rows = add_rows(input);
            let w0 = button_width_of(input.action_text_widths@[0] as int, d);
            let w1 = button_width_of(input.action_text_widths@[1] as int, d);
            let et = pad + scaled_size(18, d) + scaled_size(6, d);
            let top = et + ch + scaled_size(12, d);
            let ah = if rows == 1 { ch } else { 2 * ch + g8 };
            &&& 16 <= pad <= 1601 && 8 <= g8 <= 801 && 32 <= ch <= 3201
            &&& 18 <= scaled_size(18, d) <= 1801 && 6 <= scaled_size(6, d) <= 601
            &&& 12 <= scaled_size(12, d) <= 1201
            &&& 72 <= w0 <= cw && 72 <= w1 <= cw && cw <= 0x680_0000
            &&& rows == 1 <==> w0 + g8 + w1 <= cw
            &&& l.action_rows == rows
            &&& l.client.left == 0 && l.client.top == 0
            &&& l.client.right == cw + 2 * pad && l.client.bottom == top + ah + pad
            &&& l.name_label.left == pad && l.name_label.right == pad + cw
            &&& l.name_label.top == pad && l.name_label.bottom == pad + scaled_size(18, d)
            &&& l.name_edit.left == pad && l.name_edit.right == pad + cw
            &&& l.name_edit.top == et && l.name_edit.bottom == et + ch
            &&& l.action_buttons@[0].top == top && l.action_buttons@[0].bottom == top + ch
            &&& l.action_buttons@[1].top == (if rows == 1 { top } else { top + ch + g8 })
            &&& l.action_buttons@[1].bottom == (if rows == 1 { top + ch } else { top + 2 * ch + g8 })
            &&& l.action_buttons@[0].right - l.action_buttons@[0].left == w0
            &&& l.action_buttons@[1].right - l.action_buttons@[1].left == w1
            &&& pad <= l.action_buttons@[0].left && l.action_buttons@[0].right <= pad + cw
            &&& pad <= l.action_buttons@[1].left && l.action_buttons@[1].right <= pad + cw
            &&& rows == 1 ==> (input.rtl ==> l.action_buttons@[0].right + g8 == l.action_buttons@[1].left)
            &&& rows == 1 ==> (!input.rtl ==> l.action_buttons@[0].right + g8 == l.action_buttons@[1].left)
        }),
{
    reveal(add_layout_spec);
    let d = input.dpi as int;
    lemma_layout_scales(d);
    lemma_requested_width(input.client_width as int, d);
    lemma_button_widths(input);
    let w0 = button_width_of(input.action_text_widths@[0] as int, d);
    let w1 = button_width_of(input.action_text_widths@[1] as int, d);
    assert(manager_widths(input)[0] == w0);
    assert(manager_widths(input)[1] == w1);
    let pad = scaled_size(16, d);
    let g6 = scaled_size(6, d);
    let g8 = scaled_size(8, d);
    let g12 = scaled_size(12, d);
    let ch = scaled_size(32, d);
    let lbl = scaled_size(18, d);
    let cw = add_content_width(input);
    let rows = add_rows(input);
    let l = add_layout_spec(input);
    lemma_lrect(pad, pad, pad + cw, pad);
    lemma_lrect(pad, pad, pad + cw, pad + lbl);
    let et = pad + lbl + g6;
    lemma_lrect(pad, et, pad + cw, et + ch);
    let top = et + ch + g12;
    let ah = if rows == 1 { ch } else { 2 * ch + g8 };
    assert(ch * rows + g8 * (rows - 1) == ah) by (nonlinear_arith)
        requires rows == 1 || rows == 2, rows == 1 ==> ah == ch, rows == 2 ==> ah == 2 * ch + g8;
    lemma_lrect(0, 0, cw + pad * 2, top + ah + pad);
    if rows == 1 {
        if input.rtl {
            lemma_lrect(pad, top, pad + w0, top + ch);
            lemma_lrect(pad + w0 + g8, top, pad + w0 + g8 + w1, top + ch);
        } else {
            lemma_lrect(pad + cw - w1 - g8 - w0, top, pad + cw - w1 - g8, top + ch);
            lemma_lrect(pad + cw - w1, top, pad + cw, top + ch);
        }
    } else {
        if input.rtl {
            lemma_lrect(pad, top, pad + w0, top + ch);
            lemma_lrect(pad, top + ch + g8, pad + w1, top + 2 * ch + g8);
        } else {
            lemma_lrect(pad + cw - w0, top, pad + cw, top + ch);
            lemma_lrect(pad + cw - w1, top + ch + g8, pad + cw, top + 2 * ch + g8);
        }
    }
}

/// Law of the add-profile layout: for every input in range, the name label,
/// the name edit and the Add and Cancel buttons lie inside the client area
/// and never overlap, on one or two rows; each button is as wide as its
/// text needs, and they share one row exactly when both fit beside each
/// other within the name field's width.
pub proof fn lemma_add_layout_well_formed(input: DialogLayoutInput)
    requires
        layout_input_in_range(input),
    ensures
        inside_and_separate(add_layout_spec(input).client, add_controls(add_layout_spec(input))),
        add_layout_spec(input).action_rows == 1 || add_layout_spec(input).action_rows == 2,
        ({
            let l = add_layout_spec(input);
            let d = input.dpi as int;
            let w0 = button_width_of(input.action_text_widths@[0] as int, d);
            let w1 = button_width_of(input.action_text_widths@[1] as int, d);
            &&& l.action_buttons@[0].spec_width() == w0
            &&& l.action_buttons@[1].spec_width() == w1
            &&& (l.action_rows == 1 <==> w0 + scaled_size(GAP_8 as int, d) + w1 <= l.name_edit.spec_width())
        }),
{
    lemma_add_layout_fields(input);
    let l = add_layout_spec(input);
    let c = add_controls(l);
    assert forall|i: int| 0 <= i < 4 implies (#[trigger] c[i]).spec_is_inside(l.client) by {}
    assert forall|i: int, j: int|
        0 <= i < j < 4 implies !(#[trigger] c[i]).spec_intersects(#[trigger] c[j]) by {}
}

/// Geometry of the manager's action buttons as plain integers.
proof fn lemma_manager_buttons(
    list: LogicalRect,
    top: int,
    ch: int,
    g8: int,
    w: Seq<int>,
    rows: int,
    rtl: bool,
)
    requires
        w.len() == 4,
        0 <= list.left <= list.right <= 0x700_0000,
        0 <= top <= 0x100_0000,
        0 < ch <= 0x10_0000,
        0 < g8 <= 0x10_0000,
        forall|i: int| 0 <= i < 4 ==> 0 < #[trigger] w[i] <= 0x20_0000,
        rows == 1 || rows == 2,
        rows == 1 ==> list.left + w[0] + w[1] + w[2] + w[3] + 3 * g8 <= list.right,
        list.left + w[0] + g8 + w[1] <= list.right,
        list.left + w[2] + g8 + w[3] <= list.right,
    ensures
        ({
            let b = manager_buttons_spec(list, top, ch, g8, w, rows, rtl);
            &&& b.len() == 4
            &&& forall|i: int| 0 <= i < 4 ==> (#[trigger] b[i]).right - b[i].left == w[i]
            &&& forall|i: int| 0 <= i < 4 ==> list.left <= (#[trigger] b[i]).left && b[i].right <= list.right
            &&& b[0].top == top && b[0].bottom == top + ch
            &&& b[1].top == top && b[1].bottom == top + ch
            &&& b[0].right + g8 == b[1].left
            &&& b[2].right + g8 == b[3].left
            &&& rows == 1 ==> b[1].right + g8 == b[2].left
            &&& b[2].top == (if rows == 1 { top } else { top + ch + g8 })
            &&& b[3].top == b[2].top && b[2].bottom == b[2].top + ch && b[3].bottom == b[2].bottom
            &&& !rtl ==> b[3].right == list.right
            &&& rtl ==> b[0].left == list.left
        }),
{
    let l = list.left as int;
    let r = list.right as int;
    if rows == 1 {
        if rtl {
            lemma_lrect(l, top, l + w[0], top + ch);
            lemma_lrect(l + w[0] + g8, top, l + w[0] + g8 + w[1], top + ch);
            lemma_lrect(l + w[0] + g8 + w[1] + g8, top, l + w[0] + g8 + w[1] + g8 + w[2], top + ch);
            lemma_lrect(l + w[0] + g8 + w[1] + g8 + w[2] + g8, top, l + w[0] + g8 + w[1] + g8 + w[2] + g8 + w[3], top + ch);
        } else {
            lemma_lrect(r - w[3], top, r, top + ch);
            lemma_lrect(r - w[3] - g8 - w[2], top, r - w[3] - g8, top + ch);
            lemma_lrect(r - w[3] - g8 - w[2] - g8 - w[1], top, r - w[3] - g8 - w[2] - g8, top + ch);
            lemma_lrect(r - w[3] - g8 - w[2] - g8 - w[1] - g8 - w[0], top, r - w[3] - g8 - w[2] - g8 - w[1] - g8, top + ch);
        }
    } else {
        let top2 = top + ch + g8;
        if rtl {
            lemma_lrect(l, top, l + w[0], top + ch);
            lemma_lrect(l + w[0] + g8, top, l + w[0] + g8 + w[1], top + ch);
            lemma_lrect(l, top2, l + w[2], top2 + ch);
            lemma_lrect(l + w[2] + g8, top2, l + w[2] + g8 + w[3], top2 + ch);
        } else {
            lemma_lrect(r - w[1], top, r, top + ch);
            lemma_lrect(r - w[1] - g8 - w[0], top, r - w[1] - g8, top + ch);
            lemma_lrect(r - w[3], top2, r, top2 + ch);
            lemma_lrect(r - w[3] - g8 - w[2], top2, r - w[3] - g8, top2 + ch);
        }
    }
    let b = manager_buttons_spec(list, top, ch, g8, w, rows, rtl);
    assert forall|i: int| 0 <= i < 4 implies (#[trigger] b[i]).right - b[i].left == w[i] by {}
    assert forall|i: int| 0 <= i < 4 implies list.left <= (#[trigger] b[i]).left && b[i].right <= list.right by {}
}

/// The manager layout's rectangles as plain integers.
#[verifier::rlimit(40)]
proof fn lemma_manager_layout_fields(input: DialogLayoutInput)
    requires
        layout_input_in_range(input),
    ensures
        ({
            let d = input.dpi as int;
            let l = manager_layout_spec(input);
            let w = manager_widths(input);
            let pad = scaled_size(16, d);
            let g6 = scaled_size(6, d);
            let g8 = scaled_size(8, d);
            let g12 = scaled_size(12, d);
            let ch = scaled_size(32, d);
            let cw = manager_content_width(input);
            let rows = manager_rows(input);
            let list_bottom = pad + scaled_size(168, d);
            let add_top = list_bottom + g6;
            let label_top = add_top + ch + g12;
            let et = label_top + scaled_size(18, d) + g6;
            let top = et + ch + g12;
            let ah = if rows == 1 { ch } else { 2 * ch + g8 };
            let b = l.action_buttons@;
            &&& 16 <= pad <= 1601 && 6 <= g6 <= 601 && 8 <= g8 <= 801 && 12 <= g12 <= 1201
            &&& 32 <= ch <= 3201 && 168 <= scaled_size(168, d) <= 16801
            &&& 18 <= scaled_size(18, d) <= 1801
            &&& ch <= cw <= 0x680_0000
            &&& (rows == 1 || rows == 2) && l.action_rows == rows
            &&& rows == 1 ==> w[0] + w[1] + w[2] + w[3] + 3 * g8 <= cw
            &&& w[0] + g8 + w[1] <= cw && w[2] + g8 + w[3] <= cw
            &&& l.client.left == 0 && l.client.top == 0
            &&& l.client.right == cw + 2 * pad && l.client.bottom == top + ah + pad
            &&& l.list == lrect(pad, pad, pad + cw, list_bottom)
            &&& l.list.left == pad && l.list.top == pad && l.list.right == pad + cw && l.list.bottom == list_bottom
            &&& l.content.left == pad && l.content.right == pad + cw
            &&& l.add_control.top == add_top && l.add_control.bottom == add_top + ch
            &&& l.add_control.right - l.add_control.left == ch
            &&& pad <= l.add_control.left && l.add_control.right <= pad + cw
            &&& l.name_label.left == pad && l.name_label.right == pad + cw
            &&& l.name_label.top == label_top && l.name_label.bottom == label_top + scaled_size(18, d)
            &&& l.name_edit.left == pad && l.name_edit.right == pad + cw
            &&& l.name_edit.top == et && l.name_edit.bottom == et + ch
            &&& forall|i: int| 0 <= i < 4 ==> (#[trigger] b[i]).right - b[i].left == w[i]
            &&& forall|i: int| 0 <= i < 4 ==> pad <= (#[trigger] b[i]).left && b[i].right <= pad + cw
            &&& b[0].top == top && b[0].bottom == top + ch
            &&& b[1].top == top && b[1].bottom == top + ch
            &&& b[0].right + g8 == b[1].left
            &&& b[2].right + g8 == b[3].left
            &&& rows == 1 ==> b[1].right + g8 == b[2].left
            &&& b[2].top == (if rows == 1 { top } else { top + ch + g8 })
            &&& b[3].top == b[2].top && b[2].bottom == b[2].top + ch && b[3].bottom == b[2].bottom
            &&& b[2].bottom <= top + ah
            &&& !input.rtl ==> l.selection_edge.left == l.list.left
            &&& input.rtl ==> l.selection_edge.right == l.list.right
            &&& !input.rtl ==> b[3].right == l.content.right
            &&& input.rtl ==> b[0].left == l.content.left
        }),
{
    reveal(manager_layout_spec);
    let d = input.dpi as int;
    lemma_layout_scales(d);
    lemma_requested_width(input.client_width as int, d);
    lemma_button_widths(input);
    let w = manager_widths(input);
    let pad = scaled_size(16, d);
    let g6 = scaled_size(6, d);
    let g8 = scaled_size(8, d);
    let g12 = scaled_size(12, d);
    let ch = scaled_size(32, d);
    let lbl = scaled_size(18, d);
    let sel = scaled_size(3, d);
    let cw = manager_content_width(input);
    let rows = manager_rows(input);
    let list_bottom = pad + scaled_size(168, d);
    lemma_lrect(pad, pad, pad + cw, list_bottom);
    lemma_lrect(pad + cw - sel, pad, pad + cw, list_bottom);
    lemma_lrect(pad, pad, pad + sel, list_bottom);
    let add_top = list_bottom + g6;
    lemma_lrect(pad + cw - ch, add_top, pad + cw, add_top + ch);
    lemma_lrect(pad, add_top, pad + ch, add_top + ch);
    let label_top = add_top + ch + g12;
    lemma_lrect(pad, label_top, pad + cw, label_top + lbl);
    let et = label_top + lbl + g6;
    lemma_lrect(pad, et, pad + cw, et + ch);
    let top = et + ch + g12;
    let ah = if rows == 1 { ch } else { 2 * ch + g8 };
    assert(ch * rows + g8 * (rows - 1) == ah) by (nonlinear_arith)
        requires rows == 1 || rows == 2, rows == 1 ==> ah == ch, rows == 2 ==> ah == 2 * ch + g8;
    lemma_lrect(0, 0, cw + pad * 2, top + ah + pad);
    lemma_lrect(pad, pad, pad + cw, top + ah);
    let list = lrect(pad, pad, pad + cw, list_bottom);
    lemma_manager_buttons(list, top, ch, g8, w, rows, input.rtl);
    assert(manager_layout_spec(input).action_buttons@ =~= manager_buttons_spec(list, top, ch, g8, w, rows, input.rtl));
    let b = manager_layout_spec(input).action_buttons@;
    assert forall|i: int| 0 <= i < 4 implies (#[trigger] b[i]).right - b[i].left == w[i] by {}
    assert forall|i: int| 0 <= i < 4 implies pad <= (#[trigger] b[i]).left && b[i].right <= pad + cw by {}
}

/// Law of the profile manager layout: every button is as wide as its text
/// needs, the list is at least the requested width, and the buttons share
/// one row exactly when all four fit within the list's width. For every input in range, the list, the
/// add control, the name label and edit and the four action buttons all lie
/// inside the client area and never overlap; the buttons use one or two rows
/// and are at least the minimum button width; the selection edge and the
/// button alignment follow the reading direction.
pub proof fn lemma_manager_layout_well_formed(input: DialogLayoutInput)
    requires
        layout_input_in_range(input),
    ensures
        inside_and_separate(manager_layout_spec(input).client, manager_controls(manager_layout_spec(input))),
        manager_layout_spec(input).action_rows == 1 || manager_layout_spec(input).action_rows == 2,
        forall|i: int|
            0 <= i < 4 ==> (#[trigger] manager_layout_spec(input).action_buttons@[i]).spec_width()
                >= scaled_size(72, input.dpi as int),
        !input.rtl ==> manager_layout_spec(input).selection_edge.left == manager_layout_spec(input).list.left,
        input.rtl ==> manager_layout_spec(input).selection_edge.right == manager_layout_spec(input).list.right,
        !input.rtl ==> manager_layout_spec(input).action_buttons@[3].right == manager_layout_spec(input).content.right,
        input.rtl ==> manager_layout_spec(input).action_buttons@[0].left == manager_layout_spec(input).content.left,
        ({
            let l = manager_layout_spec(input);
            let d = input.dpi as int;
            let w = manager_widths(input);
            &&& forall|i: int| 0 <= i < 4 ==> (#[trigger] l.action_buttons@[i]).spec_width() == button_width_of(
                input.action_text_widths@[i] as int,
                d,
            )
            &&& l.list.spec_width() >= scaled_size(input.client_width as int, d)
            &&& (l.action_rows == 1 <==> w[0] + w[1] + w[2] + w[3] + 3 * scaled_size(GAP_8 as int, d)
                <= l.list.spec_width())
        }),
{
    lemma_manager_layout_fields(input);
    let l = manager_layout_spec(input);
    let c = manager_controls(l);
    let b = l.action_buttons@;
    assert(c[4] == b[0] && c[5] == b[1] && c[6] == b[2] && c[7] == b[3]);
    assert forall|i: int| 0 <= i < 8 implies (#[trigger] c[i]).spec_is_inside(l.client) by {
        if i >= 4 {
            assert(c[i] == b[i - 4]);
        }
    }
    assert forall|i: int, j: int|
        0 <= i < j < 8 implies !(#[trigger] c[i]).spec_intersects(#[trigger] c[j]) by {
        if i >= 4 {
            assert(c[i] == b[i - 4]);
        }
        if j >= 4 {
            assert(c[j] == b[j - 4]);
        }
    }
    assert forall|i: int|
        0 <= i < 4 implies (#[trigger] l.action_buttons@[i]).spec_width() >= scaled_size(72, input.dpi as int) by {
        lemma_button_widths(input);
    }
    assert forall|i: int| 0 <= i < 4 implies (#[trigger] l.action_buttons@[i]).spec_width() == button_width_of(
        input.action_text_widths@[i] as int,
        input.dpi as int,
    ) by {
        assert(b[i].right - b[i].left == manager_widths(input)[i]);
    }

}

} // verus!
