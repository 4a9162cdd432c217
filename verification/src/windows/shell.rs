//! Small policies of the native shell: when the taskbar is checked again,
//! the single update dialog, menu activation, and the widget's material.

use vstd::prelude::*;

use super::taskbar_widget::{
    lemma_taskbar_layout_bounded, taskbar_layout, widget_size_in_range, TaskbarIndicator,
    TaskbarLayout, TaskbarLayoutMode, TaskbarRisk, TaskbarVisualState,
};
use super::usage_popup::{
    DT_CENTER, DT_END_ELLIPSIS, DT_LEFT, DT_RIGHT, DT_RTLREADING, DT_SINGLELINE, DT_VCENTER,
    FW_MEDIUM, FW_NORMAL,
};
use super::widget::Rect;
use crate::domain::TaskbarDisplayMode;

verus! {

/// Startup ticks that each re-check the taskbar.
pub const TASKBAR_STARTUP_RETRIES: u8 = 5;

/// Ticks between two safety re-checks after startup.
pub const TASKBAR_RECONCILE_TICKS: u8 = 30;

/// When the timer re-checks the taskbar: on each of the first startup ticks,
/// then once every `TASKBAR_RECONCILE_TICKS` ticks.
pub struct TaskbarRefreshSchedule {
    startup_retries_remaining: u8,
    reconcile_ticks: u8,
}

impl TaskbarRefreshSchedule {
    pub closed spec fn retries_left(&self) -> nat {
        self.startup_retries_remaining as nat
    }

    pub closed spec fn ticks_since_check(&self) -> nat {
        self.reconcile_ticks as nat
    }

    /// The counters stay in their ranges.
    pub open spec fn wf(&self) -> bool {
        &&& self.retries_left() <= TASKBAR_STARTUP_RETRIES
        &&& self.ticks_since_check() < TASKBAR_RECONCILE_TICKS
        &&& self.retries_left() > 0 ==> self.ticks_since_check() == 0
    }

    /// A schedule at startup.
    pub fn new() -> (s: Self)
        ensures
            s.wf(),
            s.retries_left() == TASKBAR_STARTUP_RETRIES,
            s.ticks_since_check() == 0,
    {
        TaskbarRefreshSchedule { startup_retries_remaining: TASKBAR_STARTUP_RETRIES, reconcile_ticks: 0 }
    }

    /// Advances one timer tick and says whether the taskbar is checked now.
    pub fn tick(&mut self) -> (check: bool)
        requires
            old(self).wf(),
        ensures
            final(self).wf(),
            old(self).retries_left() > 0 ==> check && final(self).retries_left() == old(self).retries_left() - 1
                && final(self).ticks_since_check() == 0,
            old(self).retries_left() == 0 ==> final(self).retries_left() == 0 && check == (old(self).ticks_since_check() + 1
                == TASKBAR_RECONCILE_TICKS) && final(self).ticks_since_check() == (old(self).ticks_since_check() + 1)
                % (TASKBAR_RECONCILE_TICKS as nat),
    {
        if self.startup_retries_remaining > 0 {
            self.startup_retries_remaining -= 1;
            return true;
        }
        self.reconcile_ticks = self.reconcile_ticks + 1;
        if self.reconcile_ticks >= TASKBAR_RECONCILE_TICKS {
            self.reconcile_ticks = 0;
            true
        } else {
            false
        }
    }
}

/// Admits one update dialog at a time on the UI thread.
pub struct UpdateDialogGate {
    in_progress: bool,
}

impl UpdateDialogGate {
    pub closed spec fn spec_in_progress(&self) -> bool {
        self.in_progress
    }

    /// No update dialog is open.
    pub fn new() -> (g: Self)
        ensures
            !g.spec_in_progress(),
    {
        UpdateDialogGate { in_progress: false }
    }

    /// Enters the dialog scope; `false`, and nothing changes, while another
    /// update dialog is open.
    pub fn acquire(&mut self) -> (entered: bool)
        ensures
            entered == !old(self).spec_in_progress(),
            final(self).spec_in_progress(),
    {
        if self.in_progress {
            false
        } else {
            self.in_progress = true;
            true
        }
    }

    /// Leaves the dialog scope.
    pub fn release(&mut self)
        ensures
            !final(self).spec_in_progress(),
    {
        self.in_progress = false;
    }

    /// Whether an update dialog is open.
    pub fn in_progress(&self) -> (b: bool)
        ensures
            b == self.spec_in_progress(),
    {
        self.in_progress
    }
}

/// `WM_CONTEXTMENU`.
pub const WM_CONTEXTMENU: u32 = 0x007B;

/// `NIN_SELECT` (`WM_USER`), the version 4 tray selection event.
pub const NIN_SELECT: u32 = 0x0400;

/// The tray opens its menu on the version 4 activation events only.
pub fn should_open_tray_menu(event: u32) -> (b: bool)
    ensures
        b == (event == WM_CONTEXTMENU || event == NIN_SELECT),
{
    event == WM_CONTEXTMENU || event == NIN_SELECT
}

/// The widget opens its menu on the standard context menu message.
pub fn should_open_widget_menu(message: u32) -> (b: bool)
    ensures
        b == (message == WM_CONTEXTMENU),
{
    message == WM_CONTEXTMENU
}

/// `IDYES`.
pub const IDYES: i32 = 6;

/// `MB_TASKMODAL`.
pub const MB_TASKMODAL: u32 = 0x0000_2000;

/// `MB_SETFOREGROUND`.
pub const MB_SETFOREGROUND: u32 = 0x0001_0000;

/// The release page opens only on an explicit yes.
pub fn update_dialog_opens_release(result: i32) -> (b: bool)
    ensures
        b == (result == IDYES),
{
    result == IDYES
}

/// The style of the ownerless update dialog: task modal and in front.
pub fn update_dialog_style(buttons: u32, icon: u32) -> (style: u32)
    ensures
        style == buttons | icon | MB_SETFOREGROUND | MB_TASKMODAL,
        style & MB_TASKMODAL == MB_TASKMODAL,
{
    let style = buttons | icon | MB_SETFOREGROUND | MB_TASKMODAL;
    assert(style & MB_TASKMODAL == MB_TASKMODAL) by (bit_vector)
        requires
            style == buttons | icon | 0x0001_0000u32 | 0x0000_2000u32,
    ;
    style
}

/// The percentage shown by the compact renderer: the minimal layout shows
/// an error as `!`, every other state shows the percentage or `--`.
pub fn compact_percent_text<'a>(mode: TaskbarLayoutMode, indicator: TaskbarIndicator, percent: Option<&'a str>) -> (s: &'a str)
    ensures
        mode == TaskbarLayoutMode::Minimal && indicator == TaskbarIndicator::Error ==> s@ == "!"@,
        !(mode == TaskbarLayoutMode::Minimal && indicator == TaskbarIndicator::Error) ==> s@ == match percent {
            Some(p) => p@,
            None => "--"@,
        },
{
    if mode == TaskbarLayoutMode::Minimal && indicator == TaskbarIndicator::Error {
        "!"
    } else {
        match percent {
            Some(p) => p,
            None => "--",
        }
    }
}

/// Status dot colors (`0x00BBGGRR`): green, amber, red, grey.
pub open spec fn indicator_color(indicator: TaskbarIndicator) -> u32 {
    match indicator {
        TaskbarIndicator::Comfortable => 0x0074_c748,
        TaskbarIndicator::Normal => 0x0023_a6f5,
        TaskbarIndicator::Fast | TaskbarIndicator::Error => 0x005c_5cff,
        TaskbarIndicator::Neutral => 0x0097_9797,
    }
}

/// The color of the status dot.
pub fn taskbar_indicator_color(indicator: TaskbarIndicator) -> (c: u32)
    ensures
        c == indicator_color(indicator),
{
    match indicator {
        TaskbarIndicator::Comfortable => 0x0074_c748,
        TaskbarIndicator::Normal => 0x0023_a6f5,
        TaskbarIndicator::Fast | TaskbarIndicator::Error => 0x005c_5cff,
        TaskbarIndicator::Neutral => 0x0097_9797,
    }
}

/// The color of the progress bar for the usage risk.
pub fn taskbar_risk_color(risk: TaskbarRisk) -> (c: u32)
    ensures
        c == match risk {
            TaskbarRisk::Healthy => 0x0074_c748u32,
            TaskbarRisk::Warning => 0x0023_a6f5u32,
            TaskbarRisk::Critical | TaskbarRisk::Error => 0x005c_5cffu32,
            TaskbarRisk::Loading => 0x0097_9797u32,
        },
{
    match risk {
        TaskbarRisk::Healthy => 0x0074_c748,
        TaskbarRisk::Warning => 0x0023_a6f5,
        TaskbarRisk::Critical | TaskbarRisk::Error => 0x005c_5cff,
        TaskbarRisk::Loading => 0x0097_9797,
    }
}

/// The position hash of the material grain, wrapping like `i32`.
pub open spec fn grain_hash(x: i32, y: i32) -> i32 {
    vstd::wrapping::i32_specs::wrapping_add(
        vstd::wrapping::i32_specs::wrapping_add(
            vstd::wrapping::i32_specs::wrapping_mul(x, 73_856_093),
            vstd::wrapping::i32_specs::wrapping_mul(y, 19_349_663),
        ),
        83_492_791,
    )
}

/// A deterministic grain offset between -2 and 2 for a pixel.
pub fn glass_noise(x: i32, y: i32) -> (n: i32)
    ensures
        n == grain_hash(x, y) % 5 - 2,
        -2 <= n <= 2,
{
    let hash = x.wrapping_mul(73_856_093).wrapping_add(y.wrapping_mul(19_349_663)).wrapping_add(83_492_791);
    match hash.checked_rem_euclid(5) {
        Some(r) => r - 2,
        None => {
            assert(false);
            0
        },
    }
}

/// Alpha of the transparent material at hover strength `hover` (0 to 255)
/// and edge coverage `coverage`: none outside the shape, else at least one
/// step so the whole rounded surface stays hit-testable.
pub open spec fn material_alpha(hover: u8, coverage: u8) -> u8 {
    if coverage == 0 {
        0
    } else {
        let hover_alpha = (hover * 28) / 255;
        let alpha = (hover_alpha * coverage) / 255;
        if alpha < 1 { 1 } else { alpha as u8 }
    }
}

/// The material alpha of one pixel.
pub fn material_surface_alpha(hover: u8, coverage: u8) -> (a: u8)
    ensures
        a == material_alpha(hover, coverage),
{
    if coverage == 0 {
        return 0;
    }
    let hover_alpha: u16 = (hover as u16 * 28) / 255;
    assert(hover_alpha <= 28) by (nonlinear_arith)
        requires
            hover_alpha == (hover as u16 * 28) / 255,
            hover <= 255,
    ;
    assert(hover_alpha * coverage <= 28 * 255) by (nonlinear_arith)
        requires
            hover_alpha <= 28,
            coverage <= 255,
    ;
    let alpha: u16 = (hover_alpha * coverage as u16) / 255;
    if alpha < 1 {
        1
    } else {
        alpha as u8
    }
}

/// Colors of the taskbar widget on a light or dark taskbar, `0x00BBGGRR`.
#[derive(Clone, Copy, Debug, PartialEq, Eq, Structural)]
pub struct TaskbarPalette {
    pub material: u32,
    pub label: u32,
    pub percent: u32,
    pub track: u32,
}

/// The widget colors for the system theme: dark text on the light material
/// and light text on the dark one.
pub fn taskbar_palette(light: bool) -> (p: TaskbarPalette)
    ensures
        light ==> p == (TaskbarPalette { material: 0x00f3_f3f3, label: 0x0020_2020, percent: 0x0010_1010, track: 0x00c7_c7c7 }),
        !light ==> p == (TaskbarPalette { material: 0x0028_2828, label: 0x00ed_eded, percent: 0x00f5_f5f5, track: 0x0042_4242 }),
        light ==> p.label < p.material,
        !light ==> p.label > p.material,
{
    if light {
        TaskbarPalette { material: 0x00f3_f3f3, label: 0x0020_2020, percent: 0x0010_1010, track: 0x00c7_c7c7 }
    } else {
        TaskbarPalette { material: 0x0028_2828, label: 0x00ed_eded, percent: 0x00f5_f5f5, track: 0x0042_4242 }
    }
}

/// A line of text on the taskbar widget: its box, `DrawText` format and
/// color, and the logical size and weight of its font.
#[derive(Clone, Copy, Debug, PartialEq, Eq)]
pub struct TaskbarText<'a> {
    pub rect: Rect,
    pub text: &'a str,
    pub format: u32,
    pub color: u32,
    pub font_size: i32,
    pub font_weight: i32,
}

/// The status mark of the widget.
#[derive(Clone, Copy, Debug, PartialEq, Eq)]
pub enum TaskbarMark<'a> {
    /// A filled circle in the box, in the color.
    Dot(Rect, u32),
    /// The error sign, drawn as text.
    Sign(TaskbarText<'a>),
}

/// What the compact widget content paints, in the order given: the
/// background, the mark, the label, the percentage and the progress track;
/// the filled part of the track, in `fill_color`, follows the weekly row's
/// display percentage when there is a row.
#[derive(Clone, Copy, Debug, PartialEq, Eq)]
pub struct CompactTaskbarPaint<'a> {
    pub background: Rect,
    pub background_color: u32,
    pub mark: Option<TaskbarMark<'a>>,
    pub label: Option<TaskbarText<'a>>,
    pub percent: TaskbarText<'a>,
    pub track: Rect,
    pub track_color: u32,
    pub fill_color: u32,
}

/// `r` moved by `dx` and `dy`.
pub open spec fn moved(r: Rect, dx: int, dy: int) -> Rect {
    Rect { left: (r.left + dx) as i32, top: (r.top + dy) as i32, right: (r.right + dx) as i32, bottom: (r.bottom + dy) as i32 }
}

fn move_rect(r: Rect, dx: i32, dy: i32) -> (m: Rect)
    requires
        -0x1000_0000 <= r.left <= 0x1000_0000,
        -0x1000_0000 <= r.top <= 0x1000_0000,
        -0x1000_0000 <= r.right <= 0x1000_0000,
        -0x1000_0000 <= r.bottom <= 0x1000_0000,
        -0x1000_0000 <= dx <= 0x1000_0000,
        -0x1000_0000 <= dy <= 0x1000_0000,
    ensures
        m == moved(r, dx as int, dy as int),
{
    Rect::new(r.left + dx, r.top + dy, r.right + dx, r.bottom + dy)
}

/// The `DrawText` format of a one-line, vertically centered text that ends
/// in an ellipsis, aligned to the reading side.
pub open spec fn side_format(rtl: bool) -> u32 {
    (if rtl { DT_RIGHT | DT_RTLREADING } else { DT_LEFT }) | DT_SINGLELINE | DT_VCENTER | DT_END_ELLIPSIS
}

/// The client the compact content may paint in: a size in range, placed
/// within ±2^28.
pub open spec fn compact_client_in_range(client: Rect, dpi: u32) -> bool {
    &&& widget_size_in_range(client.spec_width(), client.spec_height(), dpi)
    &&& -0x1000_0000 <= client.left <= 0x1000_0000
    &&& -0x1000_0000 <= client.top <= 0x1000_0000
}

/// Plans the compact widget content in `client`: the layout for its size,
/// moved to its position; the dot in the pace color, or in an error the
/// sign in red; the period label on the reading side; the weekly
/// percentage right-aligned (centered in the minimal layout, where an
/// error shows the sign in red); and the track under it, filled in the
/// risk color.
pub fn compact_taskbar_paint<'a>(
    client: Rect,
    dpi: u32,
    taskbar_label: &'a str,
    percent_text: Option<&'a str>,
    visual: TaskbarVisualState,
    palette: TaskbarPalette,
    rtl: bool,
) -> (p: CompactTaskbarPaint<'a>)
    requires
        compact_client_in_range(client, dpi),
    ensures
        ({
            let l = taskbar_layout(client.spec_width(), client.spec_height(), dpi, true);
            let at = |r: Rect| moved(r, client.left as int, client.top as int);
            let accent = indicator_color(visual.indicator);
            let error = visual.indicator == TaskbarIndicator::Error;
            let minimal = l.mode == TaskbarLayoutMode::Minimal;
            &&& p.background == client
            &&& p.background_color == palette.material
            &&& match l.dot {
                None => p.mark is None,
                Some(d) => if error {
                    &&& p.mark matches Some(TaskbarMark::Sign(t))
                    &&& t.rect == at(d)
                    &&& t.text@ == "!"@
                    &&& t.format == DT_LEFT | DT_SINGLELINE | DT_VCENTER
                    &&& t.color == accent
                    &&& t.font_size == 11 && t.font_weight == FW_MEDIUM
                } else {
                    p.mark == Some(TaskbarMark::Dot(at(d), accent))
                },
            }
            &&& match l.label {
                None => p.label is None,
                Some(r) => p.label == Some(TaskbarText {
                    rect: at(r),
                    text: taskbar_label,
                    format: side_format(rtl),
                    color: palette.label,
                    font_size: 12,
                    font_weight: FW_NORMAL,
                }),
            }
            &&& p.percent.rect == at(l.percent)
            &&& p.percent.text@ == (if minimal && error {
                "!"@
            } else {
                match percent_text {
                    Some(t) => t@,
                    None => "--"@,
                }
            })
            &&& p.percent.format == (if minimal { DT_CENTER } else { DT_RIGHT }) | DT_SINGLELINE | DT_VCENTER
            &&& p.percent.color == (if minimal && error { accent } else { palette.percent })
            &&& p.percent.font_size == 12 && p.percent.font_weight == FW_MEDIUM
            &&& p.track == at(l.progress)
            &&& p.track_color == palette.track
            &&& p.fill_color == match visual.progress_risk {
                TaskbarRisk::Healthy => 0x0074_c748u32,
                TaskbarRisk::Warning => 0x0023_a6f5u32,
                TaskbarRisk::Critical | TaskbarRisk::Error => 0x005c_5cffu32,
                TaskbarRisk::Loading => 0x0097_9797u32,
            }
        }),
{
    let width = client.right - client.left;
    let height = client.bottom - client.top;
    proof {
        lemma_taskbar_layout_bounded(width as int, height as int, dpi, true);
    }
    let layout = TaskbarLayout::for_size(width, height, dpi);
    let accent = taskbar_indicator_color(visual.indicator);
    let error = match visual.indicator {
        TaskbarIndicator::Error => true,
        _ => false,
    };
    let minimal = match layout.mode {
        TaskbarLayoutMode::Minimal => true,
        _ => false,
    };
    let mark = match layout.dot {
        None => None,
        Some(d) => {
            let rect = move_rect(d, client.left, client.top);
            if error {
                Some(TaskbarMark::Sign(TaskbarText {
                    rect,
                    text: "!",
                    format: DT_LEFT | DT_SINGLELINE | DT_VCENTER,
                    color: accent,
                    font_size: 11,
                    font_weight: FW_MEDIUM,
                }))
            } else {
                Some(TaskbarMark::Dot(rect, accent))
            }
        },
    };
    let label = match layout.label {
        None => None,
        Some(r) => {
            let alignment = if rtl { DT_RIGHT | DT_RTLREADING } else { DT_LEFT };
            Some(TaskbarText {
                rect: move_rect(r, client.left, client.top),
                text: taskbar_label,
                format: alignment | DT_SINGLELINE | DT_VCENTER | DT_END_ELLIPSIS,
                color: palette.label,
                font_size: 12,
                font_weight: FW_NORMAL,
            })
        },
    };
    let percent = TaskbarText {
        rect: move_rect(layout.percent, client.left, client.top),
        text: compact_percent_text(layout.mode, visual.indicator, percent_text),
        format: (if minimal { DT_CENTER } else { DT_RIGHT }) | DT_SINGLELINE | DT_VCENTER,
        color: if minimal && error { accent } else { palette.percent },
        font_size: 12,
        font_weight: FW_MEDIUM,
    };
    proof {
        reveal_strlit("!");
    }
    CompactTaskbarPaint {
        background: client,
        background_color: palette.material,
        mark,
        label,
        percent,
        track: move_rect(layout.progress, client.left, client.top),
        track_color: palette.track,
        fill_color: taskbar_risk_color(visual.progress_risk),
    }
}

/// The profile name above a floating widget: on the material color, one
/// line on the reading side ending in an ellipsis, in the label color at
/// eleven logical pixels, medium weight.
pub fn profile_header_paint<'a>(header: Rect, label: &'a str, palette: TaskbarPalette, rtl: bool) -> (t: TaskbarText<'a>)
    ensures
        t == (TaskbarText {
            rect: header,
            text: label,
            format: side_format(rtl),
            color: palette.label,
            font_size: 11,
            font_weight: FW_MEDIUM,
        }),
{
    let alignment = if rtl { DT_RIGHT | DT_RTLREADING } else { DT_LEFT };
    TaskbarText {
        rect: header,
        text: label,
        format: alignment | DT_SINGLELINE | DT_VCENTER | DT_END_ELLIPSIS,
        color: palette.label,
        font_size: 11,
        font_weight: FW_MEDIUM,
    }
}

/// The number of 32-bit pixels of a layered bitmap of `width` by `height`;
/// `None` when a side is negative or the count does not fit in `usize`.
pub fn layered_bitmap_pixels(width: i32, height: i32) -> (n: Option<usize>)
    ensures
        n == (if width < 0 || height < 0 || width * height > usize::MAX {
            None
        } else {
            Some((width * height) as usize)
        }),
{
    if width < 0 || height < 0 {
        return None;
    }
    let w = width as u64;
    let h = height as u64;
    assert(w * h <= 0x7fff_ffff * 0x7fff_ffff) by (nonlinear_arith)
        requires
            w <= 0x7fff_ffff,
            h <= 0x7fff_ffff,
    ;
    let product = w * h;
    if product > usize::MAX as u64 {
        None
    } else {
        Some(product as usize)
    }
}

/// Why the taskbar widget has no bitmap to paint.
#[derive(Clone, Copy, Debug, PartialEq, Eq, Structural)]
pub enum WidgetBitmapError {
    /// The client area is empty.
    EmptyClient,
    /// The pixel count does not fit in `usize`.
    TooLarge,
}

/// The pixel count of the taskbar widget's bitmap: its client must have an
/// area, and the count fit in `usize`.
pub fn taskbar_bitmap_pixels(width: i32, height: i32) -> (n: Result<usize, WidgetBitmapError>)
    ensures
        n == (if width <= 0 || height <= 0 {
            Err(WidgetBitmapError::EmptyClient)
        } else if width * height > usize::MAX {
            Err(WidgetBitmapError::TooLarge)
        } else {
            Ok((width * height) as usize)
        }),
{
    if width <= 0 || height <= 0 {
        return Err(WidgetBitmapError::EmptyClient);
    }
    match layered_bitmap_pixels(width, height) {
        Some(n) => Ok(n),
        None => Err(WidgetBitmapError::TooLarge),
    }
}

/// The taskbars the widget is shown on: every observed one, or only the
/// first in primary-monitor mode.
pub open spec fn displayed_targets<T>(targets: Seq<T>, mode: TaskbarDisplayMode) -> Seq<T> {
    if mode == TaskbarDisplayMode::Primary && targets.len() > 1 {
        targets.take(1)
    } else {
        targets
    }
}

/// Keeps the taskbars the widget is shown on.
pub fn displayed_taskbar_targets<T>(targets: Vec<T>, mode: TaskbarDisplayMode) -> (r: Vec<T>)
    ensures
        r@ == displayed_targets(targets@, mode),
{
    let mut targets = targets;
    if mode == TaskbarDisplayMode::Primary {
        targets.truncate(1);
    }
    targets
}

/// What the window policy does with the widgets.
#[derive(Clone, Debug, PartialEq, Eq)]
pub enum WidgetWindowPolicy<T> {
    /// The widget is turned off: hide every widget window.
    HideAll,
    /// Reconcile the widgets with these taskbars (none: one floating
    /// widget), show and paint them.
    Show(Vec<T>),
}

/// The window policy for the settings: hidden when the widget is turned
/// off, else shown on the taskbars that the display mode keeps.
pub fn widget_window_policy<T>(widget_visible: bool, mode: TaskbarDisplayMode, targets: Vec<T>) -> (r: WidgetWindowPolicy<T>)
    ensures
        !widget_visible ==> r is HideAll,
        widget_visible ==> (r matches WidgetWindowPolicy::Show(shown) && shown@ == displayed_targets(targets@, mode)),
{
    if !widget_visible {
        WidgetWindowPolicy::HideAll
    } else {
        WidgetWindowPolicy::Show(displayed_taskbar_targets(targets, mode))
    }
}

} // verus!
