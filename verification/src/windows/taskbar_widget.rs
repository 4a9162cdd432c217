//! The taskbar widget's surface, hover animation and DPI layout.

use vstd::prelude::*;

use super::widget::{logical_to_physical, physical, Rect};
use super::{ConsumptionPaceState, WidgetDataState};

verus! {

/// Default logical width of the widget when the taskbar has room.
pub const TASKBAR_WIDTH_LOGICAL: i32 = 208;

/// Narrowest logical width that keeps the content without covering icons.
pub const TASKBAR_MIN_WIDTH_LOGICAL: i32 = 88;

/// The widget surface: an optional profile header (floating widget only) and
/// the compact usage body.
#[derive(Clone, Copy, Debug, PartialEq, Eq, Structural)]
pub struct WidgetSurfaceLayout {
    pub profile_header: Option<Rect>,
    pub content: Rect,
}

/// Physical size of a logical value at `dpi`, as `logical_to_physical` gives
/// it.
pub open spec fn px(value: int, dpi: u32) -> int {
    #[verifier::truncate] (physical(value, dpi as int) as i32) as int
}

/// The surface layout: attached to the taskbar, the body fills the window;
/// floating, a profile header is reserved at the top and the body starts
/// below it.
pub open spec fn surface_layout(width: int, height: int, dpi: u32, attached: bool) -> WidgetSurfaceLayout {
    let width = if width > 0 {
        width
    } else {
        0
    };
    let height = if height > 0 {
        height
    } else {
        0
    };
    if attached {
        WidgetSurfaceLayout {
            profile_header: None,
            content: Rect { left: 0, top: 0, right: width as i32, bottom: height as i32 },
        }
    } else {
        let header_bottom = if px(18, dpi) <= height {
            px(18, dpi)
        } else {
            height
        };
        let inset = if px(8, dpi) <= width / 2 {
            px(8, dpi)
        } else {
            width / 2
        };
        let header_top = if px(2, dpi) <= header_bottom {
            px(2, dpi)
        } else {
            header_bottom
        };
        WidgetSurfaceLayout {
            profile_header: Some(
                Rect {
                    left: inset as i32,
                    top: header_top as i32,
                    right: (width - inset) as i32,
                    bottom: header_bottom as i32,
                },
            ),
            content: Rect { left: 0, top: header_bottom as i32, right: width as i32, bottom: height as i32 },
        }
    }
}

/// The widget surface for its attachment state; attached, the body is the
/// whole window, and floating, a profile header sits above it.
pub fn widget_surface_layout(width: i32, height: i32, dpi: u32, attached_to_taskbar: bool) -> (r:
    WidgetSurfaceLayout)
    ensures
        r == surface_layout(width as int, height as int, dpi, attached_to_taskbar),
{
    let width = if width > 0 {
        width
    } else {
        0
    };
    let height = if height > 0 {
        height
    } else {
        0
    };
    if attached_to_taskbar {
        return WidgetSurfaceLayout { profile_header: None, content: Rect::new(0, 0, width, height) };
    }
    let h18 = logical_to_physical(18, dpi);
    let header_bottom = if h18 <= height {
        h18
    } else {
        height
    };
    let i8 = logical_to_physical(8, dpi);
    let inset = if i8 <= width / 2 {
        i8
    } else {
        width / 2
    };
    let h2 = logical_to_physical(2, dpi);
    let header_top = if h2 <= header_bottom {
        h2
    } else {
        header_bottom
    };
    WidgetSurfaceLayout {
        profile_header: Some(Rect::new(inset, header_top, width - inset, header_bottom)),
        content: Rect::new(0, header_bottom, width, height),
    }
}

/// Whether a tooltip's stored UTF-16 text differs from the new one, so that
/// the native tooltip needs an update.
pub fn tooltip_text_needs_update(previous: &[u16], next: &[u16]) -> (b: bool)
    ensures
        b == (previous@ != next@),
{
    if previous.len() != next.len() {
        return true;
    }
    let mut i: usize = 0;
    while i < previous.len()
        invariant
            previous.len() == next.len(),
            i <= previous.len(),
            forall|k: int| 0 <= k < i ==> previous@[k] == next@[k],
        decreases previous.len() - i,
    {
        if previous[i] != next[i] {
            return true;
        }
        i += 1;
    }
    assert(previous@ =~= next@);
    false
}

/// Hover brightness moving toward its target in steps of 26 per frame.
#[derive(Clone, Copy, Debug, Default, PartialEq, Eq, Structural)]
pub struct HoverTransition {
    value: u8,
    target: u8,
}

impl HoverTransition {
    pub closed spec fn spec_value(self) -> u8 {
        self.value
    }

    pub closed spec fn spec_target(self) -> u8 {
        self.target
    }

    /// Targets full brightness on hover and zero otherwise; the current value
    /// is kept.
    pub fn set_hovered(&mut self, hovered: bool)
        ensures
            final(self).spec_target() == (if hovered {
                255u8
            } else {
                0u8
            }),
            final(self).spec_value() == old(self).spec_value(),
    {
        self.target = if hovered {
            255
        } else {
            0
        };
    }

    /// Moves one frame toward the target, by 26 without overshooting, and
    /// returns whether another frame is needed.
    pub fn tick(&mut self) -> (more: bool)
        ensures
            final(self).spec_target() == old(self).spec_target(),
            final(self).spec_value() == (if old(self).spec_value() < old(self).spec_target() {
                if old(self).spec_value() + 26 >= old(self).spec_target() {
                    old(self).spec_target() as int
                } else {
                    old(self).spec_value() + 26
                }
            } else if old(self).spec_value() > old(self).spec_target() {
                if old(self).spec_value() - 26 <= old(self).spec_target() {
                    old(self).spec_target() as int
                } else {
                    old(self).spec_value() - 26
                }
            } else {
                old(self).spec_value() as int
            }),
            more == (final(self).spec_value() != final(self).spec_target()),
    {
        if self.value == self.target {
            return false;
        }
        if self.value < self.target {
            let raised: u8 = if self.value > 255 - 26 {
                255
            } else {
                self.value + 26
            };
            self.value = if raised < self.target {
                raised
            } else {
                self.target
            };
        } else {
            let lowered: u8 = if self.value < 26 {
                0
            } else {
                self.value - 26
            };
            self.value = if lowered > self.target {
                lowered
            } else {
                self.target
            };
        }
        self.value != self.target
    }

    /// The current hover brightness.
    pub fn value(self) -> (v: u8)
        ensures
            v == self.spec_value(),
    {
        self.value
    }
}

/// Law of the hover animation: every frame that needs a successor moves the
/// value strictly closer to the target, so the animation ends after at most
/// ten frames.
pub proof fn lemma_hover_converges(value: int, target: int)
    requires
        0 <= value <= 255,
        0 <= target <= 255,
    ensures
        ({
            let next = if value < target {
                if value + 26 >= target {
                    target
                } else {
                    value + 26
                }
            } else if value > target {
                if value - 26 <= target {
                    target
                } else {
                    value - 26
                }
            } else {
                value
            };
            &&& value != target ==> (if next > target { next - target } else { target - next })
                < (if value > target { value - target } else { target - value })
            &&& (if next > target { next - target } else { target - next }) <= (if value > target {
                value - target
            } else {
                target - value
            })
        }),
{
}

/// Usage risk of the taskbar progress.
#[derive(Clone, Copy, Debug, PartialEq, Eq, Structural)]
pub enum TaskbarRisk {
    Healthy,
    Warning,
    Critical,
    Loading,
    Error,
}

/// The pace or query state of the status dot.
#[derive(Clone, Copy, Debug, PartialEq, Eq, Structural)]
pub enum TaskbarIndicator {
    Comfortable,
    Normal,
    Fast,
    Neutral,
    Error,
}

/// Status dot and progress risk, kept separate.
#[derive(Clone, Copy, Debug, PartialEq, Eq, Structural)]
pub struct TaskbarVisualState {
    pub indicator: TaskbarIndicator,
    pub progress_risk: TaskbarRisk,
}

/// How much of the widget the available width shows.
#[derive(Clone, Copy, Debug, PartialEq, Eq, Structural)]
pub enum TaskbarLayoutMode {
    /// Dot, period labels and percentages of both windows.
    Full,
    /// Dot and percentages of both windows.
    Compact,
    /// Only the first window's percentage.
    Minimal,
}

/// The fixed regions of the taskbar widget.
#[derive(Clone, Copy, Debug, PartialEq, Eq, Structural)]
pub struct TaskbarLayout {
    pub mode: TaskbarLayoutMode,
    pub window: Rect,
    pub dot: Option<Rect>,
    pub label: Option<Rect>,
    pub secondary_label: Option<Rect>,
    pub percent: Rect,
    pub secondary_percent: Option<Rect>,
    pub progress: Rect,
    pub secondary_progress: Option<Rect>,
}


fn min_i32(a: i32, b: i32) -> (r: i32)
    ensures
        r == (if a <= b { a } else { b }),
{
    if a <= b {
        a
    } else {
        b
    }
}

fn max_i32(a: i32, b: i32) -> (r: i32)
    ensures
        r == (if a >= b { a } else { b }),
{
    if a >= b {
        a
    } else {
        b
    }
}

pub open spec fn min_int(a: int, b: int) -> int {
    if a <= b {
        a
    } else {
        b
    }
}

pub open spec fn max_int(a: int, b: int) -> int {
    if a >= b {
        a
    } else {
        b
    }
}

/// Rust's integer division, rounding toward zero.
pub open spec fn div_toward_zero(a: int, b: int) -> int {
    if a >= 0 {
        a / b
    } else {
        -((-a) / b)
    }
}

/// The mode that the width allows: full from 140 logical pixels, compact
/// from 100, minimal below.
pub open spec fn layout_mode(width: int, dpi: u32) -> TaskbarLayoutMode {
    if width >= px(140, dpi) {
        TaskbarLayoutMode::Full
    } else if width >= px(100, dpi) {
        TaskbarLayoutMode::Compact
    } else {
        TaskbarLayoutMode::Minimal
    }
}

/// Vertical metrics of the widget rows: top padding, first row top and
/// bottom, second row top and bottom, and the progress bar height.
pub struct RowMetrics {
    pub rows: int,
    pub top: int,
    pub primary_bottom: int,
    pub secondary_top: int,
    pub secondary_bottom: int,
    pub progress_height: int,
    pub primary_row_height: int,
}

/// The vertical metrics for a height and row count.
pub open spec fn row_metrics(height: int, dpi: u32, rows: int) -> RowMetrics {
    let top_padding = min_int(max_int(px(2, dpi), 1), max_int(height, 1));
    let bottom_padding = min_int(max_int(px(3, dpi), 1), max_int(height - top_padding, 1));
    let row_gap = if rows == 2 {
        max_int(px(2, dpi), 1)
    } else {
        0
    };
    let available = max_int(height - top_padding - bottom_padding - row_gap, rows);
    let primary = max_int(div_toward_zero(available, rows), 1);
    let secondary = max_int(available - primary, 1);
    let primary_bottom = top_padding + primary;
    let secondary_top = primary_bottom + row_gap;
    let progress = min_int(max_int(px(2, dpi), 1), max_int(min_int(primary, secondary) - 2, 1));
    RowMetrics {
        rows,
        top: top_padding,
        primary_bottom,
        secondary_top,
        secondary_bottom: secondary_top + secondary,
        progress_height: progress,
        primary_row_height: primary,
    }
}

pub open spec fn rect_of(left: int, top: int, right: int, bottom: int) -> Rect {
    Rect { left: left as i32, top: top as i32, right: right as i32, bottom: bottom as i32 }
}

/// The taskbar widget regions for a size, a DPI and whether a second usage
/// row is shown.
#[verifier::opaque]
pub open spec fn taskbar_layout(width: int, height: int, dpi: u32, include_secondary: bool) -> TaskbarLayout {
    let mode = layout_mode(width, dpi);
    let inset = min_int(px(11, dpi), max_int(div_toward_zero(width, 4), 1));
    let rows = if mode == TaskbarLayoutMode::Minimal || !include_secondary {
        1int
    } else {
        2int
    };
    let m = row_metrics(height, dpi, rows);
    let primary_progress_top = m.primary_bottom - m.progress_height;
    let secondary_progress_top = m.secondary_bottom - m.progress_height;
    let primary_text_bottom = min_int(max_int(primary_progress_top - 1, m.top + 1), primary_progress_top);
    let secondary_text_bottom = min_int(max_int(secondary_progress_top - 1, m.secondary_top + 1), secondary_progress_top);
    let dot_size = min_int(px(6, dpi), max_int(m.primary_row_height, 1));
    let dot_top = m.top + div_toward_zero(m.primary_row_height - dot_size, 2);
    let label_left = inset + dot_size + px(8, dpi);
    let percent_width = min_int(px(42, dpi), max_int(div_toward_zero(width, 3), 1));
    let full_percent_left = max_int(width - inset - percent_width, label_left + px(8, dpi));
    let label_right = full_percent_left - max_int(px(4, dpi), 1);
    let dot = rect_of(inset, dot_top, inset + dot_size, dot_top + dot_size);
    TaskbarLayout {
        mode,
        window: rect_of(0, 0, width, height),
        dot: if mode == TaskbarLayoutMode::Minimal {
            None
        } else {
            Some(dot)
        },
        label: if mode == TaskbarLayoutMode::Full {
            Some(rect_of(label_left, m.top, label_right, primary_text_bottom))
        } else {
            None
        },
        secondary_label: if mode == TaskbarLayoutMode::Full {
            Some(rect_of(label_left, m.secondary_top, label_right, secondary_text_bottom))
        } else {
            None
        },
        percent: match mode {
            TaskbarLayoutMode::Full => rect_of(full_percent_left, m.top, width - inset, primary_text_bottom),
            TaskbarLayoutMode::Compact => rect_of(label_left, m.top, width - inset, primary_text_bottom),
            TaskbarLayoutMode::Minimal => rect_of(inset, m.top, width - inset, primary_text_bottom),
        },
        secondary_percent: match mode {
            TaskbarLayoutMode::Full => Some(rect_of(full_percent_left, m.secondary_top, width - inset, secondary_text_bottom)),
            TaskbarLayoutMode::Compact => Some(rect_of(label_left, m.secondary_top, width - inset, secondary_text_bottom)),
            TaskbarLayoutMode::Minimal => None,
        },
        progress: rect_of(inset, primary_progress_top, width - inset, m.primary_bottom),
        secondary_progress: if rows == 2 {
            Some(rect_of(inset, secondary_progress_top, width - inset, m.secondary_bottom))
        } else {
            None
        },
    }
}

/// Sizes and DPIs far from the `i32` limits.
pub open spec fn widget_size_in_range(width: int, height: int, dpi: u32) -> bool {
    &&& -0x100_0000 <= width <= 0x100_0000
    &&& -0x100_0000 <= height <= 0x100_0000
    &&& dpi <= 100_000
}

proof fn lemma_px_bounds(value: int, dpi: u32)
    requires
        0 <= value <= 140,
        dpi <= 100_000,
    ensures
        0 <= px(value, dpi) <= value * 1042 + 1,
        dpi >= 96 ==> value <= px(value, dpi),
{
    let d: int = if dpi < 1 { 1 } else { dpi as int };
    assert(0 <= value * d <= value * 100_000) by (nonlinear_arith)
        requires 0 <= value, 1 <= d <= 100_000;
    assert(dpi >= 96 ==> value * 96 <= value * d) by (nonlinear_arith)
        requires 0 <= value, 1 <= d, d == (if dpi < 1 { 1 } else { dpi as int });
}

fn vertical_metrics(height: i32, dpi: u32, row_count: i32) -> (r: (i32, i32, i32, i32, i32, i32))
    requires
        -0x100_0000 <= height <= 0x100_0000,
        dpi <= 100_000,
        row_count == 1 || row_count == 2,
    ensures
        ({
            let m = row_metrics(height as int, dpi, row_count as int);
            &&& r.0 == m.top
            &&& r.1 == m.primary_bottom
            &&& r.2 == m.secondary_top
            &&& r.3 == m.secondary_bottom
            &&& r.4 == m.progress_height
            &&& r.5 == m.primary_row_height
            &&& -0x100_0000 <= m.top <= 0x200_0000
            &&& -0x100_0000 <= m.primary_bottom <= 0x400_0000
            &&& -0x100_0000 <= m.secondary_bottom <= 0x800_0000
            &&& 1 <= m.progress_height <= 0x10_0000
            &&& 1 <= m.primary_row_height <= 0x200_0000
        }),
{
    proof {
        lemma_px_bounds(2, dpi);
        lemma_px_bounds(3, dpi);
    }
    let s2 = logical_to_physical(2, dpi);
    let top_padding = min_i32(max_i32(s2, 1), max_i32(height, 1));
    let bottom_padding = min_i32(max_i32(logical_to_physical(3, dpi), 1), max_i32(height - top_padding, 1));
    let row_gap = if row_count == 2 {
        max_i32(s2, 1)
    } else {
        0
    };
    let available_height = max_i32(height - top_padding - bottom_padding - row_gap, row_count);
    let quotient = available_height / row_count;
    assert(quotient == div_toward_zero(available_height as int, row_count as int));
    let primary_row_height = max_i32(quotient, 1);
    let secondary_row_height = max_i32(available_height - primary_row_height, 1);
    let primary_bottom = top_padding + primary_row_height;
    let secondary_top = primary_bottom + row_gap;
    let secondary_bottom = secondary_top + secondary_row_height;
    let progress_height = min_i32(max_i32(s2, 1), max_i32(min_i32(primary_row_height, secondary_row_height) - 2, 1));
    (top_padding, primary_bottom, secondary_top, secondary_bottom, progress_height, primary_row_height)
}

fn horizontal_metrics(width: i32, dpi: u32, inset: i32, top: i32, row_height: i32) -> (r: (i32, i32, i32, i32, i32))
    requires
        -0x100_0000 <= width <= 0x100_0000,
        dpi <= 100_000,
        0 <= inset <= 0x10_0000,
        -0x100_0000 <= top <= 0x200_0000,
        1 <= row_height <= 0x200_0000,
    ensures
        ({
            let dot_size = min_int(px(6, dpi), max_int(row_height as int, 1));
            let label_left = inset + dot_size + px(8, dpi);
            let percent_width = min_int(px(42, dpi), max_int(div_toward_zero(width as int, 3), 1));
            let full_percent_left = max_int(width - inset - percent_width, label_left + px(8, dpi));
            &&& r.0 == dot_size
            &&& r.1 == top + div_toward_zero(row_height - dot_size, 2)
            &&& r.2 == label_left
            &&& r.3 == full_percent_left
            &&& r.4 == full_percent_left - max_int(px(4, dpi), 1)
        }),
{
    proof {
        lemma_px_bounds(6, dpi);
        lemma_px_bounds(8, dpi);
        lemma_px_bounds(42, dpi);
        lemma_px_bounds(4, dpi);
    }
    let dot_size = min_i32(logical_to_physical(6, dpi), max_i32(row_height, 1));
    let half = (row_height - dot_size) / 2;
    assert(half == div_toward_zero(row_height - dot_size, 2));
    let dot_top = top + half;
    let s8 = logical_to_physical(8, dpi);
    let label_left = inset + dot_size + s8;
    let third = width / 3;
    assert(third == div_toward_zero(width as int, 3));
    let percent_width = min_i32(logical_to_physical(42, dpi), max_i32(third, 1));
    let full_percent_left = max_i32(width - inset - percent_width, label_left + s8);
    let label_right = full_percent_left - max_i32(logical_to_physical(4, dpi), 1);
    (dot_size, dot_top, label_left, full_percent_left, label_right)
}

impl TaskbarLayout {
    /// The regions for the client size at `dpi`, with both usage rows where
    /// the width allows them.
    pub fn for_size(width: i32, height: i32, dpi: u32) -> (r: Self)
        requires
            widget_size_in_range(width as int, height as int, dpi),
        ensures
            r == taskbar_layout(width as int, height as int, dpi, true),
    {
        Self::for_rows(width, height, dpi, true)
    }

    /// The regions for the client size at `dpi` and the number of rows shown.
    #[verifier::rlimit(50)]
    pub fn for_rows(width: i32, height: i32, dpi: u32, include_secondary: bool) -> (r: Self)
        requires
            widget_size_in_range(width as int, height as int, dpi),
        ensures
            r == taskbar_layout(width as int, height as int, dpi, include_secondary),
    {
        proof {
            reveal(taskbar_layout);
            lemma_px_bounds(140, dpi);
            lemma_px_bounds(100, dpi);
            lemma_px_bounds(11, dpi);
            lemma_px_bounds(2, dpi);
            lemma_px_bounds(3, dpi);
            lemma_px_bounds(6, dpi);
            lemma_px_bounds(8, dpi);
            lemma_px_bounds(42, dpi);
            lemma_px_bounds(4, dpi);
        }
        let s140 = logical_to_physical(140, dpi);
        let s100 = logical_to_physical(100, dpi);
        let mode = if width >= s140 {
            TaskbarLayoutMode::Full
        } else if width >= s100 {
            TaskbarLayoutMode::Compact
        } else {
            TaskbarLayoutMode::Minimal
        };
        let quarter = width / 4;
        assert(quarter == div_toward_zero(width as int, 4));
        let inset = min_i32(logical_to_physical(11, dpi), max_i32(quarter, 1));
        let row_count: i32 = if mode == TaskbarLayoutMode::Minimal || !include_secondary {
            1
        } else {
            2
        };
        let (primary_top, primary_bottom, secondary_top, secondary_bottom, progress_height, primary_row_height) =
            vertical_metrics(height, dpi, row_count);
        let primary_progress_top = primary_bottom - progress_height;
        let secondary_progress_top = secondary_bottom - progress_height;
        let primary_text_bottom = min_i32(max_i32(primary_progress_top - 1, primary_top + 1), primary_progress_top);
        let secondary_text_bottom = min_i32(max_i32(secondary_progress_top - 1, secondary_top + 1), secondary_progress_top);
        let (dot_size, dot_top, label_left, full_percent_left, label_right) =
            horizontal_metrics(width, dpi, inset, primary_top, primary_row_height);
        let dot = Rect::new(inset, dot_top, inset + dot_size, dot_top + dot_size);
        let (dot, label, percent, secondary_label, secondary_percent) = match mode {
            TaskbarLayoutMode::Full => (
                Some(dot),
                Some(Rect::new(label_left, primary_top, label_right, primary_text_bottom)),
                Rect::new(full_percent_left, primary_top, width - inset, primary_text_bottom),
                Some(Rect::new(label_left, secondary_top, label_right, secondary_text_bottom)),
                Some(Rect::new(full_percent_left, secondary_top, width - inset, secondary_text_bottom)),
            ),
            TaskbarLayoutMode::Compact => (
                Some(dot),
                None,
                Rect::new(label_left, primary_top, width - inset, primary_text_bottom),
                None,
                Some(Rect::new(label_left, secondary_top, width - inset, secondary_text_bottom)),
            ),
            TaskbarLayoutMode::Minimal => (
                None,
                None,
                Rect::new(inset, primary_top, width - inset, primary_text_bottom),
                None,
                None,
            ),
        };
        TaskbarLayout {
            mode,
            window: Rect::new(0, 0, width, height),
            dot,
            label,
            secondary_label,
            percent,
            secondary_percent,
            progress: Rect::new(inset, primary_progress_top, width - inset, primary_bottom),
            secondary_progress: if row_count == 2 {
                Some(Rect::new(inset, secondary_progress_top, width - inset, secondary_bottom))
            } else {
                None
            },
        }
    }
}


/// Heights that leave every shown row at least one pixel after the
/// paddings and the row gap.
pub open spec fn height_fits_rows(height: int, dpi: u32) -> bool {
    height >= max_int(px(2, dpi), 1) + max_int(px(3, dpi), 1) + max_int(px(2, dpi), 1) + 2
}

proof fn lemma_row_metrics_fit(height: int, dpi: u32, rows: int)
    requires
        widget_size_in_range(0, height, dpi),
        rows == 1 || rows == 2,
        height_fits_rows(height, dpi),
    ensures
        ({
            let m = row_metrics(height, dpi, rows);
            &&& 1 <= m.top
            &&& m.top <= m.primary_bottom - m.progress_height
            &&& m.progress_height >= 1
            &&& m.primary_bottom <= m.secondary_top
            &&& rows == 2 ==> m.secondary_top <= m.secondary_bottom - m.progress_height
            &&& rows == 2 ==> m.secondary_bottom <= height
            &&& m.primary_bottom <= height
            &&& m.primary_row_height >= 1
            &&& m.top + m.primary_row_height == m.primary_bottom
        }),
{
    lemma_px_bounds(2, dpi);
    lemma_px_bounds(3, dpi);
}

proof fn lemma_rect_of(left: int, top: int, right: int, bottom: int)
    requires
        -0x8000_0000 <= left < 0x8000_0000,
        -0x8000_0000 <= top < 0x8000_0000,
        -0x8000_0000 <= right < 0x8000_0000,
        -0x8000_0000 <= bottom < 0x8000_0000,
    ensures
        rect_of(left, top, right, bottom).left == left,
        rect_of(left, top, right, bottom).top == top,
        rect_of(left, top, right, bottom).right == right,
        rect_of(left, top, right, bottom).bottom == bottom,
{
}

/// Horizontal facts of the layout at widths of at least four pixels.
proof fn lemma_horizontal_fit(width: int, dpi: u32, row_height: int)
    requires
        widget_size_in_range(width, 0, dpi),
        dpi >= 96,
        width >= 4,
        row_height >= 1,
    ensures
        ({
            let mode = layout_mode(width, dpi);
            let inset = min_int(px(11, dpi), max_int(div_toward_zero(width, 4), 1));
            let dot_size = min_int(px(6, dpi), max_int(row_height, 1));
            let label_left = inset + dot_size + px(8, dpi);
            let percent_width = min_int(px(42, dpi), max_int(div_toward_zero(width, 3), 1));
            let full_percent_left = max_int(width - inset - percent_width, label_left + px(8, dpi));
            let label_right = full_percent_left - max_int(px(4, dpi), 1);
            &&& 1 <= inset && 2 * inset <= width && inset <= 0x10_0000
            &&& 1 <= dot_size <= row_height && dot_size <= px(6, dpi)
            &&& 0 <= label_left <= 0x10_0000
            &&& mode != TaskbarLayoutMode::Minimal ==> inset + dot_size <= width
            &&& mode == TaskbarLayoutMode::Full ==> 0 <= full_percent_left <= width && label_right <= width
            &&& -0x100_0000 <= full_percent_left <= 0x100_0000
            &&& -0x100_0000 <= label_right <= 0x100_0000
        }),
{
    lemma_px_bounds(140, dpi);
    lemma_px_bounds(100, dpi);
    lemma_px_bounds(11, dpi);
    lemma_px_bounds(6, dpi);
    lemma_px_bounds(8, dpi);
    lemma_px_bounds(42, dpi);
    lemma_px_bounds(4, dpi);
    let d = dpi as int;
    assert(px(11, dpi) + px(6, dpi) + px(8, dpi) + px(8, dpi) + 2 < px(100, dpi)) by {
        assert(px(11, dpi) == (11 * d + 48) / 96);
        assert(px(6, dpi) == (6 * d + 48) / 96);
        assert(px(8, dpi) == (8 * d + 48) / 96);
        assert(px(100, dpi) == (100 * d + 48) / 96);
    }
    assert(px(100, dpi) <= px(140, dpi)) by {
        assert(px(100, dpi) == (100 * d + 48) / 96);
        assert(px(140, dpi) == (140 * d + 48) / 96);
    }
}

/// Law of the taskbar layout: for any width of at least four pixels and any
/// height that leaves each row a pixel, at a DPI of at least 96, every region
/// lies within the window, and the first progress bar ends before the second
/// row's begins.
#[verifier::rlimit(60)]
pub proof fn lemma_taskbar_layout_inside(width: int, height: int, dpi: u32, include_secondary: bool)
    requires
        widget_size_in_range(width, height, dpi),
        dpi >= 96,
        width >= 4,
        height_fits_rows(height, dpi),
    ensures
        ({
            let l = taskbar_layout(width, height, dpi, include_secondary);
            &&& l.progress.spec_is_inside(l.window)
            &&& l.percent.spec_is_inside(l.window)
            &&& (l.secondary_progress matches Some(p) ==> p.spec_is_inside(l.window) && l.progress.bottom <= p.top)
            &&& (l.secondary_percent matches Some(p) ==> p.spec_is_inside(l.window))
            &&& (l.label matches Some(p) ==> p.spec_is_inside(l.window))
            &&& (l.secondary_label matches Some(p) ==> p.spec_is_inside(l.window))
            &&& (l.dot matches Some(p) ==> p.spec_is_inside(l.window))
            &&& (l.mode == TaskbarLayoutMode::Minimal ==> l.secondary_progress is None && l.secondary_label is None && l.secondary_percent is None)
        }),
{
    reveal(taskbar_layout);
    let mode = layout_mode(width, dpi);
    let rows = if mode == TaskbarLayoutMode::Minimal || !include_secondary { 1int } else { 2int };
    lemma_row_metrics_fit(height, dpi, rows);
    let m = row_metrics(height, dpi, rows);
    lemma_horizontal_fit(width, dpi, m.primary_row_height);
    let inset = min_int(px(11, dpi), max_int(div_toward_zero(width, 4), 1));
    let ppt = m.primary_bottom - m.progress_height;
    let spt = m.secondary_bottom - m.progress_height;
    let ptb = min_int(max_int(ppt - 1, m.top + 1), ppt);
    let stb = min_int(max_int(spt - 1, m.secondary_top + 1), spt);
    let dot_size = min_int(px(6, dpi), max_int(m.primary_row_height, 1));
    let dot_top = m.top + div_toward_zero(m.primary_row_height - dot_size, 2);
    let label_left = inset + dot_size + px(8, dpi);
    let percent_width = min_int(px(42, dpi), max_int(div_toward_zero(width, 3), 1));
    let fpl = max_int(width - inset - percent_width, label_left + px(8, dpi));
    let label_right = fpl - max_int(px(4, dpi), 1);
    let l = taskbar_layout(width, height, dpi, include_secondary);
    lemma_rect_of(0, 0, width, height);
    lemma_rect_of(inset, ppt, width - inset, m.primary_bottom);
    assert(l.progress == rect_of(inset, ppt, width - inset, m.primary_bottom));
    lemma_rect_of(inset, spt, width - inset, m.secondary_bottom);
    lemma_rect_of(full_percent_or(mode, fpl, label_left, inset), m.top, width - inset, ptb);
    assert(l.percent == rect_of(full_percent_or(mode, fpl, label_left, inset), m.top, width - inset, ptb));
    lemma_rect_of(full_percent_or(mode, fpl, label_left, inset), m.secondary_top, width - inset, stb);
    lemma_rect_of(label_left, m.top, label_right, ptb);
    lemma_rect_of(label_left, m.secondary_top, label_right, stb);
    lemma_rect_of(inset, dot_top, inset + dot_size, dot_top + dot_size);
}

/// Every coordinate of the rectangle lies within ±2^28.
pub open spec fn rect_bounded(r: Rect) -> bool {
    &&& -0x1000_0000 <= r.left <= 0x1000_0000
    &&& -0x1000_0000 <= r.top <= 0x1000_0000
    &&& -0x1000_0000 <= r.right <= 0x1000_0000
    &&& -0x1000_0000 <= r.bottom <= 0x1000_0000
}

proof fn lemma_row_metrics_bounded(height: int, dpi: u32, rows: int)
    requires
        widget_size_in_range(0, height, dpi),
        rows == 1 || rows == 2,
    ensures
        ({
            let m = row_metrics(height, dpi, rows);
            &&& 0 <= m.top <= 0x10_0000
            &&& -0x400_0000 <= m.primary_bottom <= 0x400_0000
            &&& -0x400_0000 <= m.secondary_top <= 0x400_0000
            &&& -0x800_0000 <= m.secondary_bottom <= 0x800_0000
            &&& 1 <= m.progress_height <= 0x10_0000
            &&& 1 <= m.primary_row_height <= 0x200_0000
        }),
{
    lemma_px_bounds(2, dpi);
    lemma_px_bounds(3, dpi);
}

/// For every size in range, each region of the layout lies within ±2^28,
/// so it can be moved by any offset up to that size.
#[verifier::spinoff_prover]
#[verifier::rlimit(80)]
pub proof fn lemma_taskbar_layout_bounded(width: int, height: int, dpi: u32, include_secondary: bool)
    requires
        widget_size_in_range(width, height, dpi),
    ensures
        ({
            let l = taskbar_layout(width, height, dpi, include_secondary);
            &&& rect_bounded(l.window)
            &&& rect_bounded(l.percent)
            &&& rect_bounded(l.progress)
            &&& (l.dot matches Some(p) ==> rect_bounded(p))
            &&& (l.label matches Some(p) ==> rect_bounded(p))
            &&& (l.secondary_label matches Some(p) ==> rect_bounded(p))
            &&& (l.secondary_percent matches Some(p) ==> rect_bounded(p))
            &&& (l.secondary_progress matches Some(p) ==> rect_bounded(p))
        }),
{
    reveal(taskbar_layout);
    lemma_px_bounds(140, dpi);
    lemma_px_bounds(100, dpi);
    lemma_px_bounds(11, dpi);
    lemma_px_bounds(6, dpi);
    lemma_px_bounds(8, dpi);
    lemma_px_bounds(42, dpi);
    lemma_px_bounds(4, dpi);
    let mode = layout_mode(width, dpi);
    let rows = if mode == TaskbarLayoutMode::Minimal || !include_secondary { 1int } else { 2int };
    lemma_row_metrics_bounded(height, dpi, rows);
    let m = row_metrics(height, dpi, rows);
    let inset = min_int(px(11, dpi), max_int(div_toward_zero(width, 4), 1));
    let ppt = m.primary_bottom - m.progress_height;
    let spt = m.secondary_bottom - m.progress_height;
    let ptb = min_int(max_int(ppt - 1, m.top + 1), ppt);
    let stb = min_int(max_int(spt - 1, m.secondary_top + 1), spt);
    let dot_size = min_int(px(6, dpi), max_int(m.primary_row_height, 1));
    let dot_top = m.top + div_toward_zero(m.primary_row_height - dot_size, 2);
    let label_left = inset + dot_size + px(8, dpi);
    let percent_width = min_int(px(42, dpi), max_int(div_toward_zero(width, 3), 1));
    let fpl = max_int(width - inset - percent_width, label_left + px(8, dpi));
    let label_right = fpl - max_int(px(4, dpi), 1);
    assert(0 <= inset <= 0x10_0000);
    assert(0 <= dot_size <= 0x10_0000);
    assert(0 <= label_left <= 0x10_0000);
    assert(0 <= percent_width <= 0x10_0000);
    assert(-0x200_0000 <= fpl <= 0x200_0000);
    assert(-0x200_0000 <= label_right <= 0x200_0000);
    assert(-0x800_0000 <= ppt <= 0x800_0000 && -0x800_0000 <= spt <= 0x800_0000);
    assert(-0x800_0000 <= ptb <= 0x800_0000 && -0x800_0000 <= stb <= 0x800_0000);
    assert(-0x800_0000 <= dot_top <= 0x800_0000);
    lemma_rect_of(0, 0, width, height);
    lemma_rect_of(inset, ppt, width - inset, m.primary_bottom);
    lemma_rect_of(inset, spt, width - inset, m.secondary_bottom);
    lemma_rect_of(fpl, m.top, width - inset, ptb);
    lemma_rect_of(label_left, m.top, width - inset, ptb);
    lemma_rect_of(inset, m.top, width - inset, ptb);
    lemma_rect_of(fpl, m.secondary_top, width - inset, stb);
    lemma_rect_of(label_left, m.secondary_top, width - inset, stb);
    lemma_rect_of(label_left, m.top, label_right, ptb);
    lemma_rect_of(label_left, m.secondary_top, label_right, stb);
    lemma_rect_of(inset, dot_top, inset + dot_size, dot_top + dot_size);
}

/// The left edge of the first percentage in each mode.
pub open spec fn full_percent_or(mode: TaskbarLayoutMode, full: int, compact: int, minimal: int) -> int {
    match mode {
        TaskbarLayoutMode::Full => full,
        TaskbarLayoutMode::Compact => compact,
        TaskbarLayoutMode::Minimal => minimal,
    }
}

/// The profile name shown above a floating widget: only when the layout
/// has a header and the name is not empty.
pub fn profile_header_text<'a>(usage_profile_label: &'a str, layout: WidgetSurfaceLayout) -> (r: Option<&'a str>)
    ensures
        r matches Some(t) ==> t@ == usage_profile_label@,
        (r is Some) == (layout.profile_header is Some && usage_profile_label@.len() > 0),
{
    match layout.profile_header {
        Some(_) => {
            if usage_profile_label.is_empty() {
                None
            } else {
                Some(usage_profile_label)
            }
        },
        None => None,
    }
}

/// The weekly row: the secondary window when there is one, else the only
/// primary one.
pub fn select_weekly_row<'a, T>(primary: Option<&'a T>, secondary: Option<&'a T>) -> (r: Option<&'a T>)
    ensures
        r == (if secondary is Some { secondary } else { primary }),
{
    match secondary {
        Some(row) => Some(row),
        None => primary,
    }
}

/// The two rows of the widget body, the primary (five-hour) window first;
/// without a primary window the secondary one moves up so no row is empty.
pub fn taskbar_rows<'a, T>(primary: Option<&'a T>, secondary: Option<&'a T>) -> (r: [Option<&'a T>; 2])
    ensures
        primary is Some ==> r[0] == primary && r[1] == secondary,
        primary is None ==> r[0] == secondary && r[1] is None,
{
    match primary {
        Some(row) => [Some(row), secondary],
        None => [secondary, None],
    }
}

/// The status dot of the widget: the query state first, then the pace.
pub open spec fn indicator_of(data_state: WidgetDataState, pace: ConsumptionPaceState) -> TaskbarIndicator {
    match data_state {
        WidgetDataState::Error => TaskbarIndicator::Error,
        WidgetDataState::Loading => TaskbarIndicator::Neutral,
        WidgetDataState::Ready => match pace {
            ConsumptionPaceState::Comfortable => TaskbarIndicator::Comfortable,
            ConsumptionPaceState::Normal => TaskbarIndicator::Normal,
            ConsumptionPaceState::Fast | ConsumptionPaceState::Exhausted => TaskbarIndicator::Fast,
            _ => TaskbarIndicator::Neutral,
        },
    }
}

/// The status dot and progress risk of the widget; `weekly_risk` is the
/// risk of the weekly row's usage, `None` without a row (still loading).
pub fn taskbar_visual_state(data_state: WidgetDataState, pace: ConsumptionPaceState, weekly_risk: Option<TaskbarRisk>) -> (v: TaskbarVisualState)
    ensures
        v.indicator == indicator_of(data_state, pace),
        v.progress_risk == match weekly_risk {
            Some(risk) => risk,
            None => TaskbarRisk::Loading,
        },
{
    let progress_risk = match weekly_risk {
        Some(risk) => risk,
        None => TaskbarRisk::Loading,
    };
    let indicator = match data_state {
        WidgetDataState::Error => TaskbarIndicator::Error,
        WidgetDataState::Loading => TaskbarIndicator::Neutral,
        WidgetDataState::Ready => match pace {
            ConsumptionPaceState::Comfortable => TaskbarIndicator::Comfortable,
            ConsumptionPaceState::Normal => TaskbarIndicator::Normal,
            ConsumptionPaceState::Fast | ConsumptionPaceState::Exhausted => TaskbarIndicator::Fast,
            ConsumptionPaceState::Measuring
            | ConsumptionPaceState::InsufficientActivity
            | ConsumptionPaceState::Unavailable
            | ConsumptionPaceState::Disabled => TaskbarIndicator::Neutral,
        },
    };
    TaskbarVisualState { indicator, progress_risk }
}

/// With current data the status dot names the consumption pace: a
/// comfortable pace shows the comfortable dot, a normal pace the normal dot,
/// a fast or already exhausted pace the fast dot, and a pace that is not
/// measured the neutral dot. While loading the dot is neutral and after a
/// failed query it shows the error, whatever the pace.
pub proof fn lemma_status_dot_follows_pace(pace: ConsumptionPaceState)
    ensures
        pace == ConsumptionPaceState::Comfortable ==> indicator_of(WidgetDataState::Ready, pace)
            == TaskbarIndicator::Comfortable,
        pace == ConsumptionPaceState::Normal ==> indicator_of(WidgetDataState::Ready, pace) == TaskbarIndicator::Normal,
        pace == ConsumptionPaceState::Fast || pace == ConsumptionPaceState::Exhausted ==> indicator_of(
            WidgetDataState::Ready,
            pace,
        ) == TaskbarIndicator::Fast,
        pace == ConsumptionPaceState::Measuring || pace == ConsumptionPaceState::InsufficientActivity || pace
            == ConsumptionPaceState::Unavailable || pace == ConsumptionPaceState::Disabled ==> indicator_of(
            WidgetDataState::Ready,
            pace,
        ) == TaskbarIndicator::Neutral,
        indicator_of(WidgetDataState::Loading, pace) == TaskbarIndicator::Neutral,
        indicator_of(WidgetDataState::Error, pace) == TaskbarIndicator::Error,
{
}

/// With current data, paces of different urgency never share a status dot,
/// and only a failed query shows the error dot.
pub proof fn lemma_status_dots_tell_paces_apart(a: ConsumptionPaceState, b: ConsumptionPaceState)
    ensures
        (a == ConsumptionPaceState::Comfortable || a == ConsumptionPaceState::Normal || a == ConsumptionPaceState::Fast)
            && (b == ConsumptionPaceState::Comfortable || b == ConsumptionPaceState::Normal || b
            == ConsumptionPaceState::Fast) && a != b ==> indicator_of(WidgetDataState::Ready, a) != indicator_of(
            WidgetDataState::Ready,
            b,
        ),
        indicator_of(WidgetDataState::Ready, a) != TaskbarIndicator::Error,
        indicator_of(WidgetDataState::Loading, a) != TaskbarIndicator::Error,
{
}

} // verus!
