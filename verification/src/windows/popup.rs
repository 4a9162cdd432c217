//! The usage popup's placement, palette and render decisions, in DPI
//! independent integers.

use vstd::prelude::*;

use super::taskbar::{saturate, saturating_add, saturating_sub};
use super::usage_popup::px;
use super::widget::{logical_to_physical, Rect};

verus! {

/// Logical width of the usage popup.
pub const POPUP_WIDTH_LOGICAL: i32 = 360;

/// The visual role of an owner-drawn menu item.
#[derive(Clone, Copy, Debug, PartialEq, Eq, Structural)]
pub enum MenuItemKind {
    Command,
    Submenu,
    Info,
}

/// Logical height of a menu item: compact rows, a taller information banner.
pub fn menu_item_height(kind: MenuItemKind) -> (h: i32)
    ensures
        h == match kind {
            MenuItemKind::Info => 40i32,
            _ => 32i32,
        },
{
    match kind {
        MenuItemKind::Command | MenuItemKind::Submenu => 32,
        MenuItemKind::Info => 40,
    }
}

/// `v` limited to `[lo, hi]`.
pub open spec fn clamp_int(v: int, lo: int, hi: int) -> int {
    if v < lo {
        lo
    } else if v > hi {
        hi
    } else {
        v
    }
}

/// Logical width of a menu item whose label has `text_units` UTF-16 units:
/// seven pixels a unit and 72 of chrome, kept between 220 and 520.
pub fn menu_item_width(text_units: usize) -> (w: i32)
    ensures
        w == clamp_int(text_units * 7 + 72, 220, 520),
{
    if text_units >= 64 {
        return 520;
    }
    let estimated: i32 = (text_units as i32) * 7 + 72;
    if estimated < 220 {
        220
    } else if estimated > 520 {
        520
    } else {
        estimated
    }
}

/// Colors shared by the usage popup and the owner-drawn menus, as `0x00BBGGRR`.
#[derive(Clone, Copy, Debug, PartialEq, Eq, Structural)]
pub struct PopupPalette {
    pub background: u32,
    pub surface: u32,
    pub text: u32,
    pub secondary_text: u32,
    pub accent: u32,
    pub separator: u32,
    pub selection: u32,
}

/// The compact palette of the light or the dark system theme.
pub open spec fn palette_for(light: bool) -> PopupPalette {
    if light {
        PopupPalette {
            background: 0x00f9_f9f9,
            surface: 0x00ed_f7ed,
            text: 0x001c_1c1c,
            secondary_text: 0x0060_6060,
            accent: 0x0074_c748,
            separator: 0x00df_dfdf,
            selection: 0x00ee_f5ee,
        }
    } else {
        PopupPalette {
            background: 0x0020_2020,
            surface: 0x002b_352b,
            text: 0x00f2_f2f2,
            secondary_text: 0x00b8_b8b8,
            accent: 0x0074_c748,
            separator: 0x0040_4040,
            selection: 0x0032_3a32,
        }
    }
}

/// The palette that matches the Windows system theme.
pub fn popup_palette(light: bool) -> (p: PopupPalette)
    ensures
        p == palette_for(light),
{
    if light {
        PopupPalette {
            background: 0x00f9_f9f9,
            surface: 0x00ed_f7ed,
            text: 0x001c_1c1c,
            secondary_text: 0x0060_6060,
            accent: 0x0074_c748,
            separator: 0x00df_dfdf,
            selection: 0x00ee_f5ee,
        }
    } else {
        PopupPalette {
            background: 0x0020_2020,
            surface: 0x002b_352b,
            text: 0x00f2_f2f2,
            secondary_text: 0x00b8_b8b8,
            accent: 0x0074_c748,
            separator: 0x0040_4040,
            selection: 0x0032_3a32,
        }
    }
}

/// Both themes share one accent and keep their surfaces and text apart.
pub proof fn lemma_palettes_share_accent()
    ensures
        palette_for(true).accent == palette_for(false).accent,
        palette_for(true).background != palette_for(false).background,
        palette_for(true).text != palette_for(false).text,
        palette_for(true).selection != palette_for(false).selection,
        palette_for(true).surface != palette_for(false).surface,
{
}

/// The work area less the margin on every side (saturating).
pub open spec fn usable_area(work_area: Rect, margin: int) -> (int, int, int, int) {
    (
        saturate(work_area.left + margin),
        saturate(work_area.top + margin),
        saturate(work_area.right - margin),
        saturate(work_area.bottom - margin),
    )
}

/// The popup bounds: the requested size cut to the usable area, left-aligned
/// with the anchor, above it when there is room and else below it, and
/// clamped into the usable area.
pub open spec fn popup_bounds(anchor: Rect, work_area: Rect, size: (i32, i32), margin: i32, gap: i32) -> (int, int, int, int) {
    let margin = if margin < 0 { 0 } else { margin as int };
    let gap = if gap < 0 { 0 } else { gap as int };
    let (ul, ut, ur, ub) = usable_area(work_area, margin);
    let width = clamp_int(size.0 as int, 0, if ur - ul < 0 { 0 } else { ur - ul });
    let height = clamp_int(size.1 as int, 0, if ub - ut < 0 { 0 } else { ub - ut });
    let max_left = saturate(ur - width);
    let left = clamp_int(anchor.left as int, ul, if max_left < ul { ul } else { max_left });
    let above = saturate(saturate(anchor.top - gap) - height);
    let below = saturate(anchor.bottom + gap);
    let max_top = saturate(ub - height);
    let top = clamp_int(if above >= ut { above } else { below }, ut, if max_top < ut { ut } else { max_top });
    (left, top, left + width, top + height)
}

/// The usable area of the work area has widths that fit in `i32`.
pub open spec fn popup_input_in_range(work_area: Rect, margin: i32) -> bool {
    let (ul, ut, ur, ub) = usable_area(work_area, if margin < 0 { 0 } else { margin as int });
    &&& i32::MIN <= ur - ul <= i32::MAX
    &&& i32::MIN <= ub - ut <= i32::MAX
}

fn clamp_i32(v: i32, lo: i32, hi: i32) -> (r: i32)
    requires
        lo <= hi,
    ensures
        r == clamp_int(v as int, lo as int, hi as int),
{
    if v < lo {
        lo
    } else if v > hi {
        hi
    } else {
        v
    }
}

/// Computes the popup's physical bounds beside its anchor on the current
/// monitor; `size` is (width, height) and `margin` and `gap` are physical
/// pixels. The popup goes above the anchor when it fits and else below it,
/// and always stays inside the work area less the margin.
pub fn place_popup(anchor: Rect, work_area: Rect, size: (i32, i32), margin: i32, gap: i32) -> (r: Rect)
    requires
        popup_input_in_range(work_area, margin),
    ensures
        (r.left as int, r.top as int, r.right as int, r.bottom as int) == popup_bounds(anchor, work_area, size, margin, gap),
{
    let margin = if margin < 0 { 0 } else { margin };
    let gap = if gap < 0 { 0 } else { gap };
    let usable = Rect::new(
        saturating_add(work_area.left, margin),
        saturating_add(work_area.top, margin),
        saturating_sub(work_area.right, margin),
        saturating_sub(work_area.bottom, margin),
    );
    let usable_width = usable.width();
    let usable_height = usable.height();
    let width = clamp_i32(size.0, 0, if usable_width < 0 { 0 } else { usable_width });
    let height = clamp_i32(size.1, 0, if usable_height < 0 { 0 } else { usable_height });
    let max_left = saturating_sub(usable.right, width);
    let left = clamp_i32(anchor.left, usable.left, if max_left < usable.left { usable.left } else { max_left });
    let above = saturating_sub(saturating_sub(anchor.top, gap), height);
    let below = saturating_add(anchor.bottom, gap);
    let max_top = saturating_sub(usable.bottom, height);
    let top = clamp_i32(if above >= usable.top { above } else { below }, usable.top, if max_top < usable.top { usable.top } else { max_top });
    Rect::new(left, top, left + width, top + height)
}

/// Placement law: when the usable area is not empty, the popup lies inside
/// it, keeps the requested size as far as the area allows, and sits above
/// the anchor whenever there is room there.
pub proof fn lemma_popup_stays_inside(anchor: Rect, work_area: Rect, size: (i32, i32), margin: i32, gap: i32)
    requires
        popup_input_in_range(work_area, margin),
        ({
            let (ul, ut, ur, ub) = usable_area(work_area, if margin < 0 { 0 } else { margin as int });
            ul <= ur && ut <= ub
        }),
    ensures
        ({
            let (ul, ut, ur, ub) = usable_area(work_area, if margin < 0 { 0 } else { margin as int });
            let (l, t, r, b) = popup_bounds(anchor, work_area, size, margin, gap);
            &&& ul <= l <= r <= ur
            &&& ut <= t <= b <= ub
            &&& r - l == clamp_int(size.0 as int, 0, ur - ul)
            &&& b - t == clamp_int(size.1 as int, 0, ub - ut)
        }),
{
}

/// Whether the custom popup may be used under the accessibility settings.
#[derive(Clone, Copy, Debug, PartialEq, Eq, Structural)]
pub enum PopupRenderMode {
    Custom,
    Native,
}

/// Whether a standard tooltip request is replaced by the custom popup.
#[derive(Clone, Copy, Debug, PartialEq, Eq, Structural)]
pub enum TooltipShowDecision {
    ShowCustomAndParkNative,
    ShowNative,
}

/// The native tooltip is parked only when the custom popup is allowed and
/// was rendered.
pub fn tooltip_show_decision(mode: PopupRenderMode, custom_render_succeeded: bool) -> (d: TooltipShowDecision)
    ensures
        d == (if mode == PopupRenderMode::Custom && custom_render_succeeded {
            TooltipShowDecision::ShowCustomAndParkNative
        } else {
            TooltipShowDecision::ShowNative
        }),
{
    if matches!(mode, PopupRenderMode::Custom) && custom_render_succeeded {
        TooltipShowDecision::ShowCustomAndParkNative
    } else {
        TooltipShowDecision::ShowNative
    }
}

/// High contrast or a screen reader falls back to the standard Windows UI.
pub fn popup_render_mode(high_contrast: bool, screen_reader: bool) -> (m: PopupRenderMode)
    ensures
        m == (if high_contrast || screen_reader { PopupRenderMode::Native } else { PopupRenderMode::Custom }),
{
    if high_contrast || screen_reader {
        PopupRenderMode::Native
    } else {
        PopupRenderMode::Custom
    }
}

/// The popup's margin to the work area edges, doubled, saturating.
pub open spec fn double_margin(dpi: u32) -> int {
    saturate(2 * px(12, dpi))
}

/// The popup width for a work area: the design width, at most the work area
/// less a twelve-pixel margin on each side; `None` when that leaves less
/// than 200 logical pixels.
pub open spec fn popup_width_for(work_area: Rect, dpi: u32) -> Option<int> {
    let available = saturate(work_area.spec_width() - double_margin(dpi));
    let available = if available < 0 { 0 } else { available };
    let width = if px(POPUP_WIDTH_LOGICAL, dpi) < available { px(POPUP_WIDTH_LOGICAL, dpi) as int } else { available };
    if width < px(200, dpi) { None } else { Some(width) }
}

fn doubled_margin(dpi: u32) -> (m: i32)
    ensures
        m == double_margin(dpi),
{
    let margin = logical_to_physical(12, dpi);
    let doubled = margin as i64 * 2;
    if doubled > i32::MAX as i64 {
        i32::MAX
    } else if doubled < i32::MIN as i64 {
        i32::MIN
    } else {
        doubled as i32
    }
}

/// The width of the detail popup in `work_area`, or `None` when the work
/// area is too narrow to show it.
pub fn popup_width_for_work_area(work_area: Rect, dpi: u32) -> (w: Option<i32>)
    requires
        i32::MIN <= work_area.spec_width() <= i32::MAX,
    ensures
        w matches Some(v) ==> popup_width_for(work_area, dpi) == Some(v as int),
        w is None ==> popup_width_for(work_area, dpi) is None,
{
    let available = saturating_sub(work_area.width(), doubled_margin(dpi));
    let available = if available < 0 { 0 } else { available };
    let design = logical_to_physical(POPUP_WIDTH_LOGICAL, dpi);
    let width = if design < available { design } else { available };
    if width < logical_to_physical(200, dpi) {
        None
    } else {
        Some(width)
    }
}

/// The tallest popup that is shown: 560 logical pixels, at most the work
/// area less the margins.
pub fn popup_max_height(work_area: Rect, dpi: u32) -> (h: i32)
    requires
        i32::MIN <= work_area.spec_height() <= i32::MAX,
    ensures
        h == (if px(560, dpi) < saturate(work_area.spec_height() - double_margin(dpi)) {
            px(560, dpi) as int
        } else {
            saturate(work_area.spec_height() - double_margin(dpi))
        }),
{
    let room = saturating_sub(work_area.height(), doubled_margin(dpi));
    let design = logical_to_physical(560, dpi);
    if design < room {
        design
    } else {
        room
    }
}

/// `ODS_SELECTED`: the menu item is highlighted.
pub const ODS_SELECTED: u32 = 0x0001;

/// `ODS_GRAYED`: the menu item is grayed.
pub const ODS_GRAYED: u32 = 0x0002;

/// `ODS_DISABLED`: the menu item is disabled.
pub const ODS_DISABLED: u32 = 0x0004;

/// A menu item is drawn highlighted when it is selected and neither
/// disabled nor grayed.
pub open spec fn item_highlighted(state: u32) -> bool {
    state & ODS_SELECTED != 0 && state & ODS_DISABLED == 0 && state & ODS_GRAYED == 0
}

/// A menu item is drawn dimmed when it was built disabled or the menu
/// reports it disabled or grayed.
pub open spec fn item_dimmed(state: u32, disabled: bool) -> bool {
    disabled || state & ODS_DISABLED != 0 || state & ODS_GRAYED != 0
}

/// The direction of a submenu arrow.
#[derive(Clone, Copy, Debug, PartialEq, Eq, Structural)]
pub enum MenuArrow {
    Left,
    Right,
}

impl MenuArrow {
    /// The Segoe Fluent chevron of the arrow.
    pub fn glyph(self) -> (g: &'static str)
        ensures
            g@ == (if self == MenuArrow::Left { "\u{E76B}"@ } else { "\u{E76C}"@ }),
    {
        match self {
            MenuArrow::Left => "\u{E76B}",
            MenuArrow::Right => "\u{E76C}",
        }
    }
}

/// The rounded highlight of a menu item: its rectangle, corner size and
/// color.
#[derive(Clone, Copy, Debug, PartialEq, Eq, Structural)]
pub struct MenuHighlight {
    pub rect: Rect,
    pub corner: i32,
    pub color: u32,
}

/// The submenu arrow of a menu item: where it is drawn, which way it points
/// and its color.
#[derive(Clone, Copy, Debug, PartialEq, Eq, Structural)]
pub struct MenuArrowPaint {
    pub rect: Rect,
    pub arrow: MenuArrow,
    pub color: u32,
}

/// What an owner-drawn menu item paints: the background, the highlight when
/// highlighted, the glyph and text rectangles with their colors, and the
/// submenu arrow.
#[derive(Clone, Copy, Debug, PartialEq, Eq, Structural)]
pub struct TrayItemPaint {
    pub background: u32,
    pub highlight: Option<MenuHighlight>,
    pub icon: Rect,
    pub icon_color: u32,
    pub text: Rect,
    pub text_color: u32,
    pub arrow: Option<MenuArrowPaint>,
}

pub open spec fn fits_i32(v: int) -> bool {
    i32::MIN <= v <= i32::MAX
}

pub open spec fn rect_of(left: int, top: int, right: int, bottom: int) -> Rect {
    Rect { left: left as i32, top: top as i32, right: right as i32, bottom: bottom as i32 }
}

/// The item rectangles for which every edge the painter computes fits in
/// `i32`.
pub open spec fn tray_item_in_range(item: Rect, dpi: u32, rtl: bool, state: u32, submenu: bool) -> bool {
    let (l, t, r, b) = (item.left as int, item.top as int, item.right as int, item.bottom as int);
    &&& item_highlighted(state) ==> fits_i32(l + px(4, dpi)) && fits_i32(t + px(2, dpi)) && fits_i32(r - px(4, dpi))
        && fits_i32(b - px(2, dpi))
    &&& rtl ==> fits_i32(l + px(28, dpi)) && fits_i32(r - px(44, dpi)) && fits_i32(r - px(12, dpi)) && fits_i32(
        r - px(12, dpi) - px(20, dpi),
    )
    &&& !rtl ==> fits_i32(l + px(44, dpi)) && fits_i32(r - px(28, dpi)) && fits_i32(l + px(12, dpi)) && fits_i32(
        l + px(12, dpi) + px(20, dpi),
    )
    &&& submenu && rtl ==> fits_i32(l + px(12, dpi) + px(28, dpi))
    &&& submenu && !rtl ==> fits_i32(r - px(28, dpi))
}

/// How an owner-drawn menu item is painted. The highlight is inset 4
/// logical pixels from the sides and 2 from top and bottom with 7-pixel
/// corners. The 20-pixel glyph sits 12 pixels from the leading edge and the
/// text starts 44 pixels in, leaving 28 pixels at the trailing edge, where a
/// submenu's arrow points onward; right-to-left mirrors all of it. Checked
/// glyphs use the accent, dimmed items the secondary text color.
pub open spec fn tray_item_paint_spec(
    item: Rect,
    dpi: u32,
    rtl: bool,
    state: u32,
    disabled: bool,
    checked: bool,
    submenu: bool,
    palette: PopupPalette,
) -> TrayItemPaint {
    let (l, t, r, b) = (item.left as int, item.top as int, item.right as int, item.bottom as int);
    let icon_inset = px(12, dpi) as int;
    let text_inset = px(44, dpi) as int;
    let trailing = px(28, dpi) as int;
    let glyph = px(20, dpi) as int;
    let dimmed = item_dimmed(state, disabled);
    TrayItemPaint {
        background: palette.background,
        highlight: if item_highlighted(state) {
            Some(
                MenuHighlight {
                    rect: rect_of(l + px(4, dpi), t + px(2, dpi), r - px(4, dpi), b - px(2, dpi)),
                    corner: px(7, dpi),
                    color: palette.selection,
                },
            )
        } else {
            None
        },
        icon: if rtl {
            rect_of(r - icon_inset - glyph, t, r - icon_inset, b)
        } else {
            rect_of(l + icon_inset, t, l + icon_inset + glyph, b)
        },
        icon_color: if checked {
            palette.accent
        } else if dimmed {
            palette.secondary_text
        } else {
            palette.text
        },
        text: if rtl {
            rect_of(l + trailing, t, r - text_inset, b)
        } else {
            rect_of(l + text_inset, t, r - trailing, b)
        },
        text_color: if dimmed {
            palette.secondary_text
        } else {
            palette.text
        },
        arrow: if submenu {
            Some(
                MenuArrowPaint {
                    rect: if rtl {
                        rect_of(l + icon_inset, t, l + icon_inset + trailing, b)
                    } else {
                        rect_of(r - trailing, t, r - icon_inset, b)
                    },
                    arrow: if rtl { MenuArrow::Left } else { MenuArrow::Right },
                    color: palette.secondary_text,
                },
            )
        } else {
            None
        },
    }
}

/// Decides how an owner-drawn menu item is painted from its rectangle, the
/// DPI, the reading direction, the item state the menu reports, whether it
/// was built disabled or checked, whether it opens a submenu, and the theme
/// palette.
pub fn tray_item_paint(
    item: Rect,
    dpi: u32,
    rtl: bool,
    state: u32,
    disabled: bool,
    checked: bool,
    submenu: bool,
    palette: PopupPalette,
) -> (p: TrayItemPaint)
    requires
        tray_item_in_range(item, dpi, rtl, state, submenu),
    ensures
        p == tray_item_paint_spec(item, dpi, rtl, state, disabled, checked, submenu, palette),
{
    let highlighted = state & ODS_SELECTED != 0 && state & ODS_DISABLED == 0 && state & ODS_GRAYED == 0;
    let dimmed = disabled || state & ODS_DISABLED != 0 || state & ODS_GRAYED != 0;
    let highlight = if highlighted {
        let inset = logical_to_physical(4, dpi);
        let vertical = logical_to_physical(2, dpi);
        Some(
            MenuHighlight {
                rect: Rect::new(item.left + inset, item.top + vertical, item.right - inset, item.bottom - vertical),
                corner: logical_to_physical(7, dpi),
                color: palette.selection,
            },
        )
    } else {
        None
    };
    let icon_inset = logical_to_physical(12, dpi);
    let text_inset = logical_to_physical(44, dpi);
    let trailing = logical_to_physical(28, dpi);
    let glyph = logical_to_physical(20, dpi);
    let text = if rtl {
        Rect::new(item.left + trailing, item.top, item.right - text_inset, item.bottom)
    } else {
        Rect::new(item.left + text_inset, item.top, item.right - trailing, item.bottom)
    };
    let icon = if rtl {
        Rect::new(item.right - icon_inset - glyph, item.top, item.right - icon_inset, item.bottom)
    } else {
        Rect::new(item.left + icon_inset, item.top, item.left + icon_inset + glyph, item.bottom)
    };
    let icon_color = if checked {
        palette.accent
    } else if dimmed {
        palette.secondary_text
    } else {
        palette.text
    };
    let text_color = if dimmed {
        palette.secondary_text
    } else {
        palette.text
    };
    let arrow = if submenu {
        if rtl {
            Some(
                MenuArrowPaint {
                    rect: Rect::new(item.left + icon_inset, item.top, item.left + icon_inset + trailing, item.bottom),
                    arrow: MenuArrow::Left,
                    color: palette.secondary_text,
                },
            )
        } else {
            Some(
                MenuArrowPaint {
                    rect: Rect::new(item.right - trailing, item.top, item.right - icon_inset, item.bottom),
                    arrow: MenuArrow::Right,
                    color: palette.secondary_text,
                },
            )
        }
    } else {
        None
    };
    TrayItemPaint { background: palette.background, highlight, icon, icon_color, text, text_color, arrow }
}

} // verus!
