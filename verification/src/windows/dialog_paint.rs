//! How the profile dialogs paint: window and text styles, the states of the
//! primary button, and the painters of the button and of a profile row,
//! which restore every device-context setting they change.

use vstd::prelude::*;

use crate::domain::Language;

use super::design::{lrect, DialogColor, DialogPalette, LogicalRect};
use super::profile_rows::{composite, composite_dialog_color};
use super::usage_popup::{DT_NOPREFIX, DT_RIGHT, DT_RTLREADING, DT_SINGLELINE};

verus! {

/// Extended window style of a modal dialog frame.
pub const WS_EX_DLGMODALFRAME: u32 = 0x0000_0001;
/// Extended window style: text read right to left.
pub const WS_EX_RTLREADING: u32 = 0x0000_2000;
/// Extended window style: child windows do not inherit the mirroring.
pub const WS_EX_NOINHERITLAYOUT: u32 = 0x0010_0000;
/// Extended window style: the window is mirrored.
pub const WS_EX_LAYOUTRTL: u32 = 0x0040_0000;

/// The extended style of a dialog's root window: a modal frame, mirrored
/// (without passing the mirroring on to children) in Arabic.
pub fn dialog_root_ex_style(language: Language) -> (style: u32)
    ensures
        style == (if language == Language::Arabic {
            WS_EX_DLGMODALFRAME | WS_EX_LAYOUTRTL | WS_EX_NOINHERITLAYOUT
        } else {
            WS_EX_DLGMODALFRAME
        }),
{
    let style = WS_EX_DLGMODALFRAME;
    if language == Language::Arabic {
        style | WS_EX_LAYOUTRTL | WS_EX_NOINHERITLAYOUT
    } else {
        style
    }
}

/// The extended style of a dialog's text controls: right-to-left reading in
/// Arabic, none otherwise.
pub fn dialog_child_text_ex_style(language: Language) -> (style: u32)
    ensures
        style == (if language == Language::Arabic { WS_EX_RTLREADING } else { 0 }),
{
    if language == Language::Arabic {
        WS_EX_RTLREADING
    } else {
        0
    }
}

/// Tooltip flag: the tool is identified by its window handle.
pub const TTF_IDISHWND: u32 = 0x0001;
/// Tooltip flag: text read right to left.
pub const TTF_RTLREADING: u32 = 0x0004;
/// Tooltip flag: the tooltip subclasses the tool to see its mouse messages.
pub const TTF_SUBCLASS: u32 = 0x0010;

/// The flags of the add control's tooltip: identified by window handle and
/// subclassing it, read right to left in Arabic only.
pub fn add_control_tooltip_flags(language: Language) -> (flags: u32)
    ensures
        flags == (if language == Language::Arabic {
            TTF_IDISHWND | TTF_SUBCLASS | TTF_RTLREADING
        } else {
            TTF_IDISHWND | TTF_SUBCLASS
        }),
{
    let flags = TTF_IDISHWND | TTF_SUBCLASS;
    if language == Language::Arabic {
        flags | TTF_RTLREADING
    } else {
        flags
    }
}

/// The text format of a profile row: one line without prefix processing,
/// right-aligned and read right to left in RTL.
pub fn directional_profile_text_format(rtl: bool) -> (format: u32)
    ensures
        format == (if rtl {
            DT_SINGLELINE | DT_NOPREFIX | DT_RTLREADING | DT_RIGHT
        } else {
            DT_SINGLELINE | DT_NOPREFIX
        }),
{
    let format = DT_SINGLELINE | DT_NOPREFIX;
    if rtl {
        format | DT_RTLREADING | DT_RIGHT
    } else {
        format
    }
}

/// Custom-draw item state: pressed.
pub const CDIS_SELECTED: u32 = 0x0001;
/// Custom-draw item state: disabled.
pub const CDIS_DISABLED: u32 = 0x0004;
/// Custom-draw item state: keyboard focus.
pub const CDIS_FOCUS: u32 = 0x0010;
/// Custom-draw item state: the default button.
pub const CDIS_DEFAULT: u32 = 0x0020;
/// Custom-draw item state: under the mouse.
pub const CDIS_HOT: u32 = 0x0040;

/// The fill of the primary button.
#[derive(Clone, Copy, Debug, PartialEq, Eq, Structural)]
pub enum PrimaryButtonSurface {
    Normal,
    Hot,
    Pressed,
}

/// The outline cues of the primary button.
#[derive(Clone, Copy, Debug, PartialEq, Eq, Structural)]
pub enum PrimaryButtonCue {
    NoCue,
    Focus,
    DefaultBorder,
    DefaultBorderAndFocus,
}

/// How the primary button is drawn.
#[derive(Clone, Copy, Debug, PartialEq, Eq, Structural)]
pub struct PrimaryButtonPaintState {
    pub surface: PrimaryButtonSurface,
    pub cue: PrimaryButtonCue,
}

/// Whether the custom-draw `state` holds every bit of `flag`.
pub open spec fn has_state(state: u32, flag: u32) -> bool {
    state & flag == flag
}

/// The meaning of the custom-draw flags for an enabled primary button:
/// pressed before hot; the default border and the focus rectangle are
/// separate cues and may come together. A disabled button keeps the native
/// look (`None`).
pub open spec fn button_paint_state(item_state: u32, enabled: bool) -> Option<PrimaryButtonPaintState> {
    if !enabled || has_state(item_state, CDIS_DISABLED) {
        None
    } else {
        Some(PrimaryButtonPaintState {
            surface: if has_state(item_state, CDIS_SELECTED) {
                PrimaryButtonSurface::Pressed
            } else if has_state(item_state, CDIS_HOT) {
                PrimaryButtonSurface::Hot
            } else {
                PrimaryButtonSurface::Normal
            },
            cue: match (has_state(item_state, CDIS_DEFAULT), has_state(item_state, CDIS_FOCUS)) {
                (true, true) => PrimaryButtonCue::DefaultBorderAndFocus,
                (true, false) => PrimaryButtonCue::DefaultBorder,
                (false, true) => PrimaryButtonCue::Focus,
                (false, false) => PrimaryButtonCue::NoCue,
            },
        })
    }
}

/// Turns the native custom-draw flags into the visual state of the primary
/// button.
pub fn primary_button_paint_state(item_state: u32, enabled: bool) -> (r: Option<PrimaryButtonPaintState>)
    ensures
        r == button_paint_state(item_state, enabled),
{
    if !enabled || item_state & CDIS_DISABLED == CDIS_DISABLED {
        return None;
    }
    let surface = if item_state & CDIS_SELECTED == CDIS_SELECTED {
        PrimaryButtonSurface::Pressed
    } else if item_state & CDIS_HOT == CDIS_HOT {
        PrimaryButtonSurface::Hot
    } else {
        PrimaryButtonSurface::Normal
    };
    let default_border = item_state & CDIS_DEFAULT == CDIS_DEFAULT;
    let focus = item_state & CDIS_FOCUS == CDIS_FOCUS;
    let cue = match (default_border, focus) {
        (true, true) => PrimaryButtonCue::DefaultBorderAndFocus,
        (true, false) => PrimaryButtonCue::DefaultBorder,
        (false, true) => PrimaryButtonCue::Focus,
        (false, false) => PrimaryButtonCue::NoCue,
    };
    Some(PrimaryButtonPaintState { surface, cue })
}

/// `after` is `before` with calls appended.
pub open spec fn extends<T>(before: Seq<T>, after: Seq<T>) -> bool {
    after.len() >= before.len() && after.take(before.len() as int) == before
}

/// `SetDCBrushColor`'s answer when a color could not be set.
pub const CLR_INVALID: u32 = 0xffff_ffff;

/// A request to a brush backend, with its answer.
pub enum BrushCall<E> {
    /// The brush color was set to the first value; the second is the color
    /// it had before, or `CLR_INVALID` when the change failed.
    SetColor(u32, u32),
    /// A rectangle was filled with the current brush color.
    Fill(LogicalRect, Result<(), E>),
}

/// The stock DC brush of a custom-drawn button. Each request records
/// itself, with its answer, at the end of `brush_calls`.
pub trait PrimaryButtonBrushBackend {
    type Error;

    /// The requests so far, in order.
    spec fn brush_calls(&self) -> Seq<BrushCall<Self::Error>>;

    /// Sets the brush color and answers the color before, or `CLR_INVALID`.
    fn set_brush_color(&mut self, color: u32) -> (previous: u32)
        ensures
            final(self).brush_calls() == old(self).brush_calls().push(BrushCall::SetColor(color, previous)),
    ;

    /// Fills `rect` with the brush.
    fn fill_rect(&mut self, rect: &LogicalRect) -> (r: Result<(), Self::Error>)
        ensures
            final(self).brush_calls() == old(self).brush_calls().push(BrushCall::Fill(*rect, r)),
    ;
}

/// Why filling with the brush failed.
#[derive(Debug)]
pub enum ButtonFillError<E> {
    /// The color could not be applied; nothing was filled.
    ColorNotApplied,
    /// The previous color could not be put back.
    ColorNotRestored,
    /// The fill itself failed; the previous color was put back.
    Fill(E),
}

/// One colored fill: the color is applied, and only if that worked the
/// rectangle is filled and the previous color put back, whether or not the
/// fill worked. A failed restore is reported before a failed fill.
pub open spec fn brush_fill_run<E>(calls: Seq<BrushCall<E>>, rect: LogicalRect, color: u32, r: Result<(), ButtonFillError<E>>) -> bool {
    calls.len() >= 1 && match calls[0] {
        BrushCall::SetColor(applied, previous) => applied == color && if previous == CLR_INVALID {
            calls.len() == 1 && r is Err && r->Err_0 is ColorNotApplied
        } else {
            calls.len() == 3 && match (calls[1], calls[2]) {
                (BrushCall::Fill(filled, fill), BrushCall::SetColor(back, restored)) => {
                    &&& filled == rect
                    &&& back == previous
                    &&& if restored == CLR_INVALID {
                        r is Err && r->Err_0 is ColorNotRestored
                    } else {
                        match fill {
                            Ok(()) => r is Ok,
                            Err(e) => r is Err && r->Err_0 == ButtonFillError::Fill(e),
                        }
                    }
                },
                _ => false,
            }
        },
        _ => false,
    }
}

/// Fills `rect` of the primary button with `color` through the DC brush
/// and puts the brush's previous color back on every path after it was
/// changed.
pub fn fill_primary_button_rect<B: PrimaryButtonBrushBackend>(backend: &mut B, rect: &LogicalRect, color: u32) -> (r: Result<(), ButtonFillError<B::Error>>)
    ensures
        extends(old(backend).brush_calls(), final(backend).brush_calls()),
        brush_fill_run(final(backend).brush_calls().skip(old(backend).brush_calls().len() as int), *rect, color, r),
{
    let ghost start = backend.brush_calls();
    let previous = backend.set_brush_color(color);
    if previous == CLR_INVALID {
        assert(backend.brush_calls().skip(start.len() as int) =~= seq![BrushCall::SetColor(color, previous)]);
        assert(backend.brush_calls().take(start.len() as int) =~= start);
        return Err(ButtonFillError::ColorNotApplied);
    }
    let fill = backend.fill_rect(rect);
    let restored = backend.set_brush_color(previous);
    let ghost fill_view = fill;
    assert(backend.brush_calls().skip(start.len() as int) =~= seq![
        BrushCall::SetColor(color, previous),
        BrushCall::Fill(*rect, fill_view),
        BrushCall::SetColor(previous, restored),
    ]);
    assert(backend.brush_calls().take(start.len() as int) =~= start);
    if restored == CLR_INVALID {
        return Err(ButtonFillError::ColorNotRestored);
    }
    match fill {
        Ok(()) => Ok(()),
        Err(e) => Err(ButtonFillError::Fill(e)),
    }
}

/// A fill of the primary button, in painting order.
#[derive(Clone, Copy, Debug, PartialEq, Eq, Structural)]
pub enum PrimaryButtonPaintStage {
    DefaultBorder,
    Border,
    Surface,
}

/// A device-context setting that a painter changed and must put back.
#[derive(Clone, Copy, Debug, PartialEq, Eq, Structural)]
pub enum HeldSetting {
    /// The font that was selected before.
    Font(usize),
    /// The background mode before.
    Background(u32),
    /// The text color before.
    TextColor(u32),
}

/// A request to the primary button's device context, with its answer.
pub enum ButtonCall<E> {
    Fill(PrimaryButtonPaintStage, LogicalRect, u32, Result<(), E>),
    /// Selecting a font answers the font selected before.
    SelectFont(usize, Result<usize, E>),
    /// Switching to a transparent background answers the mode before.
    TransparentBackground(Result<u32, E>),
    /// Setting the text color answers the color before.
    TextColor(u32, Result<u32, E>),
    /// The label, centered on one line in the rectangle, read right to left
    /// when the flag is set.
    Label(Seq<char>, LogicalRect, bool, Result<(), E>),
    Focus(LogicalRect, Result<(), E>),
    RestoreFont(usize, Result<(), E>),
    RestoreBackground(u32, Result<(), E>),
    RestoreTextColor(u32, Result<(), E>),
}

/// The device context of a custom-drawn primary button. Each request
/// records itself, with its answer, at the end of `button_calls`.
pub trait PrimaryButtonPaintBackend {
    type Error;

    /// The requests so far, in order.
    spec fn button_calls(&self) -> Seq<ButtonCall<Self::Error>>;

    fn fill_rect(&mut self, stage: PrimaryButtonPaintStage, rect: &LogicalRect, color: u32) -> (r: Result<(), Self::Error>)
        ensures
            final(self).button_calls() == old(self).button_calls().push(ButtonCall::Fill(stage, *rect, color, r)),
    ;

    fn select_font(&mut self, font: usize) -> (r: Result<usize, Self::Error>)
        ensures
            final(self).button_calls() == old(self).button_calls().push(ButtonCall::SelectFont(font, r)),
    ;

    fn set_transparent_background(&mut self) -> (r: Result<u32, Self::Error>)
        ensures
            final(self).button_calls() == old(self).button_calls().push(ButtonCall::TransparentBackground(r)),
    ;

    fn set_text_color(&mut self, color: u32) -> (r: Result<u32, Self::Error>)
        ensures
            final(self).button_calls() == old(self).button_calls().push(ButtonCall::TextColor(color, r)),
    ;

    fn draw_text(&mut self, text: &str, rect: &LogicalRect, rtl: bool) -> (r: Result<(), Self::Error>)
        ensures
            final(self).button_calls() == old(self).button_calls().push(ButtonCall::Label(text@, *rect, rtl, r)),
    ;

    fn draw_focus(&mut self, rect: &LogicalRect) -> (r: Result<(), Self::Error>)
        ensures
            final(self).button_calls() == old(self).button_calls().push(ButtonCall::Focus(*rect, r)),
    ;

    fn restore_font(&mut self, font: usize) -> (r: Result<(), Self::Error>)
        ensures
            final(self).button_calls() == old(self).button_calls().push(ButtonCall::RestoreFont(font, r)),
    ;

    fn restore_background(&mut self, mode: u32) -> (r: Result<(), Self::Error>)
        ensures
            final(self).button_calls() == old(self).button_calls().push(ButtonCall::RestoreBackground(mode, r)),
    ;

    fn restore_text_color(&mut self, color: u32) -> (r: Result<(), Self::Error>)
        ensures
            final(self).button_calls() == old(self).button_calls().push(ButtonCall::RestoreTextColor(color, r)),
    ;
}

/// One planned request of the primary button painter.
#[derive(Clone, Copy, Debug, PartialEq, Eq, Structural)]
pub enum ButtonStep {
    Fill(PrimaryButtonPaintStage, LogicalRect, u32),
    SelectFont(usize),
    TransparentBackground,
    TextColor(u32),
    Label(LogicalRect, bool),
    Focus(LogicalRect),
}

/// The call is the request `step` (the label being `label`).
pub open spec fn button_call_is<E>(step: ButtonStep, call: ButtonCall<E>, label: Seq<char>) -> bool {
    match (step, call) {
        (ButtonStep::Fill(stage, rect, color), ButtonCall::Fill(s, r, c, _)) => stage == s && rect == r && color == c,
        (ButtonStep::SelectFont(font), ButtonCall::SelectFont(f, _)) => font == f,
        (ButtonStep::TransparentBackground, ButtonCall::TransparentBackground(_)) => true,
        (ButtonStep::TextColor(color), ButtonCall::TextColor(c, _)) => color == c,
        (ButtonStep::Label(rect, rtl), ButtonCall::Label(t, r, d, _)) => t == label && rect == r && rtl == d,
        (ButtonStep::Focus(rect), ButtonCall::Focus(r, _)) => rect == r,
        _ => false,
    }
}

/// The request succeeded.
pub open spec fn button_call_ok<E>(call: ButtonCall<E>) -> bool {
    match call {
        ButtonCall::Fill(_, _, _, r) => r is Ok,
        ButtonCall::SelectFont(_, r) => r is Ok,
        ButtonCall::TransparentBackground(r) => r is Ok,
        ButtonCall::TextColor(_, r) => r is Ok,
        ButtonCall::Label(_, _, _, r) => r is Ok,
        ButtonCall::Focus(_, r) => r is Ok,
        ButtonCall::RestoreFont(_, r) => r is Ok,
        ButtonCall::RestoreBackground(_, r) => r is Ok,
        ButtonCall::RestoreTextColor(_, r) => r is Ok,
    }
}

/// The setting that a successful request changed, with its value before.
pub open spec fn button_acquired<E>(call: ButtonCall<E>) -> Seq<HeldSetting> {
    match call {
        ButtonCall::SelectFont(_, Ok(previous)) => seq![HeldSetting::Font(previous)],
        ButtonCall::TransparentBackground(Ok(previous)) => seq![HeldSetting::Background(previous)],
        ButtonCall::TextColor(_, Ok(previous)) => seq![HeldSetting::TextColor(previous)],
        _ => seq![],
    }
}

/// The settings that `calls` changed, oldest first.
pub open spec fn button_held<E>(calls: Seq<ButtonCall<E>>) -> Seq<HeldSetting>
    decreases calls.len(),
{
    if calls.len() == 0 {
        seq![]
    } else {
        button_held(calls.drop_last()) + button_acquired(calls.last())
    }
}

/// The call puts `setting` back.
pub open spec fn button_restores<E>(setting: HeldSetting, call: ButtonCall<E>) -> bool {
    match (setting, call) {
        (HeldSetting::Font(f), ButtonCall::RestoreFont(g, _)) => f == g,
        (HeldSetting::Background(m), ButtonCall::RestoreBackground(n, _)) => m == n,
        (HeldSetting::TextColor(c), ButtonCall::RestoreTextColor(d, _)) => c == d,
        _ => false,
    }
}

/// `calls` put back each of `held`, newest first.
pub open spec fn button_restores_all<E>(held: Seq<HeldSetting>, calls: Seq<ButtonCall<E>>) -> bool {
    &&& calls.len() == held.len()
    &&& forall|j: int| 0 <= j < calls.len() ==> button_restores(held[held.len() - 1 - j], #[trigger] calls[j])
}

/// `calls` carry out the first `m` of `steps`, all but the last of them
/// successfully, stopping at the first failure (or after every step), and
/// then put back every setting that they changed, newest first.
pub open spec fn button_run_upto<E>(steps: Seq<ButtonStep>, label: Seq<char>, calls: Seq<ButtonCall<E>>, m: int) -> bool {
    &&& 0 <= m <= steps.len()
    &&& m <= calls.len()
    &&& forall|j: int| 0 <= j < m ==> button_call_is(steps[j], #[trigger] calls[j], label)
    &&& forall|j: int| 0 <= j < m - 1 ==> button_call_ok(#[trigger] calls[j])
    &&& m == steps.len() || (m > 0 && !button_call_ok(calls[m - 1]))
    &&& button_restores_all(button_held(calls.take(m)), calls.skip(m))
}

/// The run of `steps`: up to the first failure, then the restores.
pub open spec fn button_run<E>(steps: Seq<ButtonStep>, label: Seq<char>, calls: Seq<ButtonCall<E>>) -> bool {
    exists|m: int| button_run_upto(steps, label, calls, m)
}

/// `rect` shrunk by `by` on every side.
pub open spec fn inset(rect: LogicalRect, by: int) -> LogicalRect {
    lrect(rect.left + by, rect.top + by, rect.right - by, rect.bottom - by)
}

/// The rectangle can shrink by four pixels on every side.
pub open spec fn insettable(rect: LogicalRect) -> bool {
    &&& rect.left + 4 <= i32::MAX
    &&& rect.top + 4 <= i32::MAX
    &&& rect.right - 4 >= i32::MIN
    &&& rect.bottom - 4 >= i32::MIN
}

fn inset_rect(rect: LogicalRect, by: i32) -> (r: LogicalRect)
    requires
        0 <= by,
        rect.left + by <= i32::MAX,
        rect.top + by <= i32::MAX,
        rect.right - by >= i32::MIN,
        rect.bottom - by >= i32::MIN,
    ensures
        r == inset(rect, by as int),
{
    LogicalRect::new(rect.left + by, rect.top + by, rect.right - by, rect.bottom - by)
}

/// The fill color of the primary button: the healthy green, under the
/// pressed or hover overlay when pressed or hot.
pub open spec fn button_surface_color(palette: DialogPalette, surface: PrimaryButtonSurface) -> int {
    match surface {
        PrimaryButtonSurface::Pressed => composite(palette.pressed, palette.healthy),
        PrimaryButtonSurface::Hot => composite(palette.hover, palette.healthy),
        PrimaryButtonSurface::Normal => palette.healthy.colorref as int,
    }
}

pub open spec fn has_default_border(cue: PrimaryButtonCue) -> bool {
    cue is DefaultBorder || cue is DefaultBorderAndFocus
}

pub open spec fn has_focus_cue(cue: PrimaryButtonCue) -> bool {
    cue is Focus || cue is DefaultBorderAndFocus
}

/// The requests that paint the primary button: a two-pixel default border
/// in the focus color when it is the default button, a one-pixel border, the
/// surface, the font and text settings, the label on the surface, and the
/// focus rectangle four pixels inside when it has the focus.
pub open spec fn primary_button_steps(rect: LogicalRect, font: usize, palette: DialogPalette, text_color: u32, rtl: bool, state: PrimaryButtonPaintState) -> Seq<ButtonStep> {
    let border = if has_default_border(state.cue) { inset(rect, 2) } else { rect };
    let inner = inset(border, 1);
    (if has_default_border(state.cue) {
        seq![ButtonStep::Fill(PrimaryButtonPaintStage::DefaultBorder, rect, palette.focus.colorref)]
    } else {
        seq![]
    }) + seq![
        ButtonStep::Fill(PrimaryButtonPaintStage::Border, border, palette.border.colorref),
        ButtonStep::Fill(PrimaryButtonPaintStage::Surface, inner, button_surface_color(palette, state.surface) as u32),
        ButtonStep::SelectFont(font),
        ButtonStep::TransparentBackground,
        ButtonStep::TextColor(text_color),
        ButtonStep::Label(inner, rtl),
    ] + (if has_focus_cue(state.cue) {
        seq![ButtonStep::Focus(inset(rect, 4))]
    } else {
        seq![]
    })
}

fn primary_button_step_list(rect: LogicalRect, font: usize, palette: DialogPalette, text_color: u32, rtl: bool, state: PrimaryButtonPaintState) -> (steps: Vec<ButtonStep>)
    requires
        insettable(rect),
    ensures
        steps@ == primary_button_steps(rect, font, palette, text_color, rtl, state),
{
    let default_border = match state.cue {
        PrimaryButtonCue::DefaultBorder | PrimaryButtonCue::DefaultBorderAndFocus => true,
        _ => false,
    };
    let focus = match state.cue {
        PrimaryButtonCue::Focus | PrimaryButtonCue::DefaultBorderAndFocus => true,
        _ => false,
    };
    let surface = match state.surface {
        PrimaryButtonSurface::Pressed => composite_dialog_color(palette.pressed, palette.healthy),
        PrimaryButtonSurface::Hot => composite_dialog_color(palette.hover, palette.healthy),
        PrimaryButtonSurface::Normal => palette.healthy.colorref,
    };
    let border = if default_border { inset_rect(rect, 2) } else { rect };
    let inner = inset_rect(border, 1);
    let mut steps: Vec<ButtonStep> = Vec::new();
    if default_border {
        steps.push(ButtonStep::Fill(PrimaryButtonPaintStage::DefaultBorder, rect, palette.focus.colorref));
    }
    steps.push(ButtonStep::Fill(PrimaryButtonPaintStage::Border, border, palette.border.colorref));
    steps.push(ButtonStep::Fill(PrimaryButtonPaintStage::Surface, inner, surface));
    steps.push(ButtonStep::SelectFont(font));
    steps.push(ButtonStep::TransparentBackground);
    steps.push(ButtonStep::TextColor(text_color));
    steps.push(ButtonStep::Label(inner, rtl));
    if focus {
        steps.push(ButtonStep::Focus(inset_rect(rect, 4)));
    }
    assert(steps@ =~= primary_button_steps(rect, font, palette, text_color, rtl, state));
    steps
}

/// The button can be custom painted: a non-empty rectangle, a label and a
/// font.
pub open spec fn button_paintable(rect: LogicalRect, label: Seq<char>, font: usize) -> bool {
    rect.right > rect.left && rect.bottom > rect.top && label.len() > 0 && font != 0
}

/// Custom paints the primary button in `text_color` on its healthy green
/// fill. Every font, background and text-color change is put back, newest
/// first, however far painting got; `true` only when every request
/// succeeded, else the caller keeps the native drawing. Nothing is
/// requested for an empty rectangle or label or a null font.
pub fn paint_primary_button<B: PrimaryButtonPaintBackend>(
    backend: &mut B,
    rect: LogicalRect,
    label: &str,
    font: usize,
    palette: DialogPalette,
    text_color: u32,
    rtl: bool,
    state: PrimaryButtonPaintState,
) -> (painted: bool)
    requires
        button_paintable(rect, label@, font) ==> insettable(rect),
    ensures
        extends(old(backend).button_calls(), final(backend).button_calls()),
        ({
            let calls = final(backend).button_calls().skip(old(backend).button_calls().len() as int);
            &&& !button_paintable(rect, label@, font) ==> calls.len() == 0 && !painted
            &&& button_paintable(rect, label@, font) ==> button_run(
                primary_button_steps(rect, font, palette, text_color, rtl, state),
                label@,
                calls,
            )
            &&& painted == (button_paintable(rect, label@, font) && forall|j: int| 0 <= j < calls.len() ==> button_call_ok(#[trigger] calls[j]))
        }),
{
    let ghost start = backend.button_calls();
    if rect.right <= rect.left || rect.bottom <= rect.top || label.is_empty() || font == 0 {
        assert(backend.button_calls().skip(start.len() as int) =~= seq![]);
        assert(backend.button_calls().take(start.len() as int) =~= start);
        return false;
    }
    let steps = primary_button_step_list(rect, font, palette, text_color, rtl, state);
    let mut held: Vec<HeldSetting> = Vec::new();
    let mut i: usize = 0;
    let mut failed = false;
    assert(backend.button_calls().take(start.len() as int) =~= start);
    assert(backend.button_calls().skip(start.len() as int) =~= seq![]);
    while i < steps.len() && !failed
        invariant
            extends(start, backend.button_calls()),
            i <= steps.len(),
            ({
                let calls = backend.button_calls().skip(start.len() as int);
                &&& calls.len() == i
                &&& forall|j: int| 0 <= j < i ==> button_call_is(steps@[j], #[trigger] calls[j], label@)
                &&& forall|j: int| 0 <= j < i && !(failed && j == i - 1) ==> button_call_ok(#[trigger] calls[j])
                &&& failed ==> i > 0 && !button_call_ok(calls[i - 1])
                &&& held@ == button_held(calls)
            }),
        decreases steps.len() - i,
    {
        let ghost before = backend.button_calls();
        let step = steps[i];
        let ok = match step {
            ButtonStep::Fill(stage, r, color) => backend.fill_rect(stage, &r, color).is_ok(),
            ButtonStep::SelectFont(f) => match backend.select_font(f) {
                Ok(previous) => {
                    held.push(HeldSetting::Font(previous));
                    true
                },
                Err(_) => false,
            },
            ButtonStep::TransparentBackground => match backend.set_transparent_background() {
                Ok(previous) => {
                    held.push(HeldSetting::Background(previous));
                    true
                },
                Err(_) => false,
            },
            ButtonStep::TextColor(color) => match backend.set_text_color(color) {
                Ok(previous) => {
                    held.push(HeldSetting::TextColor(previous));
                    true
                },
                Err(_) => false,
            },
            ButtonStep::Label(r, d) => backend.draw_text(label, &r, d).is_ok(),
            ButtonStep::Focus(r) => backend.draw_focus(&r).is_ok(),
        };
        proof {
            let calls0 = before.skip(start.len() as int);
            let calls1 = backend.button_calls().skip(start.len() as int);
            let c = backend.button_calls().last();
            assert(calls1 =~= calls0.push(c));
            assert(calls1.drop_last() =~= calls0);
            assert(backend.button_calls().take(start.len() as int) =~= start);
            assert(ok == button_call_ok(c));
            assert(held@ =~= button_held(calls0) + button_acquired(c));
        }
        if !ok {
            failed = true;
        }
        i = i + 1;
    }
    let ghost executed = backend.button_calls().skip(start.len() as int);
    let mut restored = true;
    let mut k = held.len();
    assert(backend.button_calls().skip(start.len() as int).skip(executed.len() as int) =~= seq![]);
    assert(backend.button_calls().skip(start.len() as int).take(executed.len() as int) =~= executed);
    while k > 0
        invariant
            extends(start, backend.button_calls()),
            k <= held.len(),
            held@ == button_held(executed),
            ({
                let calls = backend.button_calls().skip(start.len() as int);
                let tail = calls.skip(executed.len() as int);
                &&& calls.len() == executed.len() + (held.len() - k)
                &&& calls.take(executed.len() as int) == executed
                &&& forall|j: int| 0 <= j < tail.len() ==> button_restores(held@[held.len() - 1 - j], #[trigger] tail[j])
                &&& restored == forall|j: int| 0 <= j < tail.len() ==> button_call_ok(#[trigger] tail[j])
            }),
        decreases k,
    {
        let ghost before = backend.button_calls();
        let ghost r0 = restored;
        k = k - 1;
        let ok = match held[k] {
            HeldSetting::Font(f) => backend.restore_font(f).is_ok(),
            HeldSetting::Background(m) => backend.restore_background(m).is_ok(),
            HeldSetting::TextColor(c) => backend.restore_text_color(c).is_ok(),
        };
        restored = restored && ok;
        proof {
            let calls0 = before.skip(start.len() as int);
            let calls1 = backend.button_calls().skip(start.len() as int);
            let c = backend.button_calls().last();
            let tail0 = calls0.skip(executed.len() as int);
            let tail1 = calls1.skip(executed.len() as int);
            assert(calls1 =~= calls0.push(c));
            assert(calls1.take(executed.len() as int) =~= calls0.take(executed.len() as int));
            assert(tail1 =~= tail0.push(c));
            assert(backend.button_calls().take(start.len() as int) =~= start);
            assert(ok == button_call_ok(c));
            assert(button_restores(held@[held.len() - 1 - tail0.len()], c));
            assert forall|j: int| 0 <= j < tail1.len() implies button_restores(held@[held.len() - 1 - j], #[trigger] tail1[j]) by {
                if j < tail0.len() {
                    assert(tail1[j] == tail0[j]);
                }
            }
            if restored {
                assert forall|j: int| 0 <= j < tail1.len() implies button_call_ok(#[trigger] tail1[j]) by {
                    if j < tail0.len() {
                        assert(tail1[j] == tail0[j]);
                    }
                }
            } else if !ok {
                assert(!button_call_ok(tail1[tail0.len() as int]));
            } else {
                assert(!r0);
                let w = choose|j: int| 0 <= j < tail0.len() && !button_call_ok(#[trigger] tail0[j]);
                assert(tail1[w] == tail0[w]);
            }
        }
    }
    proof {
        let calls = backend.button_calls().skip(start.len() as int);
        let m = executed.len() as int;
        assert(calls.take(m) == executed);
        assert forall|j: int| 0 <= j < m implies button_call_is(steps@[j], #[trigger] calls[j], label@) by {
            assert(calls[j] == executed[j]);
        }
        assert forall|j: int| 0 <= j < m - 1 implies button_call_ok(#[trigger] calls[j]) by {
            assert(calls[j] == executed[j]);
        }
        if m < steps.len() {
            assert(calls[m - 1] == executed[m - 1]);
        }
        assert(button_run_upto(steps@, label@, calls, m));
        let tail = calls.skip(m);
        if !failed && restored {
            assert forall|j: int| 0 <= j < calls.len() implies button_call_ok(#[trigger] calls[j]) by {
                if j < m {
                    assert(calls[j] == executed[j]);
                } else {
                    assert(calls[j] == tail[j - m]);
                }
            }
        } else if failed {
            assert(calls[m - 1] == executed[m - 1]);
            assert(!button_call_ok(calls[m - 1]));
        } else {
            let w = choose|j: int| 0 <= j < tail.len() && !button_call_ok(#[trigger] tail[j]);
            assert(calls[m + w] == tail[w]);
        }
    }
    !failed && restored
}

/// A painter run in which every request succeeded carried out every step in
/// order and then put back every setting it had changed, newest first.
pub proof fn lemma_successful_button_run_is_complete<E>(steps: Seq<ButtonStep>, label: Seq<char>, calls: Seq<ButtonCall<E>>)
    requires
        button_run(steps, label, calls),
        forall|j: int| 0 <= j < calls.len() ==> button_call_ok(#[trigger] calls[j]),
    ensures
        steps.len() <= calls.len(),
        forall|j: int| 0 <= j < steps.len() ==> button_call_is(steps[j], #[trigger] calls[j], label),
        button_restores_all(button_held(calls.take(steps.len() as int)), calls.skip(steps.len() as int)),
{
    let m = choose|m: int| button_run_upto(steps, label, calls, m);
    if m < steps.len() {
        assert(!button_call_ok(calls[m - 1]));
    }
}

} // verus!
