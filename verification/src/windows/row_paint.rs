//! The owner-drawn profile row: a custom painter, a stock fallback and the
//! choice between them. Each puts back every device-context setting it
//! changed, and reports the first failure.

use vstd::prelude::*;

use super::design::{
    lemma_scaled_size_bounds, lrect, opaque_color, scale_logical, scaled_size, status_color,
    DialogColor, DialogPalette, LogicalRect, OUTER_PADDING, PROGRESS_HEIGHT, SELECTION_EDGE,
};
use super::dialog_paint::{directional_profile_text_format, extends, inset, HeldSetting};
use super::profile_dialog::ProfileManagerRowText;
use super::profile_rows::{
    composite, composite_dialog_color, first_line, profile_row_content_padding,
    profile_row_first_line_layout, profile_row_surface_color, profile_row_visual_state, row_visual,
    ProfileRowSurfaceRole, SELECTED_ROW_TINT_OPACITY,
};
use super::UsageProfileView;
use crate::text::{join_str, join_with};
use super::usage_popup::{DT_END_ELLIPSIS, DT_NOPREFIX, DT_RIGHT, DT_RTLREADING, DT_SINGLELINE, DT_VCENTER};

verus! {

/// A colored fill of a custom row, in painting order.
#[derive(Clone, Copy, Debug, PartialEq, Eq, Structural)]
pub enum ProfileRowFillStage {
    Surface,
    SelectionEdge,
    ProgressTrack,
    ProgressFill,
}

/// A text of a row.
#[derive(Clone, Copy, Debug, PartialEq, Eq, Structural)]
pub enum ProfileRowTextStage {
    Name,
    Markers,
    Summary,
    Fallback,
}

/// A request to a row's device context, with its answer.
pub enum RowCall<E> {
    /// The DC brush color was set; the answer is the color before.
    ApplyFillColor(u32, Result<u32, E>),
    /// A rectangle was filled with the DC brush.
    FillCustom(ProfileRowFillStage, LogicalRect, Result<(), E>),
    RestoreFillColor(u32, Result<(), E>),
    /// The rectangle was filled with the system selection or window color;
    /// the answer is the matching system text color.
    FillSystem(LogicalRect, bool, Result<u32, E>),
    /// The answer is the stock GUI font.
    DefaultFont(Result<usize, E>),
    /// The answer is the font selected before.
    SelectFont(usize, Result<usize, E>),
    /// The answer is the background mode before.
    TransparentBackground(Result<u32, E>),
    /// The answer is the text color before.
    TextColor(u32, Result<u32, E>),
    /// The answer is the width of the text in the selected font.
    Measure(Seq<char>, Result<i32, E>),
    /// A text drawn in the rectangle with the `DrawText` format.
    Text(ProfileRowTextStage, Seq<char>, LogicalRect, u32, Result<(), E>),
    Focus(LogicalRect, Result<(), E>),
    RestoreFont(usize, Result<(), E>),
    RestoreBackground(u32, Result<(), E>),
    RestoreTextColor(u32, Result<(), E>),
}

/// The device context of an owner-drawn row. Each request records itself,
/// with its answer, at the end of `row_calls`.
pub trait ProfileRowPaintBackend {
    type Error;

    /// The requests so far, in order.
    spec fn row_calls(&self) -> Seq<RowCall<Self::Error>>;

    fn apply_fill_color(&mut self, color: u32) -> (r: Result<u32, Self::Error>)
        ensures
            final(self).row_calls() == old(self).row_calls().push(RowCall::ApplyFillColor(color, r)),
    ;

    fn fill_custom_rect(&mut self, stage: ProfileRowFillStage, rect: &LogicalRect) -> (r: Result<(), Self::Error>)
        ensures
            final(self).row_calls() == old(self).row_calls().push(RowCall::FillCustom(stage, *rect, r)),
    ;

    fn restore_fill_color(&mut self, color: u32) -> (r: Result<(), Self::Error>)
        ensures
            final(self).row_calls() == old(self).row_calls().push(RowCall::RestoreFillColor(color, r)),
    ;

    fn fill_system_rect(&mut self, rect: &LogicalRect, selected: bool) -> (r: Result<u32, Self::Error>)
        ensures
            final(self).row_calls() == old(self).row_calls().push(RowCall::FillSystem(*rect, selected, r)),
    ;

    fn default_gui_font(&mut self) -> (r: Result<usize, Self::Error>)
        ensures
            final(self).row_calls() == old(self).row_calls().push(RowCall::DefaultFont(r)),
    ;

    fn select_font(&mut self, font: usize) -> (r: Result<usize, Self::Error>)
        ensures
            final(self).row_calls() == old(self).row_calls().push(RowCall::SelectFont(font, r)),
    ;

    fn set_transparent_background(&mut self) -> (r: Result<u32, Self::Error>)
        ensures
            final(self).row_calls() == old(self).row_calls().push(RowCall::TransparentBackground(r)),
    ;

    fn set_text_color(&mut self, color: u32) -> (r: Result<u32, Self::Error>)
        ensures
            final(self).row_calls() == old(self).row_calls().push(RowCall::TextColor(color, r)),
    ;

    fn measure_text_width(&mut self, text: &str) -> (r: Result<i32, Self::Error>)
        ensures
            final(self).row_calls() == old(self).row_calls().push(RowCall::Measure(text@, r)),
    ;

    fn draw_text(&mut self, stage: ProfileRowTextStage, text: &str, rect: &LogicalRect, format: u32) -> (r: Result<(), Self::Error>)
        ensures
            final(self).row_calls() == old(self).row_calls().push(RowCall::Text(stage, text@, *rect, format, r)),
    ;

    fn draw_focus(&mut self, rect: &LogicalRect) -> (r: Result<(), Self::Error>)
        ensures
            final(self).row_calls() == old(self).row_calls().push(RowCall::Focus(*rect, r)),
    ;

    fn restore_font(&mut self, font: usize) -> (r: Result<(), Self::Error>)
        ensures
            final(self).row_calls() == old(self).row_calls().push(RowCall::RestoreFont(font, r)),
    ;

    fn restore_background(&mut self, mode: u32) -> (r: Result<(), Self::Error>)
        ensures
            final(self).row_calls() == old(self).row_calls().push(RowCall::RestoreBackground(mode, r)),
    ;

    fn restore_text_color(&mut self, color: u32) -> (r: Result<(), Self::Error>)
        ensures
            final(self).row_calls() == old(self).row_calls().push(RowCall::RestoreTextColor(color, r)),
    ;
}

/// The error that a request answered, if it failed.
pub open spec fn call_error<E>(call: RowCall<E>) -> Option<E> {
    match call {
        RowCall::ApplyFillColor(_, Err(e)) => Some(e),
        RowCall::FillCustom(_, _, Err(e)) => Some(e),
        RowCall::RestoreFillColor(_, Err(e)) => Some(e),
        RowCall::FillSystem(_, _, Err(e)) => Some(e),
        RowCall::DefaultFont(Err(e)) => Some(e),
        RowCall::SelectFont(_, Err(e)) => Some(e),
        RowCall::TransparentBackground(Err(e)) => Some(e),
        RowCall::TextColor(_, Err(e)) => Some(e),
        RowCall::Measure(_, Err(e)) => Some(e),
        RowCall::Text(_, _, _, _, Err(e)) => Some(e),
        RowCall::Focus(_, Err(e)) => Some(e),
        RowCall::RestoreFont(_, Err(e)) => Some(e),
        RowCall::RestoreBackground(_, Err(e)) => Some(e),
        RowCall::RestoreTextColor(_, Err(e)) => Some(e),
        _ => None,
    }
}

/// The error of the first failed request of `calls`.
pub open spec fn first_error<E>(calls: Seq<RowCall<E>>) -> Option<E>
    decreases calls.len(),
{
    if calls.len() == 0 {
        None
    } else if call_error(calls[0]) is Some {
        call_error(calls[0])
    } else {
        first_error(calls.drop_first())
    }
}

/// `Ok` without an error, else the error.
pub open spec fn outcome<E>(error: Option<E>) -> Result<(), E> {
    match error {
        Some(e) => Err(e),
        None => Ok(()),
    }
}

/// The first error of two runs in a row is the first run's, if it has one.
pub proof fn lemma_first_error_append<E>(a: Seq<RowCall<E>>, b: Seq<RowCall<E>>)
    ensures
        first_error(a + b) == (if first_error(a) is Some { first_error(a) } else { first_error(b) }),
    decreases a.len(),
{
    if a.len() > 0 {
        assert((a + b).drop_first() =~= a.drop_first() + b);
        lemma_first_error_append(a.drop_first(), b);
    } else {
        assert(a + b =~= b);
    }
}

/// The first error of a single request is its own.
pub proof fn lemma_first_error_single<E>(c: RowCall<E>)
    ensures
        first_error(seq![c]) == call_error(c),
{
    let s = seq![c];
    assert(s[0] == c);
    assert(s.drop_first() =~= Seq::<RowCall<E>>::empty());
    assert(first_error(s.drop_first()) is None);
}

/// A colored fill: its stage, rectangle and color.
#[derive(Clone, Copy, Debug, PartialEq, Eq, Structural)]
pub struct RowFill {
    pub stage: ProfileRowFillStage,
    pub rect: LogicalRect,
    pub color: u32,
}

pub open spec fn rect_empty(rect: LogicalRect) -> bool {
    rect.right <= rect.left || rect.bottom <= rect.top
}

/// Three requests that applied the fill's color, filled its rectangle and
/// put the previous color back, all successfully.
pub open spec fn fill_succeeded<E>(fill: RowFill, calls: Seq<RowCall<E>>) -> bool {
    &&& calls.len() == 3
    &&& calls[0] matches RowCall::ApplyFillColor(c, Ok(previous))
    &&& c == fill.color
    &&& calls[1] matches RowCall::FillCustom(s, r, Ok(()))
    &&& s == fill.stage && r == fill.rect
    &&& calls[2] matches RowCall::RestoreFillColor(back, Ok(()))
    &&& back == previous
}

/// The requests of one fill that failed: the color could not be applied,
/// or it was applied and the previous color put back around a fill, one
/// of the two failing.
pub open spec fn fill_failed<E>(fill: RowFill, calls: Seq<RowCall<E>>) -> bool {
    ||| calls.len() == 1 && (calls[0] matches RowCall::ApplyFillColor(c, Err(_)) && c == fill.color)
    ||| {
        &&& calls.len() == 3
        &&& calls[0] matches RowCall::ApplyFillColor(c, Ok(previous))
        &&& c == fill.color
        &&& calls[1] matches RowCall::FillCustom(s, r, filled)
        &&& s == fill.stage && r == fill.rect
        &&& calls[2] matches RowCall::RestoreFillColor(back, restored)
        &&& back == previous
        &&& (filled is Err || restored is Err)
    }
}

/// Paints one colored fill of a custom row through the DC brush: nothing
/// for an empty rectangle; else the color is applied, and if that worked
/// the rectangle is filled and the previous color put back either way. The
/// result is the first failure.
pub fn paint_profile_row_custom_fill<B: ProfileRowPaintBackend>(backend: &mut B, stage: ProfileRowFillStage, rect: &LogicalRect, color: u32) -> (r: Result<(), B::Error>)
    ensures
        extends(old(backend).row_calls(), final(backend).row_calls()),
        ({
            let calls = final(backend).row_calls().skip(old(backend).row_calls().len() as int);
            let fill = RowFill { stage, rect: *rect, color };
            &&& rect_empty(*rect) ==> calls.len() == 0
            &&& !rect_empty(*rect) ==> fill_succeeded(fill, calls) || fill_failed(fill, calls)
            &&& r == outcome(first_error(calls))
        }),
{
    let ghost start = backend.row_calls();
    if rect.right <= rect.left || rect.bottom <= rect.top {
        assert(backend.row_calls().skip(start.len() as int) =~= seq![]);
        assert(backend.row_calls().take(start.len() as int) =~= start);
        return Ok(());
    }
    let previous = match backend.apply_fill_color(color) {
        Ok(p) => p,
        Err(e) => {
            proof {
                let calls = backend.row_calls().skip(start.len() as int);
                assert(calls =~= seq![backend.row_calls().last()]);
                assert(backend.row_calls().take(start.len() as int) =~= start);
                lemma_first_error_single(backend.row_calls().last());
            }
            return Err(e);
        },
    };
    let filled = backend.fill_custom_rect(stage, rect);
    let restored = backend.restore_fill_color(previous);
    proof {
        let all = backend.row_calls();
        let calls = all.skip(start.len() as int);
        assert(calls.len() == 3);
        assert(calls[0] == all[start.len() as int]);
        assert(calls[1] == all[start.len() as int + 1]);
        assert(calls[2] == all[start.len() as int + 2]);
        assert(all.take(start.len() as int) =~= start);
        let d1 = calls.drop_first();
        let d2 = d1.drop_first();
        let d3 = d2.drop_first();
        assert(d3 =~= Seq::<RowCall<B::Error>>::empty());
        assert(d1[0] == calls[1]);
        assert(d2[0] == calls[2]);
        assert(first_error(d3) is None);
        assert(first_error(d2) == call_error(calls[2]));
        assert(first_error(d1) == (if call_error(calls[1]) is Some { call_error(calls[1]) } else { call_error(calls[2]) }));
        assert(call_error(calls[0]) is None);
        assert(first_error(calls) == first_error(d1));
        let fill = RowFill { stage, rect: *rect, color };
        assert(fill_succeeded(fill, calls) || fill_failed(fill, calls));
    }
    let ghost calls = backend.row_calls().skip(start.len() as int);
    assert(calls[1] == RowCall::FillCustom(stage, *rect, filled));
    assert(calls[2] == RowCall::RestoreFillColor(previous, restored));
    match filled {
        Err(e) => Err(e),
        Ok(()) => {
            assert(call_error(calls[1]) is None);
            match restored {
                Ok(()) => Ok(()),
                Err(e) => Err(e),
            }
        },
    }
}

/// The call puts `setting` back.
pub open spec fn restores_setting<E>(setting: HeldSetting, call: RowCall<E>) -> bool {
    match (setting, call) {
        (HeldSetting::Font(f), RowCall::RestoreFont(g, _)) => f == g,
        (HeldSetting::Background(m), RowCall::RestoreBackground(n, _)) => m == n,
        (HeldSetting::TextColor(c), RowCall::RestoreTextColor(d, _)) => c == d,
        _ => false,
    }
}

/// `calls` put back each of `held`, newest first.
pub open spec fn restores_all<E>(held: Seq<HeldSetting>, calls: Seq<RowCall<E>>) -> bool {
    &&& calls.len() == held.len()
    &&& forall|j: int| 0 <= j < calls.len() ==> restores_setting(held[held.len() - 1 - j], #[trigger] calls[j])
}

/// Puts back every text setting of `held`, newest first (the text color,
/// the background mode, then the font), trying each even after a failure;
/// the result is the first failure.
pub fn restore_profile_row_text_state<B: ProfileRowPaintBackend>(backend: &mut B, held: &Vec<HeldSetting>) -> (r: Result<(), B::Error>)
    ensures
        extends(old(backend).row_calls(), final(backend).row_calls()),
        ({
            let calls = final(backend).row_calls().skip(old(backend).row_calls().len() as int);
            &&& restores_all(held@, calls)
            &&& r == outcome(first_error(calls))
        }),
{
    let ghost start = backend.row_calls();
    let mut first: Option<B::Error> = None;
    let mut k = held.len();
    assert(backend.row_calls().skip(start.len() as int) =~= seq![]);
    assert(backend.row_calls().take(start.len() as int) =~= start);
    while k > 0
        invariant
            extends(start, backend.row_calls()),
            k <= held.len(),
            ({
                let calls = backend.row_calls().skip(start.len() as int);
                &&& calls.len() == held.len() - k
                &&& forall|j: int| 0 <= j < calls.len() ==> restores_setting(held@[held.len() - 1 - j], #[trigger] calls[j])
                &&& first == first_error(calls)
            }),
        decreases k,
    {
        let ghost before = backend.row_calls();
        k = k - 1;
        let result = match held[k] {
            HeldSetting::Font(f) => backend.restore_font(f),
            HeldSetting::Background(m) => backend.restore_background(m),
            HeldSetting::TextColor(c) => backend.restore_text_color(c),
        };
        proof {
            let calls0 = before.skip(start.len() as int);
            let c = backend.row_calls().last();
            let calls1 = backend.row_calls().skip(start.len() as int);
            assert(calls1 =~= calls0 + seq![c]);
            assert(backend.row_calls().take(start.len() as int) =~= start);
            lemma_first_error_append(calls0, seq![c]);
            lemma_first_error_single(c);
            assert forall|j: int| 0 <= j < calls1.len() implies restores_setting(held@[held.len() - 1 - j], #[trigger] calls1[j]) by {
                if j < calls0.len() {
                    assert(calls1[j] == calls0[j]);
                }
            }
        }
        match result {
            Ok(()) => {},
            Err(e) => {
                if first.is_none() {
                    first = Some(e);
                }
            },
        }
    }
    match first {
        Some(e) => Err(e),
        None => Ok(()),
    }
}

/// One planned request of a row painter.
#[derive(Clone, Copy, Debug, PartialEq, Eq, Structural)]
pub enum RowStep {
    FillSystem(LogicalRect, bool),
    DefaultFont,
    SelectFont(usize),
    TransparentBackground,
    TextColor(u32),
    /// A text color change whose previous color is not kept.
    Recolor(u32),
    /// Measures the marker text.
    Measure,
    Text(ProfileRowTextStage, LogicalRect, u32),
    Focus(LogicalRect),
}

/// The texts of a row, by stage; the marker text is also the one measured.
#[derive(Clone, Copy, Debug)]
pub struct RowTexts<'a> {
    pub name: &'a str,
    pub markers: &'a str,
    pub summary: &'a str,
    pub fallback: &'a str,
}

/// The texts of a row as character sequences.
pub struct RowTextsView {
    pub name: Seq<char>,
    pub markers: Seq<char>,
    pub summary: Seq<char>,
    pub fallback: Seq<char>,
}

impl<'a> View for RowTexts<'a> {
    type V = RowTextsView;

    open spec fn view(&self) -> RowTextsView {
        RowTextsView { name: self.name@, markers: self.markers@, summary: self.summary@, fallback: self.fallback@ }
    }
}

pub open spec fn stage_text(texts: RowTextsView, stage: ProfileRowTextStage) -> Seq<char> {
    match stage {
        ProfileRowTextStage::Name => texts.name,
        ProfileRowTextStage::Markers => texts.markers,
        ProfileRowTextStage::Summary => texts.summary,
        ProfileRowTextStage::Fallback => texts.fallback,
    }
}

/// The call is the request `step`.
pub open spec fn row_call_is<E>(step: RowStep, call: RowCall<E>, texts: RowTextsView) -> bool {
    match (step, call) {
        (RowStep::FillSystem(r, s), RowCall::FillSystem(r2, s2, _)) => r == r2 && s == s2,
        (RowStep::DefaultFont, RowCall::DefaultFont(_)) => true,
        (RowStep::SelectFont(f), RowCall::SelectFont(g, _)) => f == g,
        (RowStep::TransparentBackground, RowCall::TransparentBackground(_)) => true,
        (RowStep::TextColor(c), RowCall::TextColor(d, _)) => c == d,
        (RowStep::Recolor(c), RowCall::TextColor(d, _)) => c == d,
        (RowStep::Measure, RowCall::Measure(t, _)) => t == texts.markers,
        (RowStep::Text(st, r, f), RowCall::Text(st2, t, r2, f2, _)) => st == st2 && t == stage_text(texts, st) && r == r2 && f == f2,
        (RowStep::Focus(r), RowCall::Focus(r2, _)) => r == r2,
        _ => false,
    }
}

/// What a successful step answered that the painter keeps.
#[derive(Clone, Copy, Debug, PartialEq, Eq, Structural)]
pub enum StepAnswer {
    Nothing,
    /// The system text color.
    Color(u32),
    /// The stock font.
    Font(usize),
    /// The measured width.
    Width(i32),
    /// A setting that must be put back.
    Held(HeldSetting),
}

pub open spec fn step_answer<E>(step: RowStep, call: RowCall<E>) -> StepAnswer {
    match (step, call) {
        (RowStep::FillSystem(_, _), RowCall::FillSystem(_, _, Ok(c))) => StepAnswer::Color(c),
        (RowStep::DefaultFont, RowCall::DefaultFont(Ok(f))) => StepAnswer::Font(f),
        (RowStep::Measure, RowCall::Measure(_, Ok(w))) => StepAnswer::Width(w),
        (RowStep::SelectFont(_), RowCall::SelectFont(_, Ok(p))) => StepAnswer::Held(HeldSetting::Font(p)),
        (RowStep::TransparentBackground, RowCall::TransparentBackground(Ok(m))) => StepAnswer::Held(HeldSetting::Background(m)),
        (RowStep::TextColor(_), RowCall::TextColor(_, Ok(c))) => StepAnswer::Held(HeldSetting::TextColor(c)),
        _ => StepAnswer::Nothing,
    }
}

/// The setting that the step changed, with its value before.
pub open spec fn row_acquired<E>(step: RowStep, call: RowCall<E>) -> Seq<HeldSetting> {
    match step_answer(step, call) {
        StepAnswer::Held(h) => seq![h],
        _ => seq![],
    }
}

/// The settings that the first `n` steps changed, oldest first.
pub open spec fn row_held<E>(steps: Seq<RowStep>, calls: Seq<RowCall<E>>, n: int) -> Seq<HeldSetting>
    decreases n,
{
    if n <= 0 {
        seq![]
    } else {
        row_held(steps, calls, n - 1) + row_acquired(steps[n - 1], calls[n - 1])
    }
}

/// `calls` carry out the first `m` of `steps`, all but the last of them
/// successfully, stopping at the first failure (or after every step), and
/// then put back every setting they changed, newest first.
pub open spec fn row_run_upto<E>(steps: Seq<RowStep>, texts: RowTextsView, calls: Seq<RowCall<E>>, m: int) -> bool {
    &&& 0 <= m <= steps.len()
    &&& m <= calls.len()
    &&& forall|j: int| 0 <= j < m ==> row_call_is(steps[j], #[trigger] calls[j], texts)
    &&& forall|j: int| 0 <= j < m - 1 ==> call_error(#[trigger] calls[j]) is None
    &&& m == steps.len() || (m > 0 && call_error(calls[m - 1]) is Some)
    &&& restores_all(row_held(steps, calls, m), calls.skip(m))
}

/// The run of `steps`: up to the first failure, then the restores.
pub open spec fn row_run<E>(steps: Seq<RowStep>, texts: RowTextsView, calls: Seq<RowCall<E>>) -> bool {
    exists|m: int| row_run_upto(steps, texts, calls, m)
}

/// Performs one step.
fn run_row_step<B: ProfileRowPaintBackend>(backend: &mut B, step: RowStep, texts: &RowTexts) -> (r: Result<StepAnswer, B::Error>)
    ensures
        final(backend).row_calls().len() == old(backend).row_calls().len() + 1,
        final(backend).row_calls().drop_last() == old(backend).row_calls(),
        ({
            let c = final(backend).row_calls().last();
            &&& row_call_is(step, c, texts@)
            &&& r == match call_error(c) {
                Some(e) => Err(e),
                None => Ok(step_answer(step, c)),
            }
        }),
{
    let ghost before = backend.row_calls();
    let r = match step {
        RowStep::FillSystem(rect, selected) => match backend.fill_system_rect(&rect, selected) {
            Ok(c) => Ok(StepAnswer::Color(c)),
            Err(e) => Err(e),
        },
        RowStep::DefaultFont => match backend.default_gui_font() {
            Ok(f) => Ok(StepAnswer::Font(f)),
            Err(e) => Err(e),
        },
        RowStep::SelectFont(font) => match backend.select_font(font) {
            Ok(p) => Ok(StepAnswer::Held(HeldSetting::Font(p))),
            Err(e) => Err(e),
        },
        RowStep::TransparentBackground => match backend.set_transparent_background() {
            Ok(m) => Ok(StepAnswer::Held(HeldSetting::Background(m))),
            Err(e) => Err(e),
        },
        RowStep::TextColor(color) => match backend.set_text_color(color) {
            Ok(c) => Ok(StepAnswer::Held(HeldSetting::TextColor(c))),
            Err(e) => Err(e),
        },
        RowStep::Recolor(color) => match backend.set_text_color(color) {
            Ok(_) => Ok(StepAnswer::Nothing),
            Err(e) => Err(e),
        },
        RowStep::Measure => match backend.measure_text_width(texts.markers) {
            Ok(w) => Ok(StepAnswer::Width(w)),
            Err(e) => Err(e),
        },
        RowStep::Text(stage, rect, format) => {
            let text = match stage {
                ProfileRowTextStage::Name => texts.name,
                ProfileRowTextStage::Markers => texts.markers,
                ProfileRowTextStage::Summary => texts.summary,
                ProfileRowTextStage::Fallback => texts.fallback,
            };
            match backend.draw_text(stage, text, &rect, format) {
                Ok(()) => Ok(StepAnswer::Nothing),
                Err(e) => Err(e),
            }
        },
        RowStep::Focus(rect) => match backend.draw_focus(&rect) {
            Ok(()) => Ok(StepAnswer::Nothing),
            Err(e) => Err(e),
        },
    };
    assert(backend.row_calls().drop_last() =~= before);
    r
}

/// The steps so far were carried out in order, the last one answered with
/// `r`: all successfully (`r` is `Ok` and every step done) or up to the
/// first failure, whose error `r` holds.
pub open spec fn steps_done<E>(steps: Seq<RowStep>, texts: RowTextsView, calls: Seq<RowCall<E>>, r: Result<StepAnswer, E>) -> bool {
    &&& 1 <= calls.len() <= steps.len()
    &&& forall|j: int| 0 <= j < calls.len() ==> row_call_is(steps[j], #[trigger] calls[j], texts)
    &&& forall|j: int| 0 <= j < calls.len() - 1 ==> call_error(#[trigger] calls[j]) is None
    &&& r == match call_error(calls.last()) {
        Some(e) => Err(e),
        None => Ok(step_answer(steps[calls.len() - 1], calls.last())),
    }
    &&& r is Ok ==> calls.len() == steps.len()
}

/// Performs `steps` in order up to the first failure, keeping in `held`
/// the settings they change; the result is the last step's answer, or the
/// failure.
fn run_row_steps<B: ProfileRowPaintBackend>(backend: &mut B, steps: &Vec<RowStep>, texts: &RowTexts, held: &mut Vec<HeldSetting>) -> (r: Result<StepAnswer, B::Error>)
    requires
        steps.len() >= 1,
    ensures
        extends(old(backend).row_calls(), final(backend).row_calls()),
        ({
            let calls = final(backend).row_calls().skip(old(backend).row_calls().len() as int);
            &&& steps_done(steps@, texts@, calls, r)
            &&& final(held)@ == old(held)@ + row_held(steps@, calls, calls.len() as int)
        }),
{
    let ghost start = backend.row_calls();
    let ghost held0 = held@;
    let mut i: usize = 0;
    let mut last: Result<StepAnswer, B::Error> = Ok(StepAnswer::Nothing);
    assert(backend.row_calls().skip(start.len() as int) =~= seq![]);
    assert(backend.row_calls().take(start.len() as int) =~= start);
    while i < steps.len()
        invariant
            start == old(backend).row_calls(),
            held0 == old(held)@,
            extends(start, backend.row_calls()),
            i <= steps.len(),
            ({
                let calls = backend.row_calls().skip(start.len() as int);
                &&& calls.len() == i
                &&& forall|j: int| 0 <= j < i ==> row_call_is(steps@[j], #[trigger] calls[j], texts@)
                &&& forall|j: int| 0 <= j < i ==> call_error(#[trigger] calls[j]) is None
                &&& held@ == held0 + row_held(steps@, calls, i as int)
                &&& i > 0 ==> last == Ok::<StepAnswer, B::Error>(step_answer(steps@[i - 1], calls[i - 1]))
            }),
        decreases steps.len() - i,
    {
        let ghost before = backend.row_calls();
        let ghost calls0 = before.skip(start.len() as int);
        let step = steps[i];
        let r = run_row_step(backend, step, texts);
        proof {
            let c = backend.row_calls().last();
            let calls1 = backend.row_calls().skip(start.len() as int);
            assert(backend.row_calls() =~= before.push(c));
            assert(calls1 =~= calls0.push(c));
            assert(backend.row_calls().take(start.len() as int) =~= start);
            assert(row_held(steps@, calls1, i as int) == row_held(steps@, calls0, i as int)) by {
                lemma_row_held_prefix(steps@, calls0, calls1, i as int);
            }
            assert(calls1[i as int] == c);
        }
        match r {
            Err(e) => {
                proof {
                    let calls1 = backend.row_calls().skip(start.len() as int);
                    assert(calls1.last() == calls1[i as int]);
                }
                return Err(e);
            },
            Ok(answer) => {
                match answer {
                    StepAnswer::Held(h) => held.push(h),
                    _ => {},
                }
                proof {
                    let calls1 = backend.row_calls().skip(start.len() as int);
                    assert(held@ =~= held0 + row_held(steps@, calls1, i + 1));
                }
                last = Ok(answer);
            },
        }
        i = i + 1;
    }
    proof {
        let calls = backend.row_calls().skip(start.len() as int);
        assert(calls.last() == calls[i - 1]);
    }
    last
}

/// `row_held` of the first `n` steps depends only on the first `n` calls.
pub proof fn lemma_row_held_prefix<E>(steps: Seq<RowStep>, a: Seq<RowCall<E>>, b: Seq<RowCall<E>>, n: int)
    requires
        0 <= n <= a.len(),
        n <= b.len(),
        forall|j: int| 0 <= j < n ==> a[j] == b[j],
    ensures
        row_held(steps, a, n) == row_held(steps, b, n),
    decreases n,
{
    if n > 0 {
        lemma_row_held_prefix(steps, a, b, n - 1);
        assert(a[n - 1] == b[n - 1]);
    }
}

/// The settings changed by two runs in a row are those of the first run
/// and then those of the second.
pub proof fn lemma_row_held_append<E>(s1: Seq<RowStep>, s2: Seq<RowStep>, c1: Seq<RowCall<E>>, c2: Seq<RowCall<E>>, m: int)
    requires
        c1.len() == s1.len(),
        0 <= m <= c2.len(),
        m <= s2.len(),
    ensures
        row_held(s1 + s2, c1 + c2, s1.len() + m) == row_held(s1, c1, s1.len() as int) + row_held(s2, c2, m),
    decreases m,
{
    if m == 0 {
        lemma_row_held_prefix(s1 + s2, c1 + c2, c1, s1.len() as int);
        lemma_row_held_steps(s1 + s2, s1, c1, s1.len() as int);
        assert(row_held(s2, c2, 0) =~= Seq::<HeldSetting>::empty());
        assert(row_held(s1, c1, s1.len() as int) + row_held(s2, c2, 0) =~= row_held(s1, c1, s1.len() as int));
    } else {
        lemma_row_held_append(s1, s2, c1, c2, m - 1);
        let k = s1.len() + m;
        assert((s1 + s2)[k - 1] == s2[m - 1]);
        assert((c1 + c2)[k - 1] == c2[m - 1]);
        assert(row_held(s1, c1, s1.len() as int) + row_held(s2, c2, m) =~= row_held(s1, c1, s1.len() as int) + row_held(s2, c2, m - 1) + row_acquired(s2[m - 1], c2[m - 1]));
    }
}

/// `row_held` of the first `n` steps depends only on the first `n` steps.
pub proof fn lemma_row_held_steps<E>(s: Seq<RowStep>, t: Seq<RowStep>, calls: Seq<RowCall<E>>, n: int)
    requires
        0 <= n <= s.len(),
        n <= t.len(),
        forall|j: int| 0 <= j < n ==> s[j] == t[j],
    ensures
        row_held(s, calls, n) == row_held(t, calls, n),
    decreases n,
{
    if n > 0 {
        lemma_row_held_steps(s, t, calls, n - 1);
        assert(s[n - 1] == t[n - 1]);
    }
}

/// When no request but the last failed, the first error is the last one's.
pub proof fn lemma_first_error_last<E>(calls: Seq<RowCall<E>>)
    requires
        calls.len() >= 1,
        forall|j: int| 0 <= j < calls.len() - 1 ==> call_error(#[trigger] calls[j]) is None,
    ensures
        first_error(calls) == call_error(calls.last()),
    decreases calls.len(),
{
    if calls.len() == 1 {
        assert(calls =~= seq![calls[0]]);
        lemma_first_error_single(calls[0]);
    } else {
        let d = calls.drop_first();
        assert(call_error(calls[0]) is None);
        assert forall|j: int| 0 <= j < d.len() - 1 implies call_error(#[trigger] d[j]) is None by {
            assert(d[j] == calls[j + 1]);
        }
        lemma_first_error_last(d);
        assert(d.last() == calls.last());
    }
}

/// The first error of a run of steps is its result's.
pub proof fn lemma_steps_done_first_error<E>(steps: Seq<RowStep>, texts: RowTextsView, calls: Seq<RowCall<E>>, r: Result<StepAnswer, E>)
    requires
        steps_done(steps, texts, calls, r),
    ensures
        first_error(calls) == match r {
            Err(e) => Some(e),
            Ok(_) => None::<E>,
        },
{
    lemma_first_error_last(calls);
}

/// Every coordinate of the row lies within ±2^28.
pub open spec fn row_rect_in_range(rect: LogicalRect) -> bool {
    &&& -0x1000_0000 <= rect.left <= 0x1000_0000
    &&& -0x1000_0000 <= rect.top <= 0x1000_0000
    &&& -0x1000_0000 <= rect.right <= 0x1000_0000
    &&& -0x1000_0000 <= rect.bottom <= 0x1000_0000
}

/// The fallback's text format: one line on the reading side, vertically
/// centered, ending in an ellipsis.
pub open spec fn fallback_format(rtl: bool) -> u32 {
    (if rtl { DT_SINGLELINE | DT_NOPREFIX | DT_RTLREADING | DT_RIGHT } else { DT_SINGLELINE | DT_NOPREFIX })
        | DT_END_ELLIPSIS | DT_VCENTER
}

/// The stock fallback: the system selection or window color with its text
/// color, the stock GUI font, the accessible text two pixels in from each
/// side, and the focus rectangle one pixel inside when focused.
pub open spec fn fallback_steps(rect: LogicalRect, rtl: bool, selected: bool, focused: bool, text_color: u32, font: usize) -> Seq<RowStep> {
    seq![
        RowStep::FillSystem(rect, selected),
        RowStep::DefaultFont,
        RowStep::SelectFont(font),
        RowStep::TransparentBackground,
        RowStep::TextColor(text_color),
        RowStep::Text(ProfileRowTextStage::Fallback, lrect(rect.left + 2, rect.top as int, rect.right - 2, rect.bottom as int), fallback_format(rtl)),
    ] + (if focused { seq![RowStep::Focus(inset(rect, 1))] } else { seq![] })
}

/// The system text color that the first request answered.
pub open spec fn answered_color<E>(calls: Seq<RowCall<E>>) -> u32 {
    if calls.len() > 0 {
        match calls[0] {
            RowCall::FillSystem(_, _, Ok(c)) => c,
            _ => 0,
        }
    } else {
        0
    }
}

/// The stock font that the second request answered.
pub open spec fn answered_font<E>(calls: Seq<RowCall<E>>) -> usize {
    if calls.len() > 1 {
        match calls[1] {
            RowCall::DefaultFont(Ok(f)) => f,
            _ => 0,
        }
    } else {
        0
    }
}

/// The texts of the fallback, which draws only the accessible text.
pub open spec fn fallback_texts(accessible_text: &str) -> RowTextsView {
    RowTextsView { name: accessible_text@, markers: accessible_text@, summary: accessible_text@, fallback: accessible_text@ }
}

/// Paints a row with system colors and the stock font: the steps of
/// `fallback_steps` with the color and font that the system answered, up to
/// the first failure, then every changed setting put back; the result is
/// the first failure.
#[verifier::spinoff_prover]
#[verifier::rlimit(50)]
pub fn paint_profile_row_fallback<B: ProfileRowPaintBackend>(backend: &mut B, rect: LogicalRect, accessible_text: &str, rtl: bool, selected: bool, focused: bool) -> (r: Result<(), B::Error>)
    requires
        row_rect_in_range(rect),
    ensures
        extends(old(backend).row_calls(), final(backend).row_calls()),
        ({
            let calls = final(backend).row_calls().skip(old(backend).row_calls().len() as int);
            &&& row_run(
                fallback_steps(rect, rtl, selected, focused, answered_color(calls), answered_font(calls)),
                fallback_texts(accessible_text),
                calls,
            )
            &&& r == outcome(first_error(calls))
        }),
{
    let ghost start = backend.row_calls();
    let texts = RowTexts { name: accessible_text, markers: accessible_text, summary: accessible_text, fallback: accessible_text };
    assert(backend.row_calls().take(start.len() as int) =~= start);
    let r0 = run_row_step(backend, RowStep::FillSystem(rect, selected), &texts);
    let ghost c0 = backend.row_calls().last();
    assert(backend.row_calls() =~= start.push(c0));
    let text_color = match r0 {
        Ok(StepAnswer::Color(c)) => c,
        Ok(_) => 0,
        Err(e) => {
            proof {
                let calls = backend.row_calls().skip(start.len() as int);
                assert(calls =~= seq![c0]);
                assert(backend.row_calls().take(start.len() as int) =~= start);
                lemma_first_error_single(c0);
                let steps = fallback_steps(rect, rtl, selected, focused, answered_color(calls), answered_font(calls));
                assert(calls.skip(1) =~= Seq::<RowCall<B::Error>>::empty());
                assert(row_held(steps, calls, 1) =~= row_held(steps, calls, 0) + row_acquired(steps[0], calls[0]));
                assert(row_run_upto(steps, texts@, calls, 1));
            }
            return Err(e);
        },
    };
    let r1 = run_row_step(backend, RowStep::DefaultFont, &texts);
    let ghost c1 = backend.row_calls().last();
    assert(backend.row_calls() =~= start.push(c0).push(c1));
    let font = match r1 {
        Ok(StepAnswer::Font(f)) => f,
        Ok(_) => 0,
        Err(e) => {
            proof {
                let calls = backend.row_calls().skip(start.len() as int);
                assert(calls =~= seq![c0, c1]);
                assert(backend.row_calls().take(start.len() as int) =~= start);
                let steps = fallback_steps(rect, rtl, selected, focused, answered_color(calls), answered_font(calls));
                assert(calls.skip(2) =~= Seq::<RowCall<B::Error>>::empty());
                assert(row_held(steps, calls, 1) =~= row_held(steps, calls, 0) + row_acquired(steps[0], calls[0]));
                assert(row_held(steps, calls, 2) =~= row_held(steps, calls, 1) + row_acquired(steps[1], calls[1]));
                assert(row_run_upto(steps, texts@, calls, 2));
                assert(calls.drop_first() =~= seq![c1]);
                lemma_first_error_single(c1);
            }
            return Err(e);
        },
    };
    let ghost head = seq![c0, c1];
    assert(answered_color(head) == text_color);
    assert(answered_font(head) == font);
    let text_rect = LogicalRect::new(rect.left + 2, rect.top, rect.right - 2, rect.bottom);
    let format = directional_profile_text_format(rtl) | DT_END_ELLIPSIS | DT_VCENTER;
    let mut rest: Vec<RowStep> = Vec::new();
    rest.push(RowStep::SelectFont(font));
    rest.push(RowStep::TransparentBackground);
    rest.push(RowStep::TextColor(text_color));
    rest.push(RowStep::Text(ProfileRowTextStage::Fallback, text_rect, format));
    if focused {
        rest.push(RowStep::Focus(LogicalRect::new(rect.left + 1, rect.top + 1, rect.right - 1, rect.bottom - 1)));
    }
    let ghost steps = fallback_steps(rect, rtl, selected, focused, text_color, font);
    assert(steps =~= seq![RowStep::FillSystem(rect, selected), RowStep::DefaultFont] + rest@);
    let mut held: Vec<HeldSetting> = Vec::new();
    let ghost middle = backend.row_calls();
    let painted = run_row_steps(backend, &rest, &texts, &mut held);
    let ghost c2 = backend.row_calls().skip(middle.len() as int);
    let ghost after_steps = backend.row_calls();
    let restored = restore_profile_row_text_state(backend, &held);
    let ghost c3 = backend.row_calls().skip(after_steps.len() as int);
    proof {
        let all = backend.row_calls();
        let calls = all.skip(start.len() as int);
        assert(after_steps =~= middle + c2);
        assert(all =~= after_steps + c3);
        assert(calls =~= head + c2 + c3);
        assert(all.take(start.len() as int) =~= start);
        assert(answered_color(calls) == text_color);
        assert(answered_font(calls) == font);
        let m: int = 2 + c2.len() as int;
        let s1 = seq![RowStep::FillSystem(rect, selected), RowStep::DefaultFont];
        assert(row_held(s1, head, 1) =~= row_held(s1, head, 0) + row_acquired(s1[0], head[0]));
        assert(row_held(s1, head, 2) =~= row_held(s1, head, 1) + row_acquired(s1[1], head[1]));
        assert(row_held(s1, head, 2) =~= Seq::<HeldSetting>::empty());
        lemma_row_held_append(s1, rest@, head, c2 + c3, c2.len() as int);
        lemma_row_held_prefix(rest@, c2 + c3, c2, c2.len() as int);
        assert(head + (c2 + c3) =~= calls);
        assert(held@ =~= row_held(rest@, c2, c2.len() as int));
        assert(calls.skip(m) =~= c3);
        assert forall|j: int| 0 <= j < m implies row_call_is(steps[j], #[trigger] calls[j], texts@) by {
            if j >= 2 {
                assert(calls[j] == c2[j - 2]);
            }
        }
        assert forall|j: int| 0 <= j < m - 1 implies call_error(#[trigger] calls[j]) is None by {
            if j >= 2 {
                assert(calls[j] == c2[j - 2]);
            }
        }
        if m < steps.len() {
            assert(calls[m - 1] == c2.last());
        }
        assert(row_run_upto(steps, texts@, calls, m));
        lemma_steps_done_first_error(rest@, texts@, c2, painted);
        lemma_first_error_append(head, c2 + c3);
        lemma_first_error_append(c2, c3);
        assert(head.drop_first() =~= seq![c1]);
        lemma_first_error_single(c1);
        assert(first_error(head) is None);
    }
    match painted {
        Err(e) => Err(e),
        Ok(_) => restored,
    }
}

/// The three requests of fill `i` in a run of successful fills.
pub open spec fn unit_calls<E>(calls: Seq<RowCall<E>>, i: int) -> Seq<RowCall<E>> {
    calls.subrange(3 * i, 3 * i + 3)
}

/// `calls` paint the first `k` of `fills` successfully and then, if any
/// is left, fail at fill `k`.
pub open spec fn fills_upto<E>(fills: Seq<RowFill>, calls: Seq<RowCall<E>>, k: int) -> bool {
    &&& 0 <= k <= fills.len()
    &&& 3 * k <= calls.len()
    &&& forall|i: int| 0 <= i < k ==> fill_succeeded(fills[i], #[trigger] unit_calls(calls, i))
    &&& if k < fills.len() {
        fill_failed(fills[k], calls.skip(3 * k))
    } else {
        calls.len() == 3 * k
    }
}

proof fn lemma_fill_succeeded_no_error<E>(fill: RowFill, calls: Seq<RowCall<E>>)
    requires
        fill_succeeded(fill, calls),
    ensures
        first_error(calls) is None,
{
    assert forall|j: int| 0 <= j < calls.len() - 1 implies call_error(#[trigger] calls[j]) is None by {}
    lemma_first_error_last(calls);
}

/// Paints `fills` in order, stopping at the first that fails.
fn paint_row_fills<B: ProfileRowPaintBackend>(backend: &mut B, fills: &Vec<RowFill>) -> (r: Result<(), B::Error>)
    requires
        forall|i: int| 0 <= i < fills.len() ==> !rect_empty(#[trigger] fills@[i].rect),
    ensures
        extends(old(backend).row_calls(), final(backend).row_calls()),
        ({
            let calls = final(backend).row_calls().skip(old(backend).row_calls().len() as int);
            &&& r is Ok ==> fills_upto(fills@, calls, fills.len() as int)
            &&& r is Err ==> exists|k: int| k < fills.len() && #[trigger] fills_upto(fills@, calls, k)
            &&& r == outcome(first_error(calls))
        }),
{
    let ghost start = backend.row_calls();
    let mut k: usize = 0;
    assert(backend.row_calls().skip(start.len() as int) =~= seq![]);
    assert(backend.row_calls().take(start.len() as int) =~= start);
    while k < fills.len()
        invariant
            start == old(backend).row_calls(),
            forall|i: int| 0 <= i < fills.len() ==> !rect_empty(#[trigger] fills@[i].rect),
            extends(start, backend.row_calls()),
            k <= fills.len(),
            ({
                let calls = backend.row_calls().skip(start.len() as int);
                &&& calls.len() == 3 * k
                &&& forall|i: int| 0 <= i < k ==> fill_succeeded(fills@[i], #[trigger] unit_calls(calls, i))
                &&& first_error(calls) is None
            }),
        decreases fills.len() - k,
    {
        let ghost before = backend.row_calls();
        let ghost calls0 = before.skip(start.len() as int);
        let fill = fills[k];
        assert(!rect_empty(fills@[k as int].rect));
        let r = paint_profile_row_custom_fill(backend, fill.stage, &fill.rect, fill.color);
        let ghost seg = backend.row_calls().skip(before.len() as int);
        proof {
            let calls1 = backend.row_calls().skip(start.len() as int);
            assert(backend.row_calls() =~= before + seg);
            assert(calls1 =~= calls0 + seg);
            assert(backend.row_calls().take(start.len() as int) =~= start);
            lemma_first_error_append(calls0, seg);
            assert(calls1.skip(3 * k) =~= seg);
            assert forall|i: int| 0 <= i < k implies fill_succeeded(fills@[i], #[trigger] unit_calls(calls1, i)) by {
                assert(unit_calls(calls1, i) =~= unit_calls(calls0, i));
            }
        }
        match r {
            Err(e) => {
                proof {
                    let calls1 = backend.row_calls().skip(start.len() as int);
                    if fill_succeeded(fill, seg) {
                        lemma_fill_succeeded_no_error(fill, seg);
                    }
                    assert(fills_upto(fills@, calls1, k as int));
                }
                return Err(e);
            },
            Ok(()) => {
                proof {
                    let calls1 = backend.row_calls().skip(start.len() as int);
                    if !fill_succeeded(fill, seg) {
                        assert(fill_failed(fill, seg));
                        if seg.len() == 1 {
                            lemma_first_error_single(seg[0]);
                            assert(seg =~= seq![seg[0]]);
                        } else {
                            assert(seg.len() == 3);
                            let d1 = seg.drop_first();
                            assert(d1.len() == 2);
                            let d2 = d1.drop_first();
                            assert(d1[0] == seg[1]);
                            assert(d2 =~= seq![seg[2]]);
                            lemma_first_error_single(seg[2]);
                            assert(first_error(d2) == call_error(seg[2]));
                            assert(first_error(d1) == (if call_error(seg[1]) is Some { call_error(seg[1]) } else { first_error(d2) }));
                            assert(call_error(seg[0]) is None);
                            assert(first_error(seg) == first_error(d1));
                            assert(first_error(seg) is Some);
                        }
                    }
                    assert(unit_calls(calls1, k as int) =~= seg);
                }
            },
        }
        k = k + 1;
    }
    Ok(())
}

/// What a custom row paints with: the DPI, the palette and the body font.
#[derive(Clone, Copy, Debug, PartialEq, Eq, Structural)]
pub struct ProfileRowPaintResources {
    pub dpi: u32,
    pub palette: DialogPalette,
    pub body_font: usize,
}

pub open spec fn sc(value: int, dpi: u32) -> int {
    scaled_size(value, dpi as int)
}

/// The opaque surface of a row: the neutral surface, or the healthy green
/// tint over it for the selection.
pub open spec fn row_surface(palette: DialogPalette, role: ProfileRowSurfaceRole) -> u32 {
    match role {
        ProfileRowSurfaceRole::Neutral => palette.surface.colorref,
        ProfileRowSurfaceRole::Selected => composite(
            DialogColor { colorref: palette.healthy.colorref, opacity: SELECTED_ROW_TINT_OPACITY },
            palette.surface,
        ) as u32,
    }
}

/// The width of the selection edge, at least one pixel.
pub open spec fn edge_width(dpi: u32) -> int {
    if sc(SELECTION_EDGE as int, dpi) < 1 { 1 } else { sc(SELECTION_EDGE as int, dpi) }
}

/// The content keeps the outer padding from both sides and clears the
/// selection edge on the leading one.
pub open spec fn content_left(rect: LogicalRect, dpi: u32, rtl: bool) -> int {
    rect.left + (if rtl { sc(OUTER_PADDING as int, dpi) } else { sc(OUTER_PADDING as int, dpi) + edge_width(dpi) })
}

pub open spec fn content_right(rect: LogicalRect, dpi: u32, rtl: bool) -> int {
    rect.right - (if rtl { sc(OUTER_PADDING as int, dpi) + edge_width(dpi) } else { sc(OUTER_PADDING as int, dpi) })
}

/// The colored fills of a custom row: its surface, the selection edge on
/// the leading side when selected, and, when the content has room and the
/// row shows progress, the track five pixels above the bottom with the
/// filled share of the percentage in the status color, from the leading
/// side.
pub open spec fn custom_fills(rect: LogicalRect, profile: UsageProfileView, visuals: ProfileRowPaintResources, rtl: bool, selected: bool, focused: bool) -> Seq<RowFill> {
    let dpi = visuals.dpi;
    let palette = visuals.palette;
    let visual = row_visual(profile, selected, focused);
    let surface = row_surface(palette, visual.surface);
    let ew = edge_width(dpi);
    let edge = if rtl {
        lrect(rect.right - ew, rect.top as int, rect.right as int, rect.bottom as int)
    } else {
        lrect(rect.left as int, rect.top as int, rect.left + ew, rect.bottom as int)
    };
    let cl = content_left(rect, dpi, rtl);
    let cr = content_right(rect, dpi, rtl);
    seq![RowFill { stage: ProfileRowFillStage::Surface, rect, color: surface }]
        + (if selected {
        seq![RowFill { stage: ProfileRowFillStage::SelectionEdge, rect: edge, color: palette.focus.colorref }]
    } else {
        seq![]
    }) + (if cr > cl {
        match visual.progress {
            Some((percent, status)) => {
                let ph = if sc(PROGRESS_HEIGHT as int, dpi) < 1 { 1 } else { sc(PROGRESS_HEIGHT as int, dpi) };
                let pb = rect.bottom - sc(5, dpi);
                let fw = (cr - cl) * (if percent > 100 { 100 } else { percent as int }) / 100;
                seq![RowFill {
                    stage: ProfileRowFillStage::ProgressTrack,
                    rect: lrect(cl, pb - ph, cr, pb),
                    color: composite(palette.progress_track, opaque_color(surface)) as u32,
                }] + (if fw > 0 {
                    seq![RowFill {
                        stage: ProfileRowFillStage::ProgressFill,
                        rect: if rtl { lrect(cr - fw, pb - ph, cr, pb) } else { lrect(cl, pb - ph, cl + fw, pb) },
                        color: status_color(palette, status),
                    }]
                } else {
                    seq![]
                })
            },
            None => seq![],
        }
    } else {
        seq![]
    })
}

/// The text format of the row's name and markers.
pub open spec fn row_text_format(rtl: bool) -> u32 {
    if rtl { DT_SINGLELINE | DT_NOPREFIX | DT_RTLREADING | DT_RIGHT } else { DT_SINGLELINE | DT_NOPREFIX }
}

/// The text steps of a custom row, `w` being the measured marker width: the
/// body font, a transparent background and the text color; the marker
/// measurement; the name in its part of the first line; the secondary
/// color for the markers in theirs, when they have one, and for the
/// summary on the second line; and the focus rectangle one pixel inside
/// when focused.
pub open spec fn custom_text_steps(rect: LogicalRect, visuals: ProfileRowPaintResources, rtl: bool, focused: bool, w: int) -> Seq<RowStep> {
    let dpi = visuals.dpi;
    let palette = visuals.palette;
    let cl = content_left(rect, dpi, rtl);
    let cr = content_right(rect, dpi, rtl);
    let base = row_text_format(rtl);
    let layout = first_line(lrect(cl, rect.top + sc(5, dpi), cr, rect.top + sc(24, dpi)), w, dpi, rtl);
    seq![
        RowStep::SelectFont(visuals.body_font),
        RowStep::TransparentBackground,
        RowStep::TextColor(palette.text.colorref),
        RowStep::Measure,
        RowStep::Text(ProfileRowTextStage::Name, layout.name, base | DT_END_ELLIPSIS),
        RowStep::Recolor(palette.secondary_text.colorref),
    ] + (match layout.markers {
        Some(m) => seq![RowStep::Text(ProfileRowTextStage::Markers, m, base)],
        None => seq![],
    }) + seq![
        RowStep::Text(
            ProfileRowTextStage::Summary,
            lrect(cl, rect.top + sc(26, dpi), cr, rect.top + sc(45, dpi)),
            base | DT_END_ELLIPSIS,
        ),
    ] + (if focused { seq![RowStep::Focus(inset(rect, 1))] } else { seq![] })
}

/// The marker width that the fourth request measured.
pub open spec fn measured<E>(calls: Seq<RowCall<E>>) -> int {
    if calls.len() > 3 {
        match calls[3] {
            RowCall::Measure(_, Ok(w)) => w as int,
            _ => 0,
        }
    } else {
        0
    }
}

/// The arithmetic of a row stays far from the `i32` limits.
pub open spec fn row_paint_in_range(rect: LogicalRect, dpi: u32) -> bool {
    &&& row_rect_in_range(rect)
    &&& dpi <= 9600
}

proof fn lemma_row_scales(dpi: u32)
    requires
        dpi <= 9600,
    ensures
        3 <= sc(3, dpi) <= 301,
        5 <= sc(5, dpi) <= 501,
        16 <= sc(16, dpi) <= 1601,
        24 <= sc(24, dpi) <= 2401,
        26 <= sc(26, dpi) <= 2601,
        45 <= sc(45, dpi) <= 4501,
{
    lemma_scaled_size_bounds(3, dpi as int);
    lemma_scaled_size_bounds(5, dpi as int);
    lemma_scaled_size_bounds(16, dpi as int);
    lemma_scaled_size_bounds(24, dpi as int);
    lemma_scaled_size_bounds(26, dpi as int);
    lemma_scaled_size_bounds(45, dpi as int);
}

fn scaled(value: i32, dpi: u32) -> (r: i32)
    requires
        0 <= value <= 45,
        dpi <= 9600,
    ensures
        r == sc(value as int, dpi),
        value <= r <= 100 * value + 1,
{
    proof {
        lemma_scaled_size_bounds(value as int, dpi as int);
    }
    scale_logical(value, dpi)
}

/// The content edges of a row, as the painters compute them.
fn content_edges(rect: LogicalRect, dpi: u32, rtl: bool) -> (r: (i32, i32))
    requires
        row_paint_in_range(rect, dpi),
    ensures
        r.0 == content_left(rect, dpi, rtl),
        r.1 == content_right(rect, dpi, rtl),
{
    let edge = scaled(SELECTION_EDGE, dpi);
    let padding = profile_row_content_padding(dpi);
    proof {
        lemma_scaled_size_bounds(OUTER_PADDING as int, dpi as int);
    }
    let leading = padding + edge;
    let left = rect.left + if rtl { padding } else { leading };
    let right = rect.right - if rtl { leading } else { padding };
    (left, right)
}

/// Paints the texts of a custom row: the steps of `custom_text_steps`,
/// with the marker width that was measured, up to the first failure; then
/// every changed setting is put back. The result is the first failure.
#[verifier::spinoff_prover]
#[verifier::rlimit(60)]
fn paint_row_text<B: ProfileRowPaintBackend>(backend: &mut B, rect: LogicalRect, visuals: ProfileRowPaintResources, rtl: bool, focused: bool, texts: &RowTexts) -> (r: Result<(), B::Error>)
    requires
        row_paint_in_range(rect, visuals.dpi),
    ensures
        extends(old(backend).row_calls(), final(backend).row_calls()),
        ({
            let calls = final(backend).row_calls().skip(old(backend).row_calls().len() as int);
            &&& row_run(custom_text_steps(rect, visuals, rtl, focused, measured(calls)), texts@, calls)
            &&& r == outcome(first_error(calls))
        }),
{
    let ghost start = backend.row_calls();
    let dpi = visuals.dpi;
    let palette = visuals.palette;
    proof {
        lemma_row_scales(dpi);
    }
    let (left, right) = content_edges(rect, dpi, rtl);
    let mut prefix: Vec<RowStep> = Vec::new();
    prefix.push(RowStep::SelectFont(visuals.body_font));
    prefix.push(RowStep::TransparentBackground);
    prefix.push(RowStep::TextColor(palette.text.colorref));
    prefix.push(RowStep::Measure);
    let mut held: Vec<HeldSetting> = Vec::new();
    assert(backend.row_calls().take(start.len() as int) =~= start);
    let r1 = run_row_steps(backend, &prefix, texts, &mut held);
    let ghost c1 = backend.row_calls().skip(start.len() as int);
    let ghost after1 = backend.row_calls();
    assert(after1 =~= start + c1);
    let width = match r1 {
        Ok(StepAnswer::Width(w)) => w,
        Ok(_) => 0,
        Err(e) => {
            let restored = restore_profile_row_text_state(backend, &held);
            proof {
                let c3 = backend.row_calls().skip(after1.len() as int);
                let all = backend.row_calls();
                let calls = all.skip(start.len() as int);
                assert(all =~= after1 + c3);
                assert(calls =~= c1 + c3);
                assert(all.take(start.len() as int) =~= start);
                let steps = custom_text_steps(rect, visuals, rtl, focused, measured(calls));
                let m = c1.len() as int;
                assert forall|j: int| 0 <= j < m implies steps[j] == prefix@[j] by {}
                assert forall|j: int| 0 <= j < m implies row_call_is(steps[j], #[trigger] calls[j], texts@) by {
                    assert(calls[j] == c1[j]);
                }
                assert forall|j: int| 0 <= j < m - 1 implies call_error(#[trigger] calls[j]) is None by {
                    assert(calls[j] == c1[j]);
                }
                assert(calls[m - 1] == c1.last());
                lemma_row_held_steps(steps, prefix@, calls, m);
                lemma_row_held_prefix(prefix@, calls, c1, m);
                assert(held@ =~= row_held(prefix@, c1, m));
                assert(calls.skip(m) =~= c3);
                assert(row_run_upto(steps, texts@, calls, m));
                lemma_steps_done_first_error(prefix@, texts@, c1, r1);
                lemma_first_error_append(c1, c3);
            }
            return Err(e);
        },
    };
    proof {
        assert(c1.len() == 4);
        assert(row_call_is(RowStep::Measure, c1[3], texts@));
        assert(measured(c1) == width);
    }
    let format = directional_profile_text_format(rtl);
    let line = LogicalRect::new(left, rect.top + scaled(5, dpi), right, rect.top + scaled(24, dpi));
    let layout = profile_row_first_line_layout(line, width, dpi, rtl);
    let mut rest: Vec<RowStep> = Vec::new();
    rest.push(RowStep::Text(ProfileRowTextStage::Name, layout.name, format | DT_END_ELLIPSIS));
    rest.push(RowStep::Recolor(palette.secondary_text.colorref));
    match layout.markers {
        Some(m) => rest.push(RowStep::Text(ProfileRowTextStage::Markers, m, format)),
        None => {},
    }
    rest.push(RowStep::Text(
        ProfileRowTextStage::Summary,
        LogicalRect::new(left, rect.top + scaled(26, dpi), right, rect.top + scaled(45, dpi)),
        format | DT_END_ELLIPSIS,
    ));
    if focused {
        rest.push(RowStep::Focus(LogicalRect::new(rect.left + 1, rect.top + 1, rect.right - 1, rect.bottom - 1)));
    }
    let ghost steps = custom_text_steps(rect, visuals, rtl, focused, width as int);
    assert(steps =~= prefix@ + rest@);
    let r2 = run_row_steps(backend, &rest, texts, &mut held);
    let ghost c2 = backend.row_calls().skip(after1.len() as int);
    let ghost after2 = backend.row_calls();
    let restored = restore_profile_row_text_state(backend, &held);
    proof {
        let c3 = backend.row_calls().skip(after2.len() as int);
        let all = backend.row_calls();
        let calls = all.skip(start.len() as int);
        assert(after2 =~= after1 + c2);
        assert(all =~= after2 + c3);
        assert(calls =~= c1 + c2 + c3);
        assert(all.take(start.len() as int) =~= start);
        assert(calls[3] == c1[3]);
        assert(measured(calls) == width);
        let m: int = 4 + c2.len() as int;
        lemma_row_held_append(prefix@, rest@, c1, c2 + c3, c2.len() as int);
        lemma_row_held_prefix(rest@, c2 + c3, c2, c2.len() as int);
        assert(c1 + (c2 + c3) =~= calls);
        assert(held@ =~= row_held(prefix@, c1, 4) + row_held(rest@, c2, c2.len() as int));
        assert(calls.skip(m) =~= c3);
        assert forall|j: int| 0 <= j < m implies row_call_is(steps[j], #[trigger] calls[j], texts@) by {
            if j < 4 {
                assert(calls[j] == c1[j]);
            } else {
                assert(calls[j] == c2[j - 4]);
            }
        }
        assert forall|j: int| 0 <= j < m - 1 implies call_error(#[trigger] calls[j]) is None by {
            if j < 4 {
                assert(calls[j] == c1[j]);
            } else {
                assert(calls[j] == c2[j - 4]);
            }
        }
        if m < steps.len() {
            assert(calls[m - 1] == c2.last());
        }
        assert(row_run_upto(steps, texts@, calls, m));
        lemma_steps_done_first_error(prefix@, texts@, c1, r1);
        lemma_steps_done_first_error(rest@, texts@, c2, r2);
        lemma_first_error_append(c1, c2 + c3);
        lemma_first_error_append(c2, c3);
    }
    match r2 {
        Err(e) => Err(e),
        Ok(_) => restored,
    }
}

/// Why a custom row could not be painted.
#[derive(Debug)]
pub enum RowPaintError<E> {
    /// An empty rectangle or a null body font; nothing was requested.
    InvalidTarget,
    /// A request failed.
    Backend(E),
}

/// The texts of a custom row: its name, its markers joined by " · ", and
/// its summary.
pub open spec fn custom_texts(copy: ProfileManagerRowText) -> RowTextsView {
    RowTextsView {
        name: copy.name@,
        markers: join_with(copy.markers@.map_values(|m: &'static str| m@), " · "@),
        summary: copy.summary@,
        fallback: copy.summary@,
    }
}

/// A custom row can be painted: a non-empty rectangle and a body font.
pub open spec fn row_paint_target(rect: LogicalRect, body_font: usize) -> bool {
    !rect_empty(rect) && body_font != 0
}

/// The requests of a custom row: its fills in order up to the first that
/// fails; or all of them and then, when the content has room, the text
/// steps with the measured marker width.
pub open spec fn custom_row_run<E>(
    rect: LogicalRect,
    profile: UsageProfileView,
    texts: RowTextsView,
    visuals: ProfileRowPaintResources,
    rtl: bool,
    selected: bool,
    focused: bool,
    calls: Seq<RowCall<E>>,
) -> bool {
    let fills = custom_fills(rect, profile, visuals, rtl, selected, focused);
    let n = 3 * fills.len();
    ||| exists|k: int| k < fills.len() && #[trigger] fills_upto(fills, calls, k)
    ||| {
        &&& n <= calls.len()
        &&& fills_upto(fills, calls.take(n as int), fills.len() as int)
        &&& if content_right(rect, visuals.dpi, rtl) <= content_left(rect, visuals.dpi, rtl) {
            calls.len() == n
        } else {
            row_run(
                custom_text_steps(rect, visuals, rtl, focused, measured(calls.skip(n as int))),
                texts,
                calls.skip(n as int),
            )
        }
    }
}

/// `Ok` without an error, else the error of the request.
pub open spec fn backend_outcome<E>(error: Option<E>) -> Result<(), RowPaintError<E>> {
    match error {
        Some(e) => Err(RowPaintError::Backend(e)),
        None => Ok(()),
    }
}

/// Custom paints a profile row: its surface (tinted when selected), the
/// selection edge, the usage track and fill, the name and role markers on
/// the first line and the summary on the second, and the focus rectangle.
/// Every device-context setting it changes is put back, and the result is
/// the first failure. Nothing is requested for an empty rectangle or a null
/// font.
#[verifier::spinoff_prover]
#[verifier::rlimit(60)]
pub fn paint_profile_row_custom<B: ProfileRowPaintBackend>(
    backend: &mut B,
    rect: LogicalRect,
    profile: &UsageProfileView,
    copy: &ProfileManagerRowText,
    visuals: ProfileRowPaintResources,
    rtl: bool,
    selected: bool,
    focused: bool,
) -> (r: Result<(), RowPaintError<B::Error>>)
    requires
        row_paint_in_range(rect, visuals.dpi),
    ensures
        extends(old(backend).row_calls(), final(backend).row_calls()),
        ({
            let calls = final(backend).row_calls().skip(old(backend).row_calls().len() as int);
            &&& !row_paint_target(rect, visuals.body_font) ==> calls.len() == 0 && r is Err && r->Err_0 is InvalidTarget
            &&& row_paint_target(rect, visuals.body_font) ==> custom_row_run(rect, *profile, custom_texts(*copy), visuals, rtl, selected, focused, calls)
                && r == backend_outcome(first_error(calls))
        }),
{
    let ghost start = backend.row_calls();
    if rect.right <= rect.left || rect.bottom <= rect.top || visuals.body_font == 0 {
        assert(backend.row_calls().skip(start.len() as int) =~= seq![]);
        assert(backend.row_calls().take(start.len() as int) =~= start);
        return Err(RowPaintError::InvalidTarget);
    }
    let dpi = visuals.dpi;
    let palette = visuals.palette;
    proof {
        lemma_row_scales(dpi);
    }
    let visual = profile_row_visual_state(profile, selected, focused);
    let surface_color = profile_row_surface_color(palette, visual.surface);
    let edge_width = scaled(SELECTION_EDGE, dpi);
    let (left, right) = content_edges(rect, dpi, rtl);
    let mut fills: Vec<RowFill> = Vec::new();
    fills.push(RowFill { stage: ProfileRowFillStage::Surface, rect, color: surface_color });
    if selected {
        let edge = if rtl {
            LogicalRect::new(rect.right - edge_width, rect.top, rect.right, rect.bottom)
        } else {
            LogicalRect::new(rect.left, rect.top, rect.left + edge_width, rect.bottom)
        };
        fills.push(RowFill { stage: ProfileRowFillStage::SelectionEdge, rect: edge, color: palette.focus.colorref });
    }
    if right > left {
        match visual.progress {
            Some((percent, status)) => {
                let progress_height = scaled(PROGRESS_HEIGHT, dpi);
                let progress_bottom = rect.bottom - scaled(5, dpi);
                let track = LogicalRect::new(left, progress_bottom - progress_height, right, progress_bottom);
                let track_color = composite_dialog_color(palette.progress_track, DialogColor::opaque(surface_color));
                fills.push(RowFill { stage: ProfileRowFillStage::ProgressTrack, rect: track, color: track_color });
                let capped: i64 = if percent > 100 { 100 } else { percent as i64 };
                let track_width = (right - left) as i64;
                assert(0 <= track_width * capped <= 0x4000_0000 * 100) by (nonlinear_arith)
                    requires
                        0 < track_width <= 0x4000_0000,
                        0 <= capped <= 100,
                ;
                assert(track_width * capped / 100 <= track_width) by (nonlinear_arith)
                    requires
                        0 < track_width,
                        0 <= capped <= 100,
                ;
                let fill_width = (track_width * capped / 100) as i32;
                if fill_width > 0 {
                    let filled = if rtl {
                        LogicalRect::new(right - fill_width, track.top, right, progress_bottom)
                    } else {
                        LogicalRect::new(left, track.top, left + fill_width, progress_bottom)
                    };
                    fills.push(RowFill { stage: ProfileRowFillStage::ProgressFill, rect: filled, color: palette.status(status) });
                }
            },
            None => {},
        }
    }
    assert(fills@ =~= custom_fills(rect, *profile, visuals, rtl, selected, focused));
    assert(backend.row_calls().take(start.len() as int) =~= start);
    let filled = paint_row_fills(backend, &fills);
    let ghost cf = backend.row_calls().skip(start.len() as int);
    let ghost after_fills = backend.row_calls();
    assert(after_fills =~= start + cf);
    match filled {
        Err(e) => {
            proof {
                let k = choose|k: int| k < fills.len() && #[trigger] fills_upto(fills@, cf, k);
                assert(fills_upto(fills@, cf, k));
            }
            return Err(RowPaintError::Backend(e));
        },
        Ok(()) => {},
    }
    proof {
        assert(cf.take(3 * fills.len()) =~= cf);
    }
    if right <= left {
        return Ok(());
    }
    let marker_text = join_str(&copy.markers, " · ");
    let texts = RowTexts {
        name: copy.name.as_str(),
        markers: marker_text.as_str(),
        summary: copy.summary.as_str(),
        fallback: copy.summary.as_str(),
    };
    proof {
        assert(texts@ == custom_texts(*copy));
    }
    let painted = paint_row_text(backend, rect, visuals, rtl, focused, &texts);
    proof {
        let all = backend.row_calls();
        let ct = all.skip(after_fills.len() as int);
        let calls = all.skip(start.len() as int);
        assert(all =~= after_fills + ct);
        assert(calls =~= cf + ct);
        assert(all.take(start.len() as int) =~= start);
        let n = 3 * fills.len();
        assert(calls.take(n as int) =~= cf);
        assert(calls.skip(n as int) =~= ct);
        lemma_first_error_append(cf, ct);
    }
    match painted {
        Err(e) => Err(RowPaintError::Backend(e)),
        Ok(()) => Ok(()),
    }
}

/// The first `p` requests are the custom painter's and the rest the
/// fallback's, which runs only when the custom painter did not succeed;
/// the row is `handled` when either succeeded.
pub open spec fn row_with_fallback_split<E>(
    rect: LogicalRect,
    profile: UsageProfileView,
    texts: RowTextsView,
    accessible_text: &str,
    visuals: ProfileRowPaintResources,
    rtl: bool,
    selected: bool,
    focused: bool,
    calls: Seq<RowCall<E>>,
    p: int,
    handled: bool,
) -> bool {
    let custom = calls.take(p);
    let fallback = calls.skip(p);
    let custom_ok = row_paint_target(rect, visuals.body_font) && first_error(custom) is None;
    &&& 0 <= p <= calls.len()
    &&& !row_paint_target(rect, visuals.body_font) ==> custom.len() == 0
    &&& row_paint_target(rect, visuals.body_font) ==> custom_row_run(rect, profile, texts, visuals, rtl, selected, focused, custom)
    &&& if custom_ok {
        fallback.len() == 0 && handled
    } else {
        &&& row_run(
            fallback_steps(rect, rtl, selected, focused, answered_color(fallback), answered_font(fallback)),
            fallback_texts(accessible_text),
            fallback,
        )
        &&& handled == (first_error(fallback) is None)
    }
}

/// Paints a profile row with the custom painter and, when that fails, with
/// the stock fallback; `true` only when one of them finished every request
/// and every restore, so a failed owner-drawn row is not reported as
/// handled.
pub fn paint_profile_row_with_fallback<B: ProfileRowPaintBackend>(
    backend: &mut B,
    rect: LogicalRect,
    profile: &UsageProfileView,
    copy: &ProfileManagerRowText,
    accessible_text: &str,
    visuals: ProfileRowPaintResources,
    rtl: bool,
    selected: bool,
    focused: bool,
) -> (handled: bool)
    requires
        row_paint_in_range(rect, visuals.dpi),
    ensures
        extends(old(backend).row_calls(), final(backend).row_calls()),
        exists|p: int| #[trigger] row_with_fallback_split(
            rect,
            *profile,
            custom_texts(*copy),
            accessible_text,
            visuals,
            rtl,
            selected,
            focused,
            final(backend).row_calls().skip(old(backend).row_calls().len() as int),
            p,
            handled,
        ),
{
    let ghost start = backend.row_calls();
    let custom = paint_profile_row_custom(backend, rect, profile, copy, visuals, rtl, selected, focused);
    let ghost cc = backend.row_calls().skip(start.len() as int);
    let ghost after = backend.row_calls();
    assert(after =~= start + cc);
    match custom {
        Ok(()) => {
            proof {
                let calls = backend.row_calls().skip(start.len() as int);
                assert(calls.take(cc.len() as int) =~= cc);
                assert(calls.skip(cc.len() as int) =~= seq![]);
                assert(row_with_fallback_split(rect, *profile, custom_texts(*copy), accessible_text, visuals, rtl, selected, focused, calls, cc.len() as int, true));
            }
            true
        },
        Err(_) => {
            let fallback = paint_profile_row_fallback(backend, rect, accessible_text, rtl, selected, focused);
            let handled = fallback.is_ok();
            proof {
                let all = backend.row_calls();
                let cb = all.skip(after.len() as int);
                let calls = all.skip(start.len() as int);
                assert(all =~= after + cb);
                assert(calls =~= cc + cb);
                assert(all.take(start.len() as int) =~= start);
                assert(calls.take(cc.len() as int) =~= cc);
                assert(calls.skip(cc.len() as int) =~= cb);
                assert(row_with_fallback_split(rect, *profile, custom_texts(*copy), accessible_text, visuals, rtl, selected, focused, calls, cc.len() as int, handled));
            }
            handled
        },
    }
}

/// A row run in which no request failed carried out every step in order
/// and then put back every setting it had changed, newest first.
pub proof fn lemma_successful_row_run_is_complete<E>(steps: Seq<RowStep>, texts: RowTextsView, calls: Seq<RowCall<E>>)
    requires
        row_run(steps, texts, calls),
        first_error(calls) is None,
    ensures
        steps.len() <= calls.len(),
        forall|j: int| 0 <= j < steps.len() ==> row_call_is(steps[j], #[trigger] calls[j], texts),
        restores_all(row_held(steps, calls, steps.len() as int), calls.skip(steps.len() as int)),
{
    let m = choose|m: int| row_run_upto(steps, texts, calls, m);
    if m < steps.len() {
        lemma_first_error_is_none_everywhere(calls);
        assert(call_error(calls[m - 1]) is Some);
    }
}

/// Without a first error, no request failed.
pub proof fn lemma_first_error_is_none_everywhere<E>(calls: Seq<RowCall<E>>)
    requires
        first_error(calls) is None,
    ensures
        forall|j: int| 0 <= j < calls.len() ==> call_error(#[trigger] calls[j]) is None,
    decreases calls.len(),
{
    if calls.len() > 0 {
        assert(call_error(calls[0]) is None);
        lemma_first_error_is_none_everywhere(calls.drop_first());
        assert forall|j: int| 0 <= j < calls.len() implies call_error(#[trigger] calls[j]) is None by {
            if j > 0 {
                assert(calls[j] == calls.drop_first()[j - 1]);
            }
        }
    }
}

/// A custom row painted without any failure made every fill of its plan
/// and, when its content has room, every text step.
pub proof fn lemma_successful_custom_row_is_complete<E>(
    rect: LogicalRect,
    profile: UsageProfileView,
    texts: RowTextsView,
    visuals: ProfileRowPaintResources,
    rtl: bool,
    selected: bool,
    focused: bool,
    calls: Seq<RowCall<E>>,
)
    requires
        custom_row_run(rect, profile, texts, visuals, rtl, selected, focused, calls),
        first_error(calls) is None,
    ensures
        ({
            let fills = custom_fills(rect, profile, visuals, rtl, selected, focused);
            let n = 3 * fills.len();
            &&& n <= calls.len()
            &&& forall|i: int| 0 <= i < fills.len() ==> fill_succeeded(fills[i], #[trigger] unit_calls(calls, i))
            &&& content_right(rect, visuals.dpi, rtl) > content_left(rect, visuals.dpi, rtl) ==> {
                let steps = custom_text_steps(rect, visuals, rtl, focused, measured(calls.skip(n as int)));
                &&& steps.len() <= calls.len() - n
                &&& forall|j: int| 0 <= j < steps.len() ==> row_call_is(steps[j], #[trigger] calls[n + j], texts)
            }
        }),
{
    let fills = custom_fills(rect, profile, visuals, rtl, selected, focused);
    let n = 3 * fills.len();
    lemma_first_error_is_none_everywhere(calls);
    if exists|k: int| k < fills.len() && #[trigger] fills_upto(fills, calls, k) {
        let k = choose|k: int| k < fills.len() && #[trigger] fills_upto(fills, calls, k);
        let seg = calls.skip(3 * k);
        assert(fill_failed(fills[k], seg));
        assert(seg[0] == calls[3 * k]);
        if seg.len() == 3 {
            assert(seg[1] == calls[3 * k + 1]);
            assert(seg[2] == calls[3 * k + 2]);
        }
    } else {
        let head = calls.take(n as int);
        assert forall|i: int| 0 <= i < fills.len() implies fill_succeeded(fills[i], #[trigger] unit_calls(calls, i)) by {
            assert(fill_succeeded(fills[i], unit_calls(head, i)));
            assert(unit_calls(head, i) =~= unit_calls(calls, i));
        }
        if content_right(rect, visuals.dpi, rtl) > content_left(rect, visuals.dpi, rtl) {
            let tail = calls.skip(n as int);
            let steps = custom_text_steps(rect, visuals, rtl, focused, measured(tail));
            lemma_first_error_is_none_everywhere(calls);
            assert forall|j: int| 0 <= j < tail.len() implies call_error(#[trigger] tail[j]) is None by {
                assert(tail[j] == calls[n + j]);
            }
            lemma_first_error_is_earliest_none(tail);
            lemma_successful_row_run_is_complete(steps, texts, tail);
            assert forall|j: int| 0 <= j < steps.len() implies row_call_is(steps[j], #[trigger] calls[n + j], texts) by {
                assert(tail[j] == calls[n + j]);
            }
        }
    }
}

/// With no failed request there is no first error.
pub proof fn lemma_first_error_is_earliest_none<E>(calls: Seq<RowCall<E>>)
    requires
        forall|j: int| 0 <= j < calls.len() ==> call_error(#[trigger] calls[j]) is None,
    ensures
        first_error(calls) is None,
    decreases calls.len(),
{
    if calls.len() > 0 {
        assert(call_error(calls[0]) is None);
        assert forall|j: int| 0 <= j < calls.drop_first().len() implies call_error(#[trigger] calls.drop_first()[j]) is None by {
            assert(calls.drop_first()[j] == calls[j + 1]);
        }
        lemma_first_error_is_earliest_none(calls.drop_first());
    }
}

} // verus!
