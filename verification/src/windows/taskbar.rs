//! Placement of the widget on the taskbar and the attachment policies.

use vstd::prelude::*;

use super::taskbar_widget::{TASKBAR_MIN_WIDTH_LOGICAL, TASKBAR_WIDTH_LOGICAL};
use super::widget::{logical_to_physical, physical, Rect};
use crate::text::{join_comma, join_strings, push_char, string_from};

verus! {

/// `v` clamped to the range of `i32`, as the saturating operations give.
pub open spec fn saturate(v: int) -> int {
    if v < i32::MIN {
        i32::MIN as int
    } else if v > i32::MAX {
        i32::MAX as int
    } else {
        v
    }
}

/// `a - b`, saturating at the bounds of `i32`.
pub fn saturating_sub(a: i32, b: i32) -> (r: i32)
    ensures
        r == saturate(a - b),
{
    let d = a as i64 - b as i64;
    if d < i32::MIN as i64 {
        i32::MIN
    } else if d > i32::MAX as i64 {
        i32::MAX
    } else {
        d as i32
    }
}

/// `a + b`, saturating at the bounds of `i32`.
pub fn saturating_add(a: i32, b: i32) -> (r: i32)
    ensures
        r == saturate(a + b),
{
    let d = a as i64 + b as i64;
    if d < i32::MIN as i64 {
        i32::MIN
    } else if d > i32::MAX as i64 {
        i32::MAX
    } else {
        d as i32
    }
}

const WS_CHILD_VALUE: u32 = 0x4000_0000;
const WS_POPUP_VALUE: u32 = 0x8000_0000;
const WS_CLIPSIBLINGS_VALUE: u32 = 0x0400_0000;

/// Screen coordinates of the taskbar, of its notification area and of the
/// task-button area that the widget must not cover.
#[derive(Clone, Copy, Debug, PartialEq, Eq, Structural)]
pub struct TaskbarGeometry {
    pub taskbar: Rect,
    pub notification: Rect,
    pub occupied: Option<Rect>,
}

/// Why the widget cannot be placed on the taskbar.
#[derive(Clone, Copy, Debug, PartialEq, Eq, Structural)]
pub enum TaskbarPlacementError {
    VerticalTaskbar,
    InsufficientSpace,
}

/// The right edge of the widget: the notification area's left edge minus the
/// offset.
pub open spec fn placement_right(geometry: TaskbarGeometry, offset: int) -> int {
    saturate(geometry.notification.left - offset)
}

/// The left edge of the widget: its preferred position against the right
/// edge, pushed right past the occupied task buttons and the taskbar start.
pub open spec fn placement_left(geometry: TaskbarGeometry, width: int, offset: int) -> int {
    let right = placement_right(geometry, offset);
    let preferred = saturate(right - width);
    let occupied = match geometry.occupied {
        Some(o) => o.right as int,
        None => geometry.taskbar.left as int,
    };
    let occupied = if occupied >= geometry.taskbar.left {
        occupied
    } else {
        geometry.taskbar.left as int
    };
    if preferred >= occupied {
        preferred
    } else {
        occupied
    }
}

/// The outcome of placing a widget of `size` with at least `minimum_width`
/// at `offset` from the notification area.
pub open spec fn placement(
    geometry: TaskbarGeometry,
    size: (i32, i32),
    minimum_width: int,
    offset: int,
) -> Result<Rect, TaskbarPlacementError> {
    let right = placement_right(geometry, offset);
    let left = placement_left(geometry, size.0 as int, offset);
    if offset < 0 {
        Err(TaskbarPlacementError::InsufficientSpace)
    } else if geometry.taskbar.spec_height() > geometry.taskbar.spec_width() {
        Err(TaskbarPlacementError::VerticalTaskbar)
    } else if size.0 <= 0 || size.1 <= 0 || minimum_width <= 0 || minimum_width > size.0
        || saturate(right - left) < minimum_width || left < geometry.taskbar.left || right
        > geometry.taskbar.right || size.1 > geometry.taskbar.spec_height() {
        Err(TaskbarPlacementError::InsufficientSpace)
    } else {
        Ok(
            Rect {
                left: left as i32,
                top: geometry.taskbar.top,
                right: right as i32,
                bottom: (geometry.taskbar.top + size.1) as i32,
            },
        )
    }
}

/// Places the widget as a child of a horizontal taskbar, ending before the
/// notification area and starting after the occupied task buttons.
///
/// On success the widget lies inside the taskbar, leaves the notification
/// area and the occupied buttons uncovered, is at least `minimum_width` wide
/// and at most its requested width, and has its requested height.
pub fn place_taskbar_widget(
    geometry: TaskbarGeometry,
    widget_size: (i32, i32),
    minimum_width: i32,
    offset: i32,
) -> (r: Result<Rect, TaskbarPlacementError>)
    requires
        i32::MIN <= geometry.taskbar.spec_width() <= i32::MAX,
        i32::MIN <= geometry.taskbar.spec_height() <= i32::MAX,
    ensures
        r == placement(geometry, widget_size, minimum_width as int, offset as int),
        r matches Ok(rect) ==> {
            &&& rect.spec_is_inside(geometry.taskbar)
            &&& rect.right <= geometry.notification.left
            &&& (geometry.occupied matches Some(o) ==> rect.left >= o.right)
            &&& minimum_width <= rect.spec_width() <= widget_size.0
            &&& rect.spec_height() == widget_size.1
            &&& rect.top == geometry.taskbar.top
        },
{
    if offset < 0 {
        return Err(TaskbarPlacementError::InsufficientSpace);
    }
    if geometry.taskbar.height() > geometry.taskbar.width() {
        return Err(TaskbarPlacementError::VerticalTaskbar);
    }
    let right = saturating_sub(geometry.notification.left, offset);
    let preferred_left = saturating_sub(right, widget_size.0);
    let occupied = match geometry.occupied {
        Some(occupied) => occupied.right,
        None => geometry.taskbar.left,
    };
    let occupied_right = if occupied >= geometry.taskbar.left {
        occupied
    } else {
        geometry.taskbar.left
    };
    let left = if preferred_left >= occupied_right {
        preferred_left
    } else {
        occupied_right
    };
    if widget_size.0 <= 0 || widget_size.1 <= 0 || minimum_width <= 0 || minimum_width
        > widget_size.0 || saturating_sub(right, left) < minimum_width || left
        < geometry.taskbar.left || right > geometry.taskbar.right || widget_size.1
        > geometry.taskbar.height() {
        return Err(TaskbarPlacementError::InsufficientSpace);
    }
    Ok(
        Rect::new(
            left,
            geometry.taskbar.top,
            right,
            geometry.taskbar.top + widget_size.1,
        ),
    )
}

/// The narrowest physical width the widget may shrink to at `dpi`.
pub fn taskbar_widget_minimum_width(dpi: u32) -> (r: i32)
    ensures
        r == #[verifier::truncate] (physical(TASKBAR_MIN_WIDTH_LOGICAL as int, dpi as int) as i32),
{
    logical_to_physical(TASKBAR_MIN_WIDTH_LOGICAL, dpi)
}

/// The physical size of the compact widget on a taskbar of the given
/// physical height: the default width, and the taskbar height capped at 48
/// logical pixels. Taskbars lower than 36 logical pixels are refused.
pub fn taskbar_widget_size(taskbar_height: i32, dpi: u32) -> (r: Result<(i32, i32), TaskbarPlacementError>)
    ensures
        ({
            let minimum = #[verifier::truncate] (physical(36, dpi as int) as i32);
            let cap = #[verifier::truncate] (physical(48, dpi as int) as i32);
            let width = #[verifier::truncate] (physical(TASKBAR_WIDTH_LOGICAL as int, dpi as int) as i32);
            if taskbar_height < minimum {
                r == Err::<(i32, i32), TaskbarPlacementError>(TaskbarPlacementError::InsufficientSpace)
            } else {
                r == Ok::<(i32, i32), TaskbarPlacementError>((width, if taskbar_height <= cap { taskbar_height } else { cap }))
            }
        }),
{
    let minimum_height = logical_to_physical(36, dpi);
    if taskbar_height < minimum_height {
        Err(TaskbarPlacementError::InsufficientSpace)
    } else {
        let cap = logical_to_physical(48, dpi);
        Ok((logical_to_physical(TASKBAR_WIDTH_LOGICAL, dpi), if taskbar_height <= cap {
            taskbar_height
        } else {
            cap
        }))
    }
}

/// The window style of a taskbar child: the popup flag cleared, the child
/// and sibling-clipping flags set, every other flag kept.
pub open spec fn child_style(previous: u32) -> u32 {
    (previous & !0x8000_0000u32) | 0x4000_0000u32 | 0x0400_0000u32
}

/// Converts a top-level window style into the style of a taskbar child.
fn taskbar_child_style(previous_style: u32) -> (r: u32)
    ensures
        r == child_style(previous_style),
        r & WS_POPUP_VALUE == 0,
        r & WS_CHILD_VALUE == WS_CHILD_VALUE,
        r & WS_CLIPSIBLINGS_VALUE == WS_CLIPSIBLINGS_VALUE,
        r & !(WS_POPUP_VALUE | WS_CHILD_VALUE | WS_CLIPSIBLINGS_VALUE) == previous_style & !(
        WS_POPUP_VALUE | WS_CHILD_VALUE | WS_CLIPSIBLINGS_VALUE),
{
    let r = (previous_style & !WS_POPUP_VALUE) | WS_CHILD_VALUE | WS_CLIPSIBLINGS_VALUE;
    assert(r & 0x8000_0000u32 == 0 && r & 0x4000_0000u32 == 0x4000_0000u32 && r & 0x0400_0000u32
        == 0x0400_0000u32 && r & !(0x8000_0000u32 | 0x4000_0000u32 | 0x0400_0000u32)
        == previous_style & !(0x8000_0000u32 | 0x4000_0000u32 | 0x0400_0000u32)) by (bit_vector)
        requires
            r == (previous_style & !0x8000_0000u32) | 0x4000_0000u32 | 0x0400_0000u32,
    ;
    r
}


/// A step of the taskbar attachment transaction.
#[derive(Clone, Copy, Debug, PartialEq, Eq, Structural)]
pub enum TaskbarAttachmentStage {
    ReadOriginalStyle,
    ReadOriginalParent,
    ApplyChildStyle,
    VerifyChildStyle,
    SetParent,
    VerifyParent,
    SetPosition,
}

/// One window operation of an attachment backend, with what it returned.
/// Parents are window handles; `None` is the desktop (a top-level window).
pub enum AttachmentCall {
    ReadStyle(Result<u32, String>),
    ReadParent(Result<Option<usize>, String>),
    SetStyle(u32, Result<(), String>),
    SetParent(Option<usize>, Result<(), String>),
    SetPosition(Result<(), String>),
    RefreshFrame(Result<(), String>),
}

/// The window operations that the attachment transaction needs. Each
/// operation records itself, with its result, at the end of `calls`, which
/// is how the transaction's contract describes what it did.
pub trait TaskbarAttachmentBackend {
    /// The operations performed so far, in order.
    spec fn calls(&self) -> Seq<AttachmentCall>;

    /// Reads the current window style.
    fn read_style(&mut self) -> (r: Result<u32, String>)
        ensures
            final(self).calls() == old(self).calls().push(AttachmentCall::ReadStyle(r)),
    ;

    /// Reads the current parent; `None` for a top-level window.
    fn read_parent(&mut self) -> (r: Result<Option<usize>, String>)
        ensures
            final(self).calls() == old(self).calls().push(AttachmentCall::ReadParent(r)),
    ;

    /// Sets the window style.
    fn set_style(&mut self, style: u32) -> (r: Result<(), String>)
        ensures
            final(self).calls() == old(self).calls().push(AttachmentCall::SetStyle(style, r)),
    ;

    /// Sets the parent; `None` makes the window top-level again.
    fn set_parent(&mut self, parent: Option<usize>) -> (r: Result<(), String>)
        ensures
            final(self).calls() == old(self).calls().push(AttachmentCall::SetParent(parent, r)),
    ;

    /// Applies the computed taskbar position and frame change.
    fn set_position(&mut self) -> (r: Result<(), String>)
        ensures
            final(self).calls() == old(self).calls().push(AttachmentCall::SetPosition(r)),
    ;

    /// Recomputes the non-client frame of a restored style.
    fn refresh_frame(&mut self) -> (r: Result<(), String>)
        ensures
            final(self).calls() == old(self).calls().push(AttachmentCall::RefreshFrame(r)),
    ;
}

/// A failed attachment: the first failing step, its error, and the errors of
/// the rollback when restoring the original parent and style also failed.
#[derive(Clone, Debug, PartialEq, Eq)]
pub struct TaskbarAttachmentError {
    failed_stage: TaskbarAttachmentStage,
    operation_error: String,
    rollback_error: Option<String>,
}

impl TaskbarAttachmentError {
    pub closed spec fn spec_failed_stage(&self) -> TaskbarAttachmentStage {
        self.failed_stage
    }

    pub closed spec fn spec_operation_error(&self) -> Seq<char> {
        self.operation_error@
    }

    pub closed spec fn spec_rollback_error(&self) -> Option<Seq<char>> {
        match self.rollback_error {
            Some(e) => Some(e@),
            None => None,
        }
    }

    /// The first attachment step that failed.
    pub fn failed_stage(&self) -> (s: TaskbarAttachmentStage)
        ensures
            s == self.spec_failed_stage(),
    {
        self.failed_stage
    }

    /// Whether restoring the original parent and style failed as well.
    pub fn rollback_failed(&self) -> (b: bool)
        ensures
            b == (self.spec_rollback_error() is Some),
    {
        self.rollback_error.is_some()
    }

    /// The error as one line of text: the failed step, its error, and the
    /// rollback's errors when the rollback failed too.
    pub fn message(&self) -> (r: String)
        ensures
            r@ == attachment_error_text(
                self.spec_failed_stage(),
                self.spec_operation_error(),
                self.spec_rollback_error(),
            ),
    {
        let mut text = string_from("taskbar attachment ");
        text.append(stage_name(self.failed_stage));
        text.append(" failed: ");
        text.append(self.operation_error.as_str());
        match &self.rollback_error {
            Some(rollback) => {
                text.append("; rollback failed: ");
                text.append(rollback.as_str());
            },
            None => {},
        }
        text
    }
}

/// The name of an attachment step, as it is written in messages.
pub open spec fn stage_text(stage: TaskbarAttachmentStage) -> Seq<char> {
    match stage {
        TaskbarAttachmentStage::ReadOriginalStyle => "ReadOriginalStyle"@,
        TaskbarAttachmentStage::ReadOriginalParent => "ReadOriginalParent"@,
        TaskbarAttachmentStage::ApplyChildStyle => "ApplyChildStyle"@,
        TaskbarAttachmentStage::VerifyChildStyle => "VerifyChildStyle"@,
        TaskbarAttachmentStage::SetParent => "SetParent"@,
        TaskbarAttachmentStage::VerifyParent => "VerifyParent"@,
        TaskbarAttachmentStage::SetPosition => "SetPosition"@,
    }
}

fn stage_name(stage: TaskbarAttachmentStage) -> (r: &'static str)
    ensures
        r@ == stage_text(stage),
{
    match stage {
        TaskbarAttachmentStage::ReadOriginalStyle => "ReadOriginalStyle",
        TaskbarAttachmentStage::ReadOriginalParent => "ReadOriginalParent",
        TaskbarAttachmentStage::ApplyChildStyle => "ApplyChildStyle",
        TaskbarAttachmentStage::VerifyChildStyle => "VerifyChildStyle",
        TaskbarAttachmentStage::SetParent => "SetParent",
        TaskbarAttachmentStage::VerifyParent => "VerifyParent",
        TaskbarAttachmentStage::SetPosition => "SetPosition",
    }
}

/// The message of a failed attachment.
pub open spec fn attachment_error_text(
    stage: TaskbarAttachmentStage,
    operation: Seq<char>,
    rollback: Option<Seq<char>>,
) -> Seq<char> {
    "taskbar attachment "@ + stage_text(stage) + " failed: "@ + operation + match rollback {
        Some(r) => "; rollback failed: "@ + r,
        None => Seq::empty(),
    }
}

/// A hexadecimal digit in lower case.
pub open spec fn hex_digit(d: int) -> char {
    "0123456789abcdef"@[d]
}

/// The lower-case hexadecimal digits of `n`, without leading zeros.
pub open spec fn hex_text(n: nat) -> Seq<char>
    decreases n,
{
    if n < 16 {
        seq![hex_digit(n as int)]
    } else {
        hex_text(n / 16).push(hex_digit((n % 16) as int))
    }
}

/// The message of a style that did not read back as written, with both
/// styles in `0x` hexadecimal.
pub open spec fn style_mismatch_text(expected: u32, got: u32) -> Seq<char> {
    "style mismatch: expected 0x"@ + hex_text(expected as nat) + ", got 0x"@ + hex_text(got as nat)
}

/// Appends the hexadecimal digits of `n`.
fn push_hex(s: &mut String, n: u32)
    ensures
        final(s)@ == old(s)@ + hex_text(n as nat),
    decreases n,
{
    proof {
        reveal_strlit("0123456789abcdef");
    }
    let digits = "0123456789abcdef";
    if n >= 16 {
        push_hex(s, n / 16);
    }
    let d = (n % 16) as usize;
    push_char(s, digits.get_char(d));
    proof {
        if n >= 16 {
            assert(hex_text(n as nat) == hex_text((n / 16) as nat).push(hex_digit((n % 16) as int)));
        } else {
            assert(hex_text(n as nat) == seq![hex_digit(n as int)]);
        }
    }
    assert(s@ =~= old(s)@ + hex_text(n as nat));
}

/// Formats the style mismatch message.
fn style_mismatch_message(expected: u32, got: u32) -> (r: String)
    ensures
        r@ == style_mismatch_text(expected, got),
{
    let mut text = string_from("style mismatch: expected 0x");
    push_hex(&mut text, expected);
    text.append(", got 0x");
    push_hex(&mut text, got);
    text
}

/// The rollback calls from `start`: restore the parent and read it back,
/// restore the style and read it back, refresh the frame.
pub open spec fn rollback_shape(run: Seq<AttachmentCall>, start: int, parent: Option<usize>, style: u32) -> bool {
    &&& run.len() == start + 5
    &&& (run[start] matches AttachmentCall::SetParent(p, _) && p == parent)
    &&& run[start + 1] is ReadParent
    &&& (run[start + 2] matches AttachmentCall::SetStyle(s, _) && s == style)
    &&& run[start + 3] is ReadStyle
    &&& run[start + 4] is RefreshFrame
}

/// The errors the rollback collected, in order.
pub open spec fn rollback_errors(run: Seq<AttachmentCall>, start: int, parent: Option<usize>, style: u32) -> Seq<Seq<char>> {
    (match run[start] {
        AttachmentCall::SetParent(_, Err(e)) => seq![e@],
        _ => Seq::empty(),
    }) + (match run[start + 1] {
        AttachmentCall::ReadParent(Ok(p)) => if p == parent {
            Seq::empty()
        } else {
            seq!["parent rollback verification mismatch"@]
        },
        AttachmentCall::ReadParent(Err(e)) => seq![e@],
        _ => Seq::empty(),
    }) + (match run[start + 2] {
        AttachmentCall::SetStyle(_, Err(e)) => seq![e@],
        _ => Seq::empty(),
    }) + (match run[start + 3] {
        AttachmentCall::ReadStyle(Ok(s)) => if s == style {
            Seq::empty()
        } else {
            seq!["style rollback verification mismatch"@]
        },
        AttachmentCall::ReadStyle(Err(e)) => seq![e@],
        _ => Seq::empty(),
    }) + (match run[start + 4] {
        AttachmentCall::RefreshFrame(Err(e)) => seq![e@],
        _ => Seq::empty(),
    })
}

/// The rollback error: the collected errors joined by ", ", if any.
pub open spec fn rollback_outcome(errors: Seq<Seq<char>>) -> Option<Seq<char>> {
    if errors.len() == 0 {
        None
    } else {
        Some(join_comma(errors))
    }
}

/// The first failing step after the original style and parent were read, its
/// message, and the number of operations performed up to it (all five on
/// success).
pub open spec fn operation_outcome(target: usize, run: Seq<AttachmentCall>, child: u32) -> (Option<(TaskbarAttachmentStage, Seq<char>)>, int) {
    match run[2] {
        AttachmentCall::SetStyle(_, Err(e)) => (Some((TaskbarAttachmentStage::ApplyChildStyle, e@)), 1),
        _ => match run[3] {
            AttachmentCall::ReadStyle(Err(e)) => (Some((TaskbarAttachmentStage::VerifyChildStyle, e@)), 2),
            AttachmentCall::ReadStyle(Ok(st)) if st != child => (Some((TaskbarAttachmentStage::VerifyChildStyle, style_mismatch_text(child, st))), 2),
            _ => match run[4] {
                AttachmentCall::SetParent(_, Err(e)) => (Some((TaskbarAttachmentStage::SetParent, e@)), 3),
                _ => match run[5] {
                    AttachmentCall::ReadParent(Err(e)) => (Some((TaskbarAttachmentStage::VerifyParent, e@)), 4),
                    AttachmentCall::ReadParent(Ok(p)) if p != Some(target) => (Some((TaskbarAttachmentStage::VerifyParent, "parent verification mismatch"@)), 4),
                    _ => match run[6] {
                        AttachmentCall::SetPosition(Err(e)) => (Some((TaskbarAttachmentStage::SetPosition, e@)), 5),
                        _ => (None, 5),
                    },
                },
            },
        },
    }
}

/// The operations in order: the child style, reading it back, the taskbar
/// parent, reading it back, the position; `n` of them were performed.
pub open spec fn operation_shape(target: usize, run: Seq<AttachmentCall>, child: u32, n: int) -> bool {
    &&& run.len() >= 2 + n
    &&& n >= 1 ==> (run[2] matches AttachmentCall::SetStyle(s, _) && s == child)
    &&& n >= 2 ==> run[3] is ReadStyle
    &&& n >= 3 ==> (run[4] matches AttachmentCall::SetParent(p, _) && p == Some(target))
    &&& n >= 4 ==> run[5] is ReadParent
    &&& n >= 5 ==> run[6] is SetPosition
}

/// Whether `run` is a complete attachment to `target` that ended in
/// `result`: read the original style and parent; apply the child style,
/// verify it, set and verify the parent, set the position; on the first
/// failure, restore the original parent and style and report both the
/// failure and any rollback errors. Nothing is rolled back when reading the
/// original state fails.
pub open spec fn attachment_run(target: usize, run: Seq<AttachmentCall>, result: Result<(), TaskbarAttachmentError>) -> bool {
    &&& run.len() >= 1
    &&& match run[0] {
        AttachmentCall::ReadStyle(Err(e)) => run.len() == 1 && (result matches Err(err) && err.spec_failed_stage()
            == TaskbarAttachmentStage::ReadOriginalStyle && err.spec_operation_error() == e@
            && err.spec_rollback_error() is None),
        AttachmentCall::ReadStyle(Ok(style)) => run.len() >= 2 && match run[1] {
            AttachmentCall::ReadParent(Err(e)) => run.len() == 2 && (result matches Err(err) && err.spec_failed_stage()
                == TaskbarAttachmentStage::ReadOriginalParent && err.spec_operation_error() == e@
                && err.spec_rollback_error() is None),
            AttachmentCall::ReadParent(Ok(parent)) => {
                let child = child_style(style);
                let (failure, n) = operation_outcome(target, run, child);
                &&& operation_shape(target, run, child, n)
                &&& match failure {
                    None => run.len() == 2 + n && result is Ok,
                    Some((stage, message)) => rollback_shape(run, 2 + n, parent, style) && (result matches Err(err)
                        && err.spec_failed_stage() == stage && err.spec_operation_error() == message
                        && err.spec_rollback_error() == rollback_outcome(rollback_errors(run, 2 + n, parent, style))),
                }
            },
            _ => false,
        },
        _ => false,
    }
}

fn rollback_attachment<B: TaskbarAttachmentBackend>(backend: &mut B, original_parent: Option<usize>, original_style: u32) -> (r: Option<String>)
    ensures
        final(backend).calls().len() == old(backend).calls().len() + 5,
        final(backend).calls().take(old(backend).calls().len() as int) == old(backend).calls(),
        rollback_shape(final(backend).calls(), old(backend).calls().len() as int, original_parent, original_style),
        ({
            let errors = rollback_errors(final(backend).calls(), old(backend).calls().len() as int, original_parent, original_style);
            match r {
                Some(text) => errors.len() > 0 && text@ == join_comma(errors),
                None => errors.len() == 0,
            }
        }),
{
    let ghost start = backend.calls();
    let ghost n = start.len() as int;
    let mut errors: Vec<String> = Vec::new();
    let r1 = backend.set_parent(original_parent);
    match r1 {
        Err(error) => errors.push(error),
        Ok(()) => {},
    }
    let ghost e1 = errors@.map_values(|p: String| p@);
    let r2 = backend.read_parent();
    match r2 {
        Ok(parent) => {
            if parent != original_parent {
                errors.push(string_from("parent rollback verification mismatch"));
            }
        },
        Err(error) => errors.push(error),
    }
    let ghost e2 = errors@.map_values(|p: String| p@);
    let r3 = backend.set_style(original_style);
    match r3 {
        Err(error) => errors.push(error),
        Ok(()) => {},
    }
    let ghost e3 = errors@.map_values(|p: String| p@);
    let r4 = backend.read_style();
    match r4 {
        Ok(style) => {
            if style != original_style {
                errors.push(string_from("style rollback verification mismatch"));
            }
        },
        Err(error) => errors.push(error),
    }
    let ghost e4 = errors@.map_values(|p: String| p@);
    let r5 = backend.refresh_frame();
    match r5 {
        Err(error) => errors.push(error),
        Ok(()) => {},
    }
    let ghost calls = backend.calls();
    assert(calls.take(n) =~= start);
    assert(calls[n] == AttachmentCall::SetParent(original_parent, r1));
    assert(calls[n + 1] == AttachmentCall::ReadParent(r2));
    assert(calls[n + 2] == AttachmentCall::SetStyle(original_style, r3));
    assert(calls[n + 3] == AttachmentCall::ReadStyle(r4));
    assert(calls[n + 4] == AttachmentCall::RefreshFrame(r5));
    assert(errors@.map_values(|p: String| p@) =~= rollback_errors(calls, n, original_parent, original_style));
    if errors.len() == 0 {
        None
    } else {
        Some(join_strings(&errors))
    }
}

fn attachment_failure<B: TaskbarAttachmentBackend>(
    backend: &mut B,
    failed_stage: TaskbarAttachmentStage,
    operation_error: String,
    original_parent: Option<usize>,
    original_style: u32,
) -> (r: TaskbarAttachmentError)
    ensures
        final(backend).calls().len() == old(backend).calls().len() + 5,
        final(backend).calls().take(old(backend).calls().len() as int) == old(backend).calls(),
        rollback_shape(final(backend).calls(), old(backend).calls().len() as int, original_parent, original_style),
        r.spec_failed_stage() == failed_stage,
        r.spec_operation_error() == operation_error@,
        r.spec_rollback_error() == rollback_outcome(rollback_errors(final(backend).calls(), old(backend).calls().len() as int, original_parent, original_style)),
{
    let rollback_error = rollback_attachment(backend, original_parent, original_style);
    TaskbarAttachmentError { failed_stage, operation_error, rollback_error }
}

/// Attaches a window to the taskbar `target_parent` as a transaction: the
/// child style, its verification, the parent, its verification and the
/// position in order; on the first failure the original parent and style
/// are restored, and the error keeps the failed step and any rollback
/// errors.
#[verifier::spinoff_prover]
#[verifier::rlimit(30)]
pub fn run_taskbar_attachment<B: TaskbarAttachmentBackend>(backend: &mut B, target_parent: usize) -> (r: Result<(), TaskbarAttachmentError>)
    ensures
        final(backend).calls().take(old(backend).calls().len() as int) == old(backend).calls(),
        attachment_run(target_parent, final(backend).calls().skip(old(backend).calls().len() as int), r),
{
    let ghost start = backend.calls();
    let ghost n = start.len() as int;
    let original_style = match backend.read_style() {
        Ok(style) => style,
        Err(error) => {
            let r = Err(TaskbarAttachmentError { failed_stage: TaskbarAttachmentStage::ReadOriginalStyle, operation_error: error, rollback_error: None });
            assert(backend.calls().skip(n) =~= seq![backend.calls()[n]]);
            assert(backend.calls().take(n) =~= start);
            return r;
        },
    };
    let original_parent = match backend.read_parent() {
        Ok(parent) => parent,
        Err(error) => {
            let r = Err(TaskbarAttachmentError { failed_stage: TaskbarAttachmentStage::ReadOriginalParent, operation_error: error, rollback_error: None });
            assert(backend.calls().skip(n).len() == 2);
            assert(backend.calls().skip(n)[0] == backend.calls()[n]);
            assert(backend.calls().skip(n)[1] == backend.calls()[n + 1]);
            assert(backend.calls().take(n) =~= start);
            return r;
        },
    };
    let ghost after_reads = backend.calls();
    assert(after_reads.take(n) =~= start);
    assert(after_reads.skip(n)[0] == after_reads[n] && after_reads.skip(n)[1] == after_reads[n + 1]);
    let child = taskbar_child_style(original_style);
    let (stage, message) = match run_attachment_operation(backend, child, target_parent) {
        Ok(()) => {
            proof {
                let calls = backend.calls();
                assert(calls.take(after_reads.len() as int) == after_reads);
                assert(calls.take(n) =~= start) by {
                    assert forall|k: int| 0 <= k < n implies calls[k] == start[k] by {
                        assert(calls.take(after_reads.len() as int)[k] == calls[k]);
                        assert(after_reads.take(n)[k] == after_reads[k]);
                    }
                }
                assert(calls.skip(n) =~= calls.skip(after_reads.len() - 2));
                assert(calls[n] == after_reads[n]) by {
                    assert(calls.take(after_reads.len() as int)[n] == calls[n]);
                }
                assert(calls[n + 1] == after_reads[n + 1]) by {
                    assert(calls.take(after_reads.len() as int)[n + 1] == calls[n + 1]);
                }
            }
            return Ok(());
        },
        Err(failure) => failure,
    };
    let ghost after_operation = backend.calls();
    let error = attachment_failure(backend, stage, message, original_parent, original_style);
    proof {
        let run = backend.calls().skip(n);
        assert(backend.calls().take(n) =~= start);
        lemma_skip(backend.calls(), n);
        assert(backend.calls().take(after_operation.len() as int) == after_operation);
        assert forall|k: int| 0 <= k < after_operation.len() implies backend.calls()[k] == after_operation[k] by {
            assert(backend.calls().take(after_operation.len() as int)[k] == backend.calls()[k]);
        }
        assert(rollback_errors(run, run.len() - 5, original_parent, original_style) =~= rollback_errors(backend.calls(), after_operation.len() as int, original_parent, original_style));
    }
    Err(error)
}

fn run_attachment_operation<B: TaskbarAttachmentBackend>(backend: &mut B, child: u32, target: usize) -> (r: Result<(), (TaskbarAttachmentStage, String)>)
    requires
        old(backend).calls().len() >= 2,
    ensures
        ({
            let before = old(backend).calls();
            let after = final(backend).calls();
            let m = before.len() - 2;
            let run = after.skip(m);
            let (failure, k) = operation_outcome(target, run, child);
            &&& after.take(before.len() as int) == before
            &&& operation_shape(target, run, child, k)
            &&& after.len() == before.len() + k
            &&& match (r, failure) {
                (Ok(()), None) => true,
                (Err((stage, message)), Some((expected_stage, expected_message))) => stage == expected_stage && message@ == expected_message,
                _ => false,
            }
        }),
{
    let ghost before = backend.calls();
    let ghost m = before.len() - 2;
    let ghost b = before.len() as int;
    let r1 = backend.set_style(child);
    let ghost c1 = backend.calls();
    assert(c1.take(b) =~= before);
    assert(c1.skip(m)[2] == c1[b]);
    if let Err(error) = r1 {
        return Err((TaskbarAttachmentStage::ApplyChildStyle, error));
    }
    let r2 = backend.read_style();
    let ghost c2 = backend.calls();
    assert(c2.take(b) =~= before);
    assert(c2.skip(m)[2] == c1[b] && c2.skip(m)[3] == c2[b + 1]);
    let style = match r2 {
        Err(error) => {
            return Err((TaskbarAttachmentStage::VerifyChildStyle, error));
        },
        Ok(style) => style,
    };
    if style != child {
        return Err((TaskbarAttachmentStage::VerifyChildStyle, style_mismatch_message(child, style)));
    }
    let r3 = backend.set_parent(Some(target));
    let ghost c3 = backend.calls();
    assert(c3.take(b) =~= before);
    assert(c3.skip(m)[2] == c1[b] && c3.skip(m)[3] == c2[b + 1] && c3.skip(m)[4] == c3[b + 2]);
    if let Err(error) = r3 {
        return Err((TaskbarAttachmentStage::SetParent, error));
    }
    let r4 = backend.read_parent();
    let ghost c4 = backend.calls();
    assert(c4.take(b) =~= before);
    assert(c4.skip(m)[2] == c1[b] && c4.skip(m)[3] == c2[b + 1] && c4.skip(m)[4] == c3[b + 2] && c4.skip(m)[5] == c4[b + 3]);
    let parent = match r4 {
        Err(error) => {
            return Err((TaskbarAttachmentStage::VerifyParent, error));
        },
        Ok(parent) => parent,
    };
    if parent != Some(target) {
        return Err((TaskbarAttachmentStage::VerifyParent, string_from("parent verification mismatch")));
    }
    let r5 = backend.set_position();
    let ghost c5 = backend.calls();
    assert(c5.take(b) =~= before);
    assert(c5.skip(m)[2] == c1[b] && c5.skip(m)[3] == c2[b + 1] && c5.skip(m)[4] == c3[b + 2] && c5.skip(m)[5] == c4[b + 3] && c5.skip(m)[6] == c5[b + 4]);
    match r5 {
        Err(error) => Err((TaskbarAttachmentStage::SetPosition, error)),
        Ok(()) => Ok(()),
    }
}

proof fn lemma_skip(s: Seq<AttachmentCall>, n: int)
    requires
        0 <= n <= s.len(),
    ensures
        forall|k: int| 0 <= k < s.len() - n ==> #[trigger] s.skip(n)[k] == s[n + k],
{
}

/// How a widget window is shown: attached to a taskbar, or floating as a
/// top-level window of its own.
#[derive(Clone, Copy, Debug, PartialEq, Eq)]
pub enum WidgetSurface<T> {
    /// Attached to the given taskbar.
    Attached(T),
    /// Floating on its own, detached from every taskbar.
    Detached,
}

/// The live widget windows and their surfaces, keyed by window handle.
pub type SurfaceMap = Map<usize, WidgetSurface<usize>>;

/// `listed` names every live window of `windows` once, with its surface.
pub open spec fn lists_windows(listed: Seq<(usize, WidgetSurface<usize>)>, windows: SurfaceMap) -> bool {
    &&& forall|i: int| 0 <= i < listed.len() ==> windows.contains_key(#[trigger] listed[i].0) && windows[listed[i].0] == listed[i].1
    &&& forall|k: usize| #[trigger] windows.contains_key(k) ==> exists|i: int| 0 <= i < listed.len() && #[trigger] listed[i].0 == k
    &&& forall|i: int, j: int| 0 <= i < j < listed.len() ==> listed[i].0 != listed[j].0
}

/// Window operations used to keep one widget per taskbar.
///
/// Window handles and taskbar targets are given as plain integers. An
/// implementation reflects each window that it creates, attaches, detaches or
/// destroys in `windows` at once; a failed attach leaves the window where it
/// was. All operations are short window operations on the UI thread.
pub trait WidgetSurfaceBackend {
    /// The error of a failed window operation.
    type Error;

    /// The live widget windows and how each is shown.
    spec fn windows(&self) -> SurfaceMap;

    /// The window operations performed so far, in order, with their results.
    spec fn surface_calls(&self) -> Seq<SurfaceCall<Self::Error>>;

    /// The live windows with their surfaces, in the order the backend lists
    /// them.
    spec fn listed_surfaces(&self) -> Seq<(usize, WidgetSurface<usize>)>;

    /// The live windows with their surfaces, each once.
    fn surfaces(&self) -> (r: Vec<(usize, WidgetSurface<usize>)>)
        ensures
            r@ == self.listed_surfaces(),
            lists_windows(r@, self.windows()),
    ;

    /// Creates a floating widget at a safe top-level position.
    fn create_detached(&mut self) -> (r: Result<usize, Self::Error>)
        ensures
            r matches Ok(w) ==> !old(self).windows().contains_key(w) && final(self).windows()
                == old(self).windows().insert(w, WidgetSurface::Detached),
            final(self).surface_calls() == old(self).surface_calls().push(SurfaceCall::CreateDetached(r)),
    ;

    /// Attaches an existing floating window to the given taskbar.
    fn attach(&mut self, window: usize, target: usize) -> (r: Result<(), Self::Error>)
        ensures
            r is Ok ==> final(self).windows() == old(self).windows().insert(window, WidgetSurface::Attached(target)),
            r is Err ==> final(self).windows() == old(self).windows(),
            final(self).surface_calls() == old(self).surface_calls().push(SurfaceCall::Attach(window, target, r)),
    ;

    /// Returns an existing window to a floating top-level position.
    fn detach(&mut self, window: usize) -> (r: Result<(), Self::Error>)
        ensures
            r is Ok ==> final(self).windows() == old(self).windows().insert(window, WidgetSurface::Detached),
            final(self).surface_calls() == old(self).surface_calls().push(SurfaceCall::Detach(window, r)),
    ;

    /// Destroys a window that is no longer needed.
    fn destroy(&mut self, window: usize) -> (r: Result<(), Self::Error>)
        ensures
            r is Ok ==> final(self).windows() == old(self).windows().remove(window),
            final(self).surface_calls() == old(self).surface_calls().push(SurfaceCall::Destroy(window, r)),
    ;
}

/// One window operation of a surface backend, with what it returned.
pub enum SurfaceCall<E> {
    CreateDetached(Result<usize, E>),
    Attach(usize, usize, Result<(), E>),
    Detach(usize, Result<(), E>),
    Destroy(usize, Result<(), E>),
}

/// The calls made after the log `before`, when `after` continues it.
pub open spec fn surface_calls_since<E>(before: Seq<SurfaceCall<E>>, after: Seq<SurfaceCall<E>>) -> Seq<SurfaceCall<E>> {
    after.skip(before.len() as int)
}

/// Whether `after` continues the log `before`.
pub open spec fn surface_log_extends<E>(before: Seq<SurfaceCall<E>>, after: Seq<SurfaceCall<E>>) -> bool {
    after.len() >= before.len() && after.take(before.len() as int) == before
}

/// Every attach call is to one of `targets`.
pub open spec fn attaches_listed<E>(calls: Seq<SurfaceCall<E>>, targets: Seq<usize>) -> bool {
    forall|i: int| 0 <= i < calls.len() ==> (#[trigger] calls[i] matches SurfaceCall::Attach(_, t, _) ==> targets.contains(t))
}

/// No call attaches a window.
pub open spec fn no_attaches<E>(calls: Seq<SurfaceCall<E>>) -> bool {
    forall|i: int| 0 <= i < calls.len() ==> !(#[trigger] calls[i] is Attach)
}

/// The errors of the failed attach calls, in order.
pub open spec fn attach_errors<E>(calls: Seq<SurfaceCall<E>>) -> Seq<E>
    decreases calls.len(),
{
    if calls.len() == 0 {
        Seq::empty()
    } else {
        let rest = attach_errors(calls.drop_last());
        match calls.last() {
            SurfaceCall::Attach(_, _, Err(e)) => rest.push(e),
            _ => rest,
        }
    }
}

/// The call failed with `e`: a creation, a detach or a destroy.
pub open spec fn failed_with<E>(call: SurfaceCall<E>, e: E) -> bool {
    match call {
        SurfaceCall::CreateDetached(Err(x)) => x == e,
        SurfaceCall::Detach(_, Err(x)) => x == e,
        SurfaceCall::Destroy(_, Err(x)) => x == e,
        _ => false,
    }
}

/// A run of calls that ends in the failed call that gave `e`.
pub open spec fn ends_in_failure<E>(calls: Seq<SurfaceCall<E>>, e: E) -> bool {
    calls.len() > 0 && failed_with(calls.last(), e)
}

proof fn lemma_log_push<E>(start: Seq<SurfaceCall<E>>, log: Seq<SurfaceCall<E>>, c: SurfaceCall<E>)
    requires
        surface_log_extends(start, log),
    ensures
        surface_log_extends(start, log.push(c)),
        surface_calls_since(start, log.push(c)) == surface_calls_since(start, log).push(c),
        attach_errors(surface_calls_since(start, log).push(c)) == match c {
            SurfaceCall::Attach(_, _, Err(e)) => attach_errors(surface_calls_since(start, log)).push(e),
            _ => attach_errors(surface_calls_since(start, log)),
        },
{
    assert(log.push(c).take(start.len() as int) =~= start) by {
        assert forall|i: int| 0 <= i < start.len() implies log.push(c).take(start.len() as int)[i] == start[i] by {
            assert(log.take(start.len() as int)[i] == log[i]);
        }
    }
    assert(surface_calls_since(start, log.push(c)) =~= surface_calls_since(start, log).push(c));
    assert(surface_calls_since(start, log).push(c).drop_last() =~= surface_calls_since(start, log));
}

proof fn lemma_log_same<E>(start: Seq<SurfaceCall<E>>)
    ensures
        surface_log_extends(start, start),
        surface_calls_since(start, start).len() == 0,
        attach_errors(surface_calls_since(start, start)) == Seq::<E>::empty(),
{
    assert(start.take(start.len() as int) =~= start);
}

proof fn lemma_attach_errors_append<E>(a: Seq<SurfaceCall<E>>, b: Seq<SurfaceCall<E>>)
    ensures
        attach_errors(a + b) == attach_errors(a) + attach_errors(b),
    decreases b.len(),
{
    if b.len() == 0 {
        assert(a + b =~= a);
        assert(attach_errors(a) + attach_errors(b) =~= attach_errors(a));
    } else {
        assert((a + b).drop_last() =~= a + b.drop_last());
        lemma_attach_errors_append(a, b.drop_last());
        match b.last() {
            SurfaceCall::Attach(_, _, Err(e)) => {
                assert(attach_errors(a) + attach_errors(b.drop_last()).push(e) =~= (attach_errors(a) + attach_errors(b.drop_last())).push(e));
            },
            _ => {},
        }
    }
}

proof fn lemma_no_attaches_no_errors<E>(calls: Seq<SurfaceCall<E>>)
    requires
        no_attaches(calls),
    ensures
        attach_errors(calls) == Seq::<E>::empty(),
    decreases calls.len(),
{
    if calls.len() > 0 {
        assert(no_attaches(calls.drop_last())) by {
            assert forall|i: int| 0 <= i < calls.drop_last().len() implies !(#[trigger] calls.drop_last()[i] is Attach) by {
                assert(calls.drop_last()[i] == calls[i]);
            }
        }
        lemma_no_attaches_no_errors(calls.drop_last());
        assert(!(calls[calls.len() - 1] is Attach));
    }
}


/// `window` is the one and only live window, and it floats.
pub open spec fn floating_only(windows: SurfaceMap, window: usize) -> bool {
    &&& windows.dom() == set![window]
    &&& windows[window] == WidgetSurface::<usize>::Detached
}

/// Some live window is attached to the taskbar `target`.
pub open spec fn has_window_on(windows: SurfaceMap, target: usize) -> bool {
    exists|k: usize| #[trigger] windows.contains_key(k) && windows[k] == WidgetSurface::Attached(target)
}

/// Two different live windows are never attached to one taskbar.
pub open spec fn one_window_per_target(windows: SurfaceMap) -> bool {
    forall|k1: usize, k2: usize|
        #![trigger windows[k1], windows[k2]]
        windows.contains_key(k1) && windows.contains_key(k2) && k1 != k2 && windows[k1] is Attached
            ==> windows[k1] != windows[k2]
}

/// The state after a successful reconciliation, where `failures` attach
/// errors were recovered by keeping a floating window.
///
/// Without targets exactly one floating window is left. With targets every
/// window is attached to one of them or is the single floating fallback, which
/// is there after any failed attach. With distinct targets no taskbar has two
/// windows, and without failures every target has its window and none floats.
pub open spec fn reconciled(windows: SurfaceMap, targets: Seq<usize>, failures: nat) -> bool {
    if targets.len() == 0 {
        exists|w: usize| floating_only(windows, w)
    } else {
        &&& forall|k: usize| #[trigger] windows.contains_key(k) ==> match windows[k] {
            WidgetSurface::Attached(t) => targets.contains(t),
            WidgetSurface::Detached => true,
        }
        &&& forall|k1: usize, k2: usize|
            #![trigger windows[k1], windows[k2]]
            windows.contains_key(k1) && windows.contains_key(k2) && windows[k1] is Detached && windows[k2] is Detached
                ==> k1 == k2
        &&& failures > 0 ==> exists|k: usize| #[trigger] windows.contains_key(k) && windows[k] is Detached
        &&& failures <= targets.len()
        &&& targets.no_duplicates() ==> one_window_per_target(windows)
        &&& targets.no_duplicates() && failures == 0 ==> {
            &&& forall|k: usize| #[trigger] windows.contains_key(k) ==> windows[k] is Attached
            &&& forall|t: usize| #[trigger] targets.contains(t) ==> has_window_on(windows, t)
        }
    }
}

/// The windows already match the targets: one floating window when there is
/// no target, else exactly one attached window for each of distinct targets.
pub open spec fn surfaces_settled(windows: SurfaceMap, targets: Seq<usize>) -> bool {
    if targets.len() == 0 {
        exists|w: usize| floating_only(windows, w)
    } else {
        &&& targets.no_duplicates()
        &&& forall|k: usize| #[trigger] windows.contains_key(k) ==> match windows[k] {
            WidgetSurface::Attached(t) => targets.contains(t),
            WidgetSurface::Detached => false,
        }
        &&& one_window_per_target(windows)
        &&& forall|t: usize| #[trigger] targets.contains(t) ==> has_window_on(windows, t)
    }
}

fn contains_target(items: &[usize], x: usize) -> (b: bool)
    ensures
        b == items@.contains(x),
{
    let mut i: usize = 0;
    while i < items.len()
        invariant
            i <= items.len(),
            forall|j: int| 0 <= j < i ==> items@[j] != x,
        decreases items.len() - i,
    {
        if items[i] == x {
            return true;
        }
        i += 1;
    }
    false
}

fn surfaces_match_targets(surfaces: &Vec<(usize, WidgetSurface<usize>)>, targets: &[usize]) -> (b: bool)
    ensures
        b == (surfaces@.len() == targets@.len() && forall|i: int|
            0 <= i < targets@.len() ==> #[trigger] surfaces@[i].1 == WidgetSurface::Attached(targets@[i])),
{
    if surfaces.len() != targets.len() {
        return false;
    }
    let mut i: usize = 0;
    while i < targets.len()
        invariant
            surfaces@.len() == targets@.len(),
            i <= targets.len(),
            forall|j: int| 0 <= j < i ==> #[trigger] surfaces@[j].1 == WidgetSurface::Attached(targets@[j]),
        decreases targets.len() - i,
    {
        match surfaces[i].1 {
            WidgetSurface::Attached(t) => {
                if t != targets[i] {
                    return false;
                }
            },
            WidgetSurface::Detached => {
                return false;
            },
        }
        i += 1;
    }
    true
}

/// Which window is kept floating: the first floating one listed, else the
/// first one listed, else a window that did not exist before.
pub open spec fn kept_floating(listed: Seq<(usize, WidgetSurface<usize>)>, before: SurfaceMap, window: usize) -> bool {
    if exists|j: int| 0 <= j < listed.len() && #[trigger] listed[j].1 is Detached {
        exists|j: int|
            0 <= j < listed.len() && #[trigger] listed[j].1 is Detached && listed[j].0 == window && forall|k: int|
                0 <= k < j ==> !(#[trigger] listed[k].1 is Detached)
    } else if listed.len() > 0 {
        window == listed[0].0
    } else {
        !before.contains_key(window)
    }
}

/// Keeps one floating window when no taskbar is wanted: the first floating
/// window, else the first window detached, else a new one; every other
/// window is destroyed. A single floating window is kept as it is.
fn keep_one_floating<B: WidgetSurfaceBackend>(backend: &mut B, current: &Vec<(usize, WidgetSurface<usize>)>) -> (r: Result<(), B::Error>)
    requires
        lists_windows(current@, old(backend).windows()),
    ensures
        r is Ok ==> exists|w: usize| floating_only(final(backend).windows(), w) && kept_floating(current@, old(backend).windows(), w),
        current@.len() == 1 && current@[0].1 is Detached ==> r is Ok && final(backend).windows() == old(backend).windows(),
        surface_log_extends(old(backend).surface_calls(), final(backend).surface_calls()),
        no_attaches(surface_calls_since(old(backend).surface_calls(), final(backend).surface_calls())),
        forall|i: int|
            0 <= i < surface_calls_since(old(backend).surface_calls(), final(backend).surface_calls()).len()
                && (#[trigger] surface_calls_since(old(backend).surface_calls(), final(backend).surface_calls())[i]) is CreateDetached
                ==> current@.len() == 0,
        r matches Err(e) ==> ends_in_failure(surface_calls_since(old(backend).surface_calls(), final(backend).surface_calls()), e),
{
    let ghost log0 = backend.surface_calls();
    proof {
        lemma_log_same(log0);
    }
    let mut found: Option<usize> = None;
    let mut i: usize = 0;
    while i < current.len()
        invariant
            i <= current.len(),
            found matches Some(j) ==> j < i && current@[j as int].1 is Detached && forall|k: int| 0 <= k < j ==> !(#[trigger] current@[k].1 is Detached),
            found is None ==> forall|k: int| 0 <= k < i ==> !(#[trigger] current@[k].1 is Detached),
        decreases current.len() - i,
    {
        if found.is_none() {
            if let WidgetSurface::Detached = current[i].1 {
                found = Some(i);
            }
        }
        i += 1;
    }
    let ghost listed = backend.windows();
    let window = match found {
        Some(j) => current[j].0,
        None => {
            if current.len() > 0 {
                let (first, surface) = current[0];
                if let WidgetSurface::Attached(_) = surface {
                    let ghost before_call = backend.surface_calls();
                    let detached = backend.detach(first);
                    proof {
                        lemma_log_push(log0, before_call, SurfaceCall::Detach(first, detached));
                    }
                    match detached {
                        Ok(()) => {},
                        Err(e) => {
                            return Err(e);
                        },
                    }
                }
                first
            } else {
                let ghost before_call = backend.surface_calls();
                let created = backend.create_detached();
                proof {
                    lemma_log_push(log0, before_call, SurfaceCall::CreateDetached(created));
                }
                match created {
                    Ok(w) => w,
                    Err(e) => {
                        return Err(e);
                    },
                }
            }
        },
    };
    let ghost start = backend.windows();
    assert(start.contains_key(window) && start[window] == WidgetSurface::<usize>::Detached);
    assert(forall|k: usize| #[trigger] start.contains_key(k) ==> k == window || listed.contains_key(k));
    let mut i: usize = 0;
    while i < current.len()
        invariant
            i <= current.len(),
            lists_windows(current@, listed),
            start.contains_key(window) && start[window] == WidgetSurface::<usize>::Detached,
            forall|k: usize| #[trigger] start.contains_key(k) ==> k == window || listed.contains_key(k),
            backend.windows().contains_key(window),
            backend.windows()[window] == WidgetSurface::<usize>::Detached,
            kept_floating(current@, listed, window),
            current@.len() == 1 && current@[0].1 is Detached ==> backend.windows() == listed && start == listed && window == current@[0].0,
            forall|k: usize| #[trigger] backend.windows().contains_key(k) ==> start.contains_key(k),
            forall|k: usize|
                #[trigger] backend.windows().contains_key(k) && k != window ==> forall|j: int|
                    0 <= j < i ==> #[trigger] current@[j].0 != k,
            log0 == old(backend).surface_calls(),
            surface_log_extends(log0, backend.surface_calls()),
            no_attaches(surface_calls_since(log0, backend.surface_calls())),
            forall|n: int|
                0 <= n < surface_calls_since(log0, backend.surface_calls()).len()
                    && (#[trigger] surface_calls_since(log0, backend.surface_calls())[n]) is CreateDetached
                    ==> current@.len() == 0,
        decreases current.len() - i,
    {
        let candidate = current[i].0;
        if candidate != window {
            let ghost before_call = backend.surface_calls();
            let destroyed = backend.destroy(candidate);
            proof {
                lemma_log_push(log0, before_call, SurfaceCall::Destroy(candidate, destroyed));
            }
            match destroyed {
                Ok(()) => {},
                Err(e) => {
                    return Err(e);
                },
            }
        }
        i += 1;
    }
    proof {
        let now = backend.windows();
        assert forall|k: usize| now.contains_key(k) implies k == window by {
            if k != window {
                assert(listed.contains_key(k));
                let j = choose|j: int| 0 <= j < current@.len() && #[trigger] current@[j].0 == k;
                assert(current@[j].0 != k);
            }
        }
        assert(now.dom() =~= set![window]);
        assert(floating_only(now, window));
    }
    Ok(())
}

/// What sorting the existing windows leaves: the live windows are the
/// earlier ones less those destroyed; each attached window owns its target,
/// which is one of `targets`; and the only floating window is `detached`.
pub open spec fn sorted_windows(
    before: SurfaceMap,
    after: SurfaceMap,
    targets: Seq<usize>,
    attached: Seq<usize>,
    detached: Option<usize>,
    owner: Map<usize, usize>,
) -> bool {
    &&& attached.no_duplicates()
    &&& forall|t: usize| #[trigger] attached.contains(t) ==> targets.contains(t)
    &&& forall|k: usize| #[trigger] after.contains_key(k) ==> before.contains_key(k) && after[k] == before[k]
    &&& forall|k: usize| #[trigger] after.contains_key(k) ==> match after[k] {
        WidgetSurface::Attached(t) => attached.contains(t) && owner[t] == k,
        WidgetSurface::Detached => detached == Some(k),
    }
    &&& forall|t: usize| #[trigger] attached.contains(t) ==> after.contains_key(owner[t]) && after[owner[t]]
        == WidgetSurface::Attached(t)
    &&& detached matches Some(d) ==> after.contains_key(d) && after[d] == WidgetSurface::<usize>::Detached
}

/// Keeps the first window attached to each wanted taskbar and the first
/// floating window, and destroys every other existing window.
fn sort_existing<B: WidgetSurfaceBackend>(
    backend: &mut B,
    current: &Vec<(usize, WidgetSurface<usize>)>,
    targets: &[usize],
) -> (r: Result<(Vec<usize>, Option<usize>, Ghost<Map<usize, usize>>), B::Error>)
    requires
        lists_windows(current@, old(backend).windows()),
        targets@.len() > 0,
    ensures
        r matches Ok((attached, detached, owner)) ==> sorted_windows(
            old(backend).windows(),
            final(backend).windows(),
            targets@,
            attached@,
            detached,
            owner@,
        ),
        r matches Ok((attached, detached, owner)) ==> (surfaces_settled(old(backend).windows(), targets@) ==> {
            &&& final(backend).windows() == old(backend).windows()
            &&& detached is None
            &&& attached@.to_set() == targets@.to_set()
        }),
        surfaces_settled(old(backend).windows(), targets@) ==> r is Ok && final(backend).surface_calls() == old(
            backend,
        ).surface_calls(),
        r matches Ok((attached, detached, owner)) ==> forall|t: usize|
            targets@.contains(t) && #[trigger] has_window_on(old(backend).windows(), t) ==> attached@.contains(t),
        r matches Ok((attached, detached, owner)) ==> ((exists|k: usize|
            old(backend).windows().contains_key(k) && #[trigger] old(backend).windows()[k] is Detached) ==> detached is Some),
        surface_log_extends(old(backend).surface_calls(), final(backend).surface_calls()),
        forall|n: int|
            0 <= n < surface_calls_since(old(backend).surface_calls(), final(backend).surface_calls()).len() ==> (
            #[trigger] surface_calls_since(old(backend).surface_calls(), final(backend).surface_calls())[n]) is Destroy,
        r matches Err(e) ==> ends_in_failure(surface_calls_since(old(backend).surface_calls(), final(backend).surface_calls()), e),
{
    let ghost log0 = backend.surface_calls();
    proof {
        lemma_log_same(log0);
    }
    let ghost before = backend.windows();
    let mut attached: Vec<usize> = Vec::new();
    let mut detached: Option<usize> = None;
    let ghost mut owner: Map<usize, usize> = Map::empty();
    let mut i: usize = 0;
    while i < current.len()
        invariant
            i <= current.len(),
            targets@.len() > 0,
            lists_windows(current@, before),
            attached@.no_duplicates(),
            forall|t: usize| #[trigger] attached@.contains(t) ==> targets@.contains(t),
            forall|k: usize| #[trigger] backend.windows().contains_key(k) ==> before.contains_key(k) && backend.windows()[k] == before[k],
            forall|j: int|
                0 <= j < i && backend.windows().contains_key(#[trigger] current@[j].0) ==> match current@[j].1 {
                    WidgetSurface::Attached(t) => attached@.contains(t) && owner[t] == current@[j].0,
                    WidgetSurface::Detached => detached == Some(current@[j].0),
                },
            forall|t: usize| #[trigger] attached@.contains(t) ==> backend.windows().contains_key(owner[t]) && backend.windows()[owner[t]]
                == WidgetSurface::Attached(t),
            detached matches Some(d) ==> backend.windows().contains_key(d) && backend.windows()[d] == WidgetSurface::<usize>::Detached,
            forall|j: int| i <= j < current@.len() ==> backend.windows().contains_key(#[trigger] current@[j].0),
            forall|t: usize, j: int|
                attached@.contains(t) && i <= j < current@.len() ==> #[trigger] current@[j].0 != #[trigger] owner[t],
            detached matches Some(d) ==> forall|j: int| i <= j < current@.len() ==> #[trigger] current@[j].0 != d,
            forall|j: int|
                0 <= j < i ==> match #[trigger] current@[j].1 {
                    WidgetSurface::Attached(t) => targets@.contains(t) ==> attached@.contains(t),
                    WidgetSurface::Detached => true,
                },
            surfaces_settled(before, targets@) ==> backend.windows() == before && detached is None
                && backend.surface_calls() == log0,
            before == old(backend).windows(),
            forall|j: int| 0 <= j < i && (#[trigger] current@[j].1) is Detached ==> detached is Some,
            log0 == old(backend).surface_calls(),
            surface_log_extends(log0, backend.surface_calls()),
            forall|n: int|
                0 <= n < surface_calls_since(log0, backend.surface_calls()).len() ==> (#[trigger] surface_calls_since(
                    log0,
                    backend.surface_calls(),
                )[n]) is Destroy,
        decreases current.len() - i,
    {
        let (window, surface) = current[i];
        let ghost now = backend.windows();
        let ghost prev = attached@;
        let ghost prev_detached = detached;
        let ghost owner_prev = owner;
        let mut keep = false;
        match surface {
            WidgetSurface::Attached(target) => {
                if contains_target(targets, target) && !contains_target(attached.as_slice(), target) {
                    keep = true;
                }
            },
            WidgetSurface::Detached => {
                if detached.is_none() {
                    keep = true;
                }
            },
        }
        proof {
            assert(current@[i as int] == (window, surface));
            assert(now.contains_key(window) && now[window] == surface);
            if surfaces_settled(before, targets@) {
                match surface {
                    WidgetSurface::Attached(t) => {
                        assert(targets@.contains(t));
                        if prev.contains(t) {
                            let o = owner[t];
                            assert(now[o] == WidgetSurface::Attached(t));
                            assert(o != window);
                            assert(before[o] == before[window]);
                        }
                    },
                    WidgetSurface::Detached => {},
                }
                assert(keep);
            }
            assert(surfaces_settled(before, targets@) ==> keep);
        }
        if keep {
            match surface {
                WidgetSurface::Attached(target) => {
                    attached.push(target);
                    proof {
                        owner = owner.insert(target, window);
                        assert(attached@ == prev.push(target));
                        assert forall|a: int, b: int| 0 <= a < b < attached@.len() implies attached@[a] != attached@[b] by {
                            if b == attached@.len() - 1 {
                                assert(prev.contains(prev[a]));
                            }
                        }
                        assert forall|t: usize| #[trigger] attached@.contains(t) implies prev.contains(t) || t == target by {
                            let x = choose|x: int| 0 <= x < attached@.len() && attached@[x] == t;
                            if x < prev.len() {
                                assert(prev[x] == t);
                            }
                        }
                        assert forall|t: usize| prev.contains(t) implies #[trigger] attached@.contains(t) by {
                            let x = choose|x: int| 0 <= x < prev.len() && prev[x] == t;
                            assert(attached@[x] == t);
                        }
                    }
                },
                WidgetSurface::Detached => {
                    detached = Some(window);
                },
            }
        } else {
            let ghost before_call = backend.surface_calls();
            let destroyed = backend.destroy(window);
            proof {
                lemma_log_push(log0, before_call, SurfaceCall::Destroy(window, destroyed));
            }
            match destroyed {
                Ok(()) => {},
                Err(e) => {
                    return Err(e);
                },
            }
        }
        proof {
            let after = backend.windows();
            assert(keep ==> after == now);
            assert(!keep ==> after == now.remove(window));
            assert forall|j: int|
                0 <= j < i + 1 && after.contains_key(#[trigger] current@[j].0) implies match current@[j].1 {
                    WidgetSurface::Attached(t) => attached@.contains(t) && owner[t] == current@[j].0,
                    WidgetSurface::Detached => detached == Some(current@[j].0),
                } by {
                if j == i {
                    assert(keep);
                    assert(current@[j] == (window, surface));
                    match surface {
                        WidgetSurface::Attached(t) => {
                            assert(attached@[attached@.len() - 1] == t);
                            assert(attached@.contains(t));
                            assert(owner[t] == window);
                        },
                        WidgetSurface::Detached => {
                            assert(detached == Some(window));
                        },
                    }
                } else {
                    assert(current@[j].0 != window);
                    assert(now.contains_key(current@[j].0));
                    match current@[j].1 {
                        WidgetSurface::Attached(t) => {
                            assert(prev.contains(t) && owner_prev[t] == current@[j].0);
                            assert(attached@.contains(t));
                            if keep && surface is Attached {
                                assert(t != surface->0);
                            }
                        },
                        WidgetSurface::Detached => {
                            assert(prev_detached == Some(current@[j].0));
                        },
                    }
                }
            }
        }
        i += 1;
    }
    proof {
        let after = backend.windows();
        assert forall|k: usize| #[trigger] after.contains_key(k) implies match after[k] {
            WidgetSurface::Attached(t) => attached@.contains(t) && owner[t] == k,
            WidgetSurface::Detached => detached == Some(k),
        } by {
            assert(before.contains_key(k));
            let j = choose|j: int| 0 <= j < current@.len() && #[trigger] current@[j].0 == k;
            assert(current@[j].1 == before[k]);
        }
        assert forall|t: usize| targets@.contains(t) && #[trigger] has_window_on(before, t) implies attached@.contains(t) by {
            let k = choose|k: usize| #[trigger] before.contains_key(k) && before[k] == WidgetSurface::Attached(t);
            let j = choose|j: int| 0 <= j < current@.len() && #[trigger] current@[j].0 == k;
            assert(current@[j].1 == WidgetSurface::Attached(t));
        }
        if exists|k: usize| before.contains_key(k) && #[trigger] before[k] is Detached {
            let k = choose|k: usize| before.contains_key(k) && #[trigger] before[k] is Detached;
            let j = choose|j: int| 0 <= j < current@.len() && #[trigger] current@[j].0 == k;
            assert(current@[j].1 is Detached);
        }
        if surfaces_settled(before, targets@) {
            assert forall|t: usize| #[trigger] targets@.contains(t) implies attached@.to_set().contains(t) by {
                assert(has_window_on(before, t));
                let k = choose|k: usize| #[trigger] before.contains_key(k) && before[k] == WidgetSurface::Attached(t);
                let j = choose|j: int| 0 <= j < current@.len() && #[trigger] current@[j].0 == k;
                assert(current@[j].1 == WidgetSurface::Attached(t));
            }
            assert(attached@.to_set() =~= targets@.to_set());
        }
    }
    Ok((attached, detached, Ghost(owner)))
}

/// A duplicate-free sequence inside another of the same length covers it.
proof fn lemma_full_cover(a: Seq<usize>, b: Seq<usize>)
    requires
        a.no_duplicates(),
        forall|x: usize| #[trigger] a.contains(x) ==> b.contains(x),
        a.len() == b.len(),
    ensures
        forall|x: usize| #[trigger] b.contains(x) ==> a.contains(x),
{
    a.unique_seq_to_set();
    b.lemma_cardinality_of_set();
    assert(a.to_set().subset_of(b.to_set()));
    vstd::set_lib::lemma_len_subset(a.to_set(), b.to_set());
    vstd::set_lib::lemma_subset_equality(a.to_set(), b.to_set());
    assert forall|x: usize| #[trigger] b.contains(x) implies a.contains(x) by {
        assert(b.to_set().contains(x));
    }
}

/// A window attached to `t` before is still attached to it after.
pub open spec fn kept_attachment(before: SurfaceMap, after: SurfaceMap, t: usize) -> bool {
    exists|k: usize|
        before.contains_key(k) && before[k] == WidgetSurface::Attached(t) && after.contains_key(k) && #[trigger] after[k]
            == WidgetSurface::Attached(t)
}

/// Some window floated before.
pub open spec fn had_floating(before: SurfaceMap) -> bool {
    exists|k: usize| before.contains_key(k) && #[trigger] before[k] is Detached
}

/// The floating window kept without targets: one that floated before if
/// there was one, else one that existed before if any did.
pub open spec fn reused_floating(before: SurfaceMap, w: usize) -> bool {
    &&& had_floating(before) ==> before.contains_key(w) && before[w] is Detached
    &&& (exists|k: usize| #[trigger] before.contains_key(k)) ==> before.contains_key(w)
}

proof fn lemma_same_length_same_elements(a: Seq<usize>, b: Seq<usize>)
    requires
        a.no_duplicates(),
        b.no_duplicates(),
        forall|x: usize| #[trigger] a.contains(x) ==> b.contains(x),
        a.len() == b.len(),
    ensures
        forall|x: usize| #[trigger] b.contains(x) ==> a.contains(x),
{
    a.unique_seq_to_set();
    b.unique_seq_to_set();
    assert(a.to_set().subset_of(b.to_set()));
    vstd::set_lib::lemma_subset_equality(a.to_set(), b.to_set());
    assert forall|x: usize| #[trigger] b.contains(x) implies a.contains(x) by {
        assert(b.to_set().contains(x));
    }
}

proof fn lemma_same_elements_same_length(a: Seq<usize>, b: Seq<usize>)
    requires
        a.no_duplicates(),
        b.no_duplicates(),
        forall|x: usize| #[trigger] a.contains(x) ==> b.contains(x),
        forall|x: usize| #[trigger] b.contains(x) ==> a.contains(x),
    ensures
        a.len() == b.len(),
{
    a.unique_seq_to_set();
    b.unique_seq_to_set();
    assert(a.to_set() =~= b.to_set());
}

proof fn lemma_matching_surfaces_reconciled(current: Seq<(usize, WidgetSurface<usize>)>, windows: SurfaceMap, targets: Seq<usize>)
    requires
        lists_windows(current, windows),
        targets.len() > 0,
        current.len() == targets.len(),
        forall|i: int| 0 <= i < targets.len() ==> #[trigger] current[i].1 == WidgetSurface::Attached(targets[i]),
    ensures
        reconciled(windows, targets, 0),
{
    assert forall|k: usize| #[trigger] windows.contains_key(k) implies match windows[k] {
        WidgetSurface::Attached(t) => targets.contains(t),
        WidgetSurface::Detached => false,
    } by {
        let j = choose|j: int| 0 <= j < current.len() && #[trigger] current[j].0 == k;
        assert(current[j].1 == WidgetSurface::Attached(targets[j]));
    }
    if targets.no_duplicates() {
        assert forall|k1: usize, k2: usize|
            #![trigger windows[k1], windows[k2]]
            windows.contains_key(k1) && windows.contains_key(k2) && k1 != k2 && windows[k1] is Attached
                implies windows[k1] != windows[k2] by {
            let j1 = choose|j: int| 0 <= j < current.len() && #[trigger] current[j].0 == k1;
            let j2 = choose|j: int| 0 <= j < current.len() && #[trigger] current[j].0 == k2;
            assert(current[j1].1 == WidgetSurface::Attached(targets[j1]));
            assert(current[j2].1 == WidgetSurface::Attached(targets[j2]));
        }
        assert(one_window_per_target(windows));
    }
    assert forall|t: usize| #[trigger] targets.contains(t) implies has_window_on(windows, t) by {
        let i = choose|i: int| 0 <= i < targets.len() && targets[i] == t;
        assert(current[i].1 == WidgetSurface::Attached(targets[i]));
        assert(windows.contains_key(current[i].0));
    }
    assert(forall|k: usize| #[trigger] windows.contains_key(k) ==> windows[k] is Attached);
}

/// Keeps one widget on each of the given taskbars, reusing the windows that
/// already exist, and returns the attach errors that were recovered by
/// keeping a floating window.
///
/// Without targets exactly one floating window is kept. With targets the
/// first window attached to each target and the first floating window are
/// kept and every other window is destroyed; each target without a window
/// then takes the floating window, or a new one once that fallback is
/// locked by a failed attach. A failed attach keeps its window as the
/// floating fallback, or destroys it when one is already kept, and ends the
/// pass when nothing is attached. Creation, detach and destroy errors are
/// returned at once.
pub fn reconcile_widget_surfaces<B: WidgetSurfaceBackend>(backend: &mut B, targets: &[usize]) -> (r: Result<Vec<B::Error>, B::Error>)
    ensures
        r matches Ok(errors) ==> reconciled(final(backend).windows(), targets@, errors@.len()),
        surfaces_settled(old(backend).windows(), targets@) ==> (r matches Ok(errors) && errors@.len() == 0
            && final(backend).windows() == old(backend).windows()
            && final(backend).surface_calls() == old(backend).surface_calls()),
        surface_log_extends(old(backend).surface_calls(), final(backend).surface_calls()),
        attaches_listed(surface_calls_since(old(backend).surface_calls(), final(backend).surface_calls()), targets@),
        r matches Ok(errors) ==> errors@ == attach_errors(surface_calls_since(old(backend).surface_calls(), final(backend).surface_calls())),
        r matches Err(e) ==> ends_in_failure(surface_calls_since(old(backend).surface_calls(), final(backend).surface_calls()), e),
        r is Ok && targets@.len() > 0 ==> forall|t: usize|
            targets@.contains(t) && #[trigger] has_window_on(old(backend).windows(), t) ==> kept_attachment(
                old(backend).windows(),
                final(backend).windows(),
                t,
            ),
        r is Ok && targets@.len() > 0 && had_floating(old(backend).windows()) && (exists|t: usize|
            targets@.contains(t) && !#[trigger] has_window_on(old(backend).windows(), t)) ==> exists|k: usize|
            old(backend).windows().contains_key(k) && old(backend).windows()[k] is Detached
                && #[trigger] final(backend).windows().contains_key(k),
        r is Ok && targets@.len() == 0 ==> exists|w: usize|
            floating_only(final(backend).windows(), w) && reused_floating(old(backend).windows(), w) && kept_floating(
                old(backend).listed_surfaces(),
                old(backend).windows(),
                w,
            ),
        targets@.len() > 0 && (forall|t: usize| targets@.contains(t) ==> #[trigger] has_window_on(old(backend).windows(), t))
            ==> forall|n: int|
            0 <= n < surface_calls_since(old(backend).surface_calls(), final(backend).surface_calls()).len() ==> !(
            #[trigger] surface_calls_since(old(backend).surface_calls(), final(backend).surface_calls())[n] is CreateDetached),
        targets@.len() == 0 ==> forall|n: int|
            0 <= n < surface_calls_since(old(backend).surface_calls(), final(backend).surface_calls()).len()
                && (#[trigger] surface_calls_since(old(backend).surface_calls(), final(backend).surface_calls())[n]) is CreateDetached
                ==> old(backend).windows().dom() == Set::<usize>::empty(),
{
    let ghost log0 = backend.surface_calls();
    proof {
        lemma_log_same(log0);
    }
    let current = backend.surfaces();
    let ghost start = backend.windows();
    let n = targets.len();
    if (n > 0 && surfaces_match_targets(&current, targets)) || (n == 0 && current.len() == 1 && matches!(current[0].1, WidgetSurface::Detached)) {
        proof {
            if n > 0 {
                lemma_matching_surfaces_reconciled(current@, start, targets@);
            } else {
                let w = current@[0].0;
                assert forall|k: usize| start.contains_key(k) implies k == w by {
                    let j = choose|j: int| 0 <= j < current@.len() && #[trigger] current@[j].0 == k;
                }
                assert(start.dom() =~= set![w]);
                assert(floating_only(start, w));
            }
            assert(backend.windows() == start);
            assert(reconciled(start, targets@, 0));
            if n > 0 {
                assert forall|t: usize| targets@.contains(t) && #[trigger] has_window_on(start, t) implies kept_attachment(start, start, t) by {
                    let k = choose|k: usize| #[trigger] start.contains_key(k) && start[k] == WidgetSurface::Attached(t);
                    assert(start[k] == WidgetSurface::Attached(t));
                }
                if had_floating(start) {
                    let k = choose|k: usize| start.contains_key(k) && #[trigger] start[k] is Detached;
                    assert(start.contains_key(k));
                }
            } else {
                let w = current@[0].0;
                assert(floating_only(start, w) && reused_floating(start, w));
            }
        }
        return Ok(Vec::new());
    }
    if n == 0 {
        proof {
            if surfaces_settled(start, targets@) {
                let w = choose|w: usize| floating_only(start, w);
                assert(start.contains_key(w));
                let j = choose|j: int| 0 <= j < current@.len() && #[trigger] current@[j].0 == w;
                if current@.len() > 1 {
                    let o = if j == 0 { 1int } else { 0int };
                    assert(start.contains_key(current@[o].0));
                    assert(start.dom().contains(current@[o].0));
                }
                assert(current@[0].0 == w);
            }
        }
        let kept = keep_one_floating(backend, &current);
        match kept {
            Ok(()) => {
                proof {
                    lemma_no_attaches_no_errors(surface_calls_since(log0, backend.surface_calls()));
                    let w = choose|w: usize| floating_only(backend.windows(), w) && kept_floating(current@, start, w);
                    if had_floating(start) {
                        let k = choose|k: usize| start.contains_key(k) && #[trigger] start[k] is Detached;
                        let j = choose|j: int| 0 <= j < current@.len() && #[trigger] current@[j].0 == k;
                        assert(current@[j].1 is Detached);
                        let j2 = choose|j: int|
                            0 <= j < current@.len() && #[trigger] current@[j].1 is Detached && current@[j].0 == w
                                && forall|m: int| 0 <= m < j ==> !(#[trigger] current@[m].1 is Detached);
                        assert(start.contains_key(current@[j2].0));
                    }
                    if exists|k: usize| #[trigger] start.contains_key(k) {
                        let k = choose|k: usize| #[trigger] start.contains_key(k);
                        let j = choose|j: int| 0 <= j < current@.len() && #[trigger] current@[j].0 == k;
                        if exists|j: int| 0 <= j < current@.len() && #[trigger] current@[j].1 is Detached {
                            let j2 = choose|j: int|
                                0 <= j < current@.len() && #[trigger] current@[j].1 is Detached && current@[j].0 == w
                                    && forall|m: int| 0 <= m < j ==> !(#[trigger] current@[m].1 is Detached);
                            assert(start.contains_key(current@[j2].0));
                        } else {
                            assert(start.contains_key(current@[0].0));
                        }
                    }
                    assert(reused_floating(start, w));
                }
                return Ok(Vec::new());
            },
            Err(e) => {
                return Err(e);
            },
        }
    }
    let sorted_result = sort_existing(backend, &current, targets);
    let (mut attached, mut detached, Ghost(owner0)) = match sorted_result {
        Ok(v) => v,
        Err(e) => {
            return Err(e);
        },
    };
    let ghost log_sorted = backend.surface_calls();
    proof {
        lemma_no_attaches_no_errors(surface_calls_since(log0, log_sorted));
    }
    let ghost mut owner = owner0;
    let ghost sorted = backend.windows();
    let ghost d0 = detached;
    proof {
        assert forall|t: usize| #[trigger] attached@.contains(t) implies start.contains_key(owner0[t]) && start[owner0[t]]
            == WidgetSurface::Attached(t) by {
            assert(sorted.contains_key(owner0[t]) && sorted[owner0[t]] == WidgetSurface::Attached(t));
        }
        if let Some(d) = d0 {
            assert(sorted.contains_key(d) && sorted[d] is Detached);
        }
    }
    if attached.len() == targets.len() {
        if let Some(window) = detached {
            let destroyed = backend.destroy(window);
            proof {
                lemma_log_push(log0, log_sorted, SurfaceCall::Destroy(window, destroyed));
            }
            match destroyed {
                Ok(()) => {},
                Err(e) => {
                    return Err(e);
                },
            }
        }
        proof {
            let after = backend.windows();
            if targets@.no_duplicates() {
                lemma_same_length_same_elements(attached@, targets@);
            }
            assert(forall|t: usize| #[trigger] attached@.contains(t) ==> after.contains_key(owner[t]) && after[owner[t]]
                == WidgetSurface::Attached(t));
            assert forall|k: usize| #[trigger] after.contains_key(k) implies after[k] is Attached by {
                assert(sorted.contains_key(k));
            }
            if targets@.no_duplicates() {
                assert forall|t: usize| #[trigger] targets@.contains(t) implies has_window_on(after, t) by {
                    assert(attached@.contains(t));
                    assert(after.contains_key(owner[t]));
                }
            }
            assert forall|t: usize| targets@.contains(t) && #[trigger] has_window_on(start, t) implies kept_attachment(start, after, t) by {
                assert(attached@.contains(t));
                assert(after.contains_key(owner[t]) && after[owner[t]] == WidgetSurface::Attached(t));
            }
            if exists|t: usize| targets@.contains(t) && !#[trigger] has_window_on(start, t) {
                let t = choose|t: usize| targets@.contains(t) && !#[trigger] has_window_on(start, t);
                lemma_full_cover(attached@, targets@);
                assert(attached@.contains(t));
                assert(start.contains_key(owner0[t]) && start[owner0[t]] == WidgetSurface::Attached(t));
                assert(has_window_on(start, t));
            }
        }
        return Ok(Vec::new());
    }
    proof {
        if surfaces_settled(start, targets@) {
            assert forall|x: usize| #[trigger] attached@.contains(x) implies targets@.contains(x) by {
                assert(attached@.to_set().contains(x));
            }
            assert forall|x: usize| #[trigger] targets@.contains(x) implies attached@.contains(x) by {
                assert(targets@.to_set().contains(x));
            }
            lemma_same_elements_same_length(attached@, targets@);
        }
    }
    let ghost attached0 = attached@;
    let mut errors: Vec<B::Error> = Vec::new();
    let mut fallback_locked = false;
    let mut stop = false;
    let mut i: usize = 0;
    while i < n && !stop
        invariant
            start == old(backend).windows(),
            !surfaces_settled(start, targets@),
            n == targets@.len(),
            n > 0,
            i <= n,
            attached0.no_duplicates(),
            attached0.len() != n,
            forall|t: usize| #[trigger] attached0.contains(t) ==> targets@.contains(t),
            attached@.no_duplicates(),
            forall|t: usize| #[trigger] attached@.contains(t) ==> targets@.contains(t),
            forall|k: usize| #[trigger] backend.windows().contains_key(k) ==> match backend.windows()[k] {
                WidgetSurface::Attached(t) => attached@.contains(t) && owner[t] == k,
                WidgetSurface::Detached => detached == Some(k),
            },
            forall|t: usize| #[trigger] attached@.contains(t) ==> backend.windows().contains_key(owner[t]) && backend.windows()[owner[t]]
                == WidgetSurface::Attached(t),
            detached matches Some(d) ==> backend.windows().contains_key(d) && backend.windows()[d] == WidgetSurface::<usize>::Detached,
            fallback_locked ==> detached is Some,
            fallback_locked <==> errors@.len() > 0,
            errors@.len() <= i,
            stop ==> errors@.len() > 0,
            errors@.len() == 0 ==> forall|j: int| 0 <= j < i ==> attached@.contains(#[trigger] targets@[j]),
            errors@.len() == 0 && detached is Some ==> attached@ == attached0 && forall|j: int|
                0 <= j < i ==> attached0.contains(#[trigger] targets@[j]),
            log0 == old(backend).surface_calls(),
            surface_log_extends(log0, backend.surface_calls()),
            attaches_listed(surface_calls_since(log0, backend.surface_calls()), targets@),
            errors@ == attach_errors(surface_calls_since(log0, backend.surface_calls())),
            start == old(backend).windows(),
            forall|t: usize| #[trigger] attached0.contains(t) ==> attached@.contains(t) && owner[t] == owner0[t],
            forall|t: usize| #[trigger] attached0.contains(t) ==> start.contains_key(owner0[t]) && start[owner0[t]]
                == WidgetSurface::Attached(t),
            forall|t: usize| targets@.contains(t) && #[trigger] has_window_on(start, t) ==> attached0.contains(t),
            had_floating(start) ==> d0 is Some,
            d0 matches Some(d) ==> backend.windows().contains_key(d) && start.contains_key(d) && start[d] is Detached,
            (forall|t: usize| targets@.contains(t) ==> #[trigger] has_window_on(start, t)) ==> forall|m: int|
                0 <= m < surface_calls_since(log0, backend.surface_calls()).len() ==> !(
                #[trigger] surface_calls_since(log0, backend.surface_calls())[m] is CreateDetached),
        decreases n - i,
    {
        let target = targets[i];
        proof {
            if forall|t: usize| targets@.contains(t) ==> #[trigger] has_window_on(start, t) {
                assert(targets@.contains(target));
                assert(has_window_on(start, target));
                assert(attached@.contains(target));
            }
        }
        if !contains_target(attached.as_slice(), target) {
            let ghost prev = attached@;
            let ghost before_window = backend.windows();
            let reuse = if !fallback_locked {
                detached
            } else {
                None
            };
            let window = match reuse {
                Some(w) => {
                    detached = None;
                    w
                },
                None => {
                    let ghost before_call = backend.surface_calls();
                    let created = backend.create_detached();
                    proof {
                        lemma_log_push(log0, before_call, SurfaceCall::CreateDetached(created));
                    }
                    match created {
                        Ok(w) => w,
                        Err(e) => {
                            return Err(e);
                        },
                    }
                },
            };
            let ghost with_window = backend.windows();
            proof {
                assert(with_window.contains_key(window) && with_window[window] == WidgetSurface::<usize>::Detached);
                assert(forall|k: usize| #[trigger] with_window.contains_key(k) && k != window ==> before_window.contains_key(k)
                    && with_window[k] == before_window[k]);
                assert(!before_window.contains_key(window) ==> with_window == before_window.insert(window, WidgetSurface::Detached));
            }
            let ghost before_attach = backend.surface_calls();
            let attach_result = backend.attach(window, target);
            proof {
                lemma_log_push(log0, before_attach, SurfaceCall::Attach(window, target, attach_result));
            }
            match attach_result {
                Ok(()) => {
                    attached.push(target);
                    proof {
                        owner = owner.insert(target, window);
                        assert(attached@ == prev.push(target));
                        assert forall|a: int, b: int| 0 <= a < b < attached@.len() implies attached@[a] != attached@[b] by {
                            if b == attached@.len() - 1 {
                                assert(prev.contains(prev[a]));
                            }
                        }
                        assert forall|t: usize| #[trigger] attached@.contains(t) implies prev.contains(t) || t == target by {
                            let x = choose|x: int| 0 <= x < attached@.len() && attached@[x] == t;
                            if x < prev.len() {
                                assert(prev[x] == t);
                            }
                        }
                        assert forall|t: usize| prev.contains(t) implies #[trigger] attached@.contains(t) by {
                            let x = choose|x: int| 0 <= x < prev.len() && prev[x] == t;
                            assert(attached@[x] == t);
                        }
                        assert(attached@.contains(target)) by {
                            assert(attached@[attached@.len() - 1] == target);
                        }
                    }
                },
                Err(error) => {
                    errors.push(error);
                    if detached.is_none() {
                        detached = Some(window);
                        fallback_locked = true;
                    } else {
                        let ghost before_call = backend.surface_calls();
                        let destroyed = backend.destroy(window);
                        proof {
                            lemma_log_push(log0, before_call, SurfaceCall::Destroy(window, destroyed));
                        }
                        match destroyed {
                            Ok(()) => {},
                            Err(e) => {
                                return Err(e);
                            },
                        }
                    }
                    if attached.len() == 0 {
                        stop = true;
                    }
                },
            }
        }
        i += 1;
    }
    proof {
        let after = backend.windows();
        assert forall|t: usize| targets@.contains(t) && #[trigger] has_window_on(start, t) implies kept_attachment(start, after, t) by {
            assert(attached0.contains(t));
            assert(after.contains_key(owner[t]) && after[owner[t]] == WidgetSurface::Attached(t));
        }
        if had_floating(start) {
            let d = d0->0;
            assert(after.contains_key(d));
        }
        if errors@.len() > 0 {
            let d = detached->0;
            assert(after.contains_key(d) && after[d] is Detached);
        }
        assert(forall|k1: usize, k2: usize|
            #![trigger after[k1], after[k2]]
            after.contains_key(k1) && after.contains_key(k2) && after[k1] is Detached && after[k2] is Detached
                ==> k1 == k2);
        assert(one_window_per_target(after));
        if targets@.no_duplicates() && errors@.len() == 0 {
            assert(i == n);
            assert forall|t: usize| #[trigger] targets@.contains(t) implies has_window_on(after, t) by {
                let j = choose|j: int| 0 <= j < n && targets@[j] == t;
                assert(attached@.contains(targets@[j]));
                assert(after.contains_key(owner[t]));
            }
            assert forall|k: usize| #[trigger] after.contains_key(k) implies after[k] is Attached by {
                if after[k] is Detached {
                    assert(detached == Some(k));
                    assert forall|x: usize| #[trigger] targets@.contains(x) implies attached0.contains(x) by {
                        let j = choose|j: int| 0 <= j < n && targets@[j] == x;
                        assert(attached0.contains(targets@[j]));
                    }
                    lemma_same_elements_same_length(attached0, targets@);
                }
            }
        }
    }
    Ok(errors)
}

/// Where the notification area is assumed to be when Windows does not say:
/// the right end of the taskbar, 180 logical pixels wide and at most a
/// third of the taskbar.
pub open spec fn notification_fallback(taskbar: Rect, dpi: u32) -> Rect {
    let third = trunc_div3(taskbar.spec_width());
    let p = #[verifier::truncate] (physical(180, dpi as int) as i32);
    let m = if p < third { p as int } else { third };
    let reserved = if m < 0 { 0 } else { m };
    Rect { left: saturate(taskbar.right - reserved) as i32, top: taskbar.top, right: taskbar.right, bottom: taskbar.bottom }
}

/// `v / 3` rounded toward zero.
pub open spec fn trunc_div3(v: int) -> int {
    if v >= 0 { v / 3 } else { -((-v) / 3) }
}

/// The assumed notification area of a taskbar.
pub fn fallback_notification_area(taskbar: Rect, dpi: u32) -> (r: Rect)
    requires
        i32::MIN <= taskbar.spec_width() <= i32::MAX,
    ensures
        r == notification_fallback(taskbar, dpi),
{
    let width = taskbar.width();
    let third = if width >= 0 { width / 3 } else { -((-(width as i64) / 3) as i32) };
    let physical_width = logical_to_physical(180, dpi);
    let m = if physical_width < third { physical_width } else { third };
    let reserved = if m < 0 { 0 } else { m };
    Rect::new(saturating_sub(taskbar.right, reserved), taskbar.top, taskbar.right, taskbar.bottom)
}

} // verus!
