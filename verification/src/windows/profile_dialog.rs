//! Platform-independent contract of the usage-profile management dialogs.

use vstd::prelude::*;
use vstd::string::*;

use crate::domain::{Language, UsageProfileId, MAX_USAGE_PROFILES};
use crate::profile_label::{
    is_blank, is_white_space, normalize_profile_label, normalized_label, ProfileValidationError,
};
use crate::text::{str_eq, string_from};
use crate::localization::{localized_text, text_of, LocalizationKey};

use super::design::{lrect, LogicalRect};
use super::profile_rows::physical_to_logical_floor;
use super::shell::IDYES;
use super::UsageProfileView;

verus! {

/// The work area of a monitor (taskbar excluded) in screen coordinates, with
/// exclusive `right` and `bottom` edges.
#[derive(Clone, Copy, Debug, PartialEq, Eq, Structural)]
pub struct DialogWorkArea {
    left: i32,
    top: i32,
    right: i32,
    bottom: i32,
}

impl DialogWorkArea {
    pub closed spec fn spec_left(self) -> i32 {
        self.left
    }

    pub closed spec fn spec_top(self) -> i32 {
        self.top
    }

    pub closed spec fn spec_right(self) -> i32 {
        self.right
    }

    pub closed spec fn spec_bottom(self) -> i32 {
        self.bottom
    }

    /// A work area from a Win32 work-area rectangle.
    pub fn new(left: i32, top: i32, right: i32, bottom: i32) -> (r: Self)
        ensures
            r.spec_left() == left,
            r.spec_top() == top,
            r.spec_right() == right,
            r.spec_bottom() == bottom,
    {
        DialogWorkArea { left, top, right, bottom }
    }
}

/// The outer size of a window (frame and caption included) in physical pixels.
#[derive(Clone, Copy, Debug, PartialEq, Eq, Structural)]
pub struct DialogWindowSize {
    width: i32,
    height: i32,
}

impl DialogWindowSize {
    pub closed spec fn spec_width(self) -> i32 {
        self.width
    }

    pub closed spec fn spec_height(self) -> i32 {
        self.height
    }

    /// A window size from the outer width and height.
    pub fn new(width: i32, height: i32) -> (r: Self)
        ensures
            r.spec_width() == width,
            r.spec_height() == height,
    {
        DialogWindowSize { width, height }
    }
}

/// The monitor whose work area places a profile dialog: the one under the
/// cursor, or the one of a live owner window, given by its handle.
#[derive(Clone, Copy, Debug, PartialEq, Eq, Structural)]
pub enum DialogMonitorAnchor {
    Cursor,
    Owner(usize),
}

/// The profile manager is placed on the monitor under the cursor.
pub fn profile_manager_dialog_monitor_anchor() -> (r: DialogMonitorAnchor)
    ensures
        r == DialogMonitorAnchor::Cursor,
{
    DialogMonitorAnchor::Cursor
}

/// The add-profile dialog is placed on its owner's monitor when the owner
/// handle is not null and its live outer size is known and positive on both
/// axes; otherwise on the monitor under the cursor.
pub fn add_profile_dialog_monitor_anchor(owner: usize, owner_size: Option<DialogWindowSize>) -> (r: DialogMonitorAnchor)
    ensures
        r == (match owner_size {
            Some(size) if owner != 0 && size.spec_width() > 0 && size.spec_height() > 0 => DialogMonitorAnchor::Owner(owner),
            _ => DialogMonitorAnchor::Cursor,
        }),
{
    match owner_size {
        None => DialogMonitorAnchor::Cursor,
        Some(size) => {
            if owner == 0 || size.width <= 0 || size.height <= 0 {
                DialogMonitorAnchor::Cursor
            } else {
                DialogMonitorAnchor::Owner(owner)
            }
        },
    }
}

/// The top-left screen position of a dialog.
#[derive(Clone, Copy, Debug, PartialEq, Eq, Structural)]
pub struct DialogOrigin {
    x: i32,
    y: i32,
}

impl DialogOrigin {
    pub closed spec fn spec_x(self) -> i32 {
        self.x
    }

    pub closed spec fn spec_y(self) -> i32 {
        self.y
    }

    /// An origin from screen coordinates.
    pub fn new(x: i32, y: i32) -> (r: Self)
        ensures
            r.spec_x() == x,
            r.spec_y() == y,
    {
        DialogOrigin { x, y }
    }
}

/// Start of a window of `size` centered on the axis from `start` to `end`:
/// the start itself when the window does not fit (or the axis is empty or
/// reversed), the centered position rounded toward the start otherwise. A
/// negative size counts as zero.
pub open spec fn centered_axis(start: int, end: int, size: int) -> int {
    let available = if end - start > 0 {
        end - start
    } else {
        0
    };
    let size = if size > 0 {
        size
    } else {
        0
    };
    if size >= available {
        start
    } else {
        start + (available - size) / 2
    }
}

/// Centers the dialog's outer frame in the work area on each axis; on an axis
/// where the frame is larger than the work area, it starts at the work area's
/// start.
pub fn centered_dialog_origin(work_area: DialogWorkArea, window_size: DialogWindowSize) -> (r:
    DialogOrigin)
    ensures
        r.spec_x() == centered_axis(
            work_area.spec_left() as int,
            work_area.spec_right() as int,
            window_size.spec_width() as int,
        ),
        r.spec_y() == centered_axis(
            work_area.spec_top() as int,
            work_area.spec_bottom() as int,
            window_size.spec_height() as int,
        ),
{
    DialogOrigin::new(
        centered_dialog_axis(work_area.left, work_area.right, window_size.width),
        centered_dialog_axis(work_area.top, work_area.bottom, window_size.height),
    )
}

fn centered_dialog_axis(start: i32, end: i32, window_size: i32) -> (r: i32)
    ensures
        r == centered_axis(start as int, end as int, window_size as int),
{
    let start64 = start as i64;
    let difference = end as i64 - start64;
    let available = if difference > 0 {
        difference
    } else {
        0
    };
    let size = if window_size > 0 {
        window_size as i64
    } else {
        0
    };
    if size >= available {
        return start;
    }
    (start64 + (available - size) / 2) as i32
}

/// Law of centering: whenever the frame fits on an axis, it stays inside the
/// work area and its two margins differ by at most one pixel, the extra pixel
/// going to the end.
pub proof fn lemma_centered_axis_fits(start: int, end: int, size: int)
    requires
        0 <= size <= end - start,
    ensures
        start <= centered_axis(start, end, size),
        centered_axis(start, end, size) + size <= end,
        ({
            let x = centered_axis(start, end, size);
            let before = x - start;
            let after = end - (x + size);
            before <= after <= before + 1
        }),
{
}

/// `v` limited to `lo..=hi`.
pub open spec fn clamp_to(v: int, lo: int, hi: int) -> int {
    if v < lo {
        lo
    } else if v > hi {
        hi
    } else {
        v
    }
}

/// The length from `start` to `end`, limited to `0..=i32::MAX`.
pub open spec fn span_length(start: i32, end: i32) -> int {
    clamp_to(end - start, 0, i32::MAX as int)
}

/// The outer rectangle of a dialog of `desired` size kept in `work_area`:
/// each extent is cut to the work area's, and the current top-left corner
/// moves only as far as needed for the window to stay inside.
pub open spec fn bounded_outer_rect(current: LogicalRect, desired: DialogWindowSize, work_area: DialogWorkArea) -> LogicalRect {
    let width = clamp_to(desired.spec_width() as int, 0, span_length(work_area.spec_left(), work_area.spec_right()));
    let height = clamp_to(desired.spec_height() as int, 0, span_length(work_area.spec_top(), work_area.spec_bottom()));
    let left = clamp_to(current.left as int, work_area.spec_left() as int, work_area.spec_right() - width);
    let top = clamp_to(current.top as int, work_area.spec_top() as int, work_area.spec_bottom() - height);
    lrect(left, top, left + width, top + height)
}

fn clamp_i32(v: i32, lo: i32, hi: i32) -> (r: i32)
    requires
        lo <= hi,
    ensures
        r == clamp_to(v as int, lo as int, hi as int),
{
    if v < lo {
        lo
    } else if v > hi {
        hi
    } else {
        v
    }
}

fn span_i32(start: i32, end: i32) -> (r: i32)
    ensures
        r == span_length(start, end),
{
    let difference = end as i64 - start as i64;
    if difference < 0 {
        0
    } else if difference > i32::MAX as i64 {
        i32::MAX
    } else {
        difference as i32
    }
}

/// Limits the requested outer size to the destination work area on both
/// axes and moves the current top-left corner into the visible range. The
/// rectangle never leaves the work area, keeps each requested extent that
/// fits, and keeps the current position where the window fits there.
pub fn bound_dialog_outer_rect(current: LogicalRect, desired: DialogWindowSize, work_area: DialogWorkArea) -> (r: LogicalRect)
    requires
        work_area.spec_left() <= work_area.spec_right(),
        work_area.spec_top() <= work_area.spec_bottom(),
    ensures
        r == bounded_outer_rect(current, desired, work_area),
        work_area.spec_left() <= r.left <= r.right <= work_area.spec_right(),
        work_area.spec_top() <= r.top <= r.bottom <= work_area.spec_bottom(),
        0 <= desired.spec_width() <= work_area.spec_right() - work_area.spec_left()
            ==> r.spec_width() == desired.spec_width(),
        0 <= desired.spec_height() <= work_area.spec_bottom() - work_area.spec_top()
            ==> r.spec_height() == desired.spec_height(),
        work_area.spec_left() <= current.left && current.left + r.spec_width() <= work_area.spec_right()
            ==> r.left == current.left,
        work_area.spec_top() <= current.top && current.top + r.spec_height() <= work_area.spec_bottom()
            ==> r.top == current.top,
{
    let width = clamp_i32(desired.width, 0, span_i32(work_area.left, work_area.right));
    let height = clamp_i32(desired.height, 0, span_i32(work_area.top, work_area.bottom));
    let left = clamp_i32(current.left, work_area.left, work_area.right - width);
    let top = clamp_i32(current.top, work_area.top, work_area.bottom - height);
    LogicalRect::new(left, top, left + width, top + height)
}

/// The logical client width a dialog asks for without a known work area.
pub const PREFERRED_DIALOG_CLIENT_WIDTH: i32 = 620;

/// The horizontal or vertical extent of a measured window frame, `0` when
/// it could not be measured or is negative.
pub open spec fn frame_extent(frame: Option<DialogWindowSize>, horizontal: bool) -> int {
    match frame {
        Some(f) => {
            let e = if horizontal { f.spec_width() } else { f.spec_height() };
            if e < 0 { 0 } else { e as int }
        },
        None => 0,
    }
}

/// The client width to request: the preferred width without a work area;
/// otherwise the work area's width less the window frame (`frame` is the
/// outer size of an empty client), in logical pixels at `dpi`, between one
/// and the preferred width.
pub open spec fn requested_client_width(work_area: Option<DialogWorkArea>, frame: Option<DialogWindowSize>, dpi: u32) -> int {
    match work_area {
        None => PREFERRED_DIALOG_CLIENT_WIDTH as int,
        Some(wa) => {
            let room = span_length(wa.spec_left(), wa.spec_right()) - frame_extent(frame, true);
            let physical = if room < 1 { 1 } else { room };
            let dpi = if dpi < 96 { 96 } else { dpi as int };
            clamp_to(physical * 96 / dpi, 1, PREFERRED_DIALOG_CLIENT_WIDTH as int)
        },
    }
}

fn frame_extent_i32(frame: Option<DialogWindowSize>, horizontal: bool) -> (r: i32)
    ensures
        r == frame_extent(frame, horizontal),
{
    match frame {
        Some(f) => {
            let e = if horizontal { f.width } else { f.height };
            if e < 0 { 0 } else { e }
        },
        None => 0,
    }
}

/// The logical client width a profile dialog requests in `work_area`, with
/// `frame` the measured outer size of an empty client (`None` when the
/// measurement failed).
pub fn requested_client_width_for_work_area(work_area: Option<DialogWorkArea>, frame: Option<DialogWindowSize>, dpi: u32) -> (w: i32)
    ensures
        w == requested_client_width(work_area, frame, dpi),
        1 <= w <= PREFERRED_DIALOG_CLIENT_WIDTH,
{
    match work_area {
        None => PREFERRED_DIALOG_CLIENT_WIDTH,
        Some(wa) => {
            let room = span_i32(wa.left, wa.right) - frame_extent_i32(frame, true);
            let physical = if room < 1 { 1 } else { room };
            let logical = physical_to_logical_floor(physical, dpi);
            clamp_i32(logical, 1, PREFERRED_DIALOG_CLIENT_WIDTH)
        },
    }
}

/// The tallest client that fits `work_area` once the window frame is
/// added: the work area's height less the frame, never negative.
pub fn maximum_client_height_for_work_area(work_area: DialogWorkArea, frame: Option<DialogWindowSize>) -> (h: i32)
    ensures
        h == (if span_length(work_area.spec_top(), work_area.spec_bottom()) - frame_extent(frame, false) < 0 {
            0
        } else {
            span_length(work_area.spec_top(), work_area.spec_bottom()) - frame_extent(frame, false)
        }),
{
    let room = span_i32(work_area.top, work_area.bottom) - frame_extent_i32(frame, false);
    if room < 0 {
        0
    } else {
        room
    }
}

/// The caller of a profile message box.
#[derive(Clone, Copy, Debug, PartialEq, Eq, Structural)]
pub enum ProfileMessageRoute {
    ManagerSafeError,
    AddPromptSafeError,
    ValidationWarning,
    DeleteConfirmation,
    LoginConfirmation,
    NativeOperationError,
}

/// Where a profile message box appears.
#[derive(Clone, Copy, Debug, PartialEq, Eq, Structural)]
pub enum ProfileMessagePlacement {
    /// Centered in the chosen monitor's work area.
    Centered,
}

/// Every profile message route is centered.
pub fn profile_message_placement(route: ProfileMessageRoute) -> (r: ProfileMessagePlacement)
    ensures
        r == ProfileMessagePlacement::Centered,
{
    match route {
        ProfileMessageRoute::ManagerSafeError
        | ProfileMessageRoute::AddPromptSafeError
        | ProfileMessageRoute::ValidationWarning
        | ProfileMessageRoute::DeleteConfirmation
        | ProfileMessageRoute::LoginConfirmation
        | ProfileMessageRoute::NativeOperationError => ProfileMessagePlacement::Centered,
    }
}

/// A copyable request to center one message box in a resolved work area.
#[derive(Clone, Copy, Debug, PartialEq, Eq, Structural)]
pub struct CenteredMessageBoxRequest {
    pub work_area: DialogWorkArea,
}

impl CenteredMessageBoxRequest {
    /// A request for the given work area.
    pub fn new(work_area: DialogWorkArea) -> (r: Self)
        ensures
            r.work_area == work_area,
    {
        CenteredMessageBoxRequest { work_area }
    }
}

/// The message-box centering request of the current thread, with the saved
/// state of nested calls.
#[derive(Debug)]
pub struct CenteredMessageBoxRequestState {
    pub current: Option<CenteredMessageBoxRequest>,
}

impl CenteredMessageBoxRequestState {
    /// A state with no pending request.
    pub fn new() -> (r: Self)
        ensures
            r.current is None,
    {
        CenteredMessageBoxRequestState { current: None }
    }

    /// Installs `request` and returns the previous one, to restore when the
    /// nested call ends.
    pub fn install(&mut self, request: CenteredMessageBoxRequest) -> (previous: Option<
        CenteredMessageBoxRequest,
    >)
        ensures
            previous == old(self).current,
            final(self).current == Some(request),
    {
        let previous = self.current;
        self.current = Some(request);
        previous
    }

    /// Takes the current request; a second call in the same activation gets
    /// `None`.
    pub fn consume(&mut self) -> (taken: Option<CenteredMessageBoxRequest>)
        ensures
            taken == old(self).current,
            final(self).current is None,
    {
        let taken = self.current;
        self.current = None;
        taken
    }

    /// Restores the request saved before a nested message box.
    pub fn restore(&mut self, previous: Option<CenteredMessageBoxRequest>)
        ensures
            final(self).current == previous,
    {
        self.current = previous;
    }
}

/// UTF-16 units that hold a 40-scalar profile label without loss.
pub const PROFILE_LABEL_MAX_UTF16_UNITS: usize = 80;

/// A change request from the profile dialogs; labels are validated.
#[derive(Clone, Debug, PartialEq, Eq)]
pub enum ProfileDialogAction {
    Add(String),
    Rename(UsageProfileId, String),
    Login(UsageProfileId),
    Logout(UsageProfileId),
    Delete(UsageProfileId),
}

/// A command on the selected profile.
#[derive(Clone, Copy, Debug, PartialEq, Eq, Structural)]
pub enum ProfileDialogCommand {
    Rename,
    Login,
    Logout,
    Delete,
}

/// The role of a mutating control of the profile manager.
#[derive(Clone, Copy, Debug, PartialEq, Eq, Structural)]
pub enum ProfileManagerControl {
    AddBelowList,
    Rename,
    Login,
    Logout,
    Delete,
}

/// The manager's controls in creation order: the add control below the list,
/// then the bottom row.
pub const PROFILE_MANAGER_CONTROLS: [ProfileManagerControl; 5] = [
    ProfileManagerControl::AddBelowList,
    ProfileManagerControl::Rename,
    ProfileManagerControl::Login,
    ProfileManagerControl::Logout,
    ProfileManagerControl::Delete,
];

/// The visible text and the accessible description of a manager control.
#[derive(Clone, Copy, Debug, PartialEq, Eq)]
pub struct ProfileManagerControlSpec {
    pub visible_text: &'static str,
    pub accessible_description: Option<&'static str>,
}

/// Visible text of a manager control.
pub open spec fn control_text(control: ProfileManagerControl, language: Language) -> Seq<char> {
    match control {
        ProfileManagerControl::AddBelowList => "+"@,
        ProfileManagerControl::Rename => text_of(LocalizationKey::UsageProfileRename, language),
        ProfileManagerControl::Login => text_of(LocalizationKey::UsageProfileLogin, language),
        ProfileManagerControl::Logout => text_of(LocalizationKey::UsageProfileLogout, language),
        ProfileManagerControl::Delete => text_of(LocalizationKey::UsageProfileDelete, language),
    }
}

/// The text and description of a manager control: the add control shows only
/// `+` and describes itself with the add-profile text; the others show their
/// command name and need no description.
pub fn profile_manager_control_spec(control: ProfileManagerControl, language: Language) -> (r:
    ProfileManagerControlSpec)
    ensures
        r.visible_text@ == control_text(control, language),
        control == ProfileManagerControl::AddBelowList ==> (r.accessible_description matches Some(
            d,
        ) && d@ == text_of(LocalizationKey::MenuAddUsageProfile, language)),
        control != ProfileManagerControl::AddBelowList ==> r.accessible_description is None,
{
    match control {
        ProfileManagerControl::AddBelowList => ProfileManagerControlSpec {
            visible_text: "+",
            accessible_description: Some(
                localized_text(LocalizationKey::MenuAddUsageProfile, language),
            ),
        },
        ProfileManagerControl::Rename => ProfileManagerControlSpec {
            visible_text: localized_text(LocalizationKey::UsageProfileRename, language),
            accessible_description: None,
        },
        ProfileManagerControl::Login => ProfileManagerControlSpec {
            visible_text: localized_text(LocalizationKey::UsageProfileLogin, language),
            accessible_description: None,
        },
        ProfileManagerControl::Logout => ProfileManagerControlSpec {
            visible_text: localized_text(LocalizationKey::UsageProfileLogout, language),
            accessible_description: None,
        },
        ProfileManagerControl::Delete => ProfileManagerControlSpec {
            visible_text: localized_text(LocalizationKey::UsageProfileDelete, language),
            accessible_description: None,
        },
    }
}

/// Phase of the profile manager with respect to its add prompt.
#[derive(Clone, Copy, Debug, PartialEq, Eq, Structural)]
pub enum ProfileManagerDialogPhase {
    Live,
    AddPromptActive,
    Closed,
}

/// The manager's single nesting of the add prompt: only a live manager opens
/// the prompt, no command or second prompt is accepted while it is open,
/// cancelling returns to the live manager, and submitting stores exactly one
/// Add action and closes the manager.
#[derive(Clone, Debug)]
pub struct ProfileManagerDialogState {
    phase: ProfileManagerDialogPhase,
    result: Option<ProfileDialogAction>,
}

impl ProfileManagerDialogState {
    pub closed spec fn spec_phase(&self) -> ProfileManagerDialogPhase {
        self.phase
    }

    pub closed spec fn spec_result(&self) -> Option<ProfileDialogAction> {
        self.result
    }

    /// A stored action exists only once the manager has closed.
    pub open spec fn wf(&self) -> bool {
        self.spec_result() is Some ==> self.spec_phase() == ProfileManagerDialogPhase::Closed
    }

    /// A live manager with no result.
    pub fn new() -> (r: Self)
        ensures
            r.spec_phase() == ProfileManagerDialogPhase::Live,
            r.spec_result() is None,
            r.wf(),
    {
        ProfileManagerDialogState { phase: ProfileManagerDialogPhase::Live, result: None }
    }

    /// Whether the manager accepts user commands now.
    pub fn accepts_manager_commands(&self) -> (b: bool)
        ensures
            b == (self.spec_phase() == ProfileManagerDialogPhase::Live),
    {
        match self.phase {
            ProfileManagerDialogPhase::Live => true,
            _ => false,
        }
    }

    /// Opens the add prompt when adding is enabled and the manager is live.
    pub fn begin_add_prompt(&mut self, add_enabled: bool) -> (opened: bool)
        requires
            old(self).wf(),
        ensures
            opened == (add_enabled && old(self).spec_phase() == ProfileManagerDialogPhase::Live),
            opened ==> final(self).spec_phase() == ProfileManagerDialogPhase::AddPromptActive,
            !opened ==> final(self).spec_phase() == old(self).spec_phase(),
            final(self).spec_result() == old(self).spec_result(),
            final(self).wf(),
    {
        if !add_enabled || !self.accepts_manager_commands() {
            return false;
        }
        self.phase = ProfileManagerDialogPhase::AddPromptActive;
        true
    }

    /// Applies the open add prompt's result once. `None` returns to the live
    /// manager; an Add action is stored and closes the manager. Without an
    /// open prompt nothing changes; another action reopens the manager and is
    /// refused.
    pub fn finish_add_prompt(&mut self, result: Option<ProfileDialogAction>) -> (accepted: bool)
        requires
            old(self).wf(),
        ensures
            old(self).spec_phase() != ProfileManagerDialogPhase::AddPromptActive ==> {
                &&& !accepted
                &&& final(self).spec_phase() == old(self).spec_phase()
                &&& final(self).spec_result() == old(self).spec_result()
            },
            old(self).spec_phase() == ProfileManagerDialogPhase::AddPromptActive ==> match result {
                None => accepted && final(self).spec_phase() == ProfileManagerDialogPhase::Live
                    && final(self).spec_result() == old(self).spec_result(),
                Some(ProfileDialogAction::Add(label)) => accepted && final(self).spec_phase()
                    == ProfileManagerDialogPhase::Closed && final(self).spec_result() == Some(
                    ProfileDialogAction::Add(label),
                ),
                Some(_) => !accepted && final(self).spec_phase()
                    == ProfileManagerDialogPhase::Live && final(self).spec_result() == old(
                    self,
                ).spec_result(),
            },
            final(self).wf(),
    {
        match self.phase {
            ProfileManagerDialogPhase::AddPromptActive => {},
            _ => {
                return false;
            },
        }
        match result {
            None => {
                self.phase = ProfileManagerDialogPhase::Live;
                true
            },
            Some(ProfileDialogAction::Add(label)) => {
                self.result = Some(ProfileDialogAction::Add(label));
                self.phase = ProfileManagerDialogPhase::Closed;
                true
            },
            Some(_) => {
                self.phase = ProfileManagerDialogPhase::Live;
                false
            },
        }
    }

    /// Closes a live manager with `action`, storing it once; refused while the
    /// prompt is open or after closing.
    pub fn close_with_action(&mut self, action: ProfileDialogAction) -> (accepted: bool)
        requires
            old(self).wf(),
        ensures
            accepted == (old(self).spec_phase() == ProfileManagerDialogPhase::Live),
            accepted ==> final(self).spec_phase() == ProfileManagerDialogPhase::Closed
                && final(self).spec_result() == Some(action),
            !accepted ==> final(self).spec_phase() == old(self).spec_phase()
                && final(self).spec_result() == old(self).spec_result(),
            final(self).wf(),
    {
        if !self.accepts_manager_commands() {
            return false;
        }
        self.result = Some(action);
        self.phase = ProfileManagerDialogPhase::Closed;
        true
    }

    /// Takes the stored action once; `None` when there is none or it was
    /// already taken.
    pub fn take_result(&mut self) -> (taken: Option<ProfileDialogAction>)
        requires
            old(self).wf(),
        ensures
            taken == old(self).spec_result(),
            final(self).spec_result() is None,
            final(self).spec_phase() == old(self).spec_phase(),
            final(self).wf(),
    {
        let taken = self.result.take();
        taken
    }
}

impl Default for ProfileManagerDialogState {
    fn default() -> (r: Self)
        ensures
            r.spec_phase() == ProfileManagerDialogPhase::Live,
            r.spec_result() is None,
    {
        Self::new()
    }
}

/// A command of the add-profile prompt.
#[derive(Clone, Copy, Debug, PartialEq, Eq, Structural)]
pub enum AddProfilePromptCommand {
    Submit,
    Cancel,
}

/// Phase of the add-profile prompt.
#[derive(Clone, Copy, Debug, PartialEq, Eq, Structural)]
pub enum AddProfilePromptPhase {
    Live,
    Handling,
    Warning,
    Closed,
}

/// Serializes the add prompt's command handling and its nested warning: one
/// command at a time from `Live`, nothing re-enters during a warning, and a
/// closed prompt produces no second result.
#[derive(Clone, Debug)]
pub struct AddProfilePromptState {
    phase: AddProfilePromptPhase,
}

impl AddProfilePromptState {
    pub closed spec fn spec_phase(&self) -> AddProfilePromptPhase {
        self.phase
    }

    /// A prompt that accepts commands.
    pub fn new() -> (r: Self)
        ensures
            r.spec_phase() == AddProfilePromptPhase::Live,
    {
        AddProfilePromptState { phase: AddProfilePromptPhase::Live }
    }

    /// Whether submit, cancel or close is accepted now.
    pub fn accepts_commands(&self) -> (b: bool)
        ensures
            b == (self.spec_phase() == AddProfilePromptPhase::Live),
    {
        match self.phase {
            AddProfilePromptPhase::Live => true,
            _ => false,
        }
    }

    /// Starts handling one command; refused unless live.
    pub fn begin_command(&mut self) -> (started: bool)
        ensures
            started == (old(self).spec_phase() == AddProfilePromptPhase::Live),
            final(self).spec_phase() == (if started {
                AddProfilePromptPhase::Handling
            } else {
                old(self).spec_phase()
            }),
    {
        if !self.accepts_commands() {
            return false;
        }
        self.phase = AddProfilePromptPhase::Handling;
        true
    }

    /// Records that the handled command opens a warning.
    pub fn begin_warning(&mut self) -> (started: bool)
        ensures
            started == (old(self).spec_phase() == AddProfilePromptPhase::Handling),
            final(self).spec_phase() == (if started {
                AddProfilePromptPhase::Warning
            } else {
                old(self).spec_phase()
            }),
    {
        match self.phase {
            AddProfilePromptPhase::Handling => {
                self.phase = AddProfilePromptPhase::Warning;
                true
            },
            _ => false,
        }
    }

    /// Returns to accepting commands after the warning closed.
    pub fn finish_warning(&mut self) -> (finished: bool)
        ensures
            finished == (old(self).spec_phase() == AddProfilePromptPhase::Warning),
            final(self).spec_phase() == (if finished {
                AddProfilePromptPhase::Live
            } else {
                old(self).spec_phase()
            }),
    {
        match self.phase {
            AddProfilePromptPhase::Warning => {
                self.phase = AddProfilePromptPhase::Live;
                true
            },
            _ => false,
        }
    }

    /// Closes the prompt once after a successful or cancelled command.
    pub fn finish_close(&mut self) -> (closed: bool)
        ensures
            closed == (old(self).spec_phase() == AddProfilePromptPhase::Handling),
            final(self).spec_phase() == (if closed {
                AddProfilePromptPhase::Closed
            } else {
                old(self).spec_phase()
            }),
    {
        match self.phase {
            AddProfilePromptPhase::Handling => {
                self.phase = AddProfilePromptPhase::Closed;
                true
            },
            _ => false,
        }
    }
}

impl Default for AddProfilePromptState {
    fn default() -> (r: Self)
        ensures
            r.spec_phase() == AddProfilePromptPhase::Live,
    {
        Self::new()
    }
}

/// A standard modal keyboard command.
#[derive(Clone, Copy, Debug, PartialEq, Eq, Structural)]
pub enum ProfileDialogKeyboardCommand {
    Accept,
    Cancel,
}

/// What a dialog does with a keyboard command.
#[derive(Clone, Copy, Debug, PartialEq, Eq, Structural)]
pub enum ProfileDialogKeyboardResult {
    Ignore,
    CloseWithoutAction,
}

/// Escape closes without an action; Enter is ignored, since no button is the
/// default mutation.
pub fn profile_dialog_keyboard_result(command: ProfileDialogKeyboardCommand) -> (r:
    ProfileDialogKeyboardResult)
    ensures
        command == ProfileDialogKeyboardCommand::Accept ==> r
            == ProfileDialogKeyboardResult::Ignore,
        command == ProfileDialogKeyboardCommand::Cancel ==> r
            == ProfileDialogKeyboardResult::CloseWithoutAction,
{
    match command {
        ProfileDialogKeyboardCommand::Accept => ProfileDialogKeyboardResult::Ignore,
        ProfileDialogKeyboardCommand::Cancel => ProfileDialogKeyboardResult::CloseWithoutAction,
    }
}

/// A cleanup step of a closing modal dialog.
#[derive(Clone, Copy, Debug, PartialEq, Eq, Structural)]
pub enum ModalCleanupAction {
    ClearWindowState,
    DestroyWindow,
    RestoreOwner,
}

/// Lifetime of a modal profile window and of the owner it disabled.
#[derive(Clone, Debug)]
pub struct ModalDialogLifecycle {
    owner_present: bool,
    owner_was_enabled: bool,
    owner_disabled_by_dialog: bool,
    window_alive: bool,
}

/// Cleanup steps in their safe order: clear the window state and destroy a
/// live window, then re-enable an owner this dialog disabled.
pub open spec fn modal_cleanup(window_alive: bool, owner_disabled: bool) -> Seq<ModalCleanupAction> {
    (if window_alive {
        seq![ModalCleanupAction::ClearWindowState, ModalCleanupAction::DestroyWindow]
    } else {
        Seq::empty()
    }) + (if owner_disabled {
        seq![ModalCleanupAction::RestoreOwner]
    } else {
        Seq::empty()
    })
}

impl ModalDialogLifecycle {
    pub closed spec fn spec_owner_present(&self) -> bool {
        self.owner_present
    }

    pub closed spec fn spec_owner_was_enabled(&self) -> bool {
        self.owner_was_enabled
    }

    pub closed spec fn spec_owner_disabled_by_dialog(&self) -> bool {
        self.owner_disabled_by_dialog
    }

    pub closed spec fn spec_window_alive(&self) -> bool {
        self.window_alive
    }

    /// The dialog disables only an owner that exists and was enabled.
    pub open spec fn wf(&self) -> bool {
        self.spec_owner_disabled_by_dialog() ==> self.spec_owner_present()
            && self.spec_owner_was_enabled()
    }

    /// Records the owner's presence and enabled state before the modal starts.
    pub fn new(owner_present: bool, owner_was_enabled: bool) -> (r: Self)
        ensures
            r.spec_owner_present() == owner_present,
            r.spec_owner_was_enabled() == owner_was_enabled,
            !r.spec_owner_disabled_by_dialog(),
            !r.spec_window_alive(),
            r.wf(),
    {
        ModalDialogLifecycle {
            owner_present,
            owner_was_enabled,
            owner_disabled_by_dialog: false,
            window_alive: false,
        }
    }

    /// Records that the native window exists.
    pub fn window_created(&mut self)
        ensures
            final(self).spec_window_alive(),
            final(self).spec_owner_present() == old(self).spec_owner_present(),
            final(self).spec_owner_was_enabled() == old(self).spec_owner_was_enabled(),
            final(self).spec_owner_disabled_by_dialog() == old(self).spec_owner_disabled_by_dialog(),
    {
        self.window_alive = true;
    }

    /// Records that the native window was destroyed.
    pub fn window_destroyed(&mut self)
        ensures
            !final(self).spec_window_alive(),
            final(self).spec_owner_present() == old(self).spec_owner_present(),
            final(self).spec_owner_was_enabled() == old(self).spec_owner_was_enabled(),
            final(self).spec_owner_disabled_by_dialog() == old(self).spec_owner_disabled_by_dialog(),
    {
        self.window_alive = false;
    }

    /// Whether the modal must disable its owner now.
    pub fn should_disable_owner(&self) -> (b: bool)
        ensures
            b == (self.spec_owner_present() && self.spec_owner_was_enabled()
                && !self.spec_owner_disabled_by_dialog()),
    {
        self.owner_present && self.owner_was_enabled && !self.owner_disabled_by_dialog
    }

    /// Records that this modal disabled its formerly enabled owner.
    pub fn owner_disabled(&mut self)
        requires
            old(self).wf(),
        ensures
            final(self).spec_owner_disabled_by_dialog() == (old(
                self,
            ).spec_owner_disabled_by_dialog() || (old(self).spec_owner_present() && old(
                self,
            ).spec_owner_was_enabled())),
            final(self).spec_owner_present() == old(self).spec_owner_present(),
            final(self).spec_owner_was_enabled() == old(self).spec_owner_was_enabled(),
            final(self).spec_window_alive() == old(self).spec_window_alive(),
            final(self).wf(),
    {
        if self.should_disable_owner() {
            self.owner_disabled_by_dialog = true;
        }
    }

    /// The cleanup steps the current state needs, in safe order.
    pub fn cleanup_actions(&self) -> (actions: Vec<ModalCleanupAction>)
        ensures
            actions@ == modal_cleanup(self.spec_window_alive(), self.spec_owner_disabled_by_dialog()),
    {
        let mut actions = Vec::with_capacity(3);
        if self.window_alive {
            actions.push(ModalCleanupAction::ClearWindowState);
            actions.push(ModalCleanupAction::DestroyWindow);
        }
        if self.owner_disabled_by_dialog {
            actions.push(ModalCleanupAction::RestoreOwner);
        }
        assert(actions@ =~= modal_cleanup(self.window_alive, self.owner_disabled_by_dialog));
        actions
    }
}

/// Law of the modal lifecycle: the owner is restored exactly when this dialog
/// disabled it, which never happens to an owner that was absent or already
/// disabled.
pub proof fn lemma_modal_restores_only_what_it_disabled(lifecycle: ModalDialogLifecycle)
    requires
        lifecycle.wf(),
    ensures
        modal_cleanup(lifecycle.spec_window_alive(), lifecycle.spec_owner_disabled_by_dialog()).contains(
            ModalCleanupAction::RestoreOwner,
        ) ==> lifecycle.spec_owner_present() && lifecycle.spec_owner_was_enabled(),
{
    let c = modal_cleanup(lifecycle.spec_window_alive(), lifecycle.spec_owner_disabled_by_dialog());
    if c.contains(ModalCleanupAction::RestoreOwner) {
        let i = choose|i: int| 0 <= i < c.len() && c[i] == ModalCleanupAction::RestoreOwner;
        assert(lifecycle.spec_owner_disabled_by_dialog());
    }
}


/// The index of the first profile marked as shown, at or after `k`.
pub open spec fn first_selected_from(profiles: Seq<UsageProfileView>, k: int) -> Option<int>
    decreases profiles.len() - k,
{
    if k < 0 || k >= profiles.len() {
        None
    } else if profiles[k].selected {
        Some(k)
    } else {
        first_selected_from(profiles, k + 1)
    }
}

/// The initial selection of the manager: the first profile marked as shown,
/// else the first profile, else nothing.
pub open spec fn initial_selection(profiles: Seq<UsageProfileView>) -> Option<int> {
    match first_selected_from(profiles, 0) {
        Some(i) => Some(i),
        None => if profiles.len() > 0 {
            Some(0)
        } else {
            None
        },
    }
}

/// A managed profile that the application owns; only such a profile may
/// log out or be deleted.
pub open spec fn mutable_managed(profile: UsageProfileView) -> bool {
    profile.managed && profile.id is Managed
}

/// The commands a profile offers: rename and login always; logout for a
/// signed-in managed profile; delete for a managed profile.
pub open spec fn allowed_commands(profile: UsageProfileView) -> Seq<ProfileDialogCommand> {
    seq![ProfileDialogCommand::Rename, ProfileDialogCommand::Login] + (if mutable_managed(profile)
        && !profile.login_required {
        seq![ProfileDialogCommand::Logout]
    } else {
        Seq::empty()
    }) + (if mutable_managed(profile) {
        seq![ProfileDialogCommand::Delete]
    } else {
        Seq::empty()
    })
}

/// Which commands a profile offers follows from what it is: renaming and
/// signing in always; signing out exactly when the application manages the
/// profile and it is signed in; deleting exactly when the application
/// manages it. No command is offered twice.
pub proof fn lemma_profile_commands_by_kind(profile: UsageProfileView)
    ensures
        allowed_commands(profile).contains(ProfileDialogCommand::Rename),
        allowed_commands(profile).contains(ProfileDialogCommand::Login),
        allowed_commands(profile).contains(ProfileDialogCommand::Logout) <==> (profile.managed && profile.id is Managed
            && !profile.login_required),
        allowed_commands(profile).contains(ProfileDialogCommand::Delete) <==> (profile.managed && profile.id is Managed),
        allowed_commands(profile).no_duplicates(),
{
    let c = allowed_commands(profile);
    assert(c[0] == ProfileDialogCommand::Rename);
    assert(c[1] == ProfileDialogCommand::Login);
    if mutable_managed(profile) && !profile.login_required {
        assert(c[2] == ProfileDialogCommand::Logout);
        assert(c[3] == ProfileDialogCommand::Delete);
    } else if mutable_managed(profile) {
        assert(c[2] == ProfileDialogCommand::Delete);
    }
}

/// The commands that a profile offers, in display order.
pub fn available_profile_actions(profile: &UsageProfileView) -> (actions: Vec<ProfileDialogCommand>)
    ensures
        actions@ == allowed_commands(*profile),
{
    let mut actions = Vec::with_capacity(5);
    let mutable_managed_profile = profile.managed && match profile.id {
        UsageProfileId::Managed(_) => true,
        UsageProfileId::System => false,
    };
    actions.push(ProfileDialogCommand::Rename);
    actions.push(ProfileDialogCommand::Login);
    if mutable_managed_profile && !profile.login_required {
        actions.push(ProfileDialogCommand::Logout);
    }
    if mutable_managed_profile {
        actions.push(ProfileDialogCommand::Delete);
    }
    assert(actions@ =~= allowed_commands(*profile));
    actions
}

fn contains_command(commands: &Vec<ProfileDialogCommand>, command: ProfileDialogCommand) -> (b: bool)
    ensures
        b == commands@.contains(command),
{
    let mut i: usize = 0;
    while i < commands.len()
        invariant
            i <= commands.len(),
            forall|k: int| 0 <= k < i ==> commands@[k] != command,
        decreases commands.len() - i,
    {
        if commands[i] == command {
            assert(commands@[i as int] == command);
            return true;
        }
        i += 1;
    }
    false
}

/// The manager's selection and command availability over display copies of
/// the profiles.
#[derive(Clone, Debug)]
pub struct ProfileDialogController {
    profiles: Vec<UsageProfileView>,
    selected_index: Option<usize>,
    mutation_pending: bool,
}

impl ProfileDialogController {
    pub closed spec fn spec_profiles(&self) -> Seq<UsageProfileView> {
        self.profiles@
    }

    pub closed spec fn spec_selected_index(&self) -> Option<int> {
        match self.selected_index {
            Some(i) => Some(i as int),
            None => None,
        }
    }

    pub closed spec fn spec_mutation_pending(&self) -> bool {
        self.mutation_pending
    }

    /// The selection, when there is one, names a listed profile.
    pub open spec fn wf(&self) -> bool {
        self.spec_selected_index() matches Some(i) ==> 0 <= i < self.spec_profiles().len()
    }

    /// The selected profile, if any.
    pub open spec fn spec_selected_profile(&self) -> Option<UsageProfileView> {
        match self.spec_selected_index() {
            Some(i) => Some(self.spec_profiles()[i]),
            None => None,
        }
    }

    /// Adding is open when nothing is pending and fewer than the maximum of
    /// profiles exist.
    pub open spec fn spec_can_add(&self) -> bool {
        !self.spec_mutation_pending() && self.spec_profiles().len() < MAX_USAGE_PROFILES
    }

    /// A command is enabled when nothing is pending and the selected profile
    /// offers it.
    pub open spec fn spec_command_enabled(&self, command: ProfileDialogCommand) -> bool {
        !self.spec_mutation_pending() && match self.spec_selected_profile() {
            Some(p) => allowed_commands(p).contains(command),
            None => false,
        }
    }

    /// A model of the manager over copies of `profiles`, selecting the first
    /// profile marked as shown, else the first one; an empty list is allowed
    /// and leaves every selection command disabled.
    pub fn new(profiles: &[UsageProfileView], mutation_pending: bool) -> (r: Self)
        ensures
            r.spec_profiles() == profiles@,
            r.spec_selected_index() == initial_selection(profiles@),
            r.spec_mutation_pending() == mutation_pending,
            r.wf(),
    {
        let mut copies: Vec<UsageProfileView> = Vec::new();
        let mut first: Option<usize> = None;
        let mut i: usize = 0;
        while i < profiles.len()
            invariant
                i <= profiles.len(),
                copies@ == profiles@.take(i as int),
                first_selected_from(profiles@, 0) == (match first {
                    Some(k) => Some(k as int),
                    None => first_selected_from(profiles@, i as int),
                }),
                first matches Some(k) ==> k < i,
            decreases profiles.len() - i,
        {
            if first.is_none() && profiles[i].selected {
                first = Some(i);
            }
            copies.push(profiles[i].clone());
            i += 1;
            assert(copies@ =~= profiles@.take(i as int));
        }
        assert(profiles@.take(profiles.len() as int) =~= profiles@);
        let selected_index = match first {
            Some(k) => Some(k),
            None => if profiles.len() > 0 {
                Some(0)
            } else {
                None
            },
        };
        ProfileDialogController { profiles: copies, selected_index, mutation_pending }
    }

    /// Whether adding a profile is enabled.
    pub fn can_add(&self) -> (b: bool)
        ensures
            b == self.spec_can_add(),
    {
        !self.mutation_pending && self.profiles.len() < MAX_USAGE_PROFILES
    }

    /// Whether the selected profile may run `command` now.
    pub fn command_enabled(&self, command: ProfileDialogCommand) -> (b: bool)
        requires
            self.wf(),
        ensures
            b == self.spec_command_enabled(command),
    {
        if self.mutation_pending {
            return false;
        }
        match self.selected_profile() {
            Some(profile) => {
                let actions = available_profile_actions(profile);
                contains_command(&actions, command)
            },
            None => false,
        }
    }

    /// Selects a listed profile; an index past the list changes nothing.
    pub fn select(&mut self, index: usize) -> (selected: bool)
        requires
            old(self).wf(),
        ensures
            selected == (index < old(self).spec_profiles().len()),
            final(self).spec_selected_index() == (if selected {
                Some(index as int)
            } else {
                old(self).spec_selected_index()
            }),
            final(self).spec_profiles() == old(self).spec_profiles(),
            final(self).spec_mutation_pending() == old(self).spec_mutation_pending(),
            final(self).wf(),
    {
        if index >= self.profiles.len() {
            return false;
        }
        self.selected_index = Some(index);
        true
    }

    /// The selected profile.
    pub fn selected_profile(&self) -> (p: Option<&UsageProfileView>)
        requires
            self.wf(),
        ensures
            match (p, self.spec_selected_profile()) {
                (Some(a), Some(b)) => *a == b,
                (None, None) => true,
                _ => false,
            },
    {
        match self.selected_index {
            Some(index) => Some(&self.profiles[index]),
            None => None,
        }
    }

    /// The profile at `index`, if listed; the selection is unchanged.
    pub fn profile_at(&self, index: usize) -> (p: Option<&UsageProfileView>)
        ensures
            index < self.spec_profiles().len() ==> (p matches Some(a) && *a == self.spec_profiles()[index as int]),
            index >= self.spec_profiles().len() ==> p is None,
    {
        if index < self.profiles.len() {
            Some(&self.profiles[index])
        } else {
            None
        }
    }

    /// Validates an add request: `Ok(None)` when adding is not open, the
    /// label's refusal when it is invalid, otherwise an Add action with the
    /// normalized label.
    pub fn submit_add(&self, value: &str) -> (r: Result<Option<ProfileDialogAction>, ProfileValidationError>)
        ensures
            !self.spec_can_add() ==> r == Ok::<Option<ProfileDialogAction>, ProfileValidationError>(None),
            self.spec_can_add() ==> match (r, normalized_label(value@)) {
                (Ok(Some(ProfileDialogAction::Add(label))), Ok(expected)) => label@ == expected,
                (Err(e), Err(expected)) => e == expected,
                _ => false,
            },
    {
        if !self.can_add() {
            return Ok(None);
        }
        match validated_label(value) {
            Ok(label) => Ok(Some(ProfileDialogAction::Add(label))),
            Err(e) => Err(e),
        }
    }

    /// Validates a rename of the selected profile: `Ok(None)` when renaming is
    /// not enabled, the label's refusal when it is invalid, otherwise a Rename
    /// action for the selected profile.
    pub fn submit_rename(&self, value: &str) -> (r: Result<Option<ProfileDialogAction>, ProfileValidationError>)
        requires
            self.wf(),
        ensures
            !self.spec_command_enabled(ProfileDialogCommand::Rename) ==> r == Ok::<Option<ProfileDialogAction>, ProfileValidationError>(None),
            self.spec_command_enabled(ProfileDialogCommand::Rename) ==> match (r, normalized_label(value@)) {
                (Ok(Some(ProfileDialogAction::Rename(id, label))), Ok(expected)) => label@ == expected
                    && self.spec_selected_profile() == Some(self.spec_profiles()[self.spec_selected_index()->0]) && id == self.spec_profiles()[self.spec_selected_index()->0].id,
                (Err(e), Err(expected)) => e == expected,
                _ => false,
            },
    {
        if !self.command_enabled(ProfileDialogCommand::Rename) {
            return Ok(None);
        }
        let id = match self.selected_profile() {
            Some(profile) => profile.id,
            None => {
                return Ok(None);
            },
        };
        match validated_label(value) {
            Ok(label) => Ok(Some(ProfileDialogAction::Rename(id, label))),
            Err(e) => Err(e),
        }
    }

    /// The action of a confirmed Login, Logout or Delete of the selected
    /// profile; `None` when unconfirmed, not enabled, or for Rename, which
    /// needs a validated label instead.
    pub fn confirmed_command(&self, command: ProfileDialogCommand, confirmed: bool) -> (r: Option<ProfileDialogAction>)
        requires
            self.wf(),
        ensures
            !(confirmed && self.spec_command_enabled(command)) ==> r is None,
            confirmed && self.spec_command_enabled(command) ==> match self.spec_selected_profile() {
                Some(p) => r == match command {
                    ProfileDialogCommand::Login => Some(ProfileDialogAction::Login(p.id)),
                    ProfileDialogCommand::Logout => Some(ProfileDialogAction::Logout(p.id)),
                    ProfileDialogCommand::Delete => Some(ProfileDialogAction::Delete(p.id)),
                    ProfileDialogCommand::Rename => None,
                },
                None => false,
            },
    {
        if !confirmed || !self.command_enabled(command) {
            return None;
        }
        let id = match self.selected_profile() {
            Some(profile) => profile.id,
            None => {
                return None;
            },
        };
        match command {
            ProfileDialogCommand::Login => Some(ProfileDialogAction::Login(id)),
            ProfileDialogCommand::Logout => Some(ProfileDialogAction::Logout(id)),
            ProfileDialogCommand::Delete => Some(ProfileDialogAction::Delete(id)),
            ProfileDialogCommand::Rename => None,
        }
    }
}

/// Law of the manager's policy: the system profile can never be logged out
/// or deleted, and nothing is enabled while a change is pending.
pub proof fn lemma_controller_protects_system_profile(
    controller: ProfileDialogController,
    command: ProfileDialogCommand,
)
    requires
        controller.wf(),
    ensures
        controller.spec_mutation_pending() ==> !controller.spec_command_enabled(command)
            && !controller.spec_can_add(),
        (controller.spec_selected_profile() matches Some(p) && p.id == UsageProfileId::System) ==> (
        !controller.spec_command_enabled(ProfileDialogCommand::Logout)
            && !controller.spec_command_enabled(ProfileDialogCommand::Delete)),
{
    if let Some(p) = controller.spec_selected_profile() {
        let c = allowed_commands(p);
        if p.id == UsageProfileId::System {
            assert(c =~= seq![ProfileDialogCommand::Rename, ProfileDialogCommand::Login]);
            assert(!c.contains(ProfileDialogCommand::Logout)) by {
                if c.contains(ProfileDialogCommand::Logout) {
                    let i = choose|i: int| 0 <= i < c.len() && c[i] == ProfileDialogCommand::Logout;
                }
            }
            assert(!c.contains(ProfileDialogCommand::Delete)) by {
                if c.contains(ProfileDialogCommand::Delete) {
                    let i = choose|i: int| 0 <= i < c.len() && c[i] == ProfileDialogCommand::Delete;
                }
            }
        }
    }
}

/// Whether a manager control is enabled: adding follows `can_add`, the other
/// controls follow the availability of their command.
pub fn profile_manager_control_enabled(controller: &ProfileDialogController, control: ProfileManagerControl) -> (b: bool)
    requires
        controller.wf(),
    ensures
        b == match control {
            ProfileManagerControl::AddBelowList => controller.spec_can_add(),
            ProfileManagerControl::Rename => controller.spec_command_enabled(ProfileDialogCommand::Rename),
            ProfileManagerControl::Login => controller.spec_command_enabled(ProfileDialogCommand::Login),
            ProfileManagerControl::Logout => controller.spec_command_enabled(ProfileDialogCommand::Logout),
            ProfileManagerControl::Delete => controller.spec_command_enabled(ProfileDialogCommand::Delete),
        },
{
    match control {
        ProfileManagerControl::AddBelowList => controller.can_add(),
        ProfileManagerControl::Rename => controller.command_enabled(ProfileDialogCommand::Rename),
        ProfileManagerControl::Login => controller.command_enabled(ProfileDialogCommand::Login),
        ProfileManagerControl::Logout => controller.command_enabled(ProfileDialogCommand::Logout),
        ProfileManagerControl::Delete => controller.command_enabled(ProfileDialogCommand::Delete),
    }
}

/// Normalizes and validates a dialog label with the shared profile-label rule.
pub fn validated_label(value: &str) -> (r: Result<String, ProfileValidationError>)
    ensures
        match (r, normalized_label(value@)) {
            (Ok(label), Ok(expected)) => label@ == expected,
            (Err(e), Err(expected)) => e == expected,
            _ => false,
        },
{
    normalize_profile_label(value)
}

/// The result of an add-prompt command: Submit validates the label into an
/// Add action or its refusal; Cancel yields `Ok(None)` without looking at the
/// input.
pub fn add_profile_prompt_result(value: &str, command: AddProfilePromptCommand) -> (r: Result<Option<ProfileDialogAction>, ProfileValidationError>)
    ensures
        command == AddProfilePromptCommand::Cancel ==> r == Ok::<Option<ProfileDialogAction>, ProfileValidationError>(None),
        command == AddProfilePromptCommand::Submit ==> match (r, normalized_label(value@)) {
            (Ok(Some(ProfileDialogAction::Add(label))), Ok(expected)) => label@ == expected,
            (Err(e), Err(expected)) => e == expected,
            _ => false,
        },
{
    match command {
        AddProfilePromptCommand::Submit => match validated_label(value) {
            Ok(label) => Ok(Some(ProfileDialogAction::Add(label))),
            Err(e) => Err(e),
        },
        AddProfilePromptCommand::Cancel => Ok(None),
    }
}

/// The manager's list label: a custom name, or for the system profile its
/// name followed by the localized system marker in parentheses, unless the
/// name already is that marker.
pub open spec fn row_label(profile: UsageProfileView, language: Language) -> Seq<char> {
    let marker = text_of(LocalizationKey::UsageProfileSystem, language);
    if profile.id != UsageProfileId::System || profile.label@ == marker {
        profile.label@
    } else {
        profile.label@ + " ("@ + marker + ")"@
    }
}

/// The list label of a profile with the system-account marker where it
/// applies.
pub fn profile_manager_row_label(profile: &UsageProfileView, language: Language) -> (r: String)
    ensures
        r@ == row_label(*profile, language),
{
    if profile.id != UsageProfileId::System {
        return profile.label.clone();
    }
    let marker = localized_text(LocalizationKey::UsageProfileSystem, language);
    if str_eq(profile.label.as_str(), marker) {
        profile.label.clone()
    } else {
        let mut text = profile.label.clone();
        text.append(" (");
        text.append(marker);
        text.append(")");
        text
    }
}

/// Safe display strings of a manager row: the name, the summary, and the
/// localized role markers.
#[derive(Clone, Debug, PartialEq, Eq)]
pub struct ProfileManagerRowText {
    pub name: String,
    pub summary: String,
    pub markers: Vec<&'static str>,
}

/// The role markers of a row: the system marker for the system profile
/// unless its name already is that marker, then the shown marker for the
/// profile on display.
pub open spec fn row_markers(profile: UsageProfileView, language: Language) -> Seq<Seq<char>> {
    let system = text_of(LocalizationKey::UsageProfileSystem, language);
    (if profile.id == UsageProfileId::System && profile.label@ != system {
        seq![system]
    } else {
        Seq::empty()
    }) + (if profile.selected {
        seq![text_of(LocalizationKey::UsageProfileDisplayed, language)]
    } else {
        Seq::empty()
    })
}

/// The name, summary and role markers of a manager row.
pub fn profile_manager_row_text(profile: &UsageProfileView, language: Language) -> (r: ProfileManagerRowText)
    ensures
        r.name@ == profile.label@,
        r.summary@ == profile.summary@,
        r.markers@.map_values(|m: &'static str| m@) == row_markers(*profile, language),
{
    let system_marker = localized_text(LocalizationKey::UsageProfileSystem, language);
    let mut markers: Vec<&'static str> = Vec::with_capacity(2);
    if profile.id == UsageProfileId::System && !str_eq(profile.label.as_str(), system_marker) {
        markers.push(system_marker);
    }
    if profile.selected {
        markers.push(localized_text(LocalizationKey::UsageProfileDisplayed, language));
    }
    assert(markers@.map_values(|m: &'static str| m@) =~= row_markers(*profile, language));
    ProfileManagerRowText {
        name: profile.label.clone(),
        summary: profile.summary.clone(),
        markers,
    }
}

/// Markers joined by ", ".
pub open spec fn join_markers(markers: Seq<Seq<char>>) -> Seq<char>
    decreases markers.len(),
{
    if markers.len() == 0 {
        Seq::empty()
    } else if markers.len() == 1 {
        markers[0]
    } else {
        join_markers(markers.drop_last()) + ", "@ + markers.last()
    }
}

/// The single accessible string of a row: the name, the markers in
/// parentheses when there are any, and the summary after an em dash unless
/// it is blank.
pub open spec fn accessible_row(profile: UsageProfileView, language: Language) -> Seq<char> {
    let markers = row_markers(profile, language);
    profile.label@ + (if markers.len() > 0 {
        " ("@ + join_markers(markers) + ")"@
    } else {
        Seq::empty()
    }) + (if forall|i: int| 0 <= i < profile.summary@.len() ==> is_white_space(#[trigger] profile.summary@[i]) {
        Seq::empty()
    } else {
        " — "@ + profile.summary@
    })
}

/// The accessible text of a manager row.
pub fn profile_manager_accessible_row_text(profile: &UsageProfileView, language: Language) -> (r: String)
    ensures
        r@ == accessible_row(*profile, language),
{
    let copy = profile_manager_row_text(profile, language);
    let ghost markers = row_markers(*profile, language);
    let mut text = copy.name;
    if copy.markers.len() > 0 {
        text.append(" (");
        let mut joined = String::new();
        let mut i: usize = 0;
        while i < copy.markers.len()
            invariant
                i <= copy.markers.len(),
                copy.markers@.map_values(|m: &'static str| m@) == markers,
                joined@ == join_markers(markers.take(i as int)),
            decreases copy.markers.len() - i,
        {
            if i > 0 {
                joined.append(", ");
            }
            joined.append(copy.markers[i]);
            proof {
                assert(markers.take(i + 1).drop_last() =~= markers.take(i as int));
                assert(markers[i as int] == copy.markers@[i as int]@);
                if i == 0 {
                    assert(markers.take(0) =~= Seq::<Seq<char>>::empty());
                }
            }
            i += 1;
        }
        assert(markers.take(copy.markers.len() as int) =~= markers);
        text.append(joined.as_str());
        text.append(")");
    }
    if !is_blank(copy.summary.as_str()) {
        text.append(" — ");
        text.append(copy.summary.as_str());
    }
    text
}

/// The text of a two-part confirmation: a heading, a blank line, the shown
/// marker with the label, and a closing line.
pub open spec fn confirmation_text(heading: Seq<char>, shown: Seq<char>, label: Seq<char>, closing: Seq<char>) -> Seq<char> {
    heading + "\n\n"@ + shown + ": "@ + label + "\n"@ + closing
}

fn confirmation(heading: &str, shown: &str, label: &str, closing: &str) -> (r: String)
    ensures
        r@ == confirmation_text(heading@, shown@, label@, closing@),
{
    let mut text = string_from(heading);
    text.append("\n\n");
    text.append(shown);
    text.append(": ");
    text.append(label);
    text.append("\n");
    text.append(closing);
    text
}

/// The browser-login confirmation for a profile label: confirm the browser
/// account, show the label, and say that CLI and IDE sign-in do not change.
pub fn profile_login_confirmation(label: &str, language: Language) -> (r: String)
    ensures
        r@ == confirmation_text(
            text_of(LocalizationKey::UsageProfileConfirmBrowserAccount, language),
            text_of(LocalizationKey::UsageProfileDisplayed, language),
            label@,
            text_of(LocalizationKey::UsageProfileCliIdeUnchanged, language),
        ),
{
    confirmation(
        localized_text(LocalizationKey::UsageProfileConfirmBrowserAccount, language),
        localized_text(LocalizationKey::UsageProfileDisplayed, language),
        label,
        localized_text(LocalizationKey::UsageProfileCliIdeUnchanged, language),
    )
}

/// The delete confirmation for a profile label, stating that deleted data
/// cannot be recovered.
pub fn profile_delete_confirmation(label: &str, language: Language) -> (r: String)
    ensures
        r@ == confirmation_text(
            text_of(LocalizationKey::UsageProfileDeleteConfirm, language),
            text_of(LocalizationKey::UsageProfileDisplayed, language),
            label@,
            text_of(LocalizationKey::UsageProfileDeleteIrrecoverable, language),
        ),
{
    confirmation(
        localized_text(LocalizationKey::UsageProfileDeleteConfirm, language),
        localized_text(LocalizationKey::UsageProfileDisplayed, language),
        label,
        localized_text(LocalizationKey::UsageProfileDeleteIrrecoverable, language),
    )
}

/// `MB_OK`.
pub const MB_OK: u32 = 0x0000_0000;
/// `MB_OKCANCEL`.
pub const MB_OKCANCEL: u32 = 0x0000_0001;
/// `MB_YESNO`.
pub const MB_YESNO: u32 = 0x0000_0004;
/// `MB_ICONERROR`.
pub const MB_ICONERROR: u32 = 0x0000_0010;
/// `MB_ICONWARNING`.
pub const MB_ICONWARNING: u32 = 0x0000_0030;
/// `IDOK`.
pub const IDOK: i32 = 1;
/// `IDCANCEL`.
pub const IDCANCEL: i32 = 2;
/// A message shown to the user, with the button that was pressed.
pub struct PresentedMessage<E> {
    pub route: ProfileMessageRoute,
    pub owner: usize,
    pub message: Seq<char>,
    pub title: Seq<char>,
    pub style: u32,
    pub answer: Result<i32, E>,
}

/// Where profile messages are shown. Each message records itself, with the
/// button pressed, at the end of `presented`.
pub trait ProfileMessagePresenter {
    type Error;

    /// The messages shown so far, in order.
    spec fn presented(&self) -> Seq<PresentedMessage<Self::Error>>;

    /// Shows `message` under `title` with the buttons and icon of `style`,
    /// owned by the window `owner`, and answers the button pressed.
    fn present(&mut self, route: ProfileMessageRoute, owner: usize, message: &str, title: &str, style: u32) -> (r: Result<i32, Self::Error>)
        ensures
            final(self).presented() == old(self).presented().push(PresentedMessage {
                route,
                owner,
                message: message@,
                title: title@,
                style,
                answer: r,
            }),
    ;
}

/// One message was shown, with this route, owner, text, title and style.
pub open spec fn shows_one<E>(before: Seq<PresentedMessage<E>>, after: Seq<PresentedMessage<E>>, route: ProfileMessageRoute, owner: usize, message: Seq<char>, title: Seq<char>, style: u32) -> bool {
    &&& after.len() == before.len() + 1
    &&& after.drop_last() == before
    &&& after.last().route == route
    &&& after.last().owner == owner
    &&& after.last().message == message
    &&& after.last().title == title
    &&& after.last().style == style
}

/// Asks on the login route whether to open the browser login of the
/// profile `label`: the login confirmation text under the login title, with
/// OK and Cancel; `true` on OK.
pub fn confirm_profile_login_with_presenter<P: ProfileMessagePresenter>(owner: usize, label: &str, language: Language, presenter: &mut P) -> (r: Result<bool, P::Error>)
    ensures
        shows_one(
            old(presenter).presented(),
            final(presenter).presented(),
            ProfileMessageRoute::LoginConfirmation,
            owner,
            confirmation_text(
                text_of(LocalizationKey::UsageProfileConfirmBrowserAccount, language),
                text_of(LocalizationKey::UsageProfileDisplayed, language),
                label@,
                text_of(LocalizationKey::UsageProfileCliIdeUnchanged, language),
            ),
            text_of(LocalizationKey::UsageProfileLogin, language),
            MB_OKCANCEL | MB_ICONWARNING,
        ),
        r == match final(presenter).presented().last().answer {
            Ok(button) => Ok::<bool, P::Error>(button == IDOK),
            Err(e) => Err(e),
        },
{
    let ghost before = presenter.presented();
    let message = profile_login_confirmation(label, language);
    let title = localized_text(LocalizationKey::UsageProfileLogin, language);
    let answer = presenter.present(ProfileMessageRoute::LoginConfirmation, owner, message.as_str(), title, MB_OKCANCEL | MB_ICONWARNING);
    assert(presenter.presented().drop_last() =~= before);
    match answer {
        Ok(button) => Ok(button == IDOK),
        Err(e) => Err(e),
    }
}

/// Asks on the delete route whether to delete the profile `label`: the
/// delete confirmation text under the delete title, with Yes and No;
/// `true` on Yes.
pub fn confirm_profile_delete_with_presenter<P: ProfileMessagePresenter>(owner: usize, label: &str, language: Language, presenter: &mut P) -> (r: Result<bool, P::Error>)
    ensures
        shows_one(
            old(presenter).presented(),
            final(presenter).presented(),
            ProfileMessageRoute::DeleteConfirmation,
            owner,
            confirmation_text(
                text_of(LocalizationKey::UsageProfileDeleteConfirm, language),
                text_of(LocalizationKey::UsageProfileDisplayed, language),
                label@,
                text_of(LocalizationKey::UsageProfileDeleteIrrecoverable, language),
            ),
            text_of(LocalizationKey::UsageProfileDelete, language),
            MB_YESNO | MB_ICONWARNING,
        ),
        r == match final(presenter).presented().last().answer {
            Ok(button) => Ok::<bool, P::Error>(button == IDYES),
            Err(e) => Err(e),
        },
{
    let ghost before = presenter.presented();
    let message = profile_delete_confirmation(label, language);
    let title = localized_text(LocalizationKey::UsageProfileDelete, language);
    let answer = presenter.present(ProfileMessageRoute::DeleteConfirmation, owner, message.as_str(), title, MB_YESNO | MB_ICONWARNING);
    assert(presenter.presented().drop_last() =~= before);
    match answer {
        Ok(button) => Ok(button == IDYES),
        Err(e) => Err(e),
    }
}

/// Reports a failed profile operation on the manager's error route with
/// the fixed safe text and an error icon; the answer is not used.
pub fn show_safe_error_with_presenter<P: ProfileMessagePresenter>(owner: usize, language: Language, presenter: &mut P)
    ensures
        shows_one(
            old(presenter).presented(),
            final(presenter).presented(),
            ProfileMessageRoute::ManagerSafeError,
            owner,
            text_of(LocalizationKey::UsageProfileOperationFailed, language),
            text_of(LocalizationKey::WindowTitle, language),
            MB_OK | MB_ICONERROR,
        ),
{
    let ghost before = presenter.presented();
    let _ = presenter.present(
        ProfileMessageRoute::ManagerSafeError,
        owner,
        localized_text(LocalizationKey::UsageProfileOperationFailed, language),
        localized_text(LocalizationKey::WindowTitle, language),
        MB_OK | MB_ICONERROR,
    );
    assert(presenter.presented().drop_last() =~= before);
}

/// A rename in the manager: a valid result passes through unchanged and
/// shows nothing; an invalid name shows the validation warning and yields
/// no action. Only the presenter's failure is an error.
pub fn handle_manager_rename_result_with_presenter<P: ProfileMessagePresenter>(
    action: Result<Option<ProfileDialogAction>, ProfileValidationError>,
    owner: usize,
    language: Language,
    presenter: &mut P,
) -> (r: Result<Option<ProfileDialogAction>, P::Error>)
    ensures
        action is Ok ==> final(presenter).presented() == old(presenter).presented() && r == Ok::<Option<ProfileDialogAction>, P::Error>(action->Ok_0),
        action is Err ==> shows_one(
            old(presenter).presented(),
            final(presenter).presented(),
            ProfileMessageRoute::ValidationWarning,
            owner,
            text_of(LocalizationKey::UsageProfileInvalidLabel, language),
            text_of(LocalizationKey::WindowTitle, language),
            MB_OK | MB_ICONWARNING,
        ) && r == match final(presenter).presented().last().answer {
            Ok(_) => Ok::<Option<ProfileDialogAction>, P::Error>(None),
            Err(e) => Err(e),
        },
{
    match action {
        Ok(action) => Ok(action),
        Err(_) => {
            let ghost before = presenter.presented();
            let answer = presenter.present(
                ProfileMessageRoute::ValidationWarning,
                owner,
                localized_text(LocalizationKey::UsageProfileInvalidLabel, language),
                localized_text(LocalizationKey::WindowTitle, language),
                MB_OK | MB_ICONWARNING,
            );
            assert(presenter.presented().drop_last() =~= before);
            match answer {
                Ok(_) => Ok(None),
                Err(e) => Err(e),
            }
        },
    }
}

/// What the add-profile prompt keeps besides its windows: its language,
/// its result and the phase of its command handling.
pub struct AddDialogState {
    pub language: Language,
    pub result: Option<ProfileDialogAction>,
    pub interaction: AddProfilePromptState,
}

/// The route of an add-prompt warning: the validation warning for an
/// invalid name, the prompt's safe error otherwise.
pub open spec fn add_warning_route(message_key: LocalizationKey) -> ProfileMessageRoute {
    if message_key == LocalizationKey::UsageProfileInvalidLabel {
        ProfileMessageRoute::ValidationWarning
    } else {
        ProfileMessageRoute::AddPromptSafeError
    }
}

/// Shows a warning over the add prompt while it handles a command: the
/// prompt enters its warning phase (nothing re-enters meanwhile), the
/// message `message_key` is shown under the window title, and the prompt
/// accepts commands again. Outside command handling nothing is shown.
pub fn show_add_dialog_warning_with_presenter<P: ProfileMessagePresenter>(
    owner: usize,
    state: &mut AddDialogState,
    message_key: LocalizationKey,
    style: u32,
    presenter: &mut P,
)
    ensures
        final(state).language == old(state).language,
        final(state).result == old(state).result,
        old(state).interaction.spec_phase() != AddProfilePromptPhase::Handling ==> final(presenter).presented()
            == old(presenter).presented() && final(state).interaction.spec_phase() == old(state).interaction.spec_phase(),
        old(state).interaction.spec_phase() == AddProfilePromptPhase::Handling ==> shows_one(
            old(presenter).presented(),
            final(presenter).presented(),
            add_warning_route(message_key),
            owner,
            text_of(message_key, old(state).language),
            text_of(LocalizationKey::WindowTitle, old(state).language),
            style,
        ) && final(state).interaction.spec_phase() == AddProfilePromptPhase::Live,
{
    if !state.interaction.begin_warning() {
        return;
    }
    let language = state.language;
    let route = if message_key == LocalizationKey::UsageProfileInvalidLabel {
        ProfileMessageRoute::ValidationWarning
    } else {
        ProfileMessageRoute::AddPromptSafeError
    };
    let ghost before = presenter.presented();
    let _ = presenter.present(
        route,
        owner,
        localized_text(message_key, language),
        localized_text(LocalizationKey::WindowTitle, language),
        style,
    );
    assert(presenter.presented().drop_last() =~= before);
    let _ = state.interaction.finish_warning();
}

/// Applies the result of a submitted name: an action closes the prompt
/// once with that result (the caller destroys the window when `true`
/// comes back); no action shows the safe error, and an invalid name the
/// validation warning, after which the prompt accepts commands again.
pub fn handle_add_profile_prompt_result_with_presenter<P: ProfileMessagePresenter>(
    owner: usize,
    state: &mut AddDialogState,
    result: Result<Option<ProfileDialogAction>, ProfileValidationError>,
    presenter: &mut P,
) -> (close: bool)
    ensures
        final(state).language == old(state).language,
        result matches Ok(Some(action)) ==> {
            &&& close == (old(state).interaction.spec_phase() == AddProfilePromptPhase::Handling)
            &&& final(presenter).presented() == old(presenter).presented()
            &&& close ==> final(state).result == Some(action) && final(state).interaction.spec_phase() == AddProfilePromptPhase::Closed
            &&& !close ==> final(state).result == old(state).result && final(state).interaction.spec_phase() == old(state).interaction.spec_phase()
        },
        result is Err ==> !close && final(state).result == old(state).result && (old(state).interaction.spec_phase()
            == AddProfilePromptPhase::Handling ==> shows_one(
            old(presenter).presented(),
            final(presenter).presented(),
            ProfileMessageRoute::ValidationWarning,
            owner,
            text_of(LocalizationKey::UsageProfileInvalidLabel, old(state).language),
            text_of(LocalizationKey::WindowTitle, old(state).language),
            MB_OK | MB_ICONWARNING,
        ) && final(state).interaction.spec_phase() == AddProfilePromptPhase::Live),
        result matches Ok(None) ==> !close && final(state).result == old(state).result && (old(state).interaction.spec_phase()
            == AddProfilePromptPhase::Handling ==> shows_one(
            old(presenter).presented(),
            final(presenter).presented(),
            ProfileMessageRoute::AddPromptSafeError,
            owner,
            text_of(LocalizationKey::UsageProfileOperationFailed, old(state).language),
            text_of(LocalizationKey::WindowTitle, old(state).language),
            MB_OK | MB_ICONERROR,
        ) && final(state).interaction.spec_phase() == AddProfilePromptPhase::Live),
{
    match result {
        Ok(Some(action)) => {
            if state.interaction.finish_close() {
                state.result = Some(action);
                true
            } else {
                false
            }
        },
        Ok(None) => {
            show_add_dialog_warning_with_presenter(owner, state, LocalizationKey::UsageProfileOperationFailed, MB_OK | MB_ICONERROR, presenter);
            false
        },
        Err(_) => {
            show_add_dialog_warning_with_presenter(owner, state, LocalizationKey::UsageProfileInvalidLabel, MB_OK | MB_ICONWARNING, presenter);
            false
        },
    }
}

/// Cancels the add prompt once, without any change: it closes with no
/// result when a command can start (the caller then destroys the window),
/// and does nothing while another command or a warning is under way.
pub fn cancel_add_dialog(state: &mut AddDialogState) -> (close: bool)
    ensures
        final(state).language == old(state).language,
        close == (old(state).interaction.spec_phase() == AddProfilePromptPhase::Live),
        close ==> final(state).result is None && final(state).interaction.spec_phase() == AddProfilePromptPhase::Closed,
        !close ==> final(state).result == old(state).result && final(state).interaction.spec_phase() == old(state).interaction.spec_phase(),
{
    if !state.interaction.begin_command() {
        return false;
    }
    let result = match add_profile_prompt_result("", AddProfilePromptCommand::Cancel) {
        Ok(r) => r,
        Err(_) => {
            return false;
        },
    };
    if state.interaction.finish_close() {
        state.result = result;
        true
    } else {
        false
    }
}

} // verus!
