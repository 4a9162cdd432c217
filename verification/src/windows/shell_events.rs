//! The decisions of the native window procedures: which messages the hidden
//! owner window and the widgets handle, what a timer tick of the owner does,
//! and how a widget follows the mouse.

use vstd::prelude::*;

use super::shell::{should_open_tray_menu, TaskbarRefreshSchedule, TASKBAR_RECONCILE_TICKS, WM_CONTEXTMENU};
use super::taskbar_widget::HoverTransition;

verus! {

/// `WM_DESTROY`.
pub const WM_DESTROY: u32 = 0x0002;
/// `WM_CLOSE`.
pub const WM_CLOSE: u32 = 0x0010;
/// `WM_PAINT`.
pub const WM_PAINT: u32 = 0x000F;
/// `WM_SETTINGCHANGE`.
pub const WM_SETTINGCHANGE: u32 = 0x001A;
/// `WM_DISPLAYCHANGE`.
pub const WM_DISPLAYCHANGE: u32 = 0x007E;
/// `WM_NCDESTROY`.
pub const WM_NCDESTROY: u32 = 0x0082;
/// `WM_TIMER`.
pub const WM_TIMER: u32 = 0x0113;
/// `WM_MOUSEMOVE`.
pub const WM_MOUSEMOVE: u32 = 0x0200;
/// `WM_MOUSELEAVE`.
pub const WM_MOUSELEAVE: u32 = 0x02A3;
/// `WM_DPICHANGED`.
pub const WM_DPICHANGED: u32 = 0x02E0;
/// `WM_THEMECHANGED`.
pub const WM_THEMECHANGED: u32 = 0x031A;
/// The tray icon's callback message, `WM_APP + 1`.
pub const TRAY_CALLBACK: u32 = 0x8001;

/// The owner window's refresh timer.
pub const TIMER_ID: usize = 1;
/// A widget's hover animation timer.
pub const HOVER_TIMER_ID: usize = 2;
/// Milliseconds between hover animation frames.
pub const HOVER_FRAME_MS: u32 = 15;

/// What the hidden owner window does with a message.
#[derive(Clone, Copy, Debug, PartialEq, Eq, Structural)]
pub enum OwnerRoute {
    /// Default window processing.
    Default,
    /// Handled without doing anything.
    Ignore,
    /// Explorer restarted: the tray icon is added again and the taskbar
    /// observer invalidated.
    TaskbarCreated,
    /// The refresh timer ticked.
    Timer,
    /// The taskbar layout changed: the window policy is applied again.
    LayoutChanged,
    /// Display, settings or theme changed: the taskbars are checked again.
    EnvironmentChanged,
    /// A tray event that opens the settings menu.
    OpenMenu,
    /// Another tray event, handled without action.
    TrayEvent,
    /// The application begins to exit.
    Close,
    /// The message loop ends.
    Quit,
}

pub open spec fn owner_handles(message: u32, taskbar_created: u32, layout_changed: u32) -> bool {
    ||| message == taskbar_created
    ||| message == WM_TIMER
    ||| message == TRAY_CALLBACK
    ||| message == WM_CLOSE
    ||| message == WM_DESTROY
    ||| message == layout_changed
    ||| message == WM_DISPLAYCHANGE
    ||| message == WM_SETTINGCHANGE
    ||| message == WM_THEMECHANGED
}

/// The owner's route for a message: unhandled messages, and every message
/// before the window has its state, get default processing; tray events
/// are ignored while an update dialog is open; the taskbar-created message
/// comes before the others; a tray event opens the menu on the activation
/// events.
pub open spec fn owner_route(message: u32, timer_id: usize, tray_event: u32, taskbar_created: u32, layout_changed: u32, has_state: bool, update_dialog_open: bool) -> OwnerRoute {
    if !owner_handles(message, taskbar_created, layout_changed) || !has_state {
        OwnerRoute::Default
    } else if message == TRAY_CALLBACK && update_dialog_open {
        OwnerRoute::Ignore
    } else if message == taskbar_created {
        OwnerRoute::TaskbarCreated
    } else if message == WM_TIMER {
        if timer_id == TIMER_ID { OwnerRoute::Timer } else { OwnerRoute::Default }
    } else if message == layout_changed {
        OwnerRoute::LayoutChanged
    } else if message == WM_DISPLAYCHANGE || message == WM_SETTINGCHANGE || message == WM_THEMECHANGED {
        OwnerRoute::EnvironmentChanged
    } else if message == TRAY_CALLBACK {
        if tray_event == WM_CONTEXTMENU || tray_event == 0x0400 { OwnerRoute::OpenMenu } else { OwnerRoute::TrayEvent }
    } else if message == WM_CLOSE {
        OwnerRoute::Close
    } else {
        OwnerRoute::Quit
    }
}

/// Routes a message of the hidden owner window; `timer_id` is the timer of
/// a `WM_TIMER`, `tray_event` the low word of a tray callback's `lparam`,
/// and `taskbar_created` and `layout_changed` the registered message
/// numbers.
pub fn owner_message_route(
    message: u32,
    timer_id: usize,
    tray_event: u32,
    taskbar_created: u32,
    layout_changed: u32,
    has_state: bool,
    update_dialog_open: bool,
) -> (route: OwnerRoute)
    ensures
        route == owner_route(message, timer_id, tray_event, taskbar_created, layout_changed, has_state, update_dialog_open),
{
    let handled = message == taskbar_created || message == WM_TIMER || message == TRAY_CALLBACK
        || message == WM_CLOSE || message == WM_DESTROY || message == layout_changed
        || message == WM_DISPLAYCHANGE || message == WM_SETTINGCHANGE || message == WM_THEMECHANGED;
    if !handled || !has_state {
        return OwnerRoute::Default;
    }
    if message == TRAY_CALLBACK && update_dialog_open {
        return OwnerRoute::Ignore;
    }
    if message == taskbar_created {
        return OwnerRoute::TaskbarCreated;
    }
    if message == WM_TIMER {
        return if timer_id == TIMER_ID { OwnerRoute::Timer } else { OwnerRoute::Default };
    }
    if message == layout_changed {
        return OwnerRoute::LayoutChanged;
    }
    if message == WM_DISPLAYCHANGE || message == WM_SETTINGCHANGE || message == WM_THEMECHANGED {
        return OwnerRoute::EnvironmentChanged;
    }
    if message == TRAY_CALLBACK {
        return if should_open_tray_menu(tray_event) { OwnerRoute::OpenMenu } else { OwnerRoute::TrayEvent };
    }
    if message == WM_CLOSE {
        OwnerRoute::Close
    } else {
        OwnerRoute::Quit
    }
}

/// What one tick of the owner's refresh timer does.
#[derive(Clone, Copy, Debug, PartialEq, Eq, Structural)]
pub struct OwnerTimerPlan {
    /// End the message loop (only while shutting down, once the tray has
    /// shut down).
    pub quit: bool,
    /// Fetch the settings, show a pending update notice and refresh the
    /// tray, the tooltips and a lost widget.
    pub refresh: bool,
    /// Retitle the windows in the new language.
    pub update_titles: bool,
    /// Check the taskbars again.
    pub check_taskbars: bool,
    /// Repaint every widget.
    pub repaint_widgets: bool,
}

/// The timer tick: while shutting down it only ends the loop once the tray
/// has shut down; otherwise it refreshes everything, retitles the windows
/// when the language changed, checks the taskbars when the schedule says
/// so, and repaints the widgets when they are visible.
pub fn owner_timer_plan(
    schedule: &mut TaskbarRefreshSchedule,
    shutting_down: bool,
    tray_shutdown_complete: bool,
    language_changed: bool,
    widget_visible: bool,
) -> (plan: OwnerTimerPlan)
    requires
        old(schedule).wf(),
    ensures
        final(schedule).wf(),
        shutting_down ==> *final(schedule) == *old(schedule) && plan == (OwnerTimerPlan {
            quit: tray_shutdown_complete,
            refresh: false,
            update_titles: false,
            check_taskbars: false,
            repaint_widgets: false,
        }),
        !shutting_down ==> !plan.quit && plan.refresh && plan.update_titles == language_changed
            && plan.repaint_widgets == widget_visible,
        !shutting_down && old(schedule).retries_left() > 0 ==> plan.check_taskbars
            && final(schedule).retries_left() == old(schedule).retries_left() - 1 && final(schedule).ticks_since_check() == 0,
        !shutting_down && old(schedule).retries_left() == 0 ==> final(schedule).retries_left() == 0
            && plan.check_taskbars == (old(schedule).ticks_since_check() + 1 == TASKBAR_RECONCILE_TICKS)
            && final(schedule).ticks_since_check() == (old(schedule).ticks_since_check() + 1) % (TASKBAR_RECONCILE_TICKS as nat),
{
    if shutting_down {
        return OwnerTimerPlan {
            quit: tray_shutdown_complete,
            refresh: false,
            update_titles: false,
            check_taskbars: false,
            repaint_widgets: false,
        };
    }
    let check_taskbars = schedule.tick();
    OwnerTimerPlan {
        quit: false,
        refresh: true,
        update_titles: language_changed,
        check_taskbars,
        repaint_widgets: widget_visible,
    }
}

/// What a widget window does with a message.
#[derive(Clone, Copy, Debug, PartialEq, Eq, Structural)]
pub enum WidgetRoute {
    Default,
    /// The window is gone: its slot and tooltip are released.
    Destroyed,
    ContextMenu,
    MouseMove,
    MouseLeave,
    HoverFrame,
    Paint,
    /// Move to the rectangle that Windows suggests for the new DPI.
    DpiChanged,
    /// Closing a widget hides the widgets.
    Close,
}

pub open spec fn widget_handles(message: u32) -> bool {
    ||| message == WM_PAINT
    ||| message == WM_DPICHANGED
    ||| message == WM_CLOSE
    ||| message == WM_MOUSEMOVE
    ||| message == WM_MOUSELEAVE
    ||| message == WM_TIMER
    ||| message == WM_CONTEXTMENU
}

/// The widget's route: the final destruction message always releases the
/// slot; unhandled messages, and every message before the window has its
/// state, get default processing; only the hover timer animates.
pub open spec fn widget_route(message: u32, timer_id: usize, has_state: bool) -> WidgetRoute {
    if message == WM_NCDESTROY {
        WidgetRoute::Destroyed
    } else if !widget_handles(message) || !has_state {
        WidgetRoute::Default
    } else if message == WM_CONTEXTMENU {
        WidgetRoute::ContextMenu
    } else if message == WM_MOUSEMOVE {
        WidgetRoute::MouseMove
    } else if message == WM_MOUSELEAVE {
        WidgetRoute::MouseLeave
    } else if message == WM_TIMER {
        if timer_id == HOVER_TIMER_ID { WidgetRoute::HoverFrame } else { WidgetRoute::Default }
    } else if message == WM_PAINT {
        WidgetRoute::Paint
    } else if message == WM_DPICHANGED {
        WidgetRoute::DpiChanged
    } else {
        WidgetRoute::Close
    }
}

/// Routes a message of a widget window.
pub fn widget_message_route(message: u32, timer_id: usize, has_state: bool) -> (route: WidgetRoute)
    ensures
        route == widget_route(message, timer_id, has_state),
{
    if message == WM_NCDESTROY {
        return WidgetRoute::Destroyed;
    }
    let handled = message == WM_PAINT || message == WM_DPICHANGED || message == WM_CLOSE
        || message == WM_MOUSEMOVE || message == WM_MOUSELEAVE || message == WM_TIMER;
    if (!handled && !super::shell::should_open_widget_menu(message)) || !has_state {
        return WidgetRoute::Default;
    }
    if message == WM_CONTEXTMENU {
        WidgetRoute::ContextMenu
    } else if message == WM_MOUSEMOVE {
        WidgetRoute::MouseMove
    } else if message == WM_MOUSELEAVE {
        WidgetRoute::MouseLeave
    } else if message == WM_TIMER {
        if timer_id == HOVER_TIMER_ID { WidgetRoute::HoverFrame } else { WidgetRoute::Default }
    } else if message == WM_PAINT {
        WidgetRoute::Paint
    } else if message == WM_DPICHANGED {
        WidgetRoute::DpiChanged
    } else {
        WidgetRoute::Close
    }
}

/// How a widget follows the mouse: the hover animation and whether Windows
/// already reports the mouse leaving.
#[derive(Clone, Copy, Debug, Default, PartialEq, Eq)]
pub struct WidgetPointer {
    pub hover: HoverTransition,
    pub mouse_tracking: bool,
}

impl WidgetPointer {
    /// The mouse moved over the widget: the hover brightens. Returns whether
    /// leave tracking must be requested (it is not active yet); the hover
    /// animation timer is (re)started in every case.
    pub fn mouse_moved(&mut self) -> (request_tracking: bool)
        ensures
            final(self).hover.spec_target() == 255,
            final(self).hover.spec_value() == old(self).hover.spec_value(),
            final(self).mouse_tracking == old(self).mouse_tracking,
            request_tracking == !old(self).mouse_tracking,
    {
        self.hover.set_hovered(true);
        !self.mouse_tracking
    }

    /// Windows answered the leave tracking request.
    pub fn tracking_requested(&mut self, started: bool)
        ensures
            final(self).hover == old(self).hover,
            final(self).mouse_tracking == (old(self).mouse_tracking || started),
    {
        if started {
            self.mouse_tracking = true;
        }
    }

    /// The mouse left: tracking has ended and the hover fades out.
    pub fn mouse_left(&mut self)
        ensures
            final(self).hover.spec_target() == 0,
            final(self).hover.spec_value() == old(self).hover.spec_value(),
            !final(self).mouse_tracking,
    {
        self.mouse_tracking = false;
        self.hover.set_hovered(false);
    }

    /// One animation frame; `false` when the animation timer can stop.
    pub fn hover_frame(&mut self) -> (more: bool)
        ensures
            final(self).mouse_tracking == old(self).mouse_tracking,
            final(self).hover.spec_target() == old(self).hover.spec_target(),
            more == (final(self).hover.spec_value() != final(self).hover.spec_target()),
    {
        self.hover.tick()
    }
}

} // verus!
