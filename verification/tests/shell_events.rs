use codex_peek::windows::shell::{TaskbarRefreshSchedule, WM_CONTEXTMENU};
use codex_peek::windows::shell_events::{
    owner_message_route, owner_timer_plan, widget_message_route, OwnerRoute, OwnerTimerPlan,
    WidgetPointer, WidgetRoute, HOVER_TIMER_ID, TIMER_ID, TRAY_CALLBACK, WM_CLOSE, WM_DESTROY,
    WM_DISPLAYCHANGE, WM_DPICHANGED, WM_MOUSELEAVE, WM_MOUSEMOVE, WM_NCDESTROY, WM_PAINT,
    WM_SETTINGCHANGE, WM_THEMECHANGED, WM_TIMER,
};

const TASKBAR_CREATED: u32 = 0xC0DE;
const LAYOUT_CHANGED: u32 = 0x8010;

fn owner(message: u32, timer: usize, event: u32, update_open: bool) -> OwnerRoute {
    owner_message_route(message, timer, event, TASKBAR_CREATED, LAYOUT_CHANGED, true, update_open)
}

#[test]
fn owner_routes_each_handled_message() {
    assert_eq!(owner(WM_TIMER, TIMER_ID, 0, false), OwnerRoute::Timer);
    assert_eq!(owner(WM_TIMER, HOVER_TIMER_ID, 0, false), OwnerRoute::Default);
    assert_eq!(owner(TASKBAR_CREATED, 0, 0, false), OwnerRoute::TaskbarCreated);
    assert_eq!(owner(LAYOUT_CHANGED, 0, 0, false), OwnerRoute::LayoutChanged);
    for message in [WM_DISPLAYCHANGE, WM_SETTINGCHANGE, WM_THEMECHANGED] {
        assert_eq!(owner(message, 0, 0, false), OwnerRoute::EnvironmentChanged);
    }
    assert_eq!(owner(TRAY_CALLBACK, 0, WM_CONTEXTMENU, false), OwnerRoute::OpenMenu);
    assert_eq!(owner(TRAY_CALLBACK, 0, 0x0400, false), OwnerRoute::OpenMenu);
    assert_eq!(owner(TRAY_CALLBACK, 0, 0x0201, false), OwnerRoute::TrayEvent);
    assert_eq!(owner(WM_CLOSE, 0, 0, false), OwnerRoute::Close);
    assert_eq!(owner(WM_DESTROY, 0, 0, false), OwnerRoute::Quit);
    assert_eq!(owner(WM_PAINT, 0, 0, false), OwnerRoute::Default);
}

#[test]
fn tray_events_wait_while_an_update_dialog_is_open_and_state_is_required() {
    assert_eq!(owner(TRAY_CALLBACK, 0, WM_CONTEXTMENU, true), OwnerRoute::Ignore);
    assert_eq!(owner(WM_TIMER, TIMER_ID, 0, true), OwnerRoute::Timer);
    assert_eq!(
        owner_message_route(WM_TIMER, TIMER_ID, 0, TASKBAR_CREATED, LAYOUT_CHANGED, false, false),
        OwnerRoute::Default
    );
}

#[test]
fn the_timer_only_quits_during_shutdown_and_checks_taskbars_on_schedule() {
    let mut schedule = TaskbarRefreshSchedule::new();
    assert_eq!(
        owner_timer_plan(&mut schedule, true, true, true, true),
        OwnerTimerPlan { quit: true, refresh: false, update_titles: false, check_taskbars: false, repaint_widgets: false }
    );
    assert!(!owner_timer_plan(&mut schedule, true, false, false, false).quit);
    let first = owner_timer_plan(&mut schedule, false, false, true, false);
    assert_eq!(
        first,
        OwnerTimerPlan { quit: false, refresh: true, update_titles: true, check_taskbars: true, repaint_widgets: false }
    );
    for _ in 0..4 {
        assert!(owner_timer_plan(&mut schedule, false, false, false, true).check_taskbars);
    }
    let after_startup = owner_timer_plan(&mut schedule, false, false, false, true);
    assert!(!after_startup.check_taskbars);
    assert!(after_startup.repaint_widgets);
}

#[test]
fn widget_routes_each_handled_message() {
    assert_eq!(widget_message_route(WM_NCDESTROY, 0, false), WidgetRoute::Destroyed);
    assert_eq!(widget_message_route(WM_PAINT, 0, false), WidgetRoute::Default);
    assert_eq!(widget_message_route(WM_PAINT, 0, true), WidgetRoute::Paint);
    assert_eq!(widget_message_route(WM_CONTEXTMENU, 0, true), WidgetRoute::ContextMenu);
    assert_eq!(widget_message_route(WM_MOUSEMOVE, 0, true), WidgetRoute::MouseMove);
    assert_eq!(widget_message_route(WM_MOUSELEAVE, 0, true), WidgetRoute::MouseLeave);
    assert_eq!(widget_message_route(WM_TIMER, HOVER_TIMER_ID, true), WidgetRoute::HoverFrame);
    assert_eq!(widget_message_route(WM_TIMER, TIMER_ID, true), WidgetRoute::Default);
    assert_eq!(widget_message_route(WM_DPICHANGED, 0, true), WidgetRoute::DpiChanged);
    assert_eq!(widget_message_route(WM_CLOSE, 0, true), WidgetRoute::Close);
    assert_eq!(widget_message_route(0x0201, 0, true), WidgetRoute::Default);
}

#[test]
fn the_pointer_requests_tracking_once_and_fades_after_leaving() {
    let mut pointer = WidgetPointer::default();
    assert!(pointer.mouse_moved());
    pointer.tracking_requested(true);
    assert!(!pointer.mouse_moved());
    assert!(pointer.hover_frame());
    assert_eq!(pointer.hover.value(), 26);
    let mut frames = 1;
    while pointer.hover_frame() {
        frames += 1;
    }
    assert_eq!(pointer.hover.value(), 255);
    assert!(frames <= 10);
    pointer.mouse_left();
    assert!(!pointer.mouse_tracking);
    assert!(pointer.hover_frame());
    assert_eq!(pointer.hover.value(), 229);

    let mut refused = WidgetPointer::default();
    assert!(refused.mouse_moved());
    refused.tracking_requested(false);
    assert!(refused.mouse_moved());
}
