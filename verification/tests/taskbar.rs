use std::collections::BTreeMap;

use codex_peek::windows::taskbar::{
    place_taskbar_widget, reconcile_widget_surfaces, AttachmentCall, run_taskbar_attachment,
    taskbar_widget_minimum_width, taskbar_widget_size, TaskbarAttachmentBackend,
    SurfaceCall, TaskbarAttachmentStage, TaskbarGeometry, TaskbarPlacementError, WidgetSurface,
    WidgetSurfaceBackend,
};
use codex_peek::windows::widget::Rect;

#[derive(Default)]
struct FakeSurfaces {
    windows: BTreeMap<usize, WidgetSurface<usize>>,
    next: usize,
    failing_targets: Vec<usize>,
    failing_destroy: bool,
    destroyed: Vec<usize>,
    created: usize,
    mutations: usize,
}

impl WidgetSurfaceBackend for FakeSurfaces {
    type Error = String;

    fn windows(&self) -> vstd::map::Map<usize, WidgetSurface<usize>> {
        vstd::map::Map::empty()
    }

    fn surface_calls(&self) -> vstd::seq::Seq<SurfaceCall<String>> {
        vstd::seq::Seq::empty()
    }

    fn listed_surfaces(&self) -> vstd::seq::Seq<(usize, WidgetSurface<usize>)> {
        vstd::seq::Seq::empty()
    }

    fn surfaces(&self) -> Vec<(usize, WidgetSurface<usize>)> {
        self.windows.iter().map(|(w, s)| (*w, *s)).collect()
    }

    fn create_detached(&mut self) -> Result<usize, String> {
        self.mutations += 1;
        self.next += 1;
        let window = 1000 + self.next;
        self.windows.insert(window, WidgetSurface::Detached);
        self.created += 1;
        Ok(window)
    }

    fn attach(&mut self, window: usize, target: usize) -> Result<(), String> {
        self.mutations += 1;
        if self.failing_targets.contains(&target) {
            return Err(format!("attach {target} failed"));
        }
        self.windows.insert(window, WidgetSurface::Attached(target));
        Ok(())
    }

    fn detach(&mut self, window: usize) -> Result<(), String> {
        self.mutations += 1;
        self.windows.insert(window, WidgetSurface::Detached);
        Ok(())
    }

    fn destroy(&mut self, window: usize) -> Result<(), String> {
        self.mutations += 1;
        if self.failing_destroy {
            return Err(format!("destroy {window} failed"));
        }
        self.windows.remove(&window);
        self.destroyed.push(window);
        Ok(())
    }
}

fn attached_targets(backend: &FakeSurfaces) -> Vec<usize> {
    let mut targets: Vec<usize> = backend
        .windows
        .values()
        .filter_map(|s| match s {
            WidgetSurface::Attached(t) => Some(*t),
            WidgetSurface::Detached => None,
        })
        .collect();
    targets.sort();
    targets
}

fn detached_count(backend: &FakeSurfaces) -> usize {
    backend.windows.values().filter(|s| **s == WidgetSurface::Detached).count()
}

#[test]
fn no_target_keeps_exactly_one_floating_widget() {
    let mut backend = FakeSurfaces::default();
    backend.windows.insert(1, WidgetSurface::Attached(10));
    backend.windows.insert(2, WidgetSurface::Attached(11));
    let errors = reconcile_widget_surfaces(&mut backend, &[]).unwrap();
    assert!(errors.is_empty());
    assert_eq!(backend.windows.len(), 1);
    assert_eq!(backend.windows.get(&1), Some(&WidgetSurface::Detached));
    assert_eq!(backend.destroyed, vec![2]);
}

#[test]
fn no_widget_and_no_target_creates_one_floating_widget() {
    let mut backend = FakeSurfaces::default();
    reconcile_widget_surfaces(&mut backend, &[]).unwrap();
    assert_eq!(backend.windows.len(), 1);
    assert_eq!(detached_count(&backend), 1);
}

#[test]
fn new_targets_reuse_the_floating_widget_before_creating_more() {
    let mut backend = FakeSurfaces::default();
    backend.windows.insert(7, WidgetSurface::Detached);
    let errors = reconcile_widget_surfaces(&mut backend, &[10, 11]).unwrap();
    assert!(errors.is_empty());
    assert_eq!(backend.windows.get(&7), Some(&WidgetSurface::Attached(10)));
    assert_eq!(attached_targets(&backend), vec![10, 11]);
    assert_eq!(detached_count(&backend), 0);
    assert_eq!(backend.created, 1);
}

#[test]
fn duplicate_and_stale_attachments_are_destroyed() {
    let mut backend = FakeSurfaces::default();
    backend.windows.insert(1, WidgetSurface::Attached(10));
    backend.windows.insert(2, WidgetSurface::Attached(10));
    backend.windows.insert(3, WidgetSurface::Attached(99));
    backend.windows.insert(4, WidgetSurface::Detached);
    backend.windows.insert(5, WidgetSurface::Detached);
    let errors = reconcile_widget_surfaces(&mut backend, &[10]).unwrap();
    assert!(errors.is_empty());
    assert_eq!(backend.windows.len(), 1);
    assert_eq!(backend.windows.get(&1), Some(&WidgetSurface::Attached(10)));
}

#[test]
fn failed_attach_keeps_one_floating_fallback_and_reports_the_error() {
    let mut backend = FakeSurfaces { failing_targets: vec![10], ..FakeSurfaces::default() };
    let errors = reconcile_widget_surfaces(&mut backend, &[10, 11]).unwrap();
    assert_eq!(errors, vec!["attach 10 failed".to_string()]);
    assert_eq!(detached_count(&backend), 1);
    assert!(attached_targets(&backend).is_empty());
}

#[test]
fn later_failures_do_not_add_more_floating_widgets() {
    let mut backend = FakeSurfaces { failing_targets: vec![11, 12], ..FakeSurfaces::default() };
    let errors = reconcile_widget_surfaces(&mut backend, &[10, 11, 12]).unwrap();
    assert_eq!(errors.len(), 2);
    assert_eq!(detached_count(&backend), 1);
    assert_eq!(attached_targets(&backend), vec![10]);
}

#[test]
fn settled_widgets_are_left_alone() {
    let mut backend = FakeSurfaces::default();
    backend.windows.insert(1, WidgetSurface::Attached(11));
    backend.windows.insert(2, WidgetSurface::Attached(10));
    let errors = reconcile_widget_surfaces(&mut backend, &[10, 11]).unwrap();
    assert!(errors.is_empty());
    assert!(backend.destroyed.is_empty());
    assert_eq!(backend.created, 0);
    assert_eq!(backend.windows.len(), 2);
}

#[derive(Default)]
struct FakeAttachment {
    style: u32,
    parent: Option<usize>,
    fail_set_parent: bool,
    ignore_style: bool,
    reads: usize,
}

impl TaskbarAttachmentBackend for FakeAttachment {
    fn calls(&self) -> vstd::seq::Seq<AttachmentCall> {
        vstd::seq::Seq::empty()
    }

    fn read_style(&mut self) -> Result<u32, String> {
        Ok(self.style)
    }

    fn read_parent(&mut self) -> Result<Option<usize>, String> {
        self.reads += 1;
        Ok(self.parent)
    }

    fn set_style(&mut self, style: u32) -> Result<(), String> {
        if !self.ignore_style {
            self.style = style;
        }
        Ok(())
    }

    fn set_parent(&mut self, parent: Option<usize>) -> Result<(), String> {
        if self.fail_set_parent && parent.is_some() {
            return Err("parent refused".to_string());
        }
        self.parent = parent;
        Ok(())
    }

    fn set_position(&mut self) -> Result<(), String> {
        Ok(())
    }

    fn refresh_frame(&mut self) -> Result<(), String> {
        Ok(())
    }
}

#[test]
fn attachment_makes_a_clipped_child_of_the_taskbar() {
    let mut backend = FakeAttachment { style: 0x8000_0000 | 0x0001_0000, ..FakeAttachment::default() };
    run_taskbar_attachment(&mut backend, 77).unwrap();
    assert_eq!(backend.parent, Some(77));
    assert_eq!(backend.style, 0x4000_0000 | 0x0400_0000 | 0x0001_0000);
}

#[test]
fn failed_attachment_restores_the_original_parent_and_style() {
    let mut backend = FakeAttachment { style: 0x8000_0000, fail_set_parent: true, ..FakeAttachment::default() };
    let error = run_taskbar_attachment(&mut backend, 77).unwrap_err();
    assert_eq!(error.failed_stage(), TaskbarAttachmentStage::SetParent);
    assert!(!error.rollback_failed());
    assert_eq!(backend.parent, None);
    assert_eq!(backend.style, 0x8000_0000);
    assert_eq!(error.message(), "taskbar attachment SetParent failed: parent refused");
}

#[test]
fn taskbar_widget_sits_before_the_notification_area() {
    let geometry = TaskbarGeometry {
        taskbar: Rect::new(0, 1032, 1920, 1080),
        notification: Rect::new(1700, 1032, 1920, 1080),
        occupied: Some(Rect::new(0, 1032, 900, 1080)),
    };
    let placed = place_taskbar_widget(geometry, (208, 48), 99, 8).unwrap();
    assert_eq!(placed, Rect::new(1484, 1032, 1692, 1080));
    assert_eq!(
        place_taskbar_widget(geometry, (208, 48), 99, -1),
        Err(TaskbarPlacementError::InsufficientSpace)
    );
    let vertical = TaskbarGeometry {
        taskbar: Rect::new(0, 0, 48, 1040),
        notification: Rect::new(0, 900, 48, 1040),
        occupied: None,
    };
    assert_eq!(
        place_taskbar_widget(vertical, (48, 48), 40, 0),
        Err(TaskbarPlacementError::VerticalTaskbar)
    );
}

#[test]
fn widget_shrinks_toward_the_occupied_buttons_and_refuses_when_too_narrow() {
    let geometry = TaskbarGeometry {
        taskbar: Rect::new(0, 0, 1000, 48),
        notification: Rect::new(900, 0, 1000, 48),
        occupied: Some(Rect::new(0, 0, 750, 48)),
    };
    assert_eq!(place_taskbar_widget(geometry, (208, 48), 99, 0).unwrap(), Rect::new(750, 0, 900, 48));
    let crowded = TaskbarGeometry { occupied: Some(Rect::new(0, 0, 850, 48)), ..geometry };
    assert_eq!(
        place_taskbar_widget(crowded, (208, 48), 99, 0),
        Err(TaskbarPlacementError::InsufficientSpace)
    );
}

#[test]
fn widget_size_follows_the_taskbar_height() {
    assert_eq!(taskbar_widget_size(48, 96), Ok((208, 48)));
    assert_eq!(taskbar_widget_size(60, 96), Ok((208, 48)));
    assert_eq!(taskbar_widget_size(35, 96), Err(TaskbarPlacementError::InsufficientSpace));
    assert_eq!(taskbar_widget_minimum_width(96), 88);
}

#[test]
fn style_that_does_not_read_back_is_reported_in_hexadecimal() {
    let mut backend = FakeAttachment { style: 0x8000_0000, ignore_style: true, ..FakeAttachment::default() };
    let error = run_taskbar_attachment(&mut backend, 77).unwrap_err();
    assert_eq!(error.failed_stage(), TaskbarAttachmentStage::VerifyChildStyle);
    assert_eq!(
        error.message(),
        "taskbar attachment VerifyChildStyle failed: style mismatch: expected 0x44000000, got 0x80000000"
    );
}

#[test]
fn no_target_keeps_the_existing_floating_widget_and_creates_nothing() {
    let mut backend = FakeSurfaces::default();
    backend.windows.insert(1, WidgetSurface::Attached(10));
    backend.windows.insert(2, WidgetSurface::Detached);
    backend.windows.insert(3, WidgetSurface::Detached);
    assert!(reconcile_widget_surfaces(&mut backend, &[]).unwrap().is_empty());
    assert_eq!(backend.windows.len(), 1);
    assert_eq!(backend.windows.get(&2), Some(&WidgetSurface::Detached));
    assert_eq!(backend.created, 0);
    assert_eq!(backend.destroyed, vec![1, 3]);
}

#[test]
fn a_single_floating_widget_without_targets_is_not_touched() {
    let mut backend = FakeSurfaces::default();
    backend.windows.insert(4, WidgetSurface::Detached);
    assert!(reconcile_widget_surfaces(&mut backend, &[]).unwrap().is_empty());
    assert_eq!(backend.mutations, 0);
}

#[test]
fn existing_attached_widgets_are_kept_and_the_floating_one_fills_a_gap() {
    let mut backend = FakeSurfaces::default();
    backend.windows.insert(1, WidgetSurface::Attached(10));
    backend.windows.insert(2, WidgetSurface::Detached);
    let errors = reconcile_widget_surfaces(&mut backend, &[10, 11]).unwrap();
    assert!(errors.is_empty());
    assert_eq!(backend.windows.get(&1), Some(&WidgetSurface::Attached(10)));
    assert_eq!(backend.windows.get(&2), Some(&WidgetSurface::Attached(11)));
    assert_eq!(backend.created, 0);
    assert!(backend.destroyed.is_empty());
}

#[test]
fn a_failed_destroy_is_returned_as_the_last_error() {
    let mut backend = FakeSurfaces { failing_destroy: true, ..FakeSurfaces::default() };
    backend.windows.insert(1, WidgetSurface::Attached(10));
    backend.windows.insert(2, WidgetSurface::Attached(99));
    let error = reconcile_widget_surfaces(&mut backend, &[10]).unwrap_err();
    assert_eq!(error, "destroy 2 failed");
    assert_eq!(backend.windows.get(&1), Some(&WidgetSurface::Attached(10)));
}

#[test]
fn settled_widgets_listed_in_another_order_are_not_touched() {
    let mut backend = FakeSurfaces::default();
    backend.windows.insert(1, WidgetSurface::Attached(11));
    backend.windows.insert(2, WidgetSurface::Attached(10));
    let errors = reconcile_widget_surfaces(&mut backend, &[10, 11]).unwrap();
    assert!(errors.is_empty());
    assert_eq!(backend.mutations, 0);
    assert_eq!(backend.windows.len(), 2);
}
