use codex_peek::windows::design::{DialogPalette, DialogTheme};
use codex_peek::windows::dialog_resources::{
    create_dialog_font, erase_dialog_background_with, release_dialog_resource_set,
    DialogFontFace, DialogResourceBackend, DialogResourceSet, DialogVisualRequest,
    DialogVisualResources, DialogVisualSnapshot, DialogVisualUpdateOutcome, ResourceCall,
};
use std::cell::RefCell;
use std::collections::VecDeque;
use std::rc::Rc;

#[derive(Clone, Copy, Debug, PartialEq, Eq)]
enum ResourceEvent {
    Created(usize),
    Applied { body_font: usize, heading_font: usize },
    Deleted(usize),
}

#[derive(Default)]
struct ResourceCalls {
    font_faces: Vec<DialogFontFace>,
    deleted: Vec<usize>,
    events: Vec<ResourceEvent>,
}

struct RecordingResourceBackend {
    calls: Rc<RefCell<ResourceCalls>>,
    fonts: VecDeque<usize>,
    brushes: VecDeque<usize>,
    stock_font: usize,
}

impl DialogResourceBackend for RecordingResourceBackend {
    fn resource_calls(&self) -> vstd::seq::Seq<ResourceCall> {
        vstd::seq::Seq::empty()
    }

    fn create_font(&mut self, _dpi: u32, _heading: bool, face: DialogFontFace) -> usize {
        self.calls.borrow_mut().font_faces.push(face);
        let handle = self.fonts.pop_front().unwrap_or_default();
        self.calls.borrow_mut().events.push(ResourceEvent::Created(handle));
        handle
    }

    fn stock_font(&mut self) -> usize {
        self.stock_font
    }

    fn create_brush(&mut self, _colorref: u32) -> usize {
        let handle = self.brushes.pop_front().unwrap_or_default();
        self.calls.borrow_mut().events.push(ResourceEvent::Created(handle));
        handle
    }

    fn delete_object(&mut self, handle: usize) {
        let mut calls = self.calls.borrow_mut();
        calls.deleted.push(handle);
        calls.events.push(ResourceEvent::Deleted(handle));
    }
}

fn recording_backend(
    calls: &Rc<RefCell<ResourceCalls>>,
    fonts: &[usize],
    brushes: &[usize],
) -> RecordingResourceBackend {
    RecordingResourceBackend {
        calls: Rc::clone(calls),
        fonts: fonts.iter().copied().collect(),
        brushes: brushes.iter().copied().collect(),
        stock_font: 99,
    }
}

/// Runs a visual update to its end, as the dialog's window procedure does:
/// the resources are not borrowed while a snapshot is applied, so a nested
/// request from inside `apply` is coalesced.
fn update_visuals<B: DialogResourceBackend>(
    resources: &RefCell<DialogVisualResources<B>>,
    dpi: u32,
    theme: DialogTheme,
    mut apply: impl FnMut(DialogVisualSnapshot),
) -> DialogVisualUpdateOutcome {
    let request = resources.borrow_mut().request_visual_update(dpi, theme);
    let mut visual = match request {
        DialogVisualRequest::Coalesced => return DialogVisualUpdateOutcome::Coalesced,
        DialogVisualRequest::Apply(visual) => visual,
    };
    loop {
        apply(visual);
        let next = resources.borrow_mut().finish_visual_update();
        match next {
            Some(next) => visual = next,
            None => return DialogVisualUpdateOutcome::Applied,
        }
    }
}

fn sorted_deleted(calls: &Rc<RefCell<ResourceCalls>>) -> Vec<usize> {
    let mut deleted = calls.borrow().deleted.clone();
    deleted.sort_unstable();
    deleted
}

#[test]
fn font_creation_retries_segoe_ui_before_using_stock_font() {
    let calls = Rc::new(RefCell::new(ResourceCalls::default()));
    let backend = recording_backend(&calls, &[0, 0, 0, 0], &[21, 22]);

    let resources = DialogVisualResources::new_with_backend(96, DialogTheme::Dark, backend);
    drop(resources.teardown());

    assert_eq!(
        calls.borrow().font_faces,
        [
            DialogFontFace::SegoeUiVariable,
            DialogFontFace::SegoeUi,
            DialogFontFace::SegoeUiVariable,
            DialogFontFace::SegoeUi,
        ]
    );
    assert!(!calls.borrow().deleted.contains(&99));
}

#[test]
fn initial_null_brushes_are_unowned_and_leave_background_erase_to_windows() {
    let calls = Rc::new(RefCell::new(ResourceCalls::default()));
    let backend = recording_backend(&calls, &[11, 12], &[0, 0]);
    let resources = DialogVisualResources::new_with_backend(96, DialogTheme::Dark, backend);

    assert_eq!(resources.resources().background_brush, 0);
    assert_eq!(resources.resources().surface_brush, 0);
    assert!(!resources.resources().owns_background_brush);
    assert!(!resources.resources().owns_surface_brush);
    assert!(!erase_dialog_background_with(&resources, |_| -> Result<(), String> {
        panic!("a null brush must not reach FillRect")
    }));

    drop(resources.teardown());
    assert_eq!(calls.borrow().deleted, [11, 12]);
    assert!(!calls.borrow().deleted.contains(&0));
}

#[test]
fn incomplete_rebuild_brushes_are_released_without_discarding_valid_active_resources() {
    let calls = Rc::new(RefCell::new(ResourceCalls::default()));
    let backend = recording_backend(&calls, &[11, 12, 31, 32], &[21, 22, 41, 0]);
    let resources = RefCell::new(DialogVisualResources::new_with_backend(
        96,
        DialogTheme::Dark,
        backend,
    ));
    calls.borrow_mut().events.clear();

    update_visuals(&resources, 144, DialogTheme::Light, |visual| {
        calls.borrow_mut().events.push(ResourceEvent::Applied {
            body_font: visual.body_font,
            heading_font: visual.heading_font,
        });
    });

    let resources = resources.into_inner();
    assert_eq!(resources.dpi(), 96);
    assert_eq!(resources.resources().body_font, 11);
    assert_eq!(resources.resources().heading_font, 12);
    assert_eq!(resources.resources().background_brush, 21);
    assert_eq!(resources.resources().surface_brush, 22);
    assert_eq!(
        calls.borrow().events,
        [
            ResourceEvent::Created(31),
            ResourceEvent::Created(32),
            ResourceEvent::Created(41),
            ResourceEvent::Created(0),
            ResourceEvent::Deleted(31),
            ResourceEvent::Deleted(32),
            ResourceEvent::Deleted(41),
            ResourceEvent::Applied {
                body_font: 11,
                heading_font: 12,
            },
        ]
    );
    assert!(!calls.borrow().deleted.contains(&0));

    drop(resources.teardown());
    assert_eq!(sorted_deleted(&calls), [11, 12, 21, 22, 31, 32, 41]);
}

#[test]
fn background_erase_is_handled_only_when_fill_succeeds() {
    let calls = Rc::new(RefCell::new(ResourceCalls::default()));
    let backend = recording_backend(&calls, &[11, 12], &[21, 22]);
    let resources = DialogVisualResources::new_with_backend(96, DialogTheme::Dark, backend);

    assert!(!erase_dialog_background_with(&resources, |_| {
        Err(std::io::Error::other("injected FillRect failure"))
    }));
    assert!(erase_dialog_background_with(&resources, |_| Ok::<(), std::io::Error>(())));
}

#[test]
fn rebuild_and_teardown_delete_each_owned_handle_once() {
    let calls = Rc::new(RefCell::new(ResourceCalls::default()));
    let backend = recording_backend(&calls, &[11, 0, 0, 31, 32], &[21, 22, 41, 42]);
    let resources = RefCell::new(DialogVisualResources::new_with_backend(
        96,
        DialogTheme::Dark,
        backend,
    ));

    update_visuals(&resources, 144, DialogTheme::Light, |_| {});
    drop(resources.into_inner().teardown());

    let deleted = sorted_deleted(&calls);
    assert_eq!(deleted, [11, 21, 22, 31, 32, 41, 42]);
    assert!(!deleted.contains(&99));
}

#[test]
fn rebuild_applies_staged_fonts_before_deleting_old_handles() {
    let calls = Rc::new(RefCell::new(ResourceCalls::default()));
    let backend = recording_backend(&calls, &[11, 12, 31, 32], &[21, 22, 41, 42]);
    let resources = RefCell::new(DialogVisualResources::new_with_backend(
        96,
        DialogTheme::Dark,
        backend,
    ));
    calls.borrow_mut().events.clear();

    let outcome = update_visuals(&resources, 144, DialogTheme::Light, |visual| {
        calls.borrow_mut().events.push(ResourceEvent::Applied {
            body_font: visual.body_font,
            heading_font: visual.heading_font,
        });
    });

    assert_eq!(outcome, DialogVisualUpdateOutcome::Applied);
    assert_eq!(
        calls.borrow().events,
        [
            ResourceEvent::Created(31),
            ResourceEvent::Created(32),
            ResourceEvent::Created(41),
            ResourceEvent::Created(42),
            ResourceEvent::Applied {
                body_font: 31,
                heading_font: 32,
            },
            ResourceEvent::Deleted(11),
            ResourceEvent::Deleted(12),
            ResourceEvent::Deleted(21),
            ResourceEvent::Deleted(22),
        ]
    );
}

#[test]
fn reentrant_visual_update_is_coalesced_to_the_latest_safe_state() {
    let calls = Rc::new(RefCell::new(ResourceCalls::default()));
    let backend = recording_backend(&calls, &[11, 12, 31, 32, 51, 52], &[21, 22, 41, 42, 61, 62]);
    let resources = RefCell::new(DialogVisualResources::new_with_backend(
        96,
        DialogTheme::Dark,
        backend,
    ));
    let applied = RefCell::new(Vec::new());
    let nested_outcomes = RefCell::new(Vec::new());

    let outcome = update_visuals(&resources, 144, DialogTheme::Light, |visual| {
        applied.borrow_mut().push((visual.body_font, visual.heading_font));
        if applied.borrow().len() == 1 {
            nested_outcomes.borrow_mut().push(update_visuals(
                &resources,
                192,
                DialogTheme::Dark,
                |_| panic!("coalesced update must not apply inside the nested call"),
            ));
        }
    });

    let resources = resources.into_inner();
    assert_eq!(outcome, DialogVisualUpdateOutcome::Applied);
    assert_eq!(
        nested_outcomes.borrow().as_slice(),
        [DialogVisualUpdateOutcome::Coalesced]
    );
    assert_eq!(applied.borrow().as_slice(), [(31, 32), (51, 52)]);
    assert_eq!(resources.dpi(), 192);
    assert_eq!(resources.palette(), DialogPalette::for_theme(DialogTheme::Dark));
    assert_eq!(resources.resources().body_font, 51);
    assert_eq!(resources.resources().heading_font, 52);
    assert_eq!(resources.profile_row_height(), 112);
    assert!(!resources.update_in_progress());
    assert!(resources.pending_update().is_none());
}

#[test]
fn same_dpi_and_theme_update_makes_nothing_and_applies_the_fonts_in_use() {
    let calls = Rc::new(RefCell::new(ResourceCalls::default()));
    let backend = recording_backend(&calls, &[11, 12], &[21, 22]);
    let resources = RefCell::new(DialogVisualResources::new_with_backend(
        96,
        DialogTheme::Dark,
        backend,
    ));
    calls.borrow_mut().events.clear();
    let mut applied = Vec::new();

    let outcome = update_visuals(&resources, 96, DialogTheme::Dark, |visual| applied.push(visual));

    assert_eq!(outcome, DialogVisualUpdateOutcome::Applied);
    assert_eq!(
        applied,
        [DialogVisualSnapshot { body_font: 11, heading_font: 12, dark: true }]
    );
    assert!(calls.borrow().events.is_empty());
    let resources = resources.into_inner();
    let row = resources.profile_row_snapshot();
    assert_eq!(row.dpi, 96);
    assert_eq!(row.body_font, 11);
    assert_eq!(resources.profile_row_height(), 56);
}

#[test]
fn font_creation_answers_the_first_face_that_was_created() {
    let calls = Rc::new(RefCell::new(ResourceCalls::default()));
    let mut backend = recording_backend(&calls, &[0, 7, 0, 0], &[]);
    assert_eq!(create_dialog_font(&mut backend, 96, false), (7, true));
    assert_eq!(create_dialog_font(&mut backend, 96, true), (99, false));
    assert_eq!(
        calls.borrow().font_faces,
        [
            DialogFontFace::SegoeUiVariable,
            DialogFontFace::SegoeUi,
            DialogFontFace::SegoeUiVariable,
            DialogFontFace::SegoeUi,
        ]
    );
}

#[test]
fn releasing_a_set_deletes_only_its_owned_nonzero_handles_in_order() {
    let calls = Rc::new(RefCell::new(ResourceCalls::default()));
    let mut backend = recording_backend(&calls, &[], &[]);
    let set = DialogResourceSet {
        body_font: 11,
        heading_font: 99,
        background_brush: 21,
        surface_brush: 0,
        owns_body_font: true,
        owns_heading_font: false,
        owns_background_brush: true,
        owns_surface_brush: false,
    };
    assert!(!set.has_complete_brush_set());
    release_dialog_resource_set(&mut backend, set);
    assert_eq!(calls.borrow().deleted, [11, 21]);
}
