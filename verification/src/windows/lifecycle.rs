//! Lifetime of the native windows and the recovery decisions, as pure state.

use vstd::prelude::*;

verus! {

/// Why a recovery check was requested.
#[derive(Clone, Copy, Debug, PartialEq, Eq, Structural)]
pub enum RecoveryEvent {
    /// Explorer created the taskbar anew.
    TaskbarCreated,
    /// The periodic health check.
    Timer,
}

/// What the current widget state needs.
#[derive(Clone, Copy, Debug, PartialEq, Eq, Structural)]
pub enum RecoveryDecision {
    /// Leave the widget as it is.
    Keep,
    /// Apply the current display policy to the existing widget again.
    Reapply,
    /// Create a new widget and apply the display policy.
    RecreateAndApply,
    /// The current hidden policy needs no widget.
    NoWidgetNeeded,
}

/// A native resource release performed on exit.
#[derive(Clone, Copy, Debug, PartialEq, Eq, Structural)]
pub enum CleanupAction {
    /// Stops the window timer.
    StopTimer,
    /// Removes the tray icon.
    RemoveTray,
    /// Destroys the widget window.
    DestroyWidget,
    /// Destroys the hidden owner window.
    DestroyOwner,
}

/// Which native resources exist, and whether the widget was last a child of
/// the taskbar.
#[derive(Clone, Debug, PartialEq, Eq, Structural)]
pub struct NativeLifecycle {
    owner_exists: bool,
    widget_exists: bool,
    timer_active: bool,
    tray_exists: bool,
    widget_was_taskbar_owned: bool,
}

/// The abstract state of a [`NativeLifecycle`].
pub struct LifecycleView {
    pub owner_exists: bool,
    pub widget_exists: bool,
    pub timer_active: bool,
    pub tray_exists: bool,
    pub widget_was_taskbar_owned: bool,
}

impl View for NativeLifecycle {
    type V = LifecycleView;

    closed spec fn view(&self) -> LifecycleView {
        LifecycleView {
            owner_exists: self.owner_exists,
            widget_exists: self.widget_exists,
            timer_active: self.timer_active,
            tray_exists: self.tray_exists,
            widget_was_taskbar_owned: self.widget_was_taskbar_owned,
        }
    }
}

/// The recovery needed: a missing widget is created again when it should be
/// visible or when the taskbar owned it (and destroyed it with itself); an
/// existing one is reapplied only after Explorer recreated the taskbar.
pub open spec fn recovery(state: LifecycleView, event: RecoveryEvent, widget_visible: bool) -> RecoveryDecision {
    if !state.widget_exists {
        if widget_visible || state.widget_was_taskbar_owned {
            RecoveryDecision::RecreateAndApply
        } else {
            RecoveryDecision::NoWidgetNeeded
        }
    } else if event == RecoveryEvent::TaskbarCreated {
        RecoveryDecision::Reapply
    } else {
        RecoveryDecision::Keep
    }
}

/// The releases in their safe order: timer, tray icon, widget, then owner,
/// each only for a resource that exists.
pub open spec fn cleanup(state: LifecycleView) -> Seq<CleanupAction> {
    (if state.timer_active { seq![CleanupAction::StopTimer] } else { Seq::empty() })
        + (if state.tray_exists { seq![CleanupAction::RemoveTray] } else { Seq::empty() })
        + (if state.widget_exists { seq![CleanupAction::DestroyWidget] } else { Seq::empty() })
        + (if state.owner_exists { seq![CleanupAction::DestroyOwner] } else { Seq::empty() })
}

impl Default for NativeLifecycle {
    /// Nothing exists yet.
    fn default() -> (r: Self)
        ensures
            !r@.owner_exists,
            !r@.widget_exists,
            !r@.timer_active,
            !r@.tray_exists,
            !r@.widget_was_taskbar_owned,
    {
        NativeLifecycle {
            owner_exists: false,
            widget_exists: false,
            timer_active: false,
            tray_exists: false,
            widget_was_taskbar_owned: false,
        }
    }
}

impl NativeLifecycle {
    /// Records that the hidden owner window was created.
    pub fn owner_created(&mut self)
        ensures
            final(self)@ == (LifecycleView { owner_exists: true, ..old(self)@ }),
    {
        self.owner_exists = true;
    }

    /// Records that a widget window was created; it is not yet on the taskbar.
    pub fn widget_created(&mut self)
        ensures
            final(self)@ == (LifecycleView { widget_exists: true, widget_was_taskbar_owned: false, ..old(self)@ }),
    {
        self.widget_exists = true;
        self.widget_was_taskbar_owned = false;
    }

    /// Records that the timer was started.
    pub fn timer_started(&mut self)
        ensures
            final(self)@ == (LifecycleView { timer_active: true, ..old(self)@ }),
    {
        self.timer_active = true;
    }

    /// Records that the tray icon was created.
    pub fn tray_created(&mut self)
        ensures
            final(self)@ == (LifecycleView { tray_exists: true, ..old(self)@ }),
    {
        self.tray_exists = true;
    }

    /// Records that the widget became a child of the taskbar.
    pub fn widget_attached_to_taskbar(&mut self)
        ensures
            final(self)@ == (LifecycleView { widget_was_taskbar_owned: true, ..old(self)@ }),
    {
        self.widget_was_taskbar_owned = true;
    }

    /// Records that `WM_NCDESTROY` invalidated the widget handle.
    pub fn widget_destroyed(&mut self)
        ensures
            final(self)@ == (LifecycleView { widget_exists: false, ..old(self)@ }),
    {
        self.widget_exists = false;
    }

    /// The action that the current state and the event call for.
    pub fn recovery_decision(&self, event: RecoveryEvent, widget_visible: bool) -> (d: RecoveryDecision)
        ensures
            d == recovery(self@, event, widget_visible),
    {
        if !self.widget_exists {
            return if widget_visible || self.widget_was_taskbar_owned {
                RecoveryDecision::RecreateAndApply
            } else {
                RecoveryDecision::NoWidgetNeeded
            };
        }
        if matches!(event, RecoveryEvent::TaskbarCreated) {
            RecoveryDecision::Reapply
        } else {
            RecoveryDecision::Keep
        }
    }

    /// The resources owned now, in their safe release order.
    pub fn cleanup_actions(&self) -> (actions: Vec<CleanupAction>)
        ensures
            actions@ == cleanup(self@),
    {
        let mut actions = Vec::with_capacity(4);
        if self.timer_active {
            actions.push(CleanupAction::StopTimer);
        }
        if self.tray_exists {
            actions.push(CleanupAction::RemoveTray);
        }
        if self.widget_exists {
            actions.push(CleanupAction::DestroyWidget);
        }
        if self.owner_exists {
            actions.push(CleanupAction::DestroyOwner);
        }
        assert(actions@ =~= cleanup(self@));
        actions
    }
}

/// A widget that the taskbar destroyed along with itself is always
/// recreated, even while the widget is hidden, and an intact widget is never
/// recreated.
pub proof fn lemma_taskbar_owned_widget_is_recreated(state: LifecycleView, event: RecoveryEvent, widget_visible: bool)
    ensures
        !state.widget_exists && state.widget_was_taskbar_owned ==> recovery(state, event, widget_visible)
            == RecoveryDecision::RecreateAndApply,
        state.widget_exists ==> recovery(state, event, widget_visible) != RecoveryDecision::RecreateAndApply,
{
}

/// Each owned resource is released exactly once, the owner window last.
pub proof fn lemma_cleanup_releases_each_resource_once(state: LifecycleView)
    ensures
        cleanup(state).no_duplicates(),
        cleanup(state).contains(CleanupAction::StopTimer) == state.timer_active,
        cleanup(state).contains(CleanupAction::RemoveTray) == state.tray_exists,
        cleanup(state).contains(CleanupAction::DestroyWidget) == state.widget_exists,
        cleanup(state).contains(CleanupAction::DestroyOwner) == state.owner_exists,
        state.owner_exists ==> cleanup(state).last() == CleanupAction::DestroyOwner,
{
    let s = cleanup(state);
    let a = if state.timer_active { seq![CleanupAction::StopTimer] } else { Seq::<CleanupAction>::empty() };
    let b = if state.tray_exists { seq![CleanupAction::RemoveTray] } else { Seq::<CleanupAction>::empty() };
    let c = if state.widget_exists { seq![CleanupAction::DestroyWidget] } else { Seq::<CleanupAction>::empty() };
    let d = if state.owner_exists { seq![CleanupAction::DestroyOwner] } else { Seq::<CleanupAction>::empty() };
    assert(s == a + b + c + d);
    assert forall|x: CleanupAction| s.contains(x) <==> (a.contains(x) || b.contains(x) || c.contains(x) || d.contains(x)) by {
        if s.contains(x) {
            let i = choose|i: int| 0 <= i < s.len() && s[i] == x;
            if i < a.len() {
                assert(a[i] == x);
            } else if i < a.len() + b.len() {
                assert(b[i - a.len()] == x);
            } else if i < a.len() + b.len() + c.len() {
                assert(c[i - a.len() - b.len()] == x);
            } else {
                assert(d[i - a.len() - b.len() - c.len()] == x);
            }
        }
        if a.contains(x) {
            assert(s[0] == x);
        }
        if b.contains(x) {
            assert(s[a.len() as int] == x);
        }
        if c.contains(x) {
            assert(s[(a.len() + b.len()) as int] == x);
        }
        if d.contains(x) {
            assert(s[(a.len() + b.len() + c.len()) as int] == x);
        }
    }
    if state.timer_active {
        assert(a[0] == CleanupAction::StopTimer);
    }
    if state.widget_exists {
        assert(c[0] == CleanupAction::DestroyWidget);
    }
    assert(!b.contains(CleanupAction::StopTimer) && !c.contains(CleanupAction::StopTimer) && !d.contains(CleanupAction::StopTimer));
    assert(!a.contains(CleanupAction::DestroyWidget) && !b.contains(CleanupAction::DestroyWidget) && !d.contains(CleanupAction::DestroyWidget));
}

} // verus!
