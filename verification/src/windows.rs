//! Decisions of the two window commands, separated from the window system that
//! carries them out: the host observes which of the two well-known windows are
//! open, this module decides what to do, and the host performs it.

use vstd::prelude::*;

verus! {

/// What the window commands read of the host's registry: whether the two
/// well-known windows are currently open.
#[derive(Clone, Copy, PartialEq, Eq, Structural, Debug)]
pub struct WindowSet {
    /// Whether the secondary selection window is open.
    pub select_open: bool,
    /// Whether the main window is open.
    pub main_open: bool,
}

/// What opening the selection window does: focus the existing window, or
/// create it from its pre-registered configuration. Exactly one of the two.
#[derive(Clone, Copy, PartialEq, Eq, Structural, Debug)]
pub enum OpenSelectPlan {
    FocusExisting,
    CreateFromConfig,
}

/// The open command's rule: focus when the window is already open, create
/// otherwise.
pub open spec fn spec_open_select_plan(w: WindowSet) -> OpenSelectPlan {
    if w.select_open {
        OpenSelectPlan::FocusExisting
    } else {
        OpenSelectPlan::CreateFromConfig
    }
}

/// Decide how the open command acts on the observed registry. Creating the
/// window presumes its configuration was registered at startup; that is a
/// process-startup invariant of the host, not a runtime condition.
pub fn plan_open_select(windows: &WindowSet) -> (p: OpenSelectPlan)
    ensures
        p == spec_open_select_plan(*windows),
{
    if windows.select_open {
        OpenSelectPlan::FocusExisting
    } else {
        OpenSelectPlan::CreateFromConfig
    }
}

/// The registry after either open action: focusing keeps the selection window
/// open, creating opens it; the main window is untouched either way.
pub open spec fn spec_after_open_select(w: WindowSet) -> WindowSet {
    WindowSet { select_open: true, ..w }
}

/// Idempotent-open law: after one open command the selection window is open,
/// so a second open command in a row focuses the existing window and creates
/// nothing — no duplicate window arises.
pub proof fn lemma_reopen_focuses(w: WindowSet)
    ensures
        spec_after_open_select(w).select_open,
        spec_open_select_plan(spec_after_open_select(w)) == OpenSelectPlan::FocusExisting,
{
}

/// What the close command does: close the selection window when present, then
/// focus the main window when present. Either part may be skipped with no
/// error.
#[derive(Clone, Copy, PartialEq, Eq, Structural, Debug)]
pub struct CloseSelectPlan {
    pub close_select: bool,
    pub focus_main: bool,
}

/// Decide how the close command acts on the observed registry.
pub fn plan_close_select(windows: &WindowSet) -> (p: CloseSelectPlan)
    ensures
        p.close_select == windows.select_open,
        p.focus_main == windows.main_open,
{
    CloseSelectPlan { close_select: windows.select_open, focus_main: windows.main_open }
}

} // verus!
