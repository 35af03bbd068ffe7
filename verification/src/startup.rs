//! The startup routine's decisions, taken together before the host's
//! event loop runs: initial controller state, the autostart request,
//! and whether to show the window at once.

use vstd::prelude::*;
use crate::autostart::AutostartAction;
use crate::autostart::AutostartQuery;
use crate::autostart::autostart_decision;
use crate::autostart::decide_autostart;
use crate::controller::Action;
use crate::controller::TrayVisibilityController;
use crate::controller::initial_visibility;
use crate::launch::LaunchMode;

verus! {

/// What the native layer does with the freshly built window: show it
/// eagerly on a manual start; never override a hidden start, where the
/// UI layer decides later from the user's preference.
pub open spec fn startup_show_action(started_hidden: bool) -> Action {
    if started_hidden {
        Action::Ignore
    } else {
        Action::ShowWindow
    }
}

/// Everything the startup routine decides before the event loop runs.
/// The host performs the plan in order: request autostart enabling if
/// asked, perform the first action on the window, then route every
/// event through the controller.
#[derive(Clone, Copy, Debug)]
pub struct StartupPlan {
    /// The event router, in its initial state.
    pub controller: TrayVisibilityController,
    /// Whether the host's autostart enable() is called.
    pub autostart: AutostartAction,
    /// What happens to the window before the first event.
    pub first_action: Action,
}

/// Makes every startup decision from the launch mode and the autostart
/// query result.
pub fn plan_startup(mode: &LaunchMode, q: &AutostartQuery) -> (p: StartupPlan)
    ensures
        p.controller@ == initial_visibility(mode.started_hidden),
        p.autostart == autostart_decision(*q),
        p.first_action == startup_show_action(mode.started_hidden),
{
    StartupPlan {
        controller: TrayVisibilityController::new(mode),
        autostart: decide_autostart(q),
        first_action: if mode.started_hidden {
            Action::Ignore
        } else {
            Action::ShowWindow
        },
    }
}

/// The startup plan is coherent: the window is shown at once exactly
/// when the controller starts in the `Visible` state, and left alone
/// exactly when it starts `Hidden`.
pub proof fn lemma_startup_show_matches_state(started_hidden: bool)
    ensures
        (startup_show_action(started_hidden) == Action::ShowWindow) <==> (initial_visibility(
            started_hidden,
        ) is Visible),
        (startup_show_action(started_hidden) is Ignore) <==> (initial_visibility(
            started_hidden,
        ) is Hidden),
{
}

} // verus!
