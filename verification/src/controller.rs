//! The tray/window visibility state machine: every tray-menu, tray-icon
//! and window event is routed through one controller, which tracks the
//! logical visibility of the single main window and tells the host
//! which action to perform.

use vstd::prelude::*;
use crate::launch::LaunchMode;

verus! {

/// Logical visibility of the single main window. A close request never
/// destroys the window; it only moves it to `Hidden`.
#[derive(Clone, Copy, PartialEq, Eq, Structural, Debug)]
pub enum WindowVisibility {
    Visible,
    Hidden,
}

/// Tag of a tray-menu entry: the two fixed entries, and an explicit
/// tag for any other entry the host might report.
#[derive(Clone, Copy, PartialEq, Eq, Structural, Debug)]
pub enum MenuId {
    Show,
    Quit,
    Other,
}

/// Mouse button of a tray-icon click.
#[derive(Clone, Copy, PartialEq, Eq, Structural, Debug)]
pub enum MouseButton {
    Left,
    Right,
    Middle,
}

/// Press-or-release transition of a tray-icon click.
#[derive(Clone, Copy, PartialEq, Eq, Structural, Debug)]
pub enum MouseButtonState {
    Up,
    Down,
}

/// Every event the host dispatches to the controller, as a closed tag
/// type with an explicit place for the events the backend ignores.
#[derive(Clone, Copy, PartialEq, Eq, Structural, Debug)]
pub enum Event {
    /// A tray-menu entry was selected.
    MenuSelected(MenuId),
    /// The tray icon was clicked, with the given button and transition.
    TrayClick(MouseButton, MouseButtonState),
    /// Any other tray-icon event (enter, leave, move, double click).
    TrayOther,
    /// The user asked to close the main window.
    CloseRequested,
    /// Any other window event.
    WindowOther,
}

/// What the host must perform in response to an event. Showing, hiding
/// and focusing are best-effort: the host discards their failures.
#[derive(Clone, Copy, PartialEq, Eq, Structural, Debug)]
pub enum Action {
    /// Show the main window, without changing focus.
    ShowWindow,
    /// Show the main window and give it focus.
    ShowAndFocus,
    /// Cancel the pending close of the main window, then hide it.
    PreventCloseAndHide,
    /// Terminate the process with the given exit code.
    Exit(i32),
    /// Do nothing.
    Ignore,
}

/// The visibility the window holds after the controller handles `e`
/// in state `v`.
pub open spec fn next_visibility(v: WindowVisibility, e: Event) -> WindowVisibility {
    match e {
        Event::MenuSelected(MenuId::Show) => WindowVisibility::Visible,
        Event::MenuSelected(MenuId::Quit) => v,
        Event::MenuSelected(MenuId::Other) => v,
        Event::TrayClick(MouseButton::Left, MouseButtonState::Up) => WindowVisibility::Visible,
        Event::TrayClick(_, _) => v,
        Event::TrayOther => v,
        Event::CloseRequested => WindowVisibility::Hidden,
        Event::WindowOther => v,
    }
}

/// The action the host performs for `e`. It depends on the event
/// alone: show and hide are issued unconditionally, so a repeated
/// event is harmless.
pub open spec fn action_for(e: Event) -> Action {
    match e {
        Event::MenuSelected(MenuId::Show) => Action::ShowAndFocus,
        Event::MenuSelected(MenuId::Quit) => Action::Exit(0),
        Event::MenuSelected(MenuId::Other) => Action::Ignore,
        Event::TrayClick(MouseButton::Left, MouseButtonState::Up) => Action::ShowAndFocus,
        Event::TrayClick(_, _) => Action::Ignore,
        Event::TrayOther => Action::Ignore,
        Event::CloseRequested => Action::PreventCloseAndHide,
        Event::WindowOther => Action::Ignore,
    }
}

/// The visibility the window starts in: an autostart launch starts
/// hidden, a manual launch visible.
pub open spec fn initial_visibility(started_hidden: bool) -> WindowVisibility {
    if started_hidden {
        WindowVisibility::Hidden
    } else {
        WindowVisibility::Visible
    }
}

/// Routes host events for the single main window and tracks its
/// logical visibility. The host owns the real window; the controller
/// owns every decision about it. Both the tray handlers and the window
/// handler must route through one shared controller value, so that
/// they observe the same state.
#[derive(Clone, Copy, Debug)]
pub struct TrayVisibilityController {
    visibility: WindowVisibility,
}

impl View for TrayVisibilityController {
    type V = WindowVisibility;

    closed spec fn view(&self) -> WindowVisibility {
        self.visibility
    }
}

impl TrayVisibilityController {
    /// Sets up the controller for the freshly built main window:
    /// hidden on an autostart launch, visible otherwise.
    pub fn new(mode: &LaunchMode) -> (c: TrayVisibilityController)
        ensures
            c@ == initial_visibility(mode.started_hidden),
    {
        TrayVisibilityController {
            visibility: if mode.started_hidden {
                WindowVisibility::Hidden
            } else {
                WindowVisibility::Visible
            },
        }
    }

    /// Reports the logical visibility, for the UI layer to query.
    pub fn current_visibility(&self) -> (v: WindowVisibility)
        ensures
            v == self@,
    {
        self.visibility
    }

    /// Handles one host event: moves the tracked visibility along the
    /// transition relation and returns the action the host must
    /// perform, in an exhaustive match with an explicit ignored case.
    pub fn handle(&mut self, e: Event) -> (a: Action)
        ensures
            final(self)@ == next_visibility(old(self)@, e),
            a == action_for(e),
    {
        match e {
            Event::MenuSelected(MenuId::Show) => {
                self.visibility = WindowVisibility::Visible;
                Action::ShowAndFocus
            },
            Event::MenuSelected(MenuId::Quit) => Action::Exit(0),
            Event::MenuSelected(MenuId::Other) => Action::Ignore,
            Event::TrayClick(MouseButton::Left, MouseButtonState::Up) => {
                self.visibility = WindowVisibility::Visible;
                Action::ShowAndFocus
            },
            Event::TrayClick(_, _) => Action::Ignore,
            Event::TrayOther => Action::Ignore,
            Event::CloseRequested => {
                self.visibility = WindowVisibility::Hidden;
                Action::PreventCloseAndHide
            },
            Event::WindowOther => Action::Ignore,
        }
    }
}

/// A close request always hides: afterwards the window is `Hidden`,
/// the pending close is cancelled, and the process keeps running,
/// whatever the visibility was before.
pub proof fn lemma_close_request_hides(v: WindowVisibility)
    ensures
        next_visibility(v, Event::CloseRequested) is Hidden,
        action_for(Event::CloseRequested) == Action::PreventCloseAndHide,
        !(action_for(Event::CloseRequested) is Exit),
{
}

/// From a hidden window, the "show" menu entry and a released
/// left-button tray click each make it visible and request focus.
pub proof fn lemma_show_paths_reveal()
    ensures
        next_visibility(WindowVisibility::Hidden, Event::MenuSelected(MenuId::Show)) is Visible,
        action_for(Event::MenuSelected(MenuId::Show)) == Action::ShowAndFocus,
        next_visibility(
            WindowVisibility::Hidden,
            Event::TrayClick(MouseButton::Left, MouseButtonState::Up),
        ) is Visible,
        action_for(Event::TrayClick(MouseButton::Left, MouseButtonState::Up))
            == Action::ShowAndFocus,
{
}

/// The "quit" menu entry terminates the process with exit code 0 in
/// every window state; the tracked visibility is left as it was.
pub proof fn lemma_quit_exits_zero(v: WindowVisibility)
    ensures
        action_for(Event::MenuSelected(MenuId::Quit)) == Action::Exit(0),
        next_visibility(v, Event::MenuSelected(MenuId::Quit)) == v,
{
}

/// Only the "quit" menu entry ever terminates the process; in
/// particular the close button never does, and every exit carries
/// code 0.
pub proof fn lemma_only_quit_exits(e: Event)
    ensures
        (action_for(e) is Exit) <==> e == Event::MenuSelected(MenuId::Quit),
        action_for(e) is Exit ==> action_for(e) == Action::Exit(0),
{
}

/// Close requests are idempotent: a second `CloseRequested` leaves the
/// window exactly where the first one put it, `Hidden`, whatever the
/// starting state.
pub proof fn lemma_close_request_idempotent(v: WindowVisibility)
    ensures
        next_visibility(next_visibility(v, Event::CloseRequested), Event::CloseRequested)
            == next_visibility(v, Event::CloseRequested),
        next_visibility(v, Event::CloseRequested) is Hidden,
{
}

} // verus!
