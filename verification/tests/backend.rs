use fluffwire_tray::autostart::{
    autostart_relaunch_args, decide_autostart, AutostartAction, AutostartQuery,
};
use fluffwire_tray::controller::{
    Action, Event, MenuId, MouseButton, MouseButtonState, TrayVisibilityController,
    WindowVisibility,
};
use fluffwire_tray::launch::{was_started_hidden, LaunchMode};
use fluffwire_tray::startup::plan_startup;

fn args(words: &[&str]) -> Vec<String> {
    words.iter().map(|w| w.to_string()).collect()
}

#[test]
fn hidden_flag_absent() {
    assert!(!was_started_hidden(&args(&[])));
    assert!(!was_started_hidden(&args(&["app"])));
    assert!(!was_started_hidden(&args(&["app", "--visible"])));
}

#[test]
fn hidden_flag_present() {
    assert!(was_started_hidden(&args(&["--hidden"])));
    assert!(was_started_hidden(&args(&["app", "--hidden"])));
    assert!(was_started_hidden(&args(&["app", "--other", "--hidden"])));
}

#[test]
fn hidden_flag_must_match_exactly() {
    assert!(!was_started_hidden(&args(&["app", "--hidden2"])));
    assert!(!was_started_hidden(&args(&["app", "-hidden"])));
    assert!(!was_started_hidden(&args(&["app", "x--hidden"])));
    assert!(!was_started_hidden(&args(&["app", "--Hidden"])));
}

#[test]
fn launch_mode_captures_args() {
    assert!(!LaunchMode::from_args(&args(&["app"])).started_hidden);
    assert!(LaunchMode::from_args(&args(&["app", "--hidden"])).started_hidden);
}

#[test]
fn autostart_enabled_is_left_alone() {
    assert_eq!(
        decide_autostart(&AutostartQuery::Enabled),
        AutostartAction::LeaveUnchanged
    );
}

#[test]
fn autostart_disabled_is_enabled() {
    assert_eq!(
        decide_autostart(&AutostartQuery::Disabled),
        AutostartAction::Enable
    );
}

#[test]
fn autostart_failed_query_is_enabled_fail_open() {
    assert_eq!(
        decide_autostart(&AutostartQuery::QueryFailed),
        AutostartAction::Enable
    );
}

#[test]
fn relaunch_args_are_the_hidden_flag() {
    let relaunch: Vec<String> = autostart_relaunch_args();
    assert_eq!(relaunch, vec!["--hidden".to_string()]);
    assert!(was_started_hidden(&relaunch));
}

#[test]
fn close_request_hides_and_keeps_running() {
    let mode = LaunchMode {
        started_hidden: false,
    };
    let mut c = TrayVisibilityController::new(&mode);
    assert_eq!(c.current_visibility(), WindowVisibility::Visible);
    let a = c.handle(Event::CloseRequested);
    assert_eq!(a, Action::PreventCloseAndHide);
    assert!(!matches!(a, Action::Exit(_)));
    assert_eq!(c.current_visibility(), WindowVisibility::Hidden);
}

#[test]
fn show_menu_entry_reveals_and_focuses() {
    let mode = LaunchMode {
        started_hidden: true,
    };
    let mut c = TrayVisibilityController::new(&mode);
    assert_eq!(c.current_visibility(), WindowVisibility::Hidden);
    let a = c.handle(Event::MenuSelected(MenuId::Show));
    assert_eq!(a, Action::ShowAndFocus);
    assert_eq!(c.current_visibility(), WindowVisibility::Visible);
}

#[test]
fn tray_left_click_release_reveals_and_focuses() {
    let mode = LaunchMode {
        started_hidden: true,
    };
    let mut c = TrayVisibilityController::new(&mode);
    let a = c.handle(Event::TrayClick(MouseButton::Left, MouseButtonState::Up));
    assert_eq!(a, Action::ShowAndFocus);
    assert_eq!(c.current_visibility(), WindowVisibility::Visible);
}

#[test]
fn other_tray_clicks_are_ignored() {
    let mode = LaunchMode {
        started_hidden: true,
    };
    let mut c = TrayVisibilityController::new(&mode);
    assert_eq!(
        c.handle(Event::TrayClick(MouseButton::Left, MouseButtonState::Down)),
        Action::Ignore
    );
    assert_eq!(
        c.handle(Event::TrayClick(MouseButton::Right, MouseButtonState::Up)),
        Action::Ignore
    );
    assert_eq!(
        c.handle(Event::TrayClick(MouseButton::Middle, MouseButtonState::Up)),
        Action::Ignore
    );
    assert_eq!(c.current_visibility(), WindowVisibility::Hidden);
}

#[test]
fn unknown_events_are_ignored() {
    let mode = LaunchMode {
        started_hidden: false,
    };
    let mut c = TrayVisibilityController::new(&mode);
    assert_eq!(c.handle(Event::MenuSelected(MenuId::Other)), Action::Ignore);
    assert_eq!(c.handle(Event::TrayOther), Action::Ignore);
    assert_eq!(c.handle(Event::WindowOther), Action::Ignore);
    assert_eq!(c.current_visibility(), WindowVisibility::Visible);
}

#[test]
fn quit_exits_zero_from_any_state() {
    let mode = LaunchMode {
        started_hidden: false,
    };
    let mut visible = TrayVisibilityController::new(&mode);
    assert_eq!(
        visible.handle(Event::MenuSelected(MenuId::Quit)),
        Action::Exit(0)
    );
    let mut hidden = TrayVisibilityController::new(&mode);
    hidden.handle(Event::CloseRequested);
    assert_eq!(
        hidden.handle(Event::MenuSelected(MenuId::Quit)),
        Action::Exit(0)
    );
}

#[test]
fn repeated_close_requests_stay_hidden() {
    let mode = LaunchMode {
        started_hidden: false,
    };
    let mut c = TrayVisibilityController::new(&mode);
    for _round in 0..3 {
        let a = c.handle(Event::CloseRequested);
        assert_eq!(a, Action::PreventCloseAndHide);
        assert_eq!(c.current_visibility(), WindowVisibility::Hidden);
    }
}

#[test]
fn manual_launch_shows_immediately() {
    let mode = LaunchMode::from_args(&args(&["app"]));
    assert!(!mode.started_hidden);
    let plan = plan_startup(&mode, &AutostartQuery::Enabled);
    assert_eq!(plan.first_action, Action::ShowWindow);
    assert_eq!(
        plan.controller.current_visibility(),
        WindowVisibility::Visible
    );
}

#[test]
fn hidden_launch_defers_to_the_ui_layer() {
    let mode = LaunchMode::from_args(&args(&["app", "--hidden"]));
    assert!(mode.started_hidden);
    let plan = plan_startup(&mode, &AutostartQuery::Enabled);
    assert_eq!(plan.first_action, Action::Ignore);
    assert_eq!(
        plan.controller.current_visibility(),
        WindowVisibility::Hidden
    );
}

#[test]
fn startup_plan_carries_the_autostart_decision() {
    let mode = LaunchMode {
        started_hidden: false,
    };
    assert_eq!(
        plan_startup(&mode, &AutostartQuery::Enabled).autostart,
        AutostartAction::LeaveUnchanged
    );
    assert_eq!(
        plan_startup(&mode, &AutostartQuery::Disabled).autostart,
        AutostartAction::Enable
    );
    assert_eq!(
        plan_startup(&mode, &AutostartQuery::QueryFailed).autostart,
        AutostartAction::Enable
    );
}

#[test]
fn close_then_tray_click_round_trip() {
    let mode = LaunchMode::from_args(&args(&["app"]));
    let plan = plan_startup(&mode, &AutostartQuery::Enabled);
    let mut c = plan.controller;
    assert_eq!(c.current_visibility(), WindowVisibility::Visible);

    let closed = c.handle(Event::CloseRequested);
    assert_eq!(closed, Action::PreventCloseAndHide);
    assert_eq!(c.current_visibility(), WindowVisibility::Hidden);

    let clicked = c.handle(Event::TrayClick(MouseButton::Left, MouseButtonState::Up));
    assert_eq!(clicked, Action::ShowAndFocus);
    assert_eq!(c.current_visibility(), WindowVisibility::Visible);
}
