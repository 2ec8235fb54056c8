use personal_cloud::{
    close_splashscreen, handle_event, menu_channel, LaunchError, LaunchSteps, MenuAction,
    MenuEffect, MenuSignal, Surface, Surfaces,
};

#[test]
fn quit_exits_with_zero() {
    assert_eq!(handle_event("quit"), MenuEffect::Exit(0));
}

#[test]
fn refresh_emits_refresh_only() {
    assert_eq!(handle_event("refresh"), MenuEffect::Emit(MenuSignal::Refresh));
    assert_eq!(MenuSignal::Refresh.payload(), "refresh");
}

#[test]
fn toggle_logs_emits_toggle_logs_only() {
    assert_eq!(handle_event("toggle_logs"), MenuEffect::Emit(MenuSignal::ToggleLogs));
    assert_eq!(MenuSignal::ToggleLogs.payload(), "toggle_logs");
}

#[test]
fn unknown_id_is_ignored() {
    assert_eq!(handle_event("unknown_id"), MenuEffect::Ignore);
    assert_eq!(handle_event(""), MenuEffect::Ignore);
    assert_eq!(handle_event("Quit"), MenuEffect::Ignore);
    assert_eq!(handle_event("quit "), MenuEffect::Ignore);
    assert_eq!(handle_event("refres"), MenuEffect::Ignore);
}

#[test]
fn menu_ids_round_trip() {
    for a in [MenuAction::Quit, MenuAction::RefreshSignal, MenuAction::ToggleLogsSignal] {
        assert_eq!(MenuAction::from_id(a.id()), a);
    }
    assert_eq!(MenuAction::Quit.id(), "quit");
    assert_eq!(MenuAction::from_id("nope"), MenuAction::NoAction);
    assert_eq!(MenuAction::NoAction.effect(), MenuEffect::Ignore);
}

#[test]
fn signals_use_menu_event_channel() {
    assert_eq!(menu_channel(), "menu-event");
}

#[test]
fn launch_with_both_surfaces() {
    let mut s = Surfaces { splash: Surface::Visible, main: Surface::Hidden };
    let steps = close_splashscreen(&mut s);
    assert_eq!(steps, Ok(LaunchSteps { close_splash: true, show_main: true }));
    assert_eq!(s, Surfaces { splash: Surface::Absent, main: Surface::Visible });
}

#[test]
fn launch_twice_is_harmless() {
    let mut s = Surfaces { splash: Surface::Visible, main: Surface::Hidden };
    close_splashscreen(&mut s).unwrap();
    let second = close_splashscreen(&mut s);
    assert_eq!(second, Ok(LaunchSteps { close_splash: false, show_main: false }));
    assert_eq!(s, Surfaces { splash: Surface::Absent, main: Surface::Visible });
}

#[test]
fn launch_without_splash() {
    let mut s = Surfaces { splash: Surface::Absent, main: Surface::Visible };
    assert_eq!(close_splashscreen(&mut s), Ok(LaunchSteps { close_splash: false, show_main: false }));
    assert_eq!(s.main, Surface::Visible);
}

#[test]
fn launch_without_main_fails() {
    let mut s = Surfaces { splash: Surface::Visible, main: Surface::Absent };
    assert_eq!(close_splashscreen(&mut s), Err(LaunchError::MainMissing));
    assert_eq!(s.splash, Surface::Absent);
    assert_eq!(s.main, Surface::Absent);
}
