use tray_shell::machine::{Action, AppState, CloseDecision, Event, ProcessState, WindowState};
use tray_shell::machine::{decide_close, QUIT_EXIT_CODE};
use tray_shell::prefs::{set_close_to_tray, CloseToTrayState};
use tray_shell::tray::{menu_id_from_str, tray_menu_items, MenuId, TrayButton};

fn running(flag: bool, window: WindowState) -> AppState {
    AppState {
        close_to_tray: CloseToTrayState { enabled: flag },
        window,
        process: ProcessState::Running,
    }
}

#[test]
fn store_defaults_to_true() {
    let store = CloseToTrayState::new();
    assert!(store.get());
}

#[test]
fn store_last_write_wins() {
    let mut store = CloseToTrayState::new();
    store.set(false);
    assert!(!store.get());
    store.set(true);
    store.set(false);
    assert!(!store.get());
    set_close_to_tray(&mut store, true);
    assert!(store.get());
}

#[test]
fn close_request_with_flag_true_hides_window() {
    let mut s = running(true, WindowState::Visible { focused: true });
    let action = s.step(Event::CloseRequested);
    assert_eq!(action, Action::HideWindow);
    assert_eq!(s.window, WindowState::Hidden);
    assert_eq!(s.process, ProcessState::Running);
}

#[test]
fn close_request_with_flag_false_destroys_window() {
    let mut s = running(false, WindowState::Visible { focused: false });
    let action = s.step(Event::CloseRequested);
    assert_eq!(action, Action::AllowClose);
    assert_eq!(s.window, WindowState::Destroyed);
    assert_eq!(s.process, ProcessState::Exited { code: 0 });
}

#[test]
fn close_decision_follows_flag() {
    assert_eq!(decide_close(true), CloseDecision::Intercepted);
    assert_eq!(decide_close(false), CloseDecision::Allowed);
}

#[test]
fn show_menu_restores_hidden_window() {
    let mut s = running(true, WindowState::Hidden);
    let action = s.step(Event::Menu { id: MenuId::Show });
    assert_eq!(action, Action::ShowAndFocus);
    assert_eq!(s.window, WindowState::Visible { focused: true });
}

#[test]
fn left_click_restores_hidden_window() {
    let mut s = running(true, WindowState::Hidden);
    let action = s.step(Event::TrayClick {
        button: TrayButton::Left,
    });
    assert_eq!(action, Action::ShowAndFocus);
    assert_eq!(s.window, WindowState::Visible { focused: true });
}

#[test]
fn other_clicks_are_ignored() {
    let hidden = running(true, WindowState::Hidden);
    for button in [TrayButton::Right, TrayButton::Middle] {
        let mut s = hidden;
        let action = s.step(Event::TrayClick { button });
        assert_eq!(action, Action::Ignore);
        assert_eq!(s, hidden);
    }
}

#[test]
fn show_menu_on_destroyed_window_is_noop() {
    let destroyed = running(true, WindowState::Destroyed);
    let mut s = destroyed;
    let action = s.step(Event::Menu { id: MenuId::Show });
    assert_eq!(action, Action::Ignore);
    assert_eq!(s, destroyed);
}

#[test]
fn left_click_on_destroyed_window_is_noop() {
    let destroyed = running(false, WindowState::Destroyed);
    let mut s = destroyed;
    let action = s.step(Event::TrayClick {
        button: TrayButton::Left,
    });
    assert_eq!(action, Action::Ignore);
    assert_eq!(s, destroyed);
}

#[test]
fn quit_menu_exits_with_code_zero_whatever_the_flag() {
    for flag in [true, false] {
        let mut s = running(flag, WindowState::Visible { focused: true });
        let action = s.step(Event::Menu { id: MenuId::Quit });
        assert_eq!(action, Action::Exit { code: 0 });
        assert_eq!(s.process, ProcessState::Exited { code: 0 });
    }
    assert_eq!(QUIT_EXIT_CODE, 0);
}

#[test]
fn unknown_menu_id_is_noop() {
    let before = running(true, WindowState::Visible { focused: false });
    let mut s = before;
    let action = s.step(Event::Menu {
        id: MenuId::Unknown,
    });
    assert_eq!(action, Action::Ignore);
    assert_eq!(s, before);
}

#[test]
fn events_after_exit_are_ignored() {
    let mut s = running(true, WindowState::Hidden);
    s.step(Event::Menu { id: MenuId::Quit });
    let exited = s;
    let action = s.step(Event::Menu { id: MenuId::Show });
    assert_eq!(action, Action::Ignore);
    assert_eq!(s, exited);
}

#[test]
fn set_command_updates_flag_only() {
    let mut s = running(true, WindowState::Hidden);
    let action = s.step(Event::SetCloseToTray { enabled: false });
    assert_eq!(action, Action::Ignore);
    assert!(!s.close_to_tray.get());
    assert_eq!(s.window, WindowState::Hidden);
    assert_eq!(s.process, ProcessState::Running);
}

#[test]
fn full_session_scenario() {
    // Start the shell: flag defaults to true, window up, process running.
    let mut s = AppState::new();
    assert!(s.close_to_tray.get());
    assert_eq!(s.window, WindowState::Visible { focused: true });
    assert_eq!(s.process, ProcessState::Running);

    // The user closes the window: hidden to tray, process alive.
    let action = s.step(Event::CloseRequested);
    assert_eq!(action, Action::HideWindow);
    assert_eq!(s.window, WindowState::Hidden);
    assert_eq!(s.process, ProcessState::Running);

    // The user left-clicks the tray icon: window visible and focused.
    let action = s.step(Event::TrayClick {
        button: TrayButton::Left,
    });
    assert_eq!(action, Action::ShowAndFocus);
    assert_eq!(s.window, WindowState::Visible { focused: true });

    // The user switches close-to-tray off through the command surface.
    let action = s.step(Event::SetCloseToTray { enabled: false });
    assert_eq!(action, Action::Ignore);

    // The user closes the window again: window and process terminate.
    let action = s.step(Event::CloseRequested);
    assert_eq!(action, Action::AllowClose);
    assert_eq!(s.window, WindowState::Destroyed);
    assert_eq!(s.process, ProcessState::Exited { code: 0 });
}

#[test]
fn menu_ids_are_classified() {
    assert_eq!(menu_id_from_str("tray_show"), MenuId::Show);
    assert_eq!(menu_id_from_str("tray_quit"), MenuId::Quit);
    assert_eq!(menu_id_from_str(""), MenuId::Unknown);
    assert_eq!(menu_id_from_str("tray_show "), MenuId::Unknown);
    assert_eq!(menu_id_from_str("TRAY_SHOW"), MenuId::Unknown);
}

#[test]
fn menu_is_show_then_quit() {
    let items = tray_menu_items();
    assert_eq!(items.len(), 2);
    assert_eq!(items[0].id, "tray_show");
    assert_eq!(items[0].label, "Show");
    assert_eq!(items[1].id, "tray_quit");
    assert_eq!(items[1].label, "Quit");
}

#[test]
fn menu_items_round_trip_through_classification() {
    let items = tray_menu_items();
    assert_eq!(menu_id_from_str(&items[0].id), MenuId::Show);
    assert_eq!(menu_id_from_str(&items[1].id), MenuId::Quit);
}
