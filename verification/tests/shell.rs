use tray_shell::{
    handle_tray_event, handle_window_event, tray_menu_items, AppState, TrayAction, TrayEvent,
    TrayIcon, WindowAction, WindowEvent, WindowVisibility,
};

fn click(id: &str) -> TrayEvent {
    TrayEvent::MenuItemClick { id: id.to_owned() }
}

#[test]
fn startup_state_is_shown_with_default_icon() {
    let s = AppState::startup();
    assert_eq!(s.window, WindowVisibility::Shown);
    assert_eq!(s.tray, None);
}

#[test]
fn menu_has_show_then_quit() {
    let items = tray_menu_items();
    assert_eq!(items.len(), 2);
    assert_eq!(items[0].id, "show");
    assert_eq!(items[0].label, "Abrir");
    assert_eq!(items[1].id, "quit");
    assert_eq!(items[1].label, "Fechar");
}

#[test]
fn quit_click_exits_zero_whatever_the_state() {
    let starts = [
        AppState { window: WindowVisibility::Shown, tray: None },
        AppState { window: WindowVisibility::Hidden, tray: Some(TrayIcon::Online) },
        AppState { window: WindowVisibility::Shown, tray: Some(TrayIcon::Offline) },
    ];
    for start in starts {
        let mut s = start;
        let action = handle_tray_event(&mut s, &click("quit"));
        assert_eq!(action, TrayAction::Exit { code: 0 });
        assert_eq!(s, start);
    }
}

#[test]
fn show_click_shows_hidden_window() {
    let mut s = AppState { window: WindowVisibility::Hidden, tray: Some(TrayIcon::Online) };
    let action = handle_tray_event(&mut s, &click("show"));
    assert_eq!(action, TrayAction::ShowMainWindow);
    assert_eq!(s.window, WindowVisibility::Shown);
    assert_eq!(s.tray, Some(TrayIcon::Online));
}

#[test]
fn show_click_is_idempotent() {
    let mut s = AppState { window: WindowVisibility::Hidden, tray: None };
    handle_tray_event(&mut s, &click("show"));
    let once = s;
    let action = handle_tray_event(&mut s, &click("show"));
    assert_eq!(action, TrayAction::ShowMainWindow);
    assert_eq!(s, once);
    assert_eq!(s.window, WindowVisibility::Shown);
}

#[test]
fn close_request_hides_instead_of_destroying() {
    let mut s = AppState { window: WindowVisibility::Shown, tray: Some(TrayIcon::Offline) };
    let action = handle_window_event(&mut s, &WindowEvent::CloseRequested);
    assert_eq!(action, WindowAction::HideAndPreventClose);
    assert_eq!(s.window, WindowVisibility::Hidden);
    assert_eq!(s.tray, Some(TrayIcon::Offline));
}

#[test]
fn close_request_hides_an_already_hidden_window() {
    let mut s = AppState { window: WindowVisibility::Hidden, tray: None };
    let action = handle_window_event(&mut s, &WindowEvent::CloseRequested);
    assert_eq!(action, WindowAction::HideAndPreventClose);
    assert_eq!(s.window, WindowVisibility::Hidden);
}

#[test]
fn other_window_events_are_ignored() {
    let start = AppState { window: WindowVisibility::Shown, tray: Some(TrayIcon::Online) };
    let mut s = start;
    let action = handle_window_event(&mut s, &WindowEvent::Other);
    assert_eq!(action, WindowAction::Ignore);
    assert_eq!(s, start);
}

#[test]
fn unknown_menu_id_is_a_noop() {
    for id in ["restart", "", "Show", "QUIT", "quit "] {
        let start = AppState { window: WindowVisibility::Hidden, tray: Some(TrayIcon::Online) };
        let mut s = start;
        let action = handle_tray_event(&mut s, &click(id));
        assert_eq!(action, TrayAction::Ignore);
        assert_eq!(s, start);
    }
}

#[test]
fn non_menu_tray_events_are_ignored() {
    let start = AppState { window: WindowVisibility::Hidden, tray: None };
    let mut s = start;
    let action = handle_tray_event(&mut s, &TrayEvent::Other);
    assert_eq!(action, TrayAction::Ignore);
    assert_eq!(s, start);
}
