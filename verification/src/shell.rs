use vstd::prelude::*;

use crate::state::{AppState, WindowVisibility};

verus! {

/// A window event as the host framework reports it. Only a close request is
/// ever acted on; everything else is carried by `Other`.
#[derive(Clone, Copy, Debug, PartialEq, Eq)]
pub enum WindowEvent {
    CloseRequested,
    Other,
}

/// What the host must do to the main window after a window event.
#[derive(Clone, Copy, Debug, PartialEq, Eq)]
pub enum WindowAction {
    /// Hide the window and suppress the default close, so that the process
    /// stays alive in the tray.
    HideAndPreventClose,
    /// Leave the framework's default handling in place.
    Ignore,
}

/// A tray event as the host framework reports it: a click on a menu entry,
/// carrying that entry's identifier, or any other tray event kind (an icon
/// click without a menu, for instance), which is never acted on.
#[derive(Debug, PartialEq, Eq)]
pub enum TrayEvent {
    MenuItemClick { id: String },
    Other,
}

/// What the host must do after a tray event.
#[derive(Clone, Copy, Debug, PartialEq, Eq)]
pub enum TrayAction {
    /// Terminate the process immediately with the given exit code.
    Exit { code: i32 },
    /// Look up the main window and make it visible.
    ShowMainWindow,
    /// Do nothing.
    Ignore,
}

/// One entry of the tray menu: a fixed identifier the dispatcher matches on,
/// and the label the user sees.
#[derive(Debug, PartialEq, Eq)]
pub struct MenuItem {
    pub id: String,
    pub label: String,
}

/// The tray menu is fixed: a "show" entry labelled "Abrir", then a "quit"
/// entry labelled "Fechar", in that order and nothing else.
pub fn tray_menu_items() -> (items: Vec<MenuItem>)
    ensures
        items@.len() == 2,
        items@[0].id@ == "show"@,
        items@[0].label@ == "Abrir"@,
        items@[1].id@ == "quit"@,
        items@[1].label@ == "Fechar"@,
{
    let show = MenuItem { id: "show".to_owned(), label: "Abrir".to_owned() };
    let quit = MenuItem { id: "quit".to_owned(), label: "Fechar".to_owned() };
    let mut items: Vec<MenuItem> = Vec::new();
    items.push(show);
    items.push(quit);
    items
}

/// The shell's whole response to a window event: a close request hides the
/// window (it is never destroyed); any other event changes nothing.
pub open spec fn spec_window_step(s: AppState, e: WindowEvent) -> (AppState, WindowAction) {
    match e {
        WindowEvent::CloseRequested => (
            AppState { window: WindowVisibility::Hidden, ..s },
            WindowAction::HideAndPreventClose,
        ),
        WindowEvent::Other => (s, WindowAction::Ignore),
    }
}

/// The shell's whole response to a tray event, dispatched by the clicked
/// entry's identifier: "quit" terminates the process with exit code 0,
/// "show" makes the main window visible, and any other identifier, and any
/// other event kind, is a no-op.
pub open spec fn spec_tray_step(s: AppState, e: TrayEvent) -> (AppState, TrayAction) {
    match e {
        TrayEvent::MenuItemClick { id } => if id@ == "quit"@ {
            (s, TrayAction::Exit { code: 0 })
        } else if id@ == "show"@ {
            (AppState { window: WindowVisibility::Shown, ..s }, TrayAction::ShowMainWindow)
        } else {
            (s, TrayAction::Ignore)
        },
        TrayEvent::Other => (s, TrayAction::Ignore),
    }
}

/// Handle one window event: updates the state and returns the action the
/// host must perform, exactly as `spec_window_step` lays it down.
pub fn handle_window_event(state: &mut AppState, event: &WindowEvent) -> (action: WindowAction)
    ensures
        (*final(state), action) == spec_window_step(*old(state), *event),
{
    match event {
        WindowEvent::CloseRequested => {
            state.window = WindowVisibility::Hidden;
            WindowAction::HideAndPreventClose
        },
        WindowEvent::Other => WindowAction::Ignore,
    }
}

/// Handle one tray event: updates the state and returns the action the host
/// must perform, exactly as `spec_tray_step` lays it down.
pub fn handle_tray_event(state: &mut AppState, event: &TrayEvent) -> (action: TrayAction)
    ensures
        (*final(state), action) == spec_tray_step(*old(state), *event),
{
    match event {
        TrayEvent::MenuItemClick { id } => {
            let quit: String = "quit".to_owned();
            let show: String = "show".to_owned();
            if *id == quit {
                TrayAction::Exit { code: 0 }
            } else if *id == show {
                state.window = WindowVisibility::Shown;
                TrayAction::ShowMainWindow
            } else {
                TrayAction::Ignore
            }
        },
        TrayEvent::Other => TrayAction::Ignore,
    }
}

/// Clicking "quit" always asks the host to terminate the process with exit
/// code 0, whatever the current window or tray state; the state itself is
/// left as it was.
pub proof fn lemma_quit_always_exits_zero(s: AppState, e: TrayEvent)
    requires
        e matches TrayEvent::MenuItemClick { id } && id@ == "quit"@,
    ensures
        spec_tray_step(s, e).1 == (TrayAction::Exit { code: 0 }),
        spec_tray_step(s, e).0 == s,
{
}

/// Clicking "show" always leaves the window shown — from Hidden it
/// transitions to Shown, from Shown it stays Shown — and a second click
/// changes nothing more. The tray icon is untouched.
pub proof fn lemma_show_is_idempotent(s: AppState, e: TrayEvent)
    requires
        e matches TrayEvent::MenuItemClick { id } && id@ == "show"@,
    ensures
        spec_tray_step(s, e).0.window == WindowVisibility::Shown,
        spec_tray_step(s, e).0.tray == s.tray,
        spec_tray_step(s, e).1 == TrayAction::ShowMainWindow,
        spec_tray_step(spec_tray_step(s, e).0, e).0 == spec_tray_step(s, e).0,
{
    reveal_strlit("show");
    reveal_strlit("quit");
    assert("show"@ != "quit"@) by {
        assert("show"@[0] != "quit"@[0]);
    }
}

/// A close request never destroys the window: afterwards the window is
/// always Hidden, the default close is suppressed, and the tray icon is
/// untouched.
pub proof fn lemma_close_request_only_hides(s: AppState)
    ensures
        spec_window_step(s, WindowEvent::CloseRequested).0.window == WindowVisibility::Hidden,
        spec_window_step(s, WindowEvent::CloseRequested).0.tray == s.tray,
        spec_window_step(s, WindowEvent::CloseRequested).1 == WindowAction::HideAndPreventClose,
{
}

/// A menu click with any identifier other than "show" or "quit" changes no
/// state and performs no action; so does any tray event that is not a menu
/// click.
pub proof fn lemma_unknown_event_is_noop(s: AppState, e: TrayEvent)
    requires
        e matches TrayEvent::MenuItemClick { id } ==> id@ != "show"@ && id@ != "quit"@,
    ensures
        spec_tray_step(s, e) == (s, TrayAction::Ignore),
{
}

} // verus!
