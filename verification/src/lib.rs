//! A verified model of a minimal tray-application shell: a two-entry tray
//! menu ("show" and "quit"), a window-close interceptor that hides the main
//! window instead of destroying it, and two commands that swap the tray icon
//! between an "online" and an "offline" bitmap.
//!
//! The library holds the shell's state and every decision it makes; a host
//! around it owns the event loop, feeds events in, and performs the returned
//! actions against the real windowing framework.

mod shell;
mod state;
mod tray;

pub use shell::{MenuItem, TrayAction, TrayEvent, WindowAction, WindowEvent};
pub use shell::{handle_tray_event, handle_window_event, tray_menu_items};
pub use state::{AppState, TrayIcon, WindowVisibility};
pub use tray::{set_fail_tray, set_success_tray};
