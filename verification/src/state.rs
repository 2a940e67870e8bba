use vstd::prelude::*;

verus! {

/// Which of the two fixed embedded bitmaps the tray icon shows: the
/// "online" (connected) image or the "offline" (disconnected) image.
#[derive(Clone, Copy, Debug, PartialEq, Eq)]
pub enum TrayIcon {
    Online,
    Offline,
}

/// Whether the main window is currently visible.
#[derive(Clone, Copy, Debug, PartialEq, Eq)]
pub enum WindowVisibility {
    Shown,
    Hidden,
}

/// The whole in-memory state of the shell: the main window's visibility and
/// the tray icon on display. The two are independent and never interact.
#[derive(Clone, Copy, Debug, PartialEq, Eq)]
pub struct AppState {
    pub window: WindowVisibility,
    /// `None` until the first icon command has run: the host framework's
    /// default icon is still on display.
    pub tray: Option<TrayIcon>,
}

impl AppState {
    /// The state right after startup: the main window is visible and the
    /// tray still shows the host framework's default icon.
    pub fn startup() -> (s: AppState)
        ensures
            s.window == WindowVisibility::Shown,
            s.tray is None,
    {
        AppState { window: WindowVisibility::Shown, tray: None }
    }
}

} // verus!
