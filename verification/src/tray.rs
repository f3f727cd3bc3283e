//! The choices behind the system tray menu and icon.
use crate::text::{chars_of, equals};
use vstd::prelude::*;

verus! {

/// What a tray menu item asks for.
#[derive(PartialEq, Eq, Structural)]
pub enum MenuAction {
    ToggleRecording,
    OpenWindow,
    OpenSettings,
    Quit,
    Ignore,
}

pub open spec fn menu_action_spec(item_id: Seq<char>) -> MenuAction {
    if item_id == "toggle_recording"@ {
        MenuAction::ToggleRecording
    } else if item_id == "open_window"@ {
        MenuAction::OpenWindow
    } else if item_id == "settings"@ {
        MenuAction::OpenSettings
    } else if item_id == "quit"@ {
        MenuAction::Quit
    } else {
        MenuAction::Ignore
    }
}

/// The action of the menu item with id `item_id`.
pub fn menu_action(item_id: &str) -> (a: MenuAction)
    ensures
        a == menu_action_spec(item_id@),
{
    let id = chars_of(item_id);
    if equals(id.as_slice(), chars_of("toggle_recording").as_slice()) {
        MenuAction::ToggleRecording
    } else if equals(id.as_slice(), chars_of("open_window").as_slice()) {
        MenuAction::OpenWindow
    } else if equals(id.as_slice(), chars_of("settings").as_slice()) {
        MenuAction::OpenSettings
    } else if equals(id.as_slice(), chars_of("quit").as_slice()) {
        MenuAction::Quit
    } else {
        MenuAction::Ignore
    }
}

/// The label of the recording item: it offers the opposite of the current
/// state.
pub fn toggle_label(recording: bool) -> (label: &'static str)
    ensures
        label@ == if recording {
            "Stop Recording"@
        } else {
            "Start Recording"@
        },
{
    if recording {
        "Stop Recording"
    } else {
        "Start Recording"
    }
}

/// The event that tells the windows recording was started or stopped from
/// the tray.
pub fn recording_event(start: bool) -> (event: &'static str)
    ensures
        event@ == if start {
            "start-recording-from-tray"@
        } else {
            "stop-recording-from-tray"@
        },
{
    if start {
        "start-recording-from-tray"
    } else {
        "stop-recording-from-tray"
    }
}

/// What a click on the tray icon does to the main window.
#[derive(PartialEq, Eq, Structural)]
pub enum TrayClick {
    HideWindow,
    ShowWindow,
    Nothing,
}

/// A left click hides the main window when it is visible and shows it
/// (creating it when missing) otherwise; other buttons do nothing.
/// `window_visible` is `None` when the window does not exist.
pub fn tray_click(left_button: bool, window_visible: Option<bool>) -> (c: TrayClick)
    ensures
        c == if !left_button {
            TrayClick::Nothing
        } else if window_visible == Some(true) {
            TrayClick::HideWindow
        } else {
            TrayClick::ShowWindow
        },
{
    if !left_button {
        TrayClick::Nothing
    } else {
        match window_visible {
            Some(true) => TrayClick::HideWindow,
            _ => TrayClick::ShowWindow,
        }
    }
}

/// Only the main window is created again when it is missing.
pub fn should_create_window(label: &str, exists: bool) -> (r: bool)
    ensures
        r == (!exists && label@ == "main"@),
{
    if exists {
        false
    } else {
        equals(chars_of(label).as_slice(), chars_of("main").as_slice())
    }
}

} // verus!
