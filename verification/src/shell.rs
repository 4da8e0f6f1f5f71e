//! Small decisions of the desktop shell around the index: what is reported
//! of the active window, and what a toggle does.

use vstd::prelude::*;

verus! {

/// What is reported of the window that has the focus.
#[derive(Debug, Clone, PartialEq, Eq)]
pub struct WindowInfo {
    pub title: String,
    /// File name of the program that owns the window; empty if unknown.
    pub process_path: String,
    pub app_name: String,
    pub window_id: String,
    pub process_id: u64,
}

/// The text, or the empty text where there is none.
pub open spec fn name_or_empty(name: Option<String>) -> Seq<char> {
    match name {
        Some(text) => text@,
        None => Seq::empty(),
    }
}

/// Describes the active window from what the window system told of it. The
/// program is reported by the file name of its path; where the path has no
/// file name, or one that is not text, the report leaves it empty.
pub fn window_info(
    title: String,
    process_file_name: Option<String>,
    app_name: String,
    window_id: String,
    process_id: u64,
) -> (info: WindowInfo)
    ensures
        info.title == title,
        info.process_path@ == name_or_empty(process_file_name),
        info.app_name == app_name,
        info.window_id == window_id,
        info.process_id == process_id,
{
    let process_path = match process_file_name {
        Some(name) => name,
        None => String::new(),
    };
    WindowInfo { title, process_path, app_name, window_id, process_id }
}

/// One step that the shell performs on the popup window.
#[derive(Debug, Clone, Copy, PartialEq, Eq, Structural)]
pub enum WindowAction {
    Hide,
    Show,
    Center,
    Focus,
}

/// The steps of the toggle, in order, for what is known of the popup.
pub open spec fn toggle_steps(visible: Option<bool>) -> Seq<WindowAction> {
    if visible == Some(true) {
        seq![WindowAction::Hide]
    } else {
        seq![WindowAction::Show, WindowAction::Center, WindowAction::Focus]
    }
}

/// Decides what the toggle does to the popup window: a window that is known
/// to be visible is hidden; any other is shown, centred and focused, also
/// one whose visibility could not be read (`None`).
pub fn toggle_actions(visible: Option<bool>) -> (actions: Vec<WindowAction>)
    ensures
        actions@ == toggle_steps(visible),
{
    let mut actions: Vec<WindowAction> = Vec::new();
    let shown: bool = match visible {
        Some(state) => state,
        None => false,
    };
    if shown {
        actions.push(WindowAction::Hide);
        assert(actions@ =~= toggle_steps(visible));
    } else {
        actions.push(WindowAction::Show);
        actions.push(WindowAction::Center);
        actions.push(WindowAction::Focus);
        assert(actions@ =~= toggle_steps(visible));
    }
    actions
}

/// Label of the tray item while autostart is off.
pub const ENABLE_AUTOSTART: &'static str = "Enable Autostart";

/// Label of the tray item while autostart is on.
pub const DISABLE_AUTOSTART: &'static str = "Disable Autostart";

/// What a click on the autostart item changes.
#[derive(Debug, Clone, Copy)]
pub struct AutostartChange {
    /// Whether autostart is on afterwards.
    pub enable: bool,
    /// The label that the item shows afterwards.
    pub label: &'static str,
}

/// Decides what a click on the autostart item does: it turns autostart off
/// where it is on and on where it is off, and the item then offers the way
/// back.
pub fn autostart_change(enabled: bool) -> (change: AutostartChange)
    ensures
        change.enable == !enabled,
        change.label@ == if enabled {
            ENABLE_AUTOSTART@
        } else {
            DISABLE_AUTOSTART@
        },
{
    if enabled {
        AutostartChange { enable: false, label: ENABLE_AUTOSTART }
    } else {
        AutostartChange { enable: true, label: DISABLE_AUTOSTART }
    }
}

} // verus!
