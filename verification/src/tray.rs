use vstd::prelude::*;

verus! {

/// What a click on an entry of the tray menu does.
#[derive(Clone, Copy, Debug, PartialEq, Eq, Structural)]
pub enum MenuAction {
    /// Leave the application.
    Quit,
    /// Ask the window to refresh the limits now.
    Refresh,
    /// Nothing.
    Ignore,
}

/// The action of the menu entry with id `id`: `quit` quits, `refresh`
/// refreshes, any other id does nothing.
pub fn menu_action(id: &str) -> (action: MenuAction)
    ensures
        action == (if id@ == "quit"@ {
            MenuAction::Quit
        } else if id@ == "refresh"@ {
            MenuAction::Refresh
        } else {
            MenuAction::Ignore
        }),
{
    let id = id.to_string();
    if id == "quit".to_string() {
        MenuAction::Quit
    } else if id == "refresh".to_string() {
        MenuAction::Refresh
    } else {
        MenuAction::Ignore
    }
}

/// What a left click on the tray icon does to the main window.
#[derive(Clone, Copy, Debug, PartialEq, Eq, Structural)]
pub enum WindowAction {
    Hide,
    ShowAndFocus,
}

/// A left click hides the window where it is visible and shows and focuses it
/// otherwise; a window whose visibility cannot be read counts as hidden.
pub fn toggle_window(visible: Option<bool>) -> (action: WindowAction)
    ensures
        action == (if visible == Some(true) {
            WindowAction::Hide
        } else {
            WindowAction::ShowAndFocus
        }),
{
    match visible {
        Some(true) => WindowAction::Hide,
        _ => WindowAction::ShowAndFocus,
    }
}

} // verus!
