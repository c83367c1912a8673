use codex_limit_monitor::tray::{menu_action, toggle_window, MenuAction, WindowAction};

#[test]
fn menu_entries_map_to_actions() {
    assert_eq!(menu_action("quit"), MenuAction::Quit);
    assert_eq!(menu_action("refresh"), MenuAction::Refresh);
    assert_eq!(menu_action("Quit"), MenuAction::Ignore);
    assert_eq!(menu_action(""), MenuAction::Ignore);
}

#[test]
fn tray_click_toggles_the_window() {
    assert_eq!(toggle_window(Some(true)), WindowAction::Hide);
    assert_eq!(toggle_window(Some(false)), WindowAction::ShowAndFocus);
    assert_eq!(toggle_window(None), WindowAction::ShowAndFocus);
}
