use clipboard_index::shell::{
    autostart_change, toggle_actions, window_info, WindowAction, WindowInfo,
};

#[test]
fn window_info_reports_the_file_name() {
    assert_eq!(
        window_info(
            "Untitled".to_string(),
            Some("editor.exe".to_string()),
            "Editor".to_string(),
            "0x2a".to_string(),
            4711,
        ),
        WindowInfo {
            title: "Untitled".to_string(),
            process_path: "editor.exe".to_string(),
            app_name: "Editor".to_string(),
            window_id: "0x2a".to_string(),
            process_id: 4711,
        }
    );
}

#[test]
fn window_info_without_a_file_name_leaves_it_empty() {
    let info = window_info("t".to_string(), None, "a".to_string(), "w".to_string(), u64::MAX);
    assert_eq!(info.process_path, "");
    assert_eq!(info.process_id, u64::MAX);
}

#[test]
fn toggle_hides_a_visible_window() {
    assert_eq!(toggle_actions(Some(true)), vec![WindowAction::Hide]);
}

#[test]
fn toggle_shows_centres_and_focuses_a_hidden_window() {
    let steps = vec![WindowAction::Show, WindowAction::Center, WindowAction::Focus];
    assert_eq!(toggle_actions(Some(false)), steps);
    assert_eq!(toggle_actions(None), steps);
}

#[test]
fn autostart_click_turns_it_off_where_it_is_on() {
    let change = autostart_change(true);
    assert!(!change.enable);
    assert_eq!(change.label, "Enable Autostart");
}

#[test]
fn autostart_click_turns_it_on_where_it_is_off() {
    let change = autostart_change(false);
    assert!(change.enable);
    assert_eq!(change.label, "Disable Autostart");
}
