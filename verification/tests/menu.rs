use grokipedia::menu::{
    escape_leaves_fullscreen, fullscreen_target, menu_command, ChromeAction, FullscreenRequest,
    MenuCommand, ESCAPE_KEY_CODE,
};

#[test]
fn fullscreen_items_are_handled_by_the_window() {
    assert_eq!(menu_command("exit-fullscreen"), MenuCommand::ExitFullscreen);
    assert_eq!(menu_command("toggle-fullscreen"), MenuCommand::ToggleFullscreen);
}

#[test]
fn chrome_items_forward_their_own_name() {
    let all = [
        ChromeAction::NewTab,
        ChromeAction::CloseTab,
        ChromeAction::Reload,
        ChromeAction::Back,
        ChromeAction::Forward,
        ChromeAction::ShowSidebar,
        ChromeAction::AddBookmark,
    ];
    for a in all {
        assert_eq!(menu_command(&a.event_name()), MenuCommand::Chrome(a));
    }
    assert_eq!(ChromeAction::ShowSidebar.event_name(), "show-sidebar");
    assert_eq!(menu_command("add-bookmark"), MenuCommand::Chrome(ChromeAction::AddBookmark));
}

#[test]
fn unknown_items_are_not_handled() {
    assert_eq!(menu_command("about"), MenuCommand::Unknown);
    assert_eq!(menu_command(""), MenuCommand::Unknown);
    assert_eq!(menu_command("new-tab "), MenuCommand::Unknown);
}

#[test]
fn fullscreen_targets() {
    assert_eq!(fullscreen_target(FullscreenRequest::Exit, true), Some(false));
    assert_eq!(fullscreen_target(FullscreenRequest::Exit, false), None);
    assert_eq!(fullscreen_target(FullscreenRequest::Toggle, true), Some(false));
    assert_eq!(fullscreen_target(FullscreenRequest::Toggle, false), Some(true));
}

#[test]
fn escape_key_only_in_fullscreen() {
    assert_eq!(ESCAPE_KEY_CODE, 53);
    assert!(escape_leaves_fullscreen(53, true));
    assert!(!escape_leaves_fullscreen(53, false));
    assert!(!escape_leaves_fullscreen(36, true));
}
