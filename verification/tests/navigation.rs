use grokipedia::navigation::{navigation_action, NavigationAction};

#[test]
fn ordinary_pages_load() {
    let a = navigation_action("https://grokipedia.com/page/Rust", "https", true);
    assert_eq!(a, NavigationAction::Allow);
    assert!(a.proceeds());
}

#[test]
fn outside_links_open_in_the_system_browser() {
    let a = navigation_action("grokipedia-ext:https://example.org/x?y=1", "grokipedia-ext", true);
    assert_eq!(a, NavigationAction::OpenExternally("https://example.org/x?y=1".to_string()));
    assert!(!a.proceeds());
}

#[test]
fn empty_outside_link_is_ignored() {
    let a = navigation_action("grokipedia-ext:", "grokipedia-ext", true);
    assert_eq!(a, NavigationAction::Ignore);
    assert!(!a.proceeds());
}

#[test]
fn exit_command_leaves_fullscreen_where_enabled() {
    let a = navigation_action("grokipedia-cmd:exit-fullscreen", "grokipedia-cmd", true);
    assert_eq!(a, NavigationAction::ExitFullscreen);
    assert!(!a.proceeds());
}

#[test]
fn exit_command_loads_where_disabled() {
    let a = navigation_action("grokipedia-cmd:exit-fullscreen", "grokipedia-cmd", false);
    assert_eq!(a, NavigationAction::Allow);
}

#[test]
fn exit_command_matches_by_prefix() {
    let a = navigation_action("grokipedia-cmd:exit-fullscreen?x", "grokipedia-cmd", true);
    assert_eq!(a, NavigationAction::ExitFullscreen);
    let b = navigation_action("grokipedia-cmd:exit", "grokipedia-cmd", true);
    assert_eq!(b, NavigationAction::Allow);
}
