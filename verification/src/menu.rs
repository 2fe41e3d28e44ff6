//! Menu items, keyboard shortcuts and full-screen requests: which of them the
//! window handles itself and which it forwards to the chrome bar.

use crate::text::same_text;
use vstd::prelude::*;

verus! {

/// An action forwarded to the chrome bar, which carries it out.
#[derive(Clone, Copy, Debug, PartialEq, Eq, Structural)]
pub enum ChromeAction {
    NewTab,
    CloseTab,
    Reload,
    Back,
    Forward,
    ShowSidebar,
    AddBookmark,
}

/// What a chosen menu item asks for.
#[derive(Clone, Copy, Debug, PartialEq, Eq, Structural)]
pub enum MenuCommand {
    /// Leave full-screen mode if the window is in it.
    ExitFullscreen,
    /// Enter or leave full-screen mode.
    ToggleFullscreen,
    /// Forward this action to the chrome bar.
    Chrome(ChromeAction),
    /// An item this window does not handle.
    Unknown,
}

/// A request about full-screen mode.
#[derive(Clone, Copy, Debug, PartialEq, Eq, Structural)]
pub enum FullscreenRequest {
    Exit,
    Toggle,
}

/// The name under which an action is forwarded to the chrome bar; it is also the
/// identifier of the menu item that asks for it.
pub open spec fn action_name(a: ChromeAction) -> Seq<char> {
    match a {
        ChromeAction::NewTab => "new-tab"@,
        ChromeAction::CloseTab => "close-tab"@,
        ChromeAction::Reload => "reload"@,
        ChromeAction::Back => "back"@,
        ChromeAction::Forward => "forward"@,
        ChromeAction::ShowSidebar => "show-sidebar"@,
        ChromeAction::AddBookmark => "add-bookmark"@,
    }
}

/// The command of the menu item with identifier `id`.
pub open spec fn command_of(id: Seq<char>) -> MenuCommand {
    if id == "exit-fullscreen"@ {
        MenuCommand::ExitFullscreen
    } else if id == "toggle-fullscreen"@ {
        MenuCommand::ToggleFullscreen
    } else if id == "new-tab"@ {
        MenuCommand::Chrome(ChromeAction::NewTab)
    } else if id == "close-tab"@ {
        MenuCommand::Chrome(ChromeAction::CloseTab)
    } else if id == "reload"@ {
        MenuCommand::Chrome(ChromeAction::Reload)
    } else if id == "back"@ {
        MenuCommand::Chrome(ChromeAction::Back)
    } else if id == "forward"@ {
        MenuCommand::Chrome(ChromeAction::Forward)
    } else if id == "show-sidebar"@ {
        MenuCommand::Chrome(ChromeAction::ShowSidebar)
    } else if id == "add-bookmark"@ {
        MenuCommand::Chrome(ChromeAction::AddBookmark)
    } else {
        MenuCommand::Unknown
    }
}

/// Classifies a chosen menu item by its identifier.
pub fn menu_command(id: &str) -> (c: MenuCommand)
    ensures
        c == command_of(id@),
        id@ == "exit-fullscreen"@ ==> c == MenuCommand::ExitFullscreen,
        id@ == "toggle-fullscreen"@ ==> c == MenuCommand::ToggleFullscreen,
        id@ == "new-tab"@ ==> c == MenuCommand::Chrome(ChromeAction::NewTab),
        id@ == "close-tab"@ ==> c == MenuCommand::Chrome(ChromeAction::CloseTab),
        id@ == "reload"@ ==> c == MenuCommand::Chrome(ChromeAction::Reload),
        id@ == "back"@ ==> c == MenuCommand::Chrome(ChromeAction::Back),
        id@ == "forward"@ ==> c == MenuCommand::Chrome(ChromeAction::Forward),
        id@ == "show-sidebar"@ ==> c == MenuCommand::Chrome(ChromeAction::ShowSidebar),
        id@ == "add-bookmark"@ ==> c == MenuCommand::Chrome(ChromeAction::AddBookmark),
{
    proof { lemma_menu_ids_by_name(); }
    if same_text(id, "exit-fullscreen") {
        MenuCommand::ExitFullscreen
    } else if same_text(id, "toggle-fullscreen") {
        MenuCommand::ToggleFullscreen
    } else if same_text(id, "new-tab") {
        MenuCommand::Chrome(ChromeAction::NewTab)
    } else if same_text(id, "close-tab") {
        MenuCommand::Chrome(ChromeAction::CloseTab)
    } else if same_text(id, "reload") {
        MenuCommand::Chrome(ChromeAction::Reload)
    } else if same_text(id, "back") {
        MenuCommand::Chrome(ChromeAction::Back)
    } else if same_text(id, "forward") {
        MenuCommand::Chrome(ChromeAction::Forward)
    } else if same_text(id, "show-sidebar") {
        MenuCommand::Chrome(ChromeAction::ShowSidebar)
    } else if same_text(id, "add-bookmark") {
        MenuCommand::Chrome(ChromeAction::AddBookmark)
    } else {
        MenuCommand::Unknown
    }
}

impl ChromeAction {
    /// The name under which the action is sent to the chrome bar.
    pub fn event_name(&self) -> (s: String)
        ensures
            s@ == action_name(*self),
            *self is NewTab ==> s@ == "new-tab"@,
            *self is CloseTab ==> s@ == "close-tab"@,
            *self is Reload ==> s@ == "reload"@,
            *self is Back ==> s@ == "back"@,
            *self is Forward ==> s@ == "forward"@,
            *self is ShowSidebar ==> s@ == "show-sidebar"@,
            *self is AddBookmark ==> s@ == "add-bookmark"@,
    {
        match self {
            ChromeAction::NewTab => String::from_str("new-tab"),
            ChromeAction::CloseTab => String::from_str("close-tab"),
            ChromeAction::Reload => String::from_str("reload"),
            ChromeAction::Back => String::from_str("back"),
            ChromeAction::Forward => String::from_str("forward"),
            ChromeAction::ShowSidebar => String::from_str("show-sidebar"),
            ChromeAction::AddBookmark => String::from_str("add-bookmark"),
        }
    }
}

proof fn lemma_texts_differ(s: Seq<char>, t: Seq<char>)
    requires
        s.len() != t.len() || (s.len() > 0 && t.len() > 0 && s[0] != t[0]),
    ensures
        s != t,
{
}

/// The menu item that forwards an action carries the action's name as its
/// identifier, and choosing it forwards exactly that action.
pub proof fn lemma_menu_item_forwards_its_action(a: ChromeAction)
    ensures
        command_of(action_name(a)) == MenuCommand::Chrome(a),
{
    reveal_strlit("exit-fullscreen");
    reveal_strlit("toggle-fullscreen");
    reveal_strlit("new-tab");
    reveal_strlit("close-tab");
    reveal_strlit("reload");
    reveal_strlit("back");
    reveal_strlit("forward");
    reveal_strlit("show-sidebar");
    reveal_strlit("add-bookmark");
    match a {
        ChromeAction::NewTab => {
            lemma_texts_differ("new-tab"@, "exit-fullscreen"@);
            lemma_texts_differ("new-tab"@, "toggle-fullscreen"@);
        },
        ChromeAction::CloseTab => {
            lemma_texts_differ("close-tab"@, "exit-fullscreen"@);
            lemma_texts_differ("close-tab"@, "toggle-fullscreen"@);
            lemma_texts_differ("close-tab"@, "new-tab"@);
        },
        ChromeAction::Reload => {
            lemma_texts_differ("reload"@, "exit-fullscreen"@);
            lemma_texts_differ("reload"@, "toggle-fullscreen"@);
            lemma_texts_differ("reload"@, "new-tab"@);
            lemma_texts_differ("reload"@, "close-tab"@);
        },
        ChromeAction::Back => {
            lemma_texts_differ("back"@, "exit-fullscreen"@);
            lemma_texts_differ("back"@, "toggle-fullscreen"@);
            lemma_texts_differ("back"@, "new-tab"@);
            lemma_texts_differ("back"@, "close-tab"@);
            lemma_texts_differ("back"@, "reload"@);
        },
        ChromeAction::Forward => {
            lemma_texts_differ("forward"@, "exit-fullscreen"@);
            lemma_texts_differ("forward"@, "toggle-fullscreen"@);
            lemma_texts_differ("forward"@, "new-tab"@);
            lemma_texts_differ("forward"@, "close-tab"@);
            lemma_texts_differ("forward"@, "reload"@);
            lemma_texts_differ("forward"@, "back"@);
        },
        ChromeAction::ShowSidebar => {
            lemma_texts_differ("show-sidebar"@, "exit-fullscreen"@);
            lemma_texts_differ("show-sidebar"@, "toggle-fullscreen"@);
            lemma_texts_differ("show-sidebar"@, "new-tab"@);
            lemma_texts_differ("show-sidebar"@, "close-tab"@);
            lemma_texts_differ("show-sidebar"@, "reload"@);
            lemma_texts_differ("show-sidebar"@, "back"@);
            lemma_texts_differ("show-sidebar"@, "forward"@);
        },
        ChromeAction::AddBookmark => {
            lemma_texts_differ("add-bookmark"@, "exit-fullscreen"@);
            lemma_texts_differ("add-bookmark"@, "toggle-fullscreen"@);
            lemma_texts_differ("add-bookmark"@, "new-tab"@);
            lemma_texts_differ("add-bookmark"@, "close-tab"@);
            lemma_texts_differ("add-bookmark"@, "reload"@);
            lemma_texts_differ("add-bookmark"@, "back"@);
            lemma_texts_differ("add-bookmark"@, "forward"@);
            lemma_texts_differ("add-bookmark"@, "show-sidebar"@);
        },
    }
}

/// The menu items are classified by their literal identifiers: the two
/// full-screen items are handled by the window, and each of the others is
/// forwarded to the chrome bar under its own identifier.
pub proof fn lemma_menu_ids_by_name()
    ensures
        command_of("exit-fullscreen"@) == MenuCommand::ExitFullscreen,
        command_of("toggle-fullscreen"@) == MenuCommand::ToggleFullscreen,
        command_of("new-tab"@) == MenuCommand::Chrome(ChromeAction::NewTab),
        command_of("close-tab"@) == MenuCommand::Chrome(ChromeAction::CloseTab),
        command_of("reload"@) == MenuCommand::Chrome(ChromeAction::Reload),
        command_of("back"@) == MenuCommand::Chrome(ChromeAction::Back),
        command_of("forward"@) == MenuCommand::Chrome(ChromeAction::Forward),
        command_of("show-sidebar"@) == MenuCommand::Chrome(ChromeAction::ShowSidebar),
        command_of("add-bookmark"@) == MenuCommand::Chrome(ChromeAction::AddBookmark),
        action_name(ChromeAction::NewTab) == "new-tab"@,
        action_name(ChromeAction::CloseTab) == "close-tab"@,
        action_name(ChromeAction::Reload) == "reload"@,
        action_name(ChromeAction::Back) == "back"@,
        action_name(ChromeAction::Forward) == "forward"@,
        action_name(ChromeAction::ShowSidebar) == "show-sidebar"@,
        action_name(ChromeAction::AddBookmark) == "add-bookmark"@,
{
    reveal_strlit("exit-fullscreen");
    reveal_strlit("toggle-fullscreen");
    lemma_texts_differ("toggle-fullscreen"@, "exit-fullscreen"@);
    lemma_menu_item_forwards_its_action(ChromeAction::NewTab);
    lemma_menu_item_forwards_its_action(ChromeAction::CloseTab);
    lemma_menu_item_forwards_its_action(ChromeAction::Reload);
    lemma_menu_item_forwards_its_action(ChromeAction::Back);
    lemma_menu_item_forwards_its_action(ChromeAction::Forward);
    lemma_menu_item_forwards_its_action(ChromeAction::ShowSidebar);
    lemma_menu_item_forwards_its_action(ChromeAction::AddBookmark);
}

/// The full-screen state the window is to take after a request, or `None` when
/// nothing is to change: leaving is asked only of a window in full-screen mode,
/// and toggling flips the current state.
pub fn fullscreen_target(request: FullscreenRequest, is_fullscreen: bool) -> (t: Option<bool>)
    ensures
        request is Exit ==> t == (if is_fullscreen { Some(false) } else { None::<bool> }),
        request is Toggle ==> t == Some(!is_fullscreen),
{
    match request {
        FullscreenRequest::Exit => if is_fullscreen { Some(false) } else { None },
        FullscreenRequest::Toggle => Some(!is_fullscreen),
    }
}

/// The virtual key code of the Escape key.
pub const ESCAPE_KEY_CODE: u16 = 53;

/// Whether a key press is taken by the window to leave full-screen mode (and not
/// passed on to the page): the Escape key while the window is in full-screen mode.
pub fn escape_leaves_fullscreen(key_code: u16, is_fullscreen: bool) -> (b: bool)
    ensures
        b == (key_code == ESCAPE_KEY_CODE && is_fullscreen),
{
    key_code == ESCAPE_KEY_CODE && is_fullscreen
}

} // verus!
