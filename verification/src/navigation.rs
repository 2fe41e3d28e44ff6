//! What a tab does with an address it is about to load: the page script turns
//! clicks on outside links into `grokipedia-ext:<address>` and the Escape key into
//! `grokipedia-cmd:exit-fullscreen`; neither may load in the tab.

use crate::text::{has_prefix, same_text, starts_with};
use vstd::prelude::*;

verus! {

/// The address by which the page asks to leave full-screen mode.
pub open spec fn exit_command() -> Seq<char> {
    "grokipedia-cmd:exit-fullscreen"@
}

/// The scheme that marks a link to be opened in the system's browser.
pub open spec fn external_scheme() -> Seq<char> {
    "grokipedia-ext"@
}

/// The text in front of the wrapped address of an outside link.
pub open spec fn external_prefix() -> Seq<char> {
    "grokipedia-ext:"@
}

/// The wrapped address of an outside link: what follows `grokipedia-ext:`, or
/// nothing when the address does not begin with it.
pub open spec fn external_target(url: Seq<char>) -> Seq<char> {
    if has_prefix(url, external_prefix()) {
        url.subrange(external_prefix().len() as int, url.len() as int)
    } else {
        Seq::empty()
    }
}

/// An outside link `grokipedia-ext:` followed by `t` wraps exactly `t`, and is never
/// the exit address.
pub proof fn lemma_outside_link_target(t: Seq<char>)
    ensures
        external_target("grokipedia-ext:"@ + t) == t,
        !has_prefix("grokipedia-ext:"@ + t, exit_command()),
{
    reveal_strlit("grokipedia-ext:");
    reveal_strlit("grokipedia-cmd:exit-fullscreen");
    let u = "grokipedia-ext:"@ + t;
    assert(u.subrange(0, 15) =~= "grokipedia-ext:"@);
    assert(u.subrange(15, u.len() as int) =~= t);
    if has_prefix(u, exit_command()) {
        assert(u.subrange(0, exit_command().len() as int)[11] == exit_command()[11]);
    }
}

/// What to do with an address a tab is about to load.
#[derive(Debug, PartialEq, Eq)]
pub enum NavigationAction {
    /// Load the address in the tab.
    Allow,
    /// Stay on the page, and leave full-screen mode if the window is in it.
    ExitFullscreen,
    /// Stay on the page, and hand this address to the system's browser.
    OpenExternally(String),
    /// Stay on the page and do nothing else.
    Ignore,
}

impl NavigationAction {
    /// Whether the tab goes on to load the address.
    pub fn proceeds(&self) -> (b: bool)
        ensures
            b == (*self is Allow),
    {
        match self {
            NavigationAction::Allow => true,
            _ => false,
        }
    }
}

/// Decides what a tab does with the address `url` (its full text) whose scheme is
/// `scheme`. `exit_command_enabled` tells whether the page signals the Escape key
/// through the exit address (where no native key monitor exists).
pub fn navigation_action(url: &str, scheme: &str, exit_command_enabled: bool) -> (a: NavigationAction)
    ensures
        exit_command_enabled && has_prefix(url@, exit_command()) ==> a is ExitFullscreen,
        !(exit_command_enabled && has_prefix(url@, exit_command())) && scheme@ == external_scheme()
            ==> if external_target(url@).len() > 0 {
                a matches NavigationAction::OpenExternally(t) && t@ == external_target(url@)
            } else {
                a is Ignore
            },
        !(exit_command_enabled && has_prefix(url@, exit_command())) && scheme@ != external_scheme()
            ==> a is Allow,
        scheme@ == external_scheme() ==> !(a is Allow),
        forall|t: Seq<char>|
            #![trigger "grokipedia-ext:"@ + t]
            scheme@ == "grokipedia-ext"@ && url@ == "grokipedia-ext:"@ + t && t.len() > 0
                ==> (a matches NavigationAction::OpenExternally(x) && x@ == t),
        scheme@ == "grokipedia-ext"@ && url@ == "grokipedia-ext:"@ ==> a is Ignore,
{
    proof {
        assert forall|t: Seq<char>| url@ == "grokipedia-ext:"@ + t implies
            external_target(url@) == t && !has_prefix(url@, exit_command()) by {
            lemma_outside_link_target(t);
        }
        assert("grokipedia-ext:"@ + Seq::<char>::empty() =~= "grokipedia-ext:"@);
        lemma_outside_link_target(Seq::<char>::empty());
    }
    if exit_command_enabled && starts_with(url, "grokipedia-cmd:exit-fullscreen") {
        return NavigationAction::ExitFullscreen;
    }
    if same_text(scheme, "grokipedia-ext") {
        let prefix = "grokipedia-ext:";
        if starts_with(url, prefix) {
            let plen = prefix.unicode_len();
            let ulen = url.unicode_len();
            let target = url.substring_char(plen, ulen);
            if ulen > plen {
                return NavigationAction::OpenExternally(String::from_str(target));
            }
        }
        return NavigationAction::Ignore;
    }
    NavigationAction::Allow
}

} // verus!
