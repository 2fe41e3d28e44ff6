//! Verified core of a multi-tab desktop browser shell: the tab registry and its
//! identifiers, navigation and menu decisions, window geometry, the stored
//! record types and the wall-clock timestamp used when records are written.

pub mod clock;
pub mod text;
pub mod tabs;
pub mod navigation;
pub mod menu;
pub mod layout;
pub mod records;
