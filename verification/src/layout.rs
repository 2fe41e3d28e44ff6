//! Where the child views sit in the window, in physical pixels: the tab views
//! below the chrome bar, and the sidebar at the right edge below the chrome bar.

use vstd::prelude::*;

verus! {

/// A rectangle in physical pixels: top-left corner and size.
#[derive(Clone, Copy, Debug, PartialEq, Eq, Structural)]
pub struct PhysicalBounds {
    pub x: i32,
    pub y: i32,
    pub width: u32,
    pub height: u32,
}

/// The height left below the chrome bar; none when the bar is as tall as the window.
pub open spec fn height_below(window_height: u32, chrome_height: u32) -> u32 {
    if window_height >= chrome_height {
        (window_height - chrome_height) as u32
    } else {
        0
    }
}

/// The bounds of a tab's view: the full width of the window, from the bottom of the
/// chrome bar down.
pub fn tab_view_bounds(window_width: u32, window_height: u32, chrome_height: u32) -> (b: PhysicalBounds)
    ensures
        b.x == 0,
        b.y == chrome_height as i32,
        b.width == window_width,
        b.height == height_below(window_height, chrome_height),
        chrome_height <= window_height && chrome_height <= i32::MAX ==> b.y + b.height == window_height,
{
    PhysicalBounds {
        x: 0,
        y: chrome_height as i32,
        width: window_width,
        height: window_height.saturating_sub(chrome_height),
    }
}

/// The bounds of the sidebar's view: a column `sidebar_width` wide at the right
/// edge of the window, from the bottom of the chrome bar down.
pub fn sidebar_view_bounds(window_width: u32, window_height: u32, chrome_height: u32, sidebar_width: u32) -> (b: PhysicalBounds)
    requires
        sidebar_width <= window_width,
    ensures
        b.x == (window_width - sidebar_width) as i32,
        b.y == chrome_height as i32,
        b.width == sidebar_width,
        b.height == height_below(window_height, chrome_height),
        window_width <= i32::MAX ==> b.x + b.width == window_width,
        chrome_height <= window_height && chrome_height <= i32::MAX ==> b.y + b.height == window_height,
{
    PhysicalBounds {
        x: (window_width - sidebar_width) as i32,
        y: chrome_height as i32,
        width: sidebar_width,
        height: window_height.saturating_sub(chrome_height),
    }
}

} // verus!
