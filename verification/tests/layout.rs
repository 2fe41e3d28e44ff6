use grokipedia::layout::{sidebar_view_bounds, tab_view_bounds, PhysicalBounds};

#[test]
fn tab_view_sits_below_the_chrome_bar() {
    let b = tab_view_bounds(2560, 1600, 80);
    assert_eq!(b, PhysicalBounds { x: 0, y: 80, width: 2560, height: 1520 });
    assert_eq!(b.y as u32 + b.height, 1600);
}

#[test]
fn tab_view_height_saturates() {
    let b = tab_view_bounds(300, 30, 40);
    assert_eq!(b, PhysicalBounds { x: 0, y: 40, width: 300, height: 0 });
}

#[test]
fn sidebar_sits_at_the_right_edge() {
    let b = sidebar_view_bounds(2560, 1600, 80, 600);
    assert_eq!(b, PhysicalBounds { x: 1960, y: 80, width: 600, height: 1520 });
    assert_eq!(b.x as u32 + b.width, 2560);
}

#[test]
fn sidebar_as_wide_as_the_window() {
    let b = sidebar_view_bounds(600, 800, 40, 600);
    assert_eq!(b, PhysicalBounds { x: 0, y: 40, width: 600, height: 760 });
}
