//! Window layout: the toolbar strip on top, the active tab below it, other tabs parked
//! off-screen.

use vstd::prelude::*;

verus! {

/// Height of the toolbar (tab bar and address bar) in logical pixels.
pub const CHROME_H: u32 = 92;

/// A rectangle in logical pixels.
#[derive(Debug, Clone, PartialEq, Eq)]
pub struct Bounds {
    pub x: i32,
    pub y: i32,
    pub width: u32,
    pub height: u32,
}

/// The toolbar strip across the top of a window `win_w` wide.
pub fn chrome_rect(win_w: u32) -> (r: Bounds)
    ensures
        r.x == 0 && r.y == 0 && r.width == win_w && r.height == CHROME_H,
{
    Bounds { x: 0, y: 0, width: win_w, height: CHROME_H }
}

/// The page area: everything below the toolbar (nothing when the window is shorter).
pub fn content_rect(win_w: u32, win_h: u32) -> (r: Bounds)
    ensures
        r.x == 0,
        r.y == CHROME_H as i32,
        r.width == win_w,
        r.height == if win_h >= CHROME_H {
            win_h - CHROME_H
        } else {
            0
        },
{
    Bounds { x: 0, y: 92, width: win_w, height: win_h.saturating_sub(CHROME_H) }
}

/// Where a tab that is not shown is parked.
pub fn hidden_rect() -> (r: Bounds)
    ensures
        r.x == -9999 && r.y == -9999 && r.width == 1 && r.height == 1,
{
    Bounds { x: -9999, y: -9999, width: 1, height: 1 }
}

/// The rectangle of tab `i` when tab `active` is shown: the page area for the active tab, the
/// parking spot for every other.
pub fn tab_rect(i: usize, active: usize, win_w: u32, win_h: u32) -> (r: Bounds)
    ensures
        i == active ==> r == content_rect_spec(win_w, win_h),
        i != active ==> r == (Bounds { x: -9999i32, y: -9999i32, width: 1u32, height: 1u32 }),
{
    if i == active {
        content_rect(win_w, win_h)
    } else {
        hidden_rect()
    }
}

pub open spec fn content_rect_spec(win_w: u32, win_h: u32) -> Bounds {
    Bounds {
        x: 0,
        y: CHROME_H as i32,
        width: win_w,
        height: if win_h >= CHROME_H {
            (win_h - CHROME_H) as u32
        } else {
            0
        },
    }
}

} // verus!
