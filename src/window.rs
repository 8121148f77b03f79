use vstd::prelude::*;

verus! {

/// How close, in pixels, the window's top edge may come to the bottom of the
/// work area before the window turns into its mini form.
pub const MINI_MARGIN: i32 = 50;

/// Size of the window in its mini and its normal form.
pub const MINI_WIDTH: u32 = 500;
pub const MINI_HEIGHT: u32 = 50;
pub const NORMAL_WIDTH: u32 = 300;
pub const NORMAL_HEIGHT: u32 = 300;

/// How the window is to be shown.
#[derive(Debug, Clone, Copy, PartialEq, Eq, Structural)]
pub struct WindowLayout {
    pub mini: bool,
    pub always_on_top: bool,
    pub width: u32,
    pub height: u32,
}

/// Whether a window whose top edge is at `y` belongs in the mini form.
pub open spec fn wants_mini(y: i32, workspace_height: i32) -> bool {
    y > workspace_height - MINI_MARGIN
}

pub open spec fn layout_of(mini: bool) -> WindowLayout {
    if mini {
        WindowLayout { mini: true, always_on_top: true, width: MINI_WIDTH, height: MINI_HEIGHT }
    } else {
        WindowLayout { mini: false, always_on_top: false, width: NORMAL_WIDTH, height: NORMAL_HEIGHT }
    }
}

/// The layout of the mini or the normal form: the mini form stays on top.
pub fn layout_for(mini: bool) -> (r: WindowLayout)
    ensures
        r == layout_of(mini),
{
    if mini {
        WindowLayout { mini: true, always_on_top: true, width: MINI_WIDTH, height: MINI_HEIGHT }
    } else {
        WindowLayout { mini: false, always_on_top: false, width: NORMAL_WIDTH, height: NORMAL_HEIGHT }
    }
}

/// After the window moved to `y`: the new layout when the window has to
/// switch between its mini and normal forms, `None` when it keeps its form.
pub fn layout_after_move(is_mini: bool, y: i32, workspace_height: i32) -> (r: Option<WindowLayout>)
    ensures
        r is Some <==> wants_mini(y, workspace_height) != is_mini,
        r is Some ==> r->Some_0 == layout_of(wants_mini(y, workspace_height)),
{
    let mini = (y as i64) > (workspace_height as i64) - (MINI_MARGIN as i64);
    if mini == is_mini {
        None
    } else {
        Some(layout_for(mini))
    }
}

} // verus!
