//! Where the side panel goes: half of the screen, docked to the right of the
//! main window, which is shrunk and moved left to make room.
//!
//! All positions and sizes here are physical pixels. They are whole numbers
//! throughout (a half width is rounded), so they are computed exactly on
//! integers; converting them to logical units is left to the caller.

use vstd::prelude::*;

verus! {

/// `v` converted to `i32` as a float-to-integer cast does: clamped to the range.
pub open spec fn clamp_i32(v: int) -> i32 {
    if v < i32::MIN as int {
        i32::MIN
    } else if v > i32::MAX as int {
        i32::MAX
    } else {
        v as i32
    }
}

/// Half of `w`, rounded half away from zero.
pub open spec fn half_round(w: int) -> int {
    (w + 1) / 2
}

/// The monitor the main window is on, and the main window's state.
pub struct ScreenInfo {
    pub monitor_x: i32,
    pub monitor_w: u32,
    pub work_x: i32,
    pub work_y: i32,
    pub work_w: u32,
    pub work_h: u32,
    pub was_fullscreen: bool,
    pub was_maximized: bool,
}

impl ScreenInfo {
    /// The usable width: the work area when maximized, else the whole monitor.
    pub open spec fn screen_w(self) -> int {
        if self.was_maximized { self.work_w as int } else { self.monitor_w as int }
    }

    /// The left edge of the usable width.
    pub open spec fn screen_x(self) -> int {
        if self.was_maximized { self.work_x as int } else { self.monitor_x as int }
    }

    /// The panel's width: half the usable width.
    pub open spec fn half_w(self) -> int {
        half_round(self.screen_w())
    }
}

/// What to do to the main window before its geometry is read again.
pub struct PrepareSteps {
    /// Leave fullscreen first.
    pub exit_fullscreen: bool,
    /// Unmaximize, then move to this position and give it this size.
    pub unmaximize_to: Option<(i32, i32, u32, u32)>,
    /// Wait for the window manager to settle before reading the geometry.
    pub settle: bool,
}

/// The steps that free the main window for resizing.
pub fn side_panel_prepare(info: &ScreenInfo) -> (steps: PrepareSteps)
    ensures
        steps.exit_fullscreen == info.was_fullscreen,
        steps.settle == info.was_fullscreen,
        info.was_maximized ==> steps.unmaximize_to == Some(
            (info.work_x, info.work_y, info.half_w() as u32, info.work_h),
        ),
        !info.was_maximized ==> steps.unmaximize_to is None,
{
    let unmaximize_to = if info.was_maximized {
        let half: u32 = (info.work_w / 2) + (info.work_w % 2);
        assert(half == half_round(info.work_w as int));
        Some((info.work_x, info.work_y, half, info.work_h))
    } else {
        None
    };
    PrepareSteps { exit_fullscreen: info.was_fullscreen, unmaximize_to, settle: info.was_fullscreen }
}

/// Where the main window and the panel end up.
pub struct PanelGeometry {
    /// Resize the main window to this (width, height), if set.
    pub main_resize: Option<(u32, u32)>,
    /// Move the main window to this position, if set.
    pub main_move: Option<(i32, i32)>,
    /// The panel's left edge and top edge.
    pub panel_x: i64,
    pub panel_y: i64,
    /// The panel's size.
    pub panel_w: u32,
    pub panel_h: u32,
}

/// The main window's width once it has made room.
pub open spec fn final_main_w(info: ScreenInfo, main_w: int) -> int {
    if info.was_maximized || main_w > info.half_w() { info.half_w() } else { main_w }
}

/// The main window's height.
pub open spec fn final_main_h(info: ScreenInfo, main_h: int) -> int {
    if info.was_maximized { info.work_h as int } else { main_h }
}

/// The main window's top edge.
pub open spec fn final_main_y(info: ScreenInfo, main_y: int) -> int {
    if info.was_maximized { info.work_y as int } else { main_y }
}

/// The right-most left edge that still leaves room for the panel.
pub open spec fn max_main_x(info: ScreenInfo, main_w: int) -> int {
    info.screen_x() + info.screen_w() - final_main_w(info, main_w) - info.half_w()
}

/// The main window's left edge once it has made room.
pub open spec fn final_main_x(info: ScreenInfo, main_x: int, main_w: int) -> int {
    let x = if info.was_maximized { info.work_x as int } else { main_x };
    if x > max_main_x(info, main_w) { max_main_x(info, main_w) } else { x }
}

/// Lays out the main window and the panel, given the main window's position
/// and size as read after `side_panel_prepare`'s steps.
pub fn side_panel_geometry(info: &ScreenInfo, main_x: i32, main_y: i32, main_w: u32, main_h: u32) -> (g: PanelGeometry)
    ensures
        g.panel_w as int == info.half_w(),
        g.panel_h as int == final_main_h(*info, main_h as int),
        g.panel_x as int == final_main_x(*info, main_x as int, main_w as int) + final_main_w(*info, main_w as int),
        g.panel_y as int == final_main_y(*info, main_y as int),
        (info.was_maximized || main_w > info.half_w()) ==> g.main_resize == Some(
            (info.half_w() as u32, final_main_h(*info, main_h as int) as u32),
        ),
        !(info.was_maximized || main_w > info.half_w()) ==> g.main_resize is None,
        ({
            let x = if info.was_maximized { info.work_x as int } else { main_x as int };
            &&& x > max_main_x(*info, main_w as int) ==> g.main_move == Some(
                (
                    clamp_i32(max_main_x(*info, main_w as int)),
                    clamp_i32(final_main_y(*info, main_y as int)),
                ),
            )
            &&& x <= max_main_x(*info, main_w as int) ==> g.main_move is None
        }),
        !info.was_maximized && info.monitor_x <= main_x ==> info.monitor_x <= g.panel_x
            && g.panel_x + g.panel_w <= info.monitor_x + info.monitor_w,
        !info.was_maximized && main_x + final_main_w(*info, main_w as int) + (info.monitor_w + 1) / 2
            <= info.monitor_x + info.monitor_w ==> g.main_move is None,
        info.was_maximized ==> info.work_x <= g.panel_x && g.panel_x + g.panel_w <= info.work_x + info.work_w,
{
    proof {
        law_panel_on_current_monitor(*info, main_x as int, main_w as int);
    }
    let screen_w: i64 = if info.was_maximized { info.work_w as i64 } else { info.monitor_w as i64 };
    let mon_x: i64 = if info.was_maximized { info.work_x as i64 } else { info.monitor_x as i64 };
    let half_w: i64 = (screen_w + 1) / 2;
    let h: u32 = if info.was_maximized { info.work_h } else { main_h };
    let y: i64 = if info.was_maximized { info.work_y as i64 } else { main_y as i64 };
    let mut x: i64 = if info.was_maximized { info.work_x as i64 } else { main_x as i64 };
    let mut w: i64 = if info.was_maximized { half_w } else { main_w as i64 };
    let mut main_resize: Option<(u32, u32)> = None;
    if w > half_w || info.was_maximized {
        w = half_w;
        main_resize = Some((half_w as u32, h));
    }
    let limit: i64 = mon_x + screen_w - w - half_w;
    let mut main_move: Option<(i32, i32)> = None;
    if x > limit {
        x = limit;
        main_move = Some((clamp_to_i32(limit), clamp_to_i32(y)));
    }
    PanelGeometry { main_resize, main_move, panel_x: x + w, panel_y: y, panel_w: half_w as u32, panel_h: h }
}

/// Converts to `i32` as a float-to-integer cast does: clamped to the range.
pub fn clamp_to_i32(v: i64) -> (r: i32)
    ensures
        r == clamp_i32(v as int),
{
    if v < i32::MIN as i64 {
        i32::MIN
    } else if v > i32::MAX as i64 {
        i32::MAX
    } else {
        v as i32
    }
}

/// Law: the panel is half the usable width, sits flush against the right of
/// the main window, the main window is no wider than the panel, and the panel
/// does not reach past the right edge of the usable width.
pub proof fn law_panel_docked_within_screen(info: ScreenInfo, main_x: int, main_w: int)
    requires
        main_w >= 0,
    ensures
        final_main_w(info, main_w) <= info.half_w(),
        final_main_x(info, main_x, main_w) + final_main_w(info, main_w) + info.half_w()
            <= info.screen_x() + info.screen_w(),
        info.half_w() + info.half_w() == info.screen_w() || info.half_w() + info.half_w() == info.screen_w() + 1,
{
}

/// Law: the panel stays on the main window's monitor. When the window was
/// not maximized, the panel lies between the monitor's left and right edges
/// (for a main window not left of the monitor), and a main window that already
/// leaves room for the panel on its monitor is not moved; when it was
/// maximized, the panel lies inside the monitor's work area.
pub proof fn law_panel_on_current_monitor(info: ScreenInfo, main_x: int, main_w: int)
    requires
        main_w >= 0,
    ensures
        ({
            let w = final_main_w(info, main_w);
            let panel_x = final_main_x(info, main_x, main_w) + w;
            let half = (info.monitor_w + 1) / 2;
            &&& !info.was_maximized && info.monitor_x <= main_x ==> info.monitor_x <= panel_x
                && panel_x + half <= info.monitor_x + info.monitor_w
            &&& !info.was_maximized && main_x + w + half <= info.monitor_x + info.monitor_w
                ==> final_main_x(info, main_x, main_w) == main_x
            &&& info.was_maximized ==> info.work_x <= panel_x
                && panel_x + (info.work_w + 1) / 2 <= info.work_x + info.work_w
        }),
{
}

} // verus!
