//! Windows as the window system walks them one by one, measured from the
//! origin of the virtual desktop.

use crate::geometry::{Rect, WindowEntry, WindowInfo};
use crate::text::{push_signed_decimal, signed_decimal};
use vstd::prelude::*;

verus! {

/// Extended style bit of a tool window.
pub const EX_STYLE_TOOL_WINDOW: u32 = 0x0000_0080;

/// Extended style bit of a window that does not take activation.
pub const EX_STYLE_NO_ACTIVATE: u32 = 0x0800_0000;

/// Flag bit of the primary monitor.
pub const MONITOR_PRIMARY: u32 = 0x0000_0001;

/// A rectangle as the window system reports it: the four edges, measured
/// from the origin of the primary display.
#[derive(Clone, Copy, Debug, PartialEq, Eq, Structural)]
pub struct NativeRect {
    pub left: i32,
    pub top: i32,
    pub right: i32,
    pub bottom: i32,
}

/// The geometry and the extended style of a window.
#[derive(Clone, Copy, Debug, PartialEq, Eq, Structural)]
pub struct WindowStyle {
    pub rect: NativeRect,
    pub ex_style: u32,
}

/// What the window system answered about one top-level window. A query
/// that failed is `None`.
#[derive(Clone, Debug, PartialEq, Eq)]
pub struct TopLevelWindow {
    /// Whether the window is shown.
    pub visible: bool,
    /// Its raw rectangle and extended style.
    pub style: Option<WindowStyle>,
    /// The compositor's cloak attribute; not zero for a window that the
    /// compositor hides.
    pub cloaked: Option<u32>,
    /// Its title.
    pub title: String,
    /// Its extended frame bounds: the rectangle as it is drawn.
    pub frame_bounds: Option<NativeRect>,
}

/// The rectangle and the flags of a monitor.
#[derive(Clone, Copy, Debug, PartialEq, Eq, Structural)]
pub struct MonitorInfo {
    pub bounds: NativeRect,
    pub flags: u32,
}

/// What the window system answered about one monitor; `None` when the
/// query failed.
#[derive(Clone, Copy, Debug, PartialEq, Eq, Structural)]
pub struct MonitorRecord {
    pub info: Option<MonitorInfo>,
}

/// The title of the desktop shell's background window.
pub open spec fn shell_title() -> Seq<char> {
    "Program Manager"@
}

impl NativeRect {
    /// The rectangle has no width or no height.
    pub open spec fn spec_is_degenerate(&self) -> bool {
        self.left >= self.right || self.top >= self.bottom
    }

    /// Whether the rectangle has no width or no height.
    #[verifier::when_used_as_spec(spec_is_degenerate)]
    pub fn is_degenerate(&self) -> (degenerate: bool)
        ensures
            degenerate == self.spec_is_degenerate(),
    {
        self.left >= self.right || self.top >= self.bottom
    }

    /// The same rectangle as position and size, seen from
    /// `(origin_x, origin_y)`.
    pub open spec fn spec_to_rect(&self, origin_x: i32, origin_y: i32) -> Rect {
        Rect {
            x: (self.left - origin_x) as i64,
            y: (self.top - origin_y) as i64,
            width: (self.right - self.left) as i64,
            height: (self.bottom - self.top) as i64,
        }
    }

    /// The rectangle as position and size, measured from `(origin_x, origin_y)`.
    #[verifier::when_used_as_spec(spec_to_rect)]
    pub fn to_rect(&self, origin_x: i32, origin_y: i32) -> (rect: Rect)
        ensures
            rect == self.spec_to_rect(origin_x, origin_y),
            rect.x == self.left - origin_x,
            rect.y == self.top - origin_y,
            rect.width == self.right - self.left,
            rect.height == self.bottom - self.top,
            rect.in_range(),
    {
        Rect {
            x: self.left as i64 - origin_x as i64,
            y: self.top as i64 - origin_y as i64,
            width: self.right as i64 - self.left as i64,
            height: self.bottom as i64 - self.top as i64,
        }
    }
}

impl WindowStyle {
    /// The style carries the tool-window or the no-activate bit.
    pub open spec fn spec_is_auxiliary(&self) -> bool {
        self.ex_style & EX_STYLE_TOOL_WINDOW != 0 || self.ex_style & EX_STYLE_NO_ACTIVATE != 0
    }

    /// Whether the style carries the tool-window or the no-activate bit.
    #[verifier::when_used_as_spec(spec_is_auxiliary)]
    pub fn is_auxiliary(&self) -> (auxiliary: bool)
        ensures
            auxiliary == self.spec_is_auxiliary(),
    {
        self.ex_style & EX_STYLE_TOOL_WINDOW != 0 || self.ex_style & EX_STYLE_NO_ACTIVATE != 0
    }
}

impl TopLevelWindow {
    /// The window belongs in the list: it is shown, its queries all
    /// answered, its raw rectangle has an area, the compositor does not hide
    /// it, it is no tool or no-activate window, and it is not the desktop
    /// shell's background.
    pub open spec fn spec_is_listed(&self) -> bool {
        &&& self.visible
        &&& self.style matches Some(style) && !style.rect.is_degenerate() && !style.is_auxiliary()
        &&& self.cloaked == Some(0u32)
        &&& self.title@ != shell_title()
        &&& self.frame_bounds is Some
    }

    /// The entry that stands for the window in a list made for the origin
    /// `(origin_x, origin_y)`, if it belongs there.
    pub open spec fn entry(&self, origin_x: i32, origin_y: i32) -> Option<WindowEntry> {
        if self.spec_is_listed() {
            Some(
                WindowEntry {
                    name: self.title@,
                    bounds: self.frame_bounds->Some_0.to_rect(origin_x, origin_y),
                },
            )
        } else {
            None
        }
    }
}

impl MonitorInfo {
    /// The monitor is the primary one.
    pub open spec fn spec_is_primary(&self) -> bool {
        self.flags & MONITOR_PRIMARY != 0
    }

    /// Whether the monitor is the primary one.
    #[verifier::when_used_as_spec(spec_is_primary)]
    pub fn is_primary(&self) -> (primary: bool)
        ensures
            primary == self.spec_is_primary(),
    {
        self.flags & MONITOR_PRIMARY != 0
    }

    /// The name under which the monitor is listed: `Monitor_Primary` for
    /// the primary one, else `Monitor_l` and `t` with its left and top
    /// edge.
    pub open spec fn name_text(&self) -> Seq<char> {
        if self.is_primary() {
            "Monitor_"@ + "Primary"@
        } else {
            "Monitor_"@ + "l"@ + signed_decimal(self.bounds.left as int) + "t"@ + signed_decimal(
                self.bounds.top as int,
            )
        }
    }

    /// Writes the monitor's name.
    pub fn name(&self) -> (name: String)
        ensures
            name@ == self.name_text(),
    {
        let mut name = String::from_str("Monitor_");
        if self.is_primary() {
            name.append("Primary");
        } else {
            name.append("l");
            push_signed_decimal(&mut name, self.bounds.left as i64);
            name.append("t");
            push_signed_decimal(&mut name, self.bounds.top as i64);
        }
        name
    }
}

impl MonitorRecord {
    /// The entry that outlines the monitor in a list made for the origin
    /// `(origin_x, origin_y)`; none for a monitor whose query failed.
    pub open spec fn entry(&self, origin_x: i32, origin_y: i32) -> Option<WindowEntry> {
        match self.info {
            Some(info) => Some(
                WindowEntry { name: info.name_text(), bounds: info.bounds.to_rect(origin_x, origin_y) },
            ),
            None => None,
        }
    }
}

/// The list for the whole desktop: the windows that belong in it, in the
/// order in which they were walked, then one entry for each monitor, all
/// measured from the origin of the virtual desktop.
pub open spec fn desktop_entries(
    windows: Seq<TopLevelWindow>,
    monitors: Seq<MonitorRecord>,
    origin_x: i32,
    origin_y: i32,
) -> Seq<WindowEntry> {
    windows.filter_map(|w: TopLevelWindow| w.entry(origin_x, origin_y)) + monitors.filter_map(
        |m: MonitorRecord| m.entry(origin_x, origin_y),
    )
}

/// Decides on one window: its entry for the origin `(origin_x, origin_y)`,
/// or nothing when it is left out.
pub fn window_entry(window: &TopLevelWindow, origin_x: i32, origin_y: i32) -> (listed: Option<
    WindowInfo,
>)
    ensures
        listed.deep_view() == window.entry(origin_x, origin_y),
{
    if !window.visible {
        return None;
    }
    let style = match window.style {
        Some(style) => style,
        None => {
            return None;
        },
    };
    if style.rect.is_degenerate() {
        return None;
    }
    match window.cloaked {
        Some(cloaked) => {
            if cloaked != 0 {
                return None;
            }
        },
        None => {
            return None;
        },
    }
    if style.is_auxiliary() {
        return None;
    }
    let shell = String::from_str("Program Manager");
    if window.title == shell {
        return None;
    }
    match window.frame_bounds {
        Some(bounds) => Some(
            WindowInfo { name: window.title.clone(), bounds: bounds.to_rect(origin_x, origin_y) },
        ),
        None => None,
    }
}

/// The entry that outlines one monitor, or nothing when its query failed.
pub fn monitor_entry(monitor: &MonitorRecord, origin_x: i32, origin_y: i32) -> (listed: Option<
    WindowInfo,
>)
    ensures
        listed.deep_view() == monitor.entry(origin_x, origin_y),
{
    match monitor.info {
        Some(info) => Some(
            WindowInfo { name: info.name(), bounds: info.bounds.to_rect(origin_x, origin_y) },
        ),
        None => None,
    }
}

/// Lists the windows of the whole desktop, then its monitors, measured from
/// the virtual desktop's origin `(origin_x, origin_y)`.
pub fn enumerate_windows(
    windows: &Vec<TopLevelWindow>,
    monitors: &Vec<MonitorRecord>,
    origin_x: i32,
    origin_y: i32,
) -> (listed: Option<Vec<WindowInfo>>)
    ensures
        listed matches Some(list) && list.deep_view() == desktop_entries(
            windows@,
            monitors@,
            origin_x,
            origin_y,
        ),
{
    let mut list: Vec<WindowInfo> = Vec::new();
    let ghost of_window = |w: TopLevelWindow| w.entry(origin_x, origin_y);
    let ghost of_monitor = |m: MonitorRecord| m.entry(origin_x, origin_y);
    let mut i: usize = 0;
    assert(windows@.take(0).filter_map(of_window) =~= Seq::empty());
    while i < windows.len()
        invariant
            i <= windows.len(),
            of_window == |w: TopLevelWindow| w.entry(origin_x, origin_y),
            list.deep_view() =~= windows@.take(i as int).filter_map(of_window),
        decreases windows.len() - i,
    {
        let ghost before = list.deep_view();
        proof {
            windows@.lemma_filter_map_take_succ(of_window, i as int);
        }
        match window_entry(&windows[i], origin_x, origin_y) {
            Some(entry) => {
                list.push(entry);
                assert(list.deep_view() =~= before.push(entry.deep_view()));
            },
            None => {},
        }
        i += 1;
    }
    assert(windows@.take(windows.len() as int) =~= windows@);
    let ghost from_windows = list.deep_view();
    let mut k: usize = 0;
    assert(monitors@.take(0).filter_map(of_monitor) =~= Seq::empty());
    while k < monitors.len()
        invariant
            k <= monitors.len(),
            of_monitor == |m: MonitorRecord| m.entry(origin_x, origin_y),
            list.deep_view() =~= from_windows + monitors@.take(k as int).filter_map(of_monitor),
        decreases monitors.len() - k,
    {
        let ghost before = list.deep_view();
        proof {
            monitors@.lemma_filter_map_take_succ(of_monitor, k as int);
        }
        match monitor_entry(&monitors[k], origin_x, origin_y) {
            Some(entry) => {
                list.push(entry);
                assert(list.deep_view() =~= before.push(entry.deep_view()));
            },
            None => {},
        }
        k += 1;
    }
    assert(monitors@.take(monitors.len() as int) =~= monitors@);
    Some(list)
}

/// Coordinate normalization: measuring from the virtual desktop's origin
/// keeps the offset between a window and a monitor, and the size of both.
/// So a window's listed position less its monitor's listed position is the
/// window's position on that monitor.
pub proof fn lemma_origin_keeps_offsets(
    window: NativeRect,
    monitor: NativeRect,
    origin_x: i32,
    origin_y: i32,
)
    ensures
        window.to_rect(origin_x, origin_y).x - monitor.to_rect(origin_x, origin_y).x == window.left
            - monitor.left,
        window.to_rect(origin_x, origin_y).y - monitor.to_rect(origin_x, origin_y).y == window.top
            - monitor.top,
        window.to_rect(origin_x, origin_y).width == window.right - window.left,
        window.to_rect(origin_x, origin_y).height == window.bottom - window.top,
        window.to_rect(origin_x, origin_y).x == window.left - origin_x,
        window.to_rect(origin_x, origin_y).y == window.top - origin_y,
{
}

} // verus!
