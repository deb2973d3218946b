//! Windows picked out of one shared list: those that overlap a display,
//! measured from the display's origin.

use crate::geometry::{Rect, WindowEntry, WindowInfo};
use vstd::prelude::*;

verus! {

/// The stacking layer of ordinary windows.
pub const NORMAL_LAYER: i32 = 0;

/// One display of the shareable content: its identifier and its frame in
/// global coordinates.
#[derive(Clone, Copy, Debug, PartialEq, Eq, Structural)]
pub struct DisplayInfo {
    pub id: u32,
    pub frame: Rect,
}

/// One window of the shareable content, as the platform lists it.
#[derive(Clone, Debug, PartialEq, Eq)]
pub struct SharedWindow {
    /// Its title, if it has one.
    pub title: Option<String>,
    /// Its stacking layer.
    pub layer: i32,
    /// Its frame in global coordinates.
    pub frame: Rect,
    /// The process that owns it, if it is known.
    pub owner_pid: Option<i32>,
}

impl SharedWindow {
    /// The name under which the window is listed: its title, or nothing.
    pub open spec fn name_text(&self) -> Seq<char> {
        match self.title {
            Some(title) => title@,
            None => Seq::empty(),
        }
    }

    /// The window can be listed at all: it lies in the normal layer, its
    /// frame has an area, and it does not belong to the process `own_pid`.
    pub open spec fn spec_is_candidate(&self, own_pid: i32) -> bool {
        &&& self.layer == NORMAL_LAYER
        &&& !self.frame.is_empty()
        &&& self.owner_pid != Some(own_pid)
    }

    /// Whether the window can be listed at all.
    #[verifier::when_used_as_spec(spec_is_candidate)]
    pub fn is_candidate(&self, own_pid: i32) -> (candidate: bool)
        ensures
            candidate == self.spec_is_candidate(own_pid),
    {
        if self.layer != NORMAL_LAYER {
            return false;
        }
        if self.frame.is_empty() {
            return false;
        }
        match self.owner_pid {
            Some(pid) => pid != own_pid,
            None => true,
        }
    }

    /// The window's entry in global coordinates, if it can be listed.
    pub open spec fn global_entry(&self, own_pid: i32) -> Option<WindowEntry> {
        if self.spec_is_candidate(own_pid) {
            Some(WindowEntry { name: self.name_text(), bounds: self.frame })
        } else {
            None
        }
    }

    /// The window's entry in the list of the display with frame `display`:
    /// there is one when the window can be listed and its frame overlaps
    /// the display's, and its bounds are measured from the display's origin.
    pub open spec fn entry_on(&self, display: Rect, own_pid: i32) -> Option<WindowEntry> {
        if self.spec_is_candidate(own_pid) && self.frame.intersects(&display) {
            Some(
                WindowEntry {
                    name: self.name_text(),
                    bounds: self.frame.spec_relative_to(display.x as int, display.y as int),
                },
            )
        } else {
            None
        }
    }

    fn name(&self) -> (name: String)
        ensures
            name@ == self.name_text(),
    {
        match &self.title {
            Some(title) => title.clone(),
            None => String::new(),
        }
    }
}

/// An entry in global coordinates as it stands in the list of the display
/// with frame `display`: kept when its bounds overlap the display's frame,
/// and then measured from the display's origin.
pub open spec fn entry_relative_to(entry: WindowEntry, display: Rect) -> Option<WindowEntry> {
    if entry.bounds.intersects(&display) {
        Some(
            WindowEntry {
                name: entry.name,
                bounds: entry.bounds.spec_relative_to(display.x as int, display.y as int),
            },
        )
    } else {
        None
    }
}

/// The list of the display with frame `display`: an entry for each of
/// `windows` that has one there, in their order.
pub open spec fn entries_on(windows: Seq<SharedWindow>, display: Rect, own_pid: i32) -> Seq<
    WindowEntry,
> {
    windows.filter_map(|w: SharedWindow| w.entry_on(display, own_pid))
}

/// The list of all displays, in global coordinates: an entry for each of
/// `windows` that can be listed, in their order.
pub open spec fn global_entries(windows: Seq<SharedWindow>, own_pid: i32) -> Seq<WindowEntry> {
    windows.filter_map(|w: SharedWindow| w.global_entry(own_pid))
}

/// What is picked out of a list in global coordinates for the display with
/// frame `display`: each entry that overlaps it, measured from its origin,
/// in their order.
pub open spec fn entries_picked_for(entries: Seq<WindowEntry>, display: Rect) -> Seq<WindowEntry> {
    entries.filter_map(|e: WindowEntry| entry_relative_to(e, display))
}

/// The frames of all of `windows` are within the coordinate limit.
pub open spec fn windows_in_range(windows: Seq<SharedWindow>) -> bool {
    forall|i: int| 0 <= i < windows.len() ==> (#[trigger] windows[i]).frame.in_range()
}

/// The bounds of all of `entries` are within the coordinate limit.
pub open spec fn entries_in_range(entries: Seq<WindowInfo>) -> bool {
    forall|i: int| 0 <= i < entries.len() ==> (#[trigger] entries[i]).bounds.in_range()
}

/// The position of the first display that carries `id`, if any does.
pub open spec fn display_position(displays: Seq<DisplayInfo>, id: u32) -> Option<int> {
    if exists|i: int| 0 <= i < displays.len() && displays[i].id == id {
        Some(
            choose|i: int|
                0 <= i < displays.len() && displays[i].id == id && forall|j: int|
                    0 <= j < i ==> displays[j].id != id,
        )
    } else {
        None
    }
}

/// Looks `id` up among `displays`: the first display that carries it.
pub fn find_display(displays: &Vec<DisplayInfo>, id: u32) -> (found: Option<usize>)
    ensures
        match found {
            Some(at) => {
                &&& at < displays.len()
                &&& displays@[at as int].id == id
                &&& forall|j: int| 0 <= j < at ==> displays@[j].id != id
                &&& display_position(displays@, id) == Some(at as int)
            },
            None => {
                &&& forall|j: int| 0 <= j < displays.len() ==> displays@[j].id != id
                &&& display_position(displays@, id) is None
            },
        },
{
    let mut i: usize = 0;
    while i < displays.len()
        invariant
            i <= displays.len(),
            forall|j: int| 0 <= j < i ==> displays@[j].id != id,
        decreases displays.len() - i,
    {
        if displays[i].id == id {
            proof {
                lemma_first_display_is_unique(displays@, id, i as int);
            }
            return Some(i);
        }
        i += 1;
    }
    None
}

/// There is one first display with a given identifier.
pub proof fn lemma_first_display_is_unique(displays: Seq<DisplayInfo>, id: u32, at: int)
    requires
        0 <= at < displays.len(),
        displays[at].id == id,
        forall|j: int| 0 <= j < at ==> displays[j].id != id,
    ensures
        display_position(displays, id) == Some(at),
{
    let chosen = choose|i: int|
        0 <= i < displays.len() && displays[i].id == id && forall|j: int|
            0 <= j < i ==> displays[j].id != id;
    assert(chosen == at) by {
        if chosen < at {
            assert(displays[chosen].id != id);
        } else if at < chosen {
            assert(displays[at].id != id);
        }
    }
}

/// Lists the windows on one display, measured from its origin.
///
/// There is no list exactly when no display carries `display_id`. Else the
/// list holds, in the order of `windows`, an entry for each window that
/// lies in the normal layer, has an area, does not belong to the process
/// `own_pid`, and overlaps the display's frame.
pub fn enumerate_windows(
    display_id: u32,
    displays: &Vec<DisplayInfo>,
    windows: &Vec<SharedWindow>,
    own_pid: i32,
) -> (listed: Option<Vec<WindowInfo>>)
    requires
        windows_in_range(windows@),
        forall|i: int| 0 <= i < displays.len() ==> (#[trigger] displays@[i]).frame.in_range(),
    ensures
        match (listed, display_position(displays@, display_id)) {
            (Some(list), Some(at)) => list.deep_view() == entries_on(
                windows@,
                displays@[at].frame,
                own_pid,
            ),
            (None, None) => true,
            _ => false,
        },
{
    let at = match find_display(displays, display_id) {
        Some(at) => at,
        None => {
            return None;
        },
    };
    let display = displays[at].frame;
    let ghost on_display = |w: SharedWindow| w.entry_on(display, own_pid);
    let mut list: Vec<WindowInfo> = Vec::new();
    let mut i: usize = 0;
    assert(windows@.take(0).filter_map(on_display) =~= Seq::empty());
    while i < windows.len()
        invariant
            i <= windows.len(),
            windows_in_range(windows@),
            display.in_range(),
            on_display == |w: SharedWindow| w.entry_on(display, own_pid),
            list.deep_view() =~= windows@.take(i as int).filter_map(on_display),
        decreases windows.len() - i,
    {
        let ghost before = list.deep_view();
        proof {
            windows@.lemma_filter_map_take_succ(on_display, i as int);
        }
        let window = &windows[i];
        if window.is_candidate(own_pid) && window.frame.intersects(&display) {
            let entry = WindowInfo {
                name: window.name(),
                bounds: window.frame.relative_to(display.x, display.y),
            };
            list.push(entry);
            assert(list.deep_view() =~= before.push(entry.deep_view()));
        }
        i += 1;
    }
    assert(windows@.take(windows.len() as int) =~= windows@);
    Some(list)
}

/// Lists the windows of all displays, in global coordinates: in the order
/// of `windows`, an entry for each window that lies in the normal layer, has
/// an area and does not belong to the process `own_pid`.
pub fn enumerate_all_windows(windows: &Vec<SharedWindow>, own_pid: i32) -> (list: Vec<WindowInfo>)
    ensures
        list.deep_view() == global_entries(windows@, own_pid),
        windows_in_range(windows@) ==> entries_in_range(list@),
{
    let ghost global = |w: SharedWindow| w.global_entry(own_pid);
    let mut list: Vec<WindowInfo> = Vec::new();
    let mut i: usize = 0;
    assert(windows@.take(0).filter_map(global) =~= Seq::empty());
    while i < windows.len()
        invariant
            i <= windows.len(),
            global == |w: SharedWindow| w.global_entry(own_pid),
            list.deep_view() =~= windows@.take(i as int).filter_map(global),
            windows_in_range(windows@) ==> entries_in_range(list@),
        decreases windows.len() - i,
    {
        let ghost before = list.deep_view();
        proof {
            windows@.lemma_filter_map_take_succ(global, i as int);
        }
        let window = &windows[i];
        if window.is_candidate(own_pid) {
            let entry = WindowInfo { name: window.name(), bounds: window.frame };
            list.push(entry);
            assert(list.deep_view() =~= before.push(entry.deep_view()));
        }
        i += 1;
    }
    assert(windows@.take(windows.len() as int) =~= windows@);
    list
}

/// Picks, out of a list in global coordinates, the windows on one display,
/// and measures them from its origin.
///
/// There is no list exactly when no display carries `display_id`. Else the
/// list holds, in the order of `all_windows`, each entry whose bounds
/// overlap the display's frame.
pub fn filter_windows_by_display(
    all_windows: &[WindowInfo],
    display_id: u32,
    displays: &Vec<DisplayInfo>,
) -> (listed: Option<Vec<WindowInfo>>)
    requires
        entries_in_range(all_windows@),
        forall|i: int| 0 <= i < displays.len() ==> (#[trigger] displays@[i]).frame.in_range(),
    ensures
        match (listed, display_position(displays@, display_id)) {
            (Some(list), Some(at)) => list.deep_view() == entries_picked_for(
                all_windows.deep_view(),
                displays@[at].frame,
            ),
            (None, None) => true,
            _ => false,
        },
{
    let at = match find_display(displays, display_id) {
        Some(at) => at,
        None => {
            return None;
        },
    };
    let display = displays[at].frame;
    let ghost relative = |e: WindowEntry| entry_relative_to(e, display);
    let ghost source = all_windows.deep_view();
    let mut list: Vec<WindowInfo> = Vec::new();
    let mut i: usize = 0;
    assert(source.take(0).filter_map(relative) =~= Seq::empty());
    while i < all_windows.len()
        invariant
            i <= all_windows.len(),
            entries_in_range(all_windows@),
            display.in_range(),
            source == all_windows.deep_view(),
            source.len() == all_windows@.len(),
            relative == |e: WindowEntry| entry_relative_to(e, display),
            list.deep_view() =~= source.take(i as int).filter_map(relative),
        decreases all_windows.len() - i,
    {
        let ghost before = list.deep_view();
        proof {
            source.lemma_filter_map_take_succ(relative, i as int);
            assert(source[i as int] == all_windows@[i as int]@);
        }
        let window = &all_windows[i];
        if window.bounds.intersects(&display) {
            let entry = WindowInfo {
                name: window.name.clone(),
                bounds: window.bounds.relative_to(display.x, display.y),
            };
            list.push(entry);
            assert(list.deep_view() =~= before.push(entry.deep_view()));
        }
        i += 1;
    }
    assert(source.take(all_windows.len() as int) =~= source);
    Some(list)
}

/// Coordinate normalization: a window that can be listed and lies inside
/// the display is listed with its size unchanged and with a position
/// between zero and the display's extent.
pub proof fn lemma_contained_window_is_normalized(window: SharedWindow, display: Rect, own_pid: i32)
    requires
        window.frame.in_range(),
        display.in_range(),
        window.spec_is_candidate(own_pid),
        window.frame.within(display),
    ensures
        window.entry_on(display, own_pid) matches Some(entry) && {
            &&& 0 <= entry.bounds.x <= display.width
            &&& 0 <= entry.bounds.y <= display.height
            &&& entry.bounds.x == window.frame.x - display.x
            &&& entry.bounds.y == window.frame.y - display.y
            &&& entry.bounds.width == window.frame.width
            &&& entry.bounds.height == window.frame.height
            &&& entry.name == window.name_text()
        },
{
}

/// Intersection filter, first half: a window that shares no unit cell with
/// the display is left out of the display's list.
pub proof fn lemma_separate_window_is_left_out(window: SharedWindow, display: Rect, own_pid: i32)
    requires
        forall|px: int, py: int| !(window.frame.covers(px, py) && display.covers(px, py)),
    ensures
        window.entry_on(display, own_pid) is None,
{
    window.frame.lemma_intersects_iff_shared_cell(display);
}

/// Intersection filter, second half: a window that can be listed and
/// shares as little as one unit cell with the display is in the display's
/// list.
pub proof fn lemma_overlapping_window_is_listed(
    window: SharedWindow,
    display: Rect,
    own_pid: i32,
    px: int,
    py: int,
)
    requires
        window.spec_is_candidate(own_pid),
        window.frame.covers(px, py),
        display.covers(px, py),
    ensures
        window.entry_on(display, own_pid) is Some,
{
}

/// Self-exclusion: a window of the process `own_pid` has no entry, on any
/// display and in the list of all displays.
pub proof fn lemma_own_window_has_no_entry(window: SharedWindow, display: Rect, own_pid: i32)
    requires
        window.owner_pid == Some(own_pid),
    ensures
        window.entry_on(display, own_pid) is None,
        window.global_entry(own_pid) is None,
{
}

/// Self-exclusion, of a whole list: every entry of a display's list stands
/// for a window of `windows` that does not belong to the process
/// `own_pid`.
pub proof fn lemma_listed_windows_belong_to_others(
    windows: Seq<SharedWindow>,
    display: Rect,
    own_pid: i32,
    entry: WindowEntry,
)
    requires
        entries_on(windows, display, own_pid).contains(entry),
    ensures
        exists|w: SharedWindow| #[trigger]
            windows.contains(w) && w.owner_pid != Some(own_pid) && w.entry_on(display, own_pid)
                == Some(entry),
{
    let on_display = |w: SharedWindow| w.entry_on(display, own_pid);
    windows.lemma_filter_map_contains(on_display, entry);
    let w = choose|w: SharedWindow| #[trigger] windows.contains(w) && on_display(w) == Some(entry);
    assert(windows.contains(w) && w.owner_pid != Some(own_pid) && w.entry_on(display, own_pid)
        == Some(entry));
}

/// Listing one display at once gives what listing all displays and then
/// picking the display's windows gives.
pub proof fn lemma_listing_in_two_steps(windows: Seq<SharedWindow>, display: Rect, own_pid: i32)
    ensures
        entries_on(windows, display, own_pid) == entries_picked_for(
            global_entries(windows, own_pid),
            display,
        ),
    decreases windows.len(),
{
    let at_once = |w: SharedWindow| w.entry_on(display, own_pid);
    let global = |w: SharedWindow| w.global_entry(own_pid);
    let relative = |e: WindowEntry| entry_relative_to(e, display);
    if windows.len() == 0 {
        assert(windows.filter_map(global) =~= Seq::empty());
        assert(windows.filter_map(at_once) =~= Seq::empty());
        assert(Seq::<WindowEntry>::empty().filter_map(relative) =~= Seq::empty());
    } else {
        let rest = windows.drop_last();
        let last = windows.last();
        lemma_listing_in_two_steps(rest, display, own_pid);
        match global(last) {
            Some(entry) => {
                let listed = rest.filter_map(global) + seq![entry];
                assert(windows.filter_map(global) == listed);
                assert(listed.drop_last() =~= rest.filter_map(global));
                assert(listed.last() == entry);
                assert(relative(entry) == at_once(last));
            },
            None => {
                assert(at_once(last) is None);
            },
        }
    }
}

} // verus!
