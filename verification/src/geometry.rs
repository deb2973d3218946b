//! Rectangles in whole device units, and the entries of a window list.

use vstd::prelude::*;

verus! {

/// Largest magnitude that a coordinate or an extent of a rectangle may have
/// for the arithmetic of this module to stay inside `i64` (two to the 61st).
pub const COORD_LIMIT: i64 = 0x2000_0000_0000_0000;

/// An axis-aligned rectangle in whole device units.
///
/// One call site works in one unit (points or physical pixels) and never
/// mixes the two. A rectangle covers the unit cells from `x` up to, and not
/// including, `x + width`, and likewise on the vertical axis.
#[derive(Clone, Copy, Debug, PartialEq, Eq, Structural)]
pub struct Rect {
    pub x: i64,
    pub y: i64,
    pub width: i64,
    pub height: i64,
}

impl Rect {
    /// Every field lies within `COORD_LIMIT` of zero.
    pub open spec fn spec_in_range(&self) -> bool {
        &&& -COORD_LIMIT <= self.x <= COORD_LIMIT
        &&& -COORD_LIMIT <= self.y <= COORD_LIMIT
        &&& -COORD_LIMIT <= self.width <= COORD_LIMIT
        &&& -COORD_LIMIT <= self.height <= COORD_LIMIT
    }

    /// The horizontal coordinate just past the right edge.
    pub open spec fn right(self) -> int {
        self.x + self.width
    }

    /// The vertical coordinate just past the bottom edge.
    pub open spec fn bottom(self) -> int {
        self.y + self.height
    }

    /// The rectangle covers no unit cell.
    pub open spec fn spec_is_empty(&self) -> bool {
        self.width <= 0 || self.height <= 0
    }

    /// The point `(px, py)` names a unit cell that the rectangle covers.
    pub open spec fn covers(self, px: int, py: int) -> bool {
        self.x <= px < self.right() && self.y <= py < self.bottom()
    }

    /// The two rectangles overlap: both have an area, and neither ends
    /// where the other begins or before. Rectangles that only share an edge
    /// or a corner do not overlap.
    pub open spec fn spec_intersects(&self, other: &Rect) -> bool {
        &&& !self.spec_is_empty()
        &&& !other.spec_is_empty()
        &&& self.x < other.right()
        &&& other.x < self.right()
        &&& self.y < other.bottom()
        &&& other.y < self.bottom()
    }

    /// `self` lies inside `outer`, edges included.
    pub open spec fn within(self, outer: Rect) -> bool {
        &&& outer.x <= self.x
        &&& outer.y <= self.y
        &&& self.right() <= outer.right()
        &&& self.bottom() <= outer.bottom()
    }

    /// The same rectangle seen from `(origin_x, origin_y)`: the size stays,
    /// the position is measured from that point.
    pub open spec fn spec_relative_to(self, origin_x: int, origin_y: int) -> Rect {
        Rect {
            x: (self.x - origin_x) as i64,
            y: (self.y - origin_y) as i64,
            width: self.width,
            height: self.height,
        }
    }

    /// Whether every field lies within `COORD_LIMIT` of zero.
    #[verifier::when_used_as_spec(spec_in_range)]
    pub fn in_range(&self) -> (ok: bool)
        ensures
            ok == self.spec_in_range(),
    {
        -COORD_LIMIT <= self.x && self.x <= COORD_LIMIT && -COORD_LIMIT <= self.y && self.y
            <= COORD_LIMIT && -COORD_LIMIT <= self.width && self.width <= COORD_LIMIT
            && -COORD_LIMIT <= self.height && self.height <= COORD_LIMIT
    }

    /// Whether the rectangle covers no unit cell.
    #[verifier::when_used_as_spec(spec_is_empty)]
    pub fn is_empty(&self) -> (empty: bool)
        ensures
            empty == self.spec_is_empty(),
    {
        self.width <= 0 || self.height <= 0
    }

    /// Whether the two rectangles overlap.
    #[verifier::when_used_as_spec(spec_intersects)]
    pub fn intersects(&self, other: &Rect) -> (overlap: bool)
        ensures
            overlap == self.spec_intersects(other),
    {
        if self.is_empty() || other.is_empty() {
            return false;
        }
        let self_right: i128 = self.x as i128 + self.width as i128;
        let self_bottom: i128 = self.y as i128 + self.height as i128;
        let other_right: i128 = other.x as i128 + other.width as i128;
        let other_bottom: i128 = other.y as i128 + other.height as i128;
        (self.x as i128) < other_right && (other.x as i128) < self_right && (self.y as i128)
            < other_bottom && (other.y as i128) < self_bottom
    }

    /// Two rectangles overlap exactly when some unit cell belongs to both.
    pub proof fn lemma_intersects_iff_shared_cell(self, other: Rect)
        ensures
            self.spec_intersects(&other) <==> exists|px: int, py: int|
                self.covers(px, py) && other.covers(px, py),
    {
        if self.spec_intersects(&other) {
            let px = if self.x >= other.x {
                self.x as int
            } else {
                other.x as int
            };
            let py = if self.y >= other.y {
                self.y as int
            } else {
                other.y as int
            };
            assert(self.covers(px, py) && other.covers(px, py));
        }
    }

    /// The rectangle measured from `(origin_x, origin_y)`.
    pub fn relative_to(&self, origin_x: i64, origin_y: i64) -> (moved: Rect)
        requires
            self.in_range(),
            -COORD_LIMIT <= origin_x <= COORD_LIMIT,
            -COORD_LIMIT <= origin_y <= COORD_LIMIT,
        ensures
            moved == self.spec_relative_to(origin_x as int, origin_y as int),
            moved.x == self.x - origin_x,
            moved.y == self.y - origin_y,
            moved.width == self.width,
            moved.height == self.height,
    {
        Rect {
            x: self.x - origin_x,
            y: self.y - origin_y,
            width: self.width,
            height: self.height,
        }
    }
}

/// What a window list entry stands for: its title and its bounds.
pub struct WindowEntry {
    pub name: Seq<char>,
    pub bounds: Rect,
}

/// One enumerable, visible top-level window.
///
/// `bounds` is measured from the origin of the display (or of the virtual
/// desktop) that the list was made for, never in raw global coordinates.
#[derive(Clone, Debug, PartialEq, Eq)]
pub struct WindowInfo {
    pub name: String,
    pub bounds: Rect,
}

impl View for WindowInfo {
    type V = WindowEntry;

    open spec fn view(&self) -> WindowEntry {
        WindowEntry { name: self.name@, bounds: self.bounds }
    }
}

impl DeepView for WindowInfo {
    type V = WindowEntry;

    open spec fn deep_view(&self) -> WindowEntry {
        self@
    }
}

} // verus!
