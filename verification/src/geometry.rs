//! Screen geometry: which display a point lies on, and where a fixed-size
//! popup goes relative to a trigger point so that it stays on that display.

use vstd::prelude::*;

verus! {

/// A position on the virtual screen.
#[derive(Clone, Copy, Debug, PartialEq, Eq, Structural)]
pub struct Point {
    pub x: i32,
    pub y: i32,
}

/// Width and height of a surface.
#[derive(Clone, Copy, Debug, PartialEq, Eq, Structural)]
pub struct Size {
    pub width: u32,
    pub height: u32,
}

/// The rectangle a display covers on the virtual screen.
#[derive(Clone, Copy, Debug, PartialEq, Eq, Structural)]
pub struct Bounds {
    pub x: i32,
    pub y: i32,
    pub width: u32,
    pub height: u32,
}

/// Top-left corner chosen for the popup. Wider than `Point` because a popup
/// next to the edge of the coordinate space may start outside of it.
#[derive(Clone, Copy, Debug, PartialEq, Eq, Structural)]
pub struct TopLeft {
    pub x: i64,
    pub y: i64,
}

impl Bounds {
    pub open spec fn left(self) -> int {
        self.x as int
    }

    pub open spec fn top(self) -> int {
        self.y as int
    }

    /// First column right of the display.
    pub open spec fn right(self) -> int {
        self.x + self.width
    }

    /// First row below the display.
    pub open spec fn bottom(self) -> int {
        self.y + self.height
    }

    /// Half-open on both axes: the left and top edges belong to the display,
    /// the right and bottom edges do not.
    pub open spec fn contains(self, point: Point) -> bool {
        &&& self.left() <= point.x < self.right()
        &&& self.top() <= point.y < self.bottom()
    }

    /// Whether a popup of the given size, with `margin` free on every side,
    /// fits on the display.
    pub open spec fn fits(self, popup: Size, margin: u32) -> bool {
        &&& popup.width + 2 * margin <= self.width
        &&& popup.height + 2 * margin <= self.height
    }

    /// Whether the rectangle of the given size at `(x, y)` lies on the display.
    pub open spec fn encloses(self, x: int, y: int, size: Size) -> bool {
        &&& self.left() <= x
        &&& x + size.width <= self.right()
        &&& self.top() <= y
        &&& y + size.height <= self.bottom()
    }

    pub fn has(&self, point: Point) -> (inside: bool)
        ensures
            inside == self.contains(point),
    {
        let px: i64 = point.x as i64;
        let py: i64 = point.y as i64;
        let left: i64 = self.x as i64;
        let top: i64 = self.y as i64;
        left <= px && px < left + self.width as i64 && top <= py && py < top + self.height as i64
    }
}

/// The display assumed when no reported display contains the point.
pub open spec fn fallback_bounds() -> Bounds {
    Bounds { x: 0, y: 0, width: 1920, height: 1080 }
}

/// `i` is the first display, in reported order, that contains `point`.
pub open spec fn first_match(point: Point, monitors: Seq<Bounds>, i: int) -> bool {
    &&& 0 <= i < monitors.len()
    &&& monitors[i].contains(point)
    &&& forall|j: int| 0 <= j < i ==> !(#[trigger] monitors[j]).contains(point)
}

/// The display a point belongs to: the first one that contains it, or the
/// fallback when none does.
pub open spec fn resolved(point: Point, monitors: Seq<Bounds>) -> Bounds {
    if exists|i: int| first_match(point, monitors, i) {
        monitors[choose|i: int| first_match(point, monitors, i)]
    } else {
        fallback_bounds()
    }
}

/// At most one index is the first match.
pub proof fn lemma_first_match_unique(point: Point, monitors: Seq<Bounds>, i: int, k: int)
    requires
        first_match(point, monitors, i),
        first_match(point, monitors, k),
    ensures
        i == k,
{
    if i < k {
        assert(!monitors[i].contains(point));
    } else if k < i {
        assert(!monitors[k].contains(point));
    }
}

/// Finds the display that contains `point`.
pub fn resolve(point: Point, monitors: &Vec<Bounds>) -> (found: Bounds)
    ensures
        found == resolved(point, monitors@),
        found == fallback_bounds() || found.contains(point),
        forall|i: int| first_match(point, monitors@, i) ==> found == monitors@[i],
        (forall|i: int| 0 <= i < monitors@.len() ==> !(#[trigger] monitors@[i]).contains(point))
            ==> found == fallback_bounds(),
{
    let mut i: usize = 0;
    while i < monitors.len()
        invariant
            i <= monitors@.len(),
            forall|j: int| 0 <= j < i ==> !(#[trigger] monitors@[j]).contains(point),
        decreases monitors@.len() - i,
    {
        let candidate: Bounds = monitors[i];
        if candidate.has(point) {
            proof {
                assert(first_match(point, monitors@, i as int));
                assert forall|k: int| first_match(point, monitors@, k) implies k == i by {
                    lemma_first_match_unique(point, monitors@, i as int, k);
                }
            }
            return candidate;
        }
        i += 1;
    }
    proof {
        assert forall|k: int| !first_match(point, monitors@, k) by {
            if 0 <= k < monitors@.len() {
                assert(!monitors@[k].contains(point));
            }
        }
    }
    Bounds { x: 0, y: 0, width: 1920, height: 1080 }
}

/// Horizontal position of the popup: centred on the trigger point, pulled
/// left until its right margin is kept, then pushed right until its left
/// margin is kept. The left margin wins on a display too narrow for both.
pub open spec fn placed_x(point: Point, bounds: Bounds, popup: Size, margin: u32) -> int {
    let centred = point.x - popup.width / 2;
    let rightmost = bounds.right() - popup.width - margin;
    let leftmost = bounds.left() + margin;
    let pulled = if centred > rightmost { rightmost } else { centred };
    if pulled < leftmost { leftmost } else { pulled }
}

/// Vertical position of the popup: above the trigger point when the top
/// margin allows, else below it; either way pulled up until the bottom
/// margin is kept.
pub open spec fn placed_y(point: Point, bounds: Bounds, popup: Size, margin: u32) -> int {
    let above = point.y - popup.height - margin;
    let below = point.y + margin;
    let lowest = bounds.bottom() - popup.height - margin;
    let preferred = if above < bounds.top() + margin { below } else { above };
    if preferred > lowest { lowest } else { preferred }
}

/// The corner made of `placed_x` and `placed_y`. Both always fit the fields
/// of `TopLeft`, so nothing is lost in it.
pub open spec fn placed(point: Point, bounds: Bounds, popup: Size, margin: u32) -> TopLeft {
    TopLeft {
        x: placed_x(point, bounds, popup, margin) as i64,
        y: placed_y(point, bounds, popup, margin) as i64,
    }
}

/// Computes the top-left corner for a popup of size `popup` triggered at
/// `point` on the display `bounds`.
pub fn place(point: Point, bounds: Bounds, popup: Size, margin: u32) -> (at: TopLeft)
    ensures
        at == placed(point, bounds, popup, margin),
        at.x == placed_x(point, bounds, popup, margin),
        at.y == placed_y(point, bounds, popup, margin),
{
    let width: i64 = popup.width as i64;
    let height: i64 = popup.height as i64;
    let gap: i64 = margin as i64;
    let left: i64 = bounds.x as i64;
    let top: i64 = bounds.y as i64;
    let right: i64 = left + bounds.width as i64;
    let bottom: i64 = top + bounds.height as i64;

    let mut x: i64 = point.x as i64 - (popup.width / 2) as i64;
    let mut y: i64 = point.y as i64 - height - gap;
    if x + width > right - gap {
        x = right - width - gap;
    }
    if x < left + gap {
        x = left + gap;
    }
    if y < top + gap {
        y = point.y as i64 + gap;
    }
    if y + height > bottom - gap {
        y = bottom - height - gap;
    }
    TopLeft { x, y }
}

/// The position depends on nothing but the four arguments: the same
/// question has the same answer, whenever and however often it is asked.
pub proof fn lemma_place_deterministic(
    point: Point,
    bounds: Bounds,
    popup: Size,
    margin: u32,
    same_point: Point,
    same_bounds: Bounds,
    same_popup: Size,
    same_margin: u32,
)
    requires
        point == same_point,
        bounds == same_bounds,
        popup == same_popup,
        margin == same_margin,
    ensures
        placed(point, bounds, popup, margin) == placed(
            same_point,
            same_bounds,
            same_popup,
            same_margin,
        ),
{
}

/// Nothing is lost when the position is stored: both coordinates lie well
/// within the range of `TopLeft`.
pub proof fn lemma_placed_in_range(point: Point, bounds: Bounds, popup: Size, margin: u32)
    ensures
        placed(point, bounds, popup, margin).x == placed_x(point, bounds, popup, margin),
        placed(point, bounds, popup, margin).y == placed_y(point, bounds, popup, margin),
{
}

/// On a display that fits the popup with its margins, the popup keeps its
/// margin to the left, right and bottom edges wherever the trigger point is.
pub proof fn lemma_place_keeps_side_and_bottom_margins(
    point: Point,
    bounds: Bounds,
    popup: Size,
    margin: u32,
)
    requires
        bounds.fits(popup, margin),
    ensures
        bounds.left() + margin <= placed_x(point, bounds, popup, margin),
        placed_x(point, bounds, popup, margin) + popup.width <= bounds.right() - margin,
        placed_y(point, bounds, popup, margin) + popup.height <= bounds.bottom() - margin,
{
}

/// On a display that fits the popup with its margins, the popup lies fully
/// on the display, provided the trigger point is no further above the
/// display than the margin. (A point further up is answered with the
/// position just below it, which is then still above the display.)
pub proof fn lemma_place_within_bounds(point: Point, bounds: Bounds, popup: Size, margin: u32)
    requires
        bounds.fits(popup, margin),
        bounds.top() <= point.y + margin,
    ensures
        bounds.encloses(
            placed_x(point, bounds, popup, margin),
            placed_y(point, bounds, popup, margin),
            popup,
        ),
{
}

/// For a trigger point on the display itself the popup also keeps its
/// margin to the top edge.
pub proof fn lemma_place_keeps_top_margin(point: Point, bounds: Bounds, popup: Size, margin: u32)
    requires
        bounds.fits(popup, margin),
        bounds.top() <= point.y,
    ensures
        bounds.top() + margin <= placed_y(point, bounds, popup, margin),
{
}

/// Placing on the resolved display: whenever some reported display contains
/// the trigger point and fits the popup, the popup lies fully on the first
/// such display.
pub proof fn lemma_place_on_resolved_display(
    point: Point,
    monitors: Seq<Bounds>,
    popup: Size,
    margin: u32,
)
    requires
        exists|i: int| first_match(point, monitors, i),
        resolved(point, monitors).fits(popup, margin),
    ensures
        resolved(point, monitors).contains(point),
        resolved(point, monitors).encloses(
            placed_x(point, resolved(point, monitors), popup, margin),
            placed_y(point, resolved(point, monitors), popup, margin),
            popup,
        ),
{
    let i = choose|i: int| first_match(point, monitors, i);
    lemma_place_within_bounds(point, monitors[i], popup, margin);
}

} // verus!
