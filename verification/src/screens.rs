//! Screen geometry: the virtual desktop that a set of screens spans, the part
//! of a screen that a requested area covers, and the lookup of a screen by
//! its identifier.

use vstd::prelude::*;

verus! {

/// Where a screen lies on the virtual desktop, and its identifier.
#[derive(Clone, Copy, Debug, PartialEq, Eq, Structural)]
pub struct ScreenRect {
    pub id: u32,
    pub x: i32,
    pub y: i32,
    pub width: u32,
    pub height: u32,
}

/// The smallest rectangle that holds every screen.
#[derive(Clone, Copy, Debug, PartialEq, Eq, Structural)]
pub struct VirtualDesktop {
    pub virtual_x: i32,
    pub virtual_y: i32,
    pub virtual_width: u32,
    pub virtual_height: u32,
}

/// The part of a screen that a capture takes, relative to the screen's origin.
#[derive(Clone, Copy, Debug, PartialEq, Eq, Structural)]
pub struct CaptureArea {
    pub rel_x: u32,
    pub rel_y: u32,
    pub width: u32,
    pub height: u32,
}

impl ScreenRect {
    /// The coordinate just right of the screen.
    pub open spec fn spec_right(self) -> int {
        self.x + self.width
    }

    /// The coordinate just below the screen.
    pub open spec fn spec_bottom(self) -> int {
        self.y + self.height
    }

    /// Whether the screen's right and bottom edges are coordinates themselves.
    pub open spec fn spec_in_range(self) -> bool {
        self.spec_right() <= i32::MAX && self.spec_bottom() <= i32::MAX
    }

    /// Tells whether the screen's right and bottom edges are coordinates
    /// themselves, that is, whether they fit in 32 bits.
    pub fn in_range(&self) -> (fits: bool)
        ensures
            fits == self.spec_in_range(),
    {
        self.x as i64 + self.width as i64 <= i32::MAX as i64 && self.y as i64 + self.height as i64
            <= i32::MAX as i64
    }
}

/// Whether every screen of `screens` has edges that are coordinates.
pub open spec fn spec_all_in_range(screens: Seq<ScreenRect>) -> bool {
    forall|i: int| 0 <= i < screens.len() ==> (#[trigger] screens[i]).spec_in_range()
}

/// Whether `desktop` is the bounding box of `screens`: it reaches no further
/// than the outermost edge on each of the four sides, and on each side some
/// screen reaches as far.
pub open spec fn spec_is_bounding_box(screens: Seq<ScreenRect>, desktop: VirtualDesktop) -> bool {
    let left = desktop.virtual_x as int;
    let top = desktop.virtual_y as int;
    let right = desktop.virtual_x + desktop.virtual_width;
    let bottom = desktop.virtual_y + desktop.virtual_height;
    &&& forall|i: int|
        0 <= i < screens.len() ==> {
            &&& left <= (#[trigger] screens[i]).x
            &&& top <= screens[i].y
            &&& screens[i].spec_right() <= right
            &&& screens[i].spec_bottom() <= bottom
        }
    &&& exists|i: int| 0 <= i < screens.len() && (#[trigger] screens[i]).x == left
    &&& exists|i: int| 0 <= i < screens.len() && (#[trigger] screens[i]).y == top
    &&& exists|i: int| 0 <= i < screens.len() && (#[trigger] screens[i]).spec_right() == right
    &&& exists|i: int| 0 <= i < screens.len() && (#[trigger] screens[i]).spec_bottom() == bottom
}

/// Tells whether every screen of `screens` has edges that are coordinates.
pub fn all_in_range(screens: &Vec<ScreenRect>) -> (fits: bool)
    ensures
        fits == spec_all_in_range(screens@),
{
    let mut i: usize = 0;
    while i < screens.len()
        invariant
            i <= screens.len(),
            forall|j: int| 0 <= j < i ==> (#[trigger] screens@[j]).spec_in_range(),
        decreases screens.len() - i,
    {
        if !screens[i].in_range() {
            return false;
        }
        i += 1;
    }
    true
}

/// Computes the virtual desktop: the bounding box of all screens.
///
/// There must be a screen, and the edges of each must be coordinates: without
/// a screen there is no box, and an edge beyond the coordinate range has no
/// place on the desktop.
pub fn virtual_desktop(screens: &Vec<ScreenRect>) -> (desktop: VirtualDesktop)
    requires
        screens@.len() > 0,
        spec_all_in_range(screens@),
    ensures
        spec_is_bounding_box(screens@, desktop),
{
    let first = screens[0];
    let mut min_x: i32 = first.x;
    let mut min_y: i32 = first.y;
    let mut max_x: i64 = first.x as i64 + first.width as i64;
    let mut max_y: i64 = first.y as i64 + first.height as i64;
    let ghost mut at_min_x: int = 0;
    let ghost mut at_min_y: int = 0;
    let ghost mut at_max_x: int = 0;
    let ghost mut at_max_y: int = 0;
    let mut i: usize = 1;
    while i < screens.len()
        invariant
            1 <= i <= screens.len(),
            spec_all_in_range(screens@),
            forall|j: int|
                0 <= j < i ==> {
                    &&& min_x <= (#[trigger] screens@[j]).x
                    &&& min_y <= screens@[j].y
                    &&& screens@[j].spec_right() <= max_x
                    &&& screens@[j].spec_bottom() <= max_y
                },
            0 <= at_min_x < i && screens@[at_min_x].x == min_x,
            0 <= at_min_y < i && screens@[at_min_y].y == min_y,
            0 <= at_max_x < i && screens@[at_max_x].spec_right() == max_x,
            0 <= at_max_y < i && screens@[at_max_y].spec_bottom() == max_y,
        decreases screens.len() - i,
    {
        let screen = screens[i];
        assert(screens@[i as int].spec_in_range());
        let right: i64 = screen.x as i64 + screen.width as i64;
        let bottom: i64 = screen.y as i64 + screen.height as i64;
        if screen.x < min_x {
            min_x = screen.x;
            proof {
                at_min_x = i as int;
            }
        }
        if screen.y < min_y {
            min_y = screen.y;
            proof {
                at_min_y = i as int;
            }
        }
        if right > max_x {
            max_x = right;
            proof {
                at_max_x = i as int;
            }
        }
        if bottom > max_y {
            max_y = bottom;
            proof {
                at_max_y = i as int;
            }
        }
        i += 1;
    }
    assert(screens@[at_min_x].spec_in_range() && screens@[at_min_y].spec_in_range());
    assert(screens@[at_max_x].spec_in_range() && screens@[at_max_y].spec_in_range());
    VirtualDesktop {
        virtual_x: min_x,
        virtual_y: min_y,
        virtual_width: (max_x - min_x as i64) as u32,
        virtual_height: (max_y - min_y as i64) as u32,
    }
}

/// The desktop of no screens: empty, at the origin.
pub open spec fn spec_empty_desktop() -> VirtualDesktop {
    VirtualDesktop { virtual_x: 0, virtual_y: 0, virtual_width: 0, virtual_height: 0 }
}

/// Whether `desktop` is what a listing of `screens` shows: their bounding
/// box, or the empty desktop where there is no screen.
pub open spec fn spec_is_listed_desktop(screens: Seq<ScreenRect>, desktop: VirtualDesktop) -> bool {
    if screens.len() == 0 {
        desktop == spec_empty_desktop()
    } else {
        spec_is_bounding_box(screens, desktop)
    }
}

/// Computes the bounding box of the screens, if there is a screen.
///
/// The edges of each screen must be coordinates.
pub fn bounding_desktop(screens: &Vec<ScreenRect>) -> (desktop: Option<VirtualDesktop>)
    requires
        spec_all_in_range(screens@),
    ensures
        match desktop {
            Some(d) => screens@.len() > 0 && spec_is_bounding_box(screens@, d),
            None => screens@.len() == 0,
        },
{
    if screens.len() == 0 {
        None
    } else {
        Some(virtual_desktop(screens))
    }
}

/// Computes the desktop that a listing of the screens shows: their bounding
/// box, or, where there is no screen, the empty desktop at the origin.
///
/// The edges of each screen must be coordinates.
pub fn listed_desktop(screens: &Vec<ScreenRect>) -> (desktop: VirtualDesktop)
    requires
        spec_all_in_range(screens@),
    ensures
        spec_is_listed_desktop(screens@, desktop),
{
    match bounding_desktop(screens) {
        Some(d) => d,
        None => VirtualDesktop { virtual_x: 0, virtual_y: 0, virtual_width: 0, virtual_height: 0 },
    }
}

/// The larger of two integers.
pub open spec fn spec_max(a: int, b: int) -> int {
    if a >= b {
        a
    } else {
        b
    }
}

/// The smaller of two integers.
pub open spec fn spec_min(a: int, b: int) -> int {
    if a <= b {
        a
    } else {
        b
    }
}

/// The area of `screen` that a request for `width` by `height` pixels at the
/// desktop point (`x`, `y`) covers.
pub open spec fn spec_clamp_area(
    x: i32,
    y: i32,
    width: u32,
    height: u32,
    screen: ScreenRect,
) -> CaptureArea {
    let rel_x = spec_max(x - screen.x, 0);
    let rel_y = spec_max(y - screen.y, 0);
    CaptureArea {
        rel_x: rel_x as u32,
        rel_y: rel_y as u32,
        width: spec_min(width as int, spec_max(screen.width - rel_x, 0)) as u32,
        height: spec_min(height as int, spec_max(screen.height - rel_y, 0)) as u32,
    }
}

/// Clamps a requested area to a screen.
///
/// The origin of the area is the requested point relative to the screen's
/// origin, and not left of or above it. Its size is the requested one, cut
/// off where the screen ends.
pub fn clamp_area(x: i32, y: i32, width: u32, height: u32, screen: &ScreenRect) -> (area:
    CaptureArea)
    ensures
        area == spec_clamp_area(x, y, width, height, *screen),
        area.rel_x <= screen.width ==> area.rel_x + area.width <= screen.width,
        area.rel_y <= screen.height ==> area.rel_y + area.height <= screen.height,
{
    let dx: i64 = x as i64 - screen.x as i64;
    let dy: i64 = y as i64 - screen.y as i64;
    let rel_x: u32 = if dx > 0 {
        dx as u32
    } else {
        0
    };
    let rel_y: u32 = if dy > 0 {
        dy as u32
    } else {
        0
    };
    let room_x: u32 = if screen.width > rel_x {
        screen.width - rel_x
    } else {
        0
    };
    let room_y: u32 = if screen.height > rel_y {
        screen.height - rel_y
    } else {
        0
    };
    CaptureArea {
        rel_x,
        rel_y,
        width: if width < room_x {
            width
        } else {
            room_x
        },
        height: if height < room_y {
            height
        } else {
            room_y
        },
    }
}

/// Finds the first screen with identifier `id`.
pub fn find_screen(screens: &Vec<ScreenRect>, id: u32) -> (found: Option<usize>)
    ensures
        match found {
            Some(i) => i < screens@.len() && screens@[i as int].id == id && forall|j: int|
                0 <= j < i ==> (#[trigger] screens@[j]).id != id,
            None => forall|j: int| 0 <= j < screens@.len() ==> (#[trigger] screens@[j]).id != id,
        },
{
    let mut i: usize = 0;
    while i < screens.len()
        invariant
            i <= screens.len(),
            forall|j: int| 0 <= j < i ==> (#[trigger] screens@[j]).id != id,
        decreases screens.len() - i,
    {
        if screens[i].id == id {
            return Some(i);
        }
        i += 1;
    }
    None
}

} // verus!
