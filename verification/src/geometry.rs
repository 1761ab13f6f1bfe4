//! Rectangles of terminal cells.

use vstd::prelude::*;

verus! {

/// A rectangle of terminal cells; `x` and `y` are its top left corner.
#[derive(Debug, Clone, Copy, PartialEq, Eq, Structural)]
pub struct Rect {
    pub x: u16,
    pub y: u16,
    pub width: u16,
    pub height: u16,
}

/// The sum of two lengths, capped at the largest coordinate.
pub open spec fn capped_sum(a: u16, b: u16) -> int {
    if a + b > u16::MAX {
        u16::MAX as int
    } else {
        a + b
    }
}

impl Rect {
    /// The first column and the first row past the rectangle are coordinates too.
    pub open spec fn fits(self) -> bool {
        &&& self.x + self.width <= u16::MAX
        &&& self.y + self.height <= u16::MAX
    }

    /// The cell lies in the rectangle.
    pub open spec fn covers(self, col: int, row: int) -> bool {
        &&& self.x <= col < capped_sum(self.x, self.width)
        &&& self.y <= row < capped_sum(self.y, self.height)
    }

    /// The rectangle lies in `outer`.
    pub open spec fn inside(self, outer: Rect) -> bool {
        &&& outer.x <= self.x
        &&& outer.y <= self.y
        &&& self.x + self.width <= outer.x + outer.width
        &&& self.y + self.height <= outer.y + outer.height
    }
}

impl Default for Rect {
    fn default() -> (r: Self)
        ensures
            r == (Rect { x: 0, y: 0, width: 0, height: 0 }),
    {
        Rect { x: 0, y: 0, width: 0, height: 0 }
    }
}

/// Whether the cell of a column and a row lies in `rect`.
pub fn in_rect(col: u16, row: u16, rect: Rect) -> (r: bool)
    ensures
        r == rect.covers(col as int, row as int),
{
    col >= rect.x && col < rect.x.saturating_add(rect.width) && row >= rect.y && row
        < rect.y.saturating_add(rect.height)
}

/// `pct` per cent of a length, rounded down; more than a coordinate can hold is cut to its low
/// sixteen bits.
pub open spec fn percent_of(len: u16, pct: u16) -> u16 {
    (len * pct / 100) as u16
}

/// The space left before a part of the given length when it stands in the middle of `len`.
pub open spec fn margin(len: u16, part: u16) -> int {
    if part >= len {
        0
    } else {
        (len - part) / 2
    }
}

/// The smaller of two lengths.
pub open spec fn shorter(a: u16, b: u16) -> u16 {
    if a <= b {
        a
    } else {
        b
    }
}

/// A rectangle in the middle of `area`, of a share of its width and height.
pub open spec fn centered(area: Rect, width_pct: u16, height_pct: u16) -> Rect {
    let w = percent_of(area.width, width_pct);
    let h = percent_of(area.height, height_pct);
    Rect {
        x: (area.x + margin(area.width, w)) as u16,
        y: (area.y + margin(area.height, h)) as u16,
        width: shorter(w, area.width),
        height: shorter(h, area.height),
    }
}

fn share(len: u16, pct: u16) -> (r: u16)
    ensures
        r == percent_of(len, pct),
{
    assert(0 <= len * pct <= 65535 * 65535) by (nonlinear_arith)
        requires
            0 <= len <= 65535,
            0 <= pct <= 65535,
    ;
    (len as u32 * pct as u32 / 100) as u16
}

fn min_u16(a: u16, b: u16) -> (r: u16)
    ensures
        r == shorter(a, b),
{
    if a <= b {
        a
    } else {
        b
    }
}

/// Places a popup in the middle of `area`, `width_pct` and `height_pct` per cent of it in size.
pub fn centered_popup(area: Rect, width_pct: u16, height_pct: u16) -> (r: Rect)
    requires
        area.x + margin(area.width, percent_of(area.width, width_pct)) <= u16::MAX,
        area.y + margin(area.height, percent_of(area.height, height_pct)) <= u16::MAX,
    ensures
        r == centered(area, width_pct, height_pct),
{
    let popup_width: u16 = share(area.width, width_pct);
    let popup_height: u16 = share(area.height, height_pct);
    let x: u16 = area.x + area.width.saturating_sub(popup_width) / 2;
    let y: u16 = area.y + area.height.saturating_sub(popup_height) / 2;
    Rect { x, y, width: min_u16(popup_width, area.width), height: min_u16(popup_height, area.height) }
}

/// A popup never leaves the area that it is placed in.
pub proof fn law_popup_stays_inside(area: Rect, width_pct: u16, height_pct: u16)
    requires
        area.fits(),
    ensures
        centered(area, width_pct, height_pct).inside(area),
{
}

/// What the frame around the map leaves for the map itself.
pub open spec fn framed_content(map_area: Rect) -> Rect {
    if map_area.width <= 3 || map_area.height <= 3 {
        map_area
    } else {
        Rect {
            x: (map_area.x + 1) as u16,
            y: (map_area.y + 1) as u16,
            width: (map_area.width - 2) as u16,
            height: (map_area.height - 2) as u16,
        }
    }
}

/// The inside of the single-line frame around the map panel. A panel too small for a frame is
/// used whole.
pub fn map_content_rect(map_area: Rect) -> (r: Rect)
    requires
        map_area.width > 3 && map_area.height > 3 ==> map_area.x < u16::MAX && map_area.y
            < u16::MAX,
    ensures
        r == framed_content(map_area),
{
    if map_area.width <= 3 || map_area.height <= 3 {
        return map_area;
    }
    Rect {
        x: map_area.x + 1,
        y: map_area.y + 1,
        width: map_area.width - 2,
        height: map_area.height - 2,
    }
}

/// The map never draws outside its panel, and where there is a frame, never on the frame.
pub proof fn law_map_content_stays_inside(map_area: Rect)
    requires
        map_area.fits(),
    ensures
        framed_content(map_area).inside(map_area),
        map_area.width > 3 && map_area.height > 3 ==> {
            let c = framed_content(map_area);
            &&& map_area.x < c.x
            &&& map_area.y < c.y
            &&& c.x + c.width < map_area.x + map_area.width
            &&& c.y + c.height < map_area.y + map_area.height
        },
{
}

} // verus!
