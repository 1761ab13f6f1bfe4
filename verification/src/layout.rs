//! Where everything stands on the screen.

use crate::geometry::{self, centered_popup, map_content_rect, Rect};
use vstd::prelude::*;

verus! {

/// The least width of a terminal; one cell on each side is the frame of the map.
pub const MIN_WIDTH: u16 = 95;

/// The least height of a terminal.
pub const MIN_HEIGHT: u16 = 35;

/// Where everything stands on the screen. What is not shown is empty.
#[derive(Debug, Clone, Copy, PartialEq, Eq, Structural)]
pub struct FrameLayout {
    /// The terminal is large enough.
    pub shown: bool,
    pub top_menu_reset: Rect,
    pub top_menu_settings: Rect,
    pub top_menu_radio: Rect,
    pub top_menu_close: Rect,
    pub map_area: Rect,
    pub map_content: Rect,
    pub settings_popup: Rect,
    pub radio_popup_area: Rect,
    /// The inside of the radio popup's border.
    pub radio_content: Rect,
    /// The closing button of the popup on top.
    pub popup_close_rect: Rect,
}

/// The empty rectangle.
pub open spec fn nowhere() -> Rect {
    Rect { x: 0, y: 0, width: 0, height: 0 }
}

/// Nothing is shown.
pub open spec fn nothing_shown() -> FrameLayout {
    FrameLayout {
        shown: false,
        top_menu_reset: nowhere(),
        top_menu_settings: nowhere(),
        top_menu_radio: nowhere(),
        top_menu_close: nowhere(),
        map_area: nowhere(),
        map_content: nowhere(),
        settings_popup: nowhere(),
        radio_popup_area: nowhere(),
        radio_content: nowhere(),
        popup_close_rect: nowhere(),
    }
}

/// A terminal of this size is too small.
pub open spec fn too_small(area: Rect) -> bool {
    area.width < MIN_WIDTH || area.height < MIN_HEIGHT
}

/// A rectangle of one row.
pub open spec fn row_of(x: int, y: int, width: int) -> Rect {
    Rect { x: x as u16, y: y as u16, width: width as u16, height: 1 }
}

/// The closing button at the right end of a popup's upper border.
pub open spec fn close_button(popup: Rect) -> Rect {
    row_of(popup.x + popup.width - 3, popup.y as int, 3)
}

/// The part of the screen below the menu.
pub open spec fn below_menu(area: Rect) -> Rect {
    Rect { x: area.x, y: (area.y + 1) as u16, width: area.width, height: (area.height - 1) as u16 }
}

/// A rectangle without its outermost cells.
pub open spec fn within_border(r: Rect) -> Rect {
    Rect {
        x: (r.x + 1) as u16,
        y: (r.y + 1) as u16,
        width: (r.width - 2) as u16,
        height: (r.height - 2) as u16,
    }
}

/// Where everything stands on a screen of this size. Where both popups are open the radio popup
/// is on top.
pub open spec fn layout_of(
    area: Rect,
    radio_installed: bool,
    settings_visible: bool,
    radio_visible: bool,
) -> FrameLayout {
    if too_small(area) {
        nothing_shown()
    } else {
        let map_area = below_menu(area);
        let settings_popup = if settings_visible {
            geometry::centered(map_area, 52, 45)
        } else {
            nowhere()
        };
        let radio_popup_area = if radio_visible {
            geometry::centered(map_area, 74, 78)
        } else {
            nowhere()
        };
        FrameLayout {
            shown: true,
            top_menu_reset: row_of(area.x as int, area.y as int, 7),
            top_menu_settings: row_of(area.x + 7, area.y as int, 10),
            top_menu_radio: if radio_installed {
                row_of(area.x + 17, area.y as int, 11)
            } else {
                nowhere()
            },
            top_menu_close: row_of(area.x + area.width - 3, area.y as int, 3),
            map_area,
            map_content: geometry::framed_content(map_area),
            settings_popup,
            radio_popup_area,
            radio_content: if radio_visible {
                within_border(radio_popup_area)
            } else {
                nowhere()
            },
            popup_close_rect: if radio_visible {
                close_button(radio_popup_area)
            } else if settings_visible {
                close_button(settings_popup)
            } else {
                nowhere()
            },
        }
    }
}

/// Both popups have room for their borders and texts, and lie below the menu.
pub proof fn lemma_popups_have_room(area: Rect)
    requires
        area.fits(),
        !too_small(area),
    ensures
        ({
            let m = below_menu(area);
            let s = geometry::centered(m, 52, 45);
            let r = geometry::centered(m, 74, 78);
            &&& m.fits()
            &&& m.width >= 95 && m.height >= 34
            &&& s.inside(m) && s.width >= 49 && s.height >= 15
            &&& r.inside(m) && r.width >= 70 && r.height >= 26
        }),
{
    let m = below_menu(area);
    geometry::law_popup_stays_inside(m, 52, 45);
    geometry::law_popup_stays_inside(m, 74, 78);
    assert(m.width * 52 / 100 >= 49 && m.width * 52 / 100 <= 65535);
    assert(m.height * 45 / 100 >= 15 && m.height * 45 / 100 <= 65535);
    assert(m.width * 74 / 100 >= 70 && m.width * 74 / 100 <= 65535);
    assert(m.height * 78 / 100 >= 26 && m.height * 78 / 100 <= 65535);
}

/// Lays out a screen of this size.
pub fn frame_layout(
    area: Rect,
    radio_installed: bool,
    settings_visible: bool,
    radio_visible: bool,
) -> (r: FrameLayout)
    requires
        area.fits(),
    ensures
        r == layout_of(area, radio_installed, settings_visible, radio_visible),
{
    let none = Rect { x: 0, y: 0, width: 0, height: 0 };
    let mut r = FrameLayout {
        shown: false,
        top_menu_reset: none,
        top_menu_settings: none,
        top_menu_radio: none,
        top_menu_close: none,
        map_area: none,
        map_content: none,
        settings_popup: none,
        radio_popup_area: none,
        radio_content: none,
        popup_close_rect: none,
    };
    if area.width < MIN_WIDTH || area.height < MIN_HEIGHT {
        return r;
    }
    proof {
        lemma_popups_have_room(area);
    }
    r.shown = true;
    r.top_menu_reset = Rect { x: area.x, y: area.y, width: 7, height: 1 };
    r.top_menu_settings = Rect { x: area.x + 7, y: area.y, width: 10, height: 1 };
    if radio_installed {
        r.top_menu_radio = Rect { x: area.x + 17, y: area.y, width: 11, height: 1 };
    }
    r.top_menu_close = Rect { x: area.x + area.width - 3, y: area.y, width: 3, height: 1 };
    let map_area = Rect {
        x: area.x,
        y: area.y + 1,
        width: area.width,
        height: area.height - 1,
    };
    r.map_area = map_area;
    r.map_content = map_content_rect(map_area);
    if settings_visible {
        let p: Rect = centered_popup(map_area, 52, 45);
        r.settings_popup = p;
        r.popup_close_rect = Rect { x: p.x + p.width - 3, y: p.y, width: 3, height: 1 };
    }
    if radio_visible {
        let p: Rect = centered_popup(map_area, 74, 78);
        r.radio_popup_area = p;
        r.radio_content = Rect {
            x: p.x + 1,
            y: p.y + 1,
            width: p.width - 2,
            height: p.height - 2,
        };
        r.popup_close_rect = Rect { x: p.x + p.width - 3, y: p.y, width: 3, height: 1 };
    }
    r
}

/// No cell lies in both rectangles.
pub open spec fn apart(a: Rect, b: Rect) -> bool {
    forall|col: int, row: int| #![trigger a.covers(col, row)] !(a.covers(col, row) && b.covers(col, row))
}

/// The buttons of the menu do not overlap, neither each other nor the map nor a popup's closing
/// button.
pub proof fn law_buttons_are_apart(
    area: Rect,
    radio_installed: bool,
    settings_visible: bool,
    radio_visible: bool,
)
    requires
        area.fits(),
    ensures
        ({
            let l = layout_of(area, radio_installed, settings_visible, radio_visible);
            &&& apart(l.top_menu_reset, l.top_menu_settings)
            &&& apart(l.top_menu_reset, l.top_menu_radio)
            &&& apart(l.top_menu_reset, l.top_menu_close)
            &&& apart(l.top_menu_settings, l.top_menu_radio)
            &&& apart(l.top_menu_settings, l.top_menu_close)
            &&& apart(l.top_menu_radio, l.top_menu_close)
            &&& apart(l.popup_close_rect, l.top_menu_reset)
            &&& apart(l.popup_close_rect, l.top_menu_settings)
            &&& apart(l.popup_close_rect, l.top_menu_radio)
            &&& apart(l.popup_close_rect, l.top_menu_close)
            &&& apart(l.map_area, l.top_menu_reset)
            &&& apart(l.map_area, l.top_menu_settings)
            &&& apart(l.map_area, l.top_menu_radio)
            &&& apart(l.map_area, l.top_menu_close)
        }),
{
    if !too_small(area) {
        lemma_popups_have_room(area);
    }
}

/// Everything that is shown lies on the screen, and the popups lie in the map panel.
pub proof fn law_layout_stays_inside(
    area: Rect,
    radio_installed: bool,
    settings_visible: bool,
    radio_visible: bool,
)
    requires
        area.fits(),
        !too_small(area),
    ensures
        ({
            let l = layout_of(area, radio_installed, settings_visible, radio_visible);
            &&& l.top_menu_reset.inside(area)
            &&& l.top_menu_settings.inside(area)
            &&& radio_installed ==> l.top_menu_radio.inside(area)
            &&& l.top_menu_close.inside(area)
            &&& l.map_area.inside(area)
            &&& l.map_content.inside(l.map_area)
            &&& settings_visible ==> l.settings_popup.inside(l.map_area)
            &&& radio_visible ==> l.radio_popup_area.inside(l.map_area)
            &&& radio_visible ==> l.radio_content.inside(l.radio_popup_area)
            &&& radio_visible ==> l.popup_close_rect.inside(l.radio_popup_area)
            &&& settings_visible && !radio_visible ==> l.popup_close_rect.inside(l.settings_popup)
        }),
{
    lemma_popups_have_room(area);
    geometry::law_map_content_stays_inside(below_menu(area));
}

} // verus!
