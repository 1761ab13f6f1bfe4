//! The application as a state machine: what every terminal event does, and what is drawn.

use crate::draw::{self, Color, DrawSpec};
use crate::geometry::Rect;
use crate::input::{
    self, Event, KeyCode, MapCommand, MapInput, MouseButton, MouseEvent, MouseEventKind,
};
use crate::layout::{self, FrameLayout, MIN_HEIGHT, MIN_WIDTH};
use crate::plugin::Degrees;
use crate::popup_model::{self, ActionSpec, PopupSpec};
use crate::settings::AppSettings;
use crate::text;
use vstd::prelude::*;

verus! {

/// The least time between two steps of the mouse wheel that zoom, in nanoseconds.
pub const WHEEL_ZOOM_MIN_INTERVAL_NANOS: u128 = 55_000_000;

/// What the application knows.
#[verifier::ext_equal]
pub struct AppSpec {
    pub settings: AppSettings,
    pub radio_installed: bool,
    pub settings_visible: bool,
    /// The stream of the station that was picked last.
    pub station_url: Option<Seq<char>>,
    pub should_quit: bool,
    pub right_dragging: bool,
    /// Where the map was last dragged to.
    pub last_drag: Option<(u16, u16)>,
    /// When the mouse wheel last zoomed.
    pub last_wheel_zoom: Option<u128>,
    /// Where everything stands since the last drawing.
    pub layout: FrameLayout,
    pub popup: PopupSpec,
}

/// Something the application asks its host to do.
pub enum AppActionSpec {
    ResetView,
    SaveSettings(AppSettings),
    WheelZoomIn,
    WheelZoomOut,
    PanByCells { dx: int, dy: int },
    Command(MapCommand),
    Center { lat: Degrees, lon: Degrees },
    Popup(ActionSpec),
}

/// The state after an event, and what is asked of the host.
pub type AppStep = (AppSpec, Seq<AppActionSpec>);

/// Nothing is asked of the host.
pub open spec fn calm(s: AppSpec) -> AppStep {
    (s, Seq::empty())
}

/// What the popup asks for is passed on.
pub open spec fn passed_on(actions: Seq<ActionSpec>) -> Seq<AppActionSpec> {
    actions.map_values(|a: ActionSpec| AppActionSpec::Popup(a))
}

impl AppSpec {
    /// The mouse does not reach the map.
    pub open spec fn map_blocked(self) -> bool {
        self.popup.visible || self.settings_visible
    }

    /// The same state after a step of the popup.
    pub open spec fn with_popup(self, step: popup_model::Step) -> AppStep {
        (AppSpec { popup: step.0, ..self }, passed_on(step.1))
    }
}

// ---------------------------------------------------------------------------
// Keys
// ---------------------------------------------------------------------------

/// The settings are changed and saved, if they are about a plugin that is there.
pub open spec fn with_settings(s: AppSpec, settings: AppSettings) -> AppStep {
    if s.radio_installed {
        (AppSpec { settings, ..s }, seq![AppActionSpec::SaveSettings(settings)])
    } else {
        calm(s)
    }
}

pub open spec fn on_key(s: AppSpec, code: KeyCode) -> AppStep {
    match code {
        KeyCode::Esc => if s.popup.visible {
            s.with_popup(popup_model::closed(s.popup))
        } else {
            calm(AppSpec { settings_visible: false, ..s })
        },
        KeyCode::Char(c) => if c == 'q' {
            calm(AppSpec { should_quit: true, ..s })
        } else if c == 'r' {
            (s, seq![AppActionSpec::ResetView])
        } else if c == 's' {
            calm(AppSpec { settings_visible: !s.settings_visible, ..s })
        } else if c == 't' && s.settings_visible {
            with_settings(
                s,
                AppSettings { radio_map_enabled: !s.settings.radio_map_enabled, ..s.settings },
            )
        } else if c == 'e' && s.settings_visible {
            with_settings(
                s,
                AppSettings {
                    radio_prefer_external_player: !s.settings.radio_prefer_external_player,
                    ..s.settings
                },
            )
        } else {
            calm(s)
        },
        _ => calm(s),
    }
}

// ---------------------------------------------------------------------------
// Mouse
// ---------------------------------------------------------------------------

/// The popup is told where the map is and how to play, and opened.
pub open spec fn radio_opened(s: AppSpec, lat: Seq<char>, lon: Seq<char>) -> AppStep {
    let told = PopupSpec { center_lat: lat, center_lon: lon, ..s.popup };
    let ready = if s.settings.radio_prefer_external_player {
        PopupSpec { play_mode: crate::plugin::RadioPlayMode::ExternalPlayer, ..told }
    } else {
        told
    };
    s.with_popup(popup_model::opened(ready))
}

/// The left button goes down: buttons of the menu come before the closing button of a popup.
pub open spec fn on_click(s: AppSpec, col: int, row: int, lat: Seq<char>, lon: Seq<char>) -> AppStep {
    let l = s.layout;
    if l.top_menu_close.covers(col, row) {
        calm(AppSpec { should_quit: true, ..s })
    } else if l.top_menu_reset.covers(col, row) {
        (s, seq![AppActionSpec::ResetView])
    } else if l.top_menu_settings.covers(col, row) {
        calm(AppSpec { settings_visible: !s.settings_visible, ..s })
    } else if s.radio_installed && s.settings.radio_map_enabled && l.top_menu_radio.covers(col, row) {
        radio_opened(s, lat, lon)
    } else if l.popup_close_rect.covers(col, row) {
        let t = AppSpec { settings_visible: false, ..s };
        if s.popup.visible {
            t.with_popup(popup_model::closed(s.popup))
        } else {
            calm(t)
        }
    } else {
        calm(s)
    }
}

/// The wheel may zoom again.
pub open spec fn wheel_ready(s: AppSpec, now: u128) -> bool {
    match s.last_wheel_zoom {
        Some(t) => t + WHEEL_ZOOM_MIN_INTERVAL_NANOS <= now,
        None => true,
    }
}

pub open spec fn on_wheel(s: AppSpec, now: u128, zoom: AppActionSpec) -> AppStep {
    if wheel_ready(s, now) {
        (AppSpec { last_wheel_zoom: Some(now), ..s }, seq![zoom])
    } else {
        calm(s)
    }
}

/// A coordinate as a signed sixteen-bit number.
pub open spec fn signed(c: u16) -> int {
    if c < 0x8000 {
        c as int
    } else {
        c - 0x10000
    }
}

/// How far the map is dragged: columns follow the mouse, rows go against it.
pub open spec fn drag_distance(from: (u16, u16), col: u16, row: u16) -> (int, int) {
    (signed(col) - signed(from.0), -(signed(row) - signed(from.1)))
}

/// The right button is dragged.
pub open spec fn on_drag(s: AppSpec, col: u16, row: u16) -> AppStep {
    if s.right_dragging {
        let t = AppSpec { last_drag: Some((col, row)), ..s };
        match s.last_drag {
            Some(from) => {
                let (dx, dy) = drag_distance(from, col, row);
                (t, seq![AppActionSpec::PanByCells { dx, dy }])
            },
            None => calm(t),
        }
    } else {
        calm(s)
    }
}

/// The mouse on the map.
pub open spec fn on_map_mouse(s: AppSpec, m: MouseEvent, now: u128) -> AppStep {
    match m.kind {
        MouseEventKind::ScrollUp => on_wheel(s, now, AppActionSpec::WheelZoomIn),
        MouseEventKind::ScrollDown => on_wheel(s, now, AppActionSpec::WheelZoomOut),
        MouseEventKind::Down(MouseButton::Right) => calm(
            AppSpec { right_dragging: true, last_drag: Some((m.column, m.row)), ..s },
        ),
        MouseEventKind::Drag(MouseButton::Right) => on_drag(s, m.column, m.row),
        MouseEventKind::Up(MouseButton::Right) => calm(
            AppSpec { right_dragging: false, last_drag: None, ..s },
        ),
        _ => calm(s),
    }
}

pub open spec fn on_mouse(
    s: AppSpec,
    m: MouseEvent,
    now: u128,
    lat: Seq<char>,
    lon: Seq<char>,
) -> AppStep {
    let (t, first) = if m.kind == MouseEventKind::Down(MouseButton::Left) {
        on_click(s, m.column as int, m.row as int, lat, lon)
    } else {
        calm(s)
    };
    if t.map_blocked() {
        (t, first)
    } else {
        let (u, second) = on_map_mouse(t, m, now);
        (u, first + second)
    }
}

/// What an event does to the application itself. `lat` and `lon` are the center of the map.
pub open spec fn event_step(
    s: AppSpec,
    ev: Event,
    now: u128,
    lat: Seq<char>,
    lon: Seq<char>,
) -> AppStep {
    match ev {
        Event::Key(k) => on_key(s, k.code),
        Event::Mouse(m) => on_mouse(s, m, now, lat, lon),
        Event::Other => calm(s),
    }
}

// ---------------------------------------------------------------------------
// Passing events on
// ---------------------------------------------------------------------------

/// The event of a picked station is taken: its stream is shown, and the map goes to its place,
/// if it has one.
pub open spec fn event_taken(s: AppSpec) -> AppStep {
    match s.popup.pending {
        Some(e) => (
            AppSpec {
                station_url: Some(e.station.stream_url),
                popup: PopupSpec { pending: None, ..s.popup },
                ..s
            },
            match (e.station.geo_lat, e.station.geo_long) {
                (Some(lat), Some(lon)) => seq![AppActionSpec::Center { lat, lon }],
                _ => Seq::empty(),
            },
        ),
        None => calm(s),
    }
}

/// An event reaches the radio popup if it is open, and else the map, unless the settings are
/// open.
pub open spec fn forward_step(
    s: AppSpec,
    ev: Event,
    now: u128,
    player_error: Option<Seq<char>>,
) -> AppStep {
    if s.popup.visible {
        let (t, first) = s.with_popup(
            popup_model::input_step(s.popup, MapInput::CEvent(ev), now, player_error),
        );
        let (u, second) = event_taken(t);
        (u, first + second)
    } else if s.settings_visible {
        calm(s)
    } else {
        (
            s,
            match ev {
                Event::Key(k) => if k.control {
                    Seq::empty()
                } else {
                    match input::command_of_key(k.code) {
                        Some(c) => seq![AppActionSpec::Command(c)],
                        None => Seq::empty(),
                    }
                },
                _ => Seq::empty(),
            },
        )
    }
}

// ---------------------------------------------------------------------------
// Drawing
// ---------------------------------------------------------------------------

/// Where everything stands on a screen of this size.
pub open spec fn laid_out(s: AppSpec, area: Rect) -> AppSpec {
    AppSpec {
        layout: layout::layout_of(area, s.radio_installed, s.settings_visible, s.popup.visible),
        ..s
    }
}

/// What is said on a terminal that is too small.
pub open spec fn too_small_text(area: Rect) -> Seq<char> {
    "Terminal too small. Minimum size: "@ + text::decimal(MIN_WIDTH as nat) + "x"@ + text::decimal(
        MIN_HEIGHT as nat,
    ) + " (current "@ + text::decimal(area.width as nat) + "x"@ + text::decimal(area.height as nat)
        + ")"@
}

/// What is drawn below the map: an empty screen and the menu.
pub open spec fn menu_drawing(s: AppSpec, area: Rect) -> Seq<DrawSpec> {
    let x = area.x as int;
    let y = area.y as int;
    let start = seq![DrawSpec::Clear(area)];
    if layout::too_small(area) {
        start.push(
            draw::text_at(x + 2, y + area.height as int / 2, too_small_text(area), Color::Yellow),
        )
    } else {
        let left = start.push(draw::text_at(x, y, " Reset "@, Color::Cyan)).push(
            draw::text_at(x + 7, y, " Settings "@, Color::White),
        );
        let with_radio = if s.radio_installed {
            left.push(
                draw::text_at(
                    x + 17,
                    y,
                    " Radio-map "@,
                    if s.settings.radio_map_enabled {
                        Color::Green
                    } else {
                        Color::DarkGray
                    },
                ),
            )
        } else {
            left
        };
        with_radio.push(draw::text_at(x + area.width - 3, y, "[X]"@, Color::Red))
    }
}

/// The stream of the picked station, on the last line of the map.
pub open spec fn stream_drawing(s: AppSpec) -> Seq<DrawSpec> {
    let c = s.layout.map_content;
    match s.station_url {
        Some(url) => seq![
            draw::text_at(c.x as int, c.y + c.height - 1, " stream: "@ + url, Color::DarkGray),
        ],
        None => Seq::empty(),
    }
}

/// The settings popup.
pub open spec fn settings_drawing(s: AppSpec) -> Seq<DrawSpec> {
    let p = s.layout.settings_popup;
    if s.settings_visible {
        draw::popup_border(p, "Settings"@).push(
            draw::text_at(
                p.x + 2,
                p.y + 2,
                "Radio-map plugin: "@ + (if s.settings.radio_map_enabled {
                    "enabled"@
                } else {
                    "disabled"@
                }),
                Color::White,
            ),
        ).push(
            draw::text_at(
                p.x + 2,
                p.y + 4,
                "Press 't' — enable Radio-map menu. 'e' — prefer external player (mpv)."@,
                Color::DarkGray,
            ),
        ).push(
            draw::text_at(
                p.x + 2,
                p.y + 5,
                "Prefer external player: "@ + (if s.settings.radio_prefer_external_player {
                    "on"@
                } else {
                    "off"@
                }),
                Color::Yellow,
            ),
        )
    } else {
        Seq::empty()
    }
}

/// The radio popup with its border.
pub open spec fn radio_drawing(s: AppSpec) -> Seq<DrawSpec> {
    if s.popup.visible {
        draw::popup_border(s.layout.radio_popup_area, "Radio-map"@) + popup_model::popup_drawing(
            s.popup,
            s.layout.radio_content,
        )
    } else {
        Seq::empty()
    }
}

/// An open radio popup remembers where it was drawn and shows an error of the player.
pub open spec fn shown_in_popup(s: AppSpec, player_error: Option<Seq<char>>) -> AppSpec {
    if s.popup.visible {
        AppSpec {
            popup: popup_model::polled(
                PopupSpec { content: s.layout.radio_content, ..s.popup },
                player_error,
            ),
            ..s
        }
    } else {
        s
    }
}

/// The state after a drawing.
pub open spec fn drawn(s: AppSpec, area: Rect, player_error: Option<Seq<char>>) -> AppSpec {
    let t = laid_out(s, area);
    if t.layout.shown {
        shown_in_popup(t, player_error)
    } else {
        t
    }
}

/// What is drawn above the map.
pub open spec fn overlay_drawing(s: AppSpec) -> Seq<DrawSpec> {
    if s.layout.shown {
        stream_drawing(s) + draw::map_frame(s.layout.map_area) + settings_drawing(s)
            + radio_drawing(s)
    } else {
        Seq::empty()
    }
}

// ---------------------------------------------------------------------------
// Laws
// ---------------------------------------------------------------------------

/// The action moves or zooms the map by hand.
pub open spec fn moves_map(a: AppActionSpec) -> bool {
    a is WheelZoomIn || a is WheelZoomOut || a is PanByCells || a is Command
}

/// While a popup is open the map takes neither mouse nor keys.
pub proof fn law_open_popup_shields_the_map(
    s: AppSpec,
    ev: Event,
    now: u128,
    lat: Seq<char>,
    lon: Seq<char>,
    player_error: Option<Seq<char>>,
)
    ensures
        ({
            let (t, actions) = event_step(s, ev, now, lat, lon);
            t.map_blocked() ==> forall|i: int|
                0 <= i < actions.len() ==> !moves_map(#[trigger] actions[i])
        }),
        s.map_blocked() ==> forall|i: int|
            0 <= i < forward_step(s, ev, now, player_error).1.len() ==> !moves_map(
                #[trigger] forward_step(s, ev, now, player_error).1[i],
            ),
{
}

/// A station that is picked shows its stream, and centers the map on its place exactly if that
/// is known; its event does not come again.
pub proof fn law_picked_station_is_taken_once(s: AppSpec)
    requires
        s.popup.pending is Some,
    ensures
        event_taken(s).0.station_url == Some(s.popup.pending->0.station.stream_url),
        event_taken(s).1.len() == (if s.popup.pending->0.station.has_geo() {
            1nat
        } else {
            0
        }),
        event_taken(event_taken(s).0) == calm(event_taken(s).0),
{
}

/// Between two steps of the wheel that zoom there is at least the allowed interval.
pub proof fn law_wheel_zooms_are_spaced(
    s: AppSpec,
    now: u128,
    later: u128,
    zoom: AppActionSpec,
    next: AppActionSpec,
)
    requires
        on_wheel(s, now, zoom).1.len() > 0,
        on_wheel(on_wheel(s, now, zoom).0, later, next).1.len() > 0,
    ensures
        later >= now + WHEEL_ZOOM_MIN_INTERVAL_NANOS,
{
}

/// The map follows the mouse: dragging there and back moves it there and back, and dragging in
/// two steps moves it as far as dragging in one.
pub proof fn law_drags_add_up(a: (u16, u16), b: (u16, u16), c: (u16, u16))
    ensures
        ({
            let ab = drag_distance(a, b.0, b.1);
            let bc = drag_distance(b, c.0, c.1);
            let ac = drag_distance(a, c.0, c.1);
            let ba = drag_distance(b, a.0, a.1);
            &&& ab.0 + bc.0 == ac.0 && ab.1 + bc.1 == ac.1
            &&& ab.0 + ba.0 == 0 && ab.1 + ba.1 == 0
        }),
{
}

/// Nothing is dragged before the right button goes down nor after it goes up.
pub proof fn law_drag_needs_the_button(s: AppSpec, m: MouseEvent, now: u128, col: u16, row: u16)
    requires
        m.kind == MouseEventKind::Up(MouseButton::Right),
    ensures
        on_drag(on_map_mouse(s, m, now).0, col, row) == calm(on_map_mouse(s, m, now).0),
{
}

/// Settings change only together with being saved, by keys only, and only while they are shown.
pub proof fn law_settings_are_saved(
    s: AppSpec,
    ev: Event,
    now: u128,
    lat: Seq<char>,
    lon: Seq<char>,
)
    ensures
        ({
            let (t, actions) = event_step(s, ev, now, lat, lon);
            t.settings != s.settings ==> {
                &&& s.settings_visible && s.radio_installed
                &&& ev is Key
                &&& actions == seq![AppActionSpec::SaveSettings(t.settings)]
            }
        }),
{
}

/// A toggle pressed twice leaves everything as it was.
pub proof fn law_toggles_undo_themselves(s: AppSpec, c: char)
    requires
        c == 's' || c == 't' || c == 'e',
    ensures
        on_key(on_key(s, KeyCode::Char(c)).0, KeyCode::Char(c)).0 == s,
{
}

/// Escape closes one popup at a time, the radio popup first; twice Escape closes both.
pub proof fn law_escape_closes_one(s: AppSpec)
    ensures
        ({
            let t = on_key(s, KeyCode::Esc).0;
            let u = on_key(t, KeyCode::Esc).0;
            &&& s.popup.visible ==> !t.popup.visible && t.settings_visible == s.settings_visible
            &&& !u.map_blocked()
        }),
{
}

/// The radio popup opens only by its button, and only if the plugin is there and enabled.
pub proof fn law_radio_opens_by_its_button(
    s: AppSpec,
    ev: Event,
    now: u128,
    lat: Seq<char>,
    lon: Seq<char>,
)
    requires
        !s.popup.visible,
        event_step(s, ev, now, lat, lon).0.popup.visible,
    ensures
        s.radio_installed && s.settings.radio_map_enabled,
        ev matches Event::Mouse(m) && s.layout.top_menu_radio.covers(m.column as int, m.row as int),
{
}

/// On a terminal that is too small no button can be hit.
pub proof fn law_nothing_to_click_when_too_small(
    s: AppSpec,
    area: Rect,
    col: int,
    row: int,
    lat: Seq<char>,
    lon: Seq<char>,
)
    requires
        layout::too_small(area),
    ensures
        on_click(laid_out(s, area), col, row, lat, lon) == calm(laid_out(s, area)),
{
}

} // verus!
