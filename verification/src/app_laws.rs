//! What the application does for its user: what the mouse and the keys do, what is passed on, and
//! what is drawn.

use crate::app_model::{self, AppActionSpec, AppSpec};
use crate::application::{self, App, AppAction};
use crate::draw::{self, Color, DrawSpec};
use crate::geometry::Rect;
use crate::input::{
    self, Event, KeyCode, KeyEvent, MapInput, MouseButton, MouseEvent, MouseEventKind,
};
use crate::layout;
use crate::plugin::RadioPlayMode;
use crate::popup_model::{self, ActionSpec, PopupSpec};
use crate::settings::AppSettings;
use crate::text;
use vstd::prelude::*;

verus! {

// ---------------------------------------------------------------------------
// Dragging
// ---------------------------------------------------------------------------

/// The map follows the mouse. On a terminal of up to thirty-two thousand columns and rows, a drag
/// with the right button moves the map by as many columns as the mouse went right and by as many
/// rows as it went up, and the next drag goes on from there.
pub proof fn law_drag_follows_the_mouse(
    s: AppSpec,
    m: MouseEvent,
    px: u16,
    py: u16,
    now: u128,
    lat: Seq<char>,
    lon: Seq<char>,
)
    requires
        m.kind == MouseEventKind::Drag(MouseButton::Right),
        s.right_dragging,
        s.last_drag == Some((px, py)),
        !s.popup.visible,
        !s.settings_visible,
        px < 0x8000 && py < 0x8000 && m.column < 0x8000 && m.row < 0x8000,
    ensures
        ({
            let (t, actions) = app_model::event_step(s, Event::Mouse(m), now, lat, lon);
            &&& t == (AppSpec { last_drag: Some((m.column, m.row)), ..s })
            &&& actions == seq![
                AppActionSpec::PanByCells { dx: m.column - px, dy: py - m.row },
            ]
        }),
        application::drag_fits(s, Event::Mouse(m)),
{
    let (t, actions) = app_model::event_step(s, Event::Mouse(m), now, lat, lon);
    assert(actions =~= seq![AppActionSpec::PanByCells { dx: m.column - px, dy: py - m.row }]);
}

/// A whole drag: pressing the right button, moving the mouse and letting go moves the map by the
/// way of the mouse, once, and nothing is dragged from then on.
pub proof fn law_drag_from_press_to_release(
    s: AppSpec,
    from: (u16, u16),
    to: (u16, u16),
    now: u128,
    lat: Seq<char>,
    lon: Seq<char>,
)
    requires
        !s.popup.visible,
        !s.settings_visible,
        from.0 < 0x8000 && from.1 < 0x8000 && to.0 < 0x8000 && to.1 < 0x8000,
    ensures
        ({
            let at = |kind: MouseEventKind, p: (u16, u16)|
                Event::Mouse(MouseEvent { kind, column: p.0, row: p.1 });
            let right = MouseButton::Right;
            let (a, first) = app_model::event_step(
                s,
                at(MouseEventKind::Down(right), from),
                now,
                lat,
                lon,
            );
            let (b, second) = app_model::event_step(
                a,
                at(MouseEventKind::Drag(right), to),
                now,
                lat,
                lon,
            );
            let (c, third) = app_model::event_step(
                b,
                at(MouseEventKind::Up(right), to),
                now,
                lat,
                lon,
            );
            &&& first.len() == 0
            &&& second == seq![
                AppActionSpec::PanByCells { dx: to.0 - from.0, dy: from.1 - to.1 },
            ]
            &&& third.len() == 0
            &&& c == (AppSpec { right_dragging: false, last_drag: None, ..s })
        }),
{
    let right = MouseButton::Right;
    let down = MouseEvent { kind: MouseEventKind::Down(right), column: from.0, row: from.1 };
    let drag = MouseEvent { kind: MouseEventKind::Drag(right), column: to.0, row: to.1 };
    let a = app_model::event_step(s, Event::Mouse(down), now, lat, lon).0;
    law_drag_follows_the_mouse(a, drag, from.0, from.1, now, lat, lon);
}

/// Coordinates are signed sixteen-bit numbers: from the middle of their range on they count from
/// the negative end. The distance of a drag is that of these numbers, in columns to the right and
/// in rows up, and it can be told where it is such a number itself.
pub proof fn law_distances_of_coordinates(s: AppSpec, m: MouseEvent, from: (u16, u16), ev: Event)
    ensures
        ({
            let number = |c: u16|
                if c < 0x8000 {
                    c as int
                } else {
                    c - 0x10000
                };
            let (dx, dy) = app_model::drag_distance(from, m.column, m.row);
            let drags = m.kind == MouseEventKind::Drag(MouseButton::Right) && s.right_dragging
                && !s.popup.visible && !s.settings_visible;
            &&& app_model::signed(m.column) == number(m.column)
            &&& dx == number(m.column) - number(from.0)
            &&& dy == number(from.1) - number(m.row)
            &&& (!drags || s.last_drag is None) ==> application::drag_fits(s, Event::Mouse(m))
            &&& drags && s.last_drag == Some(from) ==> (application::drag_fits(s, Event::Mouse(m))
                <==> -0x8000 <= dx < 0x8000 && -0x8000 < dy < 0x8000)
            &&& !(ev is Mouse) ==> application::drag_fits(s, ev)
        }),
{
}

// ---------------------------------------------------------------------------
// Keys
// ---------------------------------------------------------------------------

/// What the keys of the application do; all others do nothing.
pub proof fn law_keys_in_full(s: AppSpec, k: KeyEvent, now: u128, lat: Seq<char>, lon: Seq<char>)
    ensures
        ({
            let (t, actions) = app_model::event_step(s, Event::Key(k), now, lat, lon);
            let none = Seq::<AppActionSpec>::empty();
            let key = |c: char| k.code == KeyCode::Char(c);
            let radio = AppSettings {
                radio_map_enabled: !s.settings.radio_map_enabled,
                radio_prefer_external_player: s.settings.radio_prefer_external_player,
            };
            let external = AppSettings {
                radio_map_enabled: s.settings.radio_map_enabled,
                radio_prefer_external_player: !s.settings.radio_prefer_external_player,
            };
            let toggles = s.settings_visible && s.radio_installed;
            &&& k.code is Esc && s.popup.visible ==> t == (AppSpec {
                popup: PopupSpec { visible: false, pending: None, ..s.popup },
                ..s
            }) && actions == seq![AppActionSpec::Popup(ActionSpec::KillExternal)]
            &&& k.code is Esc && !s.popup.visible ==> t == (AppSpec {
                settings_visible: false,
                ..s
            }) && actions == none
            &&& key('q') ==> t == (AppSpec { should_quit: true, ..s }) && actions == none
            &&& key('r') ==> t == s && actions == seq![AppActionSpec::ResetView]
            &&& key('s') ==> t == (AppSpec { settings_visible: !s.settings_visible, ..s }) && actions
                == none
            &&& key('t') && toggles ==> t == (AppSpec { settings: radio, ..s }) && actions == seq![
                AppActionSpec::SaveSettings(radio),
            ]
            &&& key('e') && toggles ==> t == (AppSpec { settings: external, ..s }) && actions
                == seq![AppActionSpec::SaveSettings(external)]
            &&& (key('t') || key('e')) && !toggles ==> t == s && actions == none
            &&& !(k.code is Esc) && !key('q') && !key('r') && !key('s') && !key('t') && !key('e') ==> t
                == s && actions == none
        }),
{
    let (t, actions) = app_model::event_step(s, Event::Key(k), now, lat, lon);
    if k.code is Esc && s.popup.visible {
        assert(actions =~= seq![AppActionSpec::Popup(ActionSpec::KillExternal)]);
    }
}

// ---------------------------------------------------------------------------
// Mouse
// ---------------------------------------------------------------------------

/// What a press of the left button does: the first of the buttons that it hits counts, in the
/// order quit, reset, settings, radio and the closing button of a popup; elsewhere it does
/// nothing.
pub proof fn law_clicks_in_full(
    s: AppSpec,
    m: MouseEvent,
    now: u128,
    lat: Seq<char>,
    lon: Seq<char>,
)
    requires
        m.kind == MouseEventKind::Down(MouseButton::Left),
    ensures
        ({
            let (t, actions) = app_model::event_step(s, Event::Mouse(m), now, lat, lon);
            let none = Seq::<AppActionSpec>::empty();
            let on = |r: Rect| r.covers(m.column as int, m.row as int);
            let l = s.layout;
            let radio = s.radio_installed && s.settings.radio_map_enabled && on(l.top_menu_radio);
            if on(l.top_menu_close) {
                t == (AppSpec { should_quit: true, ..s }) && actions == none
            } else if on(l.top_menu_reset) {
                t == s && actions == seq![AppActionSpec::ResetView]
            } else if on(l.top_menu_settings) {
                t == (AppSpec { settings_visible: !s.settings_visible, ..s }) && actions == none
            } else if radio {
                &&& t == (AppSpec {
                    popup: PopupSpec {
                        visible: true,
                        query: Seq::empty(),
                        results: Seq::empty(),
                        selected: 0,
                        pending: None,
                        status: Some("Type a station name, press Enter to search."@),
                        query_dirty: true,
                        last_search_at: None,
                        in_search_mode: false,
                        center_lat: lat,
                        center_lon: lon,
                        play_mode: if s.settings.radio_prefer_external_player {
                            RadioPlayMode::ExternalPlayer
                        } else {
                            s.popup.play_mode
                        },
                        ..s.popup
                    },
                    ..s
                })
                &&& actions == seq![
                    AppActionSpec::Popup(
                        ActionSpec::FetchNearby {
                            url: s.popup.api_base + "/json/stations/bygeo?lat="@ + lat + "&lng="@
                                + lon + "&limit=20&hidebroken=true"@,
                            report: false,
                        },
                    ),
                ]
            } else if on(l.popup_close_rect) && s.popup.visible {
                &&& t == (AppSpec {
                    settings_visible: false,
                    popup: PopupSpec { visible: false, pending: None, ..s.popup },
                    ..s
                })
                &&& actions == seq![AppActionSpec::Popup(ActionSpec::KillExternal)]
            } else if on(l.popup_close_rect) {
                t == (AppSpec { settings_visible: false, ..s }) && actions == none
            } else {
                t == s && actions == none
            }
        }),
{
    let (t, actions) = app_model::event_step(s, Event::Mouse(m), now, lat, lon);
    let (c, first) = app_model::on_click(s, m.column as int, m.row as int, lat, lon);
    assert(actions =~= first);
    if c.popup.visible && !s.popup.visible {
        assert(first.len() == 1);
    }
    assert(first.len() <= 1);
    if first.len() == 1 {
        assert(first =~= seq![first[0]]);
    }
}

/// What the wheel and the other buttons do. The map takes no notice of the mouse while a popup is
/// open. The wheel zooms, at most once in fifty-five milliseconds; the right button starts and
/// ends dragging; nothing else does anything.
pub proof fn law_map_mouse_in_full(
    s: AppSpec,
    m: MouseEvent,
    now: u128,
    lat: Seq<char>,
    lon: Seq<char>,
)
    requires
        m.kind != MouseEventKind::Down(MouseButton::Left),
    ensures
        ({
            let (t, actions) = app_model::event_step(s, Event::Mouse(m), now, lat, lon);
            let none = Seq::<AppActionSpec>::empty();
            let open = s.popup.visible || s.settings_visible;
            let ready = s.last_wheel_zoom is None || s.last_wheel_zoom->0 + 55_000_000 <= now;
            let zoomed = AppSpec { last_wheel_zoom: Some(now), ..s };
            let right = MouseButton::Right;
            if open {
                t == s && actions == none
            } else {
                match m.kind {
                    MouseEventKind::ScrollUp => if ready {
                        t == zoomed && actions == seq![AppActionSpec::WheelZoomIn]
                    } else {
                        t == s && actions == none
                    },
                    MouseEventKind::ScrollDown => if ready {
                        t == zoomed && actions == seq![AppActionSpec::WheelZoomOut]
                    } else {
                        t == s && actions == none
                    },
                    MouseEventKind::Down(b) => if b == right {
                        t == (AppSpec {
                            right_dragging: true,
                            last_drag: Some((m.column, m.row)),
                            ..s
                        }) && actions == none
                    } else {
                        t == s && actions == none
                    },
                    MouseEventKind::Up(b) => if b == right {
                        t == (AppSpec { right_dragging: false, last_drag: None, ..s }) && actions
                            == none
                    } else {
                        t == s && actions == none
                    },
                    MouseEventKind::Drag(b) => if b == right && s.right_dragging {
                        &&& t == (AppSpec { last_drag: Some((m.column, m.row)), ..s })
                        &&& actions.len() == if s.last_drag is Some {
                            1nat
                        } else {
                            0
                        }
                    } else {
                        t == s && actions == none
                    },
                    MouseEventKind::Other => t == s && actions == none,
                }
            }
        }),
        app_model::event_step(s, Event::Other, now, lat, lon) == (
            s,
            Seq::<AppActionSpec>::empty(),
        ),
{
    let (t, actions) = app_model::event_step(s, Event::Mouse(m), now, lat, lon);
    let second = app_model::on_map_mouse(s, m, now).1;
    assert(Seq::<AppActionSpec>::empty() + second =~= second);
}

// ---------------------------------------------------------------------------
// Passing events on
// ---------------------------------------------------------------------------

/// An open radio popup gets the event, and a station that it picks is taken at once. Else, unless
/// the settings are open, the map gets the command of the key.
pub proof fn law_events_are_passed_on(
    s: AppSpec,
    ev: Event,
    now: u128,
    error: Option<Seq<char>>,
    i: int,
)
    ensures
        ({
            let (t, actions) = app_model::forward_step(s, ev, now, error);
            let (p, asked) = popup_model::input_step(s.popup, MapInput::CEvent(ev), now, error);
            let n = asked.len();
            let none = Seq::<AppActionSpec>::empty();
            &&& s.popup.visible && p.pending is None ==> {
                &&& t == (AppSpec { popup: p, ..s })
                &&& actions.len() == n
                &&& 0 <= i < n ==> actions[i] == AppActionSpec::Popup(asked[i])
            }
            &&& s.popup.visible && p.pending is Some ==> {
                let station = p.pending->0.station;
                let place = station.geo_lat is Some && station.geo_long is Some;
                &&& t == (AppSpec {
                    popup: PopupSpec { pending: None, ..p },
                    station_url: Some(station.stream_url),
                    ..s
                })
                &&& 0 <= i < n ==> actions[i] == AppActionSpec::Popup(asked[i])
                &&& place ==> actions.len() == n + 1 && actions[n as int]
                    == (AppActionSpec::Center {
                    lat: station.geo_lat->0,
                    lon: station.geo_long->0,
                })
                &&& !place ==> actions.len() == n
            }
            &&& !s.popup.visible ==> t == s
            &&& !s.popup.visible && s.settings_visible ==> actions == none
            &&& !s.popup.visible && !s.settings_visible ==> match ev {
                Event::Key(k) => {
                    let c = input::command_of_key(k.code);
                    if k.control || c is None {
                        actions == none
                    } else {
                        actions == seq![AppActionSpec::Command(c->0)]
                    }
                },
                _ => actions == none,
            }
        }),
{
}

/// The whole way of a station: where the radio popup waits for Enter on a selected station, Enter
/// shows that station's stream and brings the map to its place.
pub proof fn law_enter_brings_the_map_there(s: AppSpec, now: u128)
    requires
        s.popup.visible,
        !s.popup.direct_events,
        s.popup.play_mode is PlayInPlugin,
        !s.popup.in_search_mode,
        text::blank(s.popup.query),
        0 <= s.popup.selected < s.popup.nearby.len(),
        s.popup.nearby[s.popup.selected].geo_lat is Some,
        s.popup.nearby[s.popup.selected].geo_long is Some,
    ensures
        ({
            let enter = Event::Key(KeyEvent { code: KeyCode::Enter, control: false });
            let (t, actions) = app_model::forward_step(s, enter, now, None);
            let station = s.popup.nearby[s.popup.selected];
            &&& t.station_url == Some(station.stream_url)
            &&& !t.popup.visible
            &&& actions == seq![
                AppActionSpec::Popup(ActionSpec::Play { url: station.stream_url }),
                AppActionSpec::Center { lat: station.geo_lat->0, lon: station.geo_long->0 },
            ]
        }),
{
    let enter = Event::Key(KeyEvent { code: KeyCode::Enter, control: false });
    let (t, actions) = app_model::forward_step(s, enter, now, None);
    let station = s.popup.nearby[s.popup.selected];
    assert(actions =~= seq![
        AppActionSpec::Popup(ActionSpec::Play { url: station.stream_url }),
        AppActionSpec::Center { lat: station.geo_lat->0, lon: station.geo_long->0 },
    ]);
}

/// Taking the event of a picked station.
pub proof fn law_taking_in_full(s: AppSpec)
    ensures
        s.popup.pending is None ==> app_model::event_taken(s) == (
            s,
            Seq::<AppActionSpec>::empty(),
        ),
        s.popup.pending matches Some(e) ==> {
            let (t, actions) = app_model::event_taken(s);
            &&& t == (AppSpec {
                station_url: Some(e.station.stream_url),
                popup: PopupSpec { pending: None, ..s.popup },
                ..s
            })
            &&& e.station.geo_lat is Some && e.station.geo_long is Some ==> actions == seq![
                AppActionSpec::Center { lat: e.station.geo_lat->0, lon: e.station.geo_long->0 },
            ]
            &&& e.station.geo_lat is None || e.station.geo_long is None ==> actions.len() == 0
        },
{
}

// ---------------------------------------------------------------------------
// Drawing
// ---------------------------------------------------------------------------

/// Laying out changes nothing but where everything stands.
pub proof fn law_layout_follows_the_state(s: AppSpec, area: Rect)
    ensures
        app_model::laid_out(s, area) == (AppSpec {
            layout: layout::layout_of(area, s.radio_installed, s.settings_visible, s.popup.visible),
            ..s
        }),
{
}

/// The menu is drawn where its buttons stand; on a terminal that is too small a line in the middle
/// says how large it has to be, and how large it is.
pub proof fn law_menu_in_full(s: AppSpec, area: Rect)
    ensures
        ({
            let d = app_model::menu_drawing(s, area);
            let at = |x: int, y: int, t: Seq<char>, color: Color|
                DrawSpec::Text { x, y, text: t, color };
            let x = area.x as int;
            let y = area.y as int;
            let close = at(x + area.width - 3, y, "[X]"@, Color::Red);
            &&& d[0] == DrawSpec::Clear(area)
            &&& area.width < 95 || area.height < 35 ==> d.len() == 2 && d[1] == at(
                x + 2,
                y + area.height as int / 2,
                "Terminal too small. Minimum size: "@ + text::decimal(95) + "x"@ + text::decimal(35)
                    + " (current "@ + text::decimal(area.width as nat) + "x"@ + text::decimal(
                    area.height as nat,
                ) + ")"@,
                Color::Yellow,
            )
            &&& area.width >= 95 && area.height >= 35 ==> {
                &&& d[1] == at(x, y, " Reset "@, Color::Cyan)
                &&& d[2] == at(x + 7, y, " Settings "@, Color::White)
                &&& s.radio_installed ==> d.len() == 5 && d[4] == close && d[3] == at(
                    x + 17,
                    y,
                    " Radio-map "@,
                    if s.settings.radio_map_enabled {
                        Color::Green
                    } else {
                        Color::DarkGray
                    },
                )
                &&& !s.radio_installed ==> d.len() == 4 && d[3] == close
            }
        }),
{
}

/// What is drawn above the map: the stream of the picked station on its last line, its frame, and
/// the popups that are open, each in its border, the radio popup last.
pub proof fn law_overlay_in_full(s: AppSpec)
    ensures
        ({
            let at = |x: int, y: int, t: Seq<char>, color: Color|
                DrawSpec::Text { x, y, text: t, color };
            let c = s.layout.map_content;
            let p = s.layout.settings_popup;
            let stream = match s.station_url {
                Some(url) => seq![
                    at(c.x as int, c.y + c.height - 1, " stream: "@ + url, Color::DarkGray),
                ],
                None => Seq::<DrawSpec>::empty(),
            };
            let settings = if s.settings_visible {
                draw::popup_border(p, "Settings"@) + seq![
                    at(
                        p.x + 2,
                        p.y + 2,
                        "Radio-map plugin: "@ + (if s.settings.radio_map_enabled {
                            "enabled"@
                        } else {
                            "disabled"@
                        }),
                        Color::White,
                    ),
                    at(
                        p.x + 2,
                        p.y + 4,
                        "Press 't' — enable Radio-map menu. 'e' — prefer external player (mpv)."@,
                        Color::DarkGray,
                    ),
                    at(
                        p.x + 2,
                        p.y + 5,
                        "Prefer external player: "@ + (if s.settings.radio_prefer_external_player {
                            "on"@
                        } else {
                            "off"@
                        }),
                        Color::Yellow,
                    ),
                ]
            } else {
                Seq::<DrawSpec>::empty()
            };
            let radio = if s.popup.visible {
                draw::popup_border(s.layout.radio_popup_area, "Radio-map"@)
                    + popup_model::popup_drawing(s.popup, s.layout.radio_content)
            } else {
                Seq::<DrawSpec>::empty()
            };
            &&& s.layout.shown ==> app_model::overlay_drawing(s) == stream + draw::map_frame(
                s.layout.map_area,
            ) + settings + radio
            &&& !s.layout.shown ==> app_model::overlay_drawing(s).len() == 0
        }),
{
    let p = s.layout.settings_popup;
    if s.settings_visible {
        let d = app_model::settings_drawing(s);
        let n = draw::popup_border(p, "Settings"@).len() as int;
        assert(d =~= draw::popup_border(p, "Settings"@) + seq![d[n], d[n + 1], d[n + 2]]);
    }
}

/// A drawing lays everything out, and an open radio popup that is drawn remembers where, and shows
/// what the player has to say. Nothing else changes.
pub proof fn law_drawing_changes_little(s: AppSpec, area: Rect, error: Option<Seq<char>>)
    ensures
        ({
            let l = layout::layout_of(
                area,
                s.radio_installed,
                s.settings_visible,
                s.popup.visible,
            );
            app_model::drawn(s, area, error) == (AppSpec {
                layout: l,
                popup: if l.shown && s.popup.visible {
                    PopupSpec {
                        content: l.radio_content,
                        status: match error {
                            Some(e) => Some("Playback: "@ + e),
                            None => s.popup.status,
                        },
                        ..s.popup
                    }
                } else {
                    s.popup
                },
                ..s
            })
        }),
        s.popup.visible ==> app_model::shown_in_popup(s, error) == (AppSpec {
            popup: PopupSpec {
                content: s.layout.radio_content,
                status: match error {
                    Some(e) => Some("Playback: "@ + e),
                    None => s.popup.status,
                },
                ..s.popup
            },
            ..s
        }),
        !s.popup.visible ==> app_model::shown_in_popup(s, error) == s,
{
}

/// Nothing is shown anywhere before the first drawing.
pub proof fn law_nothing_stands_anywhere()
    ensures
        ({
            let none = Rect { x: 0, y: 0, width: 0, height: 0 };
            let l = layout::nothing_shown();
            &&& !l.shown
            &&& l.top_menu_reset == none && l.top_menu_settings == none
            &&& l.top_menu_radio == none && l.top_menu_close == none
            &&& l.map_area == none && l.map_content == none
            &&& l.settings_popup == none && l.radio_popup_area == none
            &&& l.radio_content == none && l.popup_close_rect == none
        }),
{
}

// ---------------------------------------------------------------------------
// Views
// ---------------------------------------------------------------------------

/// The application is what its fields say, and its invariant is that of the radio popup.
pub proof fn law_app_view(a: App)
    ensures
        a@.settings == a.settings,
        a@.radio_installed == a.radio_installed,
        a@.settings_visible == a.settings_popup_visible,
        a@.station_url == text::text_view(a.last_station_url),
        a@.should_quit == a.should_quit,
        a@.right_dragging == a.right_dragging,
        a@.last_drag == a.last_drag,
        a@.last_wheel_zoom == a.last_wheel_zoom,
        a@.layout == a.layout,
        a@.popup == a.radio_popup@,
        a.wf() <==> a.radio_popup.wf(),
{
}

/// A list of actions asks for what each of them asks for, in order.
pub proof fn law_app_actions_are_all_there(v: Seq<AppAction>, i: int)
    requires
        0 <= i < v.len(),
    ensures
        application::asked(v).len() == v.len(),
        ({
            let a = application::asked(v)[i];
            match v[i] {
                AppAction::ResetView => a is ResetView,
                AppAction::SaveSettings(s) => a == AppActionSpec::SaveSettings(s),
                AppAction::WheelZoomIn => a is WheelZoomIn,
                AppAction::WheelZoomOut => a is WheelZoomOut,
                AppAction::PanByCells { dx, dy } => a == (AppActionSpec::PanByCells {
                    dx: dx as int,
                    dy: dy as int,
                }),
                AppAction::Command(c) => a == AppActionSpec::Command(c),
                AppAction::Center { lat, lon } => a == (AppActionSpec::Center { lat, lon }),
                AppAction::Popup(p) => a == AppActionSpec::Popup(p@),
            }
        }),
{
}

} // verus!
