//! What the radio popup does for its user: which station a key or a click picks, what is asked of
//! the directory, and what is shown.

use crate::draw::{Color, DrawSpec};
use crate::geometry::Rect;
use crate::input::{Event, KeyCode, KeyEvent, MapInput, MouseButton, MouseEvent, MouseEventKind};
use crate::plugin::{
    self, EventSpec, PluginEvent, RadioPlayMode, StationInfo, StationResponse, StationSelected,
    StationSelectedAction, StationSpec,
};
use crate::popup::{self, PopupAction, RadioBrowserPopup};
use crate::popup_model::{self, ActionSpec, PopupSpec};
use crate::text;
use vstd::prelude::*;
use vstd::utf8;

verus! {

// ---------------------------------------------------------------------------
// Stations
// ---------------------------------------------------------------------------

/// Every entry of an answer becomes a station, in the order of the answer: it keeps its identifier,
/// its name and its coordinates, and its stream is the resolved address, or the plain one where
/// the resolved one has no character but white space.
pub proof fn law_every_answer_is_listed(v: Seq<StationResponse>, i: int)
    ensures
        plugin::stations_of(v).len() == v.len(),
        0 <= i < v.len() ==> {
            let s = plugin::stations_of(v)[i];
            let r = v[i];
            &&& s.station_uuid == r.stationuuid@
            &&& s.name == r.name@
            &&& s.geo_lat == r.geo_lat
            &&& s.geo_long == r.geo_long
            &&& (exists|k: int|
                0 <= k < r.url_resolved@.len() && !text::is_white(#[trigger] r.url_resolved@[k]))
                ==> s.stream_url == r.url_resolved@
            &&& (forall|k: int|
                0 <= k < r.url_resolved@.len() ==> text::is_white(#[trigger] r.url_resolved@[k]))
                ==> s.stream_url == r.url@
        },
{
}

/// A list of stations holds all of them, in order, and a station holds what its fields hold.
pub proof fn law_stations_are_all_there(v: Seq<StationInfo>, i: int)
    ensures
        plugin::stations(v).len() == v.len(),
        0 <= i < v.len() ==> {
            let s = plugin::stations(v)[i];
            &&& s.station_uuid == v[i].station_uuid@
            &&& s.name == v[i].name@
            &&& s.stream_url == v[i].stream_url@
            &&& s.geo_lat == v[i].geo_lat
            &&& s.geo_long == v[i].geo_long
            &&& s == v[i]@
        },
{
}

/// A station has a place where both of its coordinates are known.
pub proof fn law_places_have_two_coordinates(s: StationSpec)
    ensures
        s.has_geo() <==> !(s.geo_lat is None || s.geo_long is None),
{
}

/// An event says which station was picked, and what its play mode asks for.
pub proof fn law_events_say_what_was_picked(
    station: StationInfo,
    mode: RadioPlayMode,
    x: StationSelected,
    e: PluginEvent,
)
    ensures
        plugin::picked(station@, mode).station == station@,
        plugin::picked(station@, mode).action is PlayInPlugin <==> mode is PlayInPlugin,
        plugin::picked(station@, mode).action is UrlOnly <==> mode is UrlOnly,
        plugin::picked(station@, mode).action is ExternalPlayer <==> mode is ExternalPlayer,
        plugin::action_of(mode) == plugin::picked(station@, mode).action,
        PluginEvent::StationSelected(x)@.station == x.station@,
        PluginEvent::StationSelected(x)@.action == x.action,
        plugin::event_view(Some(e)) == Some(e@),
        plugin::event_view(None) is None,
{
}

// ---------------------------------------------------------------------------
// Picking
// ---------------------------------------------------------------------------

/// Enter picks the highlighted station. In the nearby list without a query, and in the search list
/// with a query that was looked up, Enter announces the very station at the selected place of the
/// list, plays or hands on its stream, and says so; on the screen that station is the one whose
/// row is marked, and no other row is.
pub proof fn law_enter_picks_the_highlighted(s: PopupSpec, now: u128, area: Rect, i: int)
    requires
        s.visible,
        (text::blank(s.query) && !s.in_search_mode) || (!text::blank(s.query) && s.in_search_mode
            && !s.query_dirty),
        0 <= s.selected < (if s.in_search_mode {
            s.results
        } else {
            s.nearby
        }).len(),
        area.height > 10,
    ensures
        ({
            let enter = MapInput::CEvent(
                Event::Key(KeyEvent { code: KeyCode::Enter, control: false }),
            );
            let (t, actions) = popup_model::input_step(s, enter, now, None);
            let list = if s.in_search_mode {
                s.results
            } else {
                s.nearby
            };
            let station = list[s.selected];
            let event = EventSpec {
                station,
                action: match s.play_mode {
                    RadioPlayMode::PlayInPlugin => StationSelectedAction::PlayInPlugin,
                    RadioPlayMode::UrlOnly => StationSelectedAction::UrlOnly,
                    RadioPlayMode::ExternalPlayer => StationSelectedAction::ExternalPlayer,
                },
            };
            let place = station.geo_lat is Some && station.geo_long is Some;
            let rows = popup_model::list_drawing(s, area);
            let k = if s.selected < 5 {
                s.selected
            } else {
                5
            };
            &&& s.direct_events ==> actions.len() >= 1 && actions[0] == ActionSpec::Send(event)
            &&& !s.direct_events ==> t.pending == Some(event)
            &&& s.play_mode is PlayInPlugin ==> {
                &&& t.now_playing == Some(station.stream_url)
                &&& actions.len() >= 1
                &&& actions.last() == ActionSpec::Play { url: station.stream_url }
                &&& t.visible == !place
            }
            &&& s.play_mode is UrlOnly ==> {
                &&& t.now_playing == Some(station.stream_url)
                &&& t.visible == !place
            }
            &&& s.play_mode is ExternalPlayer ==> {
                &&& actions.len() >= 1
                &&& actions.last() == ActionSpec::SpawnExternal {
                    exe: s.player_exe,
                    url: station.stream_url,
                    has_geo: place,
                }
            }
            &&& 0 <= k < rows.len()
            &&& rows[k] == (DrawSpec::Text {
                x: area.x as int,
                y: area.y + 5 + k,
                text: ">"@ + " "@ + station.name,
                color: Color::Yellow,
            })
            &&& 0 <= i < rows.len() && i != k ==> rows[i] == (DrawSpec::Text {
                x: area.x as int,
                y: area.y + 5 + i,
                text: " "@ + " "@ + list[s.selected - k + i].name,
                color: Color::DarkGray,
            })
        }),
{
}

/// Enter does nothing in the search list without a query, nor where no station is selected.
pub proof fn law_enter_without_a_station(s: PopupSpec, now: u128)
    requires
        (text::blank(s.query) && s.in_search_mode) || (text::blank(s.query) && s.selected
            >= s.nearby.len()) || (!text::blank(s.query) && s.in_search_mode && !s.query_dirty
            && s.selected >= s.results.len()),
    ensures
        popup_model::key_step(s, KeyCode::Enter, now) == (s, Seq::<ActionSpec>::empty()),
{
}

/// All that picking a station does. It is announced with its play mode. The native player gets its
/// stream; with the plain address nothing is started; the external player is started once what
/// was playing has ended. A station with a place closes the popup, and one without says so.
pub proof fn law_picking_in_full(s: PopupSpec, station: StationSpec)
    ensures
        ({
            let (t, actions) = popup_model::emitted(s, station);
            let place = station.geo_lat is Some && station.geo_long is Some;
            let event = |action: StationSelectedAction| EventSpec { station, action };
            let waiting = |action: StationSelectedAction|
                if s.direct_events {
                    s.pending
                } else {
                    Some(event(action))
                };
            let sent = |action: StationSelectedAction|
                if s.direct_events {
                    seq![ActionSpec::Send(event(action))]
                } else {
                    Seq::<ActionSpec>::empty()
                };
            let url = station.stream_url;
            let note = " (no station geo — map not centered)"@;
            match s.play_mode {
                RadioPlayMode::PlayInPlugin => {
                    let told = "Playing stream (native). p: pause, +/- volume."@;
                    let a = StationSelectedAction::PlayInPlugin;
                    &&& t == (PopupSpec {
                        pending: waiting(a),
                        now_playing: Some(url),
                        status: Some(
                            if place {
                                told
                            } else {
                                told + note
                            },
                        ),
                        visible: s.visible && !place,
                        ..s
                    })
                    &&& actions == sent(a) + seq![ActionSpec::Play { url }]
                },
                RadioPlayMode::UrlOnly => {
                    let told = "URL only — stream not started."@;
                    let a = StationSelectedAction::UrlOnly;
                    &&& t == (PopupSpec {
                        pending: waiting(a),
                        now_playing: Some(url),
                        status: Some(
                            if place {
                                told
                            } else {
                                told + note
                            },
                        ),
                        visible: s.visible && !place,
                        ..s
                    })
                    &&& actions == sent(a)
                },
                RadioPlayMode::ExternalPlayer => {
                    let a = StationSelectedAction::ExternalPlayer;
                    &&& t == (PopupSpec { pending: waiting(a), ..s })
                    &&& actions == sent(a) + seq![
                        ActionSpec::StopPlayback,
                        ActionSpec::KillExternal,
                        ActionSpec::SpawnExternal { exe: s.player_exe, url, has_geo: place },
                    ]
                },
            }
        }),
{
    let (t, actions) = popup_model::emitted(s, station);
    let place = station.geo_lat is Some && station.geo_long is Some;
    let url = station.stream_url;
    let event = plugin::picked(station, s.play_mode);
    let sent = if s.direct_events {
        seq![ActionSpec::Send(event)]
    } else {
        Seq::<ActionSpec>::empty()
    };
    match s.play_mode {
        RadioPlayMode::PlayInPlugin => {
            assert(actions =~= sent + seq![ActionSpec::Play { url }]);
        },
        RadioPlayMode::UrlOnly => {
            assert(actions =~= sent);
        },
        RadioPlayMode::ExternalPlayer => {
            assert(actions =~= sent + seq![
                ActionSpec::StopPlayback,
                ActionSpec::KillExternal,
                ActionSpec::SpawnExternal { exe: s.player_exe, url, has_geo: place },
            ]);
        },
    }
}

/// Once the external player was started, or was not, the popup says so and goes on as after any
/// other pick.
pub proof fn law_external_start_in_full(
    s: PopupSpec,
    url: Seq<char>,
    place: bool,
    failure: Option<Seq<char>>,
)
    ensures
        ({
            let told = match failure {
                None => "Playing in "@ + s.player_exe + " (external)."@,
                Some(e) => "External player: "@ + s.player_exe + ": "@ + e,
            };
            popup_model::spawned(s, url, place, failure) == (PopupSpec {
                now_playing: Some(url),
                status: Some(
                    if place {
                        told
                    } else {
                        told + " (no station geo — map not centered)"@
                    },
                ),
                visible: s.visible && !place,
                ..s
            })
        }),
        popup_model::after_pick(PopupSpec { status: None, ..s }, place) == (PopupSpec {
            status: if place {
                None
            } else {
                Some("No station geo — map not centered."@)
            },
            visible: s.visible && !place,
            ..s
        }),
{
}

// ---------------------------------------------------------------------------
// Searching
// ---------------------------------------------------------------------------

/// Enter with a query that still has to be looked up. Within nine tenths of a second of the last
/// request it only asks for patience. Else the time is noted, and in the nearby list the stations
/// around the map are asked for, while in the search list a remembered answer is shown at once and
/// the directory is asked for any other.
pub proof fn law_enter_looks_the_query_up(s: PopupSpec, now: u128)
    requires
        !text::blank(s.query),
        s.query_dirty || !s.in_search_mode,
    ensures
        ({
            let (t, actions) = popup_model::key_step(s, KeyCode::Enter, now);
            let patience = s.last_search_at is Some && now < s.last_search_at->0 + 900_000_000;
            let nearby = s.api_base + "/json/stations/bygeo?lat="@ + s.center_lat + "&lng="@
                + s.center_lon + "&limit=20&hidebroken=true"@;
            let search = s.api_base + "/json/stations/search?name="@ + text::percent_encoded(
                utf8::encode_utf8(s.query),
            ) + "&limit=15&hidebroken=true&has_geo_info=true"@;
            if patience {
                &&& t == (PopupSpec {
                    status: Some("Please wait a moment before searching again."@),
                    ..s
                })
                &&& actions.len() == 0
            } else if !s.in_search_mode {
                &&& t == (PopupSpec {
                    last_search_at: Some(now),
                    status: Some("Loading nearby stations…"@),
                    ..s
                })
                &&& actions == seq![ActionSpec::FetchNearby { url: nearby, report: true }]
            } else if s.cache.contains_key(s.query) {
                &&& t == (PopupSpec {
                    last_search_at: Some(now),
                    results: s.cache[s.query],
                    query_dirty: false,
                    status: None,
                    selected: 0,
                    ..s
                })
                &&& actions.len() == 0
            } else {
                &&& t == (PopupSpec {
                    last_search_at: Some(now),
                    status: Some("Searching…"@),
                    ..s
                })
                &&& actions == seq![ActionSpec::Search { url: search }]
            }
        }),
{
}

/// A query that is looked up shows all that is remembered of it, or is asked for at its address.
pub proof fn law_lookup_in_full(s: PopupSpec)
    ensures
        s.cache.contains_key(s.query) ==> popup_model::searched(s) == (
            PopupSpec { results: s.cache[s.query], query_dirty: false, status: None, ..s },
            None::<Seq<char>>,
        ),
        !s.cache.contains_key(s.query) ==> popup_model::searched(s) == (
            s,
            Some(
                s.api_base + "/json/stations/search?name="@ + text::percent_encoded(
                    utf8::encode_utf8(s.query),
                ) + "&limit=15&hidebroken=true&has_geo_info=true"@,
            ),
        ),
{
}

/// An answer is shown whole: all stations that came, in order, in the list that they were asked
/// for. A request that the user started clears the status and goes to the top of the list.
pub proof fn law_answers_are_shown_whole(s: PopupSpec, report: bool, found: Seq<StationSpec>)
    ensures
        popup_model::nearby_answer(s, report, found) == (PopupSpec {
            nearby: found,
            in_search_mode: false,
            query_dirty: false,
            status: if report {
                None
            } else {
                s.status
            },
            selected: if report {
                0
            } else {
                s.selected
            },
            ..s
        }),
        ({
            let t = popup_model::search_answer(s, found);
            &&& t == (PopupSpec {
                results: found,
                in_search_mode: true,
                query_dirty: false,
                status: None,
                selected: 0,
                cache: t.cache,
                ..s
            })
            &&& t.cache.contains_pair(s.query, found)
            &&& s.cache.len() <= 10 ==> forall|q: Seq<char>|
                q != s.query ==> (t.cache.contains_key(q) <==> #[trigger] s.cache.contains_key(q))
                    && (s.cache.contains_key(q) ==> t.cache[q] == s.cache[q])
            &&& s.cache.len() > 10 ==> forall|q: Seq<char>|
                q != s.query ==> !#[trigger] t.cache.contains_key(q)
        }),
{
}

/// The whole way of an answer: the station at a place of the answer is at the same place of the
/// list, and Enter picks it there.
pub proof fn law_answered_stations_can_be_picked(
    s: PopupSpec,
    v: Seq<StationResponse>,
    now: u128,
    i: int,
)
    requires
        0 <= i < v.len(),
        s.visible,
        !s.direct_events,
        !text::blank(s.query),
    ensures
        ({
            let shown = popup_model::search_answer(s, plugin::stations_of(v));
            let (t, _) = popup_model::key_step(
                PopupSpec { selected: i, ..shown },
                KeyCode::Enter,
                now,
            );
            &&& shown.results.len() == v.len()
            &&& t.pending matches Some(e) && e.station.name == v[i].name@ && e.station.station_uuid
                == v[i].stationuuid@ && e.station.stream_url == (if text::blank(
                v[i].url_resolved@,
            ) {
                v[i].url@
            } else {
                v[i].url_resolved@
            })
        }),
{
}

// ---------------------------------------------------------------------------
// Opening, closing and keys
// ---------------------------------------------------------------------------

/// A popup that was never opened is hidden and empty, plays in the plugin, and knows its directory,
/// its place and its external player.
pub proof fn law_fresh_popup(exe: Option<Seq<char>>)
    ensures
        ({
            let s = popup_model::fresh(exe);
            &&& !s.visible && s.play_mode is PlayInPlugin && s.query.len() == 0
            &&& s.results.len() == 0 && s.nearby.len() == 0 && s.selected == 0
            &&& s.pending is None && !s.direct_events && s.status is None
            &&& s.query_dirty && !s.in_search_mode
            &&& s.center_lat == "20"@ && s.center_lon == "0"@
            &&& s.now_playing is None && s.last_search_at is None
            &&& forall|q: Seq<char>| !#[trigger] s.cache.contains_key(q)
            &&& s.api_base == "https://api.radio-browser.info"@
            &&& s.content == (Rect { x: 0, y: 0, width: 0, height: 0 })
            &&& s.player_exe == match exe {
                Some(e) => e,
                None => "mpv"@,
            }
        }),
{
}

/// Opening shows the popup anew, in the nearby list, and asks for the stations around the map;
/// what plays, the mode and what is remembered stay. Closing hides it and ends the external
/// player.
pub proof fn law_opening_and_closing(s: PopupSpec)
    ensures
        popup_model::opened(s) == (
            PopupSpec {
                visible: true,
                query: Seq::empty(),
                results: Seq::empty(),
                selected: 0,
                pending: None,
                status: Some("Type a station name, press Enter to search."@),
                query_dirty: true,
                last_search_at: None,
                in_search_mode: false,
                ..s
            },
            seq![
                ActionSpec::FetchNearby {
                    url: s.api_base + "/json/stations/bygeo?lat="@ + s.center_lat + "&lng="@
                        + s.center_lon + "&limit=20&hidebroken=true"@,
                    report: false,
                },
            ],
        ),
        popup_model::closed(s) == (
            PopupSpec { visible: false, pending: None, ..s },
            seq![ActionSpec::KillExternal],
        ),
{
}

/// What the keys other than Enter and characters do.
pub proof fn law_control_keys_in_full(s: PopupSpec, code: KeyCode, now: u128)
    ensures
        ({
            let (t, actions) = popup_model::key_step(s, code, now);
            let list = if s.in_search_mode {
                s.results
            } else {
                s.nearby
            };
            match code {
                KeyCode::Esc => {
                    &&& t == (PopupSpec { visible: false, pending: None, ..s })
                    &&& actions == seq![ActionSpec::KillExternal]
                },
                KeyCode::Tab => {
                    &&& t == (PopupSpec { in_search_mode: !s.in_search_mode, selected: 0, ..s })
                    &&& !s.in_search_mode ==> actions.len() == 0
                    &&& s.in_search_mode ==> actions == seq![
                        ActionSpec::FetchNearby {
                            url: s.api_base + "/json/stations/bygeo?lat="@ + s.center_lat
                                + "&lng="@ + s.center_lon + "&limit=20&hidebroken=true"@,
                            report: false,
                        },
                    ]
                },
                KeyCode::Up => {
                    &&& t == (PopupSpec {
                        selected: if s.selected > 0 {
                            s.selected - 1
                        } else {
                            s.selected
                        },
                        ..s
                    })
                    &&& actions.len() == 0
                },
                KeyCode::Down => {
                    &&& t == (PopupSpec {
                        selected: if s.selected + 1 < list.len() {
                            s.selected + 1
                        } else {
                            s.selected
                        },
                        ..s
                    })
                    &&& actions.len() == 0
                },
                KeyCode::Backspace => {
                    &&& s.query.len() == 0 ==> t == (PopupSpec { query_dirty: true, ..s })
                    &&& s.query.len() > 0 ==> t == (PopupSpec {
                        query: s.query.subrange(0, s.query.len() - 1),
                        query_dirty: true,
                        ..s
                    })
                    &&& actions.len() == 0
                },
                KeyCode::Left | KeyCode::Right | KeyCode::Other => t == s && actions.len() == 0,
                KeyCode::Enter | KeyCode::Char(_) => true,
            }
        }),
{
    if s.query.len() > 0 {
        assert(s.query.drop_last() =~= s.query.subrange(0, s.query.len() - 1));
    }
}

/// What the character keys do: seven control playback, and all others are typed into the query and
/// turn to the search list.
pub proof fn law_character_keys_in_full(s: PopupSpec, c: char, now: u128)
    ensures
        ({
            let (t, actions) = popup_model::key_step(s, KeyCode::Char(c), now);
            let native = s.play_mode is PlayInPlugin;
            let none = Seq::<ActionSpec>::empty();
            &&& c == 'x' ==> t == (PopupSpec {
                now_playing: None,
                status: Some("Playback stopped."@),
                ..s
            }) && actions == seq![ActionSpec::StopPlayback, ActionSpec::KillExternal]
            &&& c == 'p' && native ==> t == s && actions == seq![ActionSpec::TogglePause]
            &&& c == 'p' && !native ==> t == (PopupSpec {
                status: Some("Pause only applies to native (in-plugin) playback."@),
                ..s
            }) && actions == none
            &&& c == '+' || c == '=' ==> t == s && actions == (if native {
                seq![ActionSpec::VolumeUp]
            } else {
                none
            })
            &&& c == '-' || c == '_' ==> t == s && actions == (if native {
                seq![ActionSpec::VolumeDown]
            } else {
                none
            })
            &&& c == 'm' ==> actions == none && match s.play_mode {
                RadioPlayMode::PlayInPlugin => t == (PopupSpec {
                    play_mode: RadioPlayMode::UrlOnly,
                    status: Some("Mode: "@ + "UrlOnly"@),
                    ..s
                }),
                RadioPlayMode::UrlOnly => t == (PopupSpec {
                    play_mode: RadioPlayMode::ExternalPlayer,
                    status: Some("Mode: "@ + "ExternalPlayer"@),
                    ..s
                }),
                RadioPlayMode::ExternalPlayer => t == (PopupSpec {
                    play_mode: RadioPlayMode::PlayInPlugin,
                    status: Some("Mode: "@ + "PlayInPlugin"@),
                    ..s
                }),
            }
            &&& c != 'x' && c != 'p' && c != '+' && c != '=' && c != '-' && c != '_' && c != 'm'
                ==> t == (PopupSpec {
                query: s.query.push(c),
                query_dirty: true,
                in_search_mode: true,
                ..s
            }) && actions == none
        }),
{
}

/// An open popup first shows what the player has to say, and then does what the input asks for;
/// keys held with control, ticks and other events ask for nothing.
pub proof fn law_inputs_in_full(
    s: PopupSpec,
    k: KeyEvent,
    m: MouseEvent,
    now: u128,
    error: Option<Seq<char>>,
)
    requires
        s.visible,
    ensures
        ({
            let t = match error {
                Some(e) => PopupSpec { status: Some("Playback: "@ + e), ..s },
                None => s,
            };
            let none = Seq::<ActionSpec>::empty();
            let step = |input: MapInput| popup_model::input_step(s, input, now, error);
            &&& popup_model::polled(s, error) == t
            &&& step(MapInput::Tick) == (t, none)
            &&& step(MapInput::CEvent(Event::Other)) == (t, none)
            &&& step(MapInput::CEvent(Event::Mouse(m))) == popup_model::mouse_step(t, m)
            &&& k.control ==> step(MapInput::CEvent(Event::Key(k))) == (t, none)
            &&& !k.control ==> step(MapInput::CEvent(Event::Key(k))) == popup_model::key_step(
                t,
                k.code,
                now,
            )
        }),
{
}

/// A status line is all that telling the user something changes.
pub proof fn law_telling_changes_the_status_alone(s: PopupSpec, status: Seq<char>)
    ensures
        s.says(status) == (PopupSpec { status: Some(status), ..s }),
{
}

// ---------------------------------------------------------------------------
// Mouse
// ---------------------------------------------------------------------------

/// What the mouse does. A button on the list hits the station so many rows below the first shown
/// one, which is five above the selected one or the first of all; left selects it, right selects
/// and picks it. Elsewhere, and where nothing was drawn yet, a button does nothing.
pub proof fn law_mouse_in_full(s: PopupSpec, m: MouseEvent)
    requires
        0 <= s.selected,
    ensures
        ({
            let t = popup_model::mouse_step(s, m);
            let c = s.content;
            let none = Seq::<ActionSpec>::empty();
            let list = if s.in_search_mode {
                s.results
            } else {
                s.nearby
            };
            let top = if s.selected > 5 {
                s.selected - 5
            } else {
                0
            };
            let i = top + m.row - c.y - 5;
            let hit = c.x <= m.column < c.x + c.width && c.y + 5 <= m.row < c.y + c.height && i
                < list.len();
            let drawn = c.width != 0 && c.height != 0;
            &&& !drawn ==> t == (s, none)
            &&& drawn && m.kind is ScrollUp ==> t == (
                PopupSpec {
                    selected: if s.selected > 0 {
                        s.selected - 1
                    } else {
                        0
                    },
                    ..s
                },
                none,
            )
            &&& drawn && m.kind is ScrollDown ==> t == (
                PopupSpec {
                    selected: if s.selected + 1 < list.len() {
                        s.selected + 1
                    } else {
                        s.selected
                    },
                    ..s
                },
                none,
            )
            &&& drawn && m.kind == MouseEventKind::Down(MouseButton::Left) && hit ==> t == (
                PopupSpec { selected: i, ..s },
                none,
            )
            &&& drawn && m.kind == MouseEventKind::Down(MouseButton::Right) && hit ==> t
                == popup_model::emitted(PopupSpec { selected: i, ..s }, list[i])
            &&& !hit && !(m.kind is ScrollUp) && !(m.kind is ScrollDown) ==> t == (s, none)
            &&& !(m.kind is ScrollUp) && !(m.kind is ScrollDown) && m.kind != MouseEventKind::Down(
                MouseButton::Left,
            ) && m.kind != MouseEventKind::Down(MouseButton::Right) ==> t == (s, none)
        }),
{
}

// ---------------------------------------------------------------------------
// Drawing
// ---------------------------------------------------------------------------

/// The lines above the list.
pub proof fn law_header_in_full(s: PopupSpec)
    ensures
        ({
            let h = popup_model::header(s);
            &&& h.len() == if s.now_playing is Some {
                6nat
            } else {
                5nat
            }
            &&& h[0] == "Radio Browser  (m mode · Tab · Esc · mouse: wheel scroll, R-click play)"@
            &&& h[1] == "Mode: "@ + (if s.in_search_mode {
                "Search"@
            } else {
                "Nearby (20)"@
            })
            &&& h[2] == "Query: "@ + s.query
            &&& h[3] == "Playback: "@ + (match s.play_mode {
                RadioPlayMode::PlayInPlugin => "PlayInPlugin"@,
                RadioPlayMode::UrlOnly => "UrlOnly"@,
                RadioPlayMode::ExternalPlayer => "ExternalPlayer"@,
            }) + "  (env OPENRUSTMAP_RADIO_PLAYER, default mpv)"@
            &&& s.status matches Some(status) ==> h[4] == status
            &&& s.status is None ==> h[4]
                == "Enter pick · ↑↓ · x stop · p pause(native) · +/- vol"@
            &&& s.now_playing matches Some(url) ==> h[5] == "Now playing: "@ + url
        }),
{
}

/// The drawing clears its area, writes the header from the top as far as there is room, and below
/// its first five lines the list: from five above the selected station on, as many as there are
/// and fit, each on a row of its own.
pub proof fn law_drawing_in_full(s: PopupSpec, area: Rect, i: int)
    requires
        0 <= s.selected,
    ensures
        ({
            let d = popup_model::popup_drawing(s, area);
            let h = popup_model::header(s);
            let list = if s.in_search_mode {
                s.results
            } else {
                s.nearby
            };
            let top = if s.selected > 5 {
                s.selected - 5
            } else {
                0
            };
            let lines = if h.len() < area.height {
                h.len() as int
            } else {
                area.height as int
            };
            let rows = d.len() - 1 - lines;
            &&& d[0] == DrawSpec::Clear(area)
            &&& 0 <= i < lines ==> d[1 + i] == (DrawSpec::Text {
                x: area.x as int,
                y: area.y + i,
                text: h[i],
                color: Color::White,
            })
            &&& 0 <= rows
            &&& rows > 0 ==> rows <= area.height - 5 && top + rows <= list.len()
            &&& rows >= area.height - 5 || top + rows >= list.len()
            &&& 0 <= i < rows ==> d[1 + lines + i] == (DrawSpec::Text {
                x: area.x as int,
                y: area.y + 5 + i,
                text: (if top + i == s.selected {
                    ">"@
                } else {
                    " "@
                }) + " "@ + list[top + i].name,
                color: if top + i == s.selected {
                    Color::Yellow
                } else {
                    Color::DarkGray
                },
            })
        }),
{
}

// ---------------------------------------------------------------------------
// Views
// ---------------------------------------------------------------------------

/// The popup is what its fields say.
pub proof fn law_popup_view(p: RadioBrowserPopup, query: Seq<char>)
    ensures
        p@.visible == p.visible,
        p@.play_mode == p.play_mode,
        p@.query == p.query@,
        p@.results == plugin::stations(p.results@),
        p@.nearby == plugin::stations(p.nearby_results@),
        p@.selected == p.selected,
        p@.pending == plugin::event_view(p.pending_event),
        p@.direct_events == p.direct_events,
        p@.status == text::text_view(p.status),
        p@.query_dirty == p.query_dirty,
        p@.in_search_mode == p.in_search_mode,
        p@.center_lat == p.map_center_lat@,
        p@.center_lon == p.map_center_lon@,
        p@.now_playing == text::text_view(p.now_playing_url),
        p@.last_search_at == p.last_search_at,
        p@.cache.contains_key(query) <==> p.result_cache@.contains_key(query),
        p.result_cache@.contains_key(query) ==> p@.cache[query] == plugin::stations(
            p.result_cache@[query]@,
        ),
        p@.api_base == p.api_base_url@,
        p@.content == p.last_content_rect,
        p@.player_exe == p.external_player_exe@,
{
}

/// The popup can be used in every state that its users bring it to.
pub proof fn law_popup_invariant(p: RadioBrowserPopup, area: Rect)
    ensures
        p.wf() <==> {
            &&& p.selected < usize::MAX
            &&& popup::drawable_area(p.last_content_rect)
            &&& p.result_cache@.dom().finite()
            &&& p.result_cache@.len() <= 11
        },
        popup::drawable_area(area) <==> area.x + area.width <= 65535 && area.y + area.height
            <= 65535 && area.y <= 65530,
{
}

/// A list of actions asks for what each of them asks for, in order.
pub proof fn law_actions_are_all_there(v: Seq<PopupAction>, i: int)
    requires
        0 <= i < v.len(),
    ensures
        popup::asked(v).len() == v.len(),
        ({
            let a = popup::asked(v)[i];
            match v[i] {
                PopupAction::StopPlayback => a is StopPlayback,
                PopupAction::KillExternal => a is KillExternal,
                PopupAction::TogglePause => a is TogglePause,
                PopupAction::VolumeUp => a is VolumeUp,
                PopupAction::VolumeDown => a is VolumeDown,
                PopupAction::FetchNearby { url, report } => a == (ActionSpec::FetchNearby {
                    url: url@,
                    report,
                }),
                PopupAction::Search { url } => a == (ActionSpec::Search { url: url@ }),
                PopupAction::Send(e) => a == ActionSpec::Send(e@),
                PopupAction::Play { url } => a == (ActionSpec::Play { url: url@ }),
                PopupAction::SpawnExternal { exe, url, has_geo } => a
                    == (ActionSpec::SpawnExternal { exe: exe@, url: url@, has_geo }),
            }
        }),
{
}

} // verus!
