use openrustmap::draw::{Color, DrawOp};
use openrustmap::geometry::Rect;
use openrustmap::input::{
    Event, KeyCode, KeyEvent, MapInput, MouseButton, MouseEvent, MouseEventKind,
};
use openrustmap::player::RadioEngine;
use openrustmap::plugin::{
    directory_status_error, stations_from_response, Degrees, PluginEvent, RadioBrowserPlugin,
    RadioPlayMode, StationInfo, StationResponse, StationSelected, StationSelectedAction,
};
use openrustmap::popup::{external_player_args, PopupAction, RadioBrowserPopup};

const MS: u128 = 1_000_000;
const AREA: Rect = Rect { x: 2, y: 3, width: 40, height: 12 };

fn deg(v: f64) -> Option<Degrees> {
    Some(Degrees { bits: v.to_bits() })
}

fn answer(name: &str, geo: bool) -> StationResponse {
    StationResponse {
        stationuuid: format!("id-{name}"),
        name: name.to_string(),
        url_resolved: format!("http://r/{name}"),
        url: format!("http://u/{name}"),
        geo_lat: if geo { deg(52.5) } else { None },
        geo_long: if geo { deg(13.4) } else { None },
    }
}

fn station(name: &str, geo: bool) -> StationInfo {
    StationInfo {
        station_uuid: format!("id-{name}"),
        name: name.to_string(),
        stream_url: format!("http://r/{name}"),
        geo_lat: if geo { deg(52.5) } else { None },
        geo_long: if geo { deg(13.4) } else { None },
    }
}

fn press(p: &mut RadioBrowserPopup, code: KeyCode, now: u128) -> Vec<PopupAction> {
    p.handle_input(MapInput::CEvent(Event::Key(KeyEvent { code, control: false })), now, None)
}

fn type_text(p: &mut RadioBrowserPopup, s: &str) {
    for c in s.chars() {
        assert!(press(p, KeyCode::Char(c), 0).is_empty());
    }
}

fn click(p: &mut RadioBrowserPopup, button: MouseButton, column: u16, row: u16) -> Vec<PopupAction> {
    let m = MouseEvent { kind: MouseEventKind::Down(button), column, row };
    p.handle_input(MapInput::CEvent(Event::Mouse(m)), 0, None)
}

fn nearby_url() -> String {
    "https://api.radio-browser.info/json/stations/bygeo?lat=20&lng=0&limit=20&hidebroken=true"
        .to_string()
}

fn opened(names: &[&str]) -> RadioBrowserPopup {
    let mut p = RadioBrowserPopup::new(None);
    assert_eq!(p.open(), vec![PopupAction::FetchNearby { url: nearby_url(), report: false }]);
    p.nearby_answered(false, Ok(names.iter().map(|n| answer(n, false)).collect()));
    p
}

fn status(p: &RadioBrowserPopup) -> &str {
    p.status.as_deref().unwrap_or("")
}

#[test]
fn a_new_popup_is_hidden() {
    let mut p = RadioBrowserPopup::new(None);
    assert!(!p.visible);
    assert_eq!(p.external_player_exe, "mpv");
    assert!(press(&mut p, KeyCode::Char('x'), 0).is_empty());
    assert!(p.render(AREA, None).is_empty());
    assert_eq!(RadioBrowserPopup::new(Some("vlc".to_string())).external_player_exe, "vlc");
}

#[test]
fn opening_starts_over() {
    let mut p = opened(&["a"]);
    type_text(&mut p, "ab");
    p.open();
    assert!(p.visible);
    assert_eq!(p.query, "");
    assert!(!p.in_search_mode);
    assert_eq!(status(&p), "Type a station name, press Enter to search.");
}

#[test]
fn escape_closes_and_ends_the_external_player() {
    let mut p = opened(&["a"]);
    assert_eq!(press(&mut p, KeyCode::Esc, 0), vec![PopupAction::KillExternal]);
    assert!(!p.visible);
}

#[test]
fn searches_encode_the_query() {
    let mut p = opened(&[]);
    type_text(&mut p, "só &b/c~");
    assert!(p.in_search_mode);
    assert_eq!(
        press(&mut p, KeyCode::Enter, 0),
        vec![PopupAction::Search {
            url: "https://api.radio-browser.info/json/stations/search?\
                  name=s%C3%B3%20%26b%2Fc~&limit=15&hidebroken=true&has_geo_info=true"
                .to_string()
        }]
    );
    assert_eq!(status(&p), "Searching…");
}

#[test]
fn blank_queries_search_nothing() {
    let mut p = opened(&["a"]);
    type_text(&mut p, " \u{3000}");
    assert!(press(&mut p, KeyCode::Enter, 0).is_empty());
    assert!(p.pending_event.is_none());
}

#[test]
fn requests_are_spaced() {
    let mut p = opened(&[]);
    type_text(&mut p, "jazz");
    assert_eq!(press(&mut p, KeyCode::Enter, 1_000 * MS).len(), 1);
    assert!(press(&mut p, KeyCode::Enter, 1_899 * MS).is_empty());
    assert_eq!(status(&p), "Please wait a moment before searching again.");
    assert_eq!(press(&mut p, KeyCode::Enter, 1_900 * MS).len(), 1);
}

#[test]
fn answers_are_remembered() {
    let mut p = opened(&[]);
    type_text(&mut p, "jazz");
    press(&mut p, KeyCode::Enter, 0);
    p.search_answered(Ok(vec![answer("one", true)]));
    assert_eq!(p.results, vec![station("one", true)]);
    assert!(p.status.is_none());
    press(&mut p, KeyCode::Char('y'), 0);
    press(&mut p, KeyCode::Backspace, 0);
    p.results.clear();
    assert!(press(&mut p, KeyCode::Enter, 2_000 * MS).is_empty());
    assert_eq!(p.results, vec![station("one", true)]);
}

#[test]
fn at_most_eleven_answers_are_remembered() {
    let mut p = opened(&[]);
    for i in 0..11 {
        p.query = format!("q{i}");
        p.search_answered(Ok(Vec::new()));
    }
    assert_eq!(p.result_cache.len(), 11);
    p.query = "last".to_string();
    p.search_answered(Ok(Vec::new()));
    assert_eq!(p.result_cache.len(), 1);
}

#[test]
fn failures_are_told() {
    let mut p = opened(&["a"]);
    p.search_answered(Err("HTTP 500".to_string()));
    assert_eq!(status(&p), "Search failed: HTTP 500");
    p.nearby_answered(true, Err("no route".to_string()));
    assert_eq!(status(&p), "Search failed: no route");
    p.status = None;
    p.nearby_answered(false, Err("quiet".to_string()));
    assert!(p.status.is_none());
    assert_eq!(p.nearby_results.len(), 1);
}

#[test]
fn tab_switches_lists() {
    let mut p = opened(&["a", "b"]);
    press(&mut p, KeyCode::Down, 0);
    assert!(press(&mut p, KeyCode::Tab, 0).is_empty());
    assert!(p.in_search_mode);
    assert_eq!(p.selected, 0);
    assert_eq!(
        press(&mut p, KeyCode::Tab, 0),
        vec![PopupAction::FetchNearby { url: nearby_url(), report: false }]
    );
}

#[test]
fn the_map_center_is_asked_for() {
    let mut p = RadioBrowserPopup::new(None);
    p.set_map_center("52.5".to_string(), "-13.25".to_string());
    assert_eq!(
        p.open(),
        vec![PopupAction::FetchNearby {
            url: "https://api.radio-browser.info/json/stations/bygeo?lat=52.5&lng=-13.25\
                  &limit=20&hidebroken=true"
                .to_string(),
            report: false
        }]
    );
}

#[test]
fn the_selection_stays_on_the_list() {
    let mut p = opened(&["a", "b"]);
    press(&mut p, KeyCode::Up, 0);
    assert_eq!(p.selected, 0);
    press(&mut p, KeyCode::Down, 0);
    press(&mut p, KeyCode::Down, 0);
    assert_eq!(p.selected, 1);
}

#[test]
fn playing_in_the_plugin() {
    let mut p = opened(&["a"]);
    assert_eq!(
        press(&mut p, KeyCode::Enter, 0),
        vec![PopupAction::Play { url: "http://r/a".to_string() }]
    );
    assert_eq!(
        p.take_event(),
        Some(PluginEvent::StationSelected(StationSelected {
            station: station("a", false),
            action: StationSelectedAction::PlayInPlugin,
        }))
    );
    assert_eq!(p.take_event(), None);
    assert_eq!(p.now_playing_url.as_deref(), Some("http://r/a"));
    assert!(p.visible);
    assert_eq!(
        status(&p),
        "Playing stream (native). p: pause, +/- volume. (no station geo — map not centered)"
    );
}

#[test]
fn a_station_with_a_place_closes_the_popup() {
    let mut p = opened(&[]);
    p.nearby_answered(false, Ok(vec![answer("a", true)]));
    p.set_event_tx();
    press(&mut p, KeyCode::Char('m'), 0);
    assert_eq!(p.play_mode, RadioPlayMode::UrlOnly);
    assert_eq!(status(&p), "Mode: UrlOnly");
    let selected = StationSelected {
        station: station("a", true),
        action: StationSelectedAction::UrlOnly,
    };
    assert_eq!(
        press(&mut p, KeyCode::Enter, 0),
        vec![PopupAction::Send(PluginEvent::StationSelected(selected))]
    );
    assert!(!p.visible);
    assert_eq!(p.take_event(), None);
    assert_eq!(status(&p), "URL only — stream not started.");
}

#[test]
fn the_external_player_is_alone() {
    let mut p = opened(&["a"]);
    p.set_prefer_external_player(false);
    assert_eq!(p.play_mode, RadioPlayMode::PlayInPlugin);
    p.set_prefer_external_player(true);
    assert_eq!(
        press(&mut p, KeyCode::Enter, 0),
        vec![
            PopupAction::StopPlayback,
            PopupAction::KillExternal,
            PopupAction::SpawnExternal {
                exe: "mpv".to_string(),
                url: "http://r/a".to_string(),
                has_geo: false
            },
        ]
    );
    p.external_started("http://r/a".to_string(), false, Err("not found".to_string()));
    assert_eq!(
        status(&p),
        "External player: mpv: not found (no station geo — map not centered)"
    );
    p.external_started("http://r/a".to_string(), true, Ok(()));
    assert_eq!(status(&p), "Playing in mpv (external).");
    assert!(!p.visible);
    assert_eq!(external_player_args("u"), vec!["--no-video", "--really-quiet", "u"]);
}

#[test]
fn modes_cycle() {
    let mut p = opened(&[]);
    for mode in [
        RadioPlayMode::UrlOnly,
        RadioPlayMode::ExternalPlayer,
        RadioPlayMode::PlayInPlugin,
    ] {
        press(&mut p, KeyCode::Char('m'), 0);
        assert_eq!(p.play_mode, mode);
    }
    assert_eq!(status(&p), "Mode: PlayInPlugin");
}

#[test]
fn playback_keys() {
    let mut p = opened(&[]);
    assert_eq!(press(&mut p, KeyCode::Char('p'), 0), vec![PopupAction::TogglePause]);
    p.pause_toggled(true);
    assert_eq!(status(&p), "Paused (native).");
    p.pause_toggled(false);
    assert_eq!(status(&p), "Resumed (native).");
    assert_eq!(press(&mut p, KeyCode::Char('+'), 0), vec![PopupAction::VolumeUp]);
    assert_eq!(press(&mut p, KeyCode::Char('='), 0), vec![PopupAction::VolumeUp]);
    assert_eq!(press(&mut p, KeyCode::Char('-'), 0), vec![PopupAction::VolumeDown]);
    assert_eq!(press(&mut p, KeyCode::Char('_'), 0), vec![PopupAction::VolumeDown]);
    p.volume_changed("92");
    assert_eq!(status(&p), "Volume: 92%");
    assert_eq!(
        press(&mut p, KeyCode::Char('x'), 0),
        vec![PopupAction::StopPlayback, PopupAction::KillExternal]
    );
    assert_eq!(status(&p), "Playback stopped.");
    p.play_mode = RadioPlayMode::UrlOnly;
    assert!(press(&mut p, KeyCode::Char('+'), 0).is_empty());
    assert!(press(&mut p, KeyCode::Char('p'), 0).is_empty());
    assert_eq!(status(&p), "Pause only applies to native (in-plugin) playback.");
}

#[test]
fn typing_and_deleting() {
    let mut p = opened(&[]);
    type_text(&mut p, "né");
    assert_eq!(p.query, "né");
    press(&mut p, KeyCode::Backspace, 0);
    assert_eq!(p.query, "n");
    press(&mut p, KeyCode::Backspace, 0);
    press(&mut p, KeyCode::Backspace, 0);
    assert_eq!(p.query, "");
    let held = KeyEvent { code: KeyCode::Char('a'), control: true };
    p.handle_input(MapInput::CEvent(Event::Key(held)), 0, None);
    p.handle_input(MapInput::Tick, 0, None);
    assert_eq!(p.query, "");
}

#[test]
fn player_errors_are_shown_once() {
    let mut p = opened(&["a"]);
    let mut engine = RadioEngine::new();
    engine.output_failed("x");
    p.poll_player_errors(engine.take_last_error());
    assert_eq!(status(&p), "Playback: Audio output: x");
    p.status = Some("kept".to_string());
    p.poll_player_errors(engine.take_last_error());
    assert_eq!(status(&p), "kept");
}

#[test]
fn searches_go_to_memory_first() {
    let mut p = opened(&[]);
    type_text(&mut p, "jazz");
    let url = "https://api.radio-browser.info/json/stations/search?\
               name=jazz&limit=15&hidebroken=true&has_geo_info=true";
    assert_eq!(p.search_now(), Some(url.to_string()));
    assert!(p.query_dirty);
    p.search_answered(Err("HTTP 500".to_string()));
    assert!(p.query_dirty && p.results.is_empty());
    assert_eq!(p.result_cache.len(), 0);
    p.search_answered(Ok(vec![answer("one", true)]));
    p.results.clear();
    p.query_dirty = true;
    assert_eq!(p.search_now(), None);
    assert_eq!(p.results, vec![station("one", true)]);
    assert!(!p.query_dirty);
    assert_eq!(p.result_cache.len(), 1);
}

#[test]
fn clicks_beside_the_list_do_nothing() {
    let mut p = opened(&["a", "b"]);
    p.render(AREA, None);
    let at = |kind, column, row| MouseEvent { kind, column, row };
    let right = MouseEventKind::Down(MouseButton::Right);
    assert!(p.handle_mouse(at(right, 1, 9)).is_empty());
    assert!(p.handle_mouse(at(right, 2, 10)).is_empty());
    assert!(p.handle_mouse(at(MouseEventKind::Down(MouseButton::Middle), 2, 9)).is_empty());
    assert_eq!(p.selected, 0);
    assert!(p.pending_event.is_none());
    assert_eq!(p.handle_mouse(at(right, 2, 9)).len(), 1);
    assert_eq!(p.selected, 1);
    assert!(p.pending_event.is_some());
}

#[test]
fn player_errors_are_shown() {
    let mut p = opened(&[]);
    p.handle_input(MapInput::Tick, 0, Some("Decode error: x".to_string()));
    assert_eq!(status(&p), "Playback: Decode error: x");
    p.render(AREA, Some("y".to_string()));
    assert_eq!(status(&p), "Playback: y");
}

fn text(x: u16, y: u16, s: &str, color: Color) -> DrawOp {
    DrawOp::Text { x, y, text: s.to_string(), color }
}

#[test]
fn drawing_the_popup() {
    let mut p = opened(&["a", "b"]);
    press(&mut p, KeyCode::Down, 0);
    p.now_playing_url = Some("http://s".to_string());
    let ops = p.render(AREA, None);
    let w = Color::White;
    let head = "Radio Browser  (m mode · Tab · Esc · mouse: wheel scroll, R-click play)";
    let play = "Playback: PlayInPlugin  (env OPENRUSTMAP_RADIO_PLAYER, default mpv)";
    assert_eq!(
        ops,
        vec![
            DrawOp::Clear(AREA),
            text(2, 3, head, w),
            text(2, 4, "Mode: Nearby (20)", w),
            text(2, 5, "Query: ", w),
            text(2, 6, play, w),
            text(2, 7, "Type a station name, press Enter to search.", w),
            text(2, 8, "Now playing: http://s", w),
            text(2, 8, "  a", Color::DarkGray),
            text(2, 9, "> b", Color::Yellow),
        ]
    );
    assert_eq!(p.last_content_rect, AREA);
}

#[test]
fn low_popups_are_cut() {
    let mut p = opened(&["a", "b"]);
    p.status = None;
    let ops = p.render(Rect { x: 0, y: 0, width: 9, height: 6 }, None);
    assert_eq!(ops.len(), 1 + 5 + 1);
    let hint = "Enter pick · ↑↓ · x stop · p pause(native) · +/- vol";
    assert_eq!(ops[5], text(0, 4, hint, Color::White));
    assert_eq!(p.render(Rect { x: 0, y: 0, width: 9, height: 2 }, None).len(), 3);
}

#[test]
fn clicks_hit_the_drawn_station() {
    let names: Vec<String> = (0..20).map(|i| format!("s{i}")).collect();
    let names: Vec<&str> = names.iter().map(|s| s.as_str()).collect();
    let mut p = opened(&names);
    for _ in 0..8 {
        press(&mut p, KeyCode::Down, 0);
    }
    let ops = p.render(AREA, None);
    assert_eq!(ops[6], text(2, 8, "  s3", Color::DarkGray));
    assert_eq!(ops[11], text(2, 13, "> s8", Color::Yellow));
    assert!(click(&mut p, MouseButton::Left, 2, 8).is_empty());
    assert_eq!(p.selected, 3);
    p.render(AREA, None);
    assert_eq!(
        click(&mut p, MouseButton::Right, 41, 10),
        vec![PopupAction::Play { url: "http://r/s2".to_string() }]
    );
    assert_eq!(p.selected, 2);
    assert!(click(&mut p, MouseButton::Left, 42, 10).is_empty());
    assert!(click(&mut p, MouseButton::Left, 2, 7).is_empty());
    assert_eq!(p.selected, 2);
}

#[test]
fn the_wheel_moves_the_selection() {
    let mut p = opened(&["a", "b"]);
    let wheel = |kind| MapInput::CEvent(Event::Mouse(MouseEvent { kind, column: 0, row: 0 }));
    p.handle_input(wheel(MouseEventKind::ScrollDown), 0, None);
    assert_eq!(p.selected, 0);
    p.render(AREA, None);
    p.handle_input(wheel(MouseEventKind::ScrollDown), 0, None);
    assert_eq!(p.selected, 1);
    p.handle_input(wheel(MouseEventKind::ScrollUp), 0, None);
    assert_eq!(p.selected, 0);
}

#[test]
fn picked_stations_carry_the_action_of_the_mode() {
    let mut plugin = RadioBrowserPlugin::default();
    for (mode, action) in [
        (RadioPlayMode::PlayInPlugin, StationSelectedAction::PlayInPlugin),
        (RadioPlayMode::UrlOnly, StationSelectedAction::UrlOnly),
        (RadioPlayMode::ExternalPlayer, StationSelectedAction::ExternalPlayer),
    ] {
        plugin.play_mode = mode;
        plugin.station_picked(station("a", true));
        assert_eq!(
            plugin.take_event(),
            Some(PluginEvent::StationSelected(StationSelected {
                station: station("a", true),
                action
            }))
        );
        assert_eq!(plugin.take_event(), None);
    }
}

#[test]
fn blank_resolved_addresses_are_replaced() {
    let mut blank = answer("a", false);
    blank.url_resolved = " \t\n".to_string();
    let stations = stations_from_response(vec![blank, answer("b", true)]);
    assert_eq!(stations[0].stream_url, "http://u/a");
    assert_eq!(stations[1], station("b", true));
}

#[test]
fn refused_requests_tell_the_status() {
    assert_eq!(directory_status_error(true, "200 OK"), None);
    assert_eq!(
        directory_status_error(false, "404 Not Found"),
        Some("HTTP 404 Not Found".to_string())
    );
}
