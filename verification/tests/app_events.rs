use openrustmap::application::{poll_wait_millis, App, AppAction};
use openrustmap::draw::{Color, DrawOp};
use openrustmap::geometry::{in_rect, Rect};
use openrustmap::input::{
    Event, KeyCode, KeyEvent, MapCommand, MouseButton, MouseEvent, MouseEventKind,
};
use openrustmap::layout::frame_layout;
use openrustmap::paths::FilePath;
use openrustmap::plugin::{Degrees, RadioPlayMode, StationResponse};
use openrustmap::popup::PopupAction;
use openrustmap::settings::{
    app_config_dir, app_config_dir_in, app_settings_path, load_settings, plugins_dir,
    plugins_dir_in, radio_plugin_installed, settings_path_in, AppSettings,
};
use openrustmap::terminal_restore::{restore_terminal, RestoreStep, TerminalRestoreGuard};
use std::path::PathBuf;

const MS: u128 = 1_000_000;
const SCREEN: Rect = Rect { x: 0, y: 0, width: 100, height: 41 };

fn app() -> App {
    let mut a = App::new(AppSettings::default(), true, None);
    a.begin_frame(SCREEN);
    a.end_frame(SCREEN, None);
    a
}

fn key(code: KeyCode) -> Event {
    Event::Key(KeyEvent { code, control: false })
}

fn mouse(kind: MouseEventKind, column: u16, row: u16) -> Event {
    Event::Mouse(MouseEvent { kind, column, row })
}

fn left(column: u16, row: u16) -> Event {
    mouse(MouseEventKind::Down(MouseButton::Left), column, row)
}

fn send(a: &mut App, ev: Event) -> Vec<AppAction> {
    at(a, ev, 0)
}

fn at(a: &mut App, ev: Event, now: u128) -> Vec<AppAction> {
    a.handle_event(ev, now, "1.5".to_string(), "2".to_string())
}

fn nearby(lat: &str, lon: &str) -> AppAction {
    AppAction::Popup(PopupAction::FetchNearby {
        url: format!(
            "https://api.radio-browser.info/json/stations/bygeo?lat={lat}&lng={lon}\
             &limit=20&hidebroken=true"
        ),
        report: false,
    })
}

#[test]
fn quitting_and_resetting() {
    let mut a = app();
    assert!(send(&mut a, key(KeyCode::Char('w'))).is_empty());
    assert!(!a.should_quit);
    assert_eq!(send(&mut a, key(KeyCode::Char('r'))), vec![AppAction::ResetView]);
    send(&mut a, key(KeyCode::Char('q')));
    assert!(a.should_quit);
    let mut a = app();
    assert_eq!(send(&mut a, left(6, 0)), vec![AppAction::ResetView]);
    send(&mut a, left(99, 0));
    assert!(a.should_quit);
}

#[test]
fn settings_toggle_while_shown() {
    let mut a = app();
    assert!(send(&mut a, key(KeyCode::Char('t'))).is_empty());
    send(&mut a, key(KeyCode::Char('s')));
    assert!(a.settings_popup_visible);
    let off = AppSettings { radio_map_enabled: false, radio_prefer_external_player: false };
    assert_eq!(send(&mut a, key(KeyCode::Char('t'))), vec![AppAction::SaveSettings(off)]);
    let ext = AppSettings { radio_map_enabled: false, radio_prefer_external_player: true };
    assert_eq!(send(&mut a, key(KeyCode::Char('e'))), vec![AppAction::SaveSettings(ext)]);
    assert_eq!(send(&mut a, key(KeyCode::Char('e'))), vec![AppAction::SaveSettings(off)]);
    assert_eq!(a.settings, off);
    send(&mut a, key(KeyCode::Esc));
    assert!(!a.settings_popup_visible);
    let mut bare = App::new(AppSettings::default(), false, None);
    send(&mut bare, key(KeyCode::Char('s')));
    assert!(send(&mut bare, key(KeyCode::Char('t'))).is_empty());
}

#[test]
fn the_radio_opens_by_its_button() {
    let mut a = app();
    a.settings.radio_prefer_external_player = true;
    assert_eq!(send(&mut a, left(17, 0)), vec![nearby("1.5", "2")]);
    assert!(a.radio_popup.visible);
    assert_eq!(a.radio_popup.play_mode, RadioPlayMode::ExternalPlayer);
    let mut off = app();
    off.settings.radio_map_enabled = false;
    assert!(send(&mut off, left(17, 0)).is_empty());
    assert!(!off.radio_popup.visible);
}

#[test]
fn closing_buttons_close_everything() {
    let mut a = app();
    send(&mut a, left(17, 0));
    send(&mut a, left(8, 0));
    assert!(a.settings_popup_visible && a.radio_popup.visible);
    a.end_frame(SCREEN, None);
    let b = a.layout.popup_close_rect;
    assert_eq!(b, Rect { x: 84, y: 5, width: 3, height: 1 });
    assert_eq!(
        send(&mut a, left(b.x, b.y)),
        vec![AppAction::Popup(PopupAction::KillExternal)]
    );
    assert!(!a.settings_popup_visible && !a.radio_popup.visible);
}

#[test]
fn escape_closes_the_radio_first() {
    let mut a = app();
    send(&mut a, left(17, 0));
    send(&mut a, key(KeyCode::Char('s')));
    assert_eq!(
        send(&mut a, key(KeyCode::Esc)),
        vec![AppAction::Popup(PopupAction::KillExternal)]
    );
    assert!(a.settings_popup_visible);
    assert!(send(&mut a, key(KeyCode::Esc)).is_empty());
    assert!(!a.settings_popup_visible);
}

#[test]
fn wheel_zooms_are_spaced() {
    let mut a = app();
    let up = mouse(MouseEventKind::ScrollUp, 9, 9);
    let down = mouse(MouseEventKind::ScrollDown, 9, 9);
    assert_eq!(at(&mut a, up, 100 * MS), vec![AppAction::WheelZoomIn]);
    assert!(at(&mut a, down, 154 * MS).is_empty());
    assert_eq!(at(&mut a, down, 155 * MS), vec![AppAction::WheelZoomOut]);
}

#[test]
fn the_map_follows_the_mouse() {
    let mut a = app();
    let drag = |x, y| mouse(MouseEventKind::Drag(MouseButton::Right), x, y);
    assert!(send(&mut a, drag(5, 5)).is_empty());
    assert!(send(&mut a, mouse(MouseEventKind::Down(MouseButton::Right), 10, 10)).is_empty());
    assert_eq!(
        send(&mut a, drag(13, 8)),
        vec![AppAction::PanByCells { dx: 3, dy: 2 }]
    );
    assert_eq!(
        send(&mut a, drag(10, 10)),
        vec![AppAction::PanByCells { dx: -3, dy: -2 }]
    );
    send(&mut a, mouse(MouseEventKind::Up(MouseButton::Right), 10, 10));
    assert!(send(&mut a, drag(50, 10)).is_empty());
    send(&mut a, mouse(MouseEventKind::Down(MouseButton::Right), 40_000, 1));
    assert!(!a.drag_in_range(drag(20_000, 1)));
    assert!(a.drag_in_range(drag(39_990, 1)));
    assert_eq!(
        send(&mut a, drag(39_990, 1)),
        vec![AppAction::PanByCells { dx: -10, dy: 0 }]
    );
}

#[test]
fn open_popups_shield_the_map() {
    let mut a = app();
    send(&mut a, key(KeyCode::Char('s')));
    assert!(send(&mut a, mouse(MouseEventKind::ScrollUp, 9, 9)).is_empty());
    assert!(a.forward_event(key(KeyCode::Left), 0, None).is_empty());
    send(&mut a, key(KeyCode::Char('s')));
    assert_eq!(
        a.forward_event(key(KeyCode::Left), 0, None),
        vec![AppAction::Command(MapCommand::PanLeft)]
    );
    send(&mut a, left(17, 0));
    assert!(send(&mut a, mouse(MouseEventKind::ScrollUp, 9, 9)).is_empty());
    assert!(a.forward_event(key(KeyCode::Char('a')), 0, None).is_empty());
    assert_eq!(a.radio_popup.query, "a");
}

#[test]
fn picked_stations_center_the_map() {
    let mut a = app();
    send(&mut a, left(17, 0));
    let lat = Degrees { bits: 52.5f64.to_bits() };
    let lon = Degrees { bits: 13.4f64.to_bits() };
    let s = StationResponse {
        stationuuid: "id".to_string(),
        name: "n".to_string(),
        url_resolved: "http://r".to_string(),
        url: String::new(),
        geo_lat: Some(lat),
        geo_long: Some(lon),
    };
    a.radio_popup.nearby_answered(false, Ok(vec![s]));
    assert_eq!(
        a.forward_event(key(KeyCode::Enter), 0, None),
        vec![
            AppAction::Popup(PopupAction::Play { url: "http://r".to_string() }),
            AppAction::Center { lat, lon },
        ]
    );
    assert_eq!(a.last_station_url.as_deref(), Some("http://r"));
    assert!(!a.radio_popup.visible);
    assert!(a.radio_popup.pending_event.is_none());
}

fn text(x: u16, y: u16, s: &str, color: Color) -> DrawOp {
    DrawOp::Text { x, y, text: s.to_string(), color }
}

#[test]
fn the_menu_is_drawn() {
    let mut a = app();
    assert_eq!(
        a.begin_frame(SCREEN),
        vec![
            DrawOp::Clear(SCREEN),
            text(0, 0, " Reset ", Color::Cyan),
            text(7, 0, " Settings ", Color::White),
            text(17, 0, " Radio-map ", Color::Green),
            text(97, 0, "[X]", Color::Red),
        ]
    );
    a.settings.radio_map_enabled = false;
    assert_eq!(a.begin_frame(SCREEN)[3], text(17, 0, " Radio-map ", Color::DarkGray));
    let mut bare = App::new(AppSettings::default(), false, None);
    assert_eq!(bare.begin_frame(SCREEN).len(), 4);
}

#[test]
fn small_terminals_are_told() {
    let mut a = app();
    let small = Rect { x: 0, y: 0, width: 94, height: 50 };
    let msg = "Terminal too small. Minimum size: 95x35 (current 94x50)";
    assert_eq!(
        a.begin_frame(small),
        vec![DrawOp::Clear(small), text(2, 25, msg, Color::Yellow)]
    );
    assert!(a.end_frame(small, None).is_empty());
    assert!(send(&mut a, left(0, 0)).is_empty());
    assert!(!a.should_quit);
}

#[test]
fn overlays_are_drawn() {
    let mut a = app();
    a.last_station_url = Some("http://s".to_string());
    send(&mut a, key(KeyCode::Char('s')));
    let ops = a.end_frame(SCREEN, None);
    assert_eq!(ops[0], text(1, 39, " stream: http://s", Color::DarkGray));
    assert_eq!(ops[1], text(0, 1, "┌", Color::DarkGray));
    let n = ops.len();
    assert_eq!(ops[n - 3], text(26, 14, "Radio-map plugin: enabled", Color::White));
    let help = "Press 't' — enable Radio-map menu. 'e' — prefer external player (mpv).";
    assert_eq!(ops[n - 2], text(26, 16, help, Color::DarkGray));
    assert_eq!(ops[n - 1], text(26, 17, "Prefer external player: off", Color::Yellow));
    send(&mut a, key(KeyCode::Char('s')));
    send(&mut a, left(17, 0));
    let ops = a.end_frame(SCREEN, Some("E".to_string()));
    assert_eq!(a.radio_popup.last_content_rect, Rect { x: 14, y: 6, width: 72, height: 29 });
    assert_eq!(ops[ops.len() - 1], text(14, 10, "Playback: E", Color::White));
}

#[test]
fn layouts_place_everything() {
    let l = frame_layout(SCREEN, true, true, false);
    assert!(l.shown);
    assert_eq!(l.map_area, Rect { x: 0, y: 1, width: 100, height: 40 });
    assert_eq!(l.map_content, Rect { x: 1, y: 2, width: 98, height: 38 });
    assert_eq!(l.settings_popup, Rect { x: 24, y: 12, width: 52, height: 18 });
    assert_eq!(l.popup_close_rect, Rect { x: 73, y: 12, width: 3, height: 1 });
    assert_eq!(l.radio_popup_area, Rect::default());
    let l = frame_layout(SCREEN, false, false, true);
    assert_eq!(l.top_menu_radio, Rect::default());
    assert_eq!(l.radio_popup_area, Rect { x: 13, y: 5, width: 74, height: 31 });
    assert!(!frame_layout(Rect { height: 34, ..SCREEN }, true, true, true).shown);
}

#[test]
fn buttons_do_not_overlap() {
    let l = frame_layout(SCREEN, true, true, true);
    let buttons = [
        l.top_menu_reset,
        l.top_menu_settings,
        l.top_menu_radio,
        l.top_menu_close,
        l.popup_close_rect,
    ];
    for row in 0..41 {
        for col in 0..100 {
            assert!(buttons.iter().filter(|b| in_rect(col, row, **b)).count() <= 1);
        }
    }
}

#[test]
fn waiting_depends_on_tiles() {
    assert_eq!(poll_wait_millis(true), 0);
    assert_eq!(poll_wait_millis(false), 16);
}

#[test]
fn settings_without_the_plugin_are_off() {
    let stored = AppSettings { radio_map_enabled: true, radio_prefer_external_player: true };
    assert_eq!(load_settings(true, Some(stored)), stored);
    assert_eq!(
        load_settings(false, Some(stored)),
        AppSettings { radio_map_enabled: false, ..stored }
    );
    assert_eq!(load_settings(true, None), AppSettings::default());
    assert!(!load_settings(false, None).radio_map_enabled);
    assert!(radio_plugin_installed());
}

#[test]
fn settings_have_their_place() {
    let dir = app_config_dir_in(Some(PathBuf::from("/cfg")));
    let expected = FilePath::new(PathBuf::from("/cfg")).entry("openrustmap");
    assert_eq!(dir, Some(expected.clone()));
    assert_eq!(settings_path_in(dir.clone()), Some(expected.clone().entry("settings.toml")));
    assert_eq!(plugins_dir_in(dir), Some(expected.entry("plugins")));
    assert_eq!(app_config_dir_in(None), None);
    assert_eq!(settings_path_in(None), None);
}

#[test]
fn the_system_configuration_directory_is_asked_for() {
    let expected = directories::BaseDirs::new()
        .map(|d| FilePath::new(d.config_dir().to_path_buf()).entry("openrustmap"));
    assert_eq!(app_config_dir(), expected);
    assert_eq!(app_settings_path(), expected.clone().map(|d| d.entry("settings.toml")));
    assert_eq!(plugins_dir(), expected.map(|d| d.entry("plugins")));
}

#[test]
fn the_terminal_is_restored_once() {
    assert_eq!(TerminalRestoreGuard::new(), TerminalRestoreGuard);
    let mut restored = false;
    assert_eq!(
        restore_terminal(&mut restored),
        vec![
            RestoreStep::DisableRawMode,
            RestoreStep::DisableMouseCapture,
            RestoreStep::LeaveAlternateScreen,
            RestoreStep::ShowCursor,
            RestoreStep::Flush,
        ]
    );
    assert!(restored);
    assert!(restore_terminal(&mut restored).is_empty());
}
