//! The application: its settings, its popups, and what terminal events do.

use crate::app_model::{self, AppActionSpec, AppSpec, WHEEL_ZOOM_MIN_INTERVAL_NANOS};
use crate::draw::{
    self, push_clear, push_text, render_map_frame, render_popup_border, Color, DrawOp,
};
use crate::geometry::{self, in_rect, Rect};
use crate::input::{
    map_command, Event, KeyCode, MapCommand, MapInput, MouseButton, MouseEvent, MouseEventKind,
};
use crate::layout::{self, frame_layout, FrameLayout, MIN_HEIGHT, MIN_WIDTH};
use crate::plugin::{Degrees, PluginEvent};
use crate::popup::{self, PopupAction, RadioBrowserPopup};
use crate::popup_model;
use crate::settings::AppSettings;
use crate::text::{self, join, owned, push_decimal};
use vstd::prelude::*;

verus! {

/// Something the application asks its host to do.
#[derive(Debug, PartialEq, Eq)]
pub enum AppAction {
    /// Show the whole world.
    ResetView,
    SaveSettings(AppSettings),
    /// One step of the mouse wheel.
    WheelZoomIn,
    WheelZoomOut,
    /// Move the map by so many terminal cells.
    PanByCells { dx: i16, dy: i16 },
    /// Carry out a command of a key.
    Command(MapCommand),
    /// Go to a place.
    Center { lat: Degrees, lon: Degrees },
    /// Do what the radio popup asks for.
    Popup(PopupAction),
}

impl View for AppAction {
    type V = AppActionSpec;

    open spec fn view(&self) -> AppActionSpec {
        match self {
            AppAction::ResetView => AppActionSpec::ResetView,
            AppAction::SaveSettings(s) => AppActionSpec::SaveSettings(*s),
            AppAction::WheelZoomIn => AppActionSpec::WheelZoomIn,
            AppAction::WheelZoomOut => AppActionSpec::WheelZoomOut,
            AppAction::PanByCells { dx, dy } => AppActionSpec::PanByCells {
                dx: *dx as int,
                dy: *dy as int,
            },
            AppAction::Command(c) => AppActionSpec::Command(*c),
            AppAction::Center { lat, lon } => AppActionSpec::Center { lat: *lat, lon: *lon },
            AppAction::Popup(a) => AppActionSpec::Popup(a@),
        }
    }
}

/// What a list of actions asks for.
pub open spec fn asked(v: Seq<AppAction>) -> Seq<AppActionSpec> {
    v.map_values(|a: AppAction| a@)
}

/// The application.
pub struct App {
    pub settings: AppSettings,
    pub radio_installed: bool,
    pub settings_popup_visible: bool,
    /// The stream of the station that was picked last.
    pub last_station_url: Option<String>,
    pub should_quit: bool,
    pub right_dragging: bool,
    pub last_drag: Option<(u16, u16)>,
    /// When the mouse wheel last zoomed, in nanoseconds of the host's clock.
    pub last_wheel_zoom: Option<u128>,
    pub layout: FrameLayout,
    pub radio_popup: RadioBrowserPopup,
}

impl View for App {
    type V = AppSpec;

    open spec fn view(&self) -> AppSpec {
        AppSpec {
            settings: self.settings,
            radio_installed: self.radio_installed,
            settings_visible: self.settings_popup_visible,
            station_url: text::text_view(self.last_station_url),
            should_quit: self.should_quit,
            right_dragging: self.right_dragging,
            last_drag: self.last_drag,
            last_wheel_zoom: self.last_wheel_zoom,
            layout: self.layout,
            popup: self.radio_popup@,
        }
    }
}

/// The distance of a drag can be told in signed sixteen-bit numbers.
pub open spec fn drag_fits(s: AppSpec, ev: Event) -> bool {
    match ev {
        Event::Mouse(m) => m.kind == MouseEventKind::Drag(MouseButton::Right) && s.right_dragging
            && !s.map_blocked() ==> match s.last_drag {
            Some(from) => {
                let (dx, dy) = app_model::drag_distance(from, m.column, m.row);
                i16::MIN <= dx <= i16::MAX && -i16::MAX <= dy <= i16::MAX
            },
            None => true,
        },
        _ => true,
    }
}

fn as_signed(c: u16) -> (r: i16)
    ensures
        r == app_model::signed(c),
        c < 0x8000 ==> r == c,
        c >= 0x8000 ==> r == c - 0x10000,
{
    if c < 0x8000 {
        c as i16
    } else {
        (c as i32 - 0x10000) as i16
    }
}

impl App {
    pub open spec fn wf(self) -> bool {
        self.radio_popup.wf()
    }

    /// The application at its start.
    pub fn new(settings: AppSettings, radio_installed: bool, external_player: Option<String>) -> (r:
        Self)
        ensures
            r.wf(),
            r@ == (AppSpec {
                settings,
                radio_installed,
                settings_visible: false,
                station_url: None,
                should_quit: false,
                right_dragging: false,
                last_drag: None,
                last_wheel_zoom: None,
                layout: layout::nothing_shown(),
                popup: popup_model::fresh(text::text_view(external_player)),
            }),
    {
        let none = Rect { x: 0, y: 0, width: 0, height: 0 };
        App {
            settings,
            radio_installed,
            settings_popup_visible: false,
            last_station_url: None,
            should_quit: false,
            right_dragging: false,
            last_drag: None,
            last_wheel_zoom: None,
            layout: FrameLayout {
                shown: false,
                top_menu_reset: none,
                top_menu_settings: none,
                top_menu_radio: none,
                top_menu_close: none,
                map_area: none,
                map_content: none,
                settings_popup: none,
                radio_popup_area: none,
                radio_content: none,
                popup_close_rect: none,
            },
            radio_popup: RadioBrowserPopup::new(external_player),
        }
    }

    /// Whether the distance of a drag can be told in signed sixteen-bit numbers.
    pub fn drag_in_range(&self, ev: Event) -> (r: bool)
        ensures
            r == drag_fits(self@, ev),
    {
        if self.radio_popup.visible || self.settings_popup_visible || !self.right_dragging {
            return true;
        }
        match ev {
            Event::Mouse(m) => match m.kind {
                MouseEventKind::Drag(MouseButton::Right) => match self.last_drag {
                    Some((px, py)) => {
                        let dx: i32 = as_signed(m.column) as i32 - as_signed(px) as i32;
                        let dy: i32 = as_signed(m.row) as i32 - as_signed(py) as i32;
                        -0x8000 <= dx && dx < 0x8000 && -0x8000 < dy && dy < 0x8000
                    },
                    None => true,
                },
                _ => true,
            },
            _ => true,
        }
    }

    fn save_settings(&mut self, settings: AppSettings) -> (r: Vec<AppAction>)
        requires
            old(self).wf(),
        ensures
            final(self).wf(),
            (final(self)@, asked(r@)) == app_model::with_settings(old(self)@, settings),
    {
        let mut r: Vec<AppAction> = Vec::new();
        if self.radio_installed {
            self.settings = settings;
            r.push(AppAction::SaveSettings(settings));
        }
        assert(asked(r@) =~= app_model::with_settings(old(self)@, settings).1);
        r
    }

    fn close_radio(&mut self) -> (r: Vec<AppAction>)
        requires
            old(self).wf(),
        ensures
            final(self).wf(),
            (final(self)@, asked(r@)) == old(self)@.with_popup(
                popup_model::closed(old(self)@.popup),
            ),
    {
        let actions: Vec<PopupAction> = self.radio_popup.close();
        pass_on(actions)
    }

    fn handle_key(&mut self, code: KeyCode) -> (r: Vec<AppAction>)
        requires
            old(self).wf(),
        ensures
            final(self).wf(),
            (final(self)@, asked(r@)) == app_model::on_key(old(self)@, code),
    {
        let mut r: Vec<AppAction> = Vec::new();
        match code {
            KeyCode::Esc => {
                if self.radio_popup.visible {
                    return self.close_radio();
                }
                self.settings_popup_visible = false;
            },
            KeyCode::Char(c) => {
                if c == 'q' {
                    self.should_quit = true;
                } else if c == 'r' {
                    r.push(AppAction::ResetView);
                } else if c == 's' {
                    self.settings_popup_visible = !self.settings_popup_visible;
                } else if c == 't' && self.settings_popup_visible {
                    let s: AppSettings = self.settings;
                    return self.save_settings(
                        AppSettings { radio_map_enabled: !s.radio_map_enabled, ..s },
                    );
                } else if c == 'e' && self.settings_popup_visible {
                    let s: AppSettings = self.settings;
                    return self.save_settings(
                        AppSettings {
                            radio_prefer_external_player: !s.radio_prefer_external_player,
                            ..s
                        },
                    );
                }
            },
            _ => {},
        }
        assert(asked(r@) =~= app_model::on_key(old(self)@, code).1);
        r
    }

    fn open_radio(&mut self, lat: String, lon: String) -> (r: Vec<AppAction>)
        requires
            old(self).wf(),
        ensures
            final(self).wf(),
            (final(self)@, asked(r@)) == app_model::radio_opened(old(self)@, lat@, lon@),
    {
        self.radio_popup.set_map_center(lat, lon);
        self.radio_popup.set_prefer_external_player(self.settings.radio_prefer_external_player);
        let actions: Vec<PopupAction> = self.radio_popup.open();
        pass_on(actions)
    }

    fn handle_click(&mut self, col: u16, row: u16, lat: String, lon: String) -> (r: Vec<AppAction>)
        requires
            old(self).wf(),
        ensures
            final(self).wf(),
            (final(self)@, asked(r@)) == app_model::on_click(
                old(self)@,
                col as int,
                row as int,
                lat@,
                lon@,
            ),
    {
        let mut r: Vec<AppAction> = Vec::new();
        assert(asked(r@) =~= Seq::empty());
        let l: FrameLayout = self.layout;
        if in_rect(col, row, l.top_menu_close) {
            self.should_quit = true;
        } else if in_rect(col, row, l.top_menu_reset) {
            r.push(AppAction::ResetView);
            assert(asked(r@) =~= seq![AppActionSpec::ResetView]);
        } else if in_rect(col, row, l.top_menu_settings) {
            self.settings_popup_visible = !self.settings_popup_visible;
        } else if self.radio_installed && self.settings.radio_map_enabled && in_rect(
            col,
            row,
            l.top_menu_radio,
        ) {
            return self.open_radio(lat, lon);
        } else if in_rect(col, row, l.popup_close_rect) {
            self.settings_popup_visible = false;
            if self.radio_popup.visible {
                return self.close_radio();
            }
        }
        r
    }

    fn wheel_ready(&self, now: u128) -> (r: bool)
        ensures
            r == app_model::wheel_ready(self@, now),
    {
        match self.last_wheel_zoom {
            Some(t) => now >= t && now - t >= WHEEL_ZOOM_MIN_INTERVAL_NANOS,
            None => true,
        }
    }

    fn handle_map_mouse(&mut self, m: MouseEvent, now: u128) -> (r: Vec<AppAction>)
        requires
            old(self).wf(),
            !old(self)@.map_blocked(),
            drag_fits(old(self)@, Event::Mouse(m)),
        ensures
            final(self).wf(),
            (final(self)@, asked(r@)) == app_model::on_map_mouse(old(self)@, m, now),
    {
        let mut r: Vec<AppAction> = Vec::new();
        match m.kind {
            MouseEventKind::ScrollUp => {
                if self.wheel_ready(now) {
                    self.last_wheel_zoom = Some(now);
                    r.push(AppAction::WheelZoomIn);
                }
            },
            MouseEventKind::ScrollDown => {
                if self.wheel_ready(now) {
                    self.last_wheel_zoom = Some(now);
                    r.push(AppAction::WheelZoomOut);
                }
            },
            MouseEventKind::Down(MouseButton::Right) => {
                self.right_dragging = true;
                self.last_drag = Some((m.column, m.row));
            },
            MouseEventKind::Drag(MouseButton::Right) => {
                if self.right_dragging {
                    if let Some((px, py)) = self.last_drag {
                        let dx: i16 = as_signed(m.column) - as_signed(px);
                        let dy: i16 = as_signed(m.row) - as_signed(py);
                        r.push(AppAction::PanByCells { dx, dy: -dy });
                    }
                    self.last_drag = Some((m.column, m.row));
                }
            },
            MouseEventKind::Up(MouseButton::Right) => {
                self.right_dragging = false;
                self.last_drag = None;
            },
            _ => {},
        }
        assert(asked(r@) =~= app_model::on_map_mouse(old(self)@, m, now).1);
        r
    }

    /// Handles a terminal event, before it is passed on with `forward_event`. `now` is the time
    /// of the host's clock in nanoseconds, and `lat` and `lon` the center of the map in degrees.
    /// What the application asks for is to be done in order.
    pub fn handle_event(&mut self, ev: Event, now: u128, lat: String, lon: String) -> (r: Vec<
        AppAction,
    >)
        requires
            old(self).wf(),
            drag_fits(old(self)@, ev),
        ensures
            final(self).wf(),
            (final(self)@, asked(r@)) == app_model::event_step(old(self)@, ev, now, lat@, lon@),
            match (ev, old(self).last_drag) {
                (Event::Mouse(m), Some(from)) => m.kind == MouseEventKind::Drag(MouseButton::Right)
                    && old(self).right_dragging && !old(self).radio_popup.visible && !old(
                    self,
                ).settings_popup_visible && from.0 < 0x8000 && from.1 < 0x8000 && m.column < 0x8000
                    && m.row < 0x8000 ==> {
                    &&& r@.len() == 1
                    &&& r@[0] matches AppAction::PanByCells { dx, dy } && dx == m.column - from.0
                        && dy == from.1 - m.row
                },
                _ => true,
            },
    {
        let nothing: Vec<AppAction> = Vec::new();
        assert(asked(nothing@) =~= Seq::empty());
        match ev {
            Event::Key(k) => self.handle_key(k.code),
            Event::Mouse(m) => {
                let mut r: Vec<AppAction> = match m.kind {
                    MouseEventKind::Down(MouseButton::Left) => self.handle_click(
                        m.column,
                        m.row,
                        lat,
                        lon,
                    ),
                    _ => nothing,
                };
                if !self.radio_popup.visible && !self.settings_popup_visible {
                    let ghost first = r@;
                    let mut more: Vec<AppAction> = self.handle_map_mouse(m, now);
                    let ghost second = more@;
                    r.append(&mut more);
                    assert(asked(r@) =~= asked(first) + asked(second));
                }
                proof {
                    assert(asked(r@).len() == r@.len());
                    if r@.len() > 0 {
                        assert(asked(r@)[0] == r@[0]@);
                    }
                }
                r
            },
            Event::Other => nothing,
        }
    }

    /// Takes the event of a picked station, if there is one.
    fn take_station(&mut self) -> (r: Vec<AppAction>)
        requires
            old(self).wf(),
        ensures
            final(self).wf(),
            (final(self)@, asked(r@)) == app_model::event_taken(old(self)@),
    {
        let mut r: Vec<AppAction> = Vec::new();
        match self.radio_popup.take_event() {
            Some(PluginEvent::StationSelected(sel)) => {
                let station = sel.station;
                if let Some(lat) = station.geo_lat {
                    if let Some(lon) = station.geo_long {
                        r.push(AppAction::Center { lat, lon });
                    }
                }
                self.last_station_url = Some(station.stream_url);
            },
            None => {},
        }
        assert(asked(r@) =~= app_model::event_taken(old(self)@).1);
        assert(self@ =~= app_model::event_taken(old(self)@).0);
        r
    }

    /// Passes a terminal event on to the radio popup or to the map. `player_error` is an error
    /// that the player has reported since the last call; it is left with the player while the
    /// popup is hidden.
    pub fn forward_event(&mut self, ev: Event, now: u128, player_error: Option<String>) -> (r: Vec<
        AppAction,
    >)
        requires
            old(self).wf(),
            !old(self).radio_popup.visible ==> player_error is None,
        ensures
            final(self).wf(),
            (final(self)@, asked(r@)) == app_model::forward_step(
                old(self)@,
                ev,
                now,
                text::text_view(player_error),
            ),
    {
        let mut r: Vec<AppAction> = Vec::new();
        if self.radio_popup.visible {
            let actions: Vec<PopupAction> = self.radio_popup.handle_input(
                MapInput::CEvent(ev),
                now,
                player_error,
            );
            r = pass_on(actions);
            let ghost first = r@;
            let mut more: Vec<AppAction> = self.take_station();
            let ghost second = more@;
            r.append(&mut more);
            assert(asked(r@) =~= asked(first) + asked(second));
        } else if !self.settings_popup_visible {
            if let Some(c) = map_command(MapInput::CEvent(ev)) {
                r.push(AppAction::Command(c));
            }
            assert(asked(r@) =~= app_model::forward_step(
                old(self)@,
                ev,
                now,
                text::text_view(player_error),
            ).1);
        } else {
            assert(asked(r@) =~= Seq::empty());
        }
        r
    }

    fn lay_out(&mut self, area: Rect)
        requires
            old(self).wf(),
            area.fits(),
        ensures
            final(self).wf(),
            final(self)@ == app_model::laid_out(old(self)@, area),
    {
        self.layout = frame_layout(
            area,
            self.radio_installed,
            self.settings_popup_visible,
            self.radio_popup.visible,
        );
    }

    /// Begins a drawing: what comes below the map, which is to be drawn into the layout's
    /// `map_content` if anything is shown at all.
    pub fn begin_frame(&mut self, area: Rect) -> (ops: Vec<DrawOp>)
        requires
            old(self).wf(),
            area.fits(),
            layout::too_small(area) ==> area.x + 2 <= u16::MAX,
        ensures
            final(self).wf(),
            final(self)@ == app_model::laid_out(old(self)@, area),
            draw::drawing(ops@) == app_model::menu_drawing(old(self)@, area),
    {
        self.lay_out(area);
        let mut ops: Vec<DrawOp> = Vec::new();
        assert(draw::drawing(ops@) =~= Seq::empty());
        push_clear(&mut ops, area);
        if !self.layout.shown {
            push_text(
                &mut ops,
                area.x + 2,
                area.y + area.height / 2,
                too_small_message(area),
                Color::Yellow,
            );
        } else {
            push_text(&mut ops, area.x, area.y, owned(" Reset "), Color::Cyan);
            push_text(&mut ops, area.x + 7, area.y, owned(" Settings "), Color::White);
            if self.radio_installed {
                let color: Color = if self.settings.radio_map_enabled {
                    Color::Green
                } else {
                    Color::DarkGray
                };
                push_text(&mut ops, area.x + 17, area.y, owned(" Radio-map "), color);
            }
            push_text(&mut ops, area.x + area.width - 3, area.y, owned("[X]"), Color::Red);
        }
        assert(draw::drawing(ops@) =~= app_model::menu_drawing(old(self)@, area));
        ops
    }

    fn settings_ops(&self) -> (ops: Vec<DrawOp>)
        requires
            self.settings_popup_visible ==> self.layout.settings_popup.fits()
                && self.layout.settings_popup.width >= 4 && self.layout.settings_popup.height >= 6,
        ensures
            draw::drawing(ops@) == app_model::settings_drawing(self@),
    {
        if !self.settings_popup_visible {
            let ops: Vec<DrawOp> = Vec::new();
            assert(draw::drawing(ops@) =~= Seq::empty());
            return ops;
        }
        let p: Rect = self.layout.settings_popup;
        let mut ops: Vec<DrawOp> = render_popup_border(p, "Settings");
        let status: &str = if self.settings.radio_map_enabled {
            "enabled"
        } else {
            "disabled"
        };
        push_text(&mut ops, p.x + 2, p.y + 2, join("Radio-map plugin: ", status), Color::White);
        push_text(
            &mut ops,
            p.x + 2,
            p.y + 4,
            owned("Press 't' — enable Radio-map menu. 'e' — prefer external player (mpv)."),
            Color::DarkGray,
        );
        let ext: &str = if self.settings.radio_prefer_external_player {
            "on"
        } else {
            "off"
        };
        push_text(
            &mut ops,
            p.x + 2,
            p.y + 5,
            join("Prefer external player: ", ext),
            Color::Yellow,
        );
        ops
    }

    fn stream_ops(&self) -> (ops: Vec<DrawOp>)
        requires
            self.layout.map_content.fits(),
            self.layout.map_content.height > 0,
        ensures
            draw::drawing(ops@) == app_model::stream_drawing(self@),
    {
        let mut ops: Vec<DrawOp> = Vec::new();
        assert(draw::drawing(ops@) =~= Seq::empty());
        let c: Rect = self.layout.map_content;
        if let Some(url) = &self.last_station_url {
            push_text(
                &mut ops,
                c.x,
                c.y + (c.height - 1),
                join(" stream: ", url.as_str()),
                Color::DarkGray,
            );
        }
        assert(draw::drawing(ops@) =~= app_model::stream_drawing(self@));
        ops
    }

    fn radio_ops(&mut self, player_error: Option<String>) -> (ops: Vec<DrawOp>)
        requires
            old(self).wf(),
            old(self).radio_popup.visible ==> {
                &&& old(self).layout.radio_popup_area.fits()
                &&& popup::drawable_area(old(self).layout.radio_content)
            },
        ensures
            final(self).wf(),
            final(self)@ == app_model::shown_in_popup(old(self)@, text::text_view(player_error)),
            draw::drawing(ops@) == app_model::radio_drawing(final(self)@),
    {
        let mut ops: Vec<DrawOp> = Vec::new();
        if self.radio_popup.visible {
            ops = render_popup_border(self.layout.radio_popup_area, "Radio-map");
            let content: Rect = self.layout.radio_content;
            let mut list: Vec<DrawOp> = self.radio_popup.render(content, player_error);
            append_ops(&mut ops, &mut list);
        } else {
            assert(draw::drawing(ops@) =~= Seq::empty());
        }
        ops
    }

    /// Ends a drawing: what comes above the map. `player_error` is an error that the player has
    /// reported since the last call; it is left with the player while the popup is not drawn.
    pub fn end_frame(&mut self, area: Rect, player_error: Option<String>) -> (ops: Vec<DrawOp>)
        requires
            old(self).wf(),
            area.fits(),
            !old(self).radio_popup.visible || layout::too_small(area) ==> player_error is None,
        ensures
            final(self).wf(),
            final(self)@ == app_model::drawn(old(self)@, area, text::text_view(player_error)),
            draw::drawing(ops@) == app_model::overlay_drawing(final(self)@),
    {
        self.lay_out(area);
        if !self.layout.shown {
            let ops: Vec<DrawOp> = Vec::new();
            assert(draw::drawing(ops@) =~= Seq::empty());
            return ops;
        }
        proof {
            layout::lemma_popups_have_room(area);
            geometry::law_map_content_stays_inside(layout::below_menu(area));
        }
        let mut ops: Vec<DrawOp> = self.stream_ops();
        let mut frame: Vec<DrawOp> = render_map_frame(self.layout.map_area);
        append_ops(&mut ops, &mut frame);
        let mut settings: Vec<DrawOp> = self.settings_ops();
        append_ops(&mut ops, &mut settings);
        let mut radio: Vec<DrawOp> = self.radio_ops(player_error);
        append_ops(&mut ops, &mut radio);
        ops
    }
}

fn append_ops(ops: &mut Vec<DrawOp>, more: &mut Vec<DrawOp>)
    ensures
        draw::drawing(final(ops)@) == draw::drawing(old(ops)@) + draw::drawing(old(more)@),
{
    ops.append(more);
    assert(draw::drawing(ops@) =~= draw::drawing(old(ops)@) + draw::drawing(old(more)@));
}

/// What is said on a terminal that is too small.
fn too_small_message(area: Rect) -> (s: String)
    ensures
        s@ == app_model::too_small_text(area),
{
    let mut s: String = owned("Terminal too small. Minimum size: ");
    push_decimal(&mut s, MIN_WIDTH as u64);
    s.append("x");
    push_decimal(&mut s, MIN_HEIGHT as u64);
    s.append(" (current ");
    push_decimal(&mut s, area.width as u64);
    s.append("x");
    push_decimal(&mut s, area.height as u64);
    s.append(")");
    s
}

/// Passes on what the popup asks for.
fn pass_on(actions: Vec<PopupAction>) -> (r: Vec<AppAction>)
    ensures
        asked(r@) == app_model::passed_on(popup::asked(actions@)),
{
    let mut rest: Vec<PopupAction> = actions;
    let mut r: Vec<AppAction> = Vec::new();
    let ghost all = app_model::passed_on(popup::asked(actions@));
    let ghost n = actions@.len();
    assert(asked(r@) =~= all.take(0));
    while rest.len() > 0
        invariant
            rest@.len() <= n,
            n == actions@.len(),
            all == app_model::passed_on(popup::asked(actions@)),
            rest@ == actions@.skip(n - rest@.len()),
            asked(r@) == all.take(n - rest@.len()),
        decreases rest.len(),
    {
        let ghost k = n - rest@.len();
        let first: PopupAction = rest.remove(0);
        assert(first == actions@[k]);
        r.push(AppAction::Popup(first));
        assert(rest@ =~= actions@.skip(k + 1));
        assert(all.take(k + 1) =~= all.take(k).push(all[k]));
        assert(asked(r@) =~= all.take(k + 1));
    }
    assert(all.take(n as int) =~= all);
    r
}

/// How long to wait for a terminal event, in milliseconds: not at all if tiles have come in, so
/// that the next drawing shows them.
pub fn poll_wait_millis(had_tile_ready: bool) -> (r: u64)
    ensures
        r == if had_tile_ready {
            0u64
        } else {
            16
        },
{
    if had_tile_ready {
        0
    } else {
        16
    }
}

} // verus!
