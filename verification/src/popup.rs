//! The popup in which the user searches for radio stations and picks one.

use crate::draw::{self, push_clear, push_text, Color, DrawOp};
use crate::geometry::Rect;
use crate::input::{Event, KeyCode, MapInput, MouseButton, MouseEvent, MouseEventKind};
use crate::plugin::{
    self, action_for_play_mode, clone_stations, stations_from_response, PluginEvent, RadioPlayMode,
    StationInfo, StationResponse, StationSelected,
};
use crate::popup_model::{self, ActionSpec, PopupSpec, LIST_TOP, SEARCH_INTERVAL_NANOS};
use crate::text::{self, is_blank, join, join3, owned, percent_encode};
use vstd::hash_map::StringHashMap;
use vstd::prelude::*;

verus! {

/// The outside work that the popup asks its host to do, in order.
#[derive(Debug, PartialEq, Eq)]
pub enum PopupAction {
    /// Stop native playback.
    StopPlayback,
    /// End the external player, if one is running.
    KillExternal,
    /// Pause or resume native playback, then report with `pause_toggled`.
    TogglePause,
    /// Make native playback louder, then report with `volume_changed`.
    VolumeUp,
    /// Make native playback quieter, then report with `volume_changed`.
    VolumeDown,
    /// Request nearby stations, then report with `nearby_answered`.
    FetchNearby { url: String, report: bool },
    /// Request stations by name, then report with `search_answered`.
    Search { url: String },
    /// Send an event to the host.
    Send(PluginEvent),
    /// Start native playback.
    Play { url: String },
    /// Start the external player, then report with `external_started`.
    SpawnExternal { exe: String, url: String, has_geo: bool },
}

impl View for PopupAction {
    type V = ActionSpec;

    open spec fn view(&self) -> ActionSpec {
        match self {
            PopupAction::StopPlayback => ActionSpec::StopPlayback,
            PopupAction::KillExternal => ActionSpec::KillExternal,
            PopupAction::TogglePause => ActionSpec::TogglePause,
            PopupAction::VolumeUp => ActionSpec::VolumeUp,
            PopupAction::VolumeDown => ActionSpec::VolumeDown,
            PopupAction::FetchNearby { url, report } => ActionSpec::FetchNearby {
                url: url@,
                report: *report,
            },
            PopupAction::Search { url } => ActionSpec::Search { url: url@ },
            PopupAction::Send(e) => ActionSpec::Send(e@),
            PopupAction::Play { url } => ActionSpec::Play { url: url@ },
            PopupAction::SpawnExternal { exe, url, has_geo } => ActionSpec::SpawnExternal {
                exe: exe@,
                url: url@,
                has_geo: *has_geo,
            },
        }
    }
}

/// What a list of actions asks for.
pub open spec fn asked(v: Seq<PopupAction>) -> Seq<ActionSpec> {
    v.map_values(|a: PopupAction| a@)
}

/// What the remembered answers hold.
pub open spec fn cache_view(m: Map<Seq<char>, Vec<StationInfo>>) -> Map<
    Seq<char>,
    Seq<plugin::StationSpec>,
> {
    m.map_values(|v: Vec<StationInfo>| plugin::stations(v@))
}

/// Popup UI for station search and picking.
///
/// - typing a station name and Enter searches
/// - arrow keys move the selection
/// - Enter picks the selected station
pub struct RadioBrowserPopup {
    pub visible: bool,
    pub play_mode: RadioPlayMode,
    pub query: String,
    pub results: Vec<StationInfo>,
    pub nearby_results: Vec<StationInfo>,
    pub selected: usize,
    pub pending_event: Option<PluginEvent>,
    /// The host listens for events; otherwise it takes them with `take_event`.
    pub direct_events: bool,
    pub status: Option<String>,
    pub query_dirty: bool,
    pub in_search_mode: bool,
    /// The map center in degrees, written as in a request.
    pub map_center_lat: String,
    pub map_center_lon: String,
    pub now_playing_url: Option<String>,
    /// When the user last started a request, in nanoseconds of the host's clock.
    pub last_search_at: Option<u128>,
    pub result_cache: StringHashMap<Vec<StationInfo>>,
    pub api_base_url: String,
    /// The area of the last drawing, for mouse hits.
    pub last_content_rect: Rect,
    /// The executable of the external player.
    pub external_player_exe: String,
}

impl View for RadioBrowserPopup {
    type V = PopupSpec;

    open spec fn view(&self) -> PopupSpec {
        PopupSpec {
            visible: self.visible,
            play_mode: self.play_mode,
            query: self.query@,
            results: plugin::stations(self.results@),
            nearby: plugin::stations(self.nearby_results@),
            selected: self.selected as int,
            pending: plugin::event_view(self.pending_event),
            direct_events: self.direct_events,
            status: text::text_view(self.status),
            query_dirty: self.query_dirty,
            in_search_mode: self.in_search_mode,
            center_lat: self.map_center_lat@,
            center_lon: self.map_center_lon@,
            now_playing: text::text_view(self.now_playing_url),
            last_search_at: self.last_search_at,
            cache: cache_view(self.result_cache@),
            api_base: self.api_base_url@,
            content: self.last_content_rect,
            player_exe: self.external_player_exe@,
        }
    }
}

/// An area that the popup can be drawn into.
pub open spec fn drawable_area(area: Rect) -> bool {
    area.fits() && area.y + LIST_TOP <= u16::MAX
}

impl RadioBrowserPopup {
    /// The selection can be moved on by one, the last drawing was possible, and few answers are
    /// remembered.
    pub open spec fn wf(self) -> bool {
        &&& self.selected < usize::MAX
        &&& drawable_area(self.last_content_rect)
        &&& self.result_cache@.dom().finite()
        &&& self.result_cache@.len() <= 11
    }

    /// A hidden popup. The external player is `mpv` unless the environment names another.
    pub fn new(external_player: Option<String>) -> (r: Self)
        ensures
            r.wf(),
            r@ == popup_model::fresh(text::text_view(external_player)),
    {
        let r = RadioBrowserPopup {
            visible: false,
            play_mode: RadioPlayMode::PlayInPlugin,
            query: String::new(),
            results: Vec::new(),
            nearby_results: Vec::new(),
            selected: 0,
            pending_event: None,
            direct_events: false,
            status: None,
            query_dirty: true,
            in_search_mode: false,
            map_center_lat: owned("20"),
            map_center_lon: owned("0"),
            now_playing_url: None,
            last_search_at: None,
            result_cache: StringHashMap::new(),
            api_base_url: owned("https://api.radio-browser.info"),
            last_content_rect: Rect { x: 0, y: 0, width: 0, height: 0 },
            external_player_exe: match external_player {
                Some(exe) => exe,
                None => owned("mpv"),
            },
        };
        assert(plugin::stations(r.results@) =~= Seq::empty());
        assert(cache_view(r.result_cache@) =~= Map::empty());
        assert(r@ =~= popup_model::fresh(text::text_view(external_player)));
        r
    }

    /// Shows the popup with an empty query, and asks for the stations near the map center.
    pub fn open(&mut self) -> (r: Vec<PopupAction>)
        requires
            old(self).wf(),
        ensures
            final(self).wf(),
            (final(self)@, asked(r@)) == popup_model::opened(old(self)@),
    {
        self.visible = true;
        self.query = String::new();
        self.results = Vec::new();
        self.selected = 0;
        self.pending_event = None;
        self.status = Some(owned("Type a station name, press Enter to search."));
        self.query_dirty = true;
        self.last_search_at = None;
        self.in_search_mode = false;
        let r = vec![PopupAction::FetchNearby { url: self.nearby_url(), report: false }];
        assert(plugin::stations(self.results@) =~= Seq::empty());
        assert(asked(r@) =~= popup_model::opened(old(self)@).1);
        r
    }

    /// Hides the popup.
    pub fn close(&mut self) -> (r: Vec<PopupAction>)
        requires
            old(self).wf(),
        ensures
            final(self).wf(),
            (final(self)@, asked(r@)) == popup_model::closed(old(self)@),
    {
        self.visible = false;
        self.pending_event = None;
        let r = vec![PopupAction::KillExternal];
        assert(asked(r@) =~= popup_model::closed(old(self)@).1);
        r
    }

    /// Takes the waiting event, if there is one.
    pub fn take_event(&mut self) -> (r: Option<PluginEvent>)
        requires
            old(self).wf(),
        ensures
            final(self).wf(),
            r == old(self).pending_event,
            final(self)@ == (PopupSpec { pending: None, ..old(self)@ }),
    {
        self.pending_event.take()
    }

    /// From now on events are sent to the host at once.
    pub fn set_event_tx(&mut self)
        requires
            old(self).wf(),
        ensures
            final(self).wf(),
            final(self)@ == (PopupSpec { direct_events: true, ..old(self)@ }),
    {
        self.direct_events = true;
    }

    /// Tells the popup where the map is, for requests of nearby stations.
    pub fn set_map_center(&mut self, lat: String, lon: String)
        requires
            old(self).wf(),
        ensures
            final(self).wf(),
            final(self)@ == (PopupSpec { center_lat: lat@, center_lon: lon@, ..old(self)@ }),
    {
        self.map_center_lat = lat;
        self.map_center_lon = lon;
    }

    /// If true, the popup is in external-player mode when it is next shown. If false, the mode
    /// chosen before is kept.
    pub fn set_prefer_external_player(&mut self, prefer: bool)
        requires
            old(self).wf(),
        ensures
            final(self).wf(),
            final(self)@ == (if prefer {
                PopupSpec { play_mode: RadioPlayMode::ExternalPlayer, ..old(self)@ }
            } else {
                old(self)@
            }),
    {
        if prefer {
            self.play_mode = RadioPlayMode::ExternalPlayer;
        }
    }

    /// Shows an error that the player has reported since the last call.
    pub fn poll_player_errors(&mut self, player_error: Option<String>)
        requires
            old(self).wf(),
        ensures
            final(self).wf(),
            final(self)@ == popup_model::polled(old(self)@, text::text_view(player_error)),
    {
        if let Some(err) = player_error {
            self.status = Some(join("Playback: ", err.as_str()));
        }
    }

    fn nearby_url(&self) -> (r: String)
        ensures
            r@ == self@.nearby_url(),
    {
        let mut url = self.api_base_url.clone();
        url.append("/json/stations/bygeo?lat=");
        url.append(self.map_center_lat.as_str());
        url.append("&lng=");
        url.append(self.map_center_lon.as_str());
        url.append("&limit=20&hidebroken=true");
        url
    }

    fn search_url(&self) -> (r: String)
        ensures
            r@ == self@.search_url(),
    {
        let mut url = self.api_base_url.clone();
        url.append("/json/stations/search?name=");
        url.append(percent_encode(self.query.as_str()).as_str());
        url.append("&limit=15&hidebroken=true&has_geo_info=true");
        url
    }

    fn active_len(&self) -> (r: usize)
        ensures
            r == self@.active().len(),
    {
        if self.in_search_mode {
            self.results.len()
        } else {
            self.nearby_results.len()
        }
    }

    fn active_station(&self, idx: usize) -> (r: StationInfo)
        requires
            idx < self@.active().len(),
        ensures
            r@ == self@.active()[idx as int],
    {
        if self.in_search_mode {
            self.results[idx].clone()
        } else {
            self.nearby_results[idx].clone()
        }
    }

    /// Handles an input. `now` is the time of the host's clock in nanoseconds, and
    /// `player_error` an error that the player has reported since the last call; it is left with
    /// the player while the popup is hidden. What the popup asks for is to be done in order.
    pub fn handle_input(
        &mut self,
        input: MapInput,
        now: u128,
        player_error: Option<String>,
    ) -> (r: Vec<PopupAction>)
        requires
            old(self).wf(),
            !old(self).visible ==> player_error is None,
        ensures
            final(self).wf(),
            (final(self)@, asked(r@)) == popup_model::input_step(
                old(self)@,
                input,
                now,
                text::text_view(player_error),
            ),
    {
        let nothing: Vec<PopupAction> = Vec::new();
        assert(asked(nothing@) =~= Seq::empty());
        if !self.visible {
            return nothing;
        }
        self.poll_player_errors(player_error);
        match input {
            MapInput::Tick => nothing,
            MapInput::CEvent(Event::Mouse(m)) => self.handle_mouse(m),
            MapInput::CEvent(Event::Key(k)) => {
                if k.control {
                    return nothing;
                }
                self.handle_key(k.code, now)
            },
            MapInput::CEvent(Event::Other) => nothing,
        }
    }

    fn handle_key(&mut self, code: KeyCode, now: u128) -> (r: Vec<PopupAction>)
        requires
            old(self).wf(),
        ensures
            final(self).wf(),
            (final(self)@, asked(r@)) == popup_model::key_step(old(self)@, code, now),
    {
        let mut r: Vec<PopupAction> = Vec::new();
        assert(asked(r@) =~= Seq::empty());
        match code {
            KeyCode::Esc => { return self.close(); },
            KeyCode::Tab => {
                self.in_search_mode = !self.in_search_mode;
                self.selected = 0;
                if !self.in_search_mode {
                    r.push(PopupAction::FetchNearby { url: self.nearby_url(), report: false });
                }
            },
            KeyCode::Up => { self.move_up(); },
            KeyCode::Down => { self.move_down(); },
            KeyCode::Enter => { return self.enter(now); },
            KeyCode::Backspace => {
                let _ = self.query.pop();
                self.query_dirty = true;
            },
            KeyCode::Char(c) => { return self.type_char(c); },
            _ => {},
        }
        assert(asked(r@) =~= popup_model::key_step(old(self)@, code, now).1);
        r
    }

    fn move_up(&mut self)
        requires
            old(self).wf(),
        ensures
            final(self).wf(),
            final(self)@ == popup_model::moved_up(old(self)@),
    {
        if self.selected > 0 {
            self.selected = self.selected - 1;
        }
    }

    fn move_down(&mut self)
        requires
            old(self).wf(),
        ensures
            final(self).wf(),
            final(self)@ == popup_model::moved_down(old(self)@),
    {
        if self.selected + 1 < self.active_len() {
            self.selected = self.selected + 1;
        }
    }

    fn type_char(&mut self, c: char) -> (r: Vec<PopupAction>)
        requires
            old(self).wf(),
        ensures
            final(self).wf(),
            (final(self)@, asked(r@)) == popup_model::typed(old(self)@, c),
    {
        let mut r: Vec<PopupAction> = Vec::new();
        let native: bool = match self.play_mode {
            RadioPlayMode::PlayInPlugin => true,
            _ => false,
        };
        if c == 'x' {
            r.push(PopupAction::StopPlayback);
            r.push(PopupAction::KillExternal);
            self.status = Some(owned("Playback stopped."));
            self.now_playing_url = None;
        } else if c == 'p' {
            if native {
                r.push(PopupAction::TogglePause);
            } else {
                self.status = Some(owned("Pause only applies to native (in-plugin) playback."));
            }
        } else if c == '+' || c == '=' {
            if native {
                r.push(PopupAction::VolumeUp);
            }
        } else if c == '-' || c == '_' {
            if native {
                r.push(PopupAction::VolumeDown);
            }
        } else if c == 'm' {
            self.play_mode = match self.play_mode {
                RadioPlayMode::PlayInPlugin => RadioPlayMode::UrlOnly,
                RadioPlayMode::UrlOnly => RadioPlayMode::ExternalPlayer,
                RadioPlayMode::ExternalPlayer => RadioPlayMode::PlayInPlugin,
            };
            self.status = Some(join("Mode: ", mode_text(self.play_mode)));
        } else {
            self.in_search_mode = true;
            self.query.push(c);
            self.query_dirty = true;
        }
        assert(asked(r@) =~= popup_model::typed(old(self)@, c).1);
        r
    }

    fn enter(&mut self, now: u128) -> (r: Vec<PopupAction>)
        requires
            old(self).wf(),
        ensures
            final(self).wf(),
            (final(self)@, asked(r@)) == popup_model::entered(old(self)@, now),
    {
        if is_blank(self.query.as_str()) {
            if self.in_search_mode {
                let r: Vec<PopupAction> = Vec::new();
                assert(asked(r@) =~= Seq::empty());
                return r;
            }
            return self.pick_selected();
        }
        if self.query_dirty || !self.in_search_mode {
            self.start_request(now)
        } else {
            self.pick_selected()
        }
    }

    fn pick_selected(&mut self) -> (r: Vec<PopupAction>)
        requires
            old(self).wf(),
        ensures
            final(self).wf(),
            (final(self)@, asked(r@)) == popup_model::pick_selected(old(self)@),
    {
        if self.selected < self.active_len() {
            let station: StationInfo = self.active_station(self.selected);
            return self.emit_station(station);
        }
        let r: Vec<PopupAction> = Vec::new();
        assert(asked(r@) =~= Seq::empty());
        r
    }

    fn start_request(&mut self, now: u128) -> (r: Vec<PopupAction>)
        requires
            old(self).wf(),
        ensures
            final(self).wf(),
            (final(self)@, asked(r@)) == popup_model::request_started(old(self)@, now),
    {
        let mut r: Vec<PopupAction> = Vec::new();
        let wait: bool = match self.last_search_at {
            Some(t) => now < t || now - t < SEARCH_INTERVAL_NANOS,
            None => false,
        };
        if wait {
            self.status = Some(owned("Please wait a moment before searching again."));
        } else {
            self.last_search_at = Some(now);
            if !self.in_search_mode {
                self.status = Some(owned("Loading nearby stations…"));
                r.push(PopupAction::FetchNearby { url: self.nearby_url(), report: true });
            } else {
                match self.search_now() {
                    None => {
                        self.status = None;
                        self.selected = 0;
                    },
                    Some(url) => {
                        self.status = Some(owned("Searching…"));
                        r.push(PopupAction::Search { url });
                    },
                }
            }
        }
        assert(asked(r@) =~= popup_model::request_started(old(self)@, now).1);
        r
    }

    /// Looks the query up: takes over what is remembered of it, or returns the address to ask the
    /// directory at. Its answer is reported with `search_answered`.
    pub fn search_now(&mut self) -> (r: Option<String>)
        requires
            old(self).wf(),
        ensures
            final(self).wf(),
            (final(self)@, text::text_view(r)) == popup_model::searched(old(self)@),
    {
        match self.remembered() {
            Some(found) => {
                self.results = found;
                self.query_dirty = false;
                self.status = None;
                None
            },
            None => Some(self.search_url()),
        }
    }

    /// The remembered answer to the current query, if there is one.
    fn remembered(&self) -> (r: Option<Vec<StationInfo>>)
        ensures
            r is Some <==> self@.cache.contains_key(self@.query),
            r matches Some(v) ==> plugin::stations(v@) == self@.cache[self@.query],
    {
        match self.result_cache.get(self.query.as_str()) {
            Some(v) => Some(clone_stations(v)),
            None => None,
        }
    }

    /// The directory answered a request for nearby stations, or an error came back. `report` is
    /// that of the request.
    pub fn nearby_answered(&mut self, report: bool, answer: Result<Vec<StationResponse>, String>)
        requires
            old(self).wf(),
        ensures
            final(self).wf(),
            final(self)@ == match answer {
                Ok(v) => popup_model::nearby_answer(old(self)@, report, plugin::stations_of(v@)),
                Err(e) => if report {
                    popup_model::request_failed(old(self)@, e@)
                } else {
                    old(self)@
                },
            },
            answer matches Ok(v) ==> {
                &&& final(self).nearby_results@.len() == v@.len()
                &&& forall|i: int|
                    0 <= i < v@.len() ==> {
                        let s = #[trigger] final(self).nearby_results@[i];
                        &&& s.station_uuid@ == v@[i].stationuuid@
                        &&& s.name@ == v@[i].name@
                        &&& s.geo_lat == v@[i].geo_lat
                        &&& s.geo_long == v@[i].geo_long
                        &&& s.stream_url@ == if text::blank(v@[i].url_resolved@) {
                            v@[i].url@
                        } else {
                            v@[i].url_resolved@
                        }
                    }
            },
    {
        match answer {
            Ok(v) => {
                self.nearby_results = stations_from_response(v);
                self.in_search_mode = false;
                self.query_dirty = false;
                if report {
                    self.status = None;
                    self.selected = 0;
                }
            },
            Err(e) => {
                if report {
                    self.status = Some(join("Search failed: ", e.as_str()));
                }
            },
        }
    }

    /// The directory answered a search by name, or an error came back.
    pub fn search_answered(&mut self, answer: Result<Vec<StationResponse>, String>)
        requires
            old(self).wf(),
        ensures
            final(self).wf(),
            final(self)@ == match answer {
                Ok(v) => popup_model::search_answer(old(self)@, plugin::stations_of(v@)),
                Err(e) => popup_model::request_failed(old(self)@, e@),
            },
            answer matches Ok(v) ==> {
                &&& final(self).results@.len() == v@.len()
                &&& forall|i: int|
                    0 <= i < v@.len() ==> {
                        let s = #[trigger] final(self).results@[i];
                        &&& s.station_uuid@ == v@[i].stationuuid@
                        &&& s.name@ == v@[i].name@
                        &&& s.geo_lat == v@[i].geo_lat
                        &&& s.geo_long == v@[i].geo_long
                        &&& s.stream_url@ == if text::blank(v@[i].url_resolved@) {
                            v@[i].url@
                        } else {
                            v@[i].url_resolved@
                        }
                    }
            },
    {
        match answer {
            Ok(v) => {
                self.results = stations_from_response(v);
                let ghost before = self.result_cache@;
                proof {
                    lemma_cache_len(before);
                }
                if self.result_cache.len() > 10 {
                    self.result_cache.clear();
                    assert(cache_view(self.result_cache@) =~= Map::empty());
                }
                let ghost kept = self.result_cache@;
                let found: Vec<StationInfo> = clone_stations(&self.results);
                self.result_cache.insert(self.query.clone(), found);
                assert(cache_view(self.result_cache@) =~= cache_view(kept).insert(
                    self.query@,
                    plugin::stations(self.results@),
                ));
                self.query_dirty = false;
                self.in_search_mode = true;
                self.status = None;
                self.selected = 0;
            },
            Err(e) => {
                self.status = Some(join("Search failed: ", e.as_str()));
            },
        }
    }

    /// Native playback was paused or resumed.
    pub fn pause_toggled(&mut self, paused: bool)
        requires
            old(self).wf(),
        ensures
            final(self).wf(),
            final(self)@ == old(self)@.says(
                if paused {
                    "Paused (native)."@
                } else {
                    "Resumed (native)."@
                },
            ),
    {
        let msg: &str = if paused {
            "Paused (native)."
        } else {
            "Resumed (native)."
        };
        self.status = Some(owned(msg));
    }

    /// The volume was changed; `percent` is the new one, rounded.
    pub fn volume_changed(&mut self, percent: &str)
        requires
            old(self).wf(),
        ensures
            final(self).wf(),
            final(self)@ == old(self)@.says("Volume: "@ + percent@ + "%"@),
    {
        self.status = Some(join3("Volume: ", percent, "%"));
    }

    /// The external player was started, or could not be started for the reason given.
    pub fn external_started(&mut self, url: String, has_geo: bool, outcome: Result<(), String>)
        requires
            old(self).wf(),
        ensures
            final(self).wf(),
            final(self)@ == popup_model::spawned(
                old(self)@,
                url@,
                has_geo,
                match outcome {
                    Ok(_) => None,
                    Err(e) => Some(e@),
                },
            ),
    {
        self.now_playing_url = Some(url);
        match outcome {
            Ok(()) => {
                self.status = Some(
                    join3("Playing in ", self.external_player_exe.as_str(), " (external)."),
                );
            },
            Err(e) => {
                let mut s = join("External player: ", self.external_player_exe.as_str());
                s.append(": ");
                s.append(e.as_str());
                self.status = Some(s);
            },
        }
        self.finish_pick(has_geo);
    }

    fn finish_pick(&mut self, has_geo: bool)
        requires
            old(self).wf(),
        ensures
            final(self).wf(),
            final(self)@ == popup_model::after_pick(old(self)@, has_geo),
    {
        if has_geo {
            self.visible = false;
        } else {
            let note: String = match &self.status {
                Some(prev) => join(prev.as_str(), " (no station geo — map not centered)"),
                None => owned("No station geo — map not centered."),
            };
            self.status = Some(note);
        }
    }

    fn emit_station(&mut self, station: StationInfo) -> (r: Vec<PopupAction>)
        requires
            old(self).wf(),
        ensures
            final(self).wf(),
            (final(self)@, asked(r@)) == popup_model::emitted(old(self)@, station@),
    {
        let url: String = station.stream_url.clone();
        let has_geo: bool = station.geo_lat.is_some() && station.geo_long.is_some();
        let action = action_for_play_mode(self.play_mode);
        let event = PluginEvent::StationSelected(StationSelected { station, action });
        let mut r: Vec<PopupAction> = Vec::new();
        if self.direct_events {
            r.push(PopupAction::Send(event));
        } else {
            self.pending_event = Some(event);
        }
        match self.play_mode {
            RadioPlayMode::PlayInPlugin => {
                r.push(PopupAction::Play { url: url.clone() });
                self.now_playing_url = Some(url);
                self.status = Some(owned("Playing stream (native). p: pause, +/- volume."));
                self.finish_pick(has_geo);
            },
            RadioPlayMode::ExternalPlayer => {
                r.push(PopupAction::StopPlayback);
                r.push(PopupAction::KillExternal);
                let exe: String = self.external_player_exe.clone();
                r.push(PopupAction::SpawnExternal { exe, url, has_geo });
            },
            RadioPlayMode::UrlOnly => {
                self.now_playing_url = Some(url);
                self.status = Some(owned("URL only — stream not started."));
                self.finish_pick(has_geo);
            },
        }
        assert(asked(r@) =~= popup_model::emitted(old(self)@, station@).1);
        r
    }

    /// The station under a cell of the terminal.
    fn station_under(&self, column: u16, row: u16) -> (r: Option<usize>)
        requires
            self.wf(),
        ensures
            r is Some <==> popup_model::station_under(self@, column as int, row as int) is Some,
            r matches Some(idx) ==> idx < usize::MAX && popup_model::station_under(
                self@,
                column as int,
                row as int,
            ) == Some(idx as int),
    {
        let area: Rect = self.last_content_rect;
        let top: u16 = area.y + LIST_TOP;
        if column >= area.x && column < area.x + area.width && row >= top && row < area.y
            + area.height {
            let line: usize = (row - top) as usize;
            let start: usize = self.selected.saturating_sub(5);
            let len: usize = self.active_len();
            if line < len && start < len - line {
                return Some(start + line);
            }
        }
        None
    }

    /// Handles the mouse in a popup that is open.
    pub fn handle_mouse(&mut self, m: MouseEvent) -> (r: Vec<PopupAction>)
        requires
            old(self).wf(),
        ensures
            final(self).wf(),
            (final(self)@, asked(r@)) == popup_model::mouse_step(old(self)@, m),
    {
        let nothing: Vec<PopupAction> = Vec::new();
        assert(asked(nothing@) =~= Seq::empty());
        if self.last_content_rect.width == 0 || self.last_content_rect.height == 0 {
            return nothing;
        }
        match m.kind {
            MouseEventKind::ScrollUp => {
                self.move_up();
            },
            MouseEventKind::ScrollDown => {
                self.move_down();
            },
            MouseEventKind::Down(MouseButton::Left) => {
                if let Some(idx) = self.station_under(m.column, m.row) {
                    self.selected = idx;
                }
            },
            MouseEventKind::Down(MouseButton::Right) => {
                if let Some(idx) = self.station_under(m.column, m.row) {
                    self.selected = idx;
                    let station: StationInfo = self.active_station(idx);
                    return self.emit_station(station);
                }
            },
            _ => {},
        }
        nothing
    }

    /// Draws the popup into `area`. A hidden popup draws nothing.
    pub fn render(&mut self, area: Rect, player_error: Option<String>) -> (ops: Vec<DrawOp>)
        requires
            old(self).wf(),
            old(self).visible ==> drawable_area(area),
            !old(self).visible ==> player_error is None,
        ensures
            final(self).wf(),
            ({
                let s = popup_model::polled(
                    PopupSpec { content: area, ..old(self)@ },
                    text::text_view(player_error),
                );
                if old(self).visible {
                    &&& final(self)@ == s
                    &&& draw::drawing(ops@) == popup_model::popup_drawing(s, area)
                } else {
                    &&& final(self)@ == old(self)@
                    &&& ops@ == Seq::<DrawOp>::empty()
                }
            }),
    {
        let mut ops: Vec<DrawOp> = Vec::new();
        if !self.visible {
            return ops;
        }
        self.last_content_rect = area;
        self.poll_player_errors(player_error);
        assert(draw::drawing(ops@) =~= Seq::empty());
        push_clear(&mut ops, area);
        self.push_header(&mut ops, area);
        self.push_list(&mut ops, area);
        assert(draw::drawing(ops@) =~= popup_model::popup_drawing(self@, area));
        ops
    }

    fn header_lines(&self) -> (v: Vec<String>)
        ensures
            text::texts(v@) == popup_model::header(self@),
    {
        let mut v: Vec<String> = Vec::new();
        v.push(owned("Radio Browser  (m mode · Tab · Esc · mouse: wheel scroll, R-click play)"));
        v.push(
            join(
                "Mode: ",
                if self.in_search_mode {
                    "Search"
                } else {
                    "Nearby (20)"
                },
            ),
        );
        v.push(join("Query: ", self.query.as_str()));
        v.push(
            join3(
                "Playback: ",
                mode_text(self.play_mode),
                "  (env OPENRUSTMAP_RADIO_PLAYER, default mpv)",
            ),
        );
        match &self.status {
            Some(status) => {
                v.push(status.clone());
            },
            None => {
                v.push(owned("Enter pick · ↑↓ · x stop · p pause(native) · +/- vol"));
            },
        }
        if let Some(url) = &self.now_playing_url {
            v.push(join("Now playing: ", url.as_str()));
        }
        assert(text::texts(v@) =~= popup_model::header(self@));
        v
    }

    fn push_header(&self, ops: &mut Vec<DrawOp>, area: Rect)
        requires
            drawable_area(area),
        ensures
            draw::drawing(final(ops)@) == draw::drawing(old(ops)@) + popup_model::header_drawing(
                self@,
                area,
            ),
    {
        let lines: Vec<String> = self.header_lines();
        let ghost all = popup_model::header_drawing(self@, area);
        assert(text::texts(lines@).len() == lines@.len());
        assert(draw::drawing(ops@) =~= draw::drawing(old(ops)@) + all.take(0));
        let mut i: usize = 0;
        while i < lines.len() && i < area.height as usize
            invariant
                drawable_area(area),
                i <= lines.len(),
                i <= area.height,
                text::texts(lines@) == popup_model::header(self@),
                text::texts(lines@).len() == lines@.len(),
                all == popup_model::header_drawing(self@, area),
                draw::drawing(ops@) == draw::drawing(old(ops)@) + all.take(i as int),
            decreases lines.len() - i,
        {
            assert(text::texts(lines@)[i as int] == lines@[i as int]@);
            push_text(ops, area.x, area.y + i as u16, lines[i].clone(), Color::White);
            i = i + 1;
            assert(all.take(i as int) =~= all.take(i - 1).push(all[i - 1]));
            assert(draw::drawing(ops@) =~= draw::drawing(old(ops)@) + all.take(i as int));
        }
        assert(all.take(i as int) =~= all);
    }

    fn push_list(&self, ops: &mut Vec<DrawOp>, area: Rect)
        requires
            drawable_area(area),
        ensures
            draw::drawing(final(ops)@) == draw::drawing(old(ops)@) + popup_model::list_drawing(
                self@,
                area,
            ),
    {
        let top: u16 = area.y + LIST_TOP;
        let room: u16 = (area.y + area.height).saturating_sub(top);
        let start: usize = self.selected.saturating_sub(5);
        let len: usize = self.active_len();
        let ghost all = popup_model::list_drawing(self@, area);
        assert(draw::drawing(ops@) =~= draw::drawing(old(ops)@) + all.take(0));
        let mut i: u16 = 0;
        while i < room && start < len && (i as usize) < len - start
            invariant
                drawable_area(area),
                top == area.y + LIST_TOP,
                room == (if area.height >= LIST_TOP {
                    area.height - LIST_TOP
                } else {
                    0
                }),
                start == self@.first_shown(),
                len == self@.active().len(),
                i <= room,
                i <= all.len(),
                all == popup_model::list_drawing(self@, area),
                draw::drawing(ops@) == draw::drawing(old(ops)@) + all.take(i as int),
            decreases room - i,
        {
            let idx: usize = start + i as usize;
            let station: StationInfo = self.active_station(idx);
            let here: bool = idx == self.selected;
            let prefix: &str = if here {
                ">"
            } else {
                " "
            };
            let color: Color = if here {
                Color::Yellow
            } else {
                Color::DarkGray
            };
            let left: String = join3(prefix, " ", station.name.as_str());
            push_text(ops, area.x, top + i, left, color);
            i = i + 1;
            assert(all.take(i as int) =~= all.take(i - 1).push(all[i - 1]));
            assert(draw::drawing(ops@) =~= draw::drawing(old(ops)@) + all.take(i as int));
        }
        assert(all.take(i as int) =~= all);
    }
}

/// The arguments that the external player is started with for a stream.
pub fn external_player_args(url: &str) -> (r: Vec<String>)
    ensures
        text::texts(r@) == seq!["--no-video"@, "--really-quiet"@, url@],
{
    let mut r: Vec<String> = Vec::new();
    r.push(owned("--no-video"));
    r.push(owned("--really-quiet"));
    r.push(owned(url));
    assert(text::texts(r@) =~= seq!["--no-video"@, "--really-quiet"@, url@]);
    r
}

/// The name of a play mode.
fn mode_text(mode: RadioPlayMode) -> (r: &'static str)
    ensures
        r@ == popup_model::mode_name(mode),
{
    match mode {
        RadioPlayMode::PlayInPlugin => "PlayInPlugin",
        RadioPlayMode::UrlOnly => "UrlOnly",
        RadioPlayMode::ExternalPlayer => "ExternalPlayer",
    }
}

proof fn lemma_cache_len(m: Map<Seq<char>, Vec<StationInfo>>)
    ensures
        cache_view(m).len() == m.len(),
{
    assert(cache_view(m).dom() =~= m.dom());
}

} // verus!
