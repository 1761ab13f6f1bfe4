//! The radio popup as a state machine: what every input does to it, and what it asks its host
//! to do.

use crate::draw::{self, Color, DrawSpec};
use crate::geometry::Rect;
use crate::input::{Event, KeyCode, MapInput, MouseButton, MouseEvent, MouseEventKind};
use crate::player::PlayerSpec;
use crate::plugin::{self, EventSpec, RadioPlayMode, StationSpec};
use crate::text;
use vstd::prelude::*;
use vstd::utf8;

verus! {

/// The least time between two requests that the user starts with Enter, in nanoseconds.
pub const SEARCH_INTERVAL_NANOS: u128 = 900_000_000;

/// The number of lines above the station list.
pub const LIST_TOP: u16 = 5;

/// What the popup knows.
#[verifier::ext_equal]
pub struct PopupSpec {
    pub visible: bool,
    pub play_mode: RadioPlayMode,
    pub query: Seq<char>,
    pub results: Seq<StationSpec>,
    pub nearby: Seq<StationSpec>,
    pub selected: int,
    pub pending: Option<EventSpec>,
    /// Events go to the host at once instead of waiting to be taken.
    pub direct_events: bool,
    pub status: Option<Seq<char>>,
    pub query_dirty: bool,
    pub in_search_mode: bool,
    pub center_lat: Seq<char>,
    pub center_lon: Seq<char>,
    pub now_playing: Option<Seq<char>>,
    /// When the user last started a request.
    pub last_search_at: Option<u128>,
    /// The stations found for earlier queries.
    pub cache: Map<Seq<char>, Seq<StationSpec>>,
    pub api_base: Seq<char>,
    pub content: Rect,
    pub player_exe: Seq<char>,
}

/// Something the popup asks its host to do.
pub enum ActionSpec {
    StopPlayback,
    KillExternal,
    TogglePause,
    VolumeUp,
    VolumeDown,
    FetchNearby { url: Seq<char>, report: bool },
    Search { url: Seq<char> },
    Send(EventSpec),
    Play { url: Seq<char> },
    SpawnExternal { exe: Seq<char>, url: Seq<char>, has_geo: bool },
}

/// The state after an input, and what is asked of the host.
pub type Step = (PopupSpec, Seq<ActionSpec>);

/// Nothing is asked of the host.
pub open spec fn quiet(s: PopupSpec) -> Step {
    (s, Seq::empty())
}

impl PopupSpec {
    /// The list on display.
    pub open spec fn active(self) -> Seq<StationSpec> {
        if self.in_search_mode {
            self.results
        } else {
            self.nearby
        }
    }

    /// The same popup with a status line.
    pub open spec fn says(self, status: Seq<char>) -> PopupSpec {
        PopupSpec { status: Some(status), ..self }
    }

    /// The request for stations near the map center.
    pub open spec fn nearby_url(self) -> Seq<char> {
        self.api_base + "/json/stations/bygeo?lat="@ + self.center_lat + "&lng="@ + self.center_lon
            + "&limit=20&hidebroken=true"@
    }

    /// The request for stations by name.
    pub open spec fn search_url(self) -> Seq<char> {
        self.api_base + "/json/stations/search?name="@ + text::percent_encoded(
            utf8::encode_utf8(self.query),
        ) + "&limit=15&hidebroken=true&has_geo_info=true"@
    }

    /// The first station of the list that is drawn: five above the selected one, if there are.
    pub open spec fn first_shown(self) -> int {
        if self.selected >= 5 {
            self.selected - 5
        } else {
            0
        }
    }
}

// ---------------------------------------------------------------------------
// Opening and closing
// ---------------------------------------------------------------------------

/// A popup that was never opened. The external player is `mpv` unless another is named.
pub open spec fn fresh(external_player: Option<Seq<char>>) -> PopupSpec {
    PopupSpec {
        visible: false,
        play_mode: RadioPlayMode::PlayInPlugin,
        query: Seq::empty(),
        results: Seq::empty(),
        nearby: Seq::empty(),
        selected: 0,
        pending: None,
        direct_events: false,
        status: None,
        query_dirty: true,
        in_search_mode: false,
        center_lat: "20"@,
        center_lon: "0"@,
        now_playing: None,
        last_search_at: None,
        cache: Map::empty(),
        api_base: "https://api.radio-browser.info"@,
        content: Rect { x: 0, y: 0, width: 0, height: 0 },
        player_exe: match external_player {
            Some(exe) => exe,
            None => "mpv"@,
        },
    }
}

pub open spec fn opened(s: PopupSpec) -> Step {
    (
        PopupSpec {
            visible: true,
            query: Seq::empty(),
            results: Seq::empty(),
            selected: 0,
            pending: None,
            status: Some("Type a station name, press Enter to search."@),
            query_dirty: true,
            last_search_at: None,
            in_search_mode: false,
            ..s
        },
        seq![ActionSpec::FetchNearby { url: s.nearby_url(), report: false }],
    )
}

pub open spec fn closed(s: PopupSpec) -> Step {
    (PopupSpec { visible: false, pending: None, ..s }, seq![ActionSpec::KillExternal])
}

/// A playback error that the player reported is shown.
pub open spec fn polled(s: PopupSpec, player_error: Option<Seq<char>>) -> PopupSpec {
    match player_error {
        Some(e) => s.says("Playback: "@ + e),
        None => s,
    }
}

// ---------------------------------------------------------------------------
// Picking a station
// ---------------------------------------------------------------------------

/// A station with a place closes the popup, so that the map shows it; without one the status
/// says so.
pub open spec fn after_pick(s: PopupSpec, has_geo: bool) -> PopupSpec {
    if has_geo {
        PopupSpec { visible: false, ..s }
    } else {
        match s.status {
            Some(prev) => s.says(prev + " (no station geo — map not centered)"@),
            None => s.says("No station geo — map not centered."@),
        }
    }
}

/// The station is announced to the host, and its stream is started as the play mode says.
pub open spec fn emitted(s: PopupSpec, station: StationSpec) -> Step {
    let event = plugin::picked(station, s.play_mode);
    let url = station.stream_url;
    let announced = if s.direct_events {
        seq![ActionSpec::Send(event)]
    } else {
        Seq::empty()
    };
    let t = PopupSpec {
        pending: if s.direct_events {
            s.pending
        } else {
            Some(event)
        },
        ..s
    };
    match s.play_mode {
        RadioPlayMode::PlayInPlugin => (
            after_pick(
                PopupSpec { now_playing: Some(url), ..t }.says(
                    "Playing stream (native). p: pause, +/- volume."@,
                ),
                station.has_geo(),
            ),
            announced.push(ActionSpec::Play { url }),
        ),
        RadioPlayMode::UrlOnly => (
            after_pick(
                PopupSpec { now_playing: Some(url), ..t }.says(
                    "URL only — stream not started."@,
                ),
                station.has_geo(),
            ),
            announced,
        ),
        RadioPlayMode::ExternalPlayer => (
            t,
            announced.push(ActionSpec::StopPlayback).push(ActionSpec::KillExternal).push(
                ActionSpec::SpawnExternal { exe: s.player_exe, url, has_geo: station.has_geo() },
            ),
        ),
    }
}

/// The external player was started, or could not be.
pub open spec fn spawned(
    s: PopupSpec,
    url: Seq<char>,
    has_geo: bool,
    failure: Option<Seq<char>>,
) -> PopupSpec {
    let t = PopupSpec { now_playing: Some(url), ..s };
    after_pick(
        match failure {
            None => t.says("Playing in "@ + s.player_exe + " (external)."@),
            Some(e) => t.says("External player: "@ + s.player_exe + ": "@ + e),
        },
        has_geo,
    )
}

// ---------------------------------------------------------------------------
// Searching
// ---------------------------------------------------------------------------

/// The last request was started less than the allowed interval ago.
pub open spec fn too_soon(s: PopupSpec, now: u128) -> bool {
    match s.last_search_at {
        Some(t) => now < t + SEARCH_INTERVAL_NANOS,
        None => false,
    }
}

/// A request that the user started has succeeded.
pub open spec fn request_done(s: PopupSpec) -> PopupSpec {
    PopupSpec { status: None, selected: 0, ..s }
}

/// The query is looked up: what is remembered of it becomes the results, and where nothing is,
/// the directory has to be asked at an address.
pub open spec fn searched(s: PopupSpec) -> (PopupSpec, Option<Seq<char>>) {
    if s.cache.contains_key(s.query) {
        (
            PopupSpec { results: s.cache[s.query], query_dirty: false, status: None, ..s },
            None,
        )
    } else {
        (s, Some(s.search_url()))
    }
}

/// Enter with a query that was not looked up yet, or outside the search list.
pub open spec fn request_started(s: PopupSpec, now: u128) -> Step {
    if too_soon(s, now) {
        quiet(s.says("Please wait a moment before searching again."@))
    } else {
        let t = PopupSpec { last_search_at: Some(now), ..s };
        if !s.in_search_mode {
            (
                t.says("Loading nearby stations…"@),
                seq![ActionSpec::FetchNearby { url: s.nearby_url(), report: true }],
            )
        } else {
            let (u, ask) = searched(t);
            match ask {
                None => quiet(request_done(u)),
                Some(url) => (u.says("Searching…"@), seq![ActionSpec::Search { url }]),
            }
        }
    }
}

/// Picks the selected station of the list on display, if there is one.
pub open spec fn pick_selected(s: PopupSpec) -> Step {
    if s.selected < s.active().len() {
        emitted(s, s.active()[s.selected])
    } else {
        quiet(s)
    }
}

pub open spec fn entered(s: PopupSpec, now: u128) -> Step {
    if text::blank(s.query) {
        if s.in_search_mode {
            quiet(s)
        } else {
            pick_selected(s)
        }
    } else if s.query_dirty || !s.in_search_mode {
        request_started(s, now)
    } else {
        pick_selected(s)
    }
}

/// The directory answered a request for nearby stations.
pub open spec fn nearby_answer(s: PopupSpec, report: bool, found: Seq<StationSpec>) -> PopupSpec {
    let t = PopupSpec { nearby: found, in_search_mode: false, query_dirty: false, ..s };
    if report {
        request_done(t)
    } else {
        t
    }
}

/// The directory answered a search. Once more than ten queries are remembered they are
/// forgotten, all at once.
pub open spec fn search_answer(s: PopupSpec, found: Seq<StationSpec>) -> PopupSpec {
    let kept = if s.cache.len() > 10 {
        Map::empty()
    } else {
        s.cache
    };
    request_done(
        PopupSpec {
            results: found,
            cache: kept.insert(s.query, found),
            query_dirty: false,
            in_search_mode: true,
            ..s
        },
    )
}

/// A request that the user started has failed.
pub open spec fn request_failed(s: PopupSpec, error: Seq<char>) -> PopupSpec {
    s.says("Search failed: "@ + error)
}

// ---------------------------------------------------------------------------
// Keys
// ---------------------------------------------------------------------------

/// The next play mode in the cycle.
pub open spec fn next_mode(mode: RadioPlayMode) -> RadioPlayMode {
    match mode {
        RadioPlayMode::PlayInPlugin => RadioPlayMode::UrlOnly,
        RadioPlayMode::UrlOnly => RadioPlayMode::ExternalPlayer,
        RadioPlayMode::ExternalPlayer => RadioPlayMode::PlayInPlugin,
    }
}

/// The name of a play mode.
pub open spec fn mode_name(mode: RadioPlayMode) -> Seq<char> {
    match mode {
        RadioPlayMode::PlayInPlugin => "PlayInPlugin"@,
        RadioPlayMode::UrlOnly => "UrlOnly"@,
        RadioPlayMode::ExternalPlayer => "ExternalPlayer"@,
    }
}

pub open spec fn moved_up(s: PopupSpec) -> PopupSpec {
    if s.selected > 0 {
        PopupSpec { selected: s.selected - 1, ..s }
    } else {
        s
    }
}

pub open spec fn moved_down(s: PopupSpec) -> PopupSpec {
    if s.selected + 1 < s.active().len() {
        PopupSpec { selected: s.selected + 1, ..s }
    } else {
        s
    }
}

pub open spec fn tabbed(s: PopupSpec) -> Step {
    let t = PopupSpec { in_search_mode: !s.in_search_mode, selected: 0, ..s };
    if t.in_search_mode {
        quiet(t)
    } else {
        (t, seq![ActionSpec::FetchNearby { url: s.nearby_url(), report: false }])
    }
}

pub open spec fn typed(s: PopupSpec, c: char) -> Step {
    let native = s.play_mode == RadioPlayMode::PlayInPlugin;
    if c == 'x' {
        (
            PopupSpec { now_playing: None, ..s }.says("Playback stopped."@),
            seq![ActionSpec::StopPlayback, ActionSpec::KillExternal],
        )
    } else if c == 'p' {
        if native {
            (s, seq![ActionSpec::TogglePause])
        } else {
            quiet(s.says("Pause only applies to native (in-plugin) playback."@))
        }
    } else if c == '+' || c == '=' {
        if native {
            (s, seq![ActionSpec::VolumeUp])
        } else {
            quiet(s)
        }
    } else if c == '-' || c == '_' {
        if native {
            (s, seq![ActionSpec::VolumeDown])
        } else {
            quiet(s)
        }
    } else if c == 'm' {
        let m = next_mode(s.play_mode);
        quiet(PopupSpec { play_mode: m, ..s }.says("Mode: "@ + mode_name(m)))
    } else {
        quiet(PopupSpec { in_search_mode: true, query: s.query.push(c), query_dirty: true, ..s })
    }
}

pub open spec fn key_step(s: PopupSpec, code: KeyCode, now: u128) -> Step {
    match code {
        KeyCode::Esc => closed(s),
        KeyCode::Tab => tabbed(s),
        KeyCode::Up => quiet(moved_up(s)),
        KeyCode::Down => quiet(moved_down(s)),
        KeyCode::Enter => entered(s, now),
        KeyCode::Backspace => quiet(
            PopupSpec {
                query: if s.query.len() > 0 {
                    s.query.drop_last()
                } else {
                    s.query
                },
                query_dirty: true,
                ..s
            },
        ),
        KeyCode::Char(c) => typed(s, c),
        _ => quiet(s),
    }
}

// ---------------------------------------------------------------------------
// Mouse
// ---------------------------------------------------------------------------

/// The station under the mouse, if there is one.
pub open spec fn station_under(s: PopupSpec, column: int, row: int) -> Option<int> {
    let a = s.content;
    let top = a.y + LIST_TOP;
    let idx = s.first_shown() + row - top;
    if a.x <= column < a.x + a.width && top <= row < a.y + a.height && idx < s.active().len() {
        Some(idx)
    } else {
        None
    }
}

pub open spec fn mouse_step(s: PopupSpec, m: MouseEvent) -> Step {
    if s.content.width == 0 || s.content.height == 0 {
        quiet(s)
    } else {
        match m.kind {
            MouseEventKind::ScrollUp => quiet(moved_up(s)),
            MouseEventKind::ScrollDown => quiet(moved_down(s)),
            MouseEventKind::Down(MouseButton::Left) => match station_under(
                s,
                m.column as int,
                m.row as int,
            ) {
                Some(idx) => quiet(PopupSpec { selected: idx, ..s }),
                None => quiet(s),
            },
            MouseEventKind::Down(MouseButton::Right) => match station_under(
                s,
                m.column as int,
                m.row as int,
            ) {
                Some(idx) => emitted(PopupSpec { selected: idx, ..s }, s.active()[idx]),
                None => quiet(s),
            },
            _ => quiet(s),
        }
    }
}

/// What an input does. A hidden popup takes no notice of anything.
pub open spec fn input_step(
    s: PopupSpec,
    input: MapInput,
    now: u128,
    player_error: Option<Seq<char>>,
) -> Step {
    if !s.visible {
        quiet(s)
    } else {
        let t = polled(s, player_error);
        match input {
            MapInput::Tick => quiet(t),
            MapInput::CEvent(Event::Mouse(m)) => mouse_step(t, m),
            MapInput::CEvent(Event::Key(k)) => if k.control {
                quiet(t)
            } else {
                key_step(t, k.code, now)
            },
            MapInput::CEvent(Event::Other) => quiet(t),
        }
    }
}

// ---------------------------------------------------------------------------
// Drawing
// ---------------------------------------------------------------------------

/// The lines above the list.
pub open spec fn header(s: PopupSpec) -> Seq<Seq<char>> {
    let lines = seq![
        "Radio Browser  (m mode · Tab · Esc · mouse: wheel scroll, R-click play)"@,
        "Mode: "@ + (if s.in_search_mode {
            "Search"@
        } else {
            "Nearby (20)"@
        }),
        "Query: "@ + s.query,
        "Playback: "@ + mode_name(s.play_mode)
            + "  (env OPENRUSTMAP_RADIO_PLAYER, default mpv)"@,
        match s.status {
            Some(status) => status,
            None => "Enter pick · ↑↓ · x stop · p pause(native) · +/- vol"@,
        },
    ];
    match s.now_playing {
        Some(url) => lines.push("Now playing: "@ + url),
        None => lines,
    }
}

/// The header, cut to the height of the popup.
pub open spec fn header_drawing(s: PopupSpec, area: Rect) -> Seq<DrawSpec> {
    let lines = header(s);
    Seq::new(
        if lines.len() <= area.height {
            lines.len()
        } else {
            area.height as nat
        },
        |i: int| draw::text_at(area.x as int, area.y + i, lines[i], Color::White),
    )
}

/// How many stations are drawn: as many as there are from the first shown one on, and fit.
pub open spec fn rows_shown(s: PopupSpec, area: Rect) -> nat {
    let room = area.height - LIST_TOP;
    let left = s.active().len() - s.first_shown();
    if room <= 0 || left <= 0 {
        0
    } else if room <= left {
        room as nat
    } else {
        left as nat
    }
}

/// One station of the list; the selected one is marked.
pub open spec fn list_row(s: PopupSpec, area: Rect, i: int) -> DrawSpec {
    let idx = s.first_shown() + i;
    draw::text_at(
        area.x as int,
        area.y + LIST_TOP + i,
        (if idx == s.selected {
            ">"@
        } else {
            " "@
        }) + " "@ + s.active()[idx].name,
        if idx == s.selected {
            Color::Yellow
        } else {
            Color::DarkGray
        },
    )
}

/// The stations on display.
pub open spec fn list_drawing(s: PopupSpec, area: Rect) -> Seq<DrawSpec> {
    Seq::new(rows_shown(s, area), |i: int| list_row(s, area, i))
}

/// The popup as drawn into `area`.
pub open spec fn popup_drawing(s: PopupSpec, area: Rect) -> Seq<DrawSpec> {
    seq![DrawSpec::Clear(area)] + header_drawing(s, area) + list_drawing(s, area)
}

// ---------------------------------------------------------------------------
// Laws
// ---------------------------------------------------------------------------

/// The left mouse button selects, and the right one picks, the very station that is drawn under
/// the mouse.
pub proof fn law_click_hits_the_drawn_station(s: PopupSpec, i: int, column: int)
    requires
        0 <= s.selected,
        0 <= i < rows_shown(s, s.content),
        s.content.x <= column < s.content.x + s.content.width,
    ensures
        list_drawing(s, s.content)[i] matches DrawSpec::Text { y, .. } && station_under(
            s,
            column,
            y,
        ) == Some(s.first_shown() + i),
        list_drawing(s, s.content)[i] == list_row(s, s.content, i),
{
}

/// A selected station is always on display where the list has room for six.
pub proof fn law_selection_is_shown(s: PopupSpec, area: Rect)
    requires
        0 <= s.selected < s.active().len(),
        area.height > LIST_TOP + 5,
    ensures
        s.first_shown() <= s.selected < s.first_shown() + rows_shown(s, area),
{
}

/// Moving and clicking keep the selection on the list.
pub proof fn law_selection_stays_on_the_list(s: PopupSpec, m: MouseEvent)
    requires
        0 <= s.selected < s.active().len(),
    ensures
        0 <= moved_up(s).selected < moved_up(s).active().len(),
        0 <= moved_down(s).selected < moved_down(s).active().len(),
        0 <= mouse_step(s, m).0.selected < mouse_step(s, m).0.active().len(),
{
}

/// A hidden popup neither changes nor asks for anything.
pub proof fn law_hidden_popup_is_inert(
    s: PopupSpec,
    input: MapInput,
    now: u128,
    player_error: Option<Seq<char>>,
)
    requires
        !s.visible,
    ensures
        input_step(s, input, now, player_error) == quiet(s),
{
}

/// Three changes of the play mode lead back to the first one, and every mode is reached.
pub proof fn law_modes_cycle(mode: RadioPlayMode)
    ensures
        next_mode(next_mode(next_mode(mode))) == mode,
        next_mode(mode) != mode,
        next_mode(next_mode(mode)) != mode,
{
}

/// Whether something is asked of the directory service.
pub open spec fn asks_directory(actions: Seq<ActionSpec>) -> bool {
    exists|i: int|
        0 <= i < actions.len() && (#[trigger] actions[i] is FetchNearby || actions[i] is Search)
}

/// Between two requests that Enter starts there is at least the allowed interval.
pub proof fn law_requests_are_spaced(s: PopupSpec, now: u128, later: u128)
    requires
        asks_directory(entered(s, now).1),
        later < now + SEARCH_INTERVAL_NANOS,
    ensures
        entered(s, now).0.last_search_at == Some(now),
        forall|t: PopupSpec|
            t.last_search_at == Some(now) ==> !asks_directory(#[trigger] entered(t, later).1),
{
    lemma_picking_asks_nothing(s);
    assert forall|t: PopupSpec| t.last_search_at == Some(now) implies !asks_directory(
        #[trigger] entered(t, later).1,
    ) by {
        lemma_picking_asks_nothing(t);
    }
}

proof fn lemma_picking_asks_nothing(s: PopupSpec)
    ensures
        !asks_directory(pick_selected(s).1),
{
}

/// A search that was answered is answered again from memory: the same query asks nothing of the
/// directory and shows the same stations.
pub proof fn law_answers_are_remembered(s: PopupSpec, found: Seq<StationSpec>, now: u128)
    requires
        !text::blank(s.query),
        !too_soon(s, now),
    ensures
        ({
            let t = search_answer(s, found);
            let again = PopupSpec { query_dirty: true, ..t };
            &&& t.results == found
            &&& entered(again, now).1 == Seq::<ActionSpec>::empty()
            &&& entered(again, now).0.results == found
        }),
{
}

/// A picked station is announced exactly once, with the action of the play mode: directly where
/// the host listens, and otherwise as the one event that waits to be taken.
pub proof fn law_pick_is_announced_once(s: PopupSpec, station: StationSpec)
    ensures
        !s.direct_events ==> emitted(s, station).0.pending == Some(
            plugin::picked(station, s.play_mode),
        ),
        s.direct_events ==> emitted(s, station).1[0] == ActionSpec::Send(
            plugin::picked(station, s.play_mode),
        ) && emitted(s, station).0.pending == s.pending,
        forall|i: int|
            0 <= i < emitted(s, station).1.len() && (#[trigger] emitted(s, station).1[i] is Send)
                ==> s.direct_events && i == 0,
{
}

/// A stream is never handed to an external player while the native one or an earlier external
/// one goes on.
pub proof fn law_external_player_is_alone(s: PopupSpec, station: StationSpec, i: int)
    requires
        0 <= i < emitted(s, station).1.len(),
        emitted(s, station).1[i] is SpawnExternal,
    ensures
        i >= 2,
        emitted(s, station).1[i - 2] == ActionSpec::StopPlayback,
        emitted(s, station).1[i - 1] == ActionSpec::KillExternal,
{
}

/// Closing hides the popup, drops a waiting event and ends the external player.
pub proof fn law_escape_closes(s: PopupSpec, now: u128)
    ensures
        !key_step(s, KeyCode::Esc, now).0.visible,
        key_step(s, KeyCode::Esc, now).0.pending is None,
        key_step(s, KeyCode::Esc, now).1 == seq![ActionSpec::KillExternal],
{
}

/// A text typed and deleted again leaves the query as it was.
pub proof fn law_backspace_undoes_typing(s: PopupSpec, c: char, now: u128)
    requires
        c != 'x' && c != 'p' && c != '+' && c != '=' && c != '-' && c != '_' && c != 'm',
    ensures
        key_step(key_step(s, KeyCode::Char(c), now).0, KeyCode::Backspace, now).0.query == s.query,
{
    assert(s.query.push(c).drop_last() =~= s.query);
}

/// An error of the player becomes the status, and nothing else of the popup changes. It is told
/// once: asking the player again leaves the status alone.
pub proof fn law_player_error_is_shown_once(s: PopupSpec, player: PlayerSpec)
    ensures
        ({
            let (after, error) = player.error_taken();
            let t = polled(s, error);
            let (again, next) = after.error_taken();
            &&& error == player.last_error
            &&& t == match player.last_error {
                Some(e) => PopupSpec { status: Some("Playback: "@ + e), ..s },
                None => s,
            }
            &&& after.last_error is None
            &&& again == after
            &&& polled(t, next) == t
        }),
{
}

/// The row lies in the list part of the popup, and the column in its width.
pub open spec fn on_list(area: Rect, column: int, row: int) -> bool {
    &&& area.x <= column < area.x + area.width
    &&& area.y + LIST_TOP <= row < area.y + area.height
}

/// What the mouse does in a popup that was drawn: the left button selects the station that is
/// drawn on its row, the right one selects and picks it, and a button anywhere else does nothing.
/// The wheel moves the selection by one, as far as the list goes. The lists never change.
pub proof fn law_mouse_acts_on_what_is_drawn(s: PopupSpec, m: MouseEvent)
    requires
        0 <= s.selected,
        s.content.width > 0 && s.content.height > 0,
    ensures
        ({
            let t = mouse_step(s, m);
            let k = m.row - (s.content.y + LIST_TOP);
            let i = s.first_shown() + k;
            let hit = on_list(s.content, m.column as int, m.row as int) && i < s.active().len();
            &&& t.0.results == s.results
            &&& t.0.nearby == s.nearby
            &&& t.0.in_search_mode == s.in_search_mode
            &&& hit ==> {
                &&& 0 <= k < list_drawing(s, s.content).len()
                &&& list_drawing(s, s.content)[k] matches DrawSpec::Text { x, y, text, .. } && {
                    &&& x == s.content.x
                    &&& y == m.row
                    &&& text == (if i == s.selected {
                        ">"@
                    } else {
                        " "@
                    }) + " "@ + s.active()[i].name
                }
            }
            &&& match m.kind {
                MouseEventKind::Down(MouseButton::Left) => t == if hit {
                    quiet(PopupSpec { selected: i, ..s })
                } else {
                    quiet(s)
                },
                MouseEventKind::Down(MouseButton::Right) => if hit {
                    &&& t == emitted(PopupSpec { selected: i, ..s }, s.active()[i])
                    &&& t.0.selected == i
                } else {
                    t == quiet(s)
                },
                MouseEventKind::ScrollUp => t == quiet(
                    PopupSpec {
                        selected: if s.selected > 0 {
                            s.selected - 1
                        } else {
                            0
                        },
                        ..s
                    },
                ),
                MouseEventKind::ScrollDown => t == quiet(
                    PopupSpec {
                        selected: if s.selected + 1 < s.active().len() {
                            s.selected + 1
                        } else {
                            s.selected
                        },
                        ..s
                    },
                ),
                _ => t == quiet(s),
            }
        }),
{
}

/// A search goes to memory first: a query that is remembered asks nothing of the directory, shows
/// the remembered stations and forgets none. Another is asked at its address, and nothing changes
/// before the answer.
pub proof fn law_search_goes_to_memory_first(s: PopupSpec, now: u128)
    ensures
        s.cache.contains_key(s.query) ==> {
            let (t, ask) = searched(s);
            &&& ask is None
            &&& t.results == s.cache[s.query]
            &&& !t.query_dirty
            &&& t.cache == s.cache
            &&& t.nearby == s.nearby
            &&& t.in_search_mode == s.in_search_mode
        },
        !s.cache.contains_key(s.query) ==> searched(s) == (s, Some(s.search_url())),
        forall|i: int|
            0 <= i < entered(s, now).1.len() && (#[trigger] entered(s, now).1[i] is Search) ==> {
                &&& !s.cache.contains_key(s.query)
                &&& entered(s, now).1[i] == ActionSpec::Search { url: s.search_url() }
            },
{
}

/// A search that failed changes nothing but the status.
pub proof fn law_failed_search_keeps_everything(s: PopupSpec, error: Seq<char>)
    ensures
        request_failed(s, error) == (PopupSpec {
            status: Some("Search failed: "@ + error),
            ..s
        }),
{
}

/// At most eleven answers are remembered, whatever is searched for and answered.
pub proof fn law_few_answers_are_remembered(s: PopupSpec, found: Seq<StationSpec>, error: Seq<char>)
    requires
        s.cache.dom().finite(),
        s.cache.len() <= 11,
    ensures
        searched(s).0.cache == s.cache,
        request_failed(s, error).cache == s.cache,
        search_answer(s, found).cache.dom().finite(),
        search_answer(s, found).cache.len() <= 11,
{
}

} // verus!
