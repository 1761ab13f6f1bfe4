//! Radio stations and the events that a station picker sends to its host.

use crate::text::{self, is_blank, join};
use vstd::prelude::*;

verus! {

/// What happens with the stream of a picked station.
#[derive(Debug, Clone, Copy, PartialEq, Eq, Structural)]
pub enum RadioPlayMode {
    /// The Radio-map plugin plays the stream itself.
    PlayInPlugin,
    /// Do not play; only provide the stream URL and the station info.
    UrlOnly,
    /// Hand off playback to an external process.
    ExternalPlayer,
}

/// A coordinate in degrees, kept as the bit pattern of its floating-point number: the station
/// rules carry coordinates and ask whether they are known, but do not calculate with them.
#[derive(Debug, Clone, Copy, PartialEq, Eq, Structural)]
pub struct Degrees {
    pub bits: u64,
}

/// A radio station.
#[derive(Debug, PartialEq, Eq)]
pub struct StationInfo {
    pub station_uuid: String,
    pub name: String,
    pub stream_url: String,
    pub geo_lat: Option<Degrees>,
    pub geo_long: Option<Degrees>,
}

/// What a station holds.
pub struct StationSpec {
    pub station_uuid: Seq<char>,
    pub name: Seq<char>,
    pub stream_url: Seq<char>,
    pub geo_lat: Option<Degrees>,
    pub geo_long: Option<Degrees>,
}

impl View for StationInfo {
    type V = StationSpec;

    open spec fn view(&self) -> StationSpec {
        StationSpec {
            station_uuid: self.station_uuid@,
            name: self.name@,
            stream_url: self.stream_url@,
            geo_lat: self.geo_lat,
            geo_long: self.geo_long,
        }
    }
}

impl Clone for StationInfo {
    fn clone(&self) -> (r: Self)
        ensures
            r == *self,
    {
        StationInfo {
            station_uuid: self.station_uuid.clone(),
            name: self.name.clone(),
            stream_url: self.stream_url.clone(),
            geo_lat: self.geo_lat,
            geo_long: self.geo_long,
        }
    }
}

impl StationSpec {
    /// Both coordinates are known.
    pub open spec fn has_geo(self) -> bool {
        self.geo_lat is Some && self.geo_long is Some
    }
}

/// What a list of stations holds.
pub open spec fn stations(v: Seq<StationInfo>) -> Seq<StationSpec> {
    v.map_values(|s: StationInfo| s@)
}

/// A copy of a list of stations.
pub fn clone_stations(v: &Vec<StationInfo>) -> (r: Vec<StationInfo>)
    ensures
        r@ == v@,
{
    let mut r: Vec<StationInfo> = Vec::new();
    let mut i: usize = 0;
    while i < v.len()
        invariant
            i <= v.len(),
            r@ == v@.take(i as int),
        decreases v.len() - i,
    {
        r.push(v[i].clone());
        i = i + 1;
        assert(v@.take(i as int) =~= v@.take(i - 1).push(v@[i - 1]));
    }
    assert(v@.take(v@.len() as int) =~= v@);
    r
}

/// What the host is asked to do with a picked station.
#[derive(Debug, Clone, Copy, PartialEq, Eq, Structural)]
pub enum StationSelectedAction {
    /// The Radio-map plugin plays the stream (native engine).
    PlayInPlugin,
    /// Do not play; only show the URL and the info.
    UrlOnly,
    /// An external player is started for the stream.
    ExternalPlayer,
}

/// A picked station.
#[derive(Debug, PartialEq, Eq)]
pub struct StationSelected {
    pub station: StationInfo,
    pub action: StationSelectedAction,
}

/// An event from the plugin to its host.
#[derive(Debug, PartialEq, Eq)]
pub enum PluginEvent {
    StationSelected(StationSelected),
}

impl Clone for StationSelected {
    fn clone(&self) -> (r: Self)
        ensures
            r == *self,
    {
        StationSelected { station: self.station.clone(), action: self.action }
    }
}

impl Clone for PluginEvent {
    fn clone(&self) -> (r: Self)
        ensures
            r == *self,
    {
        match self {
            PluginEvent::StationSelected(s) => PluginEvent::StationSelected(s.clone()),
        }
    }
}

/// What an event says.
pub struct EventSpec {
    pub station: StationSpec,
    pub action: StationSelectedAction,
}

impl View for PluginEvent {
    type V = EventSpec;

    open spec fn view(&self) -> EventSpec {
        match self {
            PluginEvent::StationSelected(s) => EventSpec { station: s.station@, action: s.action },
        }
    }
}

/// What an optional event says.
pub open spec fn event_view(e: Option<PluginEvent>) -> Option<EventSpec> {
    match e {
        Some(e) => Some(e@),
        None => None,
    }
}

/// The action that belongs to a play mode.
pub open spec fn action_of(mode: RadioPlayMode) -> StationSelectedAction {
    match mode {
        RadioPlayMode::PlayInPlugin => StationSelectedAction::PlayInPlugin,
        RadioPlayMode::UrlOnly => StationSelectedAction::UrlOnly,
        RadioPlayMode::ExternalPlayer => StationSelectedAction::ExternalPlayer,
    }
}

/// The action that belongs to a play mode.
pub fn action_for_play_mode(mode: RadioPlayMode) -> (r: StationSelectedAction)
    ensures
        r == action_of(mode),
{
    match mode {
        RadioPlayMode::PlayInPlugin => StationSelectedAction::PlayInPlugin,
        RadioPlayMode::UrlOnly => StationSelectedAction::UrlOnly,
        RadioPlayMode::ExternalPlayer => StationSelectedAction::ExternalPlayer,
    }
}

/// The event of picking a station in a play mode.
pub open spec fn picked(station: StationSpec, mode: RadioPlayMode) -> EventSpec {
    EventSpec { station, action: action_of(mode) }
}

/// The station picker as its host sees it: at most one event is waiting to be taken.
#[derive(Debug, PartialEq, Eq)]
pub struct RadioBrowserPlugin {
    pub play_mode: RadioPlayMode,
    pub pending_event: Option<PluginEvent>,
}

impl Clone for RadioBrowserPlugin {
    fn clone(&self) -> (r: Self)
        ensures
            r == *self,
    {
        RadioBrowserPlugin {
            play_mode: self.play_mode,
            pending_event: match &self.pending_event {
                Some(e) => Some(e.clone()),
                None => None,
            },
        }
    }
}

impl Default for RadioBrowserPlugin {
    fn default() -> (r: Self)
        ensures
            r.play_mode == RadioPlayMode::PlayInPlugin,
            r.pending_event is None,
    {
        RadioBrowserPlugin { play_mode: RadioPlayMode::PlayInPlugin, pending_event: None }
    }
}

impl RadioBrowserPlugin {
    /// Called by the plugin UI when the user selects a station. An event that was still waiting
    /// is replaced.
    pub fn station_picked(&mut self, station: StationInfo)
        ensures
            final(self).play_mode == old(self).play_mode,
            event_view(final(self).pending_event) == Some(picked(station@, old(self).play_mode)),
    {
        let action: StationSelectedAction = action_for_play_mode(self.play_mode);
        self.pending_event = Some(PluginEvent::StationSelected(StationSelected { station, action }));
    }

    /// Takes the waiting event, if there is one.
    pub fn take_event(&mut self) -> (r: Option<PluginEvent>)
        ensures
            r == old(self).pending_event,
            final(self).pending_event is None,
            final(self).play_mode == old(self).play_mode,
    {
        self.pending_event.take()
    }
}

// ---------------------------------------------------------------------------
// Stations as the directory service reports them
// ---------------------------------------------------------------------------

/// A station in an answer of the directory service.
pub struct StationResponse {
    pub stationuuid: String,
    pub name: String,
    pub url_resolved: String,
    pub url: String,
    pub geo_lat: Option<Degrees>,
    pub geo_long: Option<Degrees>,
}

/// The station that an answer describes. Its stream is the resolved URL, unless that is blank.
pub open spec fn station_of(r: StationResponse) -> StationSpec {
    StationSpec {
        station_uuid: r.stationuuid@,
        name: r.name@,
        stream_url: if text::blank(r.url_resolved@) {
            r.url@
        } else {
            r.url_resolved@
        },
        geo_lat: r.geo_lat,
        geo_long: r.geo_long,
    }
}

/// The stations that an answer describes, in its order.
pub open spec fn stations_of(v: Seq<StationResponse>) -> Seq<StationSpec> {
    v.map_values(|r: StationResponse| station_of(r))
}

/// Turns one entry of an answer into a station.
pub fn station_from_response(r: StationResponse) -> (s: StationInfo)
    ensures
        s@ == station_of(r),
{
    let stream_url: String = if is_blank(r.url_resolved.as_str()) {
        r.url
    } else {
        r.url_resolved
    };
    StationInfo {
        station_uuid: r.stationuuid,
        name: r.name,
        stream_url,
        geo_lat: r.geo_lat,
        geo_long: r.geo_long,
    }
}

/// Turns an answer into stations.
pub fn stations_from_response(v: Vec<StationResponse>) -> (r: Vec<StationInfo>)
    ensures
        stations(r@) == stations_of(v@),
        r@.len() == v@.len(),
        forall|i: int|
            0 <= i < v@.len() ==> {
                &&& (#[trigger] r@[i]).station_uuid@ == v@[i].stationuuid@
                &&& r@[i].name@ == v@[i].name@
                &&& r@[i].geo_lat == v@[i].geo_lat
                &&& r@[i].geo_long == v@[i].geo_long
                &&& r@[i].stream_url@ == if text::blank(v@[i].url_resolved@) {
                    v@[i].url@
                } else {
                    v@[i].url_resolved@
                }
            },
{
    let mut rest: Vec<StationResponse> = v;
    let mut r: Vec<StationInfo> = Vec::new();
    let ghost n = v@.len();
    assert(stations(r@) =~= stations_of(v@).take(0));
    while rest.len() > 0
        invariant
            rest@.len() <= n,
            n == v@.len(),
            rest@ == v@.skip(n - rest@.len()),
            stations(r@) == stations_of(v@).take(n - rest@.len()),
        decreases rest.len(),
    {
        let ghost k = n - rest@.len();
        let first: StationResponse = rest.remove(0);
        assert(first == v@[k]);
        let station: StationInfo = station_from_response(first);
        r.push(station);
        assert(rest@ =~= v@.skip(k + 1));
        assert(stations_of(v@).take(k + 1) =~= stations_of(v@).take(k).push(station_of(first)));
        assert(stations(r@) =~= stations_of(v@).take(k + 1));
    }
    assert(stations_of(v@).take(n as int) =~= stations_of(v@));
    assert(stations(r@).len() == stations_of(v@).len());
    assert forall|i: int| 0 <= i < v@.len() implies (#[trigger] r@[i])@ == station_of(v@[i]) by {
        assert(stations(r@)[i] == stations_of(v@)[i]);
    }
    r
}

/// The error of a request that the directory service refused, if it did.
pub fn directory_status_error(success: bool, status: &str) -> (r: Option<String>)
    ensures
        text::text_view(r) == if success {
            None
        } else {
            Some("HTTP "@ + status@)
        },
{
    if success {
        None
    } else {
        Some(join("HTTP ", status))
    }
}

} // verus!
