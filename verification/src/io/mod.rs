//! The events that pass between the user interface and the session with the
//! server, and what both sides share.

use vstd::prelude::*;
use crate::io::browse::{BrowseItem, BrowseItemView, BrowseOpts, BrowseOptsView, BrowseResult, BrowseResultView, LoadOpts, LoadOptsView, LoadResult, LoadResultView};
use crate::io::events::KeyEvent;
use crate::io::roon_settings::{Persistent, PersistentView};
use crate::io::transport::{Control, Mute, Output, OutputView, QueueChange, QueueChangeView, QueueItem, QueueItemView, Zone, ZoneSeek, ZoneSeekView, ZoneSettings, ZoneView};

pub mod browse;
pub mod events;
pub mod roon;
pub mod roon_browse;
pub mod roon_settings;
pub mod transport;
pub mod zones;

verus! {

/// How a zone's queue is refilled.
#[derive(Clone, Copy, Debug, PartialEq, Eq, Structural)]
pub enum QueueMode {
    Manual,
    RoonRadio,
    RandomAlbum,
    RandomTrack,
}

impl Default for QueueMode {
    fn default() -> (r: Self)
        ensures
            r == QueueMode::Manual,
    {
        QueueMode::Manual
    }
}

impl DeepView for QueueMode {
    type V = QueueMode;

    open spec fn deep_view(&self) -> QueueMode {
        *self
    }
}

/// What can be picked as the place to play: a zone, one output of a grouped
/// zone, a saved preset, or a zone whose outputs are those of a preset.
#[derive(Debug, PartialEq, Eq)]
pub enum EndPoint {
    Zone(String),
    Output(String),
    Preset(String),
    MatchedPreset((String, String)),
}

/// The model of `EndPoint`: a string by its characters, a list by the sequence
/// of its items.
pub enum EndPointView {
    Zone(Seq<char>),
    Output(Seq<char>),
    Preset(Seq<char>),
    MatchedPreset((Seq<char>, Seq<char>)),
}

impl DeepView for EndPoint {
    type V = EndPointView;

    open spec fn deep_view(&self) -> EndPointView {
        match self {
            EndPoint::Zone(id) => EndPointView::Zone(id@),
            EndPoint::Output(id) => EndPointView::Output(id@),
            EndPoint::Preset(name) => EndPointView::Preset(name@),
            EndPoint::MatchedPreset(pair) => EndPointView::MatchedPreset((pair.0@, pair.1@)),
        }
    }
}

impl Clone for EndPoint {
    fn clone(&self) -> (r: Self)
        ensures
            r.deep_view() == self.deep_view(),
    {
        match self {
            EndPoint::Zone(id) => EndPoint::Zone(id.clone()),
            EndPoint::Output(id) => EndPoint::Output(id.clone()),
            EndPoint::Preset(name) => EndPoint::Preset(name.clone()),
            EndPoint::MatchedPreset(pair) => EndPoint::MatchedPreset(
                (pair.0.clone(), pair.1.clone()),
            ),
        }
    }
}

/// Copies a list of strings.
pub(crate) fn clone_strings(list: &Vec<String>) -> (r: Vec<String>)
    ensures
        r.deep_view() == list.deep_view(),
{
    let r = list.clone();
    assert(r.deep_view() =~= list.deep_view());
    r
}

/// Copies an optional string.
pub(crate) fn clone_opt_string(s: &Option<String>) -> (r: Option<String>)
    ensures
        r.deep_view() == s.deep_view(),
{
    match s {
        Some(s) => Some(s.clone()),
        None => None,
    }
}

/// Copies a list of end points with their names.
pub(crate) fn clone_zone_list(list: &Vec<(EndPoint, String)>) -> (r: Vec<(EndPoint, String)>)
    ensures
        r.deep_view() == list.deep_view(),
{
    let mut r: Vec<(EndPoint, String)> = Vec::new();
    let mut i: usize = 0;
    while i < list.len()
        invariant
            i <= list.len(),
            r.len() == i,
            forall|j: int| 0 <= j < i ==> r[j].deep_view() == list[j].deep_view(),
        decreases list.len() - i,
    {
        r.push((list[i].0.clone(), list[i].1.clone()));
        i += 1;
    }
    assert(r.deep_view() =~= list.deep_view());
    r
}

/// What passes between the user interface and the session with the server:
/// what the user asks for, and what the interface is to show.
#[derive(Debug, PartialEq, Eq)]
pub enum IoEvent {
    Input(KeyEvent),
    Redraw,
    CoreName(Option<String>),
    BrowseTitle(String),
    BrowseList(usize, Vec<BrowseItem>),
    BrowseSelected(Option<String>),
    BrowseBack,
    BrowseRefresh,
    BrowseHome,
    BrowseInput(String),
    QueueList(Vec<QueueItem>),
    QueueListChanges(Vec<QueueChange>),
    QueueListLast(Option<QueueItem>),
    QueueSelected(u32),
    QueueClear,
    QueueModeNext,
    QueueModeAppend,
    QueueModeCurrent(QueueMode),
    Zones(Vec<(EndPoint, String)>),
    ZoneSelect,
    ZoneSelected(EndPoint),
    ZoneChanged(Zone),
    ZoneRemoved(String),
    ZoneSeek(ZoneSeek),
    ZoneGroupReq,
    ZoneGrouping(Option<Vec<(String, String, bool)>>),
    ZoneGrouped(Vec<String>),
    ZoneSavePreset(String, Vec<String>),
    ZoneDeletePreset(String),
    ZoneMatchPreset(Vec<String>),
    ZonePresetMatched(Option<String>),
    Mute(Mute),
    ChangeVolume(i32),
    Control(Control),
    Repeat,
    Shuffle,
    PauseOnTrackEndReq,
    PauseOnTrackEndActive(bool),
}

/// The model of `IoEvent`: a string by its characters, a list by the sequence
/// of its items.
pub enum IoEventView {
    Input(KeyEvent),
    Redraw,
    CoreName(Option<Seq<char>>),
    BrowseTitle(Seq<char>),
    BrowseList(usize, Seq<BrowseItemView>),
    BrowseSelected(Option<Seq<char>>),
    BrowseBack,
    BrowseRefresh,
    BrowseHome,
    BrowseInput(Seq<char>),
    QueueList(Seq<QueueItemView>),
    QueueListChanges(Seq<QueueChangeView>),
    QueueListLast(Option<QueueItemView>),
    QueueSelected(u32),
    QueueClear,
    QueueModeNext,
    QueueModeAppend,
    QueueModeCurrent(QueueMode),
    Zones(Seq<(EndPointView, Seq<char>)>),
    ZoneSelect,
    ZoneSelected(EndPointView),
    ZoneChanged(ZoneView),
    ZoneRemoved(Seq<char>),
    ZoneSeek(ZoneSeekView),
    ZoneGroupReq,
    ZoneGrouping(Option<Seq<(Seq<char>, Seq<char>, bool)>>),
    ZoneGrouped(Seq<Seq<char>>),
    ZoneSavePreset(Seq<char>, Seq<Seq<char>>),
    ZoneDeletePreset(Seq<char>),
    ZoneMatchPreset(Seq<Seq<char>>),
    ZonePresetMatched(Option<Seq<char>>),
    Mute(Mute),
    ChangeVolume(i32),
    Control(Control),
    Repeat,
    Shuffle,
    PauseOnTrackEndReq,
    PauseOnTrackEndActive(bool),
}

impl DeepView for IoEvent {
    type V = IoEventView;

    open spec fn deep_view(&self) -> IoEventView {
        match self {
            IoEvent::Input(key) => IoEventView::Input(*key),
            IoEvent::Redraw => IoEventView::Redraw,
            IoEvent::CoreName(name) => IoEventView::CoreName(name.deep_view()),
            IoEvent::BrowseTitle(title) => IoEventView::BrowseTitle(title@),
            IoEvent::BrowseList(offset, items) => IoEventView::BrowseList(
                *offset,
                items.deep_view(),
            ),
            IoEvent::BrowseSelected(key) => IoEventView::BrowseSelected(key.deep_view()),
            IoEvent::BrowseBack => IoEventView::BrowseBack,
            IoEvent::BrowseRefresh => IoEventView::BrowseRefresh,
            IoEvent::BrowseHome => IoEventView::BrowseHome,
            IoEvent::BrowseInput(input) => IoEventView::BrowseInput(input@),
            IoEvent::QueueList(items) => IoEventView::QueueList(items.deep_view()),
            IoEvent::QueueListChanges(changes) => IoEventView::QueueListChanges(
                changes.deep_view(),
            ),
            IoEvent::QueueListLast(item) => IoEventView::QueueListLast(item.deep_view()),
            IoEvent::QueueSelected(id) => IoEventView::QueueSelected(*id),
            IoEvent::QueueClear => IoEventView::QueueClear,
            IoEvent::QueueModeNext => IoEventView::QueueModeNext,
            IoEvent::QueueModeAppend => IoEventView::QueueModeAppend,
            IoEvent::QueueModeCurrent(mode) => IoEventView::QueueModeCurrent(*mode),
            IoEvent::Zones(zones) => IoEventView::Zones(zones.deep_view()),
            IoEvent::ZoneSelect => IoEventView::ZoneSelect,
            IoEvent::ZoneSelected(end_point) => IoEventView::ZoneSelected(end_point.deep_view()),
            IoEvent::ZoneChanged(zone) => IoEventView::ZoneChanged(zone.deep_view()),
            IoEvent::ZoneRemoved(id) => IoEventView::ZoneRemoved(id@),
            IoEvent::ZoneSeek(seek) => IoEventView::ZoneSeek(seek.deep_view()),
            IoEvent::ZoneGroupReq => IoEventView::ZoneGroupReq,
            IoEvent::ZoneGrouping(grouping) => IoEventView::ZoneGrouping(grouping.deep_view()),
            IoEvent::ZoneGrouped(ids) => IoEventView::ZoneGrouped(ids.deep_view()),
            IoEvent::ZoneSavePreset(name, ids) => IoEventView::ZoneSavePreset(
                name@,
                ids.deep_view(),
            ),
            IoEvent::ZoneDeletePreset(name) => IoEventView::ZoneDeletePreset(name@),
            IoEvent::ZoneMatchPreset(ids) => IoEventView::ZoneMatchPreset(ids.deep_view()),
            IoEvent::ZonePresetMatched(name) => IoEventView::ZonePresetMatched(name.deep_view()),
            IoEvent::Mute(how) => IoEventView::Mute(*how),
            IoEvent::ChangeVolume(steps) => IoEventView::ChangeVolume(*steps),
            IoEvent::Control(how) => IoEventView::Control(*how),
            IoEvent::Repeat => IoEventView::Repeat,
            IoEvent::Shuffle => IoEventView::Shuffle,
            IoEvent::PauseOnTrackEndReq => IoEventView::PauseOnTrackEndReq,
            IoEvent::PauseOnTrackEndActive(active) => IoEventView::PauseOnTrackEndActive(*active),
        }
    }
}

/// What the server pushes.
#[derive(Debug, PartialEq, Eq)]
pub enum Parsed {
    RoonState,
    Zones(Vec<Zone>),
    ZonesRemoved(Vec<String>),
    ZonesSeek(Vec<ZoneSeek>),
    Queue(Vec<QueueItem>),
    QueueChanges(Vec<QueueChange>),
    Outputs(Vec<Output>),
    BrowseResult(BrowseResult, Option<String>),
    LoadResult(LoadResult, Option<String>),
    Other,
}

/// The model of `Parsed`: a string by its characters, a list by the sequence
/// of its items.
pub enum ParsedView {
    RoonState,
    Zones(Seq<ZoneView>),
    ZonesRemoved(Seq<Seq<char>>),
    ZonesSeek(Seq<ZoneSeekView>),
    Queue(Seq<QueueItemView>),
    QueueChanges(Seq<QueueChangeView>),
    Outputs(Seq<OutputView>),
    BrowseResult(BrowseResultView, Option<Seq<char>>),
    LoadResult(LoadResultView, Option<Seq<char>>),
    Other,
}

impl DeepView for Parsed {
    type V = ParsedView;

    open spec fn deep_view(&self) -> ParsedView {
        match self {
            Parsed::RoonState => ParsedView::RoonState,
            Parsed::Zones(zones) => ParsedView::Zones(zones.deep_view()),
            Parsed::ZonesRemoved(ids) => ParsedView::ZonesRemoved(ids.deep_view()),
            Parsed::ZonesSeek(seeks) => ParsedView::ZonesSeek(seeks.deep_view()),
            Parsed::Queue(items) => ParsedView::Queue(items.deep_view()),
            Parsed::QueueChanges(changes) => ParsedView::QueueChanges(changes.deep_view()),
            Parsed::Outputs(outputs) => ParsedView::Outputs(outputs.deep_view()),
            Parsed::BrowseResult(result, key) => ParsedView::BrowseResult(
                result.deep_view(),
                key.deep_view(),
            ),
            Parsed::LoadResult(result, key) => ParsedView::LoadResult(
                result.deep_view(),
                key.deep_view(),
            ),
            Parsed::Other => ParsedView::Other,
        }
    }
}

/// What is known of the connection to the server.
#[derive(Debug, PartialEq, Eq)]
pub enum CoreEvent {
    /// A server was found. The flags say whether it offers browsing and
    /// playback control.
    Found(String, bool, bool),
    Lost(String),
    Other,
}

/// The model of `CoreEvent`: a string by its characters, a list by the
/// sequence of its items.
pub enum CoreEventView {
    Found(Seq<char>, bool, bool),
    Lost(Seq<char>),
    Other,
}

impl DeepView for CoreEvent {
    type V = CoreEventView;

    open spec fn deep_view(&self) -> CoreEventView {
        match self {
            CoreEvent::Found(name, browse, transport) => CoreEventView::Found(
                name@,
                *browse,
                *transport,
            ),
            CoreEvent::Lost(name) => CoreEventView::Lost(name@),
            CoreEvent::Other => CoreEventView::Other,
        }
    }
}

/// What a handler asks its caller to do, in the order given: a request to
/// the server, a write of what is to be kept, or an event for the user
/// interface.
#[derive(Debug, PartialEq, Eq)]
pub enum Command {
    Browse(BrowseOpts),
    Load(LoadOpts),
    SubscribeZones,
    SubscribeQueue(String, u32),
    UnsubscribeQueue,
    GetOutputs,
    GetZones,
    Control(String, Control),
    Seek(String, i32),
    Mute(String, Mute),
    ChangeVolume(String, i32),
    ChangeSettings(String, ZoneSettings),
    GroupOutputs(Vec<String>),
    UngroupOutputs(Vec<String>),
    PlayFromHere(String, u32),
    SaveSettings(Persistent),
    SaveRoonState,
    Send(IoEvent),
}

/// The model of `Command`: a string by its characters, a list by the sequence
/// of its items.
pub enum CommandView {
    Browse(BrowseOptsView),
    Load(LoadOptsView),
    SubscribeZones,
    SubscribeQueue(Seq<char>, u32),
    UnsubscribeQueue,
    GetOutputs,
    GetZones,
    Control(Seq<char>, Control),
    Seek(Seq<char>, i32),
    Mute(Seq<char>, Mute),
    ChangeVolume(Seq<char>, i32),
    ChangeSettings(Seq<char>, ZoneSettings),
    GroupOutputs(Seq<Seq<char>>),
    UngroupOutputs(Seq<Seq<char>>),
    PlayFromHere(Seq<char>, u32),
    SaveSettings(PersistentView),
    SaveRoonState,
    Send(IoEventView),
}

impl DeepView for Command {
    type V = CommandView;

    open spec fn deep_view(&self) -> CommandView {
        match self {
            Command::Browse(opts) => CommandView::Browse(opts.deep_view()),
            Command::Load(opts) => CommandView::Load(opts.deep_view()),
            Command::SubscribeZones => CommandView::SubscribeZones,
            Command::SubscribeQueue(id, count) => CommandView::SubscribeQueue(id@, *count),
            Command::UnsubscribeQueue => CommandView::UnsubscribeQueue,
            Command::GetOutputs => CommandView::GetOutputs,
            Command::GetZones => CommandView::GetZones,
            Command::Control(id, how) => CommandView::Control(id@, *how),
            Command::Seek(id, seconds) => CommandView::Seek(id@, *seconds),
            Command::Mute(id, how) => CommandView::Mute(id@, *how),
            Command::ChangeVolume(id, steps) => CommandView::ChangeVolume(id@, *steps),
            Command::ChangeSettings(id, settings) => CommandView::ChangeSettings(id@, *settings),
            Command::GroupOutputs(ids) => CommandView::GroupOutputs(ids.deep_view()),
            Command::UngroupOutputs(ids) => CommandView::UngroupOutputs(ids.deep_view()),
            Command::PlayFromHere(id, item) => CommandView::PlayFromHere(id@, *item),
            Command::SaveSettings(persistent) => CommandView::SaveSettings(
                persistent.deep_view(),
            ),
            Command::SaveRoonState => CommandView::SaveRoonState,
            Command::Send(event) => CommandView::Send(event.deep_view()),
        }
    }
}

/// Appends a command to a list of commands.
pub(crate) fn emit(out: &mut Vec<Command>, command: Command)
    ensures
        final(out).deep_view() == old(out).deep_view().push(command.deep_view()),
{
    out.push(command);
    assert(out.deep_view() =~= old(out).deep_view().push(command.deep_view()));
}

/// Appends a list of commands to a list of commands.
pub(crate) fn emit_all(out: &mut Vec<Command>, more: Vec<Command>)
    ensures
        final(out).deep_view() == old(out).deep_view() + more.deep_view(),
{
    let mut more = more;
    let ghost tail = more.deep_view();
    out.append(&mut more);
    assert(out.deep_view() =~= old(out).deep_view() + tail);
}

/// Appends an event for the user interface to a list of commands.
pub(crate) fn send(out: &mut Vec<Command>, event: IoEvent)
    ensures
        final(out).deep_view() == old(out).deep_view().push(
            CommandView::Send(event.deep_view()),
        ),
{
    emit(out, Command::Send(event));
}

} // verus!
