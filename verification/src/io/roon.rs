//! The session with the server: what a pushed event and what a request of
//! the user lead to.

use vstd::prelude::*;
use vstd::string::*;
use crate::io::browse::BrowseOptsView;
use crate::io::roon_browse::{pick_bound, profile_script, queue_mode_step, RoonBrowse, RoonBrowseView};
use crate::io::roon_settings::{contains_id, match_preset, sort_ids_tail, sort_tail, Persistent, QueueAction, RoonSettings, SettingsView};
use crate::io::transport::{Control, Mute, Output, QueueItem, QueueItemView, Repeat, State, Zone, ZoneSeek, ZoneSeekView, ZoneSettings, ZoneView};
use crate::io::zones::{build_zone_list, find_resolving_zone, find_zone_of_first_output, find_zone_with_output, get_grouping, grouping_of, grouping_plan, plan_grouping, resolving_zone, zone_list, zone_of_first_output, zone_with_output, GroupingPlan};
use crate::seqs::{first_where, lemma_first_where_found, lemma_first_where_none};
use crate::text::str_eq;
use crate::io::{clone_opt_string, clone_strings, emit, emit_all, send, Command, CommandView, CoreEvent, CoreEventView, EndPoint, EndPointView, IoEvent, IoEventView, Parsed, ParsedView, QueueMode};
use crate::strmap::{assoc_get, assoc_insert, assoc_remove, has_key, keys_of, StrMap};

verus! {

/// How many items of a queue are subscribed to.
pub const QUEUE_ITEM_COUNT: u32 = 100;

/// Where the configuration is kept and how the server is reached.
#[derive(Debug, PartialEq, Eq)]
pub struct Options {
    pub config: String,
    pub ip: Option<String>,
    pub port: String,
}

/// How many seconds pass between the end of a connection, or a failed
/// attempt, and the next attempt.
pub const RETRY_SECONDS: u64 = 10;

/// Where the supervision of the connection stands.
#[derive(Clone, Copy, Debug, PartialEq, Eq, Structural)]
pub enum Phase {
    /// An attempt to reach a server is under way.
    Connecting,
    /// A connection stands and its events are handled.
    Running,
    /// The time before the next attempt runs.
    Waiting,
}

/// What happened to the connection.
#[derive(Clone, Copy, Debug, PartialEq, Eq, Structural)]
pub enum Progress {
    /// The attempt led to a connection.
    Connected,
    /// The attempt led to nothing.
    Failed,
    /// The handling of the connection came to its end.
    Ended,
    /// The time before the next attempt is over.
    Elapsed,
}

/// What the supervision asks its caller to do.
#[derive(Debug, PartialEq, Eq)]
pub enum Supervise {
    /// To connect to the server at an address and a port.
    Connect(String, String),
    /// To look for a server.
    Discover,
    /// To handle the events of the connection with a fresh session.
    Run,
    /// To let a number of seconds pass.
    Wait(u64),
    /// Nothing.
    Nothing,
}

/// The model of `Supervise`: a string by its characters, a list by the
/// sequence of its items.
pub enum SuperviseView {
    Connect(Seq<char>, Seq<char>),
    Discover,
    Run,
    Wait(u64),
    Nothing,
}

impl DeepView for Supervise {
    type V = SuperviseView;

    open spec fn deep_view(&self) -> SuperviseView {
        match self {
            Supervise::Connect(ip, port) => SuperviseView::Connect(ip@, port@),
            Supervise::Discover => SuperviseView::Discover,
            Supervise::Run => SuperviseView::Run,
            Supervise::Wait(seconds) => SuperviseView::Wait(*seconds),
            Supervise::Nothing => SuperviseView::Nothing,
        }
    }
}

/// How a server is to be reached: at the address of the options, or by
/// looking for one where the options give no address.
pub open spec fn attempt(ip: Option<Seq<char>>, port: Seq<char>) -> SuperviseView {
    match ip {
        Some(ip) => SuperviseView::Connect(ip, port),
        None => SuperviseView::Discover,
    }
}

/// The next phase and what is to be done: a connection is run until it
/// ends; after its end, as after a failed attempt, a fixed time passes and
/// the next attempt is made. What does not belong to a phase changes
/// nothing.
pub open spec fn supervise(
    phase: Phase,
    progress: Progress,
    ip: Option<Seq<char>>,
    port: Seq<char>,
) -> (Phase, SuperviseView) {
    match (phase, progress) {
        (Phase::Connecting, Progress::Connected) => (Phase::Running, SuperviseView::Run),
        (Phase::Connecting, Progress::Failed) => (
            Phase::Waiting,
            SuperviseView::Wait(RETRY_SECONDS),
        ),
        (Phase::Running, Progress::Ended) => (Phase::Waiting, SuperviseView::Wait(RETRY_SECONDS)),
        (Phase::Waiting, Progress::Elapsed) => (Phase::Connecting, attempt(ip, port)),
        _ => (phase, SuperviseView::Nothing),
    }
}

/// What belongs to a phase: the outcome of the attempt while connecting,
/// the end of the connection while it runs, the end of the time while
/// waiting.
pub open spec fn expected_in(phase: Phase, progress: Progress) -> bool {
    match phase {
        Phase::Connecting => progress == Progress::Connected || progress == Progress::Failed,
        Phase::Running => progress == Progress::Ended,
        Phase::Waiting => progress == Progress::Elapsed,
    }
}

/// The supervision never gives up: whatever happens in a phase leads to a
/// phase in which something is under way, and from the end of a connection
/// or a failed attempt the way leads through the waiting to a new attempt.
pub proof fn lemma_supervision_goes_on(
    phase: Phase,
    progress: Progress,
    ip: Option<Seq<char>>,
    port: Seq<char>,
)
    requires
        expected_in(phase, progress),
    ensures
        !(supervise(phase, progress, ip, port).1 is Nothing),
        supervise(phase, progress, ip, port).0 == Phase::Waiting ==> supervise(
            Phase::Waiting,
            Progress::Elapsed,
            ip,
            port,
        ) == (Phase::Connecting, attempt(ip, port)),
{
}

/// The supervision of the connection to the server.
pub struct Supervisor {
    phase: Phase,
    options: Options,
}

impl Supervisor {
    /// The phase that the supervision is in.
    pub closed spec fn phase(&self) -> Phase {
        self.phase
    }

    /// The address at which the server is to be reached, if one is given.
    pub closed spec fn ip(&self) -> Option<Seq<char>> {
        self.options.ip.deep_view()
    }

    /// The port at which the server is to be reached.
    pub closed spec fn port(&self) -> Seq<char> {
        self.options.port@
    }

    /// Where the configuration is kept.
    pub fn config(&self) -> (r: &String)
        ensures
            r@ == self.config_view(),
    {
        &self.options.config
    }

    /// Where the configuration is kept.
    pub closed spec fn config_view(&self) -> Seq<char> {
        self.options.config@
    }

    /// The phase that the supervision is in.
    pub fn current(&self) -> (r: Phase)
        ensures
            r == self.phase(),
    {
        self.phase
    }

    fn attempt(&self) -> (r: Supervise)
        ensures
            r.deep_view() == attempt(self.ip(), self.port()),
    {
        match &self.options.ip {
            Some(ip) => Supervise::Connect(ip.clone(), self.options.port.clone()),
            None => Supervise::Discover,
        }
    }

    /// Takes note of what happened to the connection, and says what is to
    /// be done next.
    pub fn step(&mut self, progress: Progress) -> (r: Supervise)
        ensures
            final(self).phase() == supervise(
                old(self).phase(),
                progress,
                old(self).ip(),
                old(self).port(),
            ).0,
            r.deep_view() == supervise(
                old(self).phase(),
                progress,
                old(self).ip(),
                old(self).port(),
            ).1,
            final(self).ip() == old(self).ip(),
            final(self).port() == old(self).port(),
            final(self).config_view() == old(self).config_view(),
    {
        match (self.phase, progress) {
            (Phase::Connecting, Progress::Connected) => {
                self.phase = Phase::Running;
                Supervise::Run
            },
            (Phase::Connecting, Progress::Failed) => {
                self.phase = Phase::Waiting;
                Supervise::Wait(RETRY_SECONDS)
            },
            (Phase::Running, Progress::Ended) => {
                self.phase = Phase::Waiting;
                Supervise::Wait(RETRY_SECONDS)
            },
            (Phase::Waiting, Progress::Elapsed) => {
                self.phase = Phase::Connecting;
                self.attempt()
            },
            _ => Supervise::Nothing,
        }
    }
}

/// Starts the supervision of the connection: the first attempt is to be
/// made at once.
pub fn start(options: Options) -> (r: (Supervisor, Supervise))
    ensures
        r.0.phase() == Phase::Connecting,
        r.0.ip() == options.ip.deep_view(),
        r.0.port() == options.port@,
        r.0.config_view() == options.config@,
        r.1.deep_view() == attempt(options.ip.deep_view(), options.port@),
{
    let supervisor = Supervisor { phase: Phase::Connecting, options };
    let first = supervisor.attempt();
    (supervisor, first)
}

/// Where the bringing about of a grouping stands: nothing is under way; a
/// group that was in the way is being taken apart; or the outputs are being
/// grouped. The two phases that wait carry the grouping waited for.
#[derive(Debug, PartialEq, Eq)]
pub enum GroupingState {
    Idle,
    PendingUngroup(Vec<String>),
    PendingGroup(Vec<String>),
}

/// The model of `GroupingState`: a string by its characters, a list by the
/// sequence of its items.
pub enum GroupingStateView {
    Idle,
    PendingUngroup(Seq<Seq<char>>),
    PendingGroup(Seq<Seq<char>>),
}

impl GroupingStateView {
    /// The grouping that is waited for.
    pub open spec fn ids(self) -> Option<Seq<Seq<char>>> {
        match self {
            GroupingStateView::Idle => None,
            GroupingStateView::PendingUngroup(ids) => Some(ids),
            GroupingStateView::PendingGroup(ids) => Some(ids),
        }
    }
}

impl DeepView for GroupingState {
    type V = GroupingStateView;

    open spec fn deep_view(&self) -> GroupingStateView {
        match self {
            GroupingState::Idle => GroupingStateView::Idle,
            GroupingState::PendingUngroup(ids) => GroupingStateView::PendingUngroup(
                ids.deep_view(),
            ),
            GroupingState::PendingGroup(ids) => GroupingStateView::PendingGroup(ids.deep_view()),
        }
    }
}

impl Clone for GroupingState {
    fn clone(&self) -> (r: Self)
        ensures
            r.deep_view() == self.deep_view(),
    {
        match self {
            GroupingState::Idle => GroupingState::Idle,
            GroupingState::PendingUngroup(ids) => GroupingState::PendingUngroup(
                clone_strings(ids),
            ),
            GroupingState::PendingGroup(ids) => GroupingState::PendingGroup(clone_strings(ids)),
        }
    }
}

/// The model of `RoonHandler`: a string by its characters, a list by the
/// sequence of its items.
pub struct RoonHandlerView {
    pub settings: SettingsView,
    pub browse: Option<RoonBrowseView>,
    pub has_transport: bool,
    pub zone_map: Seq<(Seq<char>, ZoneView)>,
    pub grouping: GroupingStateView,
    pub orphaned_output_id: Option<Seq<char>>,
    pub matched_zones: Seq<(Seq<char>, Seq<char>)>,
    pub pause_on_track_end: bool,
    pub queue_end: Option<QueueItemView>,
    pub seek_seconds: Option<i32>,
}

/// The repeat setting that follows one: off, all, one, and off again.
pub open spec fn next_repeat(repeat: Repeat) -> Repeat {
    match repeat {
        Repeat::Off => Repeat::All,
        Repeat::All => Repeat::One,
        Repeat::One => Repeat::Off,
    }
}

/// The queue mode that follows one. Without a profile the modes are the
/// manual one and the radio; with one, the two random modes come after
/// them. After the last mode comes the manual one.
pub open spec fn next_mode(mode: QueueMode, has_profile: bool) -> QueueMode {
    match mode {
        QueueMode::Manual => QueueMode::RoonRadio,
        QueueMode::RoonRadio => if has_profile {
            QueueMode::RandomAlbum
        } else {
            QueueMode::Manual
        },
        QueueMode::RandomAlbum => if has_profile {
            QueueMode::RandomTrack
        } else {
            QueueMode::Manual
        },
        QueueMode::RandomTrack => QueueMode::Manual,
    }
}

/// The mode reached from one by a number of steps.
pub open spec fn mode_after(mode: QueueMode, has_profile: bool, steps: nat) -> QueueMode
    decreases steps,
{
    if steps == 0 {
        mode
    } else {
        mode_after(next_mode(mode, has_profile), has_profile, (steps - 1) as nat)
    }
}

/// From the manual mode the modes come round after two steps without a
/// profile, and after four with one.
pub proof fn lemma_mode_cycle(has_profile: bool)
    ensures
        mode_after(QueueMode::Manual, has_profile, if has_profile { 4nat } else { 2nat })
            == QueueMode::Manual,
        forall|k: nat|
            0 < k < (if has_profile { 4nat } else { 2nat }) ==> #[trigger] mode_after(
                QueueMode::Manual,
                has_profile,
                k,
            ) != QueueMode::Manual,
{
    reveal_with_fuel(mode_after, 5);
    assert forall|k: nat| 0 < k < (if has_profile { 4nat } else { 2nat }) implies #[trigger] mode_after(
        QueueMode::Manual,
        has_profile,
        k,
    ) != QueueMode::Manual by {
        if k == 1 {
        } else if k == 2 {
        } else {
            assert(k == 3);
        }
    }
}

/// The next queue mode.
pub fn advance(mode: QueueMode, has_profile: bool) -> (r: QueueMode)
    ensures
        r == next_mode(mode, has_profile),
{
    match mode {
        QueueMode::Manual => QueueMode::RoonRadio,
        QueueMode::RoonRadio => if has_profile {
            QueueMode::RandomAlbum
        } else {
            QueueMode::Manual
        },
        QueueMode::RandomAlbum => if has_profile {
            QueueMode::RandomTrack
        } else {
            QueueMode::Manual
        },
        QueueMode::RandomTrack => QueueMode::Manual,
    }
}

/// Refilling the queue of a zone as the mode of its first output says: to
/// play at once or to queue. Nothing is done without a navigator, for a
/// zone without outputs or without a mode, and for a zone that plays
/// something of unknown length when it is to play at once.
pub open spec fn queue_mode_for(
    browse: Option<RoonBrowseView>,
    modes: Seq<(Seq<char>, QueueMode)>,
    zone: Option<ZoneView>,
    play: bool,
) -> (Option<RoonBrowseView>, Seq<CommandView>) {
    match zone {
        Some(zone) => if zone.outputs.len() == 0 {
            (browse, Seq::empty())
        } else {
            match (assoc_get(modes, zone.outputs[0].output_id), browse) {
                (Some(mode), Some(navigator)) => if play && zone.now_playing is Some
                    && zone.now_playing->0.length is None {
                    (browse, Seq::empty())
                } else {
                    let step = queue_mode_step(
                        navigator,
                        zone.zone_id,
                        mode,
                        if play {
                            QueueAction::PlayNow
                        } else {
                            QueueAction::Queue
                        },
                    );
                    (Some(step.0), step.1)
                },
                _ => (browse, Seq::empty()),
            }
        },
        None => (browse, Seq::empty()),
    }
}

/// Whether the queue of a zone is about to run out: at most three seconds
/// are left of it.
pub open spec fn runs_out(seek: ZoneSeekView) -> bool {
    0 <= seek.queue_time_remaining <= 3
}

/// Refilling the queues that are about to run out, in the order of the
/// reports.
pub open spec fn refill(
    browse: Option<RoonBrowseView>,
    modes: Seq<(Seq<char>, QueueMode)>,
    zones: Seq<(Seq<char>, ZoneView)>,
    seeks: Seq<ZoneSeekView>,
) -> (Option<RoonBrowseView>, Seq<CommandView>)
    decreases seeks.len(),
{
    if seeks.len() == 0 {
        (browse, Seq::empty())
    } else {
        let first = if runs_out(seeks[0]) {
            queue_mode_for(browse, modes, assoc_get(zones, seeks[0].zone_id), true)
        } else {
            (browse, Seq::empty())
        };
        let rest = refill(first.0, modes, zones, seeks.drop_first());
        (rest.0, first.1 + rest.1)
    }
}

/// The registry with reported zones put in, each under its id.
pub open spec fn insert_zones(map: Seq<(Seq<char>, ZoneView)>, zones: Seq<ZoneView>) -> Seq<
    (Seq<char>, ZoneView),
>
    decreases zones.len(),
{
    if zones.len() == 0 {
        map
    } else {
        insert_zones(assoc_insert(map, zones[0].zone_id, zones[0]), zones.drop_first())
    }
}

/// The entries without those of the keys.
pub open spec fn remove_all<T>(entries: Seq<(Seq<char>, T)>, keys: Seq<Seq<char>>) -> Seq<
    (Seq<char>, T),
>
    decreases keys.len(),
{
    if keys.len() == 0 {
        entries
    } else {
        remove_all(assoc_remove(entries, keys[0]), keys.drop_first())
    }
}

/// The matches of zones to presets with each zone from position `i` on
/// added that realises a preset.
pub open spec fn match_zones(
    matched: Seq<(Seq<char>, Seq<char>)>,
    zones: Seq<(Seq<char>, ZoneView)>,
    presets: Seq<(Seq<char>, Seq<Seq<char>>)>,
    i: int,
) -> Seq<(Seq<char>, Seq<char>)>
    decreases zones.len() - i,
{
    if i < 0 || i >= zones.len() {
        matched
    } else {
        let next = match match_preset(presets, zones[i].1.output_ids()) {
            Some(name) => assoc_insert(matched, zones[i].1.zone_id, name),
            None => matched,
        };
        match_zones(next, zones, presets, i + 1)
    }
}

impl RoonHandlerView {
    /// The zone that is selected, where it is one of the registry.
    pub open spec fn selected_zone(self) -> Option<ZoneView> {
        match self.settings.zone_id {
            Some(id) => assoc_get(self.zone_map, id),
            None => None,
        }
    }

    /// The commands, where playback can be controlled; else none.
    pub open spec fn transport(self, commands: Seq<CommandView>) -> Seq<CommandView> {
        if self.has_transport {
            commands
        } else {
            Seq::empty()
        }
    }

    /// One command to mute or unmute per output of the selected zone.
    pub open spec fn mute(self, how: Mute) -> Seq<CommandView> {
        match self.selected_zone() {
            Some(zone) => self.transport(
                Seq::new(
                    zone.outputs.len(),
                    |i: int| CommandView::Mute(zone.outputs[i].output_id, how),
                ),
            ),
            None => Seq::empty(),
        }
    }

    /// One command to change the volume per output of the selected zone.
    pub open spec fn change_volume(self, steps: i32) -> Seq<CommandView> {
        match self.selected_zone() {
            Some(zone) => self.transport(
                Seq::new(
                    zone.outputs.len(),
                    |i: int| CommandView::ChangeVolume(zone.outputs[i].output_id, steps),
                ),
            ),
            None => Seq::empty(),
        }
    }

    /// The playback command for a zone of the registry. Going to the next
    /// or the previous track is left out where the zone does not allow it.
    pub open spec fn control(self, zone_id: Seq<char>, how: Control) -> Seq<CommandView> {
        match assoc_get(self.zone_map, zone_id) {
            Some(zone) => if (how == Control::Next && !zone.is_next_allowed) || (how
                == Control::Previous && !zone.is_previous_allowed) {
                Seq::empty()
            } else {
                self.transport(seq![CommandView::Control(zone.zone_id, how)])
            },
            None => Seq::empty(),
        }
    }

    /// The command that moves a zone to a position of its track.
    pub open spec fn seek_to_end(self, zone_id: Option<Seq<char>>, seek_seconds: Option<i32>)
        -> Seq<CommandView> {
        match (zone_id, seek_seconds) {
            (Some(zone_id), Some(seconds)) => self.transport(
                seq![CommandView::Seek(zone_id, seconds)],
            ),
            _ => Seq::empty(),
        }
    }

    /// Playing from the last item of the queue on: the length of that item
    /// and the command, where a zone is selected, the last item is known
    /// and playback can be controlled.
    pub open spec fn play_queue_end(self) -> (Option<i32>, Seq<CommandView>) {
        match (self.settings.zone_id, self.queue_end) {
            (Some(zone_id), Some(item)) => if self.has_transport {
                (
                    Some(item.length as i32),
                    seq![CommandView::PlayFromHere(zone_id, item.queue_item_id)],
                )
            } else {
                (None, Seq::empty())
            },
            _ => (None, Seq::empty()),
        }
    }

    /// The command that gives the selected zone new settings.
    pub open spec fn change_settings(self, settings: spec_fn(ZoneSettings) -> ZoneSettings)
        -> Seq<CommandView> {
        match (self.settings.zone_id, self.selected_zone()) {
            (Some(zone_id), Some(zone)) => self.transport(
                seq![CommandView::ChangeSettings(zone_id, settings(zone.settings))],
            ),
            _ => Seq::empty(),
        }
    }

    /// The command that switches the radio of the selected zone.
    pub open spec fn set_roon_radio(self, auto_radio: bool) -> Seq<CommandView> {
        self.change_settings(|settings: ZoneSettings| ZoneSettings { auto_radio, ..settings })
    }

    /// The command that moves the selected zone to its next repeat setting.
    pub open spec fn toggle_repeat(self) -> Seq<CommandView> {
        self.change_settings(
            |settings: ZoneSettings| ZoneSettings {
                repeat: next_repeat(settings.repeat),
                ..settings
            },
        )
    }

    /// The command that switches the shuffling of the selected zone.
    pub open spec fn toggle_shuffle(self) -> Seq<CommandView> {
        self.change_settings(
            |settings: ZoneSettings| ZoneSettings { shuffle: !settings.shuffle, ..settings },
        )
    }

    /// Whether playback can be made to pause at the end of the track: the
    /// selected zone plays a track of a known length that is not zero.
    pub open spec fn pause_on_track_end_req(self) -> bool {
        match self.selected_zone() {
            Some(zone) => match zone.now_playing {
                Some(now_playing) => match now_playing.length {
                    Some(length) => zone.state == State::Playing && length > 0,
                    None => false,
                },
                None => false,
            },
            None => false,
        }
    }

    /// The list of end points as it stands.
    pub open spec fn current_zone_list(self) -> Seq<(EndPointView, Seq<char>)> {
        zone_list(self.zone_map, self.matched_zones, keys_of(self.settings.presets))
    }

    /// Sending the list of end points: the list is kept for the form of the
    /// settings and sent to the user interface.
    pub open spec fn send_zone_list(self) -> (RoonHandlerView, Seq<CommandView>) {
        let list = self.current_zone_list();
        (
            RoonHandlerView { settings: SettingsView { zone_list: list, ..self.settings }, ..self },
            seq![CommandView::Send(IoEventView::Zones(list))],
        )
    }

    /// With a scripted session started, where there is a navigator.
    pub open spec fn browse_profile(self, zone_id: Seq<char>) -> (
        RoonHandlerView,
        Seq<CommandView>,
    ) {
        match self.browse {
            Some(browse) => (
                RoonHandlerView {
                    browse: Some(browse.with_script(zone_id, profile_script())),
                    ..self
                },
                seq![CommandView::Browse(BrowseOptsView::of_session(zone_id))],
            ),
            None => (self, Seq::empty()),
        }
    }

    /// Bringing the queue mode of the selected zone in line: a mode stored
    /// under the zone moves to the zone's first output; the radio mode is
    /// what the zone's own radio setting says; the mode is announced, stored
    /// and saved.
    pub open spec fn sync_and_save_queue_mode(self) -> (RoonHandlerView, Seq<CommandView>) {
        match (self.settings.zone_id, self.selected_zone()) {
            (Some(zone_id), Some(zone)) => if zone.outputs.len() == 0 {
                (self, Seq::empty())
            } else {
                let output_id = zone.outputs[0].output_id;
                let modes = self.settings.queue_modes;
                let moved = match assoc_get(modes, zone_id) {
                    Some(mode) => assoc_insert(assoc_remove(modes, zone_id), output_id, mode),
                    None => modes,
                };
                let mode = if zone.settings.auto_radio {
                    QueueMode::RoonRadio
                } else {
                    match assoc_get(moved, output_id) {
                        Some(QueueMode::RoonRadio) => QueueMode::Manual,
                        Some(mode) => mode,
                        None => QueueMode::Manual,
                    }
                };
                let settings = SettingsView {
                    queue_modes: assoc_insert(moved, output_id, mode),
                    ..self.settings
                };
                (
                    RoonHandlerView { settings, ..self },
                    seq![
                        CommandView::Send(IoEventView::QueueModeCurrent(mode)),
                        CommandView::SaveSettings(settings.persistent()),
                    ],
                )
            },
            _ => (self, Seq::empty()),
        }
    }

    /// Moving the first output of the selected zone to its next queue mode;
    /// an output without a mode gets the manual one. The mode is announced.
    pub open spec fn select_next_queue_mode(self) -> (
        RoonHandlerView,
        Option<QueueMode>,
        Seq<CommandView>,
    ) {
        match self.selected_zone() {
            Some(zone) => if zone.outputs.len() == 0 {
                (self, None, Seq::empty())
            } else {
                let output_id = zone.outputs[0].output_id;
                let mode = match assoc_get(self.settings.queue_modes, output_id) {
                    Some(mode) => next_mode(mode, self.settings.profile is Some),
                    None => QueueMode::Manual,
                };
                (
                    RoonHandlerView {
                        settings: SettingsView {
                            queue_modes: assoc_insert(
                                self.settings.queue_modes,
                                output_id,
                                mode,
                            ),
                            ..self.settings
                        },
                        ..self
                    },
                    Some(mode),
                    seq![CommandView::Send(IoEventView::QueueModeCurrent(mode))],
                )
            },
            None => (self, None, Seq::empty()),
        }
    }

    /// Refilling the queue of a zone as the mode of its first output says.
    pub open spec fn handle_queue_mode(self, zone: Option<ZoneView>, play: bool) -> (
        RoonHandlerView,
        Seq<CommandView>,
    ) {
        let step = queue_mode_for(self.browse, self.settings.queue_modes, zone, play);
        (RoonHandlerView { browse: step.0, ..self }, step.1)
    }

    /// Announcing the selected zone. For a zone that is new, its queue is
    /// subscribed to, its profile is read and the zones are asked for again.
    /// A zone that does not play ends a pending pause at the end of the
    /// track; one that plays is moved to the position kept for it.
    pub open spec fn send_zone_changed(self, new_zone: bool) -> (
        RoonHandlerView,
        Seq<CommandView>,
    ) {
        match (self.settings.zone_id, self.selected_zone()) {
            (Some(zone_id), Some(zone)) => if new_zone && !self.has_transport {
                (self, Seq::empty())
            } else {
                let first = if new_zone {
                    let profile = self.browse_profile(zone_id);
                    (
                        profile.0,
                        seq![CommandView::SubscribeQueue(zone_id, QUEUE_ITEM_COUNT)] + profile.1
                            + seq![CommandView::GetZones],
                    )
                } else {
                    (self, Seq::empty())
                };
                let second = if zone.state != State::Playing {
                    if first.0.pause_on_track_end {
                        (
                            RoonHandlerView { pause_on_track_end: false, ..first.0 },
                            seq![CommandView::Send(IoEventView::PauseOnTrackEndActive(false))],
                        )
                    } else {
                        (first.0, Seq::empty())
                    }
                } else {
                    (
                        RoonHandlerView { seek_seconds: None, ..first.0 },
                        first.0.seek_to_end(Some(zone_id), first.0.seek_seconds),
                    )
                };
                (
                    second.0,
                    first.1 + second.1 + seq![
                        CommandView::Send(
                            IoEventView::ZonePresetMatched(
                                assoc_get(self.matched_zones, zone_id),
                            ),
                        ),
                        CommandView::Send(IoEventView::ZoneChanged(zone)),
                    ],
                )
            },
            _ => (self, Seq::empty()),
        }
    }

    /// Bringing a grouping about. Returns the phase that follows: waiting
    /// where a command was sent and a later list of zones has to show what
    /// came of it, else idle. A grouping that a zone already is, is matched
    /// against the presets; nothing is sent to the server for it.
    pub open spec fn update_grouping(self, new_ids: Seq<Seq<char>>) -> (
        RoonHandlerView,
        GroupingStateView,
        Seq<CommandView>,
    ) {
        match grouping_plan(self.zone_map, new_ids) {
            GroupingPlan::Realized(k) => match match_preset(self.settings.presets, new_ids) {
                Some(name) => {
                    let matched = RoonHandlerView {
                        matched_zones: assoc_insert(
                            self.matched_zones,
                            self.zone_map[k as int].1.zone_id,
                            name,
                        ),
                        ..self
                    };
                    let listed = matched.send_zone_list();
                    (
                        listed.0,
                        GroupingStateView::Idle,
                        listed.1.push(
                            CommandView::Send(IoEventView::ZonePresetMatched(Some(name))),
                        ),
                    )
                },
                None => (self, GroupingStateView::Idle, Seq::empty()),
            },
            GroupingPlan::Ungroup(k) => if self.has_transport {
                (
                    self,
                    GroupingStateView::PendingUngroup(new_ids),
                    seq![CommandView::UngroupOutputs(self.zone_map[k as int].1.output_ids())],
                )
            } else {
                (self, GroupingStateView::Idle, Seq::empty())
            },
            GroupingPlan::Group => if self.has_transport {
                (
                    self,
                    GroupingStateView::PendingGroup(new_ids),
                    seq![CommandView::GroupOutputs(new_ids)],
                )
            } else {
                (self, GroupingStateView::Idle, Seq::empty())
            },
            GroupingPlan::Nothing => (self, GroupingStateView::Idle, Seq::empty()),
        }
    }
}

/// The first report of a zone.
pub open spec fn seek_of(seeks: Seq<ZoneSeekView>, zone_id: Seq<char>) -> Option<int> {
    first_where(seeks, |seek: ZoneSeekView| seek.zone_id == zone_id)
}

impl RoonHandlerView {
    /// With the setting of the selected end point replaced.
    pub open spec fn with_zone_id(self, zone_id: Option<Seq<char>>) -> RoonHandlerView {
        RoonHandlerView { settings: SettingsView { zone_id, ..self.settings }, ..self }
    }

    /// The command that saves the settings as they stand.
    pub open spec fn save(self) -> CommandView {
        CommandView::SaveSettings(self.settings.persistent())
    }

    /// What a change in the connection leads to. A server that offers
    /// browsing and playback control is greeted: the user's browse session
    /// goes to the top level, the zones are subscribed to, and the user
    /// interface learns the server's name. A lost server is reported.
    pub open spec fn core_step(self, event: CoreEventView) -> (RoonHandlerView, Seq<CommandView>) {
        match event {
            CoreEventView::Found(name, has_browse, has_transport) => {
                let browse = if has_browse {
                    match self.browse {
                        Some(browse) => Some(browse),
                        None => Some(RoonBrowseView::initial()),
                    }
                } else {
                    None
                };
                match browse {
                    Some(navigator) => if has_transport {
                        (
                            RoonHandlerView {
                                browse: Some(navigator.at_home()),
                                has_transport,
                                ..self
                            },
                            seq![
                                CommandView::Browse(navigator.at_home().opts),
                                CommandView::SubscribeZones,
                                CommandView::Send(IoEventView::CoreName(Some(name))),
                            ],
                        )
                    } else {
                        (RoonHandlerView { browse, has_transport, ..self }, Seq::empty())
                    },
                    None => (RoonHandlerView { browse, has_transport, ..self }, Seq::empty()),
                }
            },
            CoreEventView::Lost(_) => (
                self,
                seq![CommandView::Send(IoEventView::CoreName(None))],
            ),
            CoreEventView::Other => (self, Seq::empty()),
        }
    }

    /// A pending grouping comes to its end where a reported zone is what
    /// it was to bring about: that zone is selected, and the settings are
    /// saved.
    pub open spec fn resolve_pending(self, zones: Seq<ZoneView>) -> (
        RoonHandlerView,
        Seq<CommandView>,
    ) {
        match self.grouping.ids() {
            Some(pending) => match resolving_zone(zones, pending) {
                Some(i) => {
                    let next = RoonHandlerView {
                        grouping: GroupingStateView::Idle,
                        ..self.with_zone_id(Some(zones[i].zone_id))
                    };
                    (next, seq![next.save()])
                },
                None => (self, Seq::empty()),
            },
            None => (self, Seq::empty()),
        }
    }

    /// An output that was taken out of its group is followed to the zone
    /// that it now is the first output of; that zone, or none, is selected,
    /// and the settings are saved.
    pub open spec fn resolve_orphan(self, zones: Seq<ZoneView>) -> (
        RoonHandlerView,
        Seq<CommandView>,
    ) {
        match self.orphaned_output_id {
            Some(output_id) => {
                let zone_id = match zone_of_first_output(zones, output_id) {
                    Some(i) => Some(zones[i].zone_id),
                    None => None,
                };
                let next = RoonHandlerView { orphaned_output_id: None, ..self.with_zone_id(zone_id) };
                (next, seq![next.save()])
            },
            None => (self, Seq::empty()),
        }
    }

    /// Whether the selected zone is not one of the registry.
    pub open spec fn selected_is_new(self) -> bool {
        match self.settings.zone_id {
            Some(zone_id) => !has_key(keys_of(self.zone_map), zone_id),
            None => false,
        }
    }

    /// Taking reported zones in: a pending grouping and an output taken
    /// out of its group are followed up, and the zones are put into the
    /// registry. The flag says whether the selected zone was not in the
    /// registry before.
    pub open spec fn take_zones(self, zones: Seq<ZoneView>) -> (
        RoonHandlerView,
        bool,
        Seq<CommandView>,
    ) {
        let pending = self.resolve_pending(zones);
        let orphan = pending.0.resolve_orphan(zones);
        (
            RoonHandlerView { zone_map: insert_zones(orphan.0.zone_map, zones), ..orphan.0 },
            orphan.0.selected_is_new(),
            pending.1 + orphan.1,
        )
    }

    /// Announcing the zones: they are matched to the presets, the queue
    /// mode is brought in line, and the selected zone and the list of end
    /// points are announced.
    pub open spec fn announce(self, new_zone: bool) -> (RoonHandlerView, Seq<CommandView>) {
        let matched = RoonHandlerView {
            matched_zones: match_zones(self.matched_zones, self.zone_map, self.settings.presets, 0),
            ..self
        };
        let synced = matched.sync_and_save_queue_mode();
        let changed = synced.0.send_zone_changed(new_zone);
        let listed = changed.0.send_zone_list();
        (listed.0, synced.1 + changed.1 + listed.1)
    }

    /// What a list of zones leads to: the zones are taken in and, unless a
    /// grouping is still waited for, announced.
    pub open spec fn on_zones(self, zones: Seq<ZoneView>) -> (RoonHandlerView, Seq<CommandView>) {
        let taken = self.take_zones(zones);
        if taken.0.grouping is Idle {
            let announced = taken.0.announce(taken.1);
            (announced.0, taken.2 + announced.1)
        } else {
            (taken.0, taken.2)
        }
    }

    /// What the removal of zones leads to: the user interface learns it
    /// where the selected zone is among them; the zones leave the registry;
    /// a grouping that is waited for is asked for, now that its outputs are
    /// free, else the list of end points is announced.
    pub open spec fn on_zones_removed(self, zone_ids: Seq<Seq<char>>) -> (
        RoonHandlerView,
        Seq<CommandView>,
    ) {
        let told = match self.settings.zone_id {
            Some(zone_id) => if zone_ids.contains(zone_id) {
                seq![
                    CommandView::Send(IoEventView::ZoneRemoved(zone_id)),
                    CommandView::Send(IoEventView::ZonePresetMatched(None)),
                ]
            } else {
                Seq::empty()
            },
            None => Seq::empty(),
        };
        let removed = RoonHandlerView {
            matched_zones: remove_all(self.matched_zones, zone_ids),
            zone_map: remove_all(self.zone_map, zone_ids),
            ..self
        };
        match removed.grouping.ids() {
            Some(pending) => if removed.has_transport {
                (
                    RoonHandlerView {
                        grouping: GroupingStateView::PendingGroup(pending),
                        ..removed
                    },
                    told + seq![CommandView::GroupOutputs(pending)],
                )
            } else {
                (removed, told)
            },
            None => {
                let listed = removed.send_zone_list();
                (listed.0, told + listed.1)
            },
        }
    }

    /// What the report of the selected zone leads to: where the track is
    /// at its start and a pause at the end of the track is pending, the zone
    /// is paused; the report is passed on.
    pub open spec fn on_selected_seek(self, seeks: Seq<ZoneSeekView>) -> (
        RoonHandlerView,
        Seq<CommandView>,
    ) {
        match self.settings.zone_id {
            Some(zone_id) => match seek_of(seeks, zone_id) {
                Some(i) => {
                    let pass = seq![CommandView::Send(IoEventView::ZoneSeek(seeks[i]))];
                    if seeks[i].seek_position == Some(0i64) && self.pause_on_track_end {
                        (
                            RoonHandlerView { pause_on_track_end: false, ..self },
                            self.control(zone_id, Control::Pause) + seq![
                                CommandView::Send(IoEventView::PauseOnTrackEndActive(false)),
                            ] + pass,
                        )
                    } else {
                        (self, pass)
                    }
                },
                None => (self, Seq::empty()),
            },
            None => (self, Seq::empty()),
        }
    }

    /// What the reports of positions lead to: that of the selected zone is
    /// handled, then the queues that are about to run out are refilled.
    pub open spec fn on_zones_seek(self, seeks: Seq<ZoneSeekView>) -> (
        RoonHandlerView,
        Seq<CommandView>,
    ) {
        let selected = self.on_selected_seek(seeks);
        let filled = refill(
            selected.0.browse,
            selected.0.settings.queue_modes,
            selected.0.zone_map,
            seeks,
        );
        (RoonHandlerView { browse: filled.0, ..selected.0 }, selected.1 + filled.1)
    }

    /// What an answer of the browser leads to, where there is a navigator.
    pub open spec fn on_browse(self, parsed: ParsedView, pick: usize) -> (
        RoonHandlerView,
        Seq<CommandView>,
    ) {
        match self.browse {
            Some(browse) => {
                let step = crate::io::roon_browse::msg_step(
                    browse,
                    parsed,
                    self.settings.profile,
                    self.zone_map.len() == 0,
                    pick,
                );
                (RoonHandlerView { browse: Some(step.0), ..self }, step.1)
            },
            None => (self, Seq::empty()),
        }
    }

    /// What a pushed event leads to. `pick` is the position taken where a
    /// random item is asked for.
    pub open spec fn msg_step(self, parsed: ParsedView, pick: usize) -> (
        RoonHandlerView,
        Seq<CommandView>,
    ) {
        match parsed {
            ParsedView::RoonState => (self, seq![CommandView::SaveRoonState]),
            ParsedView::Zones(zones) => self.on_zones(zones),
            ParsedView::ZonesRemoved(zone_ids) => self.on_zones_removed(zone_ids),
            ParsedView::ZonesSeek(seeks) => self.on_zones_seek(seeks),
            ParsedView::Queue(items) => (
                self,
                seq![CommandView::Send(IoEventView::QueueList(items))],
            ),
            ParsedView::QueueChanges(changes) => (
                self,
                seq![CommandView::Send(IoEventView::QueueListChanges(changes))],
            ),
            ParsedView::Outputs(outputs) => match self.settings.zone_id {
                Some(zone_id) => (
                    self,
                    seq![
                        CommandView::Send(
                            IoEventView::ZoneGrouping(
                                grouping_of(assoc_get(self.zone_map, zone_id), outputs),
                            ),
                        ),
                    ],
                ),
                None => (self, Seq::empty()),
            },
            _ => self.on_browse(parsed, pick),
        }
    }

    /// With the navigation fields of the user's browse request cleared.
    pub open spec fn cleared(self) -> RoonHandlerView {
        match self.browse {
            Some(browse) => RoonHandlerView {
                browse: Some(RoonBrowseView { opts: browse.cleared(), ..browse }),
                ..self
            },
            None => self,
        }
    }

    /// What the selection of an item of the browser leads to: the request
    /// names the selected zone where it is one of the registry; a selected
    /// profile is stored and saved, and read for the zone.
    pub open spec fn on_browse_selected(self, item_key: Option<Seq<char>>) -> (
        RoonHandlerView,
        Seq<CommandView>,
    ) {
        match self.browse {
            Some(browse) => {
                let zone_id = match self.settings.zone_id {
                    Some(zone_id) => if has_key(keys_of(self.zone_map), zone_id) {
                        Some(zone_id)
                    } else {
                        None
                    },
                    None => None,
                };
                let named = RoonBrowseView {
                    opts: BrowseOptsView { zone_or_output_id: zone_id, ..browse.opts },
                    ..browse
                };
                let step = crate::io::roon_browse::io_step(
                    named,
                    IoEventView::BrowseSelected(item_key),
                    self.settings,
                );
                let next = RoonHandlerView { browse: Some(step.0), settings: step.1, ..self };
                (
                    next,
                    (if step.2 {
                        seq![next.save()]
                    } else {
                        Seq::empty()
                    }) + step.3,
                )
            },
            None => (self, Seq::empty()),
        }
    }

    /// What any other request of the browser leads to.
    pub open spec fn on_browse_request(self, event: IoEventView) -> (
        RoonHandlerView,
        Seq<CommandView>,
    ) {
        match self.browse {
            Some(browse) => {
                let step = crate::io::roon_browse::io_step(browse, event, self.settings);
                (RoonHandlerView { browse: Some(step.0), settings: step.1, ..self }, step.3)
            },
            None => (self, Seq::empty()),
        }
    }

    /// Selecting a zone: its queue is subscribed to, its profile is read,
    /// the zone is announced where it is one of the registry, it becomes
    /// the selected end point, and its queue mode is brought in line.
    pub open spec fn select_zone(self, zone_id: Seq<char>) -> (RoonHandlerView, Seq<CommandView>) {
        let profile = self.browse_profile(zone_id);
        let told = match assoc_get(self.zone_map, zone_id) {
            Some(zone) => seq![
                CommandView::Send(
                    IoEventView::ZonePresetMatched(assoc_get(self.matched_zones, zone_id)),
                ),
                CommandView::Send(IoEventView::ZoneChanged(zone)),
            ],
            None => Seq::empty(),
        };
        let synced = profile.0.with_zone_id(Some(zone_id)).sync_and_save_queue_mode();
        (
            synced.0,
            seq![CommandView::SubscribeQueue(zone_id, QUEUE_ITEM_COUNT)] + profile.1 + told
                + synced.1,
        )
    }

    /// Selecting an output: the first zone that holds it is taken apart,
    /// and the output is followed to the zone that it will be alone in.
    pub open spec fn select_output(self, output_id: Seq<char>) -> (
        RoonHandlerView,
        Seq<CommandView>,
    ) {
        match zone_with_output(self.zone_map, output_id) {
            Some(k) => (
                RoonHandlerView {
                    matched_zones: assoc_remove(self.matched_zones, self.zone_map[k].1.zone_id),
                    orphaned_output_id: Some(output_id),
                    ..self
                },
                seq![
                    CommandView::Send(IoEventView::ZonePresetMatched(None)),
                    CommandView::UngroupOutputs(self.zone_map[k].1.output_ids()),
                ],
            ),
            None => (self, Seq::empty()),
        }
    }

    /// Bringing a grouping about and keeping what is waited for.
    pub open spec fn group(self, ids: Seq<Seq<char>>) -> (RoonHandlerView, Seq<CommandView>) {
        let step = self.update_grouping(ids);
        (RoonHandlerView { grouping: step.1, ..step.0 }, step.2)
    }

    /// What the selection of an end point leads to, where playback can be
    /// controlled: the subscription to the queue ends, and the end point is
    /// selected as its kind asks.
    pub open spec fn on_zone_selected(self, end_point: EndPointView) -> (
        RoonHandlerView,
        Seq<CommandView>,
    ) {
        if !self.has_transport {
            (self, Seq::empty())
        } else {
            let step = match end_point {
                EndPointView::Output(output_id) => self.select_output(output_id),
                EndPointView::Zone(zone_id) => self.select_zone(zone_id),
                EndPointView::MatchedPreset(pair) => self.select_zone(pair.0),
                EndPointView::Preset(name) => match assoc_get(self.settings.presets, name) {
                    Some(ids) => self.group(ids),
                    None => (self, Seq::empty()),
                },
            };
            (step.0, seq![CommandView::UnsubscribeQueue] + step.1)
        }
    }

    /// Moving to the next queue mode: the radio of the zone is switched as
    /// the mode says, and the settings are saved.
    pub open spec fn on_queue_mode_next(self) -> (RoonHandlerView, Seq<CommandView>) {
        let step = self.select_next_queue_mode();
        match step.1 {
            Some(mode) => (
                step.0,
                step.2 + step.0.set_roon_radio(mode == QueueMode::RoonRadio) + seq![step.0.save()],
            ),
            None => (step.0, step.2),
        }
    }

    /// Saving a grouping as a preset: all ids but the first are sorted, the
    /// preset is stored and saved, and the grouping is brought about.
    pub open spec fn on_save_preset(self, name: Seq<char>, ids: Seq<Seq<char>>) -> (
        RoonHandlerView,
        Seq<CommandView>,
    ) {
        let sorted = sort_tail(ids);
        let stored = RoonHandlerView {
            settings: SettingsView {
                presets: assoc_insert(self.settings.presets, name, sorted),
                ..self.settings
            },
            ..self
        };
        let step = stored.group(sorted);
        (step.0, seq![stored.save()] + step.1)
    }

    /// Deleting a preset: the settings are saved and the list of end points
    /// is announced.
    pub open spec fn on_delete_preset(self, name: Seq<char>) -> (
        RoonHandlerView,
        Seq<CommandView>,
    ) {
        let stored = RoonHandlerView {
            settings: SettingsView {
                presets: assoc_remove(self.settings.presets, name),
                ..self.settings
            },
            ..self
        };
        let listed = stored.send_zone_list();
        (listed.0, seq![stored.save()] + listed.1)
    }

    /// A playback command for the selected zone. A zone that plays nothing
    /// is refilled instead where the command is to play or pause.
    pub open spec fn on_control(self, how: Control) -> (RoonHandlerView, Seq<CommandView>) {
        match (self.settings.zone_id, self.selected_zone()) {
            (Some(zone_id), Some(zone)) => if zone.now_playing is Some {
                (self, self.control(zone_id, how))
            } else if how == Control::PlayPause {
                self.handle_queue_mode(Some(zone), true)
            } else {
                (self, Seq::empty())
            },
            _ => (self, Seq::empty()),
        }
    }

    /// What a request of the user other than one of the browser leads to.
    pub open spec fn intent_step(self, event: IoEventView) -> (
        RoonHandlerView,
        Seq<CommandView>,
    ) {
        match event {
            IoEventView::QueueListLast(item) => (
                RoonHandlerView { queue_end: item, ..self },
                Seq::empty(),
            ),
            IoEventView::QueueSelected(queue_item_id) => match self.settings.zone_id {
                Some(zone_id) => (
                    self,
                    self.transport(seq![CommandView::PlayFromHere(zone_id, queue_item_id)]),
                ),
                None => (self, Seq::empty()),
            },
            IoEventView::QueueClear => (
                RoonHandlerView { seek_seconds: self.play_queue_end().0, ..self },
                self.play_queue_end().1,
            ),
            IoEventView::QueueModeNext => self.on_queue_mode_next(),
            IoEventView::QueueModeAppend => match self.settings.zone_id {
                Some(zone_id) => self.handle_queue_mode(
                    assoc_get(self.zone_map, zone_id),
                    false,
                ),
                None => (self, Seq::empty()),
            },
            IoEventView::ZoneSelected(end_point) => self.on_zone_selected(end_point),
            IoEventView::ZoneGroupReq => (self, self.transport(seq![CommandView::GetOutputs])),
            IoEventView::ZoneGrouped(ids) => self.group(ids),
            IoEventView::ZoneSavePreset(name, ids) => self.on_save_preset(name, ids),
            IoEventView::ZoneDeletePreset(name) => self.on_delete_preset(name),
            IoEventView::ZoneMatchPreset(ids) => (
                self,
                seq![
                    CommandView::Send(
                        IoEventView::ZonePresetMatched(match_preset(self.settings.presets, ids)),
                    ),
                ],
            ),
            IoEventView::Mute(how) => (self, self.mute(how)),
            IoEventView::ChangeVolume(steps) => (self, self.change_volume(steps)),
            IoEventView::Control(how) => self.on_control(how),
            IoEventView::Repeat => (self, self.toggle_repeat()),
            IoEventView::Shuffle => (self, self.toggle_shuffle()),
            IoEventView::PauseOnTrackEndReq => (
                RoonHandlerView { pause_on_track_end: self.pause_on_track_end_req(), ..self },
                seq![
                    CommandView::Send(
                        IoEventView::PauseOnTrackEndActive(self.pause_on_track_end_req()),
                    ),
                ],
            ),
            _ => (self, Seq::empty()),
        }
    }

    /// What a request of the user leads to. Without a navigator nothing
    /// is done. A request of the browser goes to the navigator; for any
    /// other, the navigation fields of the user's browse request are
    /// cleared before it is handled.
    pub open spec fn io_step(self, event: IoEventView) -> (RoonHandlerView, Seq<CommandView>) {
        if self.browse is None {
            (self, Seq::empty())
        } else if event is BrowseSelected {
            self.on_browse_selected(event->BrowseSelected_0)
        } else if is_intent(event) {
            self.cleared().intent_step(event)
        } else {
            self.on_browse_request(event)
        }
    }
}

/// Whether a request of the user is one that the session itself handles.
pub open spec fn is_intent(event: IoEventView) -> bool {
    event is QueueListLast || event is QueueSelected || event is QueueClear
        || event is QueueModeNext || event is QueueModeAppend || event is ZoneSelected
        || event is ZoneGroupReq || event is ZoneGrouped || event is ZoneSavePreset
        || event is ZoneDeletePreset || event is ZoneMatchPreset || event is Mute
        || event is ChangeVolume || event is Control || event is Repeat || event is Shuffle
        || event is PauseOnTrackEndReq
}

/// Whether a command groups outputs or takes a group apart.
pub open spec fn is_grouping_command(command: CommandView) -> bool {
    command is GroupOutputs || command is UngroupOutputs
}

/// Bringing about a grouping that a zone already is sends no command that
/// groups or ungroups, and leaves nothing pending; and so does bringing it
/// about once more.
pub proof fn lemma_update_grouping_idempotent(s: RoonHandlerView, new_ids: Seq<Seq<char>>)
    requires
        grouping_plan(s.zone_map, new_ids) is Realized,
    ensures
        s.update_grouping(new_ids).1 is Idle,
        forall|i: int|
            0 <= i < s.update_grouping(new_ids).2.len() ==> !is_grouping_command(
                #[trigger] s.update_grouping(new_ids).2[i],
            ),
        s.update_grouping(new_ids).0.update_grouping(new_ids).1 is Idle,
        forall|i: int|
            0 <= i < s.update_grouping(new_ids).0.update_grouping(new_ids).2.len()
                ==> !is_grouping_command(
                #[trigger] s.update_grouping(new_ids).0.update_grouping(new_ids).2[i],
            ),
{
    let first = s.update_grouping(new_ids);
    assert(first.0.zone_map == s.zone_map);
    assert(first.0.settings.presets == s.settings.presets);
}

/// Where no output belongs to two zones and the grouping is what a zone
/// holds, with the same first output, bringing it about sends no command
/// that groups or ungroups and leaves nothing pending; and so does bringing
/// it about once more.
pub proof fn lemma_realized_grouping_is_kept(
    s: RoonHandlerView,
    new_ids: Seq<Seq<char>>,
    k: int,
)
    requires
        s.zone_map.len() <= usize::MAX,
        crate::io::zones::outputs_disjoint(s.zone_map),
        new_ids.len() > 0,
        0 <= k < s.zone_map.len(),
        crate::io::zones::matches_all(s.zone_map[k].1.output_ids(), new_ids),
    ensures
        s.update_grouping(new_ids).1 is Idle,
        forall|i: int|
            0 <= i < s.update_grouping(new_ids).2.len() ==> !is_grouping_command(
                #[trigger] s.update_grouping(new_ids).2[i],
            ),
        s.update_grouping(new_ids).0.update_grouping(new_ids).1 is Idle,
        forall|i: int|
            0 <= i < s.update_grouping(new_ids).0.update_grouping(new_ids).2.len()
                ==> !is_grouping_command(
                #[trigger] s.update_grouping(new_ids).0.update_grouping(new_ids).2[i],
            ),
{
    crate::io::zones::lemma_plan_realized(s.zone_map, new_ids, k, 0);
    lemma_update_grouping_idempotent(s, new_ids);
}

/// The state of the session with the server.
pub struct RoonHandler {
    settings: RoonSettings,
    browse: Option<RoonBrowse>,
    has_transport: bool,
    zone_map: StrMap<Zone>,
    grouping: GroupingState,
    orphaned_output_id: Option<String>,
    matched_zones: StrMap<String>,
    pause_on_track_end: bool,
    queue_end: Option<QueueItem>,
    seek_seconds: Option<i32>,
}

impl DeepView for RoonHandler {
    type V = RoonHandlerView;

    closed spec fn deep_view(&self) -> RoonHandlerView {
        RoonHandlerView {
            settings: self.settings.deep_view(),
            browse: self.browse.deep_view(),
            has_transport: self.has_transport,
            zone_map: self.zone_map.deep_view(),
            grouping: self.grouping.deep_view(),
            orphaned_output_id: self.orphaned_output_id.deep_view(),
            matched_zones: self.matched_zones.deep_view(),
            pause_on_track_end: self.pause_on_track_end,
            queue_end: self.queue_end.deep_view(),
            seek_seconds: self.seek_seconds,
        }
    }
}

impl RoonHandler {
    /// A session that knows no server yet, with the settings given.
    pub fn new(settings: RoonSettings) -> (r: Self)
        ensures
            r.deep_view() == (RoonHandlerView {
                settings: settings.deep_view(),
                browse: None,
                has_transport: false,
                zone_map: Seq::empty(),
                grouping: GroupingStateView::Idle,
                orphaned_output_id: None,
                matched_zones: Seq::empty(),
                pause_on_track_end: false,
                queue_end: None,
                seek_seconds: None,
            }),
    {
        RoonHandler {
            settings,
            browse: None,
            has_transport: false,
            zone_map: StrMap::new(),
            grouping: GroupingState::Idle,
            orphaned_output_id: None,
            matched_zones: StrMap::new(),
            pause_on_track_end: false,
            queue_end: None,
            seek_seconds: None,
        }
    }

    /// The settings as they stand.
    pub fn settings(&self) -> (r: &RoonSettings)
        ensures
            r.deep_view() == self.deep_view().settings,
    {
        &self.settings
    }

    /// The navigator, once a server with a browser was found.
    pub fn browse(&self) -> (r: Option<&RoonBrowse>)
        ensures
            r.deep_view() == self.deep_view().browse,
    {
        self.browse.as_ref()
    }

    /// The zone of an id.
    pub fn zone(&self, zone_id: &str) -> (r: Option<&Zone>)
        ensures
            r.deep_view() == assoc_get(self.deep_view().zone_map, zone_id@),
    {
        self.zone_map.get(zone_id)
    }

    /// The grouping that is waited for.
    pub fn pending_grouping(&self) -> (r: Option<Vec<String>>)
        ensures
            r.deep_view() == self.deep_view().grouping.ids(),
    {
        match &self.grouping {
            GroupingState::Idle => None,
            GroupingState::PendingUngroup(ids) => Some(clone_strings(ids)),
            GroupingState::PendingGroup(ids) => Some(clone_strings(ids)),
        }
    }

    /// Where the bringing about of a grouping stands.
    pub fn grouping_state(&self) -> (r: GroupingState)
        ensures
            r.deep_view() == self.deep_view().grouping,
    {
        self.grouping.clone()
    }

    /// Whether playback pauses at the end of the track.
    pub fn pause_on_track_end(&self) -> (r: bool)
        ensures
            r == self.deep_view().pause_on_track_end,
    {
        self.pause_on_track_end
    }

    fn selected_zone(&self) -> (r: Option<&Zone>)
        ensures
            r.deep_view() == self.deep_view().selected_zone(),
    {
        match self.settings.get_zone_id() {
            Some(id) => self.zone_map.get(id.as_str()),
            None => None,
        }
    }

    fn mute(&self, how: Mute, out: &mut Vec<Command>)
        ensures
            final(out).deep_view() == old(out).deep_view() + self.deep_view().mute(how),
    {
        let ghost before = out.deep_view();
        let ghost expected = self.deep_view().mute(how);
        match self.selected_zone() {
            Some(zone) => {
                if self.has_transport {
                    let mut i: usize = 0;
                    while i < zone.outputs.len()
                        invariant
                            i <= zone.outputs.len(),
                            expected == Seq::new(
                                zone.deep_view().outputs.len(),
                                |i: int|
                                    CommandView::Mute(zone.deep_view().outputs[i].output_id, how),
                            ),
                            out.deep_view() == before + expected.take(i as int),
                        decreases zone.outputs.len() - i,
                    {
                        emit(out, Command::Mute(zone.outputs[i].output_id.clone(), how));
                        assert(expected.take(i + 1) =~= expected.take(i as int).push(
                            expected[i as int],
                        ));
                        i += 1;
                    }
                    assert(expected.take(i as int) =~= expected);
                } else {
                    assert(before + expected =~= before);
                }
            },
            None => {
                assert(before + expected =~= before);
            },
        }
    }

    fn change_volume(&self, steps: i32, out: &mut Vec<Command>)
        ensures
            final(out).deep_view() == old(out).deep_view() + self.deep_view().change_volume(
                steps,
            ),
    {
        let ghost before = out.deep_view();
        let ghost expected = self.deep_view().change_volume(steps);
        match self.selected_zone() {
            Some(zone) => {
                if self.has_transport {
                    let mut i: usize = 0;
                    while i < zone.outputs.len()
                        invariant
                            i <= zone.outputs.len(),
                            expected == Seq::new(
                                zone.deep_view().outputs.len(),
                                |i: int|
                                    CommandView::ChangeVolume(
                                        zone.deep_view().outputs[i].output_id,
                                        steps,
                                    ),
                            ),
                            out.deep_view() == before + expected.take(i as int),
                        decreases zone.outputs.len() - i,
                    {
                        emit(
                            out,
                            Command::ChangeVolume(zone.outputs[i].output_id.clone(), steps),
                        );
                        assert(expected.take(i + 1) =~= expected.take(i as int).push(
                            expected[i as int],
                        ));
                        i += 1;
                    }
                    assert(expected.take(i as int) =~= expected);
                } else {
                    assert(before + expected =~= before);
                }
            },
            None => {
                assert(before + expected =~= before);
            },
        }
    }

    fn control(&self, zone_id: &str, how: Control, out: &mut Vec<Command>)
        ensures
            final(out).deep_view() == old(out).deep_view() + self.deep_view().control(
                zone_id@,
                how,
            ),
    {
        let ghost before = out.deep_view();
        let ghost expected = self.deep_view().control(zone_id@, how);
        match self.zone_map.get(zone_id) {
            Some(zone) => {
                let blocked = match how {
                    Control::Next => !zone.is_next_allowed,
                    Control::Previous => !zone.is_previous_allowed,
                    _ => false,
                };
                if !blocked && self.has_transport {
                    emit(out, Command::Control(zone.zone_id.clone(), how));
                    assert(out.deep_view() =~= before + expected);
                } else {
                    assert(before + expected =~= before);
                }
            },
            None => {
                assert(before + expected =~= before);
            },
        }
    }

    fn seek_to_end(&self, zone_id: Option<&str>, seek_seconds: Option<i32>, out: &mut Vec<Command>)
        ensures
            final(out).deep_view() == old(out).deep_view() + self.deep_view().seek_to_end(
                zone_id.deep_view(),
                seek_seconds,
            ),
    {
        let ghost before = out.deep_view();
        let ghost expected = self.deep_view().seek_to_end(zone_id.deep_view(), seek_seconds);
        match (zone_id, seek_seconds) {
            (Some(zone_id), Some(seconds)) => {
                if self.has_transport {
                    emit(out, Command::Seek(zone_id.to_owned(), seconds));
                    assert(out.deep_view() =~= before + expected);
                } else {
                    assert(before + expected =~= before);
                }
            },
            _ => {
                assert(before + expected =~= before);
            },
        }
    }

    fn play_queue_end(&self, out: &mut Vec<Command>) -> (r: Option<i32>)
        ensures
            r == self.deep_view().play_queue_end().0,
            final(out).deep_view() == old(out).deep_view() + self.deep_view().play_queue_end().1,
    {
        let ghost before = out.deep_view();
        let ghost expected = self.deep_view().play_queue_end().1;
        match (self.settings.get_zone_id(), &self.queue_end) {
            (Some(zone_id), Some(item)) => {
                if self.has_transport {
                    emit(out, Command::PlayFromHere(zone_id, item.queue_item_id));
                    assert(out.deep_view() =~= before + expected);
                    Some(#[verifier::truncate] (item.length as i32))
                } else {
                    assert(before + expected =~= before);
                    None
                }
            },
            _ => {
                assert(before + expected =~= before);
                None
            },
        }
    }

    fn change_settings(&self, settings: ZoneSettings, out: &mut Vec<Command>)
        ensures
            final(out).deep_view() == old(out).deep_view() + (match (
                self.deep_view().settings.zone_id,
                self.deep_view().selected_zone(),
            ) {
                (Some(zone_id), Some(zone)) => self.deep_view().transport(
                    seq![CommandView::ChangeSettings(zone_id, settings)],
                ),
                _ => Seq::empty(),
            }),
    {
        let ghost before = out.deep_view();
        match (self.settings.get_zone_id(), self.selected_zone()) {
            (Some(zone_id), Some(_zone)) => {
                if self.has_transport {
                    emit(out, Command::ChangeSettings(zone_id, settings));
                    assert(out.deep_view() =~= before + seq![
                        CommandView::ChangeSettings(zone_id@, settings),
                    ]);
                } else {
                    assert(before + Seq::<CommandView>::empty() =~= before);
                }
            },
            _ => {
                assert(before + Seq::<CommandView>::empty() =~= before);
            },
        }
    }

    fn set_roon_radio(&self, auto_radio: bool, out: &mut Vec<Command>)
        ensures
            final(out).deep_view() == old(out).deep_view() + self.deep_view().set_roon_radio(
                auto_radio,
            ),
    {
        let ghost before = out.deep_view();
        match self.selected_zone() {
            Some(zone) => {
                let settings = ZoneSettings {
                    repeat: zone.settings.repeat,
                    shuffle: zone.settings.shuffle,
                    auto_radio,
                };
                self.change_settings(settings, out);
            },
            None => {
                assert(before + Seq::<CommandView>::empty() =~= before);
            },
        }
    }

    fn toggle_repeat(&self, out: &mut Vec<Command>)
        ensures
            final(out).deep_view() == old(out).deep_view() + self.deep_view().toggle_repeat(),
    {
        let ghost before = out.deep_view();
        match self.selected_zone() {
            Some(zone) => {
                let repeat = match zone.settings.repeat {
                    Repeat::Off => Repeat::All,
                    Repeat::All => Repeat::One,
                    Repeat::One => Repeat::Off,
                };
                let settings = ZoneSettings {
                    repeat,
                    shuffle: zone.settings.shuffle,
                    auto_radio: zone.settings.auto_radio,
                };
                self.change_settings(settings, out);
            },
            None => {
                assert(before + Seq::<CommandView>::empty() =~= before);
            },
        }
    }

    fn toggle_shuffle(&self, out: &mut Vec<Command>)
        ensures
            final(out).deep_view() == old(out).deep_view() + self.deep_view().toggle_shuffle(),
    {
        let ghost before = out.deep_view();
        match self.selected_zone() {
            Some(zone) => {
                let settings = ZoneSettings {
                    repeat: zone.settings.repeat,
                    shuffle: !zone.settings.shuffle,
                    auto_radio: zone.settings.auto_radio,
                };
                self.change_settings(settings, out);
            },
            None => {
                assert(before + Seq::<CommandView>::empty() =~= before);
            },
        }
    }

    fn handle_pause_on_track_end_req(&self) -> (r: bool)
        ensures
            r == self.deep_view().pause_on_track_end_req(),
    {
        match self.selected_zone() {
            Some(zone) => match &zone.now_playing {
                Some(now_playing) => match now_playing.length {
                    Some(length) => zone.state == State::Playing && length > 0,
                    None => false,
                },
                None => false,
            },
            None => false,
        }
    }

    fn send_zone_list(&mut self, out: &mut Vec<Command>)
        ensures
            final(self).deep_view() == old(self).deep_view().send_zone_list().0,
            final(out).deep_view() == old(out).deep_view() + old(
                self,
            ).deep_view().send_zone_list().1,
    {
        let names = match self.settings.get_preset_names() {
            Some(names) => names,
            None => Vec::new(),
        };
        let list = build_zone_list(&self.zone_map, &self.matched_zones, &names);
        self.settings.set_zone_list(&list);
        send(out, IoEvent::Zones(list));
        assert(out.deep_view() =~= old(out).deep_view() + old(
            self,
        ).deep_view().send_zone_list().1);
    }
    fn browse_profile(&mut self, zone_id: &str, out: &mut Vec<Command>)
        ensures
            final(self).deep_view() == old(self).deep_view().browse_profile(zone_id@).0,
            final(out).deep_view() == old(out).deep_view() + old(self).deep_view().browse_profile(
                zone_id@,
            ).1,
    {
        let ghost before = out.deep_view();
        match &mut self.browse {
            Some(browse) => {
                browse.browse_profile(zone_id, out);
                assert(out.deep_view() =~= before + seq![
                    CommandView::Browse(BrowseOptsView::of_session(zone_id@)),
                ]);
            },
            None => {
                assert(before + Seq::<CommandView>::empty() =~= before);
            },
        }
    }

    fn sync_and_save_queue_mode(&mut self, out: &mut Vec<Command>)
        ensures
            final(self).deep_view() == old(self).deep_view().sync_and_save_queue_mode().0,
            final(out).deep_view() == old(out).deep_view() + old(
                self,
            ).deep_view().sync_and_save_queue_mode().1,
    {
        let ghost before = out.deep_view();
        let ghost expected = self.deep_view().sync_and_save_queue_mode();
        let zone_id = match self.settings.get_zone_id() {
            Some(zone_id) => zone_id,
            None => {
                assert(before + expected.1 =~= before);
                return ;
            },
        };
        let (output_id, auto_radio) = match self.zone_map.get(zone_id.as_str()) {
            Some(zone) => {
                if zone.outputs.len() == 0 {
                    assert(before + expected.1 =~= before);
                    return ;
                }
                (zone.outputs[0].output_id.clone(), zone.settings.auto_radio)
            },
            None => {
                assert(before + expected.1 =~= before);
                return ;
            },
        };
        match self.settings.remove_queue_mode(zone_id.as_str()) {
            Some(mode) => {
                self.settings.set_queue_mode(output_id.as_str(), mode);
            },
            None => {},
        }
        let queue_mode = if auto_radio {
            QueueMode::RoonRadio
        } else {
            match self.settings.queue_mode_of(output_id.as_str()) {
                Some(QueueMode::RoonRadio) => QueueMode::Manual,
                Some(mode) => mode,
                None => QueueMode::Manual,
            }
        };
        send(out, IoEvent::QueueModeCurrent(queue_mode));
        self.settings.set_queue_mode(output_id.as_str(), queue_mode);
        emit(out, Command::SaveSettings(self.settings.save()));
        assert(out.deep_view() =~= before + expected.1);
    }

    fn select_next_queue_mode(&mut self, out: &mut Vec<Command>) -> (r: Option<QueueMode>)
        ensures
            final(self).deep_view() == old(self).deep_view().select_next_queue_mode().0,
            r == old(self).deep_view().select_next_queue_mode().1,
            final(out).deep_view() == old(out).deep_view() + old(
                self,
            ).deep_view().select_next_queue_mode().2,
    {
        let ghost before = out.deep_view();
        let ghost expected = self.deep_view().select_next_queue_mode();
        let output_id = match self.selected_zone() {
            Some(zone) => {
                if zone.outputs.len() == 0 {
                    assert(before + expected.2 =~= before);
                    return None;
                }
                zone.outputs[0].output_id.clone()
            },
            None => {
                assert(before + expected.2 =~= before);
                return None;
            },
        };
        let has_profile = self.settings.get_profile().is_some();
        let queue_mode = match self.settings.queue_mode_of(output_id.as_str()) {
            Some(mode) => advance(mode, has_profile),
            None => QueueMode::Manual,
        };
        self.settings.set_queue_mode(output_id.as_str(), queue_mode);
        send(out, IoEvent::QueueModeCurrent(queue_mode));
        assert(out.deep_view() =~= before + expected.2);
        Some(queue_mode)
    }

    fn queue_mode_for(
        browse: &mut Option<RoonBrowse>,
        settings: &RoonSettings,
        zone: Option<&Zone>,
        play: bool,
        out: &mut Vec<Command>,
    )
        ensures
            final(browse).deep_view() == queue_mode_for(
                old(browse).deep_view(),
                settings.deep_view().queue_modes,
                zone.deep_view(),
                play,
            ).0,
            final(out).deep_view() == old(out).deep_view() + queue_mode_for(
                old(browse).deep_view(),
                settings.deep_view().queue_modes,
                zone.deep_view(),
                play,
            ).1,
    {
        let ghost before = out.deep_view();
        let ghost expected = queue_mode_for(
            browse.deep_view(),
            settings.deep_view().queue_modes,
            zone.deep_view(),
            play,
        );
        let zone = match zone {
            Some(zone) => zone,
            None => {
                assert(before + expected.1 =~= before);
                return ;
            },
        };
        if zone.outputs.len() == 0 {
            assert(before + expected.1 =~= before);
            return ;
        }
        let queue_mode = match settings.queue_mode_of(zone.outputs[0].output_id.as_str()) {
            Some(mode) => mode,
            None => {
                assert(before + expected.1 =~= before);
                return ;
            },
        };
        let unknown_length = match &zone.now_playing {
            Some(now_playing) => now_playing.length.is_none(),
            None => false,
        };
        match browse {
            Some(navigator) => {
                if play && unknown_length {
                    assert(before + expected.1 =~= before);
                } else {
                    let action = if play {
                        QueueAction::PlayNow
                    } else {
                        QueueAction::Queue
                    };
                    navigator.handle_queue_mode(zone.zone_id.as_str(), &queue_mode, action, out);
                }
            },
            None => {
                assert(before + expected.1 =~= before);
            },
        }
    }

    fn handle_queue_mode(&mut self, zone_id: &str, play: bool, out: &mut Vec<Command>)
        ensures
            final(self).deep_view() == old(self).deep_view().handle_queue_mode(
                assoc_get(old(self).deep_view().zone_map, zone_id@),
                play,
            ).0,
            final(out).deep_view() == old(out).deep_view() + old(
                self,
            ).deep_view().handle_queue_mode(
                assoc_get(old(self).deep_view().zone_map, zone_id@),
                play,
            ).1,
    {
        let zone = self.zone_map.get(zone_id);
        Self::queue_mode_for(&mut self.browse, &self.settings, zone, play, out);
    }

    fn refill(
        browse: &mut Option<RoonBrowse>,
        settings: &RoonSettings,
        zones: &StrMap<Zone>,
        seeks: &Vec<ZoneSeek>,
        out: &mut Vec<Command>,
    )
        ensures
            final(browse).deep_view() == refill(
                old(browse).deep_view(),
                settings.deep_view().queue_modes,
                zones.deep_view(),
                seeks.deep_view(),
            ).0,
            final(out).deep_view() == old(out).deep_view() + refill(
                old(browse).deep_view(),
                settings.deep_view().queue_modes,
                zones.deep_view(),
                seeks.deep_view(),
            ).1,
    {
        let ghost before = out.deep_view();
        let ghost start = browse.deep_view();
        let ghost modes = settings.deep_view().queue_modes;
        let ghost all = seeks.deep_view();
        let ghost done = Seq::<CommandView>::empty();
        let mut i: usize = 0;
        assert(all.skip(0) =~= all);
        assert(before + done =~= before);
        while i < seeks.len()
            invariant
                i <= seeks.len(),
                all == seeks.deep_view(),
                modes == settings.deep_view().queue_modes,
                out.deep_view() == before + done,
                refill(start, modes, zones.deep_view(), all).0 == refill(
                    browse.deep_view(),
                    modes,
                    zones.deep_view(),
                    all.skip(i as int),
                ).0,
                refill(start, modes, zones.deep_view(), all).1 == done + refill(
                    browse.deep_view(),
                    modes,
                    zones.deep_view(),
                    all.skip(i as int),
                ).1,
            decreases seeks.len() - i,
        {
            let ghost rest = all.skip(i as int);
            assert(rest[0] == seeks[i as int].deep_view());
            assert(rest.drop_first() =~= all.skip(i + 1));
            let ghost current = browse.deep_view();
            let ghost first = if runs_out(rest[0]) {
                queue_mode_for(
                    current,
                    modes,
                    assoc_get(zones.deep_view(), rest[0].zone_id),
                    true,
                )
            } else {
                (current, Seq::<CommandView>::empty())
            };
            let seek = &seeks[i];
            if seek.queue_time_remaining >= 0 && seek.queue_time_remaining <= 3 {
                let zone = zones.get(seek.zone_id.as_str());
                Self::queue_mode_for(browse, settings, zone, true, out);
            }
            proof {
                let tail = refill(first.0, modes, zones.deep_view(), all.skip(i + 1));
                assert(done + (first.1 + tail.1) =~= (done + first.1) + tail.1);
                assert(out.deep_view() =~= before + (done + first.1));
                done = done + first.1;
            }
            i += 1;
        }
        assert(all.skip(seeks.len() as int).len() == 0);
        assert(done + Seq::<CommandView>::empty() =~= done);
    }

    fn insert_zones(map: &mut StrMap<Zone>, zones: &Vec<Zone>)
        ensures
            final(map).deep_view() == insert_zones(old(map).deep_view(), zones.deep_view()),
    {
        let ghost start = map.deep_view();
        let ghost all = zones.deep_view();
        let mut i: usize = 0;
        assert(all.skip(0) =~= all);
        while i < zones.len()
            invariant
                i <= zones.len(),
                all == zones.deep_view(),
                insert_zones(start, all) == insert_zones(map.deep_view(), all.skip(i as int)),
            decreases zones.len() - i,
        {
            let ghost rest = all.skip(i as int);
            assert(rest[0] == zones[i as int].deep_view());
            assert(rest.drop_first() =~= all.skip(i + 1));
            map.insert(zones[i].zone_id.clone(), zones[i].clone());
            i += 1;
        }
        assert(all.skip(zones.len() as int).len() == 0);
    }

    fn remove_keys<V: DeepView>(map: &mut StrMap<V>, keys: &Vec<String>)
        ensures
            final(map).deep_view() == remove_all(old(map).deep_view(), keys.deep_view()),
    {
        let ghost start = map.deep_view();
        let ghost all = keys.deep_view();
        let mut i: usize = 0;
        assert(all.skip(0) =~= all);
        while i < keys.len()
            invariant
                i <= keys.len(),
                all == keys.deep_view(),
                remove_all(start, all) == remove_all(map.deep_view(), all.skip(i as int)),
            decreases keys.len() - i,
        {
            let ghost rest = all.skip(i as int);
            assert(rest[0] == keys[i as int]@);
            assert(rest.drop_first() =~= all.skip(i + 1));
            map.remove(keys[i].as_str());
            i += 1;
        }
        assert(all.skip(keys.len() as int).len() == 0);
    }

    fn match_zones(matched: &mut StrMap<String>, zones: &StrMap<Zone>, settings: &RoonSettings)
        ensures
            final(matched).deep_view() == match_zones(
                old(matched).deep_view(),
                zones.deep_view(),
                settings.deep_view().presets,
                0,
            ),
    {
        let ghost start = matched.deep_view();
        let ghost presets = settings.deep_view().presets;
        let n = zones.len();
        let mut i: usize = 0;
        while i < n
            invariant
                i <= n,
                n == zones.deep_view().len(),
                presets == settings.deep_view().presets,
                match_zones(start, zones.deep_view(), presets, 0) == match_zones(
                    matched.deep_view(),
                    zones.deep_view(),
                    presets,
                    i as int,
                ),
            decreases n - i,
        {
            let zone = zones.value_at(i);
            let mut ids = zone.output_ids();
            match settings.match_preset(&mut ids) {
                Some(name) => {
                    matched.insert(zone.zone_id.clone(), name);
                },
                None => {},
            }
            i += 1;
        }
    }

    fn send_zone_changed(&mut self, new_zone: bool, out: &mut Vec<Command>)
        ensures
            final(self).deep_view() == old(self).deep_view().send_zone_changed(new_zone).0,
            final(out).deep_view() == old(out).deep_view() + old(
                self,
            ).deep_view().send_zone_changed(new_zone).1,
    {
        let ghost before = out.deep_view();
        let ghost expected = self.deep_view().send_zone_changed(new_zone);
        let zone_id = match self.settings.get_zone_id() {
            Some(zone_id) => zone_id,
            None => {
                assert(before + expected.1 =~= before);
                return ;
            },
        };
        let zone = match self.zone_map.get(zone_id.as_str()) {
            Some(zone) => zone.clone(),
            None => {
                assert(before + expected.1 =~= before);
                return ;
            },
        };
        if new_zone {
            if !self.has_transport {
                assert(before + expected.1 =~= before);
                return ;
            }
            emit(out, Command::SubscribeQueue(zone_id.clone(), QUEUE_ITEM_COUNT));
            self.browse_profile(zone_id.as_str(), out);
            emit(out, Command::GetZones);
        }
        if zone.state != State::Playing {
            if self.pause_on_track_end {
                self.pause_on_track_end = false;
                send(out, IoEvent::PauseOnTrackEndActive(false));
            }
        } else {
            let seek_seconds = self.seek_seconds;
            self.seek_seconds = None;
            self.seek_to_end(Some(zone_id.as_str()), seek_seconds, out);
        }
        let matched_preset = match self.matched_zones.get(zone_id.as_str()) {
            Some(preset) => Some(preset.clone()),
            None => None,
        };
        send(out, IoEvent::ZonePresetMatched(matched_preset));
        send(out, IoEvent::ZoneChanged(zone));
        assert(out.deep_view() =~= before + expected.1);
    }

    fn update_grouping(&mut self, new_ids: Vec<String>, out: &mut Vec<Command>) -> (r:
        GroupingState)
        ensures
            final(self).deep_view() == old(self).deep_view().update_grouping(
                new_ids.deep_view(),
            ).0,
            r.deep_view() == old(self).deep_view().update_grouping(new_ids.deep_view()).1,
            final(out).deep_view() == old(out).deep_view() + old(
                self,
            ).deep_view().update_grouping(new_ids.deep_view()).2,
    {
        let ghost before = out.deep_view();
        let ghost expected = self.deep_view().update_grouping(new_ids.deep_view());
        match plan_grouping(&self.zone_map, &new_ids) {
            GroupingPlan::Realized(k) => {
                let mut ids = new_ids;
                match self.settings.match_preset(&mut ids) {
                    Some(name) => {
                        let zone_id = self.zone_map.value_at(k).zone_id.clone();
                        self.matched_zones.insert(zone_id, name.clone());
                        self.send_zone_list(out);
                        send(out, IoEvent::ZonePresetMatched(Some(name)));
                        assert(out.deep_view() =~= before + expected.2);
                    },
                    None => {
                        assert(before + expected.2 =~= before);
                    },
                }
                GroupingState::Idle
            },
            GroupingPlan::Ungroup(k) => {
                if self.has_transport {
                    emit(out, Command::UngroupOutputs(self.zone_map.value_at(k).output_ids()));
                    assert(out.deep_view() =~= before + expected.2);
                    GroupingState::PendingUngroup(new_ids)
                } else {
                    assert(before + expected.2 =~= before);
                    GroupingState::Idle
                }
            },
            GroupingPlan::Group => {
                if self.has_transport {
                    emit(out, Command::GroupOutputs(clone_strings(&new_ids)));
                    assert(out.deep_view() =~= before + expected.2);
                    GroupingState::PendingGroup(new_ids)
                } else {
                    assert(before + expected.2 =~= before);
                    GroupingState::Idle
                }
            },
            GroupingPlan::Nothing => {
                assert(before + expected.2 =~= before);
                GroupingState::Idle
            },
        }
    }

    fn save(&self, out: &mut Vec<Command>)
        ensures
            final(out).deep_view() == old(out).deep_view().push(self.deep_view().save()),
    {
        emit(out, Command::SaveSettings(self.settings.save()));
    }

    /// Handles a change in the connection to the server.
    pub fn handle_core_event(&mut self, core_event: CoreEvent) -> (r: Vec<Command>)
        ensures
            final(self).deep_view() == old(self).deep_view().core_step(core_event.deep_view()).0,
            r.deep_view() == old(self).deep_view().core_step(core_event.deep_view()).1,
    {
        let mut out: Vec<Command> = Vec::new();
        assert(out.deep_view() =~= Seq::<CommandView>::empty());
        let ghost expected = self.deep_view().core_step(core_event.deep_view());
        match core_event {
            CoreEvent::Found(name, has_browse, has_transport) => {
                if has_browse {
                    if self.browse.is_none() {
                        let (browse, _first) = RoonBrowse::new();
                        self.browse = Some(browse);
                    }
                } else {
                    self.browse = None;
                }
                self.has_transport = has_transport;
                if has_transport {
                    match &mut self.browse {
                        Some(browse) => {
                            browse.go_home(&mut out);
                            emit(&mut out, Command::SubscribeZones);
                            send(&mut out, IoEvent::CoreName(Some(name)));
                            assert(out.deep_view() =~= expected.1);
                        },
                        None => {},
                    }
                }
            },
            CoreEvent::Lost(_name) => {
                send(&mut out, IoEvent::CoreName(None));
                assert(out.deep_view() =~= expected.1);
            },
            CoreEvent::Other => {},
        }
        out
    }

    fn resolve_pending(&mut self, zones: &Vec<Zone>, out: &mut Vec<Command>)
        ensures
            final(self).deep_view() == old(self).deep_view().resolve_pending(zones.deep_view()).0,
            final(out).deep_view() == old(out).deep_view() + old(
                self,
            ).deep_view().resolve_pending(zones.deep_view()).1,
    {
        let ghost before = out.deep_view();
        let ghost expected = self.deep_view().resolve_pending(zones.deep_view());
        let found = match &self.grouping {
            GroupingState::Idle => None,
            GroupingState::PendingUngroup(pending) => find_resolving_zone(zones, pending),
            GroupingState::PendingGroup(pending) => find_resolving_zone(zones, pending),
        };
        match found {
            Some(i) => {
                self.settings.set_zone_id(Some(zones[i].zone_id.clone()));
                self.grouping = GroupingState::Idle;
                self.save(out);
                assert(out.deep_view() =~= before + expected.1);
            },
            None => {
                assert(before + expected.1 =~= before);
            },
        }
    }

    fn resolve_orphan(&mut self, zones: &Vec<Zone>, out: &mut Vec<Command>)
        ensures
            final(self).deep_view() == old(self).deep_view().resolve_orphan(zones.deep_view()).0,
            final(out).deep_view() == old(out).deep_view() + old(
                self,
            ).deep_view().resolve_orphan(zones.deep_view()).1,
    {
        let ghost before = out.deep_view();
        let ghost expected = self.deep_view().resolve_orphan(zones.deep_view());
        let orphan = clone_opt_string(&self.orphaned_output_id);
        match orphan {
            Some(output_id) => {
                self.orphaned_output_id = None;
                let zone_id = match find_zone_of_first_output(zones, output_id.as_str()) {
                    Some(i) => Some(zones[i].zone_id.clone()),
                    None => None,
                };
                self.settings.set_zone_id(zone_id);
                self.save(out);
                assert(out.deep_view() =~= before + expected.1);
            },
            None => {
                assert(before + expected.1 =~= before);
            },
        }
    }

    fn selected_is_new(&self) -> (r: bool)
        ensures
            r == self.deep_view().selected_is_new(),
    {
        match self.settings.get_zone_id() {
            Some(zone_id) => !self.zone_map.contains_key(zone_id.as_str()),
            None => false,
        }
    }

    fn take_zones(&mut self, zones: &Vec<Zone>, out: &mut Vec<Command>) -> (r: bool)
        ensures
            final(self).deep_view() == old(self).deep_view().take_zones(zones.deep_view()).0,
            r == old(self).deep_view().take_zones(zones.deep_view()).1,
            final(out).deep_view() == old(out).deep_view() + old(self).deep_view().take_zones(
                zones.deep_view(),
            ).2,
    {
        let ghost before = out.deep_view();
        let ghost expected = self.deep_view().take_zones(zones.deep_view());
        let ghost pending = self.deep_view().resolve_pending(zones.deep_view());
        self.resolve_pending(zones, out);
        let ghost orphan = pending.0.resolve_orphan(zones.deep_view());
        self.resolve_orphan(zones, out);
        assert(out.deep_view() =~= before + (pending.1 + orphan.1));
        let new_zone = self.selected_is_new();
        Self::insert_zones(&mut self.zone_map, zones);
        new_zone
    }

    fn announce(&mut self, new_zone: bool, out: &mut Vec<Command>)
        ensures
            final(self).deep_view() == old(self).deep_view().announce(new_zone).0,
            final(out).deep_view() == old(out).deep_view() + old(self).deep_view().announce(
                new_zone,
            ).1,
    {
        let ghost before = out.deep_view();
        let ghost start = self.deep_view();
        let ghost matched = RoonHandlerView {
            matched_zones: match_zones(
                start.matched_zones,
                start.zone_map,
                start.settings.presets,
                0,
            ),
            ..start
        };
        Self::match_zones(&mut self.matched_zones, &self.zone_map, &self.settings);
        assert(self.deep_view() == matched);
        let ghost synced = matched.sync_and_save_queue_mode();
        self.sync_and_save_queue_mode(out);
        let ghost changed = synced.0.send_zone_changed(new_zone);
        self.send_zone_changed(new_zone, out);
        let ghost listed = changed.0.send_zone_list();
        self.send_zone_list(out);
        assert(out.deep_view() =~= before + (synced.1 + changed.1 + listed.1));
    }

    fn on_zones(&mut self, zones: Vec<Zone>, out: &mut Vec<Command>)
        ensures
            final(self).deep_view() == old(self).deep_view().on_zones(zones.deep_view()).0,
            final(out).deep_view() == old(out).deep_view() + old(self).deep_view().on_zones(
                zones.deep_view(),
            ).1,
    {
        let ghost before = out.deep_view();
        let ghost taken = self.deep_view().take_zones(zones.deep_view());
        let new_zone = self.take_zones(&zones, out);
        let idle = match &self.grouping {
            GroupingState::Idle => true,
            _ => false,
        };
        if idle {
            let ghost announced = taken.0.announce(taken.1);
            self.announce(new_zone, out);
            assert(out.deep_view() =~= before + (taken.2 + announced.1));
        }
    }

    fn on_zones_removed(&mut self, zone_ids: Vec<String>, out: &mut Vec<Command>)
        ensures
            final(self).deep_view() == old(self).deep_view().on_zones_removed(
                zone_ids.deep_view(),
            ).0,
            final(out).deep_view() == old(out).deep_view() + old(
                self,
            ).deep_view().on_zones_removed(zone_ids.deep_view()).1,
    {
        let ghost before = out.deep_view();
        let ghost expected = self.deep_view().on_zones_removed(zone_ids.deep_view());
        match self.settings.get_zone_id() {
            Some(zone_id) => {
                if contains_id(&zone_ids, zone_id.as_str()) {
                    send(out, IoEvent::ZoneRemoved(zone_id));
                    send(out, IoEvent::ZonePresetMatched(None));
                }
            },
            None => {},
        }
        Self::remove_keys(&mut self.matched_zones, &zone_ids);
        Self::remove_keys(&mut self.zone_map, &zone_ids);
        let pending = self.pending_grouping();
        match pending {
            Some(pending) => {
                if self.has_transport {
                    emit(out, Command::GroupOutputs(clone_strings(&pending)));
                    self.grouping = GroupingState::PendingGroup(pending);
                }
            },
            None => {
                self.send_zone_list(out);
            },
        }
        assert(out.deep_view() =~= before + expected.1);
    }

    fn find_seek(seeks: &Vec<ZoneSeek>, zone_id: &str) -> (r: Option<usize>)
        ensures
            match r {
                Some(i) => i < seeks.len() && seek_of(seeks.deep_view(), zone_id@) == Some(
                    i as int,
                ),
                None => seek_of(seeks.deep_view(), zone_id@) is None,
            },
    {
        let ghost p = |seek: ZoneSeekView| seek.zone_id == zone_id@;
        let mut i: usize = 0;
        while i < seeks.len()
            invariant
                i <= seeks.len(),
                p == |seek: ZoneSeekView| seek.zone_id == zone_id@,
                forall|j: int| 0 <= j < i ==> !p(#[trigger] seeks.deep_view()[j]),
            decreases seeks.len() - i,
        {
            if str_eq(seeks[i].zone_id.as_str(), zone_id) {
                proof {
                    assert(p(seeks.deep_view()[i as int]));
                    lemma_first_where_found(seeks.deep_view(), p, i as int);
                }
                return Some(i);
            }
            assert(!p(seeks.deep_view()[i as int]));
            i += 1;
        }
        proof {
            lemma_first_where_none(seeks.deep_view(), p);
        }
        None
    }

    fn on_selected_seek(&mut self, seeks: &Vec<ZoneSeek>, out: &mut Vec<Command>)
        ensures
            final(self).deep_view() == old(self).deep_view().on_selected_seek(
                seeks.deep_view(),
            ).0,
            final(out).deep_view() == old(out).deep_view() + old(
                self,
            ).deep_view().on_selected_seek(seeks.deep_view()).1,
    {
        let ghost before = out.deep_view();
        let ghost expected = self.deep_view().on_selected_seek(seeks.deep_view());
        let zone_id = match self.settings.get_zone_id() {
            Some(zone_id) => zone_id,
            None => {
                assert(before + expected.1 =~= before);
                return ;
            },
        };
        match Self::find_seek(seeks, zone_id.as_str()) {
            Some(i) => {
                let seek = seeks[i].clone();
                let at_start = match seek.seek_position {
                    Some(position) => position == 0,
                    None => false,
                };
                if at_start && self.pause_on_track_end {
                    self.control(zone_id.as_str(), Control::Pause, out);
                    self.pause_on_track_end = false;
                    send(out, IoEvent::PauseOnTrackEndActive(false));
                }
                send(out, IoEvent::ZoneSeek(seek));
                assert(out.deep_view() =~= before + expected.1);
            },
            None => {
                assert(before + expected.1 =~= before);
            },
        }
    }

    fn on_zones_seek(&mut self, seeks: Vec<ZoneSeek>, out: &mut Vec<Command>)
        ensures
            final(self).deep_view() == old(self).deep_view().on_zones_seek(seeks.deep_view()).0,
            final(out).deep_view() == old(out).deep_view() + old(self).deep_view().on_zones_seek(
                seeks.deep_view(),
            ).1,
    {
        let ghost before = out.deep_view();
        let ghost expected = self.deep_view().on_zones_seek(seeks.deep_view());
        self.on_selected_seek(&seeks, out);
        Self::refill(&mut self.browse, &self.settings, &self.zone_map, &seeks, out);
        assert(out.deep_view() =~= before + expected.1);
    }

    fn on_browse(&mut self, parsed: Parsed, pick: usize, out: &mut Vec<Command>)
        ensures
            final(self).deep_view() == old(self).deep_view().on_browse(parsed.deep_view(), pick).0,
            final(out).deep_view() == old(out).deep_view() + old(self).deep_view().on_browse(
                parsed.deep_view(),
                pick,
            ).1,
    {
        let ghost before = out.deep_view();
        let profile = self.settings.get_profile();
        let profile_ref: Option<&str> = match &profile {
            Some(name) => Some(name.as_str()),
            None => None,
        };
        let no_active_zones = self.zone_map.is_empty();
        match &mut self.browse {
            Some(browse) => {
                let commands = browse.handle_msg_event_with(
                    parsed,
                    profile_ref,
                    no_active_zones,
                    pick,
                );
                emit_all(out, commands);
            },
            None => {
                assert(before + Seq::<CommandView>::empty() =~= before);
            },
        }
    }

    /// Handles a pushed event, taking a random position where one is asked
    /// for. Whatever was drawn, the state and the commands are those of
    /// `msg_step` for a position under the bound.
    pub fn handle_msg_event(&mut self, parsed: Parsed) -> (r: Vec<Command>)
        ensures
            exists|pick: usize|
                (pick_bound(parsed.deep_view()) matches Some(bound) ==> pick < bound) && (
                    final(self).deep_view(),
                    r.deep_view(),
                ) == #[trigger] old(self).deep_view().msg_step(parsed.deep_view(), pick),
    {
        let pick = RoonBrowse::draw(&parsed);
        self.handle_msg_event_with(parsed, pick)
    }

    /// Handles a pushed event. `pick` is the position taken where a random
    /// item is asked for.
    pub fn handle_msg_event_with(&mut self, parsed: Parsed, pick: usize) -> (r: Vec<Command>)
        ensures
            (final(self).deep_view(), r.deep_view()) == old(self).deep_view().msg_step(
                parsed.deep_view(),
                pick,
            ),
    {
        let mut out: Vec<Command> = Vec::new();
        assert(out.deep_view() =~= Seq::<CommandView>::empty());
        let ghost expected = self.deep_view().msg_step(parsed.deep_view(), pick);
        match parsed {
            Parsed::RoonState => {
                emit(&mut out, Command::SaveRoonState);
            },
            Parsed::Zones(zones) => {
                self.on_zones(zones, &mut out);
            },
            Parsed::ZonesRemoved(zone_ids) => {
                self.on_zones_removed(zone_ids, &mut out);
            },
            Parsed::ZonesSeek(seeks) => {
                self.on_zones_seek(seeks, &mut out);
            },
            Parsed::Queue(items) => {
                send(&mut out, IoEvent::QueueList(items));
            },
            Parsed::QueueChanges(changes) => {
                send(&mut out, IoEvent::QueueListChanges(changes));
            },
            Parsed::Outputs(outputs) => {
                match self.settings.get_zone_id() {
                    Some(zone_id) => {
                        let grouping = get_grouping(self.zone_map.get(zone_id.as_str()), &outputs);
                        send(&mut out, IoEvent::ZoneGrouping(grouping));
                    },
                    None => {},
                }
            },
            other => {
                self.on_browse(other, pick, &mut out);
            },
        }
        assert(out.deep_view() =~= expected.1);
        out
    }

    fn clear_navigation(&mut self)
        ensures
            final(self).deep_view() == old(self).deep_view().cleared(),
    {
        match &mut self.browse {
            Some(browse) => {
                browse.clear_navigation();
            },
            None => {},
        }
    }

    fn on_browse_selected(&mut self, item_key: Option<String>, out: &mut Vec<Command>)
        ensures
            final(self).deep_view() == old(self).deep_view().on_browse_selected(
                item_key.deep_view(),
            ).0,
            final(out).deep_view() == old(out).deep_view() + old(
                self,
            ).deep_view().on_browse_selected(item_key.deep_view()).1,
    {
        let ghost before = out.deep_view();
        let ghost expected = self.deep_view().on_browse_selected(item_key.deep_view());
        let zone_id = match self.settings.get_zone_id() {
            Some(zone_id) => if self.zone_map.contains_key(zone_id.as_str()) {
                Some(zone_id)
            } else {
                None
            },
            None => None,
        };
        let mut changed = false;
        let mut commands: Vec<Command> = Vec::new();
        match &mut self.browse {
            Some(browse) => {
                browse.set_zone_id(zone_id);
                let step = browse.handle_io_event(
                    IoEvent::BrowseSelected(item_key),
                    &mut self.settings,
                );
                changed = step.0;
                commands = step.1;
            },
            None => {
                assert(before + expected.1 =~= before);
                return ;
            },
        }
        if changed {
            self.save(out);
        }
        emit_all(out, commands);
        assert(out.deep_view() =~= before + expected.1);
    }

    fn on_browse_request(&mut self, io_event: IoEvent, out: &mut Vec<Command>)
        ensures
            final(self).deep_view() == old(self).deep_view().on_browse_request(
                io_event.deep_view(),
            ).0,
            final(out).deep_view() == old(out).deep_view() + old(
                self,
            ).deep_view().on_browse_request(io_event.deep_view()).1,
    {
        let ghost before = out.deep_view();
        match &mut self.browse {
            Some(browse) => {
                let step = browse.handle_io_event(io_event, &mut self.settings);
                emit_all(out, step.1);
            },
            None => {
                assert(before + Seq::<CommandView>::empty() =~= before);
            },
        }
    }

    fn select_zone(&mut self, zone_id: String, out: &mut Vec<Command>)
        ensures
            final(self).deep_view() == old(self).deep_view().select_zone(zone_id@).0,
            final(out).deep_view() == old(out).deep_view() + old(self).deep_view().select_zone(
                zone_id@,
            ).1,
    {
        let ghost before = out.deep_view();
        let ghost expected = self.deep_view().select_zone(zone_id@);
        emit(out, Command::SubscribeQueue(zone_id.clone(), QUEUE_ITEM_COUNT));
        self.browse_profile(zone_id.as_str(), out);
        match self.zone_map.get(zone_id.as_str()) {
            Some(zone) => {
                let matched_preset = match self.matched_zones.get(zone_id.as_str()) {
                    Some(preset) => Some(preset.clone()),
                    None => None,
                };
                send(out, IoEvent::ZonePresetMatched(matched_preset));
                send(out, IoEvent::ZoneChanged(zone.clone()));
            },
            None => {},
        }
        self.settings.set_zone_id(Some(zone_id));
        self.sync_and_save_queue_mode(out);
        assert(out.deep_view() =~= before + expected.1);
    }

    fn select_output(&mut self, output_id: String, out: &mut Vec<Command>)
        ensures
            final(self).deep_view() == old(self).deep_view().select_output(output_id@).0,
            final(out).deep_view() == old(out).deep_view() + old(self).deep_view().select_output(
                output_id@,
            ).1,
    {
        let ghost before = out.deep_view();
        let ghost expected = self.deep_view().select_output(output_id@);
        match find_zone_with_output(&self.zone_map, output_id.as_str()) {
            Some(k) => {
                let zone = self.zone_map.value_at(k);
                let zone_id = zone.zone_id.clone();
                let ids = zone.output_ids();
                self.matched_zones.remove(zone_id.as_str());
                send(out, IoEvent::ZonePresetMatched(None));
                emit(out, Command::UngroupOutputs(ids));
                self.orphaned_output_id = Some(output_id);
                assert(out.deep_view() =~= before + expected.1);
            },
            None => {
                assert(before + expected.1 =~= before);
            },
        }
    }

    fn group(&mut self, ids: Vec<String>, out: &mut Vec<Command>)
        ensures
            final(self).deep_view() == old(self).deep_view().group(ids.deep_view()).0,
            final(out).deep_view() == old(out).deep_view() + old(self).deep_view().group(
                ids.deep_view(),
            ).1,
    {
        let pending = self.update_grouping(ids, out);
        self.grouping = pending;
    }

    fn on_zone_selected(&mut self, end_point: EndPoint, out: &mut Vec<Command>)
        ensures
            final(self).deep_view() == old(self).deep_view().on_zone_selected(
                end_point.deep_view(),
            ).0,
            final(out).deep_view() == old(out).deep_view() + old(
                self,
            ).deep_view().on_zone_selected(end_point.deep_view()).1,
    {
        let ghost before = out.deep_view();
        let ghost expected = self.deep_view().on_zone_selected(end_point.deep_view());
        if !self.has_transport {
            assert(before + expected.1 =~= before);
            return ;
        }
        emit(out, Command::UnsubscribeQueue);
        match end_point {
            EndPoint::Output(output_id) => {
                self.select_output(output_id, out);
            },
            EndPoint::Zone(zone_id) => {
                self.select_zone(zone_id, out);
            },
            EndPoint::MatchedPreset(pair) => {
                self.select_zone(pair.0, out);
            },
            EndPoint::Preset(name) => {
                match self.settings.get_preset(name.as_str()) {
                    Some(ids) => {
                        self.group(ids, out);
                    },
                    None => {},
                }
            },
        }
        assert(out.deep_view() =~= before + expected.1);
    }

    fn on_queue_mode_next(&mut self, out: &mut Vec<Command>)
        ensures
            final(self).deep_view() == old(self).deep_view().on_queue_mode_next().0,
            final(out).deep_view() == old(out).deep_view() + old(
                self,
            ).deep_view().on_queue_mode_next().1,
    {
        let ghost before = out.deep_view();
        let ghost expected = self.deep_view().on_queue_mode_next();
        match self.select_next_queue_mode(out) {
            Some(queue_mode) => {
                let auto_radio = match queue_mode {
                    QueueMode::RoonRadio => true,
                    _ => false,
                };
                self.set_roon_radio(auto_radio, out);
                self.save(out);
                assert(out.deep_view() =~= before + expected.1);
            },
            None => {},
        }
    }

    fn on_save_preset(&mut self, name: String, output_ids: Vec<String>, out: &mut Vec<Command>)
        ensures
            final(self).deep_view() == old(self).deep_view().on_save_preset(
                name@,
                output_ids.deep_view(),
            ).0,
            final(out).deep_view() == old(out).deep_view() + old(
                self,
            ).deep_view().on_save_preset(name@, output_ids.deep_view()).1,
    {
        let ghost before = out.deep_view();
        let ghost expected = self.deep_view().on_save_preset(name@, output_ids.deep_view());
        let mut ids = output_ids;
        sort_ids_tail(&mut ids);
        self.settings.add_preset(name, clone_strings(&ids));
        self.save(out);
        self.group(ids, out);
        assert(out.deep_view() =~= before + expected.1);
    }

    fn on_delete_preset(&mut self, name: String, out: &mut Vec<Command>)
        ensures
            final(self).deep_view() == old(self).deep_view().on_delete_preset(name@).0,
            final(out).deep_view() == old(out).deep_view() + old(
                self,
            ).deep_view().on_delete_preset(name@).1,
    {
        let ghost before = out.deep_view();
        let ghost expected = self.deep_view().on_delete_preset(name@);
        self.settings.remove_preset(name.as_str());
        self.save(out);
        self.send_zone_list(out);
        assert(out.deep_view() =~= before + expected.1);
    }

    fn on_control(&mut self, how: Control, out: &mut Vec<Command>)
        ensures
            final(self).deep_view() == old(self).deep_view().on_control(how).0,
            final(out).deep_view() == old(out).deep_view() + old(self).deep_view().on_control(
                how,
            ).1,
    {
        let ghost before = out.deep_view();
        let ghost expected = self.deep_view().on_control(how);
        let zone_id = match self.settings.get_zone_id() {
            Some(zone_id) => zone_id,
            None => {
                assert(before + expected.1 =~= before);
                return ;
            },
        };
        let playing = match self.zone_map.get(zone_id.as_str()) {
            Some(zone) => zone.now_playing.is_some(),
            None => {
                assert(before + expected.1 =~= before);
                return ;
            },
        };
        if playing {
            self.control(zone_id.as_str(), how, out);
        } else if how == Control::PlayPause {
            self.handle_queue_mode(zone_id.as_str(), true, out);
        } else {
            assert(before + expected.1 =~= before);
        }
    }

    fn is_intent(io_event: &IoEvent) -> (r: bool)
        ensures
            r == is_intent(io_event.deep_view()),
    {
        match io_event {
            IoEvent::QueueListLast(_) => true,
            IoEvent::QueueSelected(_) => true,
            IoEvent::QueueClear => true,
            IoEvent::QueueModeNext => true,
            IoEvent::QueueModeAppend => true,
            IoEvent::ZoneSelected(_) => true,
            IoEvent::ZoneGroupReq => true,
            IoEvent::ZoneGrouped(_) => true,
            IoEvent::ZoneSavePreset(_, _) => true,
            IoEvent::ZoneDeletePreset(_) => true,
            IoEvent::ZoneMatchPreset(_) => true,
            IoEvent::Mute(_) => true,
            IoEvent::ChangeVolume(_) => true,
            IoEvent::Control(_) => true,
            IoEvent::Repeat => true,
            IoEvent::Shuffle => true,
            IoEvent::PauseOnTrackEndReq => true,
            _ => false,
        }
    }

    #[verifier::rlimit(60)]
    fn intent(&mut self, io_event: IoEvent, out: &mut Vec<Command>)
        ensures
            final(self).deep_view() == old(self).deep_view().intent_step(io_event.deep_view()).0,
            final(out).deep_view() == old(out).deep_view() + old(self).deep_view().intent_step(
                io_event.deep_view(),
            ).1,
    {
        let ghost before = out.deep_view();
        let ghost expected = self.deep_view().intent_step(io_event.deep_view());
        match io_event {
            IoEvent::QueueListLast(item) => {
                self.queue_end = item;
                assert(before + expected.1 =~= before);
            },
            IoEvent::QueueSelected(queue_item_id) => {
                match self.settings.get_zone_id() {
                    Some(zone_id) => {
                        if self.has_transport {
                            emit(out, Command::PlayFromHere(zone_id, queue_item_id));
                        }
                    },
                    None => {},
                }
                assert(out.deep_view() =~= before + expected.1);
            },
            IoEvent::QueueClear => {
                let seek_seconds = self.play_queue_end(out);
                self.seek_seconds = seek_seconds;
            },
            IoEvent::QueueModeNext => {
                self.on_queue_mode_next(out);
            },
            IoEvent::QueueModeAppend => {
                match self.settings.get_zone_id() {
                    Some(zone_id) => {
                        self.handle_queue_mode(zone_id.as_str(), false, out);
                    },
                    None => {
                        assert(before + expected.1 =~= before);
                    },
                }
            },
            IoEvent::ZoneSelected(end_point) => {
                self.on_zone_selected(end_point, out);
            },
            IoEvent::ZoneGroupReq => {
                if self.has_transport {
                    emit(out, Command::GetOutputs);
                }
                assert(out.deep_view() =~= before + expected.1);
            },
            IoEvent::ZoneGrouped(output_ids) => {
                self.group(output_ids, out);
            },
            IoEvent::ZoneSavePreset(name, output_ids) => {
                self.on_save_preset(name, output_ids, out);
            },
            IoEvent::ZoneDeletePreset(name) => {
                self.on_delete_preset(name, out);
            },
            IoEvent::ZoneMatchPreset(output_ids) => {
                let mut ids = output_ids;
                let preset = self.settings.match_preset(&mut ids);
                send(out, IoEvent::ZonePresetMatched(preset));
                assert(out.deep_view() =~= before + expected.1);
            },
            IoEvent::Mute(how) => {
                self.mute(how, out);
            },
            IoEvent::ChangeVolume(steps) => {
                self.change_volume(steps, out);
            },
            IoEvent::Control(how) => {
                self.on_control(how, out);
            },
            IoEvent::Repeat => {
                self.toggle_repeat(out);
            },
            IoEvent::Shuffle => {
                self.toggle_shuffle(out);
            },
            IoEvent::PauseOnTrackEndReq => {
                let active = self.handle_pause_on_track_end_req();
                self.pause_on_track_end = active;
                send(out, IoEvent::PauseOnTrackEndActive(active));
                assert(out.deep_view() =~= before + expected.1);
            },
            _ => {
                assert(before + expected.1 =~= before);
            },
        }
    }

    /// Handles a request of the user.
    pub fn handle_io_event(&mut self, io_event: IoEvent) -> (r: Vec<Command>)
        ensures
            (final(self).deep_view(), r.deep_view()) == old(self).deep_view().io_step(
                io_event.deep_view(),
            ),
    {
        let mut out: Vec<Command> = Vec::new();
        assert(out.deep_view() =~= Seq::<CommandView>::empty());
        let ghost expected = self.deep_view().io_step(io_event.deep_view());
        if self.browse.is_none() {
            return out;
        }
        match io_event {
            IoEvent::BrowseSelected(item_key) => {
                self.on_browse_selected(item_key, &mut out);
            },
            other => {
                if Self::is_intent(&other) {
                    self.clear_navigation();
                    self.intent(other, &mut out);
                } else {
                    self.on_browse_request(other, &mut out);
                }
            },
        }
        assert(out.deep_view() =~= expected.1);
        out
    }
}

} // verus!
