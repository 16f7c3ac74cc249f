//! Zones, outputs and queue items as the server reports them, and the
//! playback commands that can be sent to it.

use vstd::prelude::*;

verus! {

/// The playback state of a zone.
#[derive(Clone, Copy, Debug, PartialEq, Eq, Structural)]
pub enum State {
    Loading,
    Playing,
    Paused,
    Stopped,
}

/// The repeat setting of a zone.
#[derive(Clone, Copy, Debug, PartialEq, Eq, Structural)]
pub enum Repeat {
    Off,
    All,
    One,
}

/// A playback command.
#[derive(Clone, Copy, Debug, PartialEq, Eq, Structural)]
pub enum Control {
    Play,
    Pause,
    PlayPause,
    Stop,
    Previous,
    Next,
}

/// Whether to mute or to unmute an output.
#[derive(Clone, Copy, Debug, PartialEq, Eq, Structural)]
pub enum Mute {
    Mute,
    Unmute,
}

/// The settings of a zone.
#[derive(Clone, Copy, Debug, PartialEq, Eq, Structural)]
pub struct ZoneSettings {
    pub repeat: Repeat,
    pub shuffle: bool,
    pub auto_radio: bool,
}

/// One audio endpoint.
#[derive(Debug, PartialEq, Eq)]
pub struct Output {
    pub output_id: String,
    pub display_name: String,
    pub can_group_with_output_ids: Vec<String>,
}

/// The model of `Output`: a string by its characters, a list by the sequence
/// of its items.
pub struct OutputView {
    pub output_id: Seq<char>,
    pub display_name: Seq<char>,
    pub can_group_with_output_ids: Seq<Seq<char>>,
}

impl DeepView for Output {
    type V = OutputView;

    open spec fn deep_view(&self) -> OutputView {
        OutputView {
            output_id: self.output_id@,
            display_name: self.display_name@,
            can_group_with_output_ids: self.can_group_with_output_ids.deep_view(),
        }
    }
}

impl Clone for Output {
    fn clone(&self) -> (r: Self)
        ensures
            r.deep_view() == self.deep_view(),
    {
        let r = Output {
            output_id: self.output_id.clone(),
            display_name: self.display_name.clone(),
            can_group_with_output_ids: self.can_group_with_output_ids.clone(),
        };
        assert(r.can_group_with_output_ids.deep_view()
            =~= self.can_group_with_output_ids.deep_view());
        r
    }
}

/// What a zone is playing.
#[derive(Debug, PartialEq, Eq)]
pub struct NowPlaying {
    pub length: Option<u32>,
    pub seek_position: Option<i64>,
    pub line1: String,
    pub line2: String,
    pub line3: String,
}

/// The model of `NowPlaying`: a string by its characters, a list by the
/// sequence of its items.
pub struct NowPlayingView {
    pub length: Option<u32>,
    pub seek_position: Option<i64>,
    pub line1: Seq<char>,
    pub line2: Seq<char>,
    pub line3: Seq<char>,
}

impl DeepView for NowPlaying {
    type V = NowPlayingView;

    open spec fn deep_view(&self) -> NowPlayingView {
        NowPlayingView {
            length: self.length,
            seek_position: self.seek_position,
            line1: self.line1@,
            line2: self.line2@,
            line3: self.line3@,
        }
    }
}

impl Clone for NowPlaying {
    fn clone(&self) -> (r: Self)
        ensures
            r.deep_view() == self.deep_view(),
    {
        NowPlaying {
            length: self.length,
            seek_position: self.seek_position,
            line1: self.line1.clone(),
            line2: self.line2.clone(),
            line3: self.line3.clone(),
        }
    }
}

/// A playback destination made of one or more outputs.
#[derive(Debug, PartialEq, Eq)]
pub struct Zone {
    pub zone_id: String,
    pub display_name: String,
    pub outputs: Vec<Output>,
    pub state: State,
    pub now_playing: Option<NowPlaying>,
    pub settings: ZoneSettings,
    pub is_next_allowed: bool,
    pub is_previous_allowed: bool,
    pub queue_time_remaining: i64,
}

/// The model of `Zone`: a string by its characters, a list by the sequence of
/// its items.
pub struct ZoneView {
    pub zone_id: Seq<char>,
    pub display_name: Seq<char>,
    pub outputs: Seq<OutputView>,
    pub state: State,
    pub now_playing: Option<NowPlayingView>,
    pub settings: ZoneSettings,
    pub is_next_allowed: bool,
    pub is_previous_allowed: bool,
    pub queue_time_remaining: i64,
}

impl ZoneView {
    /// The ids of the zone's outputs, in order.
    pub open spec fn output_ids(self) -> Seq<Seq<char>> {
        Seq::new(self.outputs.len(), |i: int| self.outputs[i].output_id)
    }
}

impl DeepView for Zone {
    type V = ZoneView;

    open spec fn deep_view(&self) -> ZoneView {
        ZoneView {
            zone_id: self.zone_id@,
            display_name: self.display_name@,
            outputs: self.outputs.deep_view(),
            state: self.state,
            now_playing: self.now_playing.deep_view(),
            settings: self.settings,
            is_next_allowed: self.is_next_allowed,
            is_previous_allowed: self.is_previous_allowed,
            queue_time_remaining: self.queue_time_remaining,
        }
    }
}

impl Clone for Zone {
    fn clone(&self) -> (r: Self)
        ensures
            r.deep_view() == self.deep_view(),
    {
        let now_playing = match &self.now_playing {
            Some(n) => Some(n.clone()),
            None => None,
        };
        let r = Zone {
            zone_id: self.zone_id.clone(),
            display_name: self.display_name.clone(),
            outputs: self.outputs.clone(),
            state: self.state,
            now_playing,
            settings: self.settings,
            is_next_allowed: self.is_next_allowed,
            is_previous_allowed: self.is_previous_allowed,
            queue_time_remaining: self.queue_time_remaining,
        };
        assert(r.outputs.deep_view() =~= self.outputs.deep_view());
        r
    }
}

impl Zone {
    /// The ids of the zone's outputs, in order.
    pub fn output_ids(&self) -> (r: Vec<String>)
        ensures
            r.deep_view() == self.deep_view().output_ids(),
    {
        let mut r: Vec<String> = Vec::new();
        let mut i: usize = 0;
        while i < self.outputs.len()
            invariant
                i <= self.outputs.len(),
                r.len() == i,
                forall|j: int| 0 <= j < i ==> r[j]@ == self.outputs[j].output_id@,
            decreases self.outputs.len() - i,
        {
            r.push(self.outputs[i].output_id.clone());
            i += 1;
        }
        assert(r.deep_view() =~= self.deep_view().output_ids());
        r
    }
}

/// The position of a zone in its track and the time left in its queue.
#[derive(Debug, PartialEq, Eq)]
pub struct ZoneSeek {
    pub zone_id: String,
    pub queue_time_remaining: i64,
    pub seek_position: Option<i64>,
}

/// The model of `ZoneSeek`: a string by its characters, a list by the sequence
/// of its items.
pub struct ZoneSeekView {
    pub zone_id: Seq<char>,
    pub queue_time_remaining: i64,
    pub seek_position: Option<i64>,
}

impl DeepView for ZoneSeek {
    type V = ZoneSeekView;

    open spec fn deep_view(&self) -> ZoneSeekView {
        ZoneSeekView {
            zone_id: self.zone_id@,
            queue_time_remaining: self.queue_time_remaining,
            seek_position: self.seek_position,
        }
    }
}

impl Clone for ZoneSeek {
    fn clone(&self) -> (r: Self)
        ensures
            r.deep_view() == self.deep_view(),
    {
        ZoneSeek {
            zone_id: self.zone_id.clone(),
            queue_time_remaining: self.queue_time_remaining,
            seek_position: self.seek_position,
        }
    }
}

/// One entry of a play queue.
#[derive(Debug, PartialEq, Eq)]
pub struct QueueItem {
    pub queue_item_id: u32,
    pub length: u32,
    pub line1: String,
    pub line2: String,
}

/// The model of `QueueItem`: a string by its characters, a list by the
/// sequence of its items.
pub struct QueueItemView {
    pub queue_item_id: u32,
    pub length: u32,
    pub line1: Seq<char>,
    pub line2: Seq<char>,
}

impl DeepView for QueueItem {
    type V = QueueItemView;

    open spec fn deep_view(&self) -> QueueItemView {
        QueueItemView {
            queue_item_id: self.queue_item_id,
            length: self.length,
            line1: self.line1@,
            line2: self.line2@,
        }
    }
}

impl Clone for QueueItem {
    fn clone(&self) -> (r: Self)
        ensures
            r.deep_view() == self.deep_view(),
    {
        QueueItem {
            queue_item_id: self.queue_item_id,
            length: self.length,
            line1: self.line1.clone(),
            line2: self.line2.clone(),
        }
    }
}

/// One step of a queue update: items spliced in at a position, or a number
/// of items taken out from a position on.
#[derive(Debug, PartialEq, Eq)]
pub enum QueueChange {
    Insert(usize, Vec<QueueItem>),
    Remove(usize, usize),
}

/// The model of `QueueChange`: a string by its characters, a list by the
/// sequence of its items.
pub enum QueueChangeView {
    Insert(int, Seq<QueueItemView>),
    Remove(int, int),
}

impl DeepView for QueueChange {
    type V = QueueChangeView;

    open spec fn deep_view(&self) -> QueueChangeView {
        match self {
            QueueChange::Insert(index, items) => QueueChangeView::Insert(
                *index as int,
                items.deep_view(),
            ),
            QueueChange::Remove(index, count) => QueueChangeView::Remove(
                *index as int,
                *count as int,
            ),
        }
    }
}

impl Clone for QueueChange {
    fn clone(&self) -> (r: Self)
        ensures
            r.deep_view() == self.deep_view(),
    {
        match self {
            QueueChange::Insert(index, items) => {
                let copy = items.clone();
                assert(copy.deep_view() =~= items.deep_view());
                QueueChange::Insert(*index, copy)
            },
            QueueChange::Remove(index, count) => QueueChange::Remove(*index, *count),
        }
    }
}

} // verus!
