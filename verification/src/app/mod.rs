//! The state of the user interface: what is shown, what is selected and
//! what is being typed, and how the events of the session and the keys of
//! the user change it.

use vstd::prelude::*;
use vstd::string::*;
use crate::app::search::{find_by_first_char, find_by_prefix, find_prefix, is_ascii_char, lower_char, scan_items, to_chars, to_lower};
use crate::app::stateful_list::{ListView, StatefulList};
use crate::io::events::{KeyCode, KeyEvent, KeyEventKind, KeyModifiers};
use crate::io::transport::{Control, Mute};
use crate::io::browse::{BrowseItem, BrowseItemView};
use crate::io::roon_settings::names_zone;
use crate::io::transport::{QueueChange, QueueChangeView, QueueItem, QueueItemView, Zone, ZoneSeek, ZoneSeekView, ZoneView};
use crate::io::{clone_opt_string, EndPoint, EndPointView, IoEvent, IoEventView, QueueMode};
use crate::queue::{apply_changes, apply_queue_changes, changes_fit, changes_valid, find_label, position_of_label};
use crate::seqs::{first_where, lemma_first_where_found, lemma_first_where_none};
use crate::text::{str_eq, string_of};

pub mod search;
pub mod stateful_list;
pub mod ui;

verus! {

/// Whether the user interface goes on.
#[derive(Clone, Copy, Debug, PartialEq, Eq, Structural)]
pub enum AppReturn {
    Exit,
    Continue,
}

/// The parts of the screen that can have the focus.
#[derive(Clone, Copy, Debug, PartialEq, Eq, Structural)]
pub enum Panel {
    Browse,
    Queue,
    NowPlaying,
    Prompt,
    Zones,
    Grouping,
    GroupingPreset,
    Help,
}

/// The view that the tab key leads to: from browsing to the queue, on to
/// what is playing, and back to browsing.
pub open spec fn next_view(view: Panel) -> Panel {
    match view {
        Panel::Browse => Panel::Queue,
        Panel::Queue => Panel::NowPlaying,
        _ => Panel::Browse,
    }
}

/// The view that the back-tab key leads to: the other way round.
pub open spec fn prev_view(view: Panel) -> Panel {
    match view {
        Panel::Queue => Panel::Browse,
        Panel::NowPlaying => Panel::Queue,
        Panel::Prompt => Panel::NowPlaying,
        _ => Panel::NowPlaying,
    }
}

/// The ids of the candidates that are part of the group.
pub open spec fn included_ids(items: Seq<(Seq<char>, Seq<char>, bool)>) -> Seq<Seq<char>>
    decreases items.len(),
{
    if items.len() == 0 {
        Seq::empty()
    } else {
        let rest = included_ids(items.drop_last());
        if items.last().2 {
            rest.push(items.last().0)
        } else {
            rest
        }
    }
}

/// The last item of a list.
pub open spec fn last_of<T>(items: Seq<T>) -> Option<T> {
    if items.len() > 0 {
        Some(items.last())
    } else {
        None
    }
}

/// The model of `App`: a string by its characters, a list by the sequence of
/// its items.
pub struct AppView {
    pub no_unicode_symbols: bool,
    pub core_name: Option<Seq<char>>,
    pub selected_view: Option<Panel>,
    pub prev_view: Option<Panel>,
    pub browse: ListView<BrowseItemView>,
    pub browse_match_list: Seq<usize>,
    pub pending_item_key: Option<Seq<char>>,
    pub prompt: Seq<char>,
    pub input: Seq<char>,
    pub cursor_position: usize,
    pub max_input_len: usize,
    pub zones: ListView<(EndPointView, Seq<char>)>,
    pub selected_zone: Option<ZoneView>,
    pub zone_seek: Option<ZoneSeekView>,
    pub grouping: ListView<(Seq<char>, Seq<char>, bool)>,
    pub queue: ListView<QueueItemView>,
    pub pause_on_track_end: bool,
    pub queue_mode: QueueMode,
    pub matched_preset: Option<Seq<char>>,
    pub matched_draft_preset: Option<Seq<char>>,
    pub draft_match: bool,
}

impl AppView {
    /// The user interface at its start.
    pub open spec fn initial(no_unicode_symbols: bool) -> AppView {
        AppView {
            no_unicode_symbols,
            core_name: None,
            selected_view: None,
            prev_view: None,
            browse: ListView::empty(),
            browse_match_list: Seq::empty(),
            pending_item_key: None,
            prompt: Seq::empty(),
            input: Seq::empty(),
            cursor_position: 0,
            max_input_len: 0,
            zones: ListView::empty(),
            selected_zone: None,
            zone_seek: None,
            grouping: ListView::empty(),
            queue: ListView::empty(),
            pause_on_track_end: false,
            queue_mode: QueueMode::Manual,
            matched_preset: None,
            matched_draft_preset: None,
            draft_match: false,
        }
    }

    /// The position of the selected zone in the list of end points.
    pub open spec fn zone_index(self) -> Option<usize> {
        match (self.selected_zone, self.zones.items) {
            (Some(zone), Some(items)) => match first_where(
                items,
                |item: (EndPointView, Seq<char>)| names_zone(item, zone.zone_id),
            ) {
                Some(i) => Some(i as usize),
                None => None,
            },
            _ => None,
        }
    }

    /// A view given the focus: the list of that view gets its selection,
    /// the other lists lose theirs, and the view that had the focus is
    /// remembered.
    pub open spec fn select_view(self, view: Option<Panel>) -> AppView {
        let browse = if view == Some(Panel::Browse) {
            self.browse.select(None)
        } else {
            self.browse.deselect()
        };
        let queue = if view == Some(Panel::Queue) {
            self.queue.select(None)
        } else {
            self.queue.deselect()
        };
        let zones = if view == Some(Panel::Zones) {
            self.zones.select(self.zone_index())
        } else {
            self.zones.deselect()
        };
        let grouping = if view == Some(Panel::Grouping) {
            self.grouping.select(None)
        } else {
            self.grouping.deselect()
        };
        AppView {
            prev_view: self.selected_view,
            selected_view: view,
            browse,
            queue,
            zones,
            grouping,
            ..self
        }
    }

    /// The focus moved on to the next view; nothing without a focus.
    pub open spec fn select_next_view(self) -> AppView {
        match self.selected_view {
            Some(view) => self.select_view(Some(next_view(view))),
            None => self,
        }
    }

    /// The focus moved back to the previous view; nothing without a focus.
    pub open spec fn select_prev_view(self) -> AppView {
        match self.selected_view {
            Some(view) => self.select_view(Some(prev_view(view))),
            None => self,
        }
    }

    /// The focus given back to the view that had it before.
    pub open spec fn restore_view(self) -> AppView {
        (AppView { prev_view: None, ..self }).select_view(self.prev_view)
    }

    /// A position of the cursor kept inside the input.
    pub open spec fn clamp_cursor(self, position: int) -> usize {
        if position > self.input.len() {
            self.input.len() as usize
        } else if position < 0 {
            0usize
        } else {
            position as usize
        }
    }

    /// The cursor one character to the left, not before the start.
    pub open spec fn move_cursor_left(self) -> AppView {
        AppView { cursor_position: self.clamp_cursor(self.cursor_position - 1), ..self }
    }

    /// The cursor one character to the right, not beyond the end.
    pub open spec fn move_cursor_right(self) -> AppView {
        AppView { cursor_position: self.clamp_cursor(self.cursor_position + 1), ..self }
    }

    /// A character typed: it goes in at the cursor, which moves on. An
    /// input that is full takes no more.
    pub open spec fn enter_char(self, new_char: char) -> AppView {
        if self.input.len() < self.max_input_len {
            (AppView {
                input: self.input.insert(self.clamp_cursor(self.cursor_position as int) as int, new_char),
                ..self
            }).move_cursor_right()
        } else {
            self
        }
    }

    /// The character before the cursor deleted; the cursor moves back.
    pub open spec fn delete_char(self) -> AppView {
        if self.cursor_position != 0 {
            (AppView {
                input: if self.cursor_position <= self.input.len() {
                    self.input.remove(self.cursor_position - 1)
                } else {
                    self.input
                },
                ..self
            }).move_cursor_left()
        } else {
            self
        }
    }

    /// The input emptied, the cursor at its start.
    pub open spec fn clear_input(self) -> AppView {
        AppView { input: Seq::empty(), cursor_position: 0, ..self }
    }

    /// The key of the selected item of the browser.
    pub open spec fn item_key(self) -> Option<Seq<char>> {
        match self.browse.selected_item() {
            Some(item) => item.item_key,
            None => None,
        }
    }

    /// The id of the selected item of the queue.
    pub open spec fn queue_item_id(self) -> Option<u32> {
        match self.queue.selected_item() {
            Some(item) => Some(item.queue_item_id),
            None => None,
        }
    }

    /// The first display line of the selected item of the queue.
    pub open spec fn queue_select_string(self) -> Option<Seq<char>> {
        match self.queue.selected_item() {
            Some(item) => Some(item.line1),
            None => None,
        }
    }

    /// The queue after a batch of changes. The item that was selected is
    /// selected again where an item carries its first display line; else
    /// nothing is selected. Without a selection nothing is selected after.
    pub open spec fn apply_queue_changes(self, changes: Seq<QueueChangeView>) -> AppView {
        match self.queue.items {
            Some(items) => {
                let after = apply_changes(items, changes);
                let queue = ListView { items: Some(after), ..self.queue };
                AppView {
                    queue: match self.queue_select_string() {
                        Some(label) => match position_of_label(after, label) {
                            Some(i) => queue.select(Some(i as usize)),
                            None => queue.deselect(),
                        },
                        None => queue,
                    },
                    ..self
                }
            },
            None => self,
        }
    }

    /// Whether an event can be handled: the changes of a batch of queue
    /// changes fit the queue that is held.
    pub open spec fn accepts(self, event: IoEventView) -> bool {
        match (event, self.queue.items) {
            (IoEventView::QueueListChanges(changes), Some(items)) => changes_valid(
                items.len() as int,
                changes,
            ),
            _ => true,
        }
    }

    /// A run of items of the browser: a run from the start replaces the
    /// list; a run that goes on where the list ends is appended; for any
    /// other run the list is asked for anew.
    pub open spec fn on_browse_list(self, offset: usize, items: Seq<BrowseItemView>) -> (
        AppView,
        Seq<IoEventView>,
    ) {
        if offset == 0 {
            let browse = ListView { items: Some(items), ..self.browse };
            (
                AppView {
                    browse: if self.selected_view == Some(Panel::Browse) {
                        browse.select(Some(0usize))
                    } else {
                        browse
                    },
                    ..self
                },
                Seq::empty(),
            )
        } else {
            match self.browse.items {
                Some(held) => if offset == held.len() {
                    (
                        AppView {
                            browse: (ListView { items: Some(held + items), ..self.browse }).select(
                                Some(0usize),
                            ),
                            ..self
                        },
                        Seq::empty(),
                    )
                } else {
                    (self, seq![IoEventView::BrowseRefresh])
                },
                None => (self, Seq::empty()),
            }
        }
    }

    /// Whether a list of end points holds a zone.
    pub open spec fn has_zones(self) -> bool {
        match self.zones.items {
            Some(items) => exists|i: int|
                0 <= i < items.len() && ((#[trigger] items[i]).0 is Zone || items[i].0
                    is MatchedPreset),
            None => false,
        }
    }

    /// The candidates for a grouping: where there are any, the focus goes
    /// to the grouping, first back from a view that lies over another.
    pub open spec fn on_zone_grouping(self, grouping: Option<Seq<(Seq<char>, Seq<char>, bool)>>)
        -> AppView {
        let focused = match grouping {
            Some(candidates) => if candidates.len() > 0 {
                let back = if self.selected_view == Some(Panel::Prompt) || self.selected_view
                    == Some(Panel::Zones) || self.selected_view == Some(Panel::Help) {
                    self.restore_view()
                } else {
                    self
                };
                (AppView { matched_draft_preset: back.matched_preset, ..back }).select_view(
                    Some(Panel::Grouping),
                )
            } else {
                self
            },
            None => self,
        };
        AppView { grouping: ListView { items: grouping, ..focused.grouping }, ..focused }
    }

    /// What an event of the session leads to: the new state and what is
    /// sent to the session. A key is not handled here.
    pub open spec fn on_event(self, event: IoEventView) -> (AppView, Seq<IoEventView>) {
        match event {
            IoEventView::CoreName(name) => (AppView { core_name: name, ..self }, Seq::empty()),
            IoEventView::BrowseTitle(title) => {
                let focused = if self.selected_view is None {
                    self.select_view(Some(Panel::Browse))
                } else {
                    self
                };
                (
                    AppView {
                        browse: ListView { title: Some(title), ..focused.browse },
                        ..focused
                    },
                    Seq::empty(),
                )
            },
            IoEventView::BrowseList(offset, items) => self.on_browse_list(offset, items),
            IoEventView::QueueList(items) => (
                AppView { queue: ListView { items: Some(items), ..self.queue }, ..self },
                seq![IoEventView::QueueListLast(last_of(items))],
            ),
            IoEventView::QueueListChanges(changes) => {
                let after = self.apply_queue_changes(changes);
                (
                    after,
                    match after.queue.items {
                        Some(items) => seq![IoEventView::QueueListLast(last_of(items))],
                        None => Seq::empty(),
                    },
                )
            },
            IoEventView::QueueModeCurrent(mode) => (
                AppView { queue_mode: mode, ..self },
                Seq::empty(),
            ),
            IoEventView::Zones(zones) => {
                let held = AppView { zones: ListView { items: Some(zones), ..self.zones }, ..self };
                (
                    if self.selected_view == Some(Panel::Zones) {
                        AppView { zones: held.zones.select(held.zone_index()), ..held }
                    } else {
                        held
                    },
                    Seq::empty(),
                )
            },
            IoEventView::ZoneSelect => (
                (if self.has_zones() {
                    AppView { pending_item_key: self.item_key(), ..self }
                } else {
                    self
                }).select_view(Some(Panel::Zones)),
                Seq::empty(),
            ),
            IoEventView::ZoneChanged(zone) => match self.pending_item_key {
                Some(key) => (
                    AppView { selected_zone: Some(zone), pending_item_key: None, ..self },
                    seq![IoEventView::BrowseSelected(Some(key))],
                ),
                None => (AppView { selected_zone: Some(zone), ..self }, Seq::empty()),
            },
            IoEventView::ZoneRemoved(_) => (
                AppView { selected_zone: None, ..self },
                Seq::empty(),
            ),
            IoEventView::ZoneSeek(seek) => (
                AppView { zone_seek: Some(seek), ..self },
                Seq::empty(),
            ),
            IoEventView::ZoneGrouping(grouping) => (self.on_zone_grouping(grouping), Seq::empty()),
            IoEventView::ZonePresetMatched(matched) => (
                if self.draft_match {
                    AppView { draft_match: false, matched_draft_preset: matched, ..self }
                } else {
                    AppView { matched_preset: matched, ..self }
                },
                Seq::empty(),
            ),
            IoEventView::PauseOnTrackEndActive(active) => (
                AppView { pause_on_track_end: active, ..self },
                Seq::empty(),
            ),
            _ => (self, Seq::empty()),
        }
    }

    /// A list moved by a key: up and down by an item or a page, to the
    /// first and to the last item.
    pub open spec fn moved<V>(list: ListView<V>, code: KeyCode) -> ListView<V> {
        match code {
            KeyCode::Up => list.prev(),
            KeyCode::Down => list.next(),
            KeyCode::Home => list.select(Some(0usize)),
            KeyCode::End => list.select_last(),
            KeyCode::PageUp => list.select_prev_page(),
            KeyCode::PageDown => list.select_next_page(),
            _ => list,
        }
    }

    /// What was typed for jumping in the browser forgotten.
    pub open spec fn clear_jump(self) -> AppView {
        AppView { input: Seq::empty(), browse_match_list: Seq::empty(), ..self }
    }

    /// The titles of the items of the browser.
    pub open spec fn browse_titles(self) -> Seq<Seq<char>> {
        match self.browse.items {
            Some(items) => Seq::new(items.len(), |i: int| items[i].title),
            None => Seq::empty(),
        }
    }

    /// Whether the titles of the browser are taken word by word: in the
    /// lists of artists and of composers.
    pub open spec fn splits_titles(self) -> bool {
        self.browse.title == Some("Artists"@) || self.browse.title == Some("Composers"@)
    }

    /// A character typed for jumping in the browser. The first character
    /// leads to the first item under it; each further character leads on,
    /// from the item reached, to the first item that starts with what was
    /// typed. A character that leads nowhere is not taken.
    pub open spec fn select_by_input(self, key: char) -> AppView {
        if !is_ascii_char(key) || self.browse.items is None {
            self
        } else {
            let typed = lower_char(key);
            let input = self.input.push(typed);
            let index = if self.browse_match_list.len() == 0 {
                scan_items(self.browse_titles(), self.splits_titles(), typed, 0, 0)
            } else {
                find_prefix(
                    self.browse_titles(),
                    self.splits_titles(),
                    input,
                    self.browse_match_list.last() as int,
                )
            };
            match index {
                Some(i) => AppView {
                    input,
                    browse_match_list: self.browse_match_list.push(i as usize),
                    browse: self.browse.with_selected(Some(i as usize)),
                    ..self
                },
                None => self,
            }
        }
    }

    /// The keys of the view of what is playing.
    pub open spec fn now_playing_keys(code: KeyCode) -> Seq<IoEventView> {
        match code {
            KeyCode::Char('m') => seq![IoEventView::Mute(Mute::Mute)],
            KeyCode::Char('u') => seq![IoEventView::Mute(Mute::Unmute)],
            KeyCode::Char('+') => seq![IoEventView::ChangeVolume(1i32)],
            KeyCode::Char('-') => seq![IoEventView::ChangeVolume(-1i32)],
            KeyCode::Char('r') => seq![IoEventView::Repeat],
            KeyCode::Char('s') => seq![IoEventView::Shuffle],
            _ => Seq::empty(),
        }
    }

    /// The keys of the queue: moving, and playing from the selected item.
    pub open spec fn queue_keys(self, code: KeyCode) -> (AppView, Seq<IoEventView>) {
        match code {
            KeyCode::Enter => match self.queue_item_id() {
                Some(id) => (
                    AppView { queue: self.queue.select(Some(0usize)), ..self },
                    seq![IoEventView::QueueSelected(id)],
                ),
                None => (self, Seq::empty()),
            },
            _ => (AppView { queue: Self::moved(self.queue, code), ..self }, Seq::empty()),
        }
    }

    /// The keys of the list of end points: moving, selecting the end point,
    /// deleting a preset, and leaving.
    pub open spec fn zone_keys(self, code: KeyCode) -> (AppView, Seq<IoEventView>) {
        match code {
            KeyCode::Enter => (
                self.restore_view(),
                match self.zones.selected_item() {
                    Some(item) => seq![IoEventView::ZoneSelected(item.0)],
                    None => Seq::empty(),
                },
            ),
            KeyCode::Delete => (
                self,
                match self.zones.selected_item() {
                    Some(item) => match item.0 {
                        EndPointView::Preset(preset) => seq![IoEventView::ZoneDeletePreset(preset)],
                        _ => Seq::empty(),
                    },
                    None => Seq::empty(),
                },
            ),
            KeyCode::Esc => (self.restore_view(), Seq::empty()),
            _ => (AppView { zones: Self::moved(self.zones, code), ..self }, Seq::empty()),
        }
    }

    /// The candidates of the grouping with the selected one switched.
    pub open spec fn toggled(self) -> Option<Seq<(Seq<char>, Seq<char>, bool)>> {
        match (self.grouping.state.selected, self.grouping.items) {
            (Some(i), Some(items)) => if i < items.len() {
                Some(items.update(i as int, (items[i as int].0, items[i as int].1, !items[i as int].2)))
            } else {
                None
            },
            _ => None,
        }
    }

    /// The grouping confirmed: with a name typed, two or more outputs are
    /// saved as a preset under it; else the outputs are grouped.
    pub open spec fn confirm_grouping(self) -> (AppView, Seq<IoEventView>) {
        let back = self.restore_view();
        match back.grouping.items {
            Some(items) => {
                let ids = included_ids(items);
                if ids.len() == 0 {
                    (back, Seq::empty())
                } else if back.input.len() > 0 {
                    (
                        back.clear_input(),
                        if ids.len() > 1 {
                            seq![IoEventView::ZoneSavePreset(back.input, ids)]
                        } else {
                            seq![IoEventView::ZoneGrouped(ids)]
                        },
                    )
                } else {
                    (back, seq![IoEventView::ZoneGrouped(ids)])
                }
            },
            None => (back, Seq::empty()),
        }
    }

    /// Going on to the name of a preset, for two or more outputs: the name
    /// of the preset that they match is offered.
    pub open spec fn save_preset(self) -> AppView {
        match self.grouping.items {
            Some(items) => if included_ids(items).len() > 1 {
                let named = match self.matched_draft_preset {
                    Some(preset) => AppView {
                        input: preset,
                        cursor_position: preset.len() as usize,
                        ..self
                    },
                    None => self,
                };
                AppView {
                    selected_view: Some(Panel::GroupingPreset),
                    grouping: named.grouping.deselect(),
                    ..named
                }
            } else {
                self
            },
            None => self,
        }
    }

    /// The keys of the grouping: moving, switching a candidate, confirming,
    /// going on to save a preset, and leaving.
    pub open spec fn grouping_keys(self, code: KeyCode) -> (AppView, Seq<IoEventView>) {
        match code {
            KeyCode::Char(' ') => match self.toggled() {
                Some(items) => {
                    let switched = AppView {
                        grouping: ListView { items: Some(items), ..self.grouping },
                        ..self
                    };
                    let ids = included_ids(items);
                    if ids.len() > 1 {
                        (
                            AppView { draft_match: true, ..switched },
                            seq![IoEventView::ZoneMatchPreset(ids)],
                        )
                    } else {
                        (switched, Seq::empty())
                    }
                },
                None => (self, Seq::empty()),
            },
            KeyCode::Enter => self.confirm_grouping(),
            KeyCode::Char('s') => (self.save_preset(), Seq::empty()),
            KeyCode::Esc => (self.restore_view(), Seq::empty()),
            _ => (AppView { grouping: Self::moved(self.grouping, code), ..self }, Seq::empty()),
        }
    }

    /// The selected item of the browser entered: an item that asks for
    /// input leads to the prompt, any other is selected.
    pub open spec fn enter_item(self) -> (AppView, Seq<IoEventView>) {
        let cleared = self.clear_jump();
        match cleared.browse.selected_item() {
            Some(item) => match item.input_prompt {
                Some(prompt) => (
                    (AppView { prompt, pending_item_key: item.item_key, ..cleared }).select_view(
                        Some(Panel::Prompt),
                    ),
                    Seq::empty(),
                ),
                None => (cleared, seq![IoEventView::BrowseSelected(item.item_key)]),
            },
            None => (cleared, Seq::empty()),
        }
    }

    /// The last character typed for jumping taken back.
    pub open spec fn jump_back(self) -> AppView {
        let list = if self.browse_match_list.len() > 0 {
            self.browse_match_list.drop_last()
        } else {
            self.browse_match_list
        };
        AppView {
            input: if self.input.len() > 0 {
                self.input.drop_last()
            } else {
                self.input
            },
            browse_match_list: list,
            browse: self.browse.select(
                if list.len() > 0 {
                    Some(list.last())
                } else {
                    None
                },
            ),
            ..self
        }
    }

    /// The keys of the browser.
    pub open spec fn browse_keys(self, key: KeyEvent) -> (AppView, Seq<IoEventView>) {
        match key.modifiers {
            KeyModifiers::Control => (
                self,
                if key.code == KeyCode::Home {
                    seq![IoEventView::BrowseHome]
                } else {
                    Seq::empty()
                },
            ),
            KeyModifiers::Shift => match key.code {
                KeyCode::Char(c) => (self.select_by_input(c), Seq::empty()),
                _ => (self, Seq::empty()),
            },
            KeyModifiers::Plain => match key.code {
                KeyCode::Char(c) => (self.select_by_input(c), Seq::empty()),
                KeyCode::Backspace => (self.jump_back(), Seq::empty()),
                KeyCode::Enter => self.enter_item(),
                KeyCode::Esc => (self.clear_jump(), seq![IoEventView::BrowseBack]),
                KeyCode::Home => (
                    if self.input.len() == 0 {
                        AppView { browse: self.browse.select(Some(0usize)), ..self }
                    } else {
                        self.clear_jump()
                    },
                    Seq::empty(),
                ),
                KeyCode::F(5) => (self, seq![IoEventView::BrowseRefresh]),
                _ => (AppView { browse: Self::moved(self.browse, key.code), ..self }, Seq::empty()),
            },
            KeyModifiers::Other => (self, Seq::empty()),
        }
    }

    /// The keys that edit the input.
    pub open spec fn edit_keys(self, code: KeyCode) -> AppView {
        match code {
            KeyCode::Char(c) => self.enter_char(c),
            KeyCode::Backspace => self.delete_char(),
            KeyCode::Delete => self.move_cursor_right().delete_char(),
            KeyCode::Left => self.move_cursor_left(),
            KeyCode::Right => self.move_cursor_right(),
            KeyCode::Home => AppView { cursor_position: 0, ..self },
            KeyCode::End => AppView { cursor_position: self.input.len() as usize, ..self },
            _ => self,
        }
    }

    /// The keys of the prompt: editing, sending the input with the item
    /// that asked for it, and leaving.
    pub open spec fn prompt_keys(self, key: KeyEvent) -> (AppView, Seq<IoEventView>) {
        match key.modifiers {
            KeyModifiers::Shift => match key.code {
                KeyCode::Char(c) => (self.enter_char(c), Seq::empty()),
                _ => (self, Seq::empty()),
            },
            KeyModifiers::Plain => match key.code {
                KeyCode::Enter => (
                    (AppView { pending_item_key: None, ..self }).clear_input().restore_view(),
                    match self.pending_item_key {
                        Some(item_key) => seq![
                            IoEventView::BrowseInput(self.input),
                            IoEventView::BrowseSelected(Some(item_key)),
                        ],
                        None => Seq::empty(),
                    },
                ),
                KeyCode::Esc => (
                    (AppView { pending_item_key: None, ..self }).clear_input().restore_view(),
                    Seq::empty(),
                ),
                _ => (self.edit_keys(key.code), Seq::empty()),
            },
            _ => (self, Seq::empty()),
        }
    }

    /// Back in the grouping, on its first candidate.
    pub open spec fn back_to_grouping(self) -> AppView {
        AppView {
            selected_view: Some(Panel::Grouping),
            grouping: self.grouping.select(Some(0usize)),
            ..self
        }
    }

    /// The keys of the name of a preset: editing, and going back to the
    /// grouping with the name or without it.
    pub open spec fn preset_keys(self, key: KeyEvent) -> AppView {
        match key.modifiers {
            KeyModifiers::Shift => match key.code {
                KeyCode::Char(c) => self.enter_char(c),
                _ => self,
            },
            KeyModifiers::Plain => match key.code {
                KeyCode::Enter => self.back_to_grouping(),
                KeyCode::Esc => self.clear_input().back_to_grouping(),
                _ => self.edit_keys(key.code),
            },
            _ => self,
        }
    }

    /// A view laid over the others given the focus, first back from
    /// another view that lies over the others.
    pub open spec fn open_over(self, view: Panel) -> AppView {
        if self.selected_view == Some(view) {
            self
        } else {
            (if (self.selected_view == Some(Panel::Prompt) || self.selected_view == Some(
                Panel::Zones,
            ) || self.selected_view == Some(Panel::Grouping) || self.selected_view == Some(
                Panel::Help,
            )) {
                self.restore_view()
            } else {
                self
            }).select_view(Some(view))
        }
    }

    /// The keys with the control key held, but for the one that ends the
    /// user interface.
    pub open spec fn control_keys(self, code: KeyCode) -> (AppView, Seq<IoEventView>) {
        match code {
            KeyCode::Up => (self, seq![IoEventView::ChangeVolume(1i32)]),
            KeyCode::Down => (self, seq![IoEventView::ChangeVolume(-1i32)]),
            KeyCode::Left => (self, seq![IoEventView::Control(Control::Previous)]),
            KeyCode::Right => (self, seq![IoEventView::Control(Control::Next)]),
            KeyCode::Delete => (self, seq![IoEventView::QueueClear]),
            KeyCode::Char('e') => (self, seq![IoEventView::PauseOnTrackEndReq]),
            KeyCode::Char('p') => (self, seq![IoEventView::Control(Control::PlayPause)]),
            KeyCode::Char(' ') => (self, seq![IoEventView::Control(Control::PlayPause)]),
            KeyCode::Char('q') => (self, seq![IoEventView::QueueModeNext]),
            KeyCode::Char('a') => (self, seq![IoEventView::QueueModeAppend]),
            KeyCode::Char('z') => (self.open_over(Panel::Zones), Seq::empty()),
            KeyCode::Char('g') => (
                self,
                if self.selected_view == Some(Panel::Grouping) {
                    Seq::empty()
                } else {
                    seq![IoEventView::ZoneGroupReq]
                },
            ),
            KeyCode::Char('h') => (self.open_over(Panel::Help), Seq::empty()),
            _ => (self, Seq::empty()),
        }
    }

    /// The keys without a modifier, by the view that has the focus; the
    /// tab key moves the focus on.
    pub open spec fn plain_keys(self, code: KeyCode) -> (AppView, Seq<IoEventView>) {
        if code == KeyCode::Tab {
            (self.clear_jump().select_next_view(), Seq::empty())
        } else {
            match self.selected_view {
                Some(Panel::NowPlaying) => (self, Self::now_playing_keys(code)),
                Some(Panel::Queue) => self.queue_keys(code),
                Some(Panel::Zones) => self.zone_keys(code),
                Some(Panel::Grouping) => self.grouping_keys(code),
                Some(Panel::Help) => (self.restore_view(), Seq::empty()),
                _ => (self, Seq::empty()),
            }
        }
    }

    /// The keys that the views handle with their own reading of the
    /// modifiers. `focus` is the view that had the focus when the key came.
    pub open spec fn view_keys(self, focus: Option<Panel>, key: KeyEvent) -> (
        AppView,
        Seq<IoEventView>,
    ) {
        match focus {
            Some(Panel::Browse) => self.browse_keys(key),
            Some(Panel::Prompt) => self.prompt_keys(key),
            Some(Panel::GroupingPreset) => (self.preset_keys(key), Seq::empty()),
            _ => (self, Seq::empty()),
        }
    }

    /// Whether a key ends the user interface: a pressed control-c.
    pub open spec fn is_exit(key: KeyEvent) -> bool {
        key.kind == KeyEventKind::Press && key.modifiers == KeyModifiers::Control && key.code
            == KeyCode::Char('c')
    }

    /// What a key leads to. Only pressed keys count. The keys that hold
    /// everywhere are handled first, then those of the view that had the
    /// focus when the key came.
    pub open spec fn do_action(self, key: KeyEvent) -> (AppView, AppReturn, Seq<IoEventView>) {
        if key.kind != KeyEventKind::Press {
            (self, AppReturn::Continue, Seq::empty())
        } else if Self::is_exit(key) {
            (self, AppReturn::Exit, Seq::empty())
        } else {
            let first = match key.modifiers {
                KeyModifiers::Plain => self.plain_keys(key.code),
                KeyModifiers::Shift => (
                    if key.code == KeyCode::BackTab {
                        self.clear_jump().select_prev_view()
                    } else {
                        self
                    },
                    Seq::empty(),
                ),
                KeyModifiers::Control => self.control_keys(key.code),
                KeyModifiers::Other => (self, Seq::empty()),
            };
            let second = first.0.view_keys(self.selected_view, key);
            (second.0, AppReturn::Continue, first.1 + second.1)
        }
    }

    /// What an event leads to: the new state, whether the user interface
    /// goes on, and what is sent to the session.
    pub open spec fn update_on_event(self, event: IoEventView) -> (
        AppView,
        AppReturn,
        Seq<IoEventView>,
    ) {
        match event {
            IoEventView::Input(key) => self.do_action(key),
            _ => (self.on_event(event).0, AppReturn::Continue, self.on_event(event).1),
        }
    }
}

/// Appends an event to a list of events.
pub(crate) fn push_event(out: &mut Vec<IoEvent>, event: IoEvent)
    ensures
        final(out).deep_view() == old(out).deep_view().push(event.deep_view()),
{
    out.push(event);
    assert(out.deep_view() =~= old(out).deep_view().push(event.deep_view()));
}

/// The ids of the candidates that are part of the group.
pub fn get_included_output_ids(items: &Vec<(String, String, bool)>) -> (r: Vec<String>)
    ensures
        r.deep_view() == included_ids(items.deep_view()),
{
    let ghost all = items.deep_view();
    let mut ids: Vec<String> = Vec::new();
    let mut i: usize = 0;
    assert(all.take(0) =~= Seq::<(Seq<char>, Seq<char>, bool)>::empty());
    assert(ids.deep_view() =~= Seq::<Seq<char>>::empty());
    while i < items.len()
        invariant
            i <= items.len(),
            all == items.deep_view(),
            ids.deep_view() == included_ids(all.take(i as int)),
        decreases items.len() - i,
    {
        let ghost before = ids.deep_view();
        assert(all.take(i + 1).drop_last() =~= all.take(i as int));
        assert(all.take(i + 1).last() == items[i as int].deep_view());
        if items[i].2 {
            ids.push(items[i].0.clone());
            assert(ids.deep_view() =~= before.push(items[i as int].0@));
        }
        i += 1;
    }
    assert(all.take(items.len() as int) =~= all);
    ids
}

fn last_item(items: &Vec<QueueItem>) -> (r: Option<QueueItem>)
    ensures
        r.deep_view() == last_of(items.deep_view()),
{
    assert(items.deep_view().len() == items.len());
    if items.len() > 0 {
        Some(items[items.len() - 1].clone())
    } else {
        None
    }
}

/// The state of the user interface.
pub struct App {
    no_unicode_symbols: bool,
    core_name: Option<String>,
    selected_view: Option<Panel>,
    prev_view: Option<Panel>,
    browse: StatefulList<BrowseItem>,
    browse_match_list: Vec<usize>,
    pending_item_key: Option<String>,
    prompt: String,
    input: Vec<char>,
    cursor_position: usize,
    max_input_len: usize,
    zones: StatefulList<(EndPoint, String)>,
    selected_zone: Option<Zone>,
    zone_seek: Option<ZoneSeek>,
    grouping: StatefulList<(String, String, bool)>,
    queue: StatefulList<QueueItem>,
    pause_on_track_end: bool,
    queue_mode: QueueMode,
    matched_preset: Option<String>,
    matched_draft_preset: Option<String>,
    draft_match: bool,
}

impl DeepView for App {
    type V = AppView;

    closed spec fn deep_view(&self) -> AppView {
        AppView {
            no_unicode_symbols: self.no_unicode_symbols,
            core_name: self.core_name.deep_view(),
            selected_view: self.selected_view,
            prev_view: self.prev_view,
            browse: self.browse.deep_view(),
            browse_match_list: self.browse_match_list@,
            pending_item_key: self.pending_item_key.deep_view(),
            prompt: self.prompt@,
            input: self.input@,
            cursor_position: self.cursor_position,
            max_input_len: self.max_input_len,
            zones: self.zones.deep_view(),
            selected_zone: self.selected_zone.deep_view(),
            zone_seek: self.zone_seek.deep_view(),
            grouping: self.grouping.deep_view(),
            queue: self.queue.deep_view(),
            pause_on_track_end: self.pause_on_track_end,
            queue_mode: self.queue_mode,
            matched_preset: self.matched_preset.deep_view(),
            matched_draft_preset: self.matched_draft_preset.deep_view(),
            draft_match: self.draft_match,
        }
    }
}

impl App {
    /// The user interface at its start.
    pub fn new(no_unicode_symbols: bool) -> (r: Self)
        ensures
            r.deep_view() == AppView::initial(no_unicode_symbols),
    {
        App {
            no_unicode_symbols,
            core_name: None,
            selected_view: None,
            prev_view: None,
            browse: StatefulList::new(),
            browse_match_list: Vec::new(),
            pending_item_key: None,
            prompt: String::new(),
            input: Vec::new(),
            cursor_position: 0,
            max_input_len: 0,
            zones: StatefulList::new(),
            selected_zone: None,
            zone_seek: None,
            grouping: StatefulList::new(),
            queue: StatefulList::new(),
            pause_on_track_end: false,
            queue_mode: QueueMode::Manual,
            matched_preset: None,
            matched_draft_preset: None,
            draft_match: false,
        }
    }

    /// The name of the server, once one was found.
    pub fn core_name(&self) -> (r: &Option<String>)
        ensures
            r.deep_view() == self.deep_view().core_name,
    {
        &self.core_name
    }

    /// Whether the screen is drawn without symbols beyond ASCII.
    pub fn no_unicode_symbols(&self) -> (r: bool)
        ensures
            r == self.deep_view().no_unicode_symbols,
    {
        self.no_unicode_symbols
    }

    /// The list of the browser.
    pub fn browse(&self) -> (r: &StatefulList<BrowseItem>)
        ensures
            r.deep_view() == self.deep_view().browse,
    {
        &self.browse
    }

    /// The queue.
    pub fn queue(&self) -> (r: &StatefulList<QueueItem>)
        ensures
            r.deep_view() == self.deep_view().queue,
    {
        &self.queue
    }

    /// The list of end points.
    pub fn zones(&self) -> (r: &StatefulList<(EndPoint, String)>)
        ensures
            r.deep_view() == self.deep_view().zones,
    {
        &self.zones
    }

    /// The candidates for a grouping.
    pub fn grouping(&self) -> (r: &StatefulList<(String, String, bool)>)
        ensures
            r.deep_view() == self.deep_view().grouping,
    {
        &self.grouping
    }

    /// The zone that is selected.
    pub fn selected_zone(&self) -> (r: &Option<Zone>)
        ensures
            r.deep_view() == self.deep_view().selected_zone,
    {
        &self.selected_zone
    }

    /// The last report of the position of the selected zone.
    pub fn zone_seek(&self) -> (r: &Option<ZoneSeek>)
        ensures
            r.deep_view() == self.deep_view().zone_seek,
    {
        &self.zone_seek
    }

    /// The item of the browser that waits for a zone or for input.
    pub fn pending_item_key(&self) -> (r: &Option<String>)
        ensures
            r.deep_view() == self.deep_view().pending_item_key,
    {
        &self.pending_item_key
    }

    /// What the prompt asks for.
    pub fn prompt(&self) -> (r: &String)
        ensures
            r@ == self.deep_view().prompt,
    {
        &self.prompt
    }

    /// What was typed.
    pub fn input(&self) -> (r: String)
        ensures
            r@ == self.deep_view().input,
    {
        string_of(&self.input)
    }

    /// Where the cursor stands in what was typed.
    pub fn cursor_position(&self) -> (r: usize)
        ensures
            r == self.deep_view().cursor_position,
    {
        self.cursor_position
    }

    /// Whether playback pauses at the end of the track.
    pub fn pause_on_track_end(&self) -> (r: bool)
        ensures
            r == self.deep_view().pause_on_track_end,
    {
        self.pause_on_track_end
    }

    /// The queue mode of the selected zone.
    pub fn queue_mode(&self) -> (r: QueueMode)
        ensures
            r == self.deep_view().queue_mode,
    {
        self.queue_mode
    }

    /// The name of the queue mode as it is shown; nothing for the manual
    /// mode.
    pub fn queue_mode_label(&self) -> (r: Option<&'static str>)
        ensures
            r.deep_view() == match self.deep_view().queue_mode {
                QueueMode::Manual => None,
                QueueMode::RoonRadio => Some("Roon Radio"@),
                QueueMode::RandomAlbum => Some("Random Album"@),
                QueueMode::RandomTrack => Some("Random Track"@),
            },
    {
        match self.queue_mode {
            QueueMode::Manual => None,
            QueueMode::RoonRadio => Some("Roon Radio"),
            QueueMode::RandomAlbum => Some("Random Album"),
            QueueMode::RandomTrack => Some("Random Track"),
        }
    }

    /// The preset that the selected zone is matched to.
    pub fn matched_preset(&self) -> (r: &Option<String>)
        ensures
            r.deep_view() == self.deep_view().matched_preset,
    {
        &self.matched_preset
    }

    /// The preset that the grouping being put together is matched to.
    pub fn matched_draft_preset(&self) -> (r: &Option<String>)
        ensures
            r.deep_view() == self.deep_view().matched_draft_preset,
    {
        &self.matched_draft_preset
    }

    /// Takes over from which item on each of the four lists is shown.
    pub fn set_offsets(&mut self, browse: usize, queue: usize, zones: usize, grouping: usize)
        ensures
            final(self).deep_view() == (AppView {
                browse: ListView {
                    state: crate::app::stateful_list::ListState {
                        offset: browse,
                        ..old(self).deep_view().browse.state
                    },
                    ..old(self).deep_view().browse
                },
                queue: ListView {
                    state: crate::app::stateful_list::ListState {
                        offset: queue,
                        ..old(self).deep_view().queue.state
                    },
                    ..old(self).deep_view().queue
                },
                zones: ListView {
                    state: crate::app::stateful_list::ListState {
                        offset: zones,
                        ..old(self).deep_view().zones.state
                    },
                    ..old(self).deep_view().zones
                },
                grouping: ListView {
                    state: crate::app::stateful_list::ListState {
                        offset: grouping,
                        ..old(self).deep_view().grouping.state
                    },
                    ..old(self).deep_view().grouping
                },
                ..old(self).deep_view()
            }),
    {
        self.browse.state.offset = browse;
        self.queue.state.offset = queue;
        self.zones.state.offset = zones;
        self.grouping.state.offset = grouping;
    }

    /// Takes over the line counts of the items of the four lists for pages
    /// of the given numbers of lines.
    pub fn set_paging(
        &mut self,
        browse: (usize, Vec<usize>),
        queue: (usize, Vec<usize>),
        zones: (usize, Vec<usize>),
        grouping: (usize, Vec<usize>),
    )
        ensures
            final(self).deep_view() == (AppView {
                browse: ListView {
                    page_lines: browse.0,
                    item_line_count: browse.1@,
                    ..old(self).deep_view().browse
                },
                queue: ListView {
                    page_lines: queue.0,
                    item_line_count: queue.1@,
                    ..old(self).deep_view().queue
                },
                zones: ListView {
                    page_lines: zones.0,
                    item_line_count: zones.1@,
                    ..old(self).deep_view().zones
                },
                grouping: ListView {
                    page_lines: grouping.0,
                    item_line_count: grouping.1@,
                    ..old(self).deep_view().grouping
                },
                ..old(self).deep_view()
            }),
    {
        self.browse.page_lines = browse.0;
        self.browse.item_line_count = browse.1;
        self.queue.page_lines = queue.0;
        self.queue.item_line_count = queue.1;
        self.zones.page_lines = zones.0;
        self.zones.item_line_count = zones.1;
        self.grouping.page_lines = grouping.0;
        self.grouping.item_line_count = grouping.1;
    }

    fn zone_index(&self) -> (r: Option<usize>)
        ensures
            r == self.deep_view().zone_index(),
    {
        let zone = match &self.selected_zone {
            Some(zone) => zone,
            None => {
                return None;
            },
        };
        let items = match &self.zones.items {
            Some(items) => items,
            None => {
                return None;
            },
        };
        let ghost p = |item: (EndPointView, Seq<char>)| names_zone(item, zone.zone_id@);
        let mut i: usize = 0;
        while i < items.len()
            invariant
                i <= items.len(),
                self.deep_view().selected_zone == Some(zone.deep_view()),
                self.deep_view().zones.items == Some(items.deep_view()),
                p == |item: (EndPointView, Seq<char>)| names_zone(item, zone.zone_id@),
                forall|j: int| 0 <= j < i ==> !p(#[trigger] items.deep_view()[j]),
            decreases items.len() - i,
        {
            let found = match &items[i].0 {
                EndPoint::Zone(id) => str_eq(id.as_str(), zone.zone_id.as_str()),
                EndPoint::MatchedPreset(pair) => str_eq(pair.0.as_str(), zone.zone_id.as_str()),
                _ => false,
            };
            assert(found == p(items.deep_view()[i as int]));
            if found {
                proof {
                    lemma_first_where_found(items.deep_view(), p, i as int);
                }
                return Some(i);
            }
            i += 1;
        }
        proof {
            lemma_first_where_none(items.deep_view(), p);
        }
        None
    }

    fn select_view(&mut self, view: Option<Panel>)
        ensures
            final(self).deep_view() == old(self).deep_view().select_view(view),
    {
        self.prev_view = self.selected_view;
        let index = self.zone_index();
        match view {
            Some(Panel::Browse) => {
                self.browse.select(None);
                self.queue.deselect();
                self.zones.deselect();
                self.grouping.deselect();
            },
            Some(Panel::Queue) => {
                self.browse.deselect();
                self.queue.select(None);
                self.zones.deselect();
                self.grouping.deselect();
            },
            Some(Panel::Zones) => {
                self.zones.select(index);
                self.queue.deselect();
                self.browse.deselect();
                self.grouping.deselect();
            },
            Some(Panel::Grouping) => {
                self.grouping.select(None);
                self.browse.deselect();
                self.queue.deselect();
                self.zones.deselect();
            },
            _ => {
                self.browse.deselect();
                self.queue.deselect();
                self.zones.deselect();
                self.grouping.deselect();
            },
        }
        self.selected_view = view;
    }

    fn select_next_view(&mut self)
        ensures
            final(self).deep_view() == old(self).deep_view().select_next_view(),
    {
        let next = match self.selected_view {
            Some(Panel::Browse) => Panel::Queue,
            Some(Panel::Queue) => Panel::NowPlaying,
            Some(_) => Panel::Browse,
            None => {
                return ;
            },
        };
        self.select_view(Some(next));
    }

    fn select_prev_view(&mut self)
        ensures
            final(self).deep_view() == old(self).deep_view().select_prev_view(),
    {
        let prev = match self.selected_view {
            Some(Panel::Queue) => Panel::Browse,
            Some(Panel::NowPlaying) => Panel::Queue,
            Some(_) => Panel::NowPlaying,
            None => {
                return ;
            },
        };
        self.select_view(Some(prev));
    }

    fn restore_view(&mut self)
        ensures
            final(self).deep_view() == old(self).deep_view().restore_view(),
    {
        let prev_view = self.prev_view;
        self.prev_view = None;
        self.select_view(prev_view);
    }

    /// The view that has the focus.
    pub fn get_selected_view(&self) -> (r: Option<Panel>)
        ensures
            r == self.deep_view().selected_view,
    {
        self.selected_view
    }

    /// Sets how many characters the input takes.
    pub fn set_max_input_len(&mut self, max_input_len: usize)
        ensures
            final(self).deep_view() == (AppView { max_input_len, ..old(self).deep_view() }),
    {
        self.max_input_len = max_input_len;
    }

    fn clamp_cursor(&self, new_cursor_pos: usize) -> (r: usize)
        ensures
            r == self.deep_view().clamp_cursor(new_cursor_pos as int),
    {
        if new_cursor_pos > self.input.len() {
            self.input.len()
        } else {
            new_cursor_pos
        }
    }

    fn move_cursor_left(&mut self)
        ensures
            final(self).deep_view() == old(self).deep_view().move_cursor_left(),
    {
        let moved = if self.cursor_position > 0 {
            self.cursor_position - 1
        } else {
            0
        };
        self.cursor_position = self.clamp_cursor(moved);
    }

    fn move_cursor_right(&mut self)
        ensures
            final(self).deep_view() == old(self).deep_view().move_cursor_right(),
    {
        let _count = self.input.len();
        let moved = if self.cursor_position < usize::MAX {
            self.cursor_position + 1
        } else {
            usize::MAX
        };
        self.cursor_position = self.clamp_cursor(moved);
    }

    fn move_cursor_home(&mut self)
        ensures
            final(self).deep_view() == (AppView { cursor_position: 0, ..old(self).deep_view() }),
    {
        self.cursor_position = 0;
    }

    fn move_cursor_end(&mut self)
        ensures
            final(self).deep_view() == (AppView {
                cursor_position: old(self).deep_view().input.len() as usize,
                ..old(self).deep_view()
            }),
    {
        self.cursor_position = self.input.len();
    }

    fn enter_char(&mut self, new_char: char)
        ensures
            final(self).deep_view() == old(self).deep_view().enter_char(new_char),
    {
        if self.input.len() < self.max_input_len {
            let at = self.clamp_cursor(self.cursor_position);
            self.input.insert(at, new_char);
            self.move_cursor_right();
        }
    }

    fn delete_char(&mut self)
        ensures
            final(self).deep_view() == old(self).deep_view().delete_char(),
    {
        if self.cursor_position != 0 {
            if self.cursor_position <= self.input.len() {
                self.input.remove(self.cursor_position - 1);
            }
            self.move_cursor_left();
        }
    }

    fn clear_input(&mut self)
        ensures
            final(self).deep_view() == old(self).deep_view().clear_input(),
    {
        self.input.clear();
        self.cursor_position = 0;
    }

    fn get_item_key(&self) -> (r: Option<String>)
        ensures
            r.deep_view() == self.deep_view().item_key(),
    {
        match self.browse.get_selected_item() {
            Some(item) => clone_opt_string(&item.item_key),
            None => None,
        }
    }

    fn get_queue_item_id(&self) -> (r: Option<u32>)
        ensures
            r == self.deep_view().queue_item_id(),
    {
        match self.queue.get_selected_item() {
            Some(item) => Some(item.queue_item_id),
            None => None,
        }
    }

    fn get_queue_select_string(&self) -> (r: Option<String>)
        ensures
            r.deep_view() == self.deep_view().queue_select_string(),
    {
        match self.queue.get_selected_item() {
            Some(item) => Some(item.line1.clone()),
            None => None,
        }
    }

    fn apply_queue_changes(&mut self, changes: &Vec<QueueChange>, selected: Option<String>)
        requires
            old(self).deep_view().accepts(IoEventView::QueueListChanges(changes.deep_view())),
            selected.deep_view() == old(self).deep_view().queue_select_string(),
        ensures
            final(self).deep_view() == old(self).deep_view().apply_queue_changes(
                changes.deep_view(),
            ),
    {
        let mut items: Option<Vec<QueueItem>> = None;
        core::mem::swap(&mut self.queue.items, &mut items);
        match items {
            Some(queue) => {
                let mut queue = queue;
                assert(queue.deep_view().len() == queue.len());
                apply_queue_changes(&mut queue, changes);
                let index = match &selected {
                    Some(label) => find_label(&queue, label.as_str()),
                    None => None,
                };
                self.queue.items = Some(queue);
                match selected {
                    Some(_) => {
                        match index {
                            Some(i) => {
                                self.queue.select(Some(i));
                            },
                            None => {
                                self.queue.deselect();
                            },
                        }
                    },
                    None => {},
                }
            },
            None => {},
        }
    }

    /// Whether an event can be handled.
    pub fn accepts(&self, io_event: &IoEvent) -> (r: bool)
        ensures
            r == self.deep_view().accepts(io_event.deep_view()),
    {
        match (io_event, &self.queue.items) {
            (IoEvent::QueueListChanges(changes), Some(items)) => {
                assert(items.deep_view().len() == items.len());
                changes_fit(items.len(), changes)
            },
            _ => true,
        }
    }

    fn on_browse_list(&mut self, offset: usize, items: Vec<BrowseItem>, out: &mut Vec<IoEvent>)
        ensures
            final(self).deep_view() == old(self).deep_view().on_browse_list(
                offset,
                items.deep_view(),
            ).0,
            final(out).deep_view() == old(out).deep_view() + old(self).deep_view().on_browse_list(
                offset,
                items.deep_view(),
            ).1,
    {
        let ghost before = out.deep_view();
        let ghost expected = self.deep_view().on_browse_list(offset, items.deep_view());
        if offset == 0 {
            self.browse.items = Some(items);
            match self.selected_view {
                Some(Panel::Browse) => {
                    self.browse.select_first();
                },
                _ => {},
            }
            assert(before + expected.1 =~= before);
        } else {
            let mut held: Option<Vec<BrowseItem>> = None;
            core::mem::swap(&mut self.browse.items, &mut held);
            match held {
                Some(list) => {
                    let mut list = list;
                    assert(list.deep_view().len() == list.len());
                    if offset == list.len() {
                        let mut items = items;
                        let ghost first = list.deep_view();
                        let ghost second = items.deep_view();
                        list.append(&mut items);
                        assert(list.deep_view() =~= first + second);
                        self.browse.items = Some(list);
                        self.browse.select_first();
                        assert(before + expected.1 =~= before);
                    } else {
                        self.browse.items = Some(list);
                        push_event(out, IoEvent::BrowseRefresh);
                        assert(out.deep_view() =~= before + expected.1);
                    }
                },
                None => {
                    assert(before + expected.1 =~= before);
                },
            }
        }
    }

    fn has_zones(&self) -> (r: bool)
        ensures
            r == self.deep_view().has_zones(),
    {
        match &self.zones.items {
            Some(items) => {
                let mut i: usize = 0;
                while i < items.len()
                    invariant
                        i <= items.len(),
                        self.deep_view().zones.items == Some(items.deep_view()),
                        forall|j: int|
                            0 <= j < i ==> !((#[trigger] items.deep_view()[j]).0 is Zone
                                || items.deep_view()[j].0 is MatchedPreset),
                    decreases items.len() - i,
                {
                    let found = match &items[i].0 {
                        EndPoint::Zone(_) => true,
                        EndPoint::MatchedPreset(_) => true,
                        _ => false,
                    };
                    if found {
                        assert(items.deep_view()[i as int].0 is Zone || items.deep_view()[i as int].0
                            is MatchedPreset);
                        return true;
                    }
                    i += 1;
                }
                false
            },
            None => false,
        }
    }

    fn on_zone_grouping(&mut self, grouping: Option<Vec<(String, String, bool)>>)
        ensures
            final(self).deep_view() == old(self).deep_view().on_zone_grouping(
                grouping.deep_view(),
            ),
    {
        match &grouping {
            Some(candidates) => {
                assert(candidates.deep_view().len() == candidates.len());
                if candidates.len() > 0 {
                    match self.selected_view {
                        Some(Panel::Prompt) => {
                            self.restore_view();
                        },
                        Some(Panel::Zones) => {
                            self.restore_view();
                        },
                        Some(Panel::Help) => {
                            self.restore_view();
                        },
                        _ => {},
                    }
                    self.matched_draft_preset = clone_opt_string(&self.matched_preset);
                    self.select_view(Some(Panel::Grouping));
                }
            },
            None => {},
        }
        self.grouping.items = grouping;
    }

    fn on_browse_title(&mut self, browse_title: String)
        ensures
            final(self).deep_view() == old(self).deep_view().on_event(
                IoEventView::BrowseTitle(browse_title@),
            ).0,
    {
        if self.selected_view.is_none() {
            self.select_view(Some(Panel::Browse));
        }
        self.browse.title = Some(browse_title);
    }

    fn on_queue_list(&mut self, queue_list: Vec<QueueItem>, out: &mut Vec<IoEvent>)
        ensures
            final(self).deep_view() == old(self).deep_view().on_event(
                IoEventView::QueueList(queue_list.deep_view()),
            ).0,
            final(out).deep_view() == old(out).deep_view() + old(self).deep_view().on_event(
                IoEventView::QueueList(queue_list.deep_view()),
            ).1,
    {
        let ghost before = out.deep_view();
        push_event(out, IoEvent::QueueListLast(last_item(&queue_list)));
        assert(out.deep_view() =~= before + seq![
            IoEventView::QueueListLast(last_of(queue_list.deep_view())),
        ]);
        self.queue.items = Some(queue_list);
    }

    fn on_queue_changes(&mut self, changes: Vec<QueueChange>, out: &mut Vec<IoEvent>)
        requires
            old(self).deep_view().accepts(IoEventView::QueueListChanges(changes.deep_view())),
        ensures
            final(self).deep_view() == old(self).deep_view().on_event(
                IoEventView::QueueListChanges(changes.deep_view()),
            ).0,
            final(out).deep_view() == old(out).deep_view() + old(self).deep_view().on_event(
                IoEventView::QueueListChanges(changes.deep_view()),
            ).1,
    {
        let ghost before = out.deep_view();
        let selected = self.get_queue_select_string();
        self.apply_queue_changes(&changes, selected);
        match &self.queue.items {
            Some(items) => {
                push_event(out, IoEvent::QueueListLast(last_item(items)));
                assert(out.deep_view() =~= before + seq![
                    IoEventView::QueueListLast(last_of(items.deep_view())),
                ]);
            },
            None => {
                assert(before + Seq::<IoEventView>::empty() =~= before);
            },
        }
    }

    fn on_zones(&mut self, zones: Vec<(EndPoint, String)>)
        ensures
            final(self).deep_view() == old(self).deep_view().on_event(
                IoEventView::Zones(zones.deep_view()),
            ).0,
    {
        self.zones.items = Some(zones);
        match self.selected_view {
            Some(Panel::Zones) => {
                let index = self.zone_index();
                self.zones.select(index);
            },
            _ => {},
        }
    }

    fn on_zone_select(&mut self)
        ensures
            final(self).deep_view() == old(self).deep_view().on_event(IoEventView::ZoneSelect).0,
    {
        if self.has_zones() {
            self.pending_item_key = self.get_item_key();
        }
        self.select_view(Some(Panel::Zones));
    }

    fn on_zone_changed(&mut self, zone: Zone, out: &mut Vec<IoEvent>)
        ensures
            final(self).deep_view() == old(self).deep_view().on_event(
                IoEventView::ZoneChanged(zone.deep_view()),
            ).0,
            final(out).deep_view() == old(out).deep_view() + old(self).deep_view().on_event(
                IoEventView::ZoneChanged(zone.deep_view()),
            ).1,
    {
        let ghost before = out.deep_view();
        self.selected_zone = Some(zone);
        let mut pending: Option<String> = None;
        core::mem::swap(&mut self.pending_item_key, &mut pending);
        match pending {
            Some(key) => {
                push_event(out, IoEvent::BrowseSelected(Some(key)));
                assert(out.deep_view() =~= before + seq![
                    IoEventView::BrowseSelected(Some(key@)),
                ]);
            },
            None => {
                assert(before + Seq::<IoEventView>::empty() =~= before);
            },
        }
    }

    #[verifier::rlimit(50)]
    fn on_event_into(&mut self, io_event: IoEvent, out: &mut Vec<IoEvent>)
        requires
            old(self).deep_view().accepts(io_event.deep_view()),
        ensures
            final(self).deep_view() == old(self).deep_view().on_event(io_event.deep_view()).0,
            final(out).deep_view() == old(out).deep_view() + old(self).deep_view().on_event(
                io_event.deep_view(),
            ).1,
    {
        let ghost before = out.deep_view();
        assert(before + Seq::<IoEventView>::empty() =~= before);
        match io_event {
            IoEvent::CoreName(name) => {
                self.core_name = name;
            },
            IoEvent::BrowseTitle(browse_title) => {
                self.on_browse_title(browse_title);
            },
            IoEvent::BrowseList(offset, items) => {
                self.on_browse_list(offset, items, out);
            },
            IoEvent::QueueList(queue_list) => {
                self.on_queue_list(queue_list, out);
            },
            IoEvent::QueueListChanges(changes) => {
                self.on_queue_changes(changes, out);
            },
            IoEvent::QueueModeCurrent(queue_mode) => {
                self.queue_mode = queue_mode;
            },
            IoEvent::Zones(zones) => {
                self.on_zones(zones);
            },
            IoEvent::ZoneSelect => {
                self.on_zone_select();
            },
            IoEvent::ZoneChanged(zone) => {
                self.on_zone_changed(zone, out);
            },
            IoEvent::ZoneRemoved(_) => {
                self.selected_zone = None;
            },
            IoEvent::ZoneSeek(seek) => {
                self.zone_seek = Some(seek);
            },
            IoEvent::ZoneGrouping(grouping) => {
                self.on_zone_grouping(grouping);
            },
            IoEvent::ZonePresetMatched(matched_preset) => {
                if self.draft_match {
                    self.draft_match = false;
                    self.matched_draft_preset = matched_preset;
                } else {
                    self.matched_preset = matched_preset;
                }
            },
            IoEvent::PauseOnTrackEndActive(pause_on_track_end) => {
                self.pause_on_track_end = pause_on_track_end;
            },
            _ => {},
        }
    }

    /// Handles an event of the session other than a key. Returns what is to
    /// be sent to the session.
    pub fn on_event(&mut self, io_event: IoEvent) -> (r: Vec<IoEvent>)
        requires
            old(self).deep_view().accepts(io_event.deep_view()),
        ensures
            (final(self).deep_view(), r.deep_view()) == old(self).deep_view().on_event(
                io_event.deep_view(),
            ),
    {
        let mut out: Vec<IoEvent> = Vec::new();
        assert(out.deep_view() =~= Seq::<IoEventView>::empty());
        let ghost expected = self.deep_view().on_event(io_event.deep_view());
        self.on_event_into(io_event, &mut out);
        assert(out.deep_view() =~= expected.1);
        out
    }
    fn moved<T: DeepView>(list: &mut StatefulList<T>, code: KeyCode)
        ensures
            final(list).deep_view() == AppView::moved(old(list).deep_view(), code),
    {
        match code {
            KeyCode::Up => list.prev(),
            KeyCode::Down => list.next(),
            KeyCode::Home => list.select_first(),
            KeyCode::End => list.select_last(),
            KeyCode::PageUp => list.select_prev_page(),
            KeyCode::PageDown => list.select_next_page(),
            _ => {},
        }
    }

    fn clear_jump(&mut self)
        ensures
            final(self).deep_view() == old(self).deep_view().clear_jump(),
    {
        self.input.clear();
        self.browse_match_list.clear();
    }

    fn browse_titles(&self) -> (r: Vec<String>)
        ensures
            r.deep_view() == self.deep_view().browse_titles(),
    {
        let mut titles: Vec<String> = Vec::new();
        match &self.browse.items {
            Some(items) => {
                let mut i: usize = 0;
                while i < items.len()
                    invariant
                        i <= items.len(),
                        titles.len() == i,
                        forall|j: int| 0 <= j < i ==> titles[j]@ == items[j].title@,
                    decreases items.len() - i,
                {
                    titles.push(items[i].title.clone());
                    i += 1;
                }
                assert(titles.deep_view() =~= self.deep_view().browse_titles());
            },
            None => {
                assert(titles.deep_view() =~= self.deep_view().browse_titles());
            },
        }
        titles
    }

    fn select_by_input(&mut self, key: char)
        ensures
            final(self).deep_view() == old(self).deep_view().select_by_input(key),
    {
        if (key as u32) >= 128 || self.browse.items.is_none() {
            return ;
        }
        let typed = to_lower(key);
        let titles = self.browse_titles();
        let split = match &self.browse.title {
            Some(title) => str_eq(title.as_str(), "Artists") || str_eq(
                title.as_str(),
                "Composers",
            ),
            None => false,
        };
        let mut input = self.input.clone();
        input.push(typed);
        let index = if self.browse_match_list.len() == 0 {
            find_by_first_char(&titles, split, typed)
        } else {
            let skip = self.browse_match_list[self.browse_match_list.len() - 1];
            find_by_prefix(&titles, split, &input, skip)
        };
        match index {
            Some(i) => {
                self.input = input;
                self.browse_match_list.push(i);
                self.browse.state.select(Some(i));
            },
            None => {},
        }
    }

    fn now_playing_keys(code: KeyCode, out: &mut Vec<IoEvent>)
        ensures
            final(out).deep_view() == old(out).deep_view() + AppView::now_playing_keys(code),
    {
        let ghost before = out.deep_view();
        match code {
            KeyCode::Char('m') => push_event(out, IoEvent::Mute(Mute::Mute)),
            KeyCode::Char('u') => push_event(out, IoEvent::Mute(Mute::Unmute)),
            KeyCode::Char('+') => push_event(out, IoEvent::ChangeVolume(1)),
            KeyCode::Char('-') => push_event(out, IoEvent::ChangeVolume(-1)),
            KeyCode::Char('r') => push_event(out, IoEvent::Repeat),
            KeyCode::Char('s') => push_event(out, IoEvent::Shuffle),
            _ => {},
        }
        assert(out.deep_view() =~= before + AppView::now_playing_keys(code));
    }

    fn queue_keys(&mut self, code: KeyCode, out: &mut Vec<IoEvent>)
        ensures
            final(self).deep_view() == old(self).deep_view().queue_keys(code).0,
            final(out).deep_view() == old(out).deep_view() + old(self).deep_view().queue_keys(
                code,
            ).1,
    {
        let ghost before = out.deep_view();
        let ghost expected = self.deep_view().queue_keys(code);
        match code {
            KeyCode::Enter => {
                match self.get_queue_item_id() {
                    Some(queue_item_id) => {
                        self.queue.select_first();
                        push_event(out, IoEvent::QueueSelected(queue_item_id));
                    },
                    None => {},
                }
            },
            _ => {
                Self::moved(&mut self.queue, code);
            },
        }
        assert(out.deep_view() =~= before + expected.1);
    }

    fn zone_keys(&mut self, code: KeyCode, out: &mut Vec<IoEvent>)
        ensures
            final(self).deep_view() == old(self).deep_view().zone_keys(code).0,
            final(out).deep_view() == old(out).deep_view() + old(self).deep_view().zone_keys(
                code,
            ).1,
    {
        let ghost before = out.deep_view();
        let ghost expected = self.deep_view().zone_keys(code);
        match code {
            KeyCode::Enter => {
                match self.zones.get_selected_item() {
                    Some(item) => {
                        push_event(out, IoEvent::ZoneSelected(item.0.clone()));
                    },
                    None => {},
                }
                self.restore_view();
            },
            KeyCode::Delete => {
                match self.zones.get_selected_item() {
                    Some(item) => {
                        match &item.0 {
                            EndPoint::Preset(preset) => {
                                push_event(out, IoEvent::ZoneDeletePreset(preset.clone()));
                            },
                            _ => {},
                        }
                    },
                    None => {},
                }
            },
            KeyCode::Esc => {
                self.restore_view();
            },
            _ => {
                Self::moved(&mut self.zones, code);
            },
        }
        assert(out.deep_view() =~= before + expected.1);
    }

    fn toggle(&mut self) -> (r: Option<Vec<String>>)
        ensures
            match old(self).deep_view().toggled() {
                Some(items) => final(self).deep_view() == (AppView {
                    grouping: ListView { items: Some(items), ..old(self).deep_view().grouping },
                    ..old(self).deep_view()
                }) && r.deep_view() == Some(included_ids(items)),
                None => final(self).deep_view() == old(self).deep_view() && r is None,
            },
    {
        let index = match self.grouping.state.selected {
            Some(index) => index,
            None => {
                return None;
            },
        };
        let mut held: Option<Vec<(String, String, bool)>> = None;
        core::mem::swap(&mut self.grouping.items, &mut held);
        match held {
            Some(items) => {
                let mut items = items;
                assert(items.deep_view().len() == items.len());
                if index < items.len() {
                    let ghost before = items.deep_view();
                    let (id, name, included) = items.remove(index);
                    items.insert(index, (id, name, !included));
                    assert(items.deep_view() =~= before.update(
                        index as int,
                        (before[index as int].0, before[index as int].1, !before[index as int].2),
                    ));
                    let ids = get_included_output_ids(&items);
                    self.grouping.items = Some(items);
                    Some(ids)
                } else {
                    self.grouping.items = Some(items);
                    None
                }
            },
            None => None,
        }
    }

    fn confirm_grouping(&mut self, out: &mut Vec<IoEvent>)
        ensures
            final(self).deep_view() == old(self).deep_view().confirm_grouping().0,
            final(out).deep_view() == old(out).deep_view() + old(
                self,
            ).deep_view().confirm_grouping().1,
    {
        let ghost before = out.deep_view();
        let ghost expected = self.deep_view().confirm_grouping();
        self.restore_view();
        let ids = match &self.grouping.items {
            Some(items) => get_included_output_ids(items),
            None => {
                assert(before + expected.1 =~= before);
                return ;
            },
        };
        assert(ids.deep_view().len() == ids.len());
        if ids.len() > 0 {
            if self.input.len() > 0 {
                if ids.len() > 1 {
                    push_event(out, IoEvent::ZoneSavePreset(string_of(&self.input), ids));
                } else {
                    push_event(out, IoEvent::ZoneGrouped(ids));
                }
                self.clear_input();
            } else {
                push_event(out, IoEvent::ZoneGrouped(ids));
            }
        }
        assert(out.deep_view() =~= before + expected.1);
    }

    fn save_preset(&mut self)
        ensures
            final(self).deep_view() == old(self).deep_view().save_preset(),
    {
        let ids = match &self.grouping.items {
            Some(items) => get_included_output_ids(items),
            None => {
                return ;
            },
        };
        assert(ids.deep_view().len() == ids.len());
        if ids.len() > 1 {
            match &self.matched_draft_preset {
                Some(preset) => {
                    self.input = to_chars(preset.as_str());
                    self.cursor_position = self.input.len();
                },
                None => {},
            }
            self.selected_view = Some(Panel::GroupingPreset);
            self.grouping.deselect();
        }
    }

    fn grouping_keys(&mut self, code: KeyCode, out: &mut Vec<IoEvent>)
        ensures
            final(self).deep_view() == old(self).deep_view().grouping_keys(code).0,
            final(out).deep_view() == old(out).deep_view() + old(self).deep_view().grouping_keys(
                code,
            ).1,
    {
        let ghost before = out.deep_view();
        let ghost expected = self.deep_view().grouping_keys(code);
        match code {
            KeyCode::Char(' ') => {
                match self.toggle() {
                    Some(ids) => {
                        assert(ids.deep_view().len() == ids.len());
                        if ids.len() > 1 {
                            self.draft_match = true;
                            push_event(out, IoEvent::ZoneMatchPreset(ids));
                        }
                    },
                    None => {},
                }
                assert(out.deep_view() =~= before + expected.1);
            },
            KeyCode::Enter => {
                self.confirm_grouping(out);
            },
            KeyCode::Char('s') => {
                self.save_preset();
                assert(out.deep_view() =~= before + expected.1);
            },
            KeyCode::Esc => {
                self.restore_view();
                assert(out.deep_view() =~= before + expected.1);
            },
            _ => {
                Self::moved(&mut self.grouping, code);
                assert(out.deep_view() =~= before + expected.1);
            },
        }
    }

    fn enter_item(&mut self, out: &mut Vec<IoEvent>)
        ensures
            final(self).deep_view() == old(self).deep_view().enter_item().0,
            final(out).deep_view() == old(out).deep_view() + old(self).deep_view().enter_item().1,
    {
        let ghost before = out.deep_view();
        let ghost expected = self.deep_view().enter_item();
        self.clear_jump();
        let item_key = self.get_item_key();
        let prompt = match self.browse.get_selected_item() {
            Some(item) => clone_opt_string(&item.input_prompt),
            None => {
                assert(before + expected.1 =~= before);
                return ;
            },
        };
        match prompt {
            Some(prompt) => {
                self.prompt = prompt;
                self.pending_item_key = item_key;
                self.select_view(Some(Panel::Prompt));
                assert(before + expected.1 =~= before);
            },
            None => {
                push_event(out, IoEvent::BrowseSelected(item_key));
                assert(out.deep_view() =~= before + expected.1);
            },
        }
    }

    fn jump_back(&mut self)
        ensures
            final(self).deep_view() == old(self).deep_view().jump_back(),
    {
        let ghost input = self.input@;
        let ghost list = self.browse_match_list@;
        self.input.pop();
        self.browse_match_list.pop();
        assert(self.input@ =~= if input.len() > 0 {
            input.drop_last()
        } else {
            input
        });
        assert(self.browse_match_list@ =~= if list.len() > 0 {
            list.drop_last()
        } else {
            list
        });
        let last = if self.browse_match_list.len() > 0 {
            Some(self.browse_match_list[self.browse_match_list.len() - 1])
        } else {
            None
        };
        self.browse.select(last);
    }

    fn browse_keys(&mut self, key: KeyEvent, out: &mut Vec<IoEvent>)
        ensures
            final(self).deep_view() == old(self).deep_view().browse_keys(key).0,
            final(out).deep_view() == old(out).deep_view() + old(self).deep_view().browse_keys(
                key,
            ).1,
    {
        let ghost before = out.deep_view();
        let ghost expected = self.deep_view().browse_keys(key);
        match key.modifiers {
            KeyModifiers::Control => {
                if key.code == KeyCode::Home {
                    push_event(out, IoEvent::BrowseHome);
                }
                assert(out.deep_view() =~= before + expected.1);
            },
            KeyModifiers::Shift => {
                match key.code {
                    KeyCode::Char(c) => {
                        self.select_by_input(c);
                    },
                    _ => {},
                }
                assert(out.deep_view() =~= before + expected.1);
            },
            KeyModifiers::Plain => {
                match key.code {
                    KeyCode::Char(c) => {
                        self.select_by_input(c);
                        assert(out.deep_view() =~= before + expected.1);
                    },
                    KeyCode::Backspace => {
                        self.jump_back();
                        assert(out.deep_view() =~= before + expected.1);
                    },
                    KeyCode::Enter => {
                        self.enter_item(out);
                    },
                    KeyCode::Esc => {
                        self.clear_jump();
                        push_event(out, IoEvent::BrowseBack);
                        assert(out.deep_view() =~= before + expected.1);
                    },
                    KeyCode::Home => {
                        if self.input.len() == 0 {
                            self.browse.select_first();
                        } else {
                            self.clear_jump();
                        }
                        assert(out.deep_view() =~= before + expected.1);
                    },
                    KeyCode::F(5) => {
                        push_event(out, IoEvent::BrowseRefresh);
                        assert(out.deep_view() =~= before + expected.1);
                    },
                    _ => {
                        Self::moved(&mut self.browse, key.code);
                        assert(out.deep_view() =~= before + expected.1);
                    },
                }
            },
            KeyModifiers::Other => {
                assert(out.deep_view() =~= before + expected.1);
            },
        }
    }

    fn edit_keys(&mut self, code: KeyCode)
        ensures
            final(self).deep_view() == old(self).deep_view().edit_keys(code),
    {
        match code {
            KeyCode::Char(c) => self.enter_char(c),
            KeyCode::Backspace => self.delete_char(),
            KeyCode::Delete => {
                self.move_cursor_right();
                self.delete_char();
            },
            KeyCode::Left => self.move_cursor_left(),
            KeyCode::Right => self.move_cursor_right(),
            KeyCode::Home => self.move_cursor_home(),
            KeyCode::End => self.move_cursor_end(),
            _ => {},
        }
    }

    fn prompt_keys(&mut self, key: KeyEvent, out: &mut Vec<IoEvent>)
        ensures
            final(self).deep_view() == old(self).deep_view().prompt_keys(key).0,
            final(out).deep_view() == old(out).deep_view() + old(self).deep_view().prompt_keys(
                key,
            ).1,
    {
        let ghost before = out.deep_view();
        let ghost expected = self.deep_view().prompt_keys(key);
        match key.modifiers {
            KeyModifiers::Shift => {
                match key.code {
                    KeyCode::Char(c) => {
                        self.enter_char(c);
                    },
                    _ => {},
                }
            },
            KeyModifiers::Plain => {
                match key.code {
                    KeyCode::Enter => {
                        let mut pending: Option<String> = None;
                        core::mem::swap(&mut self.pending_item_key, &mut pending);
                        match pending {
                            Some(item_key) => {
                                push_event(out, IoEvent::BrowseInput(string_of(&self.input)));
                                push_event(out, IoEvent::BrowseSelected(Some(item_key)));
                            },
                            None => {},
                        }
                        self.clear_input();
                        self.restore_view();
                    },
                    KeyCode::Esc => {
                        self.pending_item_key = None;
                        self.clear_input();
                        self.restore_view();
                    },
                    _ => {
                        self.edit_keys(key.code);
                    },
                }
            },
            _ => {},
        }
        assert(out.deep_view() =~= before + expected.1);
    }

    fn back_to_grouping(&mut self)
        ensures
            final(self).deep_view() == old(self).deep_view().back_to_grouping(),
    {
        self.selected_view = Some(Panel::Grouping);
        self.grouping.select(Some(0));
    }

    fn preset_keys(&mut self, key: KeyEvent)
        ensures
            final(self).deep_view() == old(self).deep_view().preset_keys(key),
    {
        match key.modifiers {
            KeyModifiers::Shift => {
                match key.code {
                    KeyCode::Char(c) => {
                        self.enter_char(c);
                    },
                    _ => {},
                }
            },
            KeyModifiers::Plain => {
                match key.code {
                    KeyCode::Enter => {
                        self.back_to_grouping();
                    },
                    KeyCode::Esc => {
                        self.clear_input();
                        self.back_to_grouping();
                    },
                    _ => {
                        self.edit_keys(key.code);
                    },
                }
            },
            _ => {},
        }
    }

    fn open_over(&mut self, view: Panel)
        ensures
            final(self).deep_view() == old(self).deep_view().open_over(view),
    {
        if self.selected_view != Some(view) {
            match self.selected_view {
                Some(Panel::Prompt) => self.restore_view(),
                Some(Panel::Zones) => self.restore_view(),
                Some(Panel::Grouping) => self.restore_view(),
                Some(Panel::Help) => self.restore_view(),
                _ => {},
            }
            self.select_view(Some(view));
        }
    }

    fn control_keys(&mut self, code: KeyCode, out: &mut Vec<IoEvent>)
        ensures
            final(self).deep_view() == old(self).deep_view().control_keys(code).0,
            final(out).deep_view() == old(out).deep_view() + old(self).deep_view().control_keys(
                code,
            ).1,
    {
        let ghost before = out.deep_view();
        let ghost expected = self.deep_view().control_keys(code);
        match code {
            KeyCode::Up => push_event(out, IoEvent::ChangeVolume(1)),
            KeyCode::Down => push_event(out, IoEvent::ChangeVolume(-1)),
            KeyCode::Left => push_event(out, IoEvent::Control(Control::Previous)),
            KeyCode::Right => push_event(out, IoEvent::Control(Control::Next)),
            KeyCode::Delete => push_event(out, IoEvent::QueueClear),
            KeyCode::Char('e') => push_event(out, IoEvent::PauseOnTrackEndReq),
            KeyCode::Char('p') => push_event(out, IoEvent::Control(Control::PlayPause)),
            KeyCode::Char(' ') => push_event(out, IoEvent::Control(Control::PlayPause)),
            KeyCode::Char('q') => push_event(out, IoEvent::QueueModeNext),
            KeyCode::Char('a') => push_event(out, IoEvent::QueueModeAppend),
            KeyCode::Char('z') => {
                self.open_over(Panel::Zones);
            },
            KeyCode::Char('g') => {
                match self.selected_view {
                    Some(Panel::Grouping) => {},
                    _ => {
                        push_event(out, IoEvent::ZoneGroupReq);
                    },
                }
            },
            KeyCode::Char('h') => {
                self.open_over(Panel::Help);
            },
            _ => {},
        }
        assert(out.deep_view() =~= before + expected.1);
    }

    fn plain_keys(&mut self, code: KeyCode, out: &mut Vec<IoEvent>)
        ensures
            final(self).deep_view() == old(self).deep_view().plain_keys(code).0,
            final(out).deep_view() == old(out).deep_view() + old(self).deep_view().plain_keys(
                code,
            ).1,
    {
        let ghost before = out.deep_view();
        let ghost expected = self.deep_view().plain_keys(code);
        if code == KeyCode::Tab {
            self.clear_jump();
            self.select_next_view();
            assert(before + expected.1 =~= before);
        } else {
            match self.selected_view {
                Some(Panel::NowPlaying) => {
                    Self::now_playing_keys(code, out);
                },
                Some(Panel::Queue) => {
                    self.queue_keys(code, out);
                },
                Some(Panel::Zones) => {
                    self.zone_keys(code, out);
                },
                Some(Panel::Grouping) => {
                    self.grouping_keys(code, out);
                },
                Some(Panel::Help) => {
                    self.restore_view();
                    assert(before + expected.1 =~= before);
                },
                _ => {
                    assert(before + expected.1 =~= before);
                },
            }
        }
    }

    fn view_keys(&mut self, focus: Option<Panel>, key: KeyEvent, out: &mut Vec<IoEvent>)
        ensures
            final(self).deep_view() == old(self).deep_view().view_keys(focus, key).0,
            final(out).deep_view() == old(out).deep_view() + old(self).deep_view().view_keys(
                focus,
                key,
            ).1,
    {
        let ghost before = out.deep_view();
        match focus {
            Some(Panel::Browse) => {
                self.browse_keys(key, out);
            },
            Some(Panel::Prompt) => {
                self.prompt_keys(key, out);
            },
            Some(Panel::GroupingPreset) => {
                self.preset_keys(key);
                assert(before + Seq::<IoEventView>::empty() =~= before);
            },
            _ => {
                assert(before + Seq::<IoEventView>::empty() =~= before);
            },
        }
    }

    /// Handles a key. Returns whether the user interface goes on, and what
    /// is to be sent to the session.
    pub fn do_action(&mut self, key: KeyEvent) -> (r: (AppReturn, Vec<IoEvent>))
        ensures
            (final(self).deep_view(), r.0, r.1.deep_view()) == old(self).deep_view().do_action(
                key,
            ),
    {
        let mut out: Vec<IoEvent> = Vec::new();
        assert(out.deep_view() =~= Seq::<IoEventView>::empty());
        let ghost expected = self.deep_view().do_action(key);
        if key.kind != KeyEventKind::Press {
            return (AppReturn::Continue, out);
        }
        if key.modifiers == KeyModifiers::Control && key.code == KeyCode::Char('c') {
            return (AppReturn::Exit, out);
        }
        let selected_view = self.selected_view;
        let ghost first = match key.modifiers {
            KeyModifiers::Plain => self.deep_view().plain_keys(key.code),
            KeyModifiers::Shift => (
                if key.code == KeyCode::BackTab {
                    self.deep_view().clear_jump().select_prev_view()
                } else {
                    self.deep_view()
                },
                Seq::<IoEventView>::empty(),
            ),
            KeyModifiers::Control => self.deep_view().control_keys(key.code),
            KeyModifiers::Other => (self.deep_view(), Seq::<IoEventView>::empty()),
        };
        match key.modifiers {
            KeyModifiers::Plain => {
                self.plain_keys(key.code, &mut out);
            },
            KeyModifiers::Shift => {
                if key.code == KeyCode::BackTab {
                    self.clear_jump();
                    self.select_prev_view();
                }
            },
            KeyModifiers::Control => {
                self.control_keys(key.code, &mut out);
            },
            KeyModifiers::Other => {},
        }
        assert(out.deep_view() =~= first.1);
        self.view_keys(selected_view, key, &mut out);
        assert(out.deep_view() =~= expected.2);
        (AppReturn::Continue, out)
    }

    /// Handles an event. Returns whether the user interface goes on, and
    /// what is to be sent to the session.
    pub fn update_on_event(&mut self, io_event: IoEvent) -> (r: (AppReturn, Vec<IoEvent>))
        requires
            old(self).deep_view().accepts(io_event.deep_view()),
        ensures
            (final(self).deep_view(), r.0, r.1.deep_view()) == old(
                self,
            ).deep_view().update_on_event(io_event.deep_view()),
    {
        match io_event {
            IoEvent::Input(key) => self.do_action(key),
            other => {
                let out = self.on_event(other);
                (AppReturn::Continue, out)
            },
        }
    }
}

} // verus!
