//! What the client keeps between runs: the selected end point, the profile,
//! a queue mode for each output and the presets, together with the form
//! through which they can be set from a remote.

use vstd::prelude::*;
use vstd::string::*;
use crate::io::{clone_opt_string, clone_strings, clone_zone_list, EndPoint, EndPointView, QueueMode};
use crate::sort::{arrange, sort_order, stable_order};
use crate::strmap::{assoc_get, assoc_insert, assoc_remove, keys_of, StrMap};
use crate::text::str_eq;

verus! {

/// What a queue mode does with what it picked.
#[derive(Clone, Copy, Debug, PartialEq, Eq, Structural)]
pub enum QueueAction {
    PlayNow,
    AddNext,
    Queue,
}

impl DeepView for QueueAction {
    type V = QueueAction;

    open spec fn deep_view(&self) -> QueueAction {
        *self
    }
}

/// What the form of the settings holds while it is edited.
#[derive(Debug, PartialEq, Eq)]
pub struct ScratchPad {
    pub zone_id: Option<String>,
    pub profile: Option<String>,
    pub queue_mode: Option<QueueMode>,
    pub queue_action: Option<QueueAction>,
    pub dirty: bool,
}

/// The model of `ScratchPad`: a string by its characters, a list by the
/// sequence of its items.
pub struct ScratchPadView {
    pub zone_id: Option<Seq<char>>,
    pub profile: Option<Seq<char>>,
    pub queue_mode: Option<QueueMode>,
    pub queue_action: Option<QueueAction>,
    pub dirty: bool,
}

impl DeepView for ScratchPad {
    type V = ScratchPadView;

    open spec fn deep_view(&self) -> ScratchPadView {
        ScratchPadView {
            zone_id: self.zone_id.deep_view(),
            profile: self.profile.deep_view(),
            queue_mode: self.queue_mode,
            queue_action: self.queue_action,
            dirty: self.dirty,
        }
    }
}

/// What an entry of a dropdown stands for.
#[derive(Debug, PartialEq, Eq)]
pub enum EntryValue {
    EndPoint(String),
    Mode(QueueMode),
    Action(QueueAction),
}

/// The model of `EntryValue`: a string by its characters, a list by the
/// sequence of its items.
pub enum EntryValueView {
    EndPoint(Seq<char>),
    Mode(QueueMode),
    Action(QueueAction),
}

impl DeepView for EntryValue {
    type V = EntryValueView;

    open spec fn deep_view(&self) -> EntryValueView {
        match self {
            EntryValue::EndPoint(id) => EntryValueView::EndPoint(id@),
            EntryValue::Mode(mode) => EntryValueView::Mode(*mode),
            EntryValue::Action(action) => EntryValueView::Action(*action),
        }
    }
}

/// An entry of a dropdown: what is shown and what it stands for.
#[derive(Debug, PartialEq, Eq)]
pub struct Entry {
    pub title: String,
    pub value: EntryValue,
}

/// The model of `Entry`: a string by its characters, a list by the sequence of
/// its items.
pub struct EntryView {
    pub title: Seq<char>,
    pub value: EntryValueView,
}

impl DeepView for Entry {
    type V = EntryView;

    open spec fn deep_view(&self) -> EntryView {
        EntryView { title: self.title@, value: self.value.deep_view() }
    }
}

/// A choice among entries that sets one field of the form.
#[derive(Debug, PartialEq, Eq)]
pub struct Dropdown {
    pub title: String,
    pub subtitle: Option<String>,
    pub values: Vec<Entry>,
    pub setting: String,
}

/// The model of `Dropdown`: a string by its characters, a list by the sequence
/// of its items.
pub struct DropdownView {
    pub title: Seq<char>,
    pub subtitle: Option<Seq<char>>,
    pub values: Seq<EntryView>,
    pub setting: Seq<char>,
}

impl DeepView for Dropdown {
    type V = DropdownView;

    open spec fn deep_view(&self) -> DropdownView {
        DropdownView {
            title: self.title@,
            subtitle: self.subtitle.deep_view(),
            values: self.values.deep_view(),
            setting: self.setting@,
        }
    }
}

/// A line of text in the form.
#[derive(Debug, PartialEq, Eq)]
pub struct Label {
    pub title: String,
    pub subtitle: Option<String>,
}

/// The model of `Label`: a string by its characters, a list by the sequence of
/// its items.
pub struct LabelView {
    pub title: Seq<char>,
    pub subtitle: Option<Seq<char>>,
}

impl DeepView for Label {
    type V = LabelView;

    open spec fn deep_view(&self) -> LabelView {
        LabelView { title: self.title@, subtitle: self.subtitle.deep_view() }
    }
}

/// A part of the form.
#[derive(Debug, PartialEq, Eq)]
pub enum Widget {
    Dropdown(Dropdown),
    Label(Label),
}

/// The model of `Widget`: a string by its characters, a list by the sequence
/// of its items.
pub enum WidgetView {
    Dropdown(DropdownView),
    Label(LabelView),
}

impl DeepView for Widget {
    type V = WidgetView;

    open spec fn deep_view(&self) -> WidgetView {
        match self {
            Widget::Dropdown(dropdown) => WidgetView::Dropdown(dropdown.deep_view()),
            Widget::Label(label) => WidgetView::Label(label.deep_view()),
        }
    }
}

/// The form of the settings: its values and its parts.
#[derive(Debug, PartialEq, Eq)]
pub struct Layout {
    pub settings: ScratchPad,
    pub widgets: Vec<Widget>,
    pub has_error: bool,
}

/// The model of `Layout`: a string by its characters, a list by the sequence
/// of its items.
pub struct LayoutView {
    pub settings: ScratchPadView,
    pub widgets: Seq<WidgetView>,
    pub has_error: bool,
}

impl DeepView for Layout {
    type V = LayoutView;

    open spec fn deep_view(&self) -> LayoutView {
        LayoutView {
            settings: self.settings.deep_view(),
            widgets: self.widgets.deep_view(),
            has_error: self.has_error,
        }
    }
}

/// The kind of end point that an id stands for, told by the second
/// character of the id: a zone by `6`, an output by `7`, a preset by
/// anything else.
pub open spec fn end_point_of(id: Seq<char>) -> EndPointView {
    if id.len() > 1 && id[1] == '6' {
        EndPointView::Zone(id)
    } else if id.len() > 1 && id[1] == '7' {
        EndPointView::Output(id)
    } else {
        EndPointView::Preset(id)
    }
}

/// The queue mode stored under an id, or the manual mode.
pub open spec fn mode_or_manual(modes: Seq<(Seq<char>, QueueMode)>, id: Seq<char>) -> QueueMode {
    match assoc_get(modes, id) {
        Some(mode) => mode,
        None => QueueMode::Manual,
    }
}

/// The settings after the form was sent in, and what is to be done: the
/// end point of the form is taken over; where the form names an end point
/// and a queue mode, the mode is stored under the end point, and the end
/// point is to be selected with the queue action of the form.
pub open spec fn update_step(s: SettingsView, pad: ScratchPadView) -> (
    SettingsView,
    Option<(EndPointView, Option<QueueAction>)>,
) {
    let taken = SettingsView { zone_id: pad.zone_id, ..s };
    match (pad.zone_id, pad.queue_mode) {
        (Some(id), Some(mode)) => (
            SettingsView { queue_modes: assoc_insert(s.queue_modes, id, mode), ..taken },
            Some((end_point_of(id), pad.queue_action)),
        ),
        _ => (taken, None),
    }
}

/// The form brought in line with the settings: a form that was not yet
/// touched and that names another end point than the settings shows the
/// queue mode of its end point and counts as touched.
pub open spec fn sync_step(s: SettingsView, pad: ScratchPadView) -> ScratchPadView {
    if !pad.dirty && pad.zone_id != s.zone_id {
        match pad.zone_id {
            Some(id) => ScratchPadView {
                queue_mode: Some(mode_or_manual(s.queue_modes, id)),
                dirty: true,
                ..pad
            },
            None => pad,
        }
    } else {
        pad
    }
}

/// A fresh form for the settings.
pub open spec fn scratch_pad_of(s: SettingsView) -> ScratchPadView {
    ScratchPadView {
        zone_id: s.zone_id,
        profile: s.profile,
        queue_mode: match s.zone_id {
            Some(id) => Some(mode_or_manual(s.queue_modes, id)),
            None => None,
        },
        queue_action: None,
        dirty: false,
    }
}

/// The entry of an end point in the dropdown of end points: an output is
/// shown in angle brackets, a preset in square brackets, a matched zone
/// under its preset.
pub open spec fn end_point_entry(item: (EndPointView, Seq<char>)) -> EntryView {
    match item.0 {
        EndPointView::Zone(zone_id) => EntryView {
            title: item.1,
            value: EntryValueView::EndPoint(zone_id),
        },
        EndPointView::Output(output_id) => EntryView {
            title: "<"@ + item.1 + ">"@,
            value: EntryValueView::EndPoint(output_id),
        },
        EndPointView::Preset(preset) => EntryView {
            title: "["@ + item.1 + "]"@,
            value: EntryValueView::EndPoint(preset),
        },
        EndPointView::MatchedPreset(pair) => EntryView {
            title: pair.1,
            value: EntryValueView::EndPoint(pair.0),
        },
    }
}

/// The dropdown of end points.
pub open spec fn zone_dropdown(zone_list: Seq<(EndPointView, Seq<char>)>) -> WidgetView {
    WidgetView::Dropdown(
        DropdownView {
            title: "Zones"@,
            subtitle: Some("The available zones, <outputs> and [presets]"@),
            values: Seq::new(zone_list.len(), |i: int| end_point_entry(zone_list[i])),
            setting: "zone_id"@,
        },
    )
}

/// Whether an entry of the list of end points is the zone of the id.
pub open spec fn names_zone(item: (EndPointView, Seq<char>), zone_id: Seq<char>) -> bool {
    match item.0 {
        EndPointView::Zone(id) => id == zone_id,
        EndPointView::MatchedPreset(pair) => pair.0 == zone_id,
        _ => false,
    }
}

/// The label that names the controlled zone: a matched zone is named by
/// its preset, with its own name beneath.
pub open spec fn zone_label(item: (EndPointView, Seq<char>)) -> WidgetView {
    match item.0 {
        EndPointView::MatchedPreset(pair) => WidgetView::Label(
            LabelView {
                title: "The currently controlled zone is "@ + pair.1,
                subtitle: Some("The group name in Roon is \""@ + item.1 + "\""@),
            },
        ),
        _ => WidgetView::Label(
            LabelView { title: "The currently controlled zone is "@ + item.1, subtitle: None },
        ),
    }
}

/// The entry of a queue mode.
pub open spec fn mode_entry(mode: QueueMode) -> EntryView {
    EntryView {
        title: match mode {
            QueueMode::Manual => "Manual"@,
            QueueMode::RoonRadio => "Roon Radio"@,
            QueueMode::RandomAlbum => "Random Album"@,
            QueueMode::RandomTrack => "Random Track"@,
        },
        value: EntryValueView::Mode(mode),
    }
}

/// The entry of a queue action.
pub open spec fn action_entry(action: QueueAction) -> EntryView {
    EntryView {
        title: match action {
            QueueAction::PlayNow => "Play Now"@,
            QueueAction::AddNext => "Add Next"@,
            QueueAction::Queue => "Queue"@,
        },
        value: EntryValueView::Action(action),
    }
}

/// The dropdown of queue modes: the two random modes are offered with a
/// profile only; without one a hint says so.
pub open spec fn mode_dropdown(has_profile: bool) -> WidgetView {
    WidgetView::Dropdown(
        DropdownView {
            title: "Queue Mode"@,
            subtitle: if has_profile {
                None
            } else {
                Some("Select a profile in Roon TUI Browse View for additional modes"@)
            },
            values: if has_profile {
                seq![
                    mode_entry(QueueMode::Manual),
                    mode_entry(QueueMode::RoonRadio),
                    mode_entry(QueueMode::RandomAlbum),
                    mode_entry(QueueMode::RandomTrack),
                ]
            } else {
                seq![mode_entry(QueueMode::Manual), mode_entry(QueueMode::RoonRadio)]
            },
            setting: "queue_mode"@,
        },
    )
}

/// The dropdown of queue actions.
pub open spec fn action_dropdown() -> WidgetView {
    WidgetView::Dropdown(
        DropdownView {
            title: "Queue Action"@,
            subtitle: None,
            values: seq![
                action_entry(QueueAction::PlayNow),
                action_entry(QueueAction::AddNext),
                action_entry(QueueAction::Queue),
            ],
            setting: "queue_action"@,
        },
    )
}

/// Whether the form offers the queue actions: with a profile, in one of
/// the two random modes.
pub open spec fn offers_actions(pad: ScratchPadView) -> bool {
    pad.profile is Some && (pad.queue_mode == Some(QueueMode::RandomAlbum) || pad.queue_mode
        == Some(QueueMode::RandomTrack))
}

/// The parts of the form. Without an end point only the end points are
/// offered. With one, the zone that it names is announced where the list
/// holds it; then come the end points, the queue modes and, where they
/// apply, the queue actions.
pub open spec fn layout_widgets(pad: ScratchPadView, zone_list: Seq<(EndPointView, Seq<char>)>)
    -> Seq<WidgetView> {
    match pad.zone_id {
        Some(zone_id) => {
            let label = match crate::seqs::first_where(
                zone_list,
                |item: (EndPointView, Seq<char>)| names_zone(item, zone_id),
            ) {
                Some(i) => seq![zone_label(zone_list[i])],
                None => Seq::empty(),
            };
            label + seq![zone_dropdown(zone_list), mode_dropdown(pad.profile is Some)] + (
                if offers_actions(pad) {
                    seq![action_dropdown()]
                } else {
                    Seq::empty()
                })
        },
        None => seq![zone_dropdown(zone_list)],
    }
}

/// The form for given values and a list of end points.
pub open spec fn layout_of(pad: ScratchPadView, zone_list: Seq<(EndPointView, Seq<char>)>)
    -> LayoutView {
    LayoutView { settings: pad, widgets: layout_widgets(pad, zone_list), has_error: false }
}

/// Whether two optional strings are both absent or hold the same
/// characters.
pub(crate) fn opt_str_eq(a: &Option<String>, b: &Option<String>) -> (r: bool)
    ensures
        r == (a.deep_view() == b.deep_view()),
{
    match (a, b) {
        (Some(x), Some(y)) => str_eq(x.as_str(), y.as_str()),
        (None, None) => true,
        _ => false,
    }
}

/// A string made of three parts.
pub(crate) fn join3(a: &str, b: &str, c: &str) -> (r: String)
    ensures
        r@ == a@ + b@ + c@,
{
    let mut r = a.to_owned();
    r.append(b);
    r.append(c);
    r
}

fn mode_entry_of(mode: QueueMode) -> (r: Entry)
    ensures
        r.deep_view() == mode_entry(mode),
{
    let title = match mode {
        QueueMode::Manual => "Manual",
        QueueMode::RoonRadio => "Roon Radio",
        QueueMode::RandomAlbum => "Random Album",
        QueueMode::RandomTrack => "Random Track",
    };
    Entry { title: title.to_owned(), value: EntryValue::Mode(mode) }
}

fn action_entry_of(action: QueueAction) -> (r: Entry)
    ensures
        r.deep_view() == action_entry(action),
{
    let title = match action {
        QueueAction::PlayNow => "Play Now",
        QueueAction::AddNext => "Add Next",
        QueueAction::Queue => "Queue",
    };
    Entry { title: title.to_owned(), value: EntryValue::Action(action) }
}

fn end_point_entry_of(item: &(EndPoint, String)) -> (r: Entry)
    ensures
        r.deep_view() == end_point_entry(item.deep_view()),
{
    match &item.0 {
        EndPoint::Zone(zone_id) => Entry {
            title: item.1.clone(),
            value: EntryValue::EndPoint(zone_id.clone()),
        },
        EndPoint::Output(output_id) => Entry {
            title: join3("<", item.1.as_str(), ">"),
            value: EntryValue::EndPoint(output_id.clone()),
        },
        EndPoint::Preset(preset) => Entry {
            title: join3("[", item.1.as_str(), "]"),
            value: EntryValue::EndPoint(preset.clone()),
        },
        EndPoint::MatchedPreset(pair) => Entry {
            title: pair.1.clone(),
            value: EntryValue::EndPoint(pair.0.clone()),
        },
    }
}

fn zone_dropdown_of(zone_list: &Vec<(EndPoint, String)>) -> (r: Widget)
    ensures
        r.deep_view() == zone_dropdown(zone_list.deep_view()),
{
    let mut values: Vec<Entry> = Vec::new();
    let mut i: usize = 0;
    while i < zone_list.len()
        invariant
            i <= zone_list.len(),
            values.len() == i,
            forall|j: int|
                0 <= j < i ==> values[j].deep_view() == end_point_entry(
                    zone_list.deep_view()[j],
                ),
        decreases zone_list.len() - i,
    {
        values.push(end_point_entry_of(&zone_list[i]));
        i += 1;
    }
    let dropdown = Dropdown {
        title: "Zones".to_owned(),
        subtitle: Some("The available zones, <outputs> and [presets]".to_owned()),
        values,
        setting: "zone_id".to_owned(),
    };
    assert(dropdown.values.deep_view() =~= Seq::new(
        zone_list.deep_view().len(),
        |i: int| end_point_entry(zone_list.deep_view()[i]),
    ));
    Widget::Dropdown(dropdown)
}

fn mode_dropdown_of(has_profile: bool) -> (r: Widget)
    ensures
        r.deep_view() == mode_dropdown(has_profile),
{
    let mut values: Vec<Entry> = Vec::new();
    values.push(mode_entry_of(QueueMode::Manual));
    values.push(mode_entry_of(QueueMode::RoonRadio));
    if has_profile {
        values.push(mode_entry_of(QueueMode::RandomAlbum));
        values.push(mode_entry_of(QueueMode::RandomTrack));
    }
    let subtitle = if has_profile {
        None
    } else {
        Some("Select a profile in Roon TUI Browse View for additional modes".to_owned())
    };
    let dropdown = Dropdown {
        title: "Queue Mode".to_owned(),
        subtitle,
        values,
        setting: "queue_mode".to_owned(),
    };
    assert(dropdown.values.deep_view() =~= mode_dropdown(has_profile)->Dropdown_0.values);
    Widget::Dropdown(dropdown)
}

fn action_dropdown_of() -> (r: Widget)
    ensures
        r.deep_view() == action_dropdown(),
{
    let mut values: Vec<Entry> = Vec::new();
    values.push(action_entry_of(QueueAction::PlayNow));
    values.push(action_entry_of(QueueAction::AddNext));
    values.push(action_entry_of(QueueAction::Queue));
    let dropdown = Dropdown {
        title: "Queue Action".to_owned(),
        subtitle: None,
        values,
        setting: "queue_action".to_owned(),
    };
    assert(dropdown.values.deep_view() =~= action_dropdown()->Dropdown_0.values);
    Widget::Dropdown(dropdown)
}

fn zone_label_of(item: &(EndPoint, String)) -> (r: Widget)
    ensures
        r.deep_view() == zone_label(item.deep_view()),
{
    match &item.0 {
        EndPoint::MatchedPreset(pair) => {
            let mut title = "The currently controlled zone is ".to_owned();
            title.append(pair.1.as_str());
            Widget::Label(
                Label {
                    title,
                    subtitle: Some(
                        join3("The group name in Roon is \"", item.1.as_str(), "\""),
                    ),
                },
            )
        },
        _ => {
            let mut title = "The currently controlled zone is ".to_owned();
            title.append(item.1.as_str());
            Widget::Label(Label { title, subtitle: None })
        },
    }
}

fn find_named_zone(zone_list: &Vec<(EndPoint, String)>, zone_id: &str) -> (r: Option<usize>)
    ensures
        match r {
            Some(i) => i < zone_list.len() && crate::seqs::first_where(
                zone_list.deep_view(),
                |item: (EndPointView, Seq<char>)| names_zone(item, zone_id@),
            ) == Some(i as int),
            None => crate::seqs::first_where(
                zone_list.deep_view(),
                |item: (EndPointView, Seq<char>)| names_zone(item, zone_id@),
            ) is None,
        },
{
    let ghost p = |item: (EndPointView, Seq<char>)| names_zone(item, zone_id@);
    let mut i: usize = 0;
    while i < zone_list.len()
        invariant
            i <= zone_list.len(),
            p == |item: (EndPointView, Seq<char>)| names_zone(item, zone_id@),
            forall|j: int| 0 <= j < i ==> !p(#[trigger] zone_list.deep_view()[j]),
        decreases zone_list.len() - i,
    {
        let found = match &zone_list[i].0 {
            EndPoint::Zone(id) => str_eq(id.as_str(), zone_id),
            EndPoint::MatchedPreset(pair) => str_eq(pair.0.as_str(), zone_id),
            _ => false,
        };
        assert(found == p(zone_list.deep_view()[i as int]));
        if found {
            proof {
                crate::seqs::lemma_first_where_found(zone_list.deep_view(), p, i as int);
            }
            return Some(i);
        }
        i += 1;
    }
    proof {
        crate::seqs::lemma_first_where_none(zone_list.deep_view(), p);
    }
    None
}

impl ScratchPad {
    /// A fresh form for the settings.
    pub fn from(settings: &RoonSettings) -> (r: Self)
        ensures
            r.deep_view() == scratch_pad_of(settings.deep_view()),
    {
        ScratchPad {
            zone_id: settings.get_zone_id(),
            profile: settings.get_profile(),
            queue_mode: settings.get_queue_mode(),
            queue_action: None,
            dirty: false,
        }
    }
}

/// The ids of a grouping with all but the first sorted.
pub open spec fn sort_tail(ids: Seq<Seq<char>>) -> Seq<Seq<char>> {
    if ids.len() == 0 {
        ids
    } else {
        let tail = ids.skip(1);
        seq![ids[0]] + arrange(tail, stable_order(tail, tail.len()))
    }
}

/// Whether a grouping realises a preset: both have the same number of ids
/// and the same first id, and each id of the preset is among those of the
/// grouping. The first id is the anchor; the ids behind it are compared
/// whatever their order.
pub open spec fn preset_matches(preset: Seq<Seq<char>>, ids: Seq<Seq<char>>) -> bool {
    &&& preset.len() == ids.len()
    &&& (preset.len() > 0 ==> preset[0] == ids[0])
    &&& forall|i: int| 0 <= i < preset.len() ==> ids.contains(#[trigger] preset[i])
}

/// The position of the first preset that a grouping realises.
pub open spec fn first_match(presets: Seq<(Seq<char>, Seq<Seq<char>>)>, ids: Seq<Seq<char>>)
    -> Option<int>
    decreases presets.len(),
{
    if presets.len() == 0 {
        None
    } else if preset_matches(presets[0].1, ids) {
        Some(0)
    } else {
        match first_match(presets.drop_first(), ids) {
            Some(i) => Some(i + 1),
            None => None,
        }
    }
}

/// The name of the first preset that a grouping realises.
pub open spec fn match_preset(presets: Seq<(Seq<char>, Seq<Seq<char>>)>, ids: Seq<Seq<char>>)
    -> Option<Seq<char>> {
    match first_match(presets, ids) {
        Some(i) => Some(presets[i].0),
        None => None,
    }
}

/// `first_match` finds the least position of a preset that the grouping
/// realises, and nothing exactly where it realises none.
pub proof fn lemma_first_match(presets: Seq<(Seq<char>, Seq<Seq<char>>)>, ids: Seq<Seq<char>>)
    ensures
        match first_match(presets, ids) {
            Some(i) => 0 <= i < presets.len() && preset_matches(presets[i].1, ids) && forall|
                j: int,
            | 0 <= j < i ==> !preset_matches(presets[j].1, ids),
            None => forall|j: int| 0 <= j < presets.len() ==> !preset_matches(presets[j].1, ids),
        },
    decreases presets.len(),
{
    if presets.len() > 0 && !preset_matches(presets[0].1, ids) {
        lemma_first_match(presets.drop_first(), ids);
        match first_match(presets.drop_first(), ids) {
            Some(i) => {
                assert forall|j: int| 0 <= j < i + 1 implies !preset_matches(
                    presets[j].1,
                    ids,
                ) by {
                    if j > 0 {
                        assert(presets.drop_first()[j - 1] == presets[j]);
                    }
                }
            },
            None => {
                assert forall|j: int| 0 <= j < presets.len() implies !preset_matches(
                    presets[j].1,
                    ids,
                ) by {
                    if j > 0 {
                        assert(presets.drop_first()[j - 1] == presets[j]);
                    }
                }
            },
        }
    }
}

/// Two groupings with the same number of ids, the same first id and the
/// same ids realise the same presets.
pub proof fn lemma_first_match_same_ids(
    presets: Seq<(Seq<char>, Seq<Seq<char>>)>,
    first: Seq<Seq<char>>,
    second: Seq<Seq<char>>,
)
    requires
        first.len() == second.len(),
        first.len() > 0 ==> first[0] == second[0],
        forall|id: Seq<char>| first.contains(id) <==> second.contains(id),
    ensures
        first_match(presets, first) == first_match(presets, second),
    decreases presets.len(),
{
    if presets.len() > 0 {
        lemma_first_match_same_ids(presets.drop_first(), first, second);
    }
}

/// Matching a preset does not depend on the order of the ids behind the
/// first: two groupings with the same first id, whose other ids are the same
/// up to their order, match the same preset.
pub proof fn lemma_match_preset_permutation(
    presets: Seq<(Seq<char>, Seq<Seq<char>>)>,
    first: Seq<Seq<char>>,
    second: Seq<Seq<char>>,
)
    requires
        first.len() > 0,
        second.len() > 0,
        first[0] == second[0],
        first.skip(1).to_multiset() == second.skip(1).to_multiset(),
    ensures
        match_preset(presets, first) == match_preset(presets, second),
{
    let a = first.skip(1);
    let b = second.skip(1);
    vstd::seq_lib::to_multiset_len(a);
    vstd::seq_lib::to_multiset_len(b);
    assert forall|id: Seq<char>| first.contains(id) <==> second.contains(id) by {
        vstd::seq_lib::to_multiset_contains(a, id);
        vstd::seq_lib::to_multiset_contains(b, id);
        if first.contains(id) {
            let i = choose|i: int| 0 <= i < first.len() && first[i] == id;
            if i == 0 {
                assert(second[0] == id);
            } else {
                assert(a[i - 1] == id);
                assert(a.contains(id));
                let j = choose|j: int| 0 <= j < b.len() && b[j] == id;
                assert(second[j + 1] == id);
            }
        }
        if second.contains(id) {
            let i = choose|i: int| 0 <= i < second.len() && second[i] == id;
            if i == 0 {
                assert(first[0] == id);
            } else {
                assert(b[i - 1] == id);
                assert(b.contains(id));
                let j = choose|j: int| 0 <= j < a.len() && a[j] == id;
                assert(first[j + 1] == id);
            }
        }
    }
    lemma_first_match_same_ids(presets, first, second);
}

/// Sorting the ids behind the first keeps the first id, the number of ids
/// and the ids, and so what a grouping matches.
pub proof fn lemma_sort_tail_same_ids(ids: Seq<Seq<char>>)
    requires
        ids.len() <= usize::MAX,
    ensures
        sort_tail(ids).len() == ids.len(),
        ids.len() > 0 ==> sort_tail(ids)[0] == ids[0],
        forall|id: Seq<char>| sort_tail(ids).contains(id) <==> ids.contains(id),
{
    if ids.len() > 0 {
        let tail = ids.skip(1);
        let order = stable_order(tail, tail.len());
        crate::sort::lemma_stable_order(tail, tail.len());
        let sorted = sort_tail(ids);
        assert forall|id: Seq<char>| sorted.contains(id) <==> ids.contains(id) by {
            if sorted.contains(id) {
                let i = choose|i: int| 0 <= i < sorted.len() && sorted[i] == id;
                if i == 0 {
                    assert(ids[0] == id);
                } else {
                    assert(sorted[i] == tail[order[i - 1] as int]);
                    assert(ids[order[i - 1] + 1] == id);
                }
            }
            if ids.contains(id) {
                let i = choose|i: int| 0 <= i < ids.len() && ids[i] == id;
                if i == 0 {
                    assert(sorted[0] == id);
                } else {
                    crate::sort::lemma_order_covers(tail, order, i - 1);
                    let p = choose|p: int| 0 <= p < order.len() && order[p] == (i - 1) as usize;
                    assert(sorted[p + 1] == tail[order[p] as int]);
                    assert(tail[i - 1] == ids[i]);
                }
            }
        }
    }
}

/// Whether `ids` holds `id`.
pub fn contains_id(ids: &Vec<String>, id: &str) -> (r: bool)
    ensures
        r == ids.deep_view().contains(id@),
{
    let mut i: usize = 0;
    while i < ids.len()
        invariant
            i <= ids.len(),
            forall|j: int| 0 <= j < i ==> ids.deep_view()[j] != id@,
        decreases ids.len() - i,
    {
        if str_eq(ids[i].as_str(), id) {
            assert(ids.deep_view()[i as int] == id@);
            return true;
        }
        i += 1;
    }
    false
}

/// Whether a grouping realises a preset.
pub fn preset_fits(preset: &Vec<String>, ids: &Vec<String>) -> (r: bool)
    ensures
        r == preset_matches(preset.deep_view(), ids.deep_view()),
{
    if preset.len() != ids.len() {
        return false;
    }
    if preset.len() > 0 && !str_eq(preset[0].as_str(), ids[0].as_str()) {
        return false;
    }
    let mut i: usize = 0;
    while i < preset.len()
        invariant
            i <= preset.len(),
            preset.len() == ids.len(),
            preset.len() > 0 ==> preset.deep_view()[0] == ids.deep_view()[0],
            forall|j: int|
                0 <= j < i ==> ids.deep_view().contains(#[trigger] preset.deep_view()[j]),
        decreases preset.len() - i,
    {
        if !contains_id(ids, preset[i].as_str()) {
            assert(!ids.deep_view().contains(preset.deep_view()[i as int]));
            return false;
        }
        i += 1;
    }
    true
}

/// Sorts all ids but the first.
pub fn sort_ids_tail(ids: &mut Vec<String>)
    ensures
        final(ids).deep_view() == sort_tail(old(ids).deep_view()),
{
    if ids.len() < 2 {
        proof {
            let v = ids.deep_view();
            if v.len() == 1 {
                assert(stable_order(v.skip(1), 0) =~= Seq::<usize>::empty());
                assert(sort_tail(v) =~= v);
            }
        }
        return ;
    }
    let ghost before = ids.deep_view();
    let mut tail: Vec<String> = Vec::new();
    let mut i: usize = 1;
    while i < ids.len()
        invariant
            1 <= i <= ids.len(),
            tail.len() == i - 1,
            forall|j: int| 0 <= j < i - 1 ==> tail[j]@ == ids[j + 1]@,
        decreases ids.len() - i,
    {
        tail.push(ids[i].clone());
        i += 1;
    }
    assert(tail.deep_view() =~= before.skip(1));
    let order = sort_order(&tail);
    let mut out: Vec<String> = Vec::new();
    out.push(ids[0].clone());
    let mut p: usize = 0;
    while p < order.len()
        invariant
            p <= order.len(),
            order.len() == tail.len(),
            crate::sort::is_stable_order(tail.deep_view(), order@, tail.len() as nat),
            out.len() == p + 1,
            out[0]@ == before[0],
            forall|q: int| 0 <= q < p ==> out[q + 1]@ == tail[order[q] as int]@,
        decreases order.len() - p,
    {
        assert(order[p as int] < tail.len());
        out.push(tail[order[p]].clone());
        p += 1;
    }
    assert(out.deep_view() =~= sort_tail(before));
    *ids = out;
}

/// The stored settings, as plain values.
#[derive(Debug, PartialEq, Eq)]
pub struct Persistent {
    pub zone_id: Option<String>,
    pub profile: Option<String>,
    pub queue_modes: Vec<(String, QueueMode)>,
    pub presets: Vec<(String, Vec<String>)>,
}

/// The model of `Persistent`: a string by its characters, a list by the
/// sequence of its items.
pub struct PersistentView {
    pub zone_id: Option<Seq<char>>,
    pub profile: Option<Seq<char>>,
    pub queue_modes: Seq<(Seq<char>, QueueMode)>,
    pub presets: Seq<(Seq<char>, Seq<Seq<char>>)>,
}

impl DeepView for Persistent {
    type V = PersistentView;

    open spec fn deep_view(&self) -> PersistentView {
        PersistentView {
            zone_id: self.zone_id.deep_view(),
            profile: self.profile.deep_view(),
            queue_modes: self.queue_modes.deep_view(),
            presets: self.presets.deep_view(),
        }
    }
}

impl SettingsView {
    /// What of the settings is stored.
    pub open spec fn persistent(self) -> PersistentView {
        PersistentView {
            zone_id: self.zone_id,
            profile: self.profile,
            queue_modes: self.queue_modes,
            presets: self.presets,
        }
    }
}

/// The entries of a list put into a map one after the other: a later entry
/// of a key replaces the value of an earlier one.
pub open spec fn assoc_from<T>(list: Seq<(Seq<char>, T)>) -> Seq<(Seq<char>, T)>
    decreases list.len(),
{
    if list.len() == 0 {
        Seq::empty()
    } else {
        assoc_insert(assoc_from(list.drop_last()), list.last().0, list.last().1)
    }
}

/// The model of `RoonSettings`: a string by its characters, a list by the
/// sequence of its items.
pub struct SettingsView {
    pub zone_id: Option<Seq<char>>,
    pub profile: Option<Seq<char>>,
    pub queue_modes: Seq<(Seq<char>, QueueMode)>,
    pub presets: Seq<(Seq<char>, Seq<Seq<char>>)>,
    pub zone_list: Seq<(EndPointView, Seq<char>)>,
}

/// The settings of the client.
pub struct RoonSettings {
    zone_id: Option<String>,
    profile: Option<String>,
    queue_modes: StrMap<QueueMode>,
    presets: StrMap<Vec<String>>,
    zone_list: Vec<(EndPoint, String)>,
}

impl DeepView for RoonSettings {
    type V = SettingsView;

    closed spec fn deep_view(&self) -> SettingsView {
        SettingsView {
            zone_id: self.zone_id.deep_view(),
            profile: self.profile.deep_view(),
            queue_modes: self.queue_modes.deep_view(),
            presets: self.presets.deep_view(),
            zone_list: self.zone_list.deep_view(),
        }
    }
}

impl RoonSettings {
    /// Takes up stored settings. The list of end points starts empty.
    pub fn new(persistent: Persistent) -> (r: Self)
        ensures
            r.deep_view().zone_id == persistent.zone_id.deep_view(),
            r.deep_view().profile == persistent.profile.deep_view(),
            r.deep_view().queue_modes == assoc_from(persistent.queue_modes.deep_view()),
            r.deep_view().presets == assoc_from(persistent.presets.deep_view()),
            r.deep_view().zone_list == Seq::<(EndPointView, Seq<char>)>::empty(),
    {
        let mut queue_modes: StrMap<QueueMode> = StrMap::new();
        let mut i: usize = 0;
        while i < persistent.queue_modes.len()
            invariant
                i <= persistent.queue_modes.len(),
                queue_modes.deep_view() == assoc_from(
                    persistent.queue_modes.deep_view().take(i as int),
                ),
            decreases persistent.queue_modes.len() - i,
        {
            let ghost list = persistent.queue_modes.deep_view();
            assert(list.take(i + 1).drop_last() =~= list.take(i as int));
            queue_modes.insert(persistent.queue_modes[i].0.clone(), persistent.queue_modes[i].1);
            i += 1;
        }
        assert(persistent.queue_modes.deep_view().take(i as int)
            =~= persistent.queue_modes.deep_view());
        let mut presets: StrMap<Vec<String>> = StrMap::new();
        let mut k: usize = 0;
        while k < persistent.presets.len()
            invariant
                k <= persistent.presets.len(),
                presets.deep_view() == assoc_from(persistent.presets.deep_view().take(k as int)),
            decreases persistent.presets.len() - k,
        {
            let ghost list = persistent.presets.deep_view();
            assert(list.take(k + 1).drop_last() =~= list.take(k as int));
            presets.insert(
                persistent.presets[k].0.clone(),
                clone_strings(&persistent.presets[k].1),
            );
            k += 1;
        }
        assert(persistent.presets.deep_view().take(k as int) =~= persistent.presets.deep_view());
        let r = RoonSettings {
            zone_id: persistent.zone_id,
            profile: persistent.profile,
            queue_modes,
            presets,
            zone_list: Vec::new(),
        };
        assert(r.zone_list.deep_view() =~= Seq::<(EndPointView, Seq<char>)>::empty());
        r
    }

    /// The settings as they are to be stored.
    pub fn save(&self) -> (r: Persistent)
        ensures
            r.deep_view() == self.deep_view().persistent(),
    {
        let mut queue_modes: Vec<(String, QueueMode)> = Vec::new();
        let mut i: usize = 0;
        while i < self.queue_modes.len()
            invariant
                i <= self.queue_modes.deep_view().len(),
                queue_modes.len() == i,
                forall|j: int|
                    0 <= j < i ==> queue_modes[j].deep_view() == self.queue_modes.deep_view()[j],
            decreases self.queue_modes.deep_view().len() - i,
        {
            queue_modes.push((self.queue_modes.key_at(i).clone(), *self.queue_modes.value_at(i)));
            i += 1;
        }
        assert(queue_modes.deep_view() =~= self.queue_modes.deep_view());
        let mut presets: Vec<(String, Vec<String>)> = Vec::new();
        let mut k: usize = 0;
        while k < self.presets.len()
            invariant
                k <= self.presets.deep_view().len(),
                presets.len() == k,
                forall|j: int|
                    0 <= j < k ==> presets[j].deep_view() == self.presets.deep_view()[j],
            decreases self.presets.deep_view().len() - k,
        {
            presets.push(
                (self.presets.key_at(k).clone(), clone_strings(self.presets.value_at(k))),
            );
            k += 1;
        }
        assert(presets.deep_view() =~= self.presets.deep_view());
        Persistent {
            zone_id: clone_opt_string(&self.zone_id),
            profile: clone_opt_string(&self.profile),
            queue_modes,
            presets,
        }
    }

    /// Replaces the list of end points that the form offers.
    pub fn set_zone_list(&mut self, zone_list: &Vec<(EndPoint, String)>)
        ensures
            final(self).deep_view() == (SettingsView {
                zone_list: zone_list.deep_view(),
                ..old(self).deep_view()
            }),
    {
        self.zone_list = clone_zone_list(zone_list);
    }

    /// Stores a preset under a name, in place of one of that name.
    pub fn add_preset(&mut self, name: String, preset: Vec<String>) -> (r: Option<()>)
        ensures
            r is Some,
            final(self).deep_view() == (SettingsView {
                presets: assoc_insert(old(self).deep_view().presets, name@, preset.deep_view()),
                ..old(self).deep_view()
            }),
    {
        self.presets.insert(name, preset);
        Some(())
    }

    /// Takes the preset of a name out and returns it.
    pub fn remove_preset(&mut self, name: &str) -> (r: Option<Vec<String>>)
        ensures
            r.deep_view() == assoc_get(old(self).deep_view().presets, name@),
            final(self).deep_view() == (SettingsView {
                presets: assoc_remove(old(self).deep_view().presets, name@),
                ..old(self).deep_view()
            }),
    {
        self.presets.remove(name)
    }

    /// The names of the presets, in the order in which they were first
    /// stored.
    pub fn get_preset_names(&self) -> (r: Option<Vec<String>>)
        ensures
            r is Some,
            r->0.deep_view() == keys_of(self.deep_view().presets),
    {
        let mut names: Vec<String> = Vec::new();
        let mut i: usize = 0;
        while i < self.presets.len()
            invariant
                i <= self.presets.deep_view().len(),
                names.len() == i,
                forall|j: int| 0 <= j < i ==> names[j]@ == self.presets.deep_view()[j].0,
            decreases self.presets.deep_view().len() - i,
        {
            names.push(self.presets.key_at(i).clone());
            i += 1;
        }
        assert(names.deep_view() =~= keys_of(self.deep_view().presets));
        Some(names)
    }

    /// The preset of a name.
    pub fn get_preset(&self, name: &str) -> (r: Option<Vec<String>>)
        ensures
            r.deep_view() == assoc_get(self.deep_view().presets, name@),
    {
        match self.presets.get(name) {
            Some(preset) => Some(clone_strings(preset)),
            None => None,
        }
    }

    /// Sorts all ids but the first, and names the first preset that the
    /// grouping realises.
    pub fn match_preset(&self, output_ids: &mut Vec<String>) -> (r: Option<String>)
        ensures
            final(output_ids).deep_view() == sort_tail(old(output_ids).deep_view()),
            r.deep_view() == match_preset(self.deep_view().presets, old(output_ids).deep_view()),
    {
        let ghost before = output_ids.deep_view();
        let count = output_ids.len();
        proof {
            assert(before.len() == count);
            lemma_sort_tail_same_ids(before);
            lemma_first_match_same_ids(self.deep_view().presets, sort_tail(before), before);
        }
        sort_ids_tail(output_ids);
        let mut i: usize = 0;
        while i < self.presets.len()
            invariant
                i <= self.presets.deep_view().len(),
                before == old(output_ids).deep_view(),
                output_ids.deep_view() == sort_tail(before),
                first_match(self.presets.deep_view(), sort_tail(before)) == first_match(
                    self.presets.deep_view(),
                    before,
                ),
                forall|j: int|
                    0 <= j < i ==> !preset_matches(
                        self.presets.deep_view()[j].1,
                        output_ids.deep_view(),
                    ),
            decreases self.presets.deep_view().len() - i,
        {
            if preset_fits(self.presets.value_at(i), output_ids) {
                proof {
                    lemma_first_match(self.presets.deep_view(), output_ids.deep_view());
                }
                return Some(self.presets.key_at(i).clone());
            }
            i += 1;
        }
        proof {
            lemma_first_match(self.presets.deep_view(), output_ids.deep_view());
        }
        None
    }

    /// The queue mode stored under the selected id, or the manual mode where
    /// none is stored; nothing where no id is selected.
    pub fn get_queue_mode(&self) -> (r: Option<QueueMode>)
        ensures
            r == match self.deep_view().zone_id {
                Some(id) => Some(
                    match assoc_get(self.deep_view().queue_modes, id) {
                        Some(mode) => mode,
                        None => QueueMode::Manual,
                    },
                ),
                None => None,
            },
    {
        match &self.zone_id {
            Some(id) => match self.queue_modes.get(id.as_str()) {
                Some(mode) => Some(*mode),
                None => Some(QueueMode::Manual),
            },
            None => None,
        }
    }

    /// The queue mode stored under an id.
    pub fn queue_mode_of(&self, zone_or_output_id: &str) -> (r: Option<QueueMode>)
        ensures
            r == assoc_get(self.deep_view().queue_modes, zone_or_output_id@),
    {
        match self.queue_modes.get(zone_or_output_id) {
            Some(mode) => Some(*mode),
            None => None,
        }
    }

    /// Stores a queue mode under an id.
    pub fn set_queue_mode(&mut self, zone_or_output_id: &str, queue_mode: QueueMode) -> (r:
        Option<()>)
        ensures
            r is Some,
            final(self).deep_view() == (SettingsView {
                queue_modes: assoc_insert(
                    old(self).deep_view().queue_modes,
                    zone_or_output_id@,
                    queue_mode,
                ),
                ..old(self).deep_view()
            }),
    {
        self.queue_modes.insert(zone_or_output_id.to_owned(), queue_mode);
        Some(())
    }

    /// Takes the queue mode of an id out and returns it.
    pub fn remove_queue_mode(&mut self, zone_or_output_id: &str) -> (r: Option<QueueMode>)
        ensures
            r == assoc_get(old(self).deep_view().queue_modes, zone_or_output_id@),
            final(self).deep_view() == (SettingsView {
                queue_modes: assoc_remove(old(self).deep_view().queue_modes, zone_or_output_id@),
                ..old(self).deep_view()
            }),
    {
        self.queue_modes.remove(zone_or_output_id)
    }

    /// Takes over what the form of the settings holds. Returns the end
    /// point to select and the queue action to take, where the form names an
    /// end point and a queue mode.
    pub fn update(&mut self, settings: ScratchPad) -> (r: Option<(EndPoint, Option<QueueAction>)>)
        ensures
            final(self).deep_view() == update_step(
                old(self).deep_view(),
                settings.deep_view(),
            ).0,
            r.deep_view() == update_step(old(self).deep_view(), settings.deep_view()).1,
    {
        self.zone_id = clone_opt_string(&settings.zone_id);
        let id = match settings.zone_id {
            Some(id) => id,
            None => {
                return None;
            },
        };
        let mode = match settings.queue_mode {
            Some(mode) => mode,
            None => {
                return None;
            },
        };
        let second = if id.as_str().unicode_len() > 1 {
            Some(id.as_str().get_char(1))
        } else {
            None
        };
        self.queue_modes.insert(id.clone(), mode);
        let end_point = match second {
            Some('6') => EndPoint::Zone(id),
            Some('7') => EndPoint::Output(id),
            _ => EndPoint::Preset(id),
        };
        Some((end_point, settings.queue_action))
    }

    /// Brings a form in line with the settings. Returns nothing where the
    /// form was to be brought in line and names no end point.
    pub fn sync(&self, settings: &mut ScratchPad) -> (r: Option<()>)
        ensures
            final(settings).deep_view() == sync_step(
                self.deep_view(),
                old(settings).deep_view(),
            ),
            r is None == (!old(settings).dirty && old(settings).deep_view().zone_id
                != self.deep_view().zone_id && old(settings).zone_id is None),
    {
        if !settings.dirty && !opt_str_eq(&settings.zone_id, &self.zone_id) {
            let mode = match &settings.zone_id {
                Some(id) => match self.queue_modes.get(id.as_str()) {
                    Some(mode) => *mode,
                    None => QueueMode::Manual,
                },
                None => {
                    return None;
                },
            };
            settings.queue_mode = Some(mode);
            settings.dirty = true;
        }
        Some(())
    }

    /// Builds the form for given values and a list of end points.
    pub fn make_layout(settings: ScratchPad, zone_list: &Vec<(EndPoint, String)>) -> (r: Layout)
        ensures
            r.deep_view() == layout_of(settings.deep_view(), zone_list.deep_view()),
    {
        let mut widgets: Vec<Widget> = Vec::new();
        let ghost expected = layout_widgets(settings.deep_view(), zone_list.deep_view());
        match &settings.zone_id {
            Some(zone_id) => {
                match find_named_zone(zone_list, zone_id.as_str()) {
                    Some(i) => {
                        widgets.push(zone_label_of(&zone_list[i]));
                    },
                    None => {},
                }
                widgets.push(zone_dropdown_of(zone_list));
                widgets.push(mode_dropdown_of(settings.profile.is_some()));
                let random = match settings.queue_mode {
                    Some(QueueMode::RandomAlbum) => true,
                    Some(QueueMode::RandomTrack) => true,
                    _ => false,
                };
                if settings.profile.is_some() && random {
                    widgets.push(action_dropdown_of());
                }
                assert(widgets.deep_view() =~= expected);
            },
            None => {
                widgets.push(zone_dropdown_of(zone_list));
                assert(widgets.deep_view() =~= expected);
            },
        }
        Layout { settings, widgets, has_error: false }
    }

    /// The form as it is to be shown: one that is being edited is brought
    /// in line with the settings first; without one, a fresh form is made.
    pub fn layout(&self, settings: Option<ScratchPad>) -> (r: Layout)
        ensures
            r.deep_view() == layout_of(
                match settings {
                    Some(pad) => sync_step(self.deep_view(), pad.deep_view()),
                    None => scratch_pad_of(self.deep_view()),
                },
                self.deep_view().zone_list,
            ),
    {
        let pad = match settings {
            Some(pad) => {
                let mut pad = pad;
                self.sync(&mut pad);
                pad
            },
            None => ScratchPad::from(self),
        };
        Self::make_layout(pad, &self.zone_list)
    }

    /// The id of the selected end point.
    pub fn get_zone_id(&self) -> (r: Option<String>)
        ensures
            r.deep_view() == self.deep_view().zone_id,
    {
        clone_opt_string(&self.zone_id)
    }

    /// Sets the id of the selected end point.
    pub fn set_zone_id(&mut self, zone_id: Option<String>)
        ensures
            final(self).deep_view() == (SettingsView {
                zone_id: zone_id.deep_view(),
                ..old(self).deep_view()
            }),
    {
        self.zone_id = zone_id;
    }

    /// The name of the selected profile.
    pub fn get_profile(&self) -> (r: Option<String>)
        ensures
            r.deep_view() == self.deep_view().profile,
    {
        clone_opt_string(&self.profile)
    }

    /// Sets the name of the selected profile.
    pub fn set_profile(&mut self, profile: Option<String>)
        ensures
            final(self).deep_view() == (SettingsView {
                profile: profile.deep_view(),
                ..old(self).deep_view()
            }),
    {
        self.profile = profile;
    }
}

} // verus!
