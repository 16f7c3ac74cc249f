//! The zones that the server reports: the list from which an end point is
//! picked, and how a set of outputs is brought together as one zone.

use vstd::prelude::*;
use crate::io::roon_settings::contains_id;
use crate::io::transport::{Output, OutputView, Zone, ZoneView};
use crate::io::{EndPoint, EndPointView};
use crate::seqs::{first_where, lemma_first_where_found, lemma_first_where_none};
use crate::sort::{lemma_sort_by_keys, sort_by_keys, sort_order};
use crate::strmap::{assoc_get, StrMap};
use crate::text::str_lt;
use crate::text::str_eq;

verus! {

/// Whether a zone realises a target grouping: both have the same number of
/// outputs and the same first output, and each output of the target is one
/// of the zone.
pub open spec fn matches_all(current: Seq<Seq<char>>, target: Seq<Seq<char>>) -> bool {
    &&& target.len() == current.len()
    &&& (target.len() > 0 ==> target[0] == current[0])
    &&& forall|i: int| 0 <= i < target.len() ==> current.contains(#[trigger] target[i])
}

/// Whether a zone holds an output of a target grouping.
pub open spec fn overlaps(current: Seq<Seq<char>>, target: Seq<Seq<char>>) -> bool {
    exists|i: int| 0 <= i < current.len() && target.contains(#[trigger] current[i])
}

/// What is to be done to bring a target grouping about.
#[derive(Clone, Copy, Debug, PartialEq, Eq, Structural)]
pub enum GroupingPlan {
    /// The zone at this position already is the grouping.
    Realized(usize),
    /// The zone at this position holds an output of the grouping among
    /// others, and is to be taken apart first.
    Ungroup(usize),
    /// The outputs are free and are to be grouped.
    Group,
    /// The target is a single output that stands alone: nothing to do.
    Nothing,
}

/// The plan as the zones from position `i` on decide it.
pub open spec fn plan_from(zones: Seq<(Seq<char>, ZoneView)>, target: Seq<Seq<char>>, i: int)
    -> GroupingPlan
    decreases zones.len() - i,
{
    if i >= zones.len() {
        if target.len() > 1 {
            GroupingPlan::Group
        } else {
            GroupingPlan::Nothing
        }
    } else {
        let current = zones[i].1.output_ids();
        if matches_all(current, target) {
            GroupingPlan::Realized(i as usize)
        } else if current.len() > 1 && overlaps(current, target) {
            GroupingPlan::Ungroup(i as usize)
        } else {
            plan_from(zones, target, i + 1)
        }
    }
}

/// The plan for a target grouping: the first zone that realises it or that
/// is in its way decides; where there is none, two or more outputs are
/// grouped.
pub open spec fn grouping_plan(zones: Seq<(Seq<char>, ZoneView)>, target: Seq<Seq<char>>)
    -> GroupingPlan {
    plan_from(zones, target, 0)
}

/// Whether no output belongs to two zones, or twice to one.
pub open spec fn outputs_disjoint(zones: Seq<(Seq<char>, ZoneView)>) -> bool {
    forall|i: int, j: int, a: int, b: int|
        #![trigger zones[i].1.outputs[a], zones[j].1.outputs[b]]
        0 <= i < zones.len() && 0 <= j < zones.len() && 0 <= a < zones[i].1.outputs.len() && 0
            <= b < zones[j].1.outputs.len() && zones[i].1.outputs[a].output_id
            == zones[j].1.outputs[b].output_id ==> i == j && a == b
}

/// A position named by a plan is a position of a zone.
pub proof fn lemma_plan_in_range(
    zones: Seq<(Seq<char>, ZoneView)>,
    target: Seq<Seq<char>>,
    i: int,
)
    requires
        0 <= i,
        zones.len() <= usize::MAX,
    ensures
        match plan_from(zones, target, i) {
            GroupingPlan::Realized(k) => i <= k < zones.len() && matches_all(
                zones[k as int].1.output_ids(),
                target,
            ),
            GroupingPlan::Ungroup(k) => i <= k < zones.len() && !matches_all(
                zones[k as int].1.output_ids(),
                target,
            ) && zones[k as int].1.outputs.len() > 1 && overlaps(
                zones[k as int].1.output_ids(),
                target,
            ),
            GroupingPlan::Group => target.len() > 1,
            GroupingPlan::Nothing => target.len() <= 1,
        },
    decreases zones.len() - i,
{
    if i < zones.len() {
        let current = zones[i].1.output_ids();
        if !matches_all(current, target) && !(current.len() > 1 && overlaps(current, target)) {
            lemma_plan_in_range(zones, target, i + 1);
        }
    }
}

/// Where no output belongs to two zones and the target is what a zone
/// holds, the grouping is found realised: nothing is grouped or taken
/// apart.
pub proof fn lemma_plan_realized(
    zones: Seq<(Seq<char>, ZoneView)>,
    target: Seq<Seq<char>>,
    k: int,
    i: int,
)
    requires
        0 <= i <= k < zones.len(),
        zones.len() <= usize::MAX,
        outputs_disjoint(zones),
        target.len() > 0,
        matches_all(zones[k].1.output_ids(), target),
    ensures
        plan_from(zones, target, i) is Realized,
    decreases k - i,
{
    let current = zones[i].1.output_ids();
    if !matches_all(current, target) {
        if i == k {
        } else {
            if overlaps(current, target) {
                let a = choose|a: int| 0 <= a < current.len() && target.contains(current[a]);
                let t = choose|t: int| 0 <= t < target.len() && target[t] == current[a];
                let there = zones[k].1.output_ids();
                assert(there.contains(target[t]));
                let b = choose|b: int| 0 <= b < there.len() && there[b] == target[t];
                assert(zones[i].1.outputs[a].output_id == zones[k].1.outputs[b].output_id);
            }
            lemma_plan_realized(zones, target, k, i + 1);
        }
    }
}

/// Whether each of `ids` is among `among`.
pub fn all_contained(ids: &Vec<String>, among: &Vec<String>) -> (r: bool)
    ensures
        r == forall|i: int|
            0 <= i < ids.len() ==> among.deep_view().contains(#[trigger] ids.deep_view()[i]),
{
    let mut i: usize = 0;
    while i < ids.len()
        invariant
            i <= ids.len(),
            forall|j: int|
                0 <= j < i ==> among.deep_view().contains(#[trigger] ids.deep_view()[j]),
        decreases ids.len() - i,
    {
        if !contains_id(among, ids[i].as_str()) {
            assert(!among.deep_view().contains(ids.deep_view()[i as int]));
            return false;
        }
        i += 1;
    }
    true
}

/// Whether one of `ids` is among `among`.
pub fn any_contained(ids: &Vec<String>, among: &Vec<String>) -> (r: bool)
    ensures
        r == overlaps(ids.deep_view(), among.deep_view()),
{
    let mut i: usize = 0;
    while i < ids.len()
        invariant
            i <= ids.len(),
            forall|j: int|
                0 <= j < i ==> !among.deep_view().contains(#[trigger] ids.deep_view()[j]),
        decreases ids.len() - i,
    {
        if contains_id(among, ids[i].as_str()) {
            assert(among.deep_view().contains(ids.deep_view()[i as int]));
            return true;
        }
        i += 1;
    }
    false
}

/// Whether a zone realises a target grouping.
pub fn zone_matches_all(current: &Vec<String>, target: &Vec<String>) -> (r: bool)
    ensures
        r == matches_all(current.deep_view(), target.deep_view()),
{
    if target.len() != current.len() {
        return false;
    }
    if target.len() > 0 && !str_eq(target[0].as_str(), current[0].as_str()) {
        return false;
    }
    all_contained(target, current)
}

/// Makes the plan for a target grouping.
pub fn plan_grouping(zones: &StrMap<Zone>, target: &Vec<String>) -> (r: GroupingPlan)
    ensures
        r == grouping_plan(zones.deep_view(), target.deep_view()),
        r matches GroupingPlan::Realized(k) ==> k < zones.deep_view().len(),
        r matches GroupingPlan::Ungroup(k) ==> k < zones.deep_view().len(),
{
    let n = zones.len();
    proof {
        lemma_plan_in_range(zones.deep_view(), target.deep_view(), 0);
    }
    let mut i: usize = 0;
    while i < n
        invariant
            i <= n,
            n == zones.deep_view().len(),
            grouping_plan(zones.deep_view(), target.deep_view()) == plan_from(
                zones.deep_view(),
                target.deep_view(),
                i as int,
            ),
        decreases n - i,
    {
        let current = zones.value_at(i).output_ids();
        if zone_matches_all(&current, target) {
            return GroupingPlan::Realized(i);
        }
        if current.len() > 1 && any_contained(&current, target) {
            return GroupingPlan::Ungroup(i);
        }
        i += 1;
    }
    if target.len() > 1 {
        GroupingPlan::Group
    } else {
        GroupingPlan::Nothing
    }
}

/// The entry of a zone in the list of end points: under the preset that it
/// is matched to, if it is matched, else as the zone. Each carries the
/// zone's own name.
pub open spec fn zone_entry(
    zone_id: Seq<char>,
    zone: ZoneView,
    matched: Seq<(Seq<char>, Seq<char>)>,
) -> (EndPointView, Seq<char>) {
    match assoc_get(matched, zone_id) {
        Some(preset) => (EndPointView::MatchedPreset((zone_id, preset)), zone.display_name),
        None => (EndPointView::Zone(zone_id), zone.display_name),
    }
}

/// The name under which an entry is shown and sorted: the preset of a
/// matched zone, else the entry's name.
pub open spec fn entry_key(entry: (EndPointView, Seq<char>)) -> Seq<char> {
    match entry.0 {
        EndPointView::MatchedPreset(pair) => pair.1,
        _ => entry.1,
    }
}

/// One entry per zone, in the order of the registry.
pub open spec fn zone_entries(
    zones: Seq<(Seq<char>, ZoneView)>,
    matched: Seq<(Seq<char>, Seq<char>)>,
) -> Seq<(EndPointView, Seq<char>)> {
    Seq::new(zones.len(), |i: int| zone_entry(zones[i].0, zones[i].1, matched))
}

/// The entries of the outputs of one zone.
pub open spec fn outputs_of(zone: ZoneView) -> Seq<(EndPointView, Seq<char>)> {
    Seq::new(
        zone.outputs.len(),
        |j: int| (EndPointView::Output(zone.outputs[j].output_id), zone.outputs[j].display_name),
    )
}

/// One entry per output of each zone that has more than one output.
pub open spec fn output_entries(zones: Seq<(Seq<char>, ZoneView)>) -> Seq<
    (EndPointView, Seq<char>),
>
    decreases zones.len(),
{
    if zones.len() == 0 {
        Seq::empty()
    } else {
        output_entries(zones.drop_last()) + (if zones.last().1.outputs.len() > 1 {
            outputs_of(zones.last().1)
        } else {
            Seq::empty()
        })
    }
}

/// Whether a zone is matched to the preset.
pub open spec fn is_matched(matched: Seq<(Seq<char>, Seq<char>)>, preset: Seq<char>) -> bool {
    exists|i: int| 0 <= i < matched.len() && (#[trigger] matched[i]).1 == preset
}

/// One entry per preset that no zone is matched to.
pub open spec fn preset_entries(names: Seq<Seq<char>>, matched: Seq<(Seq<char>, Seq<char>)>)
    -> Seq<(EndPointView, Seq<char>)>
    decreases names.len(),
{
    if names.len() == 0 {
        Seq::empty()
    } else {
        let rest = preset_entries(names.drop_last(), matched);
        if is_matched(matched, names.last()) {
            rest
        } else {
            rest.push((EndPointView::Preset(names.last()), names.last()))
        }
    }
}

/// The names under which entries are shown.
pub open spec fn entry_keys(entries: Seq<(EndPointView, Seq<char>)>) -> Seq<Seq<char>> {
    Seq::new(entries.len(), |i: int| entry_key(entries[i]))
}

/// Entries sorted by the names under which they are shown, entries of one
/// name in the order in which they came.
pub open spec fn sorted_entries(entries: Seq<(EndPointView, Seq<char>)>) -> Seq<
    (EndPointView, Seq<char>),
> {
    sort_by_keys(entries, entry_keys(entries))
}

/// What the list of end points is made of: an entry for each zone, for
/// each output of a zone with more than one output, and for each preset
/// that no zone is matched to.
pub open spec fn all_entries(
    zones: Seq<(Seq<char>, ZoneView)>,
    matched: Seq<(Seq<char>, Seq<char>)>,
    presets: Seq<Seq<char>>,
) -> Seq<(EndPointView, Seq<char>)> {
    zone_entries(zones, matched) + output_entries(zones) + preset_entries(presets, matched)
}

/// The entries with each one kept where it comes first, and left out where
/// it comes again.
pub open spec fn without_repeats(entries: Seq<(EndPointView, Seq<char>)>) -> Seq<
    (EndPointView, Seq<char>),
>
    decreases entries.len(),
{
    if entries.len() == 0 {
        Seq::empty()
    } else {
        let rest = without_repeats(entries.drop_last());
        if rest.contains(entries.last()) {
            rest
        } else {
            rest.push(entries.last())
        }
    }
}

/// Whether entries come by names that do not descend.
pub open spec fn sorted_by_name(entries: Seq<(EndPointView, Seq<char>)>) -> bool {
    forall|p: int, q: int|
        #![trigger entries[p], entries[q]]
        0 <= p < q < entries.len() ==> !str_lt(entry_key(entries[q]), entry_key(entries[p]))
}

/// The list from which an end point is picked: the zones, the outputs of
/// grouped zones and the presets that no zone is matched to, as one list
/// sorted by name, in which nothing comes twice.
pub open spec fn zone_list(
    zones: Seq<(Seq<char>, ZoneView)>,
    matched: Seq<(Seq<char>, Seq<char>)>,
    presets: Seq<Seq<char>>,
) -> Seq<(EndPointView, Seq<char>)> {
    without_repeats(sorted_entries(all_entries(zones, matched, presets)))
}

/// Sorted entries come by names that do not descend, and are the entries
/// that were sorted: as many, the same, and none twice where none came
/// twice.
pub proof fn lemma_sorted_entries(entries: Seq<(EndPointView, Seq<char>)>)
    requires
        entries.len() <= usize::MAX,
    ensures
        sorted_entries(entries).len() == entries.len(),
        forall|entry: (EndPointView, Seq<char>)|
            sorted_entries(entries).contains(entry) <==> entries.contains(entry),
        entries.no_duplicates() ==> sorted_entries(entries).no_duplicates(),
        sorted_by_name(sorted_entries(entries)),
{
    let keys = entry_keys(entries);
    let sorted = sorted_entries(entries);
    lemma_sort_by_keys(entries, keys);
    assert forall|p: int| 0 <= p < entries.len() implies entry_key(#[trigger] sorted[p])
        == sort_by_keys(keys, keys)[p] by {
        let i = choose|i: int|
            0 <= i < keys.len() && sort_by_keys(entries, keys)[p] == entries[i] && sort_by_keys(
                keys,
                keys,
            )[p] == keys[i];
        assert(keys[i] == entry_key(entries[i]));
    }
    assert forall|p: int, q: int|
        #![trigger sorted[p], sorted[q]]
        0 <= p < q < sorted.len() implies !str_lt(entry_key(sorted[q]), entry_key(sorted[p])) by {
        assert(!str_lt(sort_by_keys(keys, keys)[q], sort_by_keys(keys, keys)[p]));
    }
}

/// Leaving out what comes again keeps each entry once, keeps the order of
/// what stays, and so keeps a sorted list sorted.
pub proof fn lemma_without_repeats(entries: Seq<(EndPointView, Seq<char>)>)
    ensures
        without_repeats(entries).no_duplicates(),
        without_repeats(entries).len() <= entries.len(),
        forall|entry: (EndPointView, Seq<char>)|
            #[trigger] without_repeats(entries).contains(entry) ==> entries.contains(entry),
        forall|entry: (EndPointView, Seq<char>)|
            #[trigger] entries.contains(entry) ==> without_repeats(entries).contains(entry),
        sorted_by_name(entries) ==> sorted_by_name(without_repeats(entries)),
    decreases entries.len(),
{
    if entries.len() > 0 {
        let front = entries.drop_last();
        let last = entries.last();
        let rest = without_repeats(front);
        let kept = without_repeats(entries);
        lemma_without_repeats(front);
        assert forall|entry: (EndPointView, Seq<char>)| #[trigger]
            kept.contains(entry) implies entries.contains(entry) by {
            let p = choose|p: int| 0 <= p < kept.len() && kept[p] == entry;
            if p < rest.len() {
                assert(rest[p] == entry);
                assert(rest.contains(entry));
                assert(front.contains(entry));
                let i = choose|i: int| 0 <= i < front.len() && front[i] == entry;
                assert(entries[i] == entry);
            } else {
                assert(entries[entries.len() - 1] == entry);
            }
        }
        assert forall|entry: (EndPointView, Seq<char>)| #[trigger]
            entries.contains(entry) implies kept.contains(entry) by {
            let i = choose|i: int| 0 <= i < entries.len() && entries[i] == entry;
            if i < front.len() {
                assert(front[i] == entry);
                assert(front.contains(entry));
                assert(rest.contains(entry));
                let p = choose|p: int| 0 <= p < rest.len() && rest[p] == entry;
                assert(kept[p] == entry);
            } else if rest.contains(last) {
                let p = choose|p: int| 0 <= p < rest.len() && rest[p] == last;
                assert(kept[p] == entry);
            } else {
                assert(kept[kept.len() - 1] == entry);
            }
        }
        if sorted_by_name(entries) {
            assert(sorted_by_name(front)) by {
                assert forall|p: int, q: int|
                    #![trigger front[p], front[q]]
                    0 <= p < q < front.len() implies !str_lt(
                    entry_key(front[q]),
                    entry_key(front[p]),
                ) by {
                    assert(front[p] == entries[p] && front[q] == entries[q]);
                }
            }
            if !rest.contains(last) {
                assert forall|p: int, q: int|
                    #![trigger kept[p], kept[q]]
                    0 <= p < q < kept.len() implies !str_lt(
                    entry_key(kept[q]),
                    entry_key(kept[p]),
                ) by {
                    if q < rest.len() {
                        assert(kept[p] == rest[p] && kept[q] == rest[q]);
                    } else {
                        assert(kept[p] == rest[p]);
                        assert(rest.contains(rest[p]));
                        assert(front.contains(rest[p]));
                        let i = choose|i: int| 0 <= i < front.len() && front[i] == rest[p];
                        assert(entries[i] == front[i]);
                        assert(entries[entries.len() - 1] == kept[q]);
                    }
                }
            }
        }
    }
}

/// The list of end points is sorted by name and names nothing twice, and it
/// holds the entries that it is made of and no others.
pub proof fn lemma_zone_list(
    zones: Seq<(Seq<char>, ZoneView)>,
    matched: Seq<(Seq<char>, Seq<char>)>,
    presets: Seq<Seq<char>>,
)
    requires
        all_entries(zones, matched, presets).len() <= usize::MAX,
    ensures
        zone_list(zones, matched, presets).no_duplicates(),
        sorted_by_name(zone_list(zones, matched, presets)),
        forall|entry: (EndPointView, Seq<char>)|
            zone_list(zones, matched, presets).contains(entry) <==> all_entries(
                zones,
                matched,
                presets,
            ).contains(entry),
{
    let entries = all_entries(zones, matched, presets);
    lemma_sorted_entries(entries);
    lemma_without_repeats(sorted_entries(entries));
}

/// Whether two entries name the same end point under the same name.
pub fn entry_eq(a: &(EndPoint, String), b: &(EndPoint, String)) -> (r: bool)
    ensures
        r == (a.deep_view() == b.deep_view()),
{
    if !str_eq(a.1.as_str(), b.1.as_str()) {
        return false;
    }
    match (&a.0, &b.0) {
        (EndPoint::Zone(x), EndPoint::Zone(y)) => str_eq(x.as_str(), y.as_str()),
        (EndPoint::Output(x), EndPoint::Output(y)) => str_eq(x.as_str(), y.as_str()),
        (EndPoint::Preset(x), EndPoint::Preset(y)) => str_eq(x.as_str(), y.as_str()),
        (EndPoint::MatchedPreset(x), EndPoint::MatchedPreset(y)) => str_eq(
            x.0.as_str(),
            y.0.as_str(),
        ) && str_eq(x.1.as_str(), y.1.as_str()),
        _ => false,
    }
}

/// Whether the entries hold an entry.
pub fn holds_entry(entries: &Vec<(EndPoint, String)>, entry: &(EndPoint, String)) -> (r: bool)
    ensures
        r == entries.deep_view().contains(entry.deep_view()),
{
    let mut i: usize = 0;
    while i < entries.len()
        invariant
            i <= entries.len(),
            forall|j: int| 0 <= j < i ==> entries.deep_view()[j] != entry.deep_view(),
        decreases entries.len() - i,
    {
        if entry_eq(&entries[i], entry) {
            assert(entries.deep_view()[i as int] == entry.deep_view());
            return true;
        }
        i += 1;
    }
    false
}

/// Leaves out each entry that comes again.
pub fn drop_repeats(entries: &Vec<(EndPoint, String)>) -> (r: Vec<(EndPoint, String)>)
    ensures
        r.deep_view() == without_repeats(entries.deep_view()),
{
    let ghost all = entries.deep_view();
    let mut out: Vec<(EndPoint, String)> = Vec::new();
    let mut i: usize = 0;
    assert(all.take(0) =~= Seq::<(EndPointView, Seq<char>)>::empty());
    assert(out.deep_view() =~= without_repeats(all.take(0)));
    while i < entries.len()
        invariant
            i <= entries.len(),
            all == entries.deep_view(),
            out.deep_view() == without_repeats(all.take(i as int)),
        decreases entries.len() - i,
    {
        let ghost before = out.deep_view();
        assert(all.take(i + 1).drop_last() =~= all.take(i as int));
        assert(all.take(i + 1).last() == entries[i as int].deep_view());
        if !holds_entry(&out, &entries[i]) {
            out.push((entries[i].0.clone(), entries[i].1.clone()));
            assert(out.deep_view() =~= before.push(entries[i as int].deep_view()));
        }
        i += 1;
    }
    assert(all.take(entries.len() as int) =~= all);
    out
}

/// Sorts entries by the names under which they are shown.
pub fn sort_entries(entries: &Vec<(EndPoint, String)>) -> (r: Vec<(EndPoint, String)>)
    ensures
        r.deep_view() == sorted_entries(entries.deep_view()),
{
    let mut keys: Vec<String> = Vec::new();
    let mut i: usize = 0;
    while i < entries.len()
        invariant
            i <= entries.len(),
            keys.len() == i,
            forall|j: int| 0 <= j < i ==> keys[j]@ == entry_key(entries.deep_view()[j]),
        decreases entries.len() - i,
    {
        let key = match &entries[i].0 {
            EndPoint::MatchedPreset(pair) => pair.1.clone(),
            _ => entries[i].1.clone(),
        };
        keys.push(key);
        i += 1;
    }
    assert(keys.deep_view() =~= entry_keys(entries.deep_view()));
    let order = sort_order(&keys);
    let mut out: Vec<(EndPoint, String)> = Vec::new();
    let mut p: usize = 0;
    while p < order.len()
        invariant
            p <= order.len(),
            order.len() == entries.len(),
            crate::sort::is_stable_order(keys.deep_view(), order@, entries.len() as nat),
            out.len() == p,
            forall|q: int|
                0 <= q < p ==> out[q].deep_view() == entries[order[q] as int].deep_view(),
        decreases order.len() - p,
    {
        assert(order[p as int] < entries.len());
        out.push((entries[order[p]].0.clone(), entries[order[p]].1.clone()));
        p += 1;
    }
    assert(out.deep_view() =~= sorted_entries(entries.deep_view()));
    out
}

/// Whether a zone is matched to the preset.
pub fn preset_is_matched(matched: &StrMap<String>, preset: &str) -> (r: bool)
    ensures
        r == is_matched(matched.deep_view(), preset@),
{
    let n = matched.len();
    let mut i: usize = 0;
    while i < n
        invariant
            i <= n,
            n == matched.deep_view().len(),
            forall|j: int| 0 <= j < i ==> (#[trigger] matched.deep_view()[j]).1 != preset@,
        decreases n - i,
    {
        if str_eq(matched.value_at(i).as_str(), preset) {
            assert(matched.deep_view()[i as int].1 == preset@);
            return true;
        }
        i += 1;
    }
    false
}

/// Builds the list from which an end point is picked.
pub fn build_zone_list(zones: &StrMap<Zone>, matched: &StrMap<String>, presets: &Vec<String>)
    -> (r: Vec<(EndPoint, String)>)
    ensures
        r.deep_view() == zone_list(zones.deep_view(), matched.deep_view(), presets.deep_view()),
        r.deep_view().no_duplicates(),
        sorted_by_name(r.deep_view()),
        forall|entry: (EndPointView, Seq<char>)|
            r.deep_view().contains(entry) <==> all_entries(
                zones.deep_view(),
                matched.deep_view(),
                presets.deep_view(),
            ).contains(entry),
{
    let n = zones.len();
    let ghost zv = zones.deep_view();
    let ghost mv = matched.deep_view();
    let mut zone_part: Vec<(EndPoint, String)> = Vec::new();
    let mut output_part: Vec<(EndPoint, String)> = Vec::new();
    let mut i: usize = 0;
    assert(zv.take(0) =~= Seq::<(Seq<char>, ZoneView)>::empty());
    assert(output_part.deep_view() =~= output_entries(zv.take(0)));
    while i < n
        invariant
            i <= n,
            n == zv.len(),
            zv == zones.deep_view(),
            mv == matched.deep_view(),
            zone_part.len() == i,
            forall|j: int|
                0 <= j < i ==> zone_part[j].deep_view() == zone_entry(zv[j].0, zv[j].1, mv),
            output_part.deep_view() == output_entries(zv.take(i as int)),
        decreases n - i,
    {
        let zone_id = zones.key_at(i);
        let zone = zones.value_at(i);
        let end_point = match matched.get(zone_id.as_str()) {
            Some(preset) => EndPoint::MatchedPreset((zone_id.clone(), preset.clone())),
            None => EndPoint::Zone(zone_id.clone()),
        };
        zone_part.push((end_point, zone.display_name.clone()));
        let ghost before = output_part.deep_view();
        assert(zv.take(i + 1).drop_last() =~= zv.take(i as int));
        assert(zv.take(i + 1).last() == zv[i as int]);
        if zone.outputs.len() > 1 {
            let mut j: usize = 0;
            while j < zone.outputs.len()
                invariant
                    j <= zone.outputs.len(),
                    output_part.len() == before.len() + j,
                    forall|k: int|
                        0 <= k < before.len() ==> output_part[k].deep_view() == before[k],
                    forall|k: int|
                        0 <= k < j ==> output_part[before.len() + k].deep_view() == outputs_of(
                            zone.deep_view(),
                        )[k],
                decreases zone.outputs.len() - j,
            {
                output_part.push(
                    (
                        EndPoint::Output(zone.outputs[j].output_id.clone()),
                        zone.outputs[j].display_name.clone(),
                    ),
                );
                j += 1;
            }
            assert(output_part.deep_view() =~= before + outputs_of(zone.deep_view()));
        } else {
            assert(before + Seq::<(EndPointView, Seq<char>)>::empty() =~= before);
        }
        i += 1;
    }
    assert(zv.take(n as int) =~= zv);
    assert(zone_part.deep_view() =~= zone_entries(zv, mv));
    let mut preset_part: Vec<(EndPoint, String)> = Vec::new();
    let ghost pv = presets.deep_view();
    let mut k: usize = 0;
    assert(pv.take(0) =~= Seq::<Seq<char>>::empty());
    assert(preset_part.deep_view() =~= preset_entries(pv.take(0), mv));
    while k < presets.len()
        invariant
            k <= presets.len(),
            pv == presets.deep_view(),
            mv == matched.deep_view(),
            preset_part.deep_view() == preset_entries(pv.take(k as int), mv),
        decreases presets.len() - k,
    {
        let ghost before = preset_part.deep_view();
        assert(pv.take(k + 1).drop_last() =~= pv.take(k as int));
        assert(pv.take(k + 1).last() == presets[k as int]@);
        if !preset_is_matched(matched, presets[k].as_str()) {
            preset_part.push((EndPoint::Preset(presets[k].clone()), presets[k].clone()));
            assert(preset_part.deep_view() =~= before.push(
                (EndPointView::Preset(presets[k as int]@), presets[k as int]@),
            ));
        }
        k += 1;
    }
    assert(pv.take(presets.len() as int) =~= pv);
    let mut entries = zone_part;
    let ghost a = entries.deep_view();
    let ghost b = output_part.deep_view();
    let ghost c = preset_part.deep_view();
    entries.append(&mut output_part);
    assert(entries.deep_view() =~= a + b);
    entries.append(&mut preset_part);
    assert(entries.deep_view() =~= a + b + c);
    assert(entries.deep_view().len() == entries.len());
    proof {
        lemma_zone_list(zv, mv, pv);
    }
    drop_repeats(&sort_entries(&entries))
}

/// Whether a list of candidates holds an output id.
pub open spec fn has_output(grouping: Seq<(Seq<char>, Seq<char>, bool)>, id: Seq<char>) -> bool {
    exists|i: int| 0 <= i < grouping.len() && (#[trigger] grouping[i]).0 == id
}

/// The outputs of a zone as candidates that are part of the group.
pub open spec fn members(zone: ZoneView) -> Seq<(Seq<char>, Seq<char>, bool)> {
    Seq::new(
        zone.outputs.len(),
        |i: int| (zone.outputs[i].output_id, zone.outputs[i].display_name, true),
    )
}

/// The candidates with those of `outputs` added, as not part of the group,
/// that can be grouped and are not yet listed.
pub open spec fn add_groupable(
    grouping: Seq<(Seq<char>, Seq<char>, bool)>,
    can_group_with: Seq<Seq<char>>,
    outputs: Seq<OutputView>,
) -> Seq<(Seq<char>, Seq<char>, bool)>
    decreases outputs.len(),
{
    if outputs.len() == 0 {
        grouping
    } else {
        let output = outputs[0];
        let next = if can_group_with.contains(output.output_id) && !has_output(
            grouping,
            output.output_id,
        ) {
            grouping.push((output.output_id, output.display_name, false))
        } else {
            grouping
        };
        add_groupable(next, can_group_with, outputs.drop_first())
    }
}

/// The candidates for grouping with a zone: its own outputs, then every
/// other output that its first output can be grouped with. Nothing for no
/// zone or a zone without outputs.
pub open spec fn grouping_of(zone: Option<ZoneView>, outputs: Seq<OutputView>) -> Option<
    Seq<(Seq<char>, Seq<char>, bool)>,
> {
    match zone {
        Some(zone) => if zone.outputs.len() == 0 {
            None
        } else {
            Some(
                add_groupable(
                    members(zone),
                    zone.outputs[0].can_group_with_output_ids,
                    outputs,
                ),
            )
        },
        None => None,
    }
}

/// Lists the candidates for grouping with a zone.
pub fn get_grouping(zone: Option<&Zone>, outputs: &Vec<Output>) -> (r: Option<
    Vec<(String, String, bool)>,
>)
    ensures
        r.deep_view() == grouping_of(zone.deep_view(), outputs.deep_view()),
{
    let zone = match zone {
        Some(zone) => zone,
        None => {
            return None;
        },
    };
    if zone.outputs.len() == 0 {
        return None;
    }
    let mut grouping: Vec<(String, String, bool)> = Vec::new();
    let mut i: usize = 0;
    while i < zone.outputs.len()
        invariant
            i <= zone.outputs.len(),
            grouping.len() == i,
            forall|j: int| 0 <= j < i ==> grouping[j].deep_view() == members(zone.deep_view())[j],
        decreases zone.outputs.len() - i,
    {
        grouping.push(
            (zone.outputs[i].output_id.clone(), zone.outputs[i].display_name.clone(), true),
        );
        i += 1;
    }
    assert(grouping.deep_view() =~= members(zone.deep_view()));
    let can_group_with = &zone.outputs[0].can_group_with_output_ids;
    let ghost can = can_group_with.deep_view();
    let ghost all = outputs.deep_view();
    let ghost start = grouping.deep_view();
    let mut k: usize = 0;
    assert(all.skip(0) =~= all);
    while k < outputs.len()
        invariant
            k <= outputs.len(),
            all == outputs.deep_view(),
            can == can_group_with.deep_view(),
            add_groupable(start, can, all) == add_groupable(
                grouping.deep_view(),
                can,
                all.skip(k as int),
            ),
        decreases outputs.len() - k,
    {
        let ghost rest = all.skip(k as int);
        let ghost before = grouping.deep_view();
        assert(rest[0] == outputs[k as int].deep_view());
        assert(rest.drop_first() =~= all.skip(k + 1));
        let output = &outputs[k];
        if contains_id(can_group_with, output.output_id.as_str()) {
            let mut listed = false;
            let mut m: usize = 0;
            while m < grouping.len()
                invariant
                    m <= grouping.len(),
                    before == grouping.deep_view(),
                    listed == exists|j: int|
                        0 <= j < m && (#[trigger] before[j]).0 == output.output_id@,
                decreases grouping.len() - m,
            {
                if str_eq(grouping[m].0.as_str(), output.output_id.as_str()) {
                    assert(before[m as int].0 == output.output_id@);
                    listed = true;
                }
                m += 1;
            }
            if !listed {
                grouping.push((output.output_id.clone(), output.display_name.clone(), false));
                assert(grouping.deep_view() =~= before.push(
                    (output.output_id@, output.display_name@, false),
                ));
            }
        }
        k += 1;
    }
    assert(all.skip(outputs.len() as int).len() == 0);
    Some(grouping)
}

/// How many of the ids are among `among`.
pub open spec fn count_in(ids: Seq<Seq<char>>, among: Seq<Seq<char>>) -> nat
    decreases ids.len(),
{
    if ids.len() == 0 {
        0
    } else {
        count_in(ids.drop_last(), among) + (if among.contains(ids.last()) {
            1nat
        } else {
            0nat
        })
    }
}

/// Whether a zone is the one that a pending grouping was to bring about:
/// it has as many outputs as there are pending ids, and each of its outputs
/// is among the pending ids.
pub open spec fn resolves(zone: ZoneView, pending: Seq<Seq<char>>) -> bool {
    zone.outputs.len() == pending.len() && count_in(zone.output_ids(), pending)
        == pending.len()
}

/// The first reported zone that a pending grouping was to bring about.
pub open spec fn resolving_zone(zones: Seq<ZoneView>, pending: Seq<Seq<char>>) -> Option<int> {
    first_where(zones, |zone: ZoneView| resolves(zone, pending))
}

/// Whether the first output of a zone is the one with the id.
pub open spec fn starts_with_output(zone: ZoneView, output_id: Seq<char>) -> bool {
    zone.outputs.len() > 0 && zone.outputs[0].output_id == output_id
}

/// The first reported zone whose first output is the one with the id.
pub open spec fn zone_of_first_output(zones: Seq<ZoneView>, output_id: Seq<char>) -> Option<
    int,
> {
    first_where(zones, |zone: ZoneView| starts_with_output(zone, output_id))
}

/// The first zone of the registry that holds the output.
pub open spec fn zone_with_output(zones: Seq<(Seq<char>, ZoneView)>, output_id: Seq<char>)
    -> Option<int> {
    first_where(
        zones,
        |entry: (Seq<char>, ZoneView)| entry.1.output_ids().contains(output_id),
    )
}

/// Counts the ids that are among `among`.
pub fn count_contained(ids: &Vec<String>, among: &Vec<String>) -> (r: usize)
    ensures
        r == count_in(ids.deep_view(), among.deep_view()),
{
    let ghost all = ids.deep_view();
    let mut count: usize = 0;
    let mut i: usize = 0;
    assert(all.take(0) =~= Seq::<Seq<char>>::empty());
    while i < ids.len()
        invariant
            i <= ids.len(),
            all == ids.deep_view(),
            count <= i,
            count == count_in(all.take(i as int), among.deep_view()),
        decreases ids.len() - i,
    {
        assert(all.take(i + 1).drop_last() =~= all.take(i as int));
        assert(all.take(i + 1).last() == ids[i as int]@);
        if contains_id(among, ids[i].as_str()) {
            count += 1;
        }
        i += 1;
    }
    assert(all.take(ids.len() as int) =~= all);
    count
}

/// Finds the first reported zone that a pending grouping was to bring
/// about.
pub fn find_resolving_zone(zones: &Vec<Zone>, pending: &Vec<String>) -> (r: Option<usize>)
    ensures
        match r {
            Some(i) => i < zones.len() && resolving_zone(zones.deep_view(), pending.deep_view())
                == Some(i as int),
            None => resolving_zone(zones.deep_view(), pending.deep_view()) is None,
        },
{
    let ghost p = |zone: ZoneView| resolves(zone, pending.deep_view());
    let mut i: usize = 0;
    while i < zones.len()
        invariant
            i <= zones.len(),
            p == |zone: ZoneView| resolves(zone, pending.deep_view()),
            forall|j: int| 0 <= j < i ==> !p(#[trigger] zones.deep_view()[j]),
        decreases zones.len() - i,
    {
        let ids = zones[i].output_ids();
        assert(pending.deep_view().len() == pending.len());
        assert(ids.deep_view().len() == ids.len());
        if ids.len() == pending.len() && count_contained(&ids, pending) == pending.len() {
            proof {
                assert(p(zones.deep_view()[i as int]));
                lemma_first_where_found(zones.deep_view(), p, i as int);
            }
            return Some(i);
        }
        assert(!p(zones.deep_view()[i as int]));
        i += 1;
    }
    proof {
        lemma_first_where_none(zones.deep_view(), p);
    }
    None
}

/// Finds the first reported zone whose first output is the one with the id.
pub fn find_zone_of_first_output(zones: &Vec<Zone>, output_id: &str) -> (r: Option<usize>)
    ensures
        match r {
            Some(i) => i < zones.len() && zone_of_first_output(zones.deep_view(), output_id@)
                == Some(i as int),
            None => zone_of_first_output(zones.deep_view(), output_id@) is None,
        },
{
    let ghost p = |zone: ZoneView| starts_with_output(zone, output_id@);
    let mut i: usize = 0;
    while i < zones.len()
        invariant
            i <= zones.len(),
            p == |zone: ZoneView| starts_with_output(zone, output_id@),
            forall|j: int| 0 <= j < i ==> !p(#[trigger] zones.deep_view()[j]),
        decreases zones.len() - i,
    {
        assert(zones.deep_view()[i as int].outputs.len() == zones[i as int].outputs.len());
        if zones[i].outputs.len() > 0 && str_eq(
            zones[i].outputs[0].output_id.as_str(),
            output_id,
        ) {
            proof {
                assert(zones.deep_view()[i as int].outputs[0].output_id == output_id@);
                assert(p(zones.deep_view()[i as int]));
                lemma_first_where_found(zones.deep_view(), p, i as int);
            }
            return Some(i);
        }
        proof {
            if zones[i as int].outputs.len() > 0 {
                assert(zones.deep_view()[i as int].outputs[0].output_id
                    == zones[i as int].outputs[0].output_id@);
            }
            assert(!p(zones.deep_view()[i as int]));
        }
        i += 1;
    }
    proof {
        lemma_first_where_none(zones.deep_view(), p);
    }
    None
}

/// Finds the first zone of the registry that holds the output.
pub fn find_zone_with_output(zones: &StrMap<Zone>, output_id: &str) -> (r: Option<usize>)
    ensures
        match r {
            Some(i) => i < zones.deep_view().len() && zone_with_output(
                zones.deep_view(),
                output_id@,
            ) == Some(i as int),
            None => zone_with_output(zones.deep_view(), output_id@) is None,
        },
{
    let ghost p = |entry: (Seq<char>, ZoneView)| entry.1.output_ids().contains(output_id@);
    let n = zones.len();
    let mut i: usize = 0;
    while i < n
        invariant
            i <= n,
            n == zones.deep_view().len(),
            p == |entry: (Seq<char>, ZoneView)| entry.1.output_ids().contains(output_id@),
            forall|j: int| 0 <= j < i ==> !p(#[trigger] zones.deep_view()[j]),
        decreases n - i,
    {
        let ids = zones.value_at(i).output_ids();
        if contains_id(&ids, output_id) {
            proof {
                assert(p(zones.deep_view()[i as int]));
                lemma_first_where_found(zones.deep_view(), p, i as int);
            }
            return Some(i);
        }
        assert(!p(zones.deep_view()[i as int]));
        i += 1;
    }
    proof {
        lemma_first_where_none(zones.deep_view(), p);
    }
    None
}

} // verus!
