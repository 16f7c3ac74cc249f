//! Navigation in the server's content browser: one session that the user
//! steers, and short sessions that follow a script on their own.

use rand::Rng;
use vstd::prelude::*;
use vstd::string::*;
use crate::io::browse::{Action, BrowseItem, BrowseItemView, BrowseList, BrowseListView, BrowseOpts, BrowseOptsView, BrowseResult, LoadOpts, LoadOptsView, LoadResult, LoadResultView};
use crate::io::roon_settings::{QueueAction, RoonSettings, SettingsView};
use crate::io::{clone_opt_string, clone_strings, emit, send, Command, CommandView, IoEvent, IoEventView, Parsed, ParsedView, QueueMode};
use crate::strmap::{assoc_get, assoc_insert, assoc_remove, StrMap};
use crate::text::str_eq;

verus! {

/// The key of the session that the user steers.
pub open spec fn primary_key() -> Seq<char> {
    "tui_browse"@
}

/// The first position of an item with the title.
pub open spec fn find_title(items: Seq<BrowseItemView>, title: Seq<char>) -> Option<int>
    decreases items.len(),
{
    if items.len() == 0 {
        None
    } else if items[0].title == title {
        Some(0)
    } else {
        match find_title(items.drop_first(), title) {
            Some(i) => Some(i + 1),
            None => None,
        }
    }
}

/// `find_title` finds the least position of an item with the title, and
/// nothing exactly where no item has it.
pub proof fn lemma_find_title(items: Seq<BrowseItemView>, title: Seq<char>)
    ensures
        match find_title(items, title) {
            Some(i) => 0 <= i < items.len() && items[i].title == title && forall|j: int|
                0 <= j < i ==> items[j].title != title,
            None => forall|j: int| 0 <= j < items.len() ==> items[j].title != title,
        },
    decreases items.len(),
{
    if items.len() > 0 && items[0].title != title {
        lemma_find_title(items.drop_first(), title);
        match find_title(items.drop_first(), title) {
            Some(i) => {
                assert forall|j: int| 0 <= j < i + 1 implies items[j].title != title by {
                    if j > 0 {
                        assert(items.drop_first()[j - 1] == items[j]);
                    }
                }
            },
            None => {
                assert forall|j: int| 0 <= j < items.len() implies items[j].title != title by {
                    if j > 0 {
                        assert(items.drop_first()[j - 1] == items[j]);
                    }
                }
            },
        }
    }
}

/// The item that a step of a script selects: a step with a title selects
/// the first item of that title; an empty step selects the item named like
/// the profile in a list of profiles, and the first item in any other list.
pub open spec fn pick_item(
    items: Seq<BrowseItemView>,
    list_title: Seq<char>,
    step: Seq<char>,
    profile: Option<Seq<char>>,
) -> Option<int> {
    if step.len() == 0 {
        if list_title == "Profile"@ {
            match profile {
                Some(name) => find_title(items, name),
                None => None,
            }
        } else if items.len() > 0 {
            Some(0)
        } else {
            None
        }
    } else {
        find_title(items, step)
    }
}

/// The profiles of a list: key and title of each item that has a key.
pub open spec fn profiles_of(items: Seq<BrowseItemView>) -> Seq<(Seq<char>, Seq<char>)>
    decreases items.len(),
{
    if items.len() == 0 {
        Seq::empty()
    } else {
        let rest = profiles_of(items.drop_last());
        match items.last().item_key {
            Some(key) => rest.push((key, items.last().title)),
            None => rest,
        }
    }
}

/// The title of the first profile with the key.
pub open spec fn profile_title(profiles: Seq<(Seq<char>, Seq<char>)>, key: Seq<char>) -> Option<
    Seq<char>,
>
    decreases profiles.len(),
{
    if profiles.len() == 0 {
        None
    } else if profiles[0].0 == key {
        Some(profiles[0].1)
    } else {
        profile_title(profiles.drop_first(), key)
    }
}

/// The name of the profile that an item key stands for.
pub open spec fn profile_name(
    profiles: Option<Seq<(Seq<char>, Seq<char>)>>,
    item_key: Option<Seq<char>>,
) -> Option<Seq<char>> {
    match (profiles, item_key) {
        (Some(profiles), Some(key)) => profile_title(profiles, key),
        _ => None,
    }
}

/// The script that leads to the profile of a zone.
pub open spec fn profile_script() -> Seq<Seq<char>> {
    seq![""@, "Profile"@, "Settings"@]
}

/// The label of a queue action in the browser.
pub open spec fn action_label(action: QueueAction) -> Seq<char> {
    match action {
        QueueAction::PlayNow => "Play Now"@,
        QueueAction::AddNext => "Add Next"@,
        QueueAction::Queue => "Queue"@,
    }
}

/// The script that plays or queues an album picked at random.
pub open spec fn album_script(action: QueueAction) -> Seq<Seq<char>> {
    seq![action_label(action), "Play Album"@, ""@, "Albums"@, "Library"@]
}

/// The script that plays or queues a track picked at random.
pub open spec fn track_script(action: QueueAction) -> Seq<Seq<char>> {
    seq![action_label(action), ""@, "Tracks"@, "Library"@]
}

/// The model of `RoonBrowse`: a string by its characters, a list by the
/// sequence of its items.
pub struct RoonBrowseView {
    pub browse_reached_home: bool,
    pub browse_paths: Seq<(Seq<char>, Seq<Seq<char>>)>,
    pub profiles: Option<Seq<(Seq<char>, Seq<char>)>>,
    pub opts: BrowseOptsView,
}

impl RoonBrowseView {
    /// The first request of the user's session: to its top level.
    pub open spec fn first_opts() -> BrowseOptsView {
        BrowseOptsView { pop_all: true, ..BrowseOptsView::of_session(primary_key()) }
    }

    /// The navigator before any answer.
    pub open spec fn initial() -> RoonBrowseView {
        RoonBrowseView {
            browse_reached_home: false,
            browse_paths: Seq::empty(),
            profiles: None,
            opts: Self::first_opts(),
        }
    }

    /// The request of the user's session with its navigation fields cleared.
    pub open spec fn cleared(self) -> BrowseOptsView {
        BrowseOptsView {
            item_key: None,
            pop_all: false,
            pop_levels: None,
            refresh_list: false,
            ..self.opts
        }
    }

    /// The navigator with the request of the user's session set to go to
    /// the top level.
    pub open spec fn at_home(self) -> RoonBrowseView {
        RoonBrowseView { opts: BrowseOptsView { pop_all: true, ..self.opts }, ..self }
    }

    /// A scripted session started for a zone.
    pub open spec fn with_script(self, zone_id: Seq<char>, script: Seq<Seq<char>>)
        -> RoonBrowseView {
        RoonBrowseView {
            browse_paths: assoc_insert(self.browse_paths, zone_id, script),
            ..self
        }
    }
}

/// Whether a list is one from which a random item is taken.
pub open spec fn is_random_list(list: BrowseListView) -> bool {
    list.title == "Albums"@ || list.title == "Tracks"@
}

/// Whether the answer to a pushed event takes a random pick, and below which
/// bound.
pub open spec fn pick_bound(parsed: ParsedView) -> Option<usize> {
    match parsed {
        ParsedView::BrowseResult(result, Some(key)) => if result.action == Action::List
            && result.list is Some && key != primary_key() && is_random_list(result.list->0)
            && result.list->0.count > 0 {
            Some(result.list->0.count)
        } else {
            None
        },
        _ => None,
    }
}

/// The requests that follow a list answer: the user's session announces the
/// title and loads from where the list was left; a scripted session loads
/// one item at `pick` from a list of albums or tracks that is not empty, and
/// loads from the start of any other list.
pub open spec fn on_list(list: BrowseListView, key: Seq<char>, pick: usize) -> Seq<CommandView> {
    if key == primary_key() {
        let offset = match list.display_offset {
            Some(offset) => offset,
            None => 0usize,
        };
        seq![
            CommandView::Send(IoEventView::BrowseTitle(list.title)),
            CommandView::Load(LoadOptsView::at(offset, None, Some(key))),
        ]
    } else if is_random_list(list) {
        if list.count > 0 {
            seq![CommandView::Load(LoadOptsView::at(pick, Some(1usize), Some(key)))]
        } else {
            Seq::empty()
        }
    } else {
        seq![CommandView::Load(LoadOptsView::at(0usize, None, Some(key)))]
    }
}

/// Whether a browse result reports that no zone is configured.
pub open spec fn is_zone_error(is_error: Option<bool>, message: Option<Seq<char>>) -> bool {
    is_error == Some(true) && message == Some("Zone is not configured"@)
}

/// What a run of items of the user's session leads to: a request for the
/// next run where the list goes on, then the items for the user interface.
pub open spec fn on_primary_load(s: RoonBrowseView, result: LoadResultView, key: Seq<char>) -> (
    RoonBrowseView,
    Seq<CommandView>,
) {
    let next = result.offset + result.items.len();
    let more = if next < result.list.count {
        seq![CommandView::Load(LoadOptsView::at(next as usize, None, Some(key)))]
    } else {
        Seq::empty()
    };
    (
        RoonBrowseView {
            profiles: if result.list.title == "Profile"@ {
                Some(profiles_of(result.items))
            } else {
                None
            },
            browse_reached_home: result.list.level == 0,
            ..s
        },
        more.push(CommandView::Send(IoEventView::BrowseList(result.offset, result.items))),
    )
}

/// The request that a scripted session makes for the item at `picked`.
pub open spec fn script_browse(result: LoadResultView, key: Seq<char>, picked: int)
    -> BrowseOptsView {
    BrowseOptsView {
        zone_or_output_id: Some(key),
        item_key: result.items[picked].item_key,
        ..BrowseOptsView::of_session(key)
    }
}

/// What a run of items of a scripted session leads to: the last step of the
/// script is taken off, the session ends where the script is used up, and
/// the item that the step selects is browsed into.
pub open spec fn on_script_load(
    s: RoonBrowseView,
    result: LoadResultView,
    key: Seq<char>,
    profile: Option<Seq<char>>,
) -> (RoonBrowseView, Seq<CommandView>) {
    match assoc_get(s.browse_paths, key) {
        Some(path) => if path.len() == 0 {
            (s, Seq::empty())
        } else {
            let step = path.last();
            let rest = path.drop_last();
            let paths = if rest.len() == 0 {
                assoc_remove(s.browse_paths, key)
            } else {
                assoc_insert(s.browse_paths, key, rest)
            };
            (
                RoonBrowseView { browse_paths: paths, ..s },
                match pick_item(result.items, result.list.title, step, profile) {
                    Some(i) => seq![CommandView::Browse(script_browse(result, key, i))],
                    None => Seq::empty(),
                },
            )
        },
        None => (s, Seq::empty()),
    }
}

/// The navigator and the requests after a pushed event. `pick` is the
/// position taken where a random item is asked for.
pub open spec fn msg_step(
    s: RoonBrowseView,
    parsed: ParsedView,
    profile: Option<Seq<char>>,
    no_active_zones: bool,
    pick: usize,
) -> (RoonBrowseView, Seq<CommandView>) {
    match parsed {
        ParsedView::BrowseResult(result, key) => match result.action {
            Action::List => match (result.list, key) {
                (Some(list), Some(key)) => (s, on_list(list, key, pick)),
                _ => (s, Seq::empty()),
            },
            Action::Message => if is_zone_error(result.is_error, result.message) {
                (
                    if no_active_zones {
                        RoonBrowseView {
                            opts: BrowseOptsView { item_key: None, ..s.opts },
                            ..s
                        }
                    } else {
                        s
                    },
                    seq![CommandView::Send(IoEventView::ZoneSelect)],
                )
            } else {
                (s, Seq::empty())
            },
            _ => (s, Seq::empty()),
        },
        ParsedView::LoadResult(result, key) => match key {
            Some(key) => if key == primary_key() {
                on_primary_load(s, result, key)
            } else {
                on_script_load(s, result, key, profile)
            },
            None => (s, Seq::empty()),
        },
        _ => (s, Seq::empty()),
    }
}

/// What a request of the user leads to: the navigator, the settings, whether
/// the settings changed, and the requests. The navigation fields of the
/// session's request are cleared first, so that at most the one that the
/// request asks for is set.
pub open spec fn io_step(s: RoonBrowseView, event: IoEventView, settings: SettingsView) -> (
    RoonBrowseView,
    SettingsView,
    bool,
    Seq<CommandView>,
) {
    let cleared = s.cleared();
    match event {
        IoEventView::BrowseSelected(item_key) => {
            let profile = profile_name(s.profiles, item_key);
            let opts = BrowseOptsView { item_key, ..cleared };
            let after = BrowseOptsView { input: None, ..opts };
            match (profile, settings.zone_id) {
                (Some(name), Some(zone_id)) => (
                    RoonBrowseView { opts: after, ..s.with_script(zone_id, profile_script()) },
                    SettingsView { profile: Some(name), ..settings },
                    true,
                    seq![
                        CommandView::Browse(BrowseOptsView::of_session(zone_id)),
                        CommandView::Browse(opts),
                    ],
                ),
                _ => (
                    RoonBrowseView { opts: after, ..s },
                    settings,
                    false,
                    seq![CommandView::Browse(opts)],
                ),
            }
        },
        IoEventView::BrowseBack => if s.browse_reached_home {
            (RoonBrowseView { opts: cleared, ..s }, settings, false, Seq::empty())
        } else {
            let opts = BrowseOptsView { pop_levels: Some(1u32), ..cleared };
            (RoonBrowseView { opts, ..s }, settings, false, seq![CommandView::Browse(opts)])
        },
        IoEventView::BrowseRefresh => {
            let opts = BrowseOptsView { refresh_list: true, ..cleared };
            (RoonBrowseView { opts, ..s }, settings, false, seq![CommandView::Browse(opts)])
        },
        IoEventView::BrowseHome => {
            let opts = BrowseOptsView { pop_all: true, ..cleared };
            (RoonBrowseView { opts, ..s }, settings, false, seq![CommandView::Browse(opts)])
        },
        IoEventView::BrowseInput(input) => {
            let opts = BrowseOptsView { input: Some(input), ..cleared };
            (RoonBrowseView { opts, ..s }, settings, false, seq![CommandView::Browse(opts)])
        },
        _ => (RoonBrowseView { opts: cleared, ..s }, settings, false, Seq::empty()),
    }
}

/// What starting the refill of a queue leads to: for the two random modes a
/// scripted session from the top level of the browser; for the others
/// nothing.
pub open spec fn queue_mode_step(
    s: RoonBrowseView,
    zone_id: Seq<char>,
    mode: QueueMode,
    action: QueueAction,
) -> (RoonBrowseView, Seq<CommandView>) {
    let opts = BrowseOptsView { pop_all: true, ..BrowseOptsView::of_session(zone_id) };
    match mode {
        QueueMode::RandomAlbum => (
            s.with_script(zone_id, album_script(action)),
            seq![CommandView::Browse(opts)],
        ),
        QueueMode::RandomTrack => (
            s.with_script(zone_id, track_script(action)),
            seq![CommandView::Browse(opts)],
        ),
        _ => (s, Seq::empty()),
    }
}

/// Of the requests that a request of the user leads to, each one of the
/// user's session sets at most one of its navigation fields.
pub proof fn lemma_navigation_exclusive(
    s: RoonBrowseView,
    event: IoEventView,
    settings: SettingsView,
    i: int,
)
    requires
        0 <= i < io_step(s, event, settings).3.len(),
    ensures
        io_step(s, event, settings).3[i] matches CommandView::Browse(opts)
            && opts.navigation_fields() <= 1,
{
}

/// Where a random pick is asked for, exactly one item is requested, at the
/// position picked.
pub proof fn lemma_random_load(
    s: RoonBrowseView,
    parsed: ParsedView,
    profile: Option<Seq<char>>,
    no_active_zones: bool,
    pick: usize,
)
    requires
        pick_bound(parsed) is Some,
    ensures
        parsed matches ParsedView::BrowseResult(_, Some(key)) && msg_step(
            s,
            parsed,
            profile,
            no_active_zones,
            pick,
        ) == (s, seq![CommandView::Load(LoadOptsView::at(pick, Some(1usize), Some(key)))]),
{
}

/// The requests of a scripted session over a sequence of runs of items,
/// each handled in the state that the one before it left.
pub open spec fn replay(
    s: RoonBrowseView,
    key: Seq<char>,
    results: Seq<LoadResultView>,
    profile: Option<Seq<char>>,
) -> (RoonBrowseView, Seq<CommandView>)
    decreases results.len(),
{
    if results.len() == 0 {
        (s, Seq::empty())
    } else {
        let first = on_script_load(s, results[0], key, profile);
        let rest = replay(first.0, key, results.drop_first(), profile);
        (rest.0, first.1 + rest.1)
    }
}

/// Whether each run of a sequence holds an item for the step of the script
/// that is its turn. The steps are taken from the end of the script.
pub open spec fn all_match(
    script: Seq<Seq<char>>,
    results: Seq<LoadResultView>,
    profile: Option<Seq<char>>,
) -> bool
    decreases results.len(),
{
    results.len() == 0 || (script.len() > 0 && pick_item(
        results[0].items,
        results[0].list.title,
        script.last(),
        profile,
    ) is Some && all_match(script.drop_last(), results.drop_first(), profile))
}

/// A scripted session comes to an end: over as many runs of items as its
/// script has steps, each with an item for its step, it makes exactly one
/// request per step and is then gone. Over fewer runs it is still there,
/// with the steps that are left.
pub proof fn lemma_replay_terminates(
    s: RoonBrowseView,
    key: Seq<char>,
    results: Seq<LoadResultView>,
    profile: Option<Seq<char>>,
)
    requires
        crate::strmap::keys_of(s.browse_paths).no_duplicates(),
        assoc_get(s.browse_paths, key) is Some,
        results.len() <= assoc_get(s.browse_paths, key)->0.len(),
        all_match(assoc_get(s.browse_paths, key)->0, results, profile),
    ensures
        replay(s, key, results, profile).1.len() == results.len(),
        forall|i: int|
            0 <= i < results.len() ==> #[trigger] replay(s, key, results, profile).1[i]
                is Browse,
        crate::strmap::keys_of(replay(s, key, results, profile).0.browse_paths).no_duplicates(),
        results.len() == assoc_get(s.browse_paths, key)->0.len() && results.len() > 0
            ==> assoc_get(replay(s, key, results, profile).0.browse_paths, key) is None,
        results.len() < assoc_get(s.browse_paths, key)->0.len() ==> assoc_get(
            replay(s, key, results, profile).0.browse_paths,
            key,
        ) == Some(
            assoc_get(s.browse_paths, key)->0.take(
                assoc_get(s.browse_paths, key)->0.len() - results.len(),
            ),
        ),
    decreases results.len(),
{
    let script = assoc_get(s.browse_paths, key)->0;
    if results.len() == 0 {
        assert(script.take(script.len() as int) =~= script);
    } else {
        let first = on_script_load(s, results[0], key, profile);
        let rest = script.drop_last();
        crate::strmap::lemma_assoc_insert(s.browse_paths, key, rest);
        crate::strmap::lemma_assoc_remove(s.browse_paths, key);
        if results.len() > 1 {
            lemma_replay_terminates(first.0, key, results.drop_first(), profile);
            let tail = replay(first.0, key, results.drop_first(), profile);
            assert(rest.take(rest.len() - (results.len() - 1)) =~= script.take(
                script.len() - results.len(),
            ));
        } else {
            assert(results.drop_first().len() == 0);
            assert(rest =~= script.take(script.len() - 1));
        }
    }
}

/// A number under `n`, picked at random.
///
/// Calls `gen_range` of the `rand` crate on the thread's generator with the
/// range from zero up to, not including, `n`. The range must not be empty.
/// All that is claimed of the result is that it lies in the range.
#[verifier::external_body]
fn random_below(n: usize) -> (r: usize)
    requires
        n > 0,
    ensures
        r < n,
{
    rand::thread_rng().gen_range(0..n)
}

/// The position of the first item with the title.
pub fn find_item(items: &Vec<BrowseItem>, title: &str) -> (r: Option<usize>)
    ensures
        match r {
            Some(i) => i < items.len() && find_title(items.deep_view(), title@) == Some(i as int),
            None => find_title(items.deep_view(), title@) is None,
        },
{
    let mut i: usize = 0;
    while i < items.len()
        invariant
            i <= items.len(),
            forall|j: int| 0 <= j < i ==> items.deep_view()[j].title != title@,
        decreases items.len() - i,
    {
        if str_eq(items[i].title.as_str(), title) {
            proof {
                assert(items.deep_view()[i as int].title == title@);
                lemma_find_title(items.deep_view(), title@);
            }
            return Some(i);
        }
        assert(items.deep_view()[i as int].title == items[i as int].title@);
        i += 1;
    }
    proof {
        lemma_find_title(items.deep_view(), title@);
    }
    None
}

/// The navigator of the content browser.
pub struct RoonBrowse {
    browse_reached_home: bool,
    browse_paths: StrMap<Vec<String>>,
    profiles: Option<Vec<(String, String)>>,
    opts: BrowseOpts,
}

impl DeepView for RoonBrowse {
    type V = RoonBrowseView;

    closed spec fn deep_view(&self) -> RoonBrowseView {
        RoonBrowseView {
            browse_reached_home: self.browse_reached_home,
            browse_paths: self.browse_paths.deep_view(),
            profiles: self.profiles.deep_view(),
            opts: self.opts.deep_view(),
        }
    }
}

impl RoonBrowse {
    /// A navigator, and the request that takes the user's session to the
    /// top level of the browser.
    pub fn new() -> (r: (RoonBrowse, Vec<Command>))
        ensures
            r.0.deep_view() == RoonBrowseView::initial(),
            r.1.deep_view() == seq![CommandView::Browse(RoonBrowseView::first_opts())],
            r.0.paths_distinct(),
    {
        let mut opts = BrowseOpts::default();
        opts.multi_session_key = Some("tui_browse".to_owned());
        opts.pop_all = true;
        let mut out: Vec<Command> = Vec::new();
        emit(&mut out, Command::Browse(opts.clone()));
        let browse = RoonBrowse {
            browse_reached_home: false,
            browse_paths: StrMap::new(),
            profiles: None,
            opts,
        };
        assert(out.deep_view() =~= seq![CommandView::Browse(RoonBrowseView::first_opts())]);
        (browse, out)
    }

    /// Whether no session key occurs twice among the scripted sessions. It
    /// holds of every navigator.
    pub open spec fn paths_distinct(&self) -> bool {
        crate::strmap::keys_of(self.deep_view().browse_paths).no_duplicates()
    }

    /// Handles a pushed event, taking a random position where one is asked
    /// for. Whatever was drawn, the navigator and the requests are those of
    /// `msg_step` for a position under the bound.
    pub fn handle_msg_event(
        &mut self,
        parsed: Parsed,
        profile: Option<&str>,
        no_active_zones: bool,
    ) -> (r: Vec<Command>)
        ensures
            exists|pick: usize|
                (pick_bound(parsed.deep_view()) matches Some(bound) ==> pick < bound) && (
                    final(self).deep_view(),
                    r.deep_view(),
                ) == #[trigger] msg_step(
                    old(self).deep_view(),
                    parsed.deep_view(),
                    profile.deep_view(),
                    no_active_zones,
                    pick,
                ),
            final(self).paths_distinct(),
    {
        let pick = Self::draw(&parsed);
        self.handle_msg_event_with(parsed, profile, no_active_zones, pick)
    }

    /// Draws the position for a pushed event that asks for a random item;
    /// zero for any other event. All that is known of a position drawn is
    /// that it lies under the bound.
    pub fn draw(parsed: &Parsed) -> (r: usize)
        ensures
            match pick_bound(parsed.deep_view()) {
                Some(bound) => r < bound,
                None => r == 0,
            },
    {
        match Self::random_bound(parsed) {
            Some(n) => random_below(n),
            None => 0,
        }
    }

    /// Below which bound the answer to a pushed event takes a random pick.
    pub fn random_bound(parsed: &Parsed) -> (r: Option<usize>)
        ensures
            r == pick_bound(parsed.deep_view()),
            r matches Some(n) ==> n > 0,
    {
        match parsed {
            Parsed::BrowseResult(result, Some(key)) => {
                match (&result.action, &result.list) {
                    (Action::List, Some(list)) => {
                        if !str_eq(key.as_str(), "tui_browse") && (str_eq(
                            list.title.as_str(),
                            "Albums",
                        ) || str_eq(list.title.as_str(), "Tracks")) && list.count > 0 {
                            Some(list.count)
                        } else {
                            None
                        }
                    },
                    _ => None,
                }
            },
            _ => None,
        }
    }

    /// Handles a pushed event. `pick` is the position taken where a random
    /// item is asked for.
    pub fn handle_msg_event_with(
        &mut self,
        parsed: Parsed,
        profile: Option<&str>,
        no_active_zones: bool,
        pick: usize,
    ) -> (r: Vec<Command>)
        ensures
            (final(self).deep_view(), r.deep_view()) == msg_step(
                old(self).deep_view(),
                parsed.deep_view(),
                profile.deep_view(),
                no_active_zones,
                pick,
            ),
            final(self).paths_distinct(),
    {
        let mut out: Vec<Command> = Vec::new();
        assert(out.deep_view() =~= Seq::<CommandView>::empty());
        let _sessions = self.browse_paths.len();
        match parsed {
            Parsed::BrowseResult(result, key) => {
                match result.action {
                    Action::List => {
                        match (result.list, key) {
                            (Some(list), Some(key)) => {
                                Self::handle_list(list, key, pick, &mut out);
                            },
                            _ => {},
                        }
                    },
                    Action::Message => {
                        let is_error = match result.is_error {
                            Some(flag) => flag,
                            None => false,
                        };
                        let matches = match &result.message {
                            Some(message) => str_eq(message.as_str(), "Zone is not configured"),
                            None => false,
                        };
                        if is_error && matches {
                            if no_active_zones {
                                self.opts.item_key = None;
                            }
                            send(&mut out, IoEvent::ZoneSelect);
                            assert(out.deep_view() =~= seq![
                                CommandView::Send(IoEventView::ZoneSelect),
                            ]);
                        }
                    },
                    _ => {},
                }
            },
            Parsed::LoadResult(result, key) => {
                match key {
                    Some(key) => {
                        if str_eq(key.as_str(), "tui_browse") {
                            self.handle_primary_load(result, key, &mut out);
                        } else {
                            self.handle_script_load(result, key, profile, &mut out);
                        }
                    },
                    None => {},
                }
            },
            _ => {},
        }
        out
    }

    fn handle_list(list: BrowseList, key: String, pick: usize, out: &mut Vec<Command>)
        requires
            old(out).deep_view() == Seq::<CommandView>::empty(),
        ensures
            final(out).deep_view() == on_list(list.deep_view(), key@, pick),
    {
        if str_eq(key.as_str(), "tui_browse") {
            let offset = match list.display_offset {
                Some(offset) => offset,
                None => 0,
            };
            send(out, IoEvent::BrowseTitle(list.title));
            emit(
                out,
                Command::Load(
                    LoadOpts {
                        offset,
                        set_display_offset: offset,
                        count: None,
                        multi_session_key: Some(key),
                    },
                ),
            );
            assert(out.deep_view() =~= on_list(list.deep_view(), key@, pick));
        } else if str_eq(list.title.as_str(), "Albums") || str_eq(list.title.as_str(), "Tracks") {
            if list.count > 0 {
                emit(
                    out,
                    Command::Load(
                        LoadOpts {
                            offset: pick,
                            set_display_offset: pick,
                            count: Some(1),
                            multi_session_key: Some(key),
                        },
                    ),
                );
                assert(out.deep_view() =~= on_list(list.deep_view(), key@, pick));
            }
        } else {
            emit(
                out,
                Command::Load(
                    LoadOpts {
                        offset: 0,
                        set_display_offset: 0,
                        count: None,
                        multi_session_key: Some(key),
                    },
                ),
            );
            assert(out.deep_view() =~= on_list(list.deep_view(), key@, pick));
        }
    }

    fn handle_primary_load(&mut self, result: LoadResult, key: String, out: &mut Vec<Command>)
        requires
            old(out).deep_view() == Seq::<CommandView>::empty(),
        ensures
            (final(self).deep_view(), final(out).deep_view()) == on_primary_load(
                old(self).deep_view(),
                result.deep_view(),
                key@,
            ),
            final(self).paths_distinct() == old(self).paths_distinct(),
    {
        let ghost view = result.deep_view();
        assert(view.items.len() == result.items.len());
        if result.offset < result.list.count && result.items.len() < result.list.count
            - result.offset {
            let next = result.offset + result.items.len();
            emit(
                out,
                Command::Load(
                    LoadOpts {
                        offset: next,
                        set_display_offset: next,
                        count: None,
                        multi_session_key: Some(key),
                    },
                ),
            );
        }
        self.profiles = if str_eq(result.list.title.as_str(), "Profile") {
            let mut profiles: Vec<(String, String)> = Vec::new();
            let mut i: usize = 0;
            assert(view.items.take(0) =~= Seq::<BrowseItemView>::empty());
            assert(profiles.deep_view() =~= Seq::<(Seq<char>, Seq<char>)>::empty());
            while i < result.items.len()
                invariant
                    i <= result.items.len(),
                    view.items == result.items.deep_view(),
                    profiles.deep_view() == profiles_of(view.items.take(i as int)),
                decreases result.items.len() - i,
            {
                let ghost before = profiles.deep_view();
                assert(view.items.take(i + 1).drop_last() =~= view.items.take(i as int));
                assert(view.items.take(i + 1).last() == result.items[i as int].deep_view());
                match &result.items[i].item_key {
                    Some(item_key) => {
                        profiles.push((item_key.clone(), result.items[i].title.clone()));
                        assert(profiles.deep_view() =~= before.push(
                            (item_key@, result.items[i as int].title@),
                        ));
                    },
                    None => {},
                }
                i += 1;
            }
            assert(view.items.take(i as int) =~= view.items);
            Some(profiles)
        } else {
            None
        };
        self.browse_reached_home = result.list.level == 0;
        send(out, IoEvent::BrowseList(result.offset, result.items));
    }

    fn handle_script_load(
        &mut self,
        result: LoadResult,
        key: String,
        profile: Option<&str>,
        out: &mut Vec<Command>,
    )
        requires
            old(out).deep_view() == Seq::<CommandView>::empty(),
        ensures
            (final(self).deep_view(), final(out).deep_view()) == on_script_load(
                old(self).deep_view(),
                result.deep_view(),
                key@,
                profile.deep_view(),
            ),
            final(self).paths_distinct(),
    {
        let _sessions = self.browse_paths.len();
        let mut path = match self.browse_paths.get(key.as_str()) {
            Some(path) => clone_strings(path),
            None => {
                return ;
            },
        };
        let ghost script = path.deep_view();
        let step = match path.pop() {
            Some(step) => step,
            None => {
                return ;
            },
        };
        assert(path.deep_view() =~= script.drop_last());
        assert(step@ == script.last());
        if path.len() == 0 {
            self.browse_paths.remove(key.as_str());
        } else {
            self.browse_paths.insert(key.clone(), path);
        }
        assert(result.deep_view().items.len() == result.items.len());
        let picked = if step.as_str().unicode_len() == 0 {
            if str_eq(result.list.title.as_str(), "Profile") {
                match profile {
                    Some(name) => find_item(&result.items, name),
                    None => None,
                }
            } else if result.items.len() > 0 {
                Some(0)
            } else {
                None
            }
        } else {
            find_item(&result.items, step.as_str())
        };
        match picked {
            Some(i) => {
                let opts = BrowseOpts {
                    multi_session_key: Some(key.clone()),
                    item_key: clone_opt_string(&result.items[i].item_key),
                    input: None,
                    zone_or_output_id: Some(key.clone()),
                    pop_all: false,
                    pop_levels: None,
                    refresh_list: false,
                };
                emit(out, Command::Browse(opts));
                assert(out.deep_view() =~= seq![
                    CommandView::Browse(script_browse(result.deep_view(), key@, i as int)),
                ]);
            },
            None => {},
        }
    }

    /// The name of the profile that an item key stands for.
    fn get_profile_name(&self, item_key: Option<&str>) -> (r: Option<String>)
        ensures
            r.deep_view() == profile_name(self.deep_view().profiles, item_key.deep_view()),
    {
        let profiles = match &self.profiles {
            Some(profiles) => profiles,
            None => {
                return None;
            },
        };
        let key = match item_key {
            Some(key) => key,
            None => {
                return None;
            },
        };
        let mut i: usize = 0;
        assert(profiles.deep_view().skip(0) =~= profiles.deep_view());
        while i < profiles.len()
            invariant
                i <= profiles.len(),
                self.deep_view().profiles == Some(profiles.deep_view()),
                item_key.deep_view() == Some(key@),
                profile_title(profiles.deep_view(), key@) == profile_title(
                    profiles.deep_view().skip(i as int),
                    key@,
                ),
            decreases profiles.len() - i,
        {
            let ghost rest = profiles.deep_view().skip(i as int);
            assert(rest[0] == profiles[i as int].deep_view());
            assert(rest.drop_first() =~= profiles.deep_view().skip(i + 1));
            if str_eq(profiles[i].0.as_str(), key) {
                return Some(profiles[i].1.clone());
            }
            i += 1;
        }
        assert(profiles.deep_view().skip(i as int).len() == 0);
        None
    }

    /// Handles a request of the user. Returns whether the settings changed,
    /// and the requests to make.
    pub fn handle_io_event(&mut self, io_event: IoEvent, settings: &mut RoonSettings) -> (r: (
        bool,
        Vec<Command>,
    ))
        ensures
            (final(self).deep_view(), final(settings).deep_view(), r.0, r.1.deep_view())
                == io_step(old(self).deep_view(), io_event.deep_view(), old(settings).deep_view()),
            final(self).paths_distinct(),
    {
        let mut has_changed = false;
        let mut out: Vec<Command> = Vec::new();
        assert(out.deep_view() =~= Seq::<CommandView>::empty());
        let _sessions = self.browse_paths.len();
        self.opts.item_key = None;
        self.opts.pop_all = false;
        self.opts.pop_levels = None;
        self.opts.refresh_list = false;
        let ghost cleared = self.opts.deep_view();
        match io_event {
            IoEvent::BrowseSelected(item_key) => {
                let key_ref: Option<&str> = match &item_key {
                    Some(key) => Some(key.as_str()),
                    None => None,
                };
                let profile = self.get_profile_name(key_ref);
                if profile.is_some() {
                    match settings.get_zone_id() {
                        Some(zone_id) => {
                            settings.set_profile(profile);
                            has_changed = true;
                            self.browse_profile(zone_id.as_str(), &mut out);
                        },
                        None => {},
                    }
                }
                self.opts.item_key = item_key;
                emit(&mut out, Command::Browse(self.opts.clone()));
                self.opts.input = None;
                assert(out.deep_view() =~= io_step(
                    old(self).deep_view(),
                    io_event.deep_view(),
                    old(settings).deep_view(),
                ).3);
            },
            IoEvent::BrowseBack => {
                if !self.browse_reached_home {
                    self.opts.pop_levels = Some(1);
                    emit(&mut out, Command::Browse(self.opts.clone()));
                    assert(out.deep_view() =~= seq![CommandView::Browse(self.opts.deep_view())]);
                }
            },
            IoEvent::BrowseRefresh => {
                self.opts.refresh_list = true;
                emit(&mut out, Command::Browse(self.opts.clone()));
                assert(out.deep_view() =~= seq![CommandView::Browse(self.opts.deep_view())]);
            },
            IoEvent::BrowseHome => {
                self.opts.pop_all = true;
                emit(&mut out, Command::Browse(self.opts.clone()));
                assert(out.deep_view() =~= seq![CommandView::Browse(self.opts.deep_view())]);
            },
            IoEvent::BrowseInput(input) => {
                self.opts.input = Some(input);
                emit(&mut out, Command::Browse(self.opts.clone()));
                assert(out.deep_view() =~= seq![CommandView::Browse(self.opts.deep_view())]);
            },
            _ => {},
        }
        (has_changed, out)
    }

    /// Sets the zone or output that the requests of the user's session name.
    pub fn set_zone_id(&mut self, zone_id: Option<String>)
        ensures
            final(self).deep_view() == (RoonBrowseView {
                opts: BrowseOptsView {
                    zone_or_output_id: zone_id.deep_view(),
                    ..old(self).deep_view().opts
                },
                ..old(self).deep_view()
            }),
            final(self).paths_distinct(),
    {
        let _sessions = self.browse_paths.len();
        self.opts.zone_or_output_id = zone_id;
    }

    /// Clears the navigation fields of the request of the user's session.
    pub fn clear_navigation(&mut self)
        ensures
            final(self).deep_view() == (RoonBrowseView {
                opts: old(self).deep_view().cleared(),
                ..old(self).deep_view()
            }),
            final(self).paths_distinct(),
    {
        let _sessions = self.browse_paths.len();
        self.opts.item_key = None;
        self.opts.pop_all = false;
        self.opts.pop_levels = None;
        self.opts.refresh_list = false;
    }

    /// Takes the user's session to the top level of the browser.
    pub fn go_home(&mut self, out: &mut Vec<Command>)
        ensures
            final(self).deep_view() == old(self).deep_view().at_home(),
            final(out).deep_view() == old(out).deep_view().push(
                CommandView::Browse(old(self).deep_view().at_home().opts),
            ),
            final(self).paths_distinct(),
    {
        let _sessions = self.browse_paths.len();
        self.opts.pop_all = true;
        emit(out, Command::Browse(self.opts.clone()));
    }

    /// Drops the item that the user's session was to select.
    pub fn drop_item_key(&mut self)
        ensures
            final(self).deep_view() == (RoonBrowseView {
                opts: BrowseOptsView { item_key: None, ..old(self).deep_view().opts },
                ..old(self).deep_view()
            }),
            final(self).paths_distinct(),
    {
        let _sessions = self.browse_paths.len();
        self.opts.item_key = None;
    }

    /// Starts the scripted session that reads the profile of a zone.
    pub fn browse_profile(&mut self, zone_id: &str, out: &mut Vec<Command>)
        ensures
            final(self).deep_view() == old(self).deep_view().with_script(
                zone_id@,
                profile_script(),
            ),
            final(out).deep_view() == old(out).deep_view().push(
                CommandView::Browse(BrowseOptsView::of_session(zone_id@)),
            ),
            final(self).paths_distinct(),
    {
        let mut opts = BrowseOpts::default();
        opts.multi_session_key = Some(zone_id.to_owned());
        emit(out, Command::Browse(opts));
        let mut script: Vec<String> = Vec::new();
        script.push("".to_owned());
        script.push("Profile".to_owned());
        script.push("Settings".to_owned());
        assert(script.deep_view() =~= profile_script());
        self.browse_paths.insert(zone_id.to_owned(), script);
    }

    /// Starts the scripted session that refills a queue in one of the two
    /// random modes. The other modes need none.
    pub fn handle_queue_mode(
        &mut self,
        zone_id: &str,
        queue_mode: &QueueMode,
        queue_action: QueueAction,
        out: &mut Vec<Command>,
    )
        ensures
            final(self).deep_view() == queue_mode_step(
                old(self).deep_view(),
                zone_id@,
                *queue_mode,
                queue_action,
            ).0,
            final(out).deep_view() == old(out).deep_view() + queue_mode_step(
                old(self).deep_view(),
                zone_id@,
                *queue_mode,
                queue_action,
            ).1,
            final(self).paths_distinct(),
    {
        let _sessions = self.browse_paths.len();
        let label = match queue_action {
            QueueAction::PlayNow => "Play Now",
            QueueAction::AddNext => "Add Next",
            QueueAction::Queue => "Queue",
        };
        let mut script: Vec<String> = Vec::new();
        script.push(label.to_owned());
        match queue_mode {
            QueueMode::RandomAlbum => {
                script.push("Play Album".to_owned());
                script.push("".to_owned());
                script.push("Albums".to_owned());
                script.push("Library".to_owned());
                assert(script.deep_view() =~= album_script(queue_action));
            },
            QueueMode::RandomTrack => {
                script.push("".to_owned());
                script.push("Tracks".to_owned());
                script.push("Library".to_owned());
                assert(script.deep_view() =~= track_script(queue_action));
            },
            _ => {
                assert(out.deep_view() =~= old(out).deep_view() + Seq::<CommandView>::empty());
                return ;
            },
        }
        let mut opts = BrowseOpts::default();
        opts.multi_session_key = Some(zone_id.to_owned());
        opts.pop_all = true;
        emit(out, Command::Browse(opts));
        assert(out.deep_view() =~= old(out).deep_view() + queue_mode_step(
            old(self).deep_view(),
            zone_id@,
            *queue_mode,
            queue_action,
        ).1);
        self.browse_paths.insert(zone_id.to_owned(), script);
    }

    /// Whether the user's session stands at the top level of the browser.
    pub fn reached_home(&self) -> (r: bool)
        ensures
            r == self.deep_view().browse_reached_home,
    {
        self.browse_reached_home
    }

    /// The script that is left of the scripted session of a key.
    pub fn script_of(&self, key: &str) -> (r: Option<Vec<String>>)
        ensures
            r.deep_view() == assoc_get(self.deep_view().browse_paths, key@),
    {
        match self.browse_paths.get(key) {
            Some(path) => Some(clone_strings(path)),
            None => None,
        }
    }

    /// The request of the user's session as it stands.
    pub fn opts(&self) -> (r: BrowseOpts)
        ensures
            r.deep_view() == self.deep_view().opts,
    {
        self.opts.clone()
    }
}

} // verus!
