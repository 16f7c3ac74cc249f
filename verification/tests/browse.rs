use roon_tui::io::browse::{
    Action, BrowseItem, BrowseList, BrowseOpts, BrowseResult, LoadOpts, LoadResult,
};
use roon_tui::io::roon_browse::{find_item, RoonBrowse};
use roon_tui::io::roon_settings::{Persistent, QueueAction, RoonSettings};
use roon_tui::io::{Command, IoEvent, Parsed, QueueMode};

const PRIMARY: &str = "tui_browse";

fn item(title: &str, key: Option<&str>) -> BrowseItem {
    BrowseItem {
        item_key: key.map(|key| key.to_owned()),
        title: title.to_owned(),
        subtitle: None,
        input_prompt: None,
    }
}

fn list(title: &str, count: usize, level: u32) -> BrowseList {
    BrowseList { title: title.to_owned(), count, level, display_offset: None }
}

fn list_result(list: BrowseList, key: &str) -> Parsed {
    Parsed::BrowseResult(
        BrowseResult { action: Action::List, list: Some(list), message: None, is_error: None },
        Some(key.to_owned()),
    )
}

fn load_result(items: Vec<BrowseItem>, offset: usize, list: BrowseList, key: &str) -> Parsed {
    Parsed::LoadResult(LoadResult { items, offset, list }, Some(key.to_owned()))
}

fn session(key: &str) -> BrowseOpts {
    BrowseOpts { multi_session_key: Some(key.to_owned()), ..BrowseOpts::default() }
}

fn load(offset: usize, count: Option<usize>, key: &str) -> Command {
    Command::Load(LoadOpts {
        offset,
        set_display_offset: offset,
        count,
        multi_session_key: Some(key.to_owned()),
    })
}

fn settings(zone_id: Option<&str>) -> RoonSettings {
    RoonSettings::new(Persistent {
        zone_id: zone_id.map(|id| id.to_owned()),
        profile: None,
        queue_modes: Vec::new(),
        presets: Vec::new(),
    })
}

#[test]
fn a_new_navigator_goes_to_the_top_level() {
    let (browse, commands) = RoonBrowse::new();
    let first = BrowseOpts { pop_all: true, ..session(PRIMARY) };
    assert_eq!(commands, vec![Command::Browse(first.clone())]);
    assert_eq!(browse.opts(), first);
    assert!(!browse.reached_home());
    assert_eq!(browse.script_of("z1"), None);
}

#[test]
fn a_list_of_the_user_session_is_announced_and_loaded() {
    let (mut browse, _) = RoonBrowse::new();
    let mut albums = list("Albums", 250, 1);
    albums.display_offset = Some(40);
    let commands = browse.handle_msg_event(list_result(albums, PRIMARY), None, false);
    assert_eq!(
        commands,
        vec![Command::Send(IoEvent::BrowseTitle("Albums".to_owned())), load(40, None, PRIMARY)]
    );
    let commands = browse.handle_msg_event(list_result(list("Library", 7, 0), PRIMARY), None, false);
    assert_eq!(
        commands,
        vec![Command::Send(IoEvent::BrowseTitle("Library".to_owned())), load(0, None, PRIMARY)]
    );
}

#[test]
fn a_scripted_session_loads_other_lists_from_the_start() {
    let (mut browse, _) = RoonBrowse::new();
    let commands = browse.handle_msg_event(list_result(list("Library", 7, 1), "z1"), None, false);
    assert_eq!(commands, vec![load(0, None, "z1")]);
}

#[test]
fn a_random_pick_asks_for_one_item_at_the_position_picked() {
    let (mut browse, _) = RoonBrowse::new();
    let commands =
        browse.handle_msg_event_with(list_result(list("Albums", 50, 2), "z1"), None, false, 17);
    assert_eq!(commands, vec![load(17, Some(1), "z1")]);
    let commands =
        browse.handle_msg_event_with(list_result(list("Tracks", 3, 2), "z1"), None, false, 2);
    assert_eq!(commands, vec![load(2, Some(1), "z1")]);
}

#[test]
fn a_random_pick_lies_in_the_list() {
    let (mut browse, _) = RoonBrowse::new();
    let mut seen = [false; 5];
    for _ in 0..400 {
        let commands = browse.handle_msg_event(list_result(list("Tracks", 5, 2), "z9"), None, false);
        assert_eq!(commands.len(), 1);
        match &commands[0] {
            Command::Load(opts) => {
                assert!(opts.offset < 5);
                assert_eq!(opts.set_display_offset, opts.offset);
                assert_eq!(opts.count, Some(1));
                assert_eq!(opts.multi_session_key, Some("z9".to_owned()));
                seen[opts.offset] = true;
            }
            other => panic!("not a load: {:?}", other),
        }
    }
    assert!(seen.iter().all(|seen| *seen));
    assert_eq!(RoonBrowse::random_bound(&list_result(list("Tracks", 5, 2), "z9")), Some(5));
    assert_eq!(RoonBrowse::random_bound(&list_result(list("Tracks", 5, 2), PRIMARY)), None);
    assert_eq!(RoonBrowse::random_bound(&list_result(list("Genres", 5, 2), "z9")), None);
    for _ in 0..50 {
        assert_eq!(RoonBrowse::draw(&list_result(list("Albums", 1, 2), "z9")), 0);
    }
}

#[test]
fn nothing_is_picked_from_an_empty_list() {
    let (mut browse, _) = RoonBrowse::new();
    let commands = browse.handle_msg_event(list_result(list("Albums", 0, 2), "z1"), None, false);
    assert_eq!(commands, Vec::new());
    assert_eq!(RoonBrowse::random_bound(&list_result(list("Albums", 0, 2), "z1")), None);
}

#[test]
fn a_run_of_items_is_passed_on_and_the_next_run_is_asked_for() {
    let (mut browse, _) = RoonBrowse::new();
    let items = vec![item("A", Some("1")), item("B", Some("2"))];
    let commands =
        browse.handle_msg_event(load_result(items.clone(), 0, list("Albums", 5, 1), PRIMARY), None, false);
    assert_eq!(
        commands,
        vec![load(2, None, PRIMARY), Command::Send(IoEvent::BrowseList(0, items.clone()))]
    );
    assert!(!browse.reached_home());
    let commands =
        browse.handle_msg_event(load_result(items.clone(), 3, list("Albums", 5, 0), PRIMARY), None, false);
    assert_eq!(commands, vec![Command::Send(IoEvent::BrowseList(3, items))]);
    assert!(browse.reached_home());
}

#[test]
fn a_session_without_a_key_is_not_answered() {
    let (mut browse, _) = RoonBrowse::new();
    let parsed = Parsed::LoadResult(
        LoadResult { items: vec![item("A", None)], offset: 0, list: list("Albums", 5, 1) },
        None,
    );
    assert_eq!(browse.handle_msg_event(parsed, None, false), Vec::new());
    let parsed = Parsed::BrowseResult(
        BrowseResult { action: Action::List, list: Some(list("Albums", 5, 1)), message: None, is_error: None },
        None,
    );
    assert_eq!(browse.handle_msg_event(parsed, None, false), Vec::new());
    let parsed = Parsed::BrowseResult(
        BrowseResult { action: Action::List, list: None, message: None, is_error: None },
        Some(PRIMARY.to_owned()),
    );
    assert_eq!(browse.handle_msg_event(parsed, None, false), Vec::new());
}

fn message(text: &str, is_error: Option<bool>) -> Parsed {
    Parsed::BrowseResult(
        BrowseResult {
            action: Action::Message,
            list: None,
            message: Some(text.to_owned()),
            is_error,
        },
        Some(PRIMARY.to_owned()),
    )
}

#[test]
fn a_zone_that_is_not_configured_asks_for_a_zone() {
    let (mut browse, _) = RoonBrowse::new();
    let mut store = settings(None);
    browse.handle_io_event(IoEvent::BrowseSelected(Some("k1".to_owned())), &mut store);
    assert_eq!(browse.opts().item_key, Some("k1".to_owned()));
    let commands = browse.handle_msg_event(message("Zone is not configured", Some(true)), None, false);
    assert_eq!(commands, vec![Command::Send(IoEvent::ZoneSelect)]);
    assert_eq!(browse.opts().item_key, Some("k1".to_owned()));
    let commands = browse.handle_msg_event(message("Zone is not configured", Some(true)), None, true);
    assert_eq!(commands, vec![Command::Send(IoEvent::ZoneSelect)]);
    assert_eq!(browse.opts().item_key, None);
}

#[test]
fn other_messages_change_nothing() {
    let (mut browse, _) = RoonBrowse::new();
    assert_eq!(browse.handle_msg_event(message("Zone is not configured", Some(false)), None, true), Vec::new());
    assert_eq!(browse.handle_msg_event(message("Zone is not configured", None), None, true), Vec::new());
    assert_eq!(browse.handle_msg_event(message("Something else", Some(true)), None, true), Vec::new());
    assert_eq!(browse.handle_msg_event(Parsed::Other, None, true), Vec::new());
    assert_eq!(browse.handle_msg_event(Parsed::Queue(Vec::new()), None, true), Vec::new());
}

#[test]
fn the_requests_of_the_user_set_one_navigation_field() {
    let (mut browse, _) = RoonBrowse::new();
    let mut store = settings(None);
    let (changed, commands) = browse.handle_io_event(IoEvent::BrowseRefresh, &mut store);
    assert!(!changed);
    assert_eq!(commands, vec![Command::Browse(BrowseOpts { refresh_list: true, ..session(PRIMARY) })]);
    let (_, commands) = browse.handle_io_event(IoEvent::BrowseBack, &mut store);
    assert_eq!(commands, vec![Command::Browse(BrowseOpts { pop_levels: Some(1), ..session(PRIMARY) })]);
    let (_, commands) = browse.handle_io_event(IoEvent::BrowseHome, &mut store);
    assert_eq!(commands, vec![Command::Browse(BrowseOpts { pop_all: true, ..session(PRIMARY) })]);
    let (_, commands) =
        browse.handle_io_event(IoEvent::BrowseSelected(Some("k1".to_owned())), &mut store);
    assert_eq!(
        commands,
        vec![Command::Browse(BrowseOpts { item_key: Some("k1".to_owned()), ..session(PRIMARY) })]
    );
    let (_, commands) = browse.handle_io_event(IoEvent::BrowseInput("abba".to_owned()), &mut store);
    assert_eq!(
        commands,
        vec![Command::Browse(BrowseOpts { input: Some("abba".to_owned()), ..session(PRIMARY) })]
    );
    let (_, commands) =
        browse.handle_io_event(IoEvent::BrowseSelected(Some("k2".to_owned())), &mut store);
    assert_eq!(
        commands,
        vec![Command::Browse(BrowseOpts {
            item_key: Some("k2".to_owned()),
            input: Some("abba".to_owned()),
            ..session(PRIMARY)
        })]
    );
    assert_eq!(browse.opts().input, None);
    let (_, commands) = browse.handle_io_event(IoEvent::Redraw, &mut store);
    assert_eq!(commands, Vec::new());
    assert_eq!(browse.opts(), session(PRIMARY));
}

#[test]
fn going_back_is_held_at_the_top_level() {
    let (mut browse, _) = RoonBrowse::new();
    let mut store = settings(None);
    browse.handle_msg_event(load_result(Vec::new(), 0, list("Explore", 0, 0), PRIMARY), None, false);
    assert!(browse.reached_home());
    let (_, commands) = browse.handle_io_event(IoEvent::BrowseBack, &mut store);
    assert_eq!(commands, Vec::new());
    browse.handle_msg_event(load_result(Vec::new(), 0, list("Library", 0, 1), PRIMARY), None, false);
    let (_, commands) = browse.handle_io_event(IoEvent::BrowseBack, &mut store);
    assert_eq!(commands.len(), 1);
}

#[test]
fn selecting_a_profile_stores_it_and_reads_it_for_the_zone() {
    let (mut browse, _) = RoonBrowse::new();
    let mut store = settings(Some("z1"));
    let profiles = vec![item("Anna", Some("p1")), item("Header", None), item("Ben", Some("p2"))];
    browse.handle_msg_event(load_result(profiles, 0, list("Profile", 3, 2), PRIMARY), None, false);
    let (changed, commands) =
        browse.handle_io_event(IoEvent::BrowseSelected(Some("p2".to_owned())), &mut store);
    assert!(changed);
    assert_eq!(store.get_profile(), Some("Ben".to_owned()));
    assert_eq!(
        commands,
        vec![
            Command::Browse(session("z1")),
            Command::Browse(BrowseOpts { item_key: Some("p2".to_owned()), ..session(PRIMARY) }),
        ]
    );
    assert_eq!(
        browse.script_of("z1"),
        Some(vec!["".to_owned(), "Profile".to_owned(), "Settings".to_owned()])
    );
    let (changed, _) =
        browse.handle_io_event(IoEvent::BrowseSelected(Some("p9".to_owned())), &mut store);
    assert!(!changed);
    let (changed, _) = browse.handle_io_event(IoEvent::BrowseSelected(None), &mut store);
    assert!(!changed);
}

#[test]
fn a_profile_is_not_stored_without_a_zone_or_outside_the_profiles() {
    let (mut browse, _) = RoonBrowse::new();
    let mut store = settings(None);
    browse.handle_msg_event(
        load_result(vec![item("Anna", Some("p1"))], 0, list("Profile", 1, 2), PRIMARY),
        None,
        false,
    );
    let (changed, commands) =
        browse.handle_io_event(IoEvent::BrowseSelected(Some("p1".to_owned())), &mut store);
    assert!(!changed);
    assert_eq!(commands.len(), 1);
    assert_eq!(store.get_profile(), None);
    let mut store = settings(Some("z1"));
    browse.handle_msg_event(
        load_result(vec![item("Anna", Some("p1"))], 0, list("Albums", 1, 2), PRIMARY),
        None,
        false,
    );
    let (changed, _) =
        browse.handle_io_event(IoEvent::BrowseSelected(Some("p1".to_owned())), &mut store);
    assert!(!changed);
}

#[test]
fn the_random_modes_start_a_script() {
    let (mut browse, _) = RoonBrowse::new();
    let mut out = Vec::new();
    browse.handle_queue_mode("z1", &QueueMode::RandomAlbum, QueueAction::PlayNow, &mut out);
    assert_eq!(out, vec![Command::Browse(BrowseOpts { pop_all: true, ..session("z1") })]);
    assert_eq!(
        browse.script_of("z1"),
        Some(
            ["Play Now", "Play Album", "", "Albums", "Library"]
                .iter()
                .map(|step| step.to_string())
                .collect()
        )
    );
    browse.handle_queue_mode("z2", &QueueMode::RandomTrack, QueueAction::Queue, &mut out);
    assert_eq!(out.len(), 2);
    assert_eq!(
        browse.script_of("z2"),
        Some(["Queue", "", "Tracks", "Library"].iter().map(|step| step.to_string()).collect())
    );
    browse.handle_queue_mode("z3", &QueueMode::RandomTrack, QueueAction::AddNext, &mut out);
    assert_eq!(browse.script_of("z3").unwrap()[0], "Add Next");
    browse.handle_queue_mode("z4", &QueueMode::Manual, QueueAction::Queue, &mut out);
    browse.handle_queue_mode("z4", &QueueMode::RoonRadio, QueueAction::Queue, &mut out);
    assert_eq!(out.len(), 3);
    assert_eq!(browse.script_of("z4"), None);
}

fn browse_into(key: &str, item_key: Option<&str>) -> Command {
    Command::Browse(BrowseOpts {
        zone_or_output_id: Some(key.to_owned()),
        item_key: item_key.map(|key| key.to_owned()),
        ..session(key)
    })
}

#[test]
fn a_script_makes_one_request_per_step_and_is_gone() {
    let (mut browse, _) = RoonBrowse::new();
    let mut out = Vec::new();
    browse.handle_queue_mode("z1", &QueueMode::RandomAlbum, QueueAction::PlayNow, &mut out);
    let mut requests = 0;
    let root = vec![item("Genres", Some("g")), item("Library", Some("lib"))];
    let commands = browse.handle_msg_event(load_result(root, 0, list("Explore", 2, 0), "z1"), None, false);
    assert_eq!(commands, vec![browse_into("z1", Some("lib"))]);
    requests += commands.len();
    assert_eq!(browse.script_of("z1").unwrap().len(), 4);
    let library = vec![item("Artists", Some("ar")), item("Albums", Some("al"))];
    let commands = browse.handle_msg_event(load_result(library, 0, list("Library", 2, 1), "z1"), None, false);
    assert_eq!(commands, vec![browse_into("z1", Some("al"))]);
    requests += commands.len();
    let picked = vec![item("Kind of Blue", Some("kob"))];
    let commands = browse.handle_msg_event(load_result(picked, 31, list("Albums", 90, 2), "z1"), None, false);
    assert_eq!(commands, vec![browse_into("z1", Some("kob"))]);
    requests += commands.len();
    let album = vec![item("Play Album", Some("pa")), item("Kind of Blue", None)];
    let commands = browse.handle_msg_event(load_result(album, 0, list("Kind of Blue", 2, 3), "z1"), None, false);
    assert_eq!(commands, vec![browse_into("z1", Some("pa"))]);
    requests += commands.len();
    assert_eq!(browse.script_of("z1"), Some(vec!["Play Now".to_owned()]));
    let actions = vec![item("Queue", Some("q")), item("Play Now", Some("pn"))];
    let commands = browse.handle_msg_event(load_result(actions, 0, list("Play Album", 2, 4), "z1"), None, false);
    assert_eq!(commands, vec![browse_into("z1", Some("pn"))]);
    requests += commands.len();
    assert_eq!(requests, 5);
    assert_eq!(browse.script_of("z1"), None);
    let more = vec![item("Play Now", Some("pn"))];
    let commands = browse.handle_msg_event(load_result(more, 0, list("Play Album", 1, 4), "z1"), None, false);
    assert_eq!(commands, Vec::new());
}

#[test]
fn an_empty_step_takes_the_profile_from_the_list_of_profiles() {
    let (mut browse, _) = RoonBrowse::new();
    let mut out = Vec::new();
    browse.browse_profile("z1", &mut out);
    assert_eq!(out, vec![Command::Browse(session("z1"))]);
    let root = vec![item("Library", Some("lib")), item("Settings", Some("set"))];
    let commands = browse.handle_msg_event(load_result(root, 0, list("Explore", 2, 0), "z1"), Some("Ben"), false);
    assert_eq!(commands, vec![browse_into("z1", Some("set"))]);
    let settings = vec![item("Profile", None)];
    let commands = browse.handle_msg_event(load_result(settings, 0, list("Settings", 1, 1), "z1"), Some("Ben"), false);
    assert_eq!(commands, vec![browse_into("z1", None)]);
    let profiles = vec![item("Anna", Some("p1")), item("Ben", Some("p2"))];
    let commands = browse.handle_msg_event(load_result(profiles, 0, list("Profile", 2, 2), "z1"), Some("Ben"), false);
    assert_eq!(commands, vec![browse_into("z1", Some("p2"))]);
    assert_eq!(browse.script_of("z1"), None);
}

#[test]
fn a_step_without_its_item_is_used_up_without_a_request() {
    let (mut browse, _) = RoonBrowse::new();
    let mut out = Vec::new();
    browse.browse_profile("z1", &mut out);
    let root = vec![item("Library", Some("lib"))];
    let commands = browse.handle_msg_event(load_result(root, 0, list("Explore", 1, 0), "z1"), None, false);
    assert_eq!(commands, Vec::new());
    assert_eq!(browse.script_of("z1"), Some(vec!["".to_owned(), "Profile".to_owned()]));
    let mut out = Vec::new();
    browse.browse_profile("z2", &mut out);
    let root = vec![item("Settings", Some("set"))];
    browse.handle_msg_event(load_result(root, 0, list("Explore", 1, 0), "z2"), None, false);
    browse.handle_msg_event(load_result(vec![item("Profile", Some("pr"))], 0, list("Settings", 1, 1), "z2"), None, false);
    let profiles = vec![item("Anna", Some("p1"))];
    let commands = browse.handle_msg_event(load_result(profiles, 0, list("Profile", 1, 2), "z2"), None, false);
    assert_eq!(commands, Vec::new());
    assert_eq!(browse.script_of("z2"), None);
    let commands = browse.handle_msg_event(load_result(Vec::new(), 0, list("Albums", 0, 2), "unknown"), None, false);
    assert_eq!(commands, Vec::new());
}

#[test]
fn an_item_is_found_by_its_title() {
    let items = vec![item("A", None), item("B", Some("1")), item("B", Some("2"))];
    assert_eq!(find_item(&items, "B"), Some(1));
    assert_eq!(find_item(&items, "b"), None);
    assert_eq!(find_item(&Vec::new(), "B"), None);
}

#[test]
fn the_zone_of_the_requests_can_be_set() {
    let (mut browse, _) = RoonBrowse::new();
    browse.set_zone_id(Some("z1".to_owned()));
    assert_eq!(browse.opts().zone_or_output_id, Some("z1".to_owned()));
    let mut out = Vec::new();
    browse.go_home(&mut out);
    assert_eq!(
        out,
        vec![Command::Browse(BrowseOpts {
            zone_or_output_id: Some("z1".to_owned()),
            pop_all: true,
            ..session(PRIMARY)
        })]
    );
    browse.clear_navigation();
    assert!(!browse.opts().pop_all);
    browse.set_zone_id(None);
    browse.drop_item_key();
    assert_eq!(browse.opts(), session(PRIMARY));
}

#[test]
fn nothing_is_drawn_where_no_random_item_is_asked_for() {
    assert_eq!(RoonBrowse::draw(&Parsed::Other), 0);
    assert_eq!(RoonBrowse::draw(&list_result(list("Albums", 40, 2), PRIMARY)), 0);
    assert_eq!(RoonBrowse::draw(&list_result(list("Genres", 40, 2), "z1")), 0);
    assert_eq!(RoonBrowse::draw(&list_result(list("Tracks", 0, 2), "z1")), 0);
    assert_eq!(RoonBrowse::draw(&load_result(Vec::new(), 0, list("Albums", 40, 2), "z1")), 0);
    let mut seen = [false; 3];
    for _ in 0..300 {
        seen[RoonBrowse::draw(&list_result(list("Albums", 3, 2), "z1"))] = true;
    }
    assert!(seen.iter().all(|seen| *seen));
}
