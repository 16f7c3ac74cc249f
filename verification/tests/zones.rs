use roon_tui::io::events::{Events, Forwarded, KeyCode, KeyEvent, KeyEventKind, KeyModifiers, TerminalEvent};
use roon_tui::io::roon::{advance, start, Options, Phase, Progress, Supervise};
use roon_tui::io::transport::{Output, State, Zone, ZoneSettings, Repeat};
use roon_tui::io::zones::{
    build_zone_list, drop_repeats, entry_eq, find_resolving_zone, find_zone_of_first_output,
    find_zone_with_output, get_grouping, holds_entry, plan_grouping, sort_entries, GroupingPlan,
};
use roon_tui::io::{EndPoint, QueueMode};
use roon_tui::strmap::StrMap;

fn strings(items: &[&str]) -> Vec<String> {
    items.iter().map(|item| item.to_string()).collect()
}

fn output(id: &str, name: &str, can_group_with: &[&str]) -> Output {
    Output {
        output_id: id.to_owned(),
        display_name: name.to_owned(),
        can_group_with_output_ids: strings(can_group_with),
    }
}

fn zone(id: &str, name: &str, outputs: Vec<Output>) -> Zone {
    Zone {
        zone_id: id.to_owned(),
        display_name: name.to_owned(),
        outputs,
        state: State::Stopped,
        now_playing: None,
        settings: ZoneSettings { repeat: Repeat::Off, shuffle: false, auto_radio: false },
        is_next_allowed: true,
        is_previous_allowed: true,
        queue_time_remaining: 0,
    }
}

fn registry() -> StrMap<Zone> {
    let mut zones = StrMap::new();
    zones.insert("z1".to_owned(), zone("z1", "Kitchen", vec![output("o1", "Kitchen", &["o1", "o2", "o3"])]));
    zones.insert(
        "z2".to_owned(),
        zone(
            "z2",
            "Bath + 1",
            vec![output("o2", "Bath", &["o1", "o2", "o3"]), output("o3", "Attic", &["o2", "o3"])],
        ),
    );
    zones
}

#[test]
fn a_grouping_that_a_zone_is_already_is_realized() {
    let zones = registry();
    assert_eq!(plan_grouping(&zones, &strings(&["o2", "o3"])), GroupingPlan::Realized(1));
    assert_eq!(plan_grouping(&zones, &strings(&["o1"])), GroupingPlan::Realized(0));
}

#[test]
fn a_grouping_with_another_first_output_is_not_realized() {
    let zones = registry();
    assert_eq!(plan_grouping(&zones, &strings(&["o3", "o2"])), GroupingPlan::Ungroup(1));
}

#[test]
fn a_group_in_the_way_is_taken_apart_first() {
    let zones = registry();
    assert_eq!(plan_grouping(&zones, &strings(&["o1", "o2"])), GroupingPlan::Ungroup(1));
    assert_eq!(plan_grouping(&zones, &strings(&["o3"])), GroupingPlan::Ungroup(1));
}

#[test]
fn free_outputs_are_grouped() {
    let mut zones = StrMap::new();
    zones.insert("z1".to_owned(), zone("z1", "Kitchen", vec![output("o1", "Kitchen", &[])]));
    zones.insert("z2".to_owned(), zone("z2", "Bath", vec![output("o2", "Bath", &[])]));
    assert_eq!(plan_grouping(&zones, &strings(&["o1", "o2"])), GroupingPlan::Group);
    assert_eq!(plan_grouping(&zones, &strings(&["o7", "o8"])), GroupingPlan::Group);
    assert_eq!(plan_grouping(&zones, &strings(&["o7"])), GroupingPlan::Nothing);
    assert_eq!(plan_grouping(&zones, &Vec::new()), GroupingPlan::Nothing);
    assert_eq!(plan_grouping(&StrMap::new(), &strings(&["o1", "o2"])), GroupingPlan::Group);
}

#[test]
fn the_list_of_end_points_holds_zones_outputs_and_presets() {
    let zones = registry();
    let mut matched = StrMap::new();
    matched.insert("z2".to_owned(), "Party".to_owned());
    let list = build_zone_list(&zones, &matched, &strings(&["Party", "All"]));
    assert_eq!(
        list,
        vec![
            (EndPoint::Preset("All".to_owned()), "All".to_owned()),
            (EndPoint::Output("o3".to_owned()), "Attic".to_owned()),
            (EndPoint::Output("o2".to_owned()), "Bath".to_owned()),
            (EndPoint::Zone("z1".to_owned()), "Kitchen".to_owned()),
            (EndPoint::MatchedPreset(("z2".to_owned(), "Party".to_owned())), "Bath + 1".to_owned()),
        ]
    );
}

#[test]
fn the_list_of_end_points_names_nothing_twice() {
    let mut zones = StrMap::new();
    zones.insert(
        "z1".to_owned(),
        zone("z1", "Down", vec![output("o1", "Kitchen", &[]), output("o2", "Bath", &[])]),
    );
    zones.insert(
        "z2".to_owned(),
        zone("z2", "Up", vec![output("o2", "Bath", &[]), output("o3", "Attic", &[])]),
    );
    let list = build_zone_list(&zones, &StrMap::new(), &strings(&["Up", "Bath", "Up"]));
    assert_eq!(
        list,
        vec![
            (EndPoint::Output("o3".to_owned()), "Attic".to_owned()),
            (EndPoint::Output("o2".to_owned()), "Bath".to_owned()),
            (EndPoint::Preset("Bath".to_owned()), "Bath".to_owned()),
            (EndPoint::Zone("z1".to_owned()), "Down".to_owned()),
            (EndPoint::Output("o1".to_owned()), "Kitchen".to_owned()),
            (EndPoint::Zone("z2".to_owned()), "Up".to_owned()),
            (EndPoint::Preset("Up".to_owned()), "Up".to_owned()),
        ]
    );
    let repeated = vec![
        (EndPoint::Zone("z1".to_owned()), "A".to_owned()),
        (EndPoint::Zone("z1".to_owned()), "B".to_owned()),
        (EndPoint::Zone("z1".to_owned()), "A".to_owned()),
        (EndPoint::Output("z1".to_owned()), "A".to_owned()),
    ];
    assert_eq!(
        drop_repeats(&repeated),
        vec![
            (EndPoint::Zone("z1".to_owned()), "A".to_owned()),
            (EndPoint::Zone("z1".to_owned()), "B".to_owned()),
            (EndPoint::Output("z1".to_owned()), "A".to_owned()),
        ]
    );
    assert!(entry_eq(&repeated[0], &repeated[2]));
    assert!(!entry_eq(&repeated[0], &repeated[1]));
    assert!(!entry_eq(&repeated[0], &repeated[3]));
    assert!(holds_entry(&repeated, &(EndPoint::Zone("z1".to_owned()), "B".to_owned())));
    assert!(!holds_entry(&repeated, &(EndPoint::Preset("z1".to_owned()), "A".to_owned())));
}

#[test]
fn the_list_is_sorted_by_name_as_one_list() {
    let mut zones = StrMap::new();
    zones.insert("z3".to_owned(), zone("z3", "Study", vec![output("o5", "Study", &[])]));
    zones.insert("z1".to_owned(), zone("z1", "Kitchen", vec![output("o1", "Kitchen", &[])]));
    zones.insert("z2".to_owned(), zone("z2", "Attic", vec![output("o2", "Attic", &[])]));
    let matched = StrMap::new();
    let list = build_zone_list(&zones, &matched, &strings(&["Zoo", "All", "Mid"]));
    let names: Vec<&str> = list.iter().map(|entry| entry.1.as_str()).collect();
    assert_eq!(names, vec!["All", "Attic", "Kitchen", "Mid", "Study", "Zoo"]);
    assert_eq!(list[0].0, EndPoint::Preset("All".to_owned()));
    assert_eq!(list[1].0, EndPoint::Zone("z2".to_owned()));
    assert_eq!(list[5].0, EndPoint::Preset("Zoo".to_owned()));
    assert_eq!(build_zone_list(&StrMap::new(), &StrMap::new(), &Vec::new()), Vec::new());
}

#[test]
fn a_matched_zone_is_sorted_under_its_preset() {
    let entries = vec![
        (EndPoint::Zone("z1".to_owned()), "Kitchen".to_owned()),
        (EndPoint::MatchedPreset(("z2".to_owned(), "Attic set".to_owned())), "Zoo".to_owned()),
        (EndPoint::Zone("z3".to_owned()), "Bath".to_owned()),
        (EndPoint::Zone("z4".to_owned()), "Bath".to_owned()),
    ];
    let sorted = sort_entries(&entries);
    let ids: Vec<&EndPoint> = sorted.iter().map(|entry| &entry.0).collect();
    assert_eq!(
        ids,
        vec![
            &EndPoint::MatchedPreset(("z2".to_owned(), "Attic set".to_owned())),
            &EndPoint::Zone("z3".to_owned()),
            &EndPoint::Zone("z4".to_owned()),
            &EndPoint::Zone("z1".to_owned()),
        ]
    );
}

#[test]
fn the_candidates_for_a_grouping() {
    let zones = registry();
    let outputs = vec![
        output("o3", "Attic", &[]),
        output("o1", "Kitchen", &[]),
        output("o4", "Garden", &[]),
        output("o1", "Kitchen", &[]),
    ];
    assert_eq!(
        get_grouping(zones.get("z2"), &outputs),
        Some(vec![
            ("o2".to_owned(), "Bath".to_owned(), true),
            ("o3".to_owned(), "Attic".to_owned(), true),
            ("o1".to_owned(), "Kitchen".to_owned(), false),
        ])
    );
    assert_eq!(get_grouping(None, &outputs), None);
    let bare = zone("z9", "Bare", Vec::new());
    assert_eq!(get_grouping(Some(&bare), &outputs), None);
}

#[test]
fn a_pending_grouping_is_found_among_reported_zones() {
    let zones = vec![
        zone("z1", "Kitchen", vec![output("o1", "Kitchen", &[])]),
        zone("z5", "Bath + 1", vec![output("o2", "Bath", &[]), output("o3", "Attic", &[])]),
    ];
    assert_eq!(find_resolving_zone(&zones, &strings(&["o3", "o2"])), Some(1));
    assert_eq!(find_resolving_zone(&zones, &strings(&["o1"])), Some(0));
    assert_eq!(find_resolving_zone(&zones, &strings(&["o1", "o2"])), None);
    assert_eq!(find_resolving_zone(&zones, &strings(&["o2"])), None);
    assert_eq!(find_resolving_zone(&zones, &strings(&["o2", "o3", "o4"])), None);
    assert_eq!(find_resolving_zone(&zones, &strings(&["o2", "o4"])), None);
    assert_eq!(find_zone_of_first_output(&zones, "o2"), Some(1));
    assert_eq!(find_zone_of_first_output(&zones, "o3"), None);
    let registry = registry();
    assert_eq!(find_zone_with_output(&registry, "o3"), Some(1));
    assert_eq!(find_zone_with_output(&registry, "o1"), Some(0));
    assert_eq!(find_zone_with_output(&registry, "o9"), None);
}

#[test]
fn the_queue_modes_come_round() {
    assert_eq!(advance(QueueMode::Manual, false), QueueMode::RoonRadio);
    assert_eq!(advance(QueueMode::RoonRadio, false), QueueMode::Manual);
    assert_eq!(advance(QueueMode::RandomAlbum, false), QueueMode::Manual);
    assert_eq!(advance(QueueMode::RandomTrack, false), QueueMode::Manual);
    assert_eq!(advance(QueueMode::Manual, true), QueueMode::RoonRadio);
    assert_eq!(advance(QueueMode::RoonRadio, true), QueueMode::RandomAlbum);
    assert_eq!(advance(QueueMode::RandomAlbum, true), QueueMode::RandomTrack);
    assert_eq!(advance(QueueMode::RandomTrack, true), QueueMode::Manual);
}

fn options(ip: Option<&str>) -> Options {
    Options { config: "config.json".to_owned(), ip: ip.map(|ip| ip.to_owned()), port: "9330".to_owned() }
}

#[test]
fn the_connection_is_tried_again_after_its_end() {
    let (mut supervisor, first) = start(options(None));
    assert_eq!(first, Supervise::Discover);
    assert_eq!(supervisor.current(), Phase::Connecting);
    assert_eq!(supervisor.config(), "config.json");
    assert_eq!(supervisor.step(Progress::Connected), Supervise::Run);
    assert_eq!(supervisor.current(), Phase::Running);
    assert_eq!(supervisor.step(Progress::Ended), Supervise::Wait(10));
    assert_eq!(supervisor.current(), Phase::Waiting);
    assert_eq!(supervisor.step(Progress::Elapsed), Supervise::Discover);
    assert_eq!(supervisor.current(), Phase::Connecting);
    assert_eq!(supervisor.step(Progress::Failed), Supervise::Wait(10));
    assert_eq!(supervisor.step(Progress::Elapsed), Supervise::Discover);
}

#[test]
fn a_given_address_is_connected_to() {
    let (mut supervisor, first) = start(options(Some("10.0.0.2")));
    assert_eq!(first, Supervise::Connect("10.0.0.2".to_owned(), "9330".to_owned()));
    supervisor.step(Progress::Failed);
    assert_eq!(
        supervisor.step(Progress::Elapsed),
        Supervise::Connect("10.0.0.2".to_owned(), "9330".to_owned())
    );
}

#[test]
fn what_does_not_belong_to_a_phase_changes_nothing() {
    let (mut supervisor, _) = start(options(None));
    assert_eq!(supervisor.step(Progress::Elapsed), Supervise::Nothing);
    assert_eq!(supervisor.step(Progress::Ended), Supervise::Nothing);
    assert_eq!(supervisor.current(), Phase::Connecting);
    supervisor.step(Progress::Connected);
    assert_eq!(supervisor.step(Progress::Connected), Supervise::Nothing);
    assert_eq!(supervisor.step(Progress::Failed), Supervise::Nothing);
    assert_eq!(supervisor.current(), Phase::Running);
}

fn key(code: KeyCode, modifiers: KeyModifiers, kind: KeyEventKind) -> KeyEvent {
    KeyEvent { code, modifiers, kind }
}

#[test]
fn keys_are_forwarded_until_control_c() {
    let plain = key(KeyCode::Char('c'), KeyModifiers::Plain, KeyEventKind::Press);
    assert_eq!(Events::step(TerminalEvent::Key(plain)), (Forwarded::Input(plain), true));
    let quit = key(KeyCode::Char('c'), KeyModifiers::Control, KeyEventKind::Press);
    assert_eq!(Events::step(TerminalEvent::Key(quit)), (Forwarded::Input(quit), false));
    let released = key(KeyCode::Char('c'), KeyModifiers::Control, KeyEventKind::Release);
    assert_eq!(Events::step(TerminalEvent::Key(released)), (Forwarded::Input(released), true));
    assert_eq!(Events::step(TerminalEvent::Resize), (Forwarded::Redraw, true));
    assert_eq!(Events::step(TerminalEvent::Other), (Forwarded::Nothing, true));
}
