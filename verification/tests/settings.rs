use roon_tui::io::roon_settings::{
    Dropdown, Entry, EntryValue, Label, Persistent, QueueAction, RoonSettings, ScratchPad, Widget,
};
use roon_tui::io::{EndPoint, QueueMode};
use roon_tui::sort::sort_order;
use roon_tui::strmap::StrMap;

fn strings(items: &[&str]) -> Vec<String> {
    items.iter().map(|item| item.to_string()).collect()
}

fn empty() -> RoonSettings {
    RoonSettings::new(Persistent {
        zone_id: None,
        profile: None,
        queue_modes: Vec::new(),
        presets: Vec::new(),
    })
}

fn with_presets() -> RoonSettings {
    let mut settings = empty();
    settings.add_preset("Downstairs".to_owned(), strings(&["x", "y", "z"]));
    settings.add_preset("Upstairs".to_owned(), strings(&["a", "b"]));
    settings
}

#[test]
fn a_map_keeps_its_keys_in_the_order_of_their_first_insertion() {
    let mut map: StrMap<QueueMode> = StrMap::new();
    assert!(map.is_empty());
    assert_eq!(map.insert("b".to_owned(), QueueMode::Manual), None);
    assert_eq!(map.insert("a".to_owned(), QueueMode::RoonRadio), None);
    assert_eq!(map.insert("b".to_owned(), QueueMode::RandomAlbum), Some(QueueMode::Manual));
    assert_eq!(map.len(), 2);
    assert_eq!(map.key_at(0), "b");
    assert_eq!(map.key_at(1), "a");
    assert_eq!(map.get("b"), Some(&QueueMode::RandomAlbum));
    assert_eq!(map.position("a"), Some(1));
    assert_eq!(map.get("c"), None);
    assert!(map.contains_key("a"));
    assert_eq!(map.remove("b"), Some(QueueMode::RandomAlbum));
    assert_eq!(map.remove("b"), None);
    assert_eq!(map.len(), 1);
    assert_eq!(map.key_at(0), "a");
    assert_eq!(map.value_at(0), &QueueMode::RoonRadio);
}

#[test]
fn the_order_of_keys_is_sorted_and_stable() {
    let keys = strings(&["pear", "apple", "fig", "apple", "Pear", ""]);
    assert_eq!(sort_order(&keys), vec![5, 4, 1, 3, 2, 0]);
    assert_eq!(sort_order(&Vec::new()), Vec::<usize>::new());
}

#[test]
fn stored_settings_are_taken_up_and_given_back() {
    let settings = RoonSettings::new(Persistent {
        zone_id: Some("z1".to_owned()),
        profile: Some("Anna".to_owned()),
        queue_modes: vec![
            ("o1".to_owned(), QueueMode::RoonRadio),
            ("o2".to_owned(), QueueMode::Manual),
            ("o1".to_owned(), QueueMode::RandomTrack),
        ],
        presets: vec![("Party".to_owned(), strings(&["o1", "o2"]))],
    });
    assert_eq!(settings.get_zone_id(), Some("z1".to_owned()));
    assert_eq!(settings.get_profile(), Some("Anna".to_owned()));
    assert_eq!(settings.queue_mode_of("o1"), Some(QueueMode::RandomTrack));
    assert_eq!(
        settings.save(),
        Persistent {
            zone_id: Some("z1".to_owned()),
            profile: Some("Anna".to_owned()),
            queue_modes: vec![
                ("o1".to_owned(), QueueMode::RandomTrack),
                ("o2".to_owned(), QueueMode::Manual),
            ],
            presets: vec![("Party".to_owned(), strings(&["o1", "o2"]))],
        }
    );
}

#[test]
fn presets_are_stored_found_and_removed() {
    let mut settings = with_presets();
    assert_eq!(settings.get_preset_names(), Some(strings(&["Downstairs", "Upstairs"])));
    assert_eq!(settings.get_preset("Upstairs"), Some(strings(&["a", "b"])));
    assert_eq!(settings.get_preset("Cellar"), None);
    assert_eq!(settings.add_preset("Downstairs".to_owned(), strings(&["x", "y"])), Some(()));
    assert_eq!(settings.get_preset_names(), Some(strings(&["Downstairs", "Upstairs"])));
    assert_eq!(settings.get_preset("Downstairs"), Some(strings(&["x", "y"])));
    assert_eq!(settings.remove_preset("Downstairs"), Some(strings(&["x", "y"])));
    assert_eq!(settings.remove_preset("Downstairs"), None);
    assert_eq!(settings.get_preset_names(), Some(strings(&["Upstairs"])));
}

#[test]
fn a_grouping_matches_the_preset_with_its_ids() {
    let settings = with_presets();
    let mut ids = strings(&["x", "y", "z"]);
    assert_eq!(settings.match_preset(&mut ids), Some("Downstairs".to_owned()));
    let mut ids = strings(&["a", "b"]);
    assert_eq!(settings.match_preset(&mut ids), Some("Upstairs".to_owned()));
    let mut ids = strings(&["x", "y"]);
    assert_eq!(settings.match_preset(&mut ids), None);
    let mut ids = strings(&["x", "y", "q"]);
    assert_eq!(settings.match_preset(&mut ids), None);
    let mut ids = strings(&["x", "y", "z", "a"]);
    assert_eq!(settings.match_preset(&mut ids), None);
}

#[test]
fn a_grouping_with_another_first_id_does_not_match() {
    let settings = with_presets();
    let mut ids = strings(&["y", "x", "z"]);
    assert_eq!(settings.match_preset(&mut ids), None);
    let mut ids = strings(&["z", "y", "x"]);
    assert_eq!(settings.match_preset(&mut ids), None);
    let mut ids = strings(&["b", "a"]);
    assert_eq!(settings.match_preset(&mut ids), None);
    let mut living = RoonSettings::new(Persistent {
        zone_id: None,
        profile: None,
        queue_modes: Vec::new(),
        presets: vec![("Living".to_owned(), strings(&["a", "b", "c"]))],
    });
    let mut ids = strings(&["b", "a", "c"]);
    assert_eq!(living.match_preset(&mut ids), None);
    let mut ids = strings(&["a", "c", "b"]);
    assert_eq!(living.match_preset(&mut ids), Some("Living".to_owned()));
    living.add_preset("Empty".to_owned(), Vec::new());
    let mut none: Vec<String> = Vec::new();
    assert_eq!(living.match_preset(&mut none), Some("Empty".to_owned()));
}

#[test]
fn matching_does_not_depend_on_the_order_behind_the_first_id() {
    let settings = with_presets();
    let mut first = strings(&["x", "y", "z"]);
    let mut second = strings(&["x", "z", "y"]);
    let one = settings.match_preset(&mut first);
    let other = settings.match_preset(&mut second);
    assert_eq!(one, other);
    assert_eq!(one, Some("Downstairs".to_owned()));
    let mut first = strings(&["p", "q", "r", "s"]);
    let mut second = strings(&["p", "s", "q", "r"]);
    assert_eq!(settings.match_preset(&mut first), settings.match_preset(&mut second));
}

#[test]
fn matching_sorts_all_ids_but_the_first() {
    let settings = with_presets();
    let mut ids = strings(&["z", "y", "x", "a"]);
    settings.match_preset(&mut ids);
    assert_eq!(ids, strings(&["z", "a", "x", "y"]));
    let mut one = strings(&["only"]);
    settings.match_preset(&mut one);
    assert_eq!(one, strings(&["only"]));
    let mut none: Vec<String> = Vec::new();
    assert_eq!(settings.match_preset(&mut none), None);
    assert!(none.is_empty());
}

#[test]
fn the_first_preset_that_matches_wins() {
    let mut settings = empty();
    settings.add_preset("First".to_owned(), strings(&["a", "b"]));
    settings.add_preset("Second".to_owned(), strings(&["b", "a"]));
    let mut ids = strings(&["a", "b"]);
    assert_eq!(settings.match_preset(&mut ids), Some("First".to_owned()));
    let mut ids = strings(&["b", "a"]);
    assert_eq!(settings.match_preset(&mut ids), Some("Second".to_owned()));
    settings.add_preset("Third".to_owned(), strings(&["a", "b"]));
    let mut ids = strings(&["a", "b"]);
    assert_eq!(settings.match_preset(&mut ids), Some("First".to_owned()));
}

#[test]
fn queue_modes_are_stored_by_id() {
    let mut settings = empty();
    assert_eq!(settings.get_queue_mode(), None);
    settings.set_zone_id(Some("z1".to_owned()));
    assert_eq!(settings.get_queue_mode(), Some(QueueMode::Manual));
    assert_eq!(settings.set_queue_mode("z1", QueueMode::RandomAlbum), Some(()));
    assert_eq!(settings.get_queue_mode(), Some(QueueMode::RandomAlbum));
    assert_eq!(settings.queue_mode_of("z2"), None);
    assert_eq!(settings.remove_queue_mode("z1"), Some(QueueMode::RandomAlbum));
    assert_eq!(settings.remove_queue_mode("z1"), None);
    assert_eq!(settings.get_queue_mode(), Some(QueueMode::Manual));
}

#[test]
fn the_default_queue_mode_is_manual() {
    assert_eq!(QueueMode::default(), QueueMode::Manual);
}

fn pad(zone_id: Option<&str>, queue_mode: Option<QueueMode>) -> ScratchPad {
    ScratchPad {
        zone_id: zone_id.map(|id| id.to_owned()),
        profile: None,
        queue_mode,
        queue_action: Some(QueueAction::AddNext),
        dirty: false,
    }
}

#[test]
fn the_form_names_a_zone_an_output_or_a_preset() {
    let mut settings = empty();
    assert_eq!(
        settings.update(pad(Some("1601f3"), Some(QueueMode::RandomTrack))),
        Some((EndPoint::Zone("1601f3".to_owned()), Some(QueueAction::AddNext)))
    );
    assert_eq!(settings.get_zone_id(), Some("1601f3".to_owned()));
    assert_eq!(settings.queue_mode_of("1601f3"), Some(QueueMode::RandomTrack));
    assert_eq!(
        settings.update(pad(Some("1701f3"), Some(QueueMode::Manual))),
        Some((EndPoint::Output("1701f3".to_owned()), Some(QueueAction::AddNext)))
    );
    assert_eq!(
        settings.update(pad(Some("Party"), Some(QueueMode::Manual))),
        Some((EndPoint::Preset("Party".to_owned()), Some(QueueAction::AddNext)))
    );
    assert_eq!(
        settings.update(pad(Some("6"), Some(QueueMode::Manual))),
        Some((EndPoint::Preset("6".to_owned()), Some(QueueAction::AddNext)))
    );
}

#[test]
fn a_form_without_an_end_point_or_a_mode_selects_nothing() {
    let mut settings = empty();
    settings.set_zone_id(Some("z1".to_owned()));
    assert_eq!(settings.update(pad(None, Some(QueueMode::Manual))), None);
    assert_eq!(settings.get_zone_id(), None);
    assert_eq!(settings.update(pad(Some("1601"), None)), None);
    assert_eq!(settings.get_zone_id(), Some("1601".to_owned()));
    assert_eq!(settings.queue_mode_of("1601"), None);
}

#[test]
fn a_fresh_form_shows_the_settings() {
    let mut settings = empty();
    assert_eq!(
        ScratchPad::from(&settings),
        ScratchPad { zone_id: None, profile: None, queue_mode: None, queue_action: None, dirty: false }
    );
    settings.set_zone_id(Some("z1".to_owned()));
    settings.set_profile(Some("Anna".to_owned()));
    settings.set_queue_mode("z1", QueueMode::RoonRadio);
    assert_eq!(
        ScratchPad::from(&settings),
        ScratchPad {
            zone_id: Some("z1".to_owned()),
            profile: Some("Anna".to_owned()),
            queue_mode: Some(QueueMode::RoonRadio),
            queue_action: None,
            dirty: false,
        }
    );
}

#[test]
fn a_form_is_brought_in_line_once() {
    let mut settings = empty();
    settings.set_zone_id(Some("z1".to_owned()));
    settings.set_queue_mode("z2", QueueMode::RandomAlbum);
    let mut form = pad(Some("z2"), Some(QueueMode::Manual));
    assert_eq!(settings.sync(&mut form), Some(()));
    assert_eq!(form.queue_mode, Some(QueueMode::RandomAlbum));
    assert!(form.dirty);
    form.queue_mode = Some(QueueMode::RoonRadio);
    assert_eq!(settings.sync(&mut form), Some(()));
    assert_eq!(form.queue_mode, Some(QueueMode::RoonRadio));
    let mut same = pad(Some("z1"), Some(QueueMode::RandomTrack));
    assert_eq!(settings.sync(&mut same), Some(()));
    assert_eq!(same, pad(Some("z1"), Some(QueueMode::RandomTrack)));
    let mut unset = pad(None, None);
    assert_eq!(settings.sync(&mut unset), None);
    assert_eq!(unset, pad(None, None));
    let mut unknown = pad(Some("z3"), None);
    assert_eq!(settings.sync(&mut unknown), Some(()));
    assert_eq!(unknown.queue_mode, Some(QueueMode::Manual));
}

fn entry(title: &str, id: &str) -> Entry {
    Entry { title: title.to_owned(), value: EntryValue::EndPoint(id.to_owned()) }
}

fn mode(title: &str, value: QueueMode) -> Entry {
    Entry { title: title.to_owned(), value: EntryValue::Mode(value) }
}

fn action(title: &str, value: QueueAction) -> Entry {
    Entry { title: title.to_owned(), value: EntryValue::Action(value) }
}

fn zone_list() -> Vec<(EndPoint, String)> {
    vec![
        (EndPoint::Zone("z1".to_owned()), "Kitchen".to_owned()),
        (EndPoint::MatchedPreset(("z2".to_owned(), "Party".to_owned())), "Bath + 1".to_owned()),
        (EndPoint::Output("o2".to_owned()), "Bath".to_owned()),
        (EndPoint::Preset("All".to_owned()), "All".to_owned()),
    ]
}

fn zones_widget() -> Widget {
    Widget::Dropdown(Dropdown {
        title: "Zones".to_owned(),
        subtitle: Some("The available zones, <outputs> and [presets]".to_owned()),
        values: vec![
            entry("Kitchen", "z1"),
            entry("Party", "z2"),
            entry("<Bath>", "o2"),
            entry("[All]", "All"),
        ],
        setting: "zone_id".to_owned(),
    })
}

#[test]
fn the_form_without_an_end_point_offers_the_end_points() {
    let layout = RoonSettings::make_layout(pad(None, None), &zone_list());
    assert_eq!(layout.widgets, vec![zones_widget()]);
    assert!(!layout.has_error);
    assert_eq!(layout.settings, pad(None, None));
}

#[test]
fn the_form_for_a_zone_without_a_profile() {
    let layout = RoonSettings::make_layout(pad(Some("z1"), Some(QueueMode::RandomAlbum)), &zone_list());
    assert_eq!(
        layout.widgets,
        vec![
            Widget::Label(Label {
                title: "The currently controlled zone is Kitchen".to_owned(),
                subtitle: None,
            }),
            zones_widget(),
            Widget::Dropdown(Dropdown {
                title: "Queue Mode".to_owned(),
                subtitle: Some(
                    "Select a profile in Roon TUI Browse View for additional modes".to_owned()
                ),
                values: vec![
                    mode("Manual", QueueMode::Manual),
                    mode("Roon Radio", QueueMode::RoonRadio),
                ],
                setting: "queue_mode".to_owned(),
            }),
        ]
    );
}

#[test]
fn the_form_for_a_matched_zone_with_a_profile_in_a_random_mode() {
    let mut form = pad(Some("z2"), Some(QueueMode::RandomTrack));
    form.profile = Some("Anna".to_owned());
    let layout = RoonSettings::make_layout(form, &zone_list());
    assert_eq!(
        layout.widgets,
        vec![
            Widget::Label(Label {
                title: "The currently controlled zone is Party".to_owned(),
                subtitle: Some("The group name in Roon is \"Bath + 1\"".to_owned()),
            }),
            zones_widget(),
            Widget::Dropdown(Dropdown {
                title: "Queue Mode".to_owned(),
                subtitle: None,
                values: vec![
                    mode("Manual", QueueMode::Manual),
                    mode("Roon Radio", QueueMode::RoonRadio),
                    mode("Random Album", QueueMode::RandomAlbum),
                    mode("Random Track", QueueMode::RandomTrack),
                ],
                setting: "queue_mode".to_owned(),
            }),
            Widget::Dropdown(Dropdown {
                title: "Queue Action".to_owned(),
                subtitle: None,
                values: vec![
                    action("Play Now", QueueAction::PlayNow),
                    action("Add Next", QueueAction::AddNext),
                    action("Queue", QueueAction::Queue),
                ],
                setting: "queue_action".to_owned(),
            }),
        ]
    );
}

#[test]
fn the_form_for_an_end_point_that_is_no_zone_of_the_list() {
    let mut form = pad(Some("o2"), Some(QueueMode::Manual));
    form.profile = Some("Anna".to_owned());
    let layout = RoonSettings::make_layout(form, &zone_list());
    assert_eq!(layout.widgets.len(), 2);
    assert_eq!(layout.widgets[0], zones_widget());
}

#[test]
fn the_form_as_shown_follows_the_settings() {
    let mut settings = empty();
    settings.set_zone_list(&zone_list());
    settings.set_zone_id(Some("z1".to_owned()));
    settings.set_queue_mode("z2", QueueMode::RandomAlbum);
    let fresh = settings.layout(None);
    assert_eq!(fresh.settings, ScratchPad::from(&settings));
    assert_eq!(fresh.widgets.len(), 3);
    let edited = settings.layout(Some(pad(Some("z2"), None)));
    assert_eq!(edited.settings.queue_mode, Some(QueueMode::RandomAlbum));
    assert!(edited.settings.dirty);
}
