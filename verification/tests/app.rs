use roon_tui::app::search::{
    find_by_first_char, find_by_prefix, has_prefix, has_word_under, has_word_with_prefix,
    normalize, order_at, to_chars, to_lower, without_first,
};
use roon_tui::app::stateful_list::{ListState, StatefulList};
use roon_tui::app::ui::get_queue_time_remaining;
use roon_tui::app::{get_included_output_ids, App, AppReturn, Panel};
use roon_tui::io::browse::BrowseItem;
use roon_tui::io::events::{KeyCode, KeyEvent, KeyEventKind, KeyModifiers};
use roon_tui::io::transport::{
    Control, Mute, NowPlaying, Output, QueueChange, QueueItem, Repeat, State, Zone, ZoneSeek,
    ZoneSettings,
};
use roon_tui::io::{EndPoint, IoEvent, QueueMode};

fn chars(text: &str) -> Vec<char> {
    text.chars().collect()
}

fn strings(items: &[&str]) -> Vec<String> {
    items.iter().map(|item| item.to_string()).collect()
}

fn key(code: KeyCode, modifiers: KeyModifiers) -> IoEvent {
    IoEvent::Input(KeyEvent { code, modifiers, kind: KeyEventKind::Press })
}

fn plain(code: KeyCode) -> IoEvent {
    key(code, KeyModifiers::Plain)
}

fn control(code: KeyCode) -> IoEvent {
    key(code, KeyModifiers::Control)
}

fn typed(app: &mut App, text: &str) {
    for c in text.chars() {
        app.update_on_event(plain(KeyCode::Char(c)));
    }
}

fn item(title: &str, key: Option<&str>) -> BrowseItem {
    BrowseItem {
        item_key: key.map(|key| key.to_owned()),
        title: title.to_owned(),
        subtitle: None,
        input_prompt: None,
    }
}

fn titled(titles: &[&str]) -> Vec<BrowseItem> {
    titles.iter().map(|title| item(title, Some(title))).collect()
}

fn queue_item(id: u32, label: &str) -> QueueItem {
    QueueItem { queue_item_id: id, length: 60, line1: label.to_owned(), line2: String::new() }
}

fn zone(id: &str, name: &str) -> Zone {
    Zone {
        zone_id: id.to_owned(),
        display_name: name.to_owned(),
        outputs: vec![Output {
            output_id: "o1".to_owned(),
            display_name: name.to_owned(),
            can_group_with_output_ids: Vec::new(),
        }],
        state: State::Playing,
        now_playing: Some(NowPlaying {
            length: Some(100),
            seek_position: None,
            line1: String::new(),
            line2: String::new(),
            line3: String::new(),
        }),
        settings: ZoneSettings { repeat: Repeat::Off, shuffle: false, auto_radio: false },
        is_next_allowed: true,
        is_previous_allowed: true,
        queue_time_remaining: 75,
    }
}

fn browsing(title: &str, titles: &[&str]) -> App {
    let mut app = App::new(false);
    app.update_on_event(IoEvent::BrowseTitle(title.to_owned()));
    app.update_on_event(IoEvent::BrowseList(0, titled(titles)));
    app
}

#[test]
fn the_list_state_resets_its_offset_without_a_selection() {
    let mut state = ListState::new();
    assert_eq!(state, ListState { selected: None, offset: 0 });
    state.offset = 4;
    state.select(Some(6));
    assert_eq!(state, ListState { selected: Some(6), offset: 4 });
    state.select(None);
    assert_eq!(state, ListState { selected: None, offset: 0 });
}

#[test]
fn a_list_moves_its_selection_inside_its_items() {
    let mut list: StatefulList<String> = StatefulList::new();
    assert!(!list.is_selected());
    list.next();
    list.prev();
    list.select_last();
    assert_eq!(list.state.selected, None);
    list.items = Some(strings(&["a", "b", "c"]));
    list.next();
    assert_eq!(list.state.selected, None);
    list.select(None);
    assert_eq!(list.state.selected, Some(0));
    assert_eq!(list.get_selected_item(), Some(&"a".to_owned()));
    list.prev();
    assert_eq!(list.state.selected, Some(0));
    list.next();
    list.next();
    list.next();
    assert_eq!(list.state.selected, Some(2));
    list.select_first();
    assert_eq!(list.state.selected, Some(0));
    list.select_last();
    assert_eq!(list.state.selected, Some(2));
    list.select(Some(7));
    assert_eq!(list.get_selected_item(), None);
    list.deselect();
    assert!(!list.is_selected());
    let mut none: StatefulList<String> = StatefulList::new();
    none.items = Some(Vec::new());
    none.select_last();
    assert_eq!(none.state.selected, None);
}

fn ten() -> StatefulList<String> {
    let mut list: StatefulList<String> = StatefulList::new();
    list.items = Some((0..10).map(|i| i.to_string()).collect());
    list.select(None);
    list.prepare_paging(3, |_| 1);
    list
}

#[test]
fn paging_down_goes_by_the_lines_of_a_page() {
    let mut list = ten();
    assert_eq!(list.item_line_count, vec![1; 10]);
    list.select_next_page();
    assert_eq!(list.state, ListState { selected: Some(2), offset: 0 });
    list.select_next_page();
    assert_eq!(list.state, ListState { selected: Some(4), offset: 0 });
    list.select_next_page();
    assert_eq!(list.state, ListState { selected: Some(6), offset: 4 });
    list.select_next_page();
    list.select_next_page();
    assert_eq!(list.state.selected, Some(9));
    list.select_next_page();
    assert_eq!(list.state.selected, Some(9));
}

#[test]
fn paging_up_goes_by_the_lines_of_a_page() {
    let mut list = ten();
    list.state.select(Some(9));
    list.select_prev_page();
    assert_eq!(list.state, ListState { selected: Some(7), offset: 7 });
    list.select_prev_page();
    list.select_prev_page();
    assert_eq!(list.state, ListState { selected: Some(3), offset: 3 });
    list.select_prev_page();
    assert_eq!(list.state, ListState { selected: Some(1), offset: 1 });
    list.select_prev_page();
    assert_eq!(list.state.selected, Some(0));
    assert_eq!(list.page_lines, 0);
    assert!(list.item_line_count.is_empty());
}

#[test]
fn an_item_that_does_not_fit_the_page_is_not_paged_over() {
    let mut list: StatefulList<String> = StatefulList::new();
    list.items = Some(strings(&["a", "b", "c", "d"]));
    list.select(None);
    list.prepare_paging(3, |_| 2);
    list.select_next_page();
    assert_eq!(list.state.selected, Some(0));
    list.state.select(Some(2));
    list.select_next_page();
    assert_eq!(list.state.selected, Some(2));
    list.select_prev_page();
    assert_eq!(list.state, ListState { selected: Some(2), offset: 2 });
}

#[test]
fn paging_waits_for_the_line_counts() {
    let mut list: StatefulList<String> = StatefulList::new();
    list.items = Some(strings(&["a", "b", "c"]));
    list.select(Some(1));
    list.select_next_page();
    list.select_prev_page();
    assert_eq!(list.state.selected, Some(1));
    list.prepare_paging(0, |_| 1);
    assert!(list.item_line_count.is_empty());
    list.prepare_paging(2, |item| item.len() + 1);
    assert_eq!(list.item_line_count, vec![2, 2, 2]);
    list.items = Some(strings(&["a"]));
    list.prepare_paging(2, |_| 1);
    assert_eq!(list.item_line_count, vec![2, 2, 2]);
    list.state.select(Some(0));
    list.select_next_page();
    assert_eq!(list.state.selected, Some(0));
}

#[test]
fn characters_are_lowered_and_tried_in_order() {
    assert_eq!(to_lower('A'), 'a');
    assert_eq!(to_lower('Z'), 'z');
    assert_eq!(to_lower('a'), 'a');
    assert_eq!(to_lower('['), '[');
    assert_eq!(to_lower('@'), '@');
    assert_eq!(to_lower('É'), 'É');
    let order: String = (0..68).map(order_at).collect();
    assert_eq!(order, "!\"#$%&'()*+,-./0123456789:;<=>?@[\\]^_`abcdefghijklmnopqrstuvwxyz{|}~");
}

#[test]
fn titles_are_transliterated_lowered_and_freed_of_the_article() {
    assert_eq!(normalize("The Beatles"), chars("beatles"));
    assert_eq!(normalize("Ärzte"), chars("arzte"));
    assert_eq!(normalize("Björk"), chars("bjork"));
    assert_eq!(normalize("Sigur Rós"), chars("sigur ros"));
    assert_eq!(normalize("Over the Rainbow"), chars("over rainbow"));
    assert_eq!(normalize("The The"), chars("the"));
    assert_eq!(normalize("Theatre"), chars("theatre"));
    assert_eq!(normalize(""), chars(""));
    assert_eq!(to_chars("héllo"), chars("héllo"));
}

#[test]
fn the_first_occurrence_is_cut_out() {
    assert_eq!(without_first(chars("abcabc"), &chars("bc")), chars("aabc"));
    assert_eq!(without_first(chars("abc"), &chars("abc")), chars(""));
    assert_eq!(without_first(chars("abc"), &chars("c")), chars("ab"));
    assert_eq!(without_first(chars("abc"), &chars("x")), chars("abc"));
    assert_eq!(without_first(chars("ab"), &chars("abc")), chars("ab"));
    assert_eq!(without_first(chars("abc"), &chars("")), chars("abc"));
}

#[test]
fn words_and_prefixes() {
    assert!(has_prefix(&chars("cure"), &chars("cu")));
    assert!(has_prefix(&chars("cure"), &chars("")));
    assert!(!has_prefix(&chars("cure"), &chars("cures")));
    assert!(!has_prefix(&chars("cure"), &chars("ur")));
    assert!(has_word_under(&chars("Bob Dylan"), 'd'));
    assert!(has_word_under(&chars("Bob Dylan"), 'b'));
    assert!(!has_word_under(&chars("Bob Dylan"), 'o'));
    assert!(!has_word_under(&chars("Bob  Dylan"), ' '));
    assert!(!has_word_under(&chars(""), 'a'));
    assert!(has_word_with_prefix(&chars("bob dylan"), &chars("dy")));
    assert!(has_word_with_prefix(&chars("bob dylan"), &chars("bob")));
    assert!(!has_word_with_prefix(&chars("bob dylan"), &chars("ob")));
    assert!(!has_word_with_prefix(&chars("bob dylan"), &chars("bob d")));
    assert!(has_word_with_prefix(&chars("bob "), &chars("")));
    assert!(!has_word_with_prefix(&chars(""), &chars("a")));
}

#[test]
fn the_first_item_under_a_character_is_found() {
    let titles = strings(&["Abba", "Ärzte", "Beatles", "The Cure", "Dylan"]);
    assert_eq!(find_by_first_char(&titles, false, 'a'), Some(0));
    assert_eq!(find_by_first_char(&titles, false, 'b'), Some(2));
    assert_eq!(find_by_first_char(&titles, false, 'c'), Some(3));
    assert_eq!(find_by_first_char(&titles, false, 'd'), Some(4));
    assert_eq!(find_by_first_char(&titles, false, 't'), None);
    assert_eq!(find_by_first_char(&titles, false, 'e'), None);
    assert_eq!(find_by_first_char(&titles, false, ' '), None);
    assert_eq!(find_by_first_char(&Vec::new(), false, 'a'), None);
}

#[test]
fn artists_are_found_by_any_of_their_words_in_order() {
    let titles = strings(&["Bob Dylan", "Dire Straits", "Van Morrison"]);
    assert_eq!(find_by_first_char(&titles, true, 'b'), Some(0));
    assert_eq!(find_by_first_char(&titles, true, 'd'), Some(1));
    assert_eq!(find_by_first_char(&titles, true, 's'), None);
    assert_eq!(find_by_first_char(&titles, true, 'm'), Some(2));
    assert_eq!(find_by_first_char(&titles, true, 'v'), None);
}

#[test]
fn what_was_typed_is_found_from_an_item_on() {
    let titles = strings(&["Abba", "Ärzte", "Beatles", "The Cure", "Curtis Mayfield"]);
    assert_eq!(find_by_prefix(&titles, false, &chars("ar"), 0), Some(1));
    assert_eq!(find_by_prefix(&titles, false, &chars("cur"), 0), Some(3));
    assert_eq!(find_by_prefix(&titles, false, &chars("cur"), 4), Some(4));
    assert_eq!(find_by_prefix(&titles, false, &chars("curt"), 3), Some(4));
    assert_eq!(find_by_prefix(&titles, false, &chars("may"), 0), None);
    assert_eq!(find_by_prefix(&titles, true, &chars("may"), 0), Some(4));
    assert_eq!(find_by_prefix(&titles, true, &chars("a"), 9), None);
}

#[test]
fn the_first_title_gives_the_browser_the_focus() {
    let mut app = App::new(true);
    assert!(app.no_unicode_symbols());
    assert_eq!(app.get_selected_view(), None);
    let (goes_on, sent) = app.update_on_event(IoEvent::BrowseTitle("Library".to_owned()));
    assert_eq!((goes_on, sent), (AppReturn::Continue, Vec::new()));
    assert_eq!(app.get_selected_view(), Some(Panel::Browse));
    assert_eq!(app.browse().title, Some("Library".to_owned()));
    assert_eq!(app.browse().state.selected, Some(0));
    app.update_on_event(IoEvent::CoreName(Some("Core".to_owned())));
    assert_eq!(app.core_name(), &Some("Core".to_owned()));
}

#[test]
fn runs_of_items_build_the_list_of_the_browser() {
    let mut app = browsing("Albums", &["A", "B"]);
    app.update_on_event(plain(KeyCode::Down));
    assert_eq!(app.browse().state.selected, Some(1));
    let (_, sent) = app.update_on_event(IoEvent::BrowseList(2, titled(&["C"])));
    assert_eq!(sent, Vec::new());
    assert_eq!(app.browse().items, Some(titled(&["A", "B", "C"])));
    assert_eq!(app.browse().state.selected, Some(0));
    let (_, sent) = app.update_on_event(IoEvent::BrowseList(5, titled(&["X"])));
    assert_eq!(sent, vec![IoEvent::BrowseRefresh]);
    assert_eq!(app.browse().items, Some(titled(&["A", "B", "C"])));
    app.update_on_event(IoEvent::BrowseList(0, titled(&["N"])));
    assert_eq!(app.browse().items, Some(titled(&["N"])));
    let mut fresh = App::new(false);
    let (_, sent) = fresh.update_on_event(IoEvent::BrowseList(3, titled(&["X"])));
    assert_eq!(sent, Vec::new());
    assert_eq!(fresh.browse().items, None);
}

fn queue_app() -> App {
    let mut app = browsing("Albums", &["A"]);
    let queue = vec![queue_item(1, "A"), queue_item(2, "B"), queue_item(3, "C")];
    let (_, sent) = app.update_on_event(IoEvent::QueueList(queue));
    assert_eq!(sent, vec![IoEvent::QueueListLast(Some(queue_item(3, "C")))]);
    app.update_on_event(plain(KeyCode::Tab));
    assert_eq!(app.get_selected_view(), Some(Panel::Queue));
    app.update_on_event(plain(KeyCode::Down));
    assert_eq!(app.queue().get_selected_item(), Some(&queue_item(2, "B")));
    app
}

#[test]
fn the_selected_track_stays_selected_when_one_before_it_leaves() {
    let mut app = queue_app();
    let changes = vec![QueueChange::Remove(0, 1)];
    assert!(app.accepts(&IoEvent::QueueListChanges(changes.clone())));
    let (_, sent) = app.update_on_event(IoEvent::QueueListChanges(changes));
    assert_eq!(app.queue().items, Some(vec![queue_item(2, "B"), queue_item(3, "C")]));
    assert_eq!(app.queue().state.selected, Some(0));
    assert_eq!(app.queue().get_selected_item(), Some(&queue_item(2, "B")));
    assert_eq!(sent, vec![IoEvent::QueueListLast(Some(queue_item(3, "C")))]);
}

#[test]
fn the_selection_follows_the_track_through_insertions() {
    let mut app = queue_app();
    let changes = vec![
        QueueChange::Insert(0, vec![queue_item(8, "X"), queue_item(9, "Y")]),
        QueueChange::Remove(4, 1),
    ];
    let (_, sent) = app.update_on_event(IoEvent::QueueListChanges(changes));
    assert_eq!(app.queue().state.selected, Some(3));
    assert_eq!(app.queue().items.as_ref().map(|items| items.len()), Some(4));
    assert_eq!(sent, vec![IoEvent::QueueListLast(Some(queue_item(2, "B")))]);
}

#[test]
fn the_selection_is_cleared_when_the_track_has_left() {
    let mut app = queue_app();
    let (_, sent) = app.update_on_event(IoEvent::QueueListChanges(vec![QueueChange::Remove(1, 2)]));
    assert_eq!(app.queue().state.selected, None);
    assert_eq!(sent, vec![IoEvent::QueueListLast(Some(queue_item(1, "A")))]);
    let (_, sent) = app.update_on_event(IoEvent::QueueListChanges(vec![QueueChange::Remove(0, 1)]));
    assert_eq!(app.queue().state.selected, None);
    assert_eq!(sent, vec![IoEvent::QueueListLast(None)]);
}

#[test]
fn changes_that_do_not_fit_the_queue_are_not_accepted() {
    let app = queue_app();
    assert!(!app.accepts(&IoEvent::QueueListChanges(vec![QueueChange::Remove(2, 2)])));
    assert!(!app.accepts(&IoEvent::QueueListChanges(vec![QueueChange::Insert(4, Vec::new())])));
    assert!(app.accepts(&IoEvent::QueueListChanges(vec![QueueChange::Insert(3, Vec::new())])));
    assert!(app.accepts(&IoEvent::Redraw));
    let fresh = App::new(false);
    assert!(fresh.accepts(&IoEvent::QueueListChanges(vec![QueueChange::Remove(2, 2)])));
}

#[test]
fn changes_without_a_queue_change_nothing() {
    let mut app = App::new(false);
    let (_, sent) = app.update_on_event(IoEvent::QueueListChanges(vec![QueueChange::Remove(0, 1)]));
    assert_eq!(sent, Vec::new());
    assert_eq!(app.queue().items, None);
}

#[test]
fn the_state_of_the_session_is_taken_over() {
    let mut app = App::new(false);
    assert_eq!(app.queue_mode_label(), None);
    app.update_on_event(IoEvent::QueueModeCurrent(QueueMode::RandomAlbum));
    assert_eq!(app.queue_mode(), QueueMode::RandomAlbum);
    assert_eq!(app.queue_mode_label(), Some("Random Album"));
    app.update_on_event(IoEvent::QueueModeCurrent(QueueMode::RoonRadio));
    assert_eq!(app.queue_mode_label(), Some("Roon Radio"));
    app.update_on_event(IoEvent::QueueModeCurrent(QueueMode::RandomTrack));
    assert_eq!(app.queue_mode_label(), Some("Random Track"));
    app.update_on_event(IoEvent::PauseOnTrackEndActive(true));
    assert!(app.pause_on_track_end());
    app.update_on_event(IoEvent::ZonePresetMatched(Some("Party".to_owned())));
    assert_eq!(app.matched_preset(), &Some("Party".to_owned()));
    assert_eq!(app.matched_draft_preset(), &None);
    let (_, sent) = app.update_on_event(IoEvent::ZoneChanged(zone("z1", "Kitchen")));
    assert_eq!(sent, Vec::new());
    assert_eq!(app.selected_zone(), &Some(zone("z1", "Kitchen")));
    let seek = ZoneSeek { zone_id: "z1".to_owned(), queue_time_remaining: 3725, seek_position: Some(1) };
    app.update_on_event(IoEvent::ZoneSeek(seek.clone()));
    assert_eq!(app.zone_seek(), &Some(seek));
    app.update_on_event(IoEvent::ZoneRemoved("z1".to_owned()));
    assert_eq!(app.selected_zone(), &None);
}

#[test]
fn the_time_left_in_the_queue() {
    let mut app = App::new(false);
    assert_eq!(get_queue_time_remaining(&app), None);
    app.update_on_event(IoEvent::ZoneChanged(zone("z1", "Kitchen")));
    assert_eq!(get_queue_time_remaining(&app), Some("1:15".to_owned()));
    let seek = ZoneSeek { zone_id: "z1".to_owned(), queue_time_remaining: 3725, seek_position: Some(1) };
    app.update_on_event(IoEvent::ZoneSeek(seek));
    assert_eq!(get_queue_time_remaining(&app), Some("1:02:05".to_owned()));
    let seek = ZoneSeek { zone_id: "z1".to_owned(), queue_time_remaining: 0, seek_position: Some(1) };
    app.update_on_event(IoEvent::ZoneSeek(seek));
    assert_eq!(get_queue_time_remaining(&app), None);
    let mut silent = zone("z1", "Kitchen");
    silent.now_playing = None;
    app.update_on_event(IoEvent::ZoneChanged(silent));
    assert_eq!(get_queue_time_remaining(&app), None);
}

fn end_points() -> Vec<(EndPoint, String)> {
    vec![
        (EndPoint::Zone("z0".to_owned()), "Attic".to_owned()),
        (EndPoint::MatchedPreset(("z1".to_owned(), "Party".to_owned())), "Kitchen".to_owned()),
        (EndPoint::Preset("All".to_owned()), "All".to_owned()),
    ]
}

#[test]
fn the_list_of_end_points_opens_on_the_selected_zone() {
    let mut app = browsing("Albums", &["A"]);
    app.update_on_event(IoEvent::ZoneChanged(zone("z1", "Kitchen")));
    app.update_on_event(IoEvent::Zones(end_points()));
    assert_eq!(app.zones().state.selected, None);
    app.update_on_event(control(KeyCode::Char('z')));
    assert_eq!(app.get_selected_view(), Some(Panel::Zones));
    assert_eq!(app.zones().state.selected, Some(1));
    assert_eq!(app.browse().state.selected, None);
    app.update_on_event(plain(KeyCode::Down));
    let (_, sent) = app.update_on_event(plain(KeyCode::Delete));
    assert_eq!(sent, vec![IoEvent::ZoneDeletePreset("All".to_owned())]);
    app.update_on_event(plain(KeyCode::Up));
    let (_, sent) = app.update_on_event(plain(KeyCode::Delete));
    assert_eq!(sent, Vec::new());
    let (_, sent) = app.update_on_event(plain(KeyCode::Enter));
    assert_eq!(
        sent,
        vec![IoEvent::ZoneSelected(EndPoint::MatchedPreset(("z1".to_owned(), "Party".to_owned())))]
    );
    assert_eq!(app.get_selected_view(), Some(Panel::Browse));
    assert_eq!(app.zones().state.selected, None);
    app.update_on_event(control(KeyCode::Char('z')));
    app.update_on_event(plain(KeyCode::Esc));
    assert_eq!(app.get_selected_view(), Some(Panel::Browse));
}

#[test]
fn a_request_for_a_zone_keeps_the_item_only_with_zones() {
    let mut app = browsing("Albums", &["A"]);
    app.update_on_event(IoEvent::Zones(vec![(EndPoint::Preset("All".to_owned()), "All".to_owned())]));
    app.update_on_event(IoEvent::ZoneSelect);
    assert_eq!(app.pending_item_key(), &None);
    assert_eq!(app.get_selected_view(), Some(Panel::Zones));
    assert_eq!(app.zones().state.selected, Some(0));
}

#[test]
fn the_keys_that_hold_everywhere() {
    let mut app = browsing("Albums", &["A"]);
    let sent = |app: &mut App, event: IoEvent| app.update_on_event(event).1;
    assert_eq!(sent(&mut app, control(KeyCode::Up)), vec![IoEvent::ChangeVolume(1)]);
    assert_eq!(sent(&mut app, control(KeyCode::Down)), vec![IoEvent::ChangeVolume(-1)]);
    assert_eq!(sent(&mut app, control(KeyCode::Left)), vec![IoEvent::Control(Control::Previous)]);
    assert_eq!(sent(&mut app, control(KeyCode::Right)), vec![IoEvent::Control(Control::Next)]);
    assert_eq!(sent(&mut app, control(KeyCode::Delete)), vec![IoEvent::QueueClear]);
    assert_eq!(sent(&mut app, control(KeyCode::Char('e'))), vec![IoEvent::PauseOnTrackEndReq]);
    assert_eq!(sent(&mut app, control(KeyCode::Char('p'))), vec![IoEvent::Control(Control::PlayPause)]);
    assert_eq!(sent(&mut app, control(KeyCode::Char(' '))), vec![IoEvent::Control(Control::PlayPause)]);
    assert_eq!(sent(&mut app, control(KeyCode::Char('q'))), vec![IoEvent::QueueModeNext]);
    assert_eq!(sent(&mut app, control(KeyCode::Char('a'))), vec![IoEvent::QueueModeAppend]);
    assert_eq!(sent(&mut app, control(KeyCode::Char('g'))), vec![IoEvent::ZoneGroupReq]);
    assert_eq!(sent(&mut app, control(KeyCode::Home)), vec![IoEvent::BrowseHome]);
    assert_eq!(sent(&mut app, control(KeyCode::Char('x'))), Vec::new());
    assert_eq!(app.update_on_event(control(KeyCode::Char('c'))), (AppReturn::Exit, Vec::new()));
    let released = KeyEvent {
        code: KeyCode::Char('c'),
        modifiers: KeyModifiers::Control,
        kind: KeyEventKind::Release,
    };
    assert_eq!(app.do_action(released), (AppReturn::Continue, Vec::new()));
    assert_eq!(app.update_on_event(key(KeyCode::Up, KeyModifiers::Other)).1, Vec::new());
}

#[test]
fn the_focus_goes_round_the_views() {
    let mut app = App::new(false);
    app.update_on_event(plain(KeyCode::Tab));
    assert_eq!(app.get_selected_view(), None);
    app.update_on_event(IoEvent::BrowseTitle("Library".to_owned()));
    app.update_on_event(plain(KeyCode::Tab));
    assert_eq!(app.get_selected_view(), Some(Panel::Queue));
    assert_eq!(app.queue().state.selected, Some(0));
    app.update_on_event(plain(KeyCode::Tab));
    assert_eq!(app.get_selected_view(), Some(Panel::NowPlaying));
    app.update_on_event(plain(KeyCode::Tab));
    assert_eq!(app.get_selected_view(), Some(Panel::Browse));
    app.update_on_event(key(KeyCode::BackTab, KeyModifiers::Shift));
    assert_eq!(app.get_selected_view(), Some(Panel::NowPlaying));
    app.update_on_event(key(KeyCode::BackTab, KeyModifiers::Shift));
    assert_eq!(app.get_selected_view(), Some(Panel::Queue));
    app.update_on_event(key(KeyCode::BackTab, KeyModifiers::Shift));
    assert_eq!(app.get_selected_view(), Some(Panel::Browse));
    app.update_on_event(control(KeyCode::Char('h')));
    assert_eq!(app.get_selected_view(), Some(Panel::Help));
    app.update_on_event(control(KeyCode::Char('z')));
    assert_eq!(app.get_selected_view(), Some(Panel::Zones));
    app.update_on_event(control(KeyCode::Char('h')));
    app.update_on_event(plain(KeyCode::Char('x')));
    assert_eq!(app.get_selected_view(), Some(Panel::Browse));
}

#[test]
fn the_keys_of_what_is_playing() {
    let mut app = browsing("Albums", &["A"]);
    app.update_on_event(plain(KeyCode::Tab));
    app.update_on_event(plain(KeyCode::Tab));
    let sent = |app: &mut App, c: char| app.update_on_event(plain(KeyCode::Char(c))).1;
    assert_eq!(sent(&mut app, 'm'), vec![IoEvent::Mute(Mute::Mute)]);
    assert_eq!(sent(&mut app, 'u'), vec![IoEvent::Mute(Mute::Unmute)]);
    assert_eq!(sent(&mut app, '+'), vec![IoEvent::ChangeVolume(1)]);
    assert_eq!(sent(&mut app, '-'), vec![IoEvent::ChangeVolume(-1)]);
    assert_eq!(sent(&mut app, 'r'), vec![IoEvent::Repeat]);
    assert_eq!(sent(&mut app, 's'), vec![IoEvent::Shuffle]);
    assert_eq!(sent(&mut app, 'x'), Vec::new());
}

#[test]
fn the_queue_is_played_from_the_selected_item() {
    let mut app = queue_app();
    app.update_on_event(plain(KeyCode::End));
    assert_eq!(app.queue().state.selected, Some(2));
    let (_, sent) = app.update_on_event(plain(KeyCode::Enter));
    assert_eq!(sent, vec![IoEvent::QueueSelected(3)]);
    assert_eq!(app.queue().state.selected, Some(0));
    app.update_on_event(plain(KeyCode::Home));
    assert_eq!(app.queue().state.selected, Some(0));
}

#[test]
fn typing_jumps_to_the_item() {
    let mut app = browsing("Albums", &["Abba", "Ärzte", "Beatles", "The Cure", "Curtis Mayfield"]);
    typed(&mut app, "c");
    assert_eq!(app.input(), "c");
    assert_eq!(app.browse().state.selected, Some(3));
    typed(&mut app, "u");
    assert_eq!(app.browse().state.selected, Some(3));
    typed(&mut app, "r");
    typed(&mut app, "T");
    assert_eq!(app.input(), "curt");
    assert_eq!(app.browse().state.selected, Some(4));
    typed(&mut app, "x");
    assert_eq!(app.input(), "curt");
    app.update_on_event(plain(KeyCode::Backspace));
    assert_eq!(app.input(), "cur");
    assert_eq!(app.browse().state.selected, Some(3));
    app.update_on_event(plain(KeyCode::Home));
    assert_eq!(app.input(), "");
    assert_eq!(app.browse().state.selected, Some(3));
    app.update_on_event(plain(KeyCode::Home));
    assert_eq!(app.browse().state.selected, Some(0));
    app.update_on_event(key(KeyCode::Char('A'), KeyModifiers::Shift));
    typed(&mut app, "r");
    assert_eq!(app.input(), "ar");
    assert_eq!(app.browse().state.selected, Some(1));
    typed(&mut app, "é");
    assert_eq!(app.input(), "ar");
    let (_, sent) = app.update_on_event(plain(KeyCode::Esc));
    assert_eq!(sent, vec![IoEvent::BrowseBack]);
    assert_eq!(app.input(), "");
    app.update_on_event(plain(KeyCode::Backspace));
    assert_eq!(app.browse().state.selected, Some(0));
}

#[test]
fn typing_in_the_list_of_artists_goes_by_words() {
    let mut app = browsing("Artists", &["Bob Dylan", "Dire Straits", "Van Morrison"]);
    typed(&mut app, "d");
    assert_eq!(app.browse().state.selected, Some(1));
    typed(&mut app, "i");
    assert_eq!(app.input(), "di");
    app.update_on_event(plain(KeyCode::Esc));
    typed(&mut app, "mor");
    assert_eq!(app.input(), "mor");
    assert_eq!(app.browse().state.selected, Some(2));
}

#[test]
fn the_keys_of_the_browser() {
    let mut app = browsing("Albums", &["A", "B", "C"]);
    app.update_on_event(plain(KeyCode::End));
    assert_eq!(app.browse().state.selected, Some(2));
    app.update_on_event(plain(KeyCode::Up));
    let (_, sent) = app.update_on_event(plain(KeyCode::Enter));
    assert_eq!(sent, vec![IoEvent::BrowseSelected(Some("B".to_owned()))]);
    let (_, sent) = app.update_on_event(plain(KeyCode::F(5)));
    assert_eq!(sent, vec![IoEvent::BrowseRefresh]);
    let (_, sent) = app.update_on_event(plain(KeyCode::F(6)));
    assert_eq!(sent, Vec::new());
    app.update_on_event(plain(KeyCode::PageDown));
    app.update_on_event(plain(KeyCode::PageUp));
    assert_eq!(app.browse().state.selected, Some(1));
}

fn prompting() -> App {
    let mut app = App::new(false);
    app.update_on_event(IoEvent::BrowseTitle("Library".to_owned()));
    let mut search = item("Search", Some("s1"));
    search.input_prompt = Some("Search for".to_owned());
    app.update_on_event(IoEvent::BrowseList(0, vec![search]));
    let (_, sent) = app.update_on_event(plain(KeyCode::Enter));
    assert_eq!(sent, Vec::new());
    assert_eq!(app.get_selected_view(), Some(Panel::Prompt));
    assert_eq!(app.prompt(), "Search for");
    app.set_max_input_len(5);
    app
}

#[test]
fn the_prompt_sends_its_input_with_the_item() {
    let mut app = prompting();
    typed(&mut app, "abba");
    app.update_on_event(key(KeyCode::Char('X'), KeyModifiers::Shift));
    typed(&mut app, "yz");
    assert_eq!(app.input(), "abbaX");
    assert_eq!(app.cursor_position(), 5);
    let (_, sent) = app.update_on_event(plain(KeyCode::Enter));
    assert_eq!(
        sent,
        vec![IoEvent::BrowseInput("abbaX".to_owned()), IoEvent::BrowseSelected(Some("s1".to_owned()))]
    );
    assert_eq!(app.input(), "");
    assert_eq!(app.cursor_position(), 0);
    assert_eq!(app.pending_item_key(), &None);
    assert_eq!(app.get_selected_view(), Some(Panel::Browse));
}

#[test]
fn the_input_is_edited_at_the_cursor() {
    let mut app = prompting();
    typed(&mut app, "abc");
    app.update_on_event(plain(KeyCode::Left));
    typed(&mut app, "x");
    assert_eq!(app.input(), "abxc");
    assert_eq!(app.cursor_position(), 3);
    app.update_on_event(plain(KeyCode::Backspace));
    assert_eq!(app.input(), "abc");
    app.update_on_event(plain(KeyCode::Home));
    app.update_on_event(plain(KeyCode::Backspace));
    assert_eq!(app.input(), "abc");
    app.update_on_event(plain(KeyCode::Delete));
    assert_eq!(app.input(), "bc");
    assert_eq!(app.cursor_position(), 0);
    app.update_on_event(plain(KeyCode::End));
    assert_eq!(app.cursor_position(), 2);
    app.update_on_event(plain(KeyCode::Right));
    assert_eq!(app.cursor_position(), 2);
    app.update_on_event(plain(KeyCode::Delete));
    assert_eq!(app.input(), "b");
    app.update_on_event(plain(KeyCode::Left));
    app.update_on_event(plain(KeyCode::Left));
    assert_eq!(app.cursor_position(), 0);
    let (_, sent) = app.update_on_event(plain(KeyCode::Esc));
    assert_eq!(sent, Vec::new());
    assert_eq!(app.input(), "");
    assert_eq!(app.pending_item_key(), &None);
    assert_eq!(app.get_selected_view(), Some(Panel::Browse));
}

fn candidates() -> Vec<(String, String, bool)> {
    vec![
        ("o1".to_owned(), "Kitchen".to_owned(), true),
        ("o2".to_owned(), "Bath".to_owned(), false),
        ("o3".to_owned(), "Attic".to_owned(), false),
    ]
}

fn grouping() -> App {
    let mut app = browsing("Albums", &["A"]);
    app.update_on_event(IoEvent::ZonePresetMatched(Some("Solo".to_owned())));
    app.update_on_event(IoEvent::ZoneGrouping(Some(candidates())));
    assert_eq!(app.get_selected_view(), Some(Panel::Grouping));
    assert_eq!(app.grouping().state.selected, Some(0));
    assert_eq!(app.matched_draft_preset(), &Some("Solo".to_owned()));
    app
}

#[test]
fn candidates_are_switched_and_matched() {
    let mut app = grouping();
    app.update_on_event(plain(KeyCode::Down));
    let (_, sent) = app.update_on_event(plain(KeyCode::Char(' ')));
    assert_eq!(sent, vec![IoEvent::ZoneMatchPreset(strings(&["o1", "o2"]))]);
    app.update_on_event(IoEvent::ZonePresetMatched(Some("Party".to_owned())));
    assert_eq!(app.matched_draft_preset(), &Some("Party".to_owned()));
    assert_eq!(app.matched_preset(), &Some("Solo".to_owned()));
    let (_, sent) = app.update_on_event(plain(KeyCode::Char(' ')));
    assert_eq!(sent, Vec::new());
    assert_eq!(app.grouping().items, Some(candidates()));
    assert_eq!(get_included_output_ids(&candidates()), strings(&["o1"]));
}

#[test]
fn a_grouping_is_confirmed() {
    let mut app = grouping();
    app.update_on_event(plain(KeyCode::End));
    app.update_on_event(plain(KeyCode::Char(' ')));
    let (_, sent) = app.update_on_event(plain(KeyCode::Enter));
    assert_eq!(sent, vec![IoEvent::ZoneGrouped(strings(&["o1", "o3"]))]);
    assert_eq!(app.get_selected_view(), Some(Panel::Browse));
    let mut empty = grouping();
    empty.update_on_event(plain(KeyCode::Char(' ')));
    let (_, sent) = empty.update_on_event(plain(KeyCode::Enter));
    assert_eq!(sent, Vec::new());
    let mut left = grouping();
    left.update_on_event(plain(KeyCode::Esc));
    assert_eq!(left.get_selected_view(), Some(Panel::Browse));
}

#[test]
fn a_grouping_is_saved_as_a_preset() {
    let mut app = grouping();
    let (_, sent) = app.update_on_event(plain(KeyCode::Char('s')));
    assert_eq!(sent, Vec::new());
    assert_eq!(app.get_selected_view(), Some(Panel::Grouping));
    app.update_on_event(plain(KeyCode::Down));
    app.update_on_event(plain(KeyCode::Char(' ')));
    app.update_on_event(IoEvent::ZonePresetMatched(Some("Duo".to_owned())));
    app.update_on_event(plain(KeyCode::Char('s')));
    assert_eq!(app.get_selected_view(), Some(Panel::GroupingPreset));
    assert_eq!(app.input(), "Duo");
    assert_eq!(app.cursor_position(), 3);
    assert_eq!(app.grouping().state.selected, None);
    app.set_max_input_len(8);
    typed(&mut app, "s");
    app.update_on_event(plain(KeyCode::Enter));
    assert_eq!(app.get_selected_view(), Some(Panel::Grouping));
    assert_eq!(app.grouping().state.selected, Some(0));
    assert_eq!(app.input(), "Duos");
    let (_, sent) = app.update_on_event(plain(KeyCode::Enter));
    assert_eq!(sent, vec![IoEvent::ZoneSavePreset("Duos".to_owned(), strings(&["o1", "o2"]))]);
    assert_eq!(app.input(), "");
}

#[test]
fn the_name_of_a_preset_can_be_given_up() {
    let mut app = grouping();
    app.update_on_event(plain(KeyCode::Down));
    app.update_on_event(plain(KeyCode::Char(' ')));
    app.update_on_event(plain(KeyCode::Char('s')));
    app.set_max_input_len(8);
    typed(&mut app, "x");
    app.update_on_event(plain(KeyCode::Esc));
    assert_eq!(app.get_selected_view(), Some(Panel::Grouping));
    assert_eq!(app.input(), "");
    let (_, sent) = app.update_on_event(plain(KeyCode::Enter));
    assert_eq!(sent, vec![IoEvent::ZoneGrouped(strings(&["o1", "o2"]))]);
}

#[test]
fn candidates_without_any_do_not_take_the_focus() {
    let mut app = browsing("Albums", &["A"]);
    app.update_on_event(IoEvent::ZoneGrouping(Some(Vec::new())));
    assert_eq!(app.get_selected_view(), Some(Panel::Browse));
    assert_eq!(app.grouping().items, Some(Vec::new()));
    app.update_on_event(IoEvent::ZoneGrouping(None));
    assert_eq!(app.grouping().items, None);
    app.update_on_event(control(KeyCode::Char('h')));
    app.update_on_event(IoEvent::ZoneGrouping(Some(candidates())));
    assert_eq!(app.get_selected_view(), Some(Panel::Grouping));
    app.update_on_event(plain(KeyCode::Esc));
    assert_eq!(app.get_selected_view(), Some(Panel::Browse));
    let (_, sent) = app.update_on_event(control(KeyCode::Char('g')));
    assert_eq!(sent, vec![IoEvent::ZoneGroupReq]);
    app.update_on_event(IoEvent::ZoneGrouping(Some(candidates())));
    let (_, sent) = app.update_on_event(control(KeyCode::Char('g')));
    assert_eq!(sent, Vec::new());
}

#[test]
fn paging_is_taken_over_from_the_screen() {
    let mut app = browsing("Albums", &["A", "B", "C", "D", "E"]);
    app.set_paging((2, vec![1; 5]), (0, Vec::new()), (0, Vec::new()), (0, Vec::new()));
    app.update_on_event(plain(KeyCode::PageDown));
    assert_eq!(app.browse().state.selected, Some(1));
    app.update_on_event(plain(KeyCode::PageDown));
    assert_eq!(app.browse().state.selected, Some(2));
    app.set_offsets(2, 0, 0, 0);
    assert_eq!(app.browse().state.offset, 2);
    app.update_on_event(plain(KeyCode::PageUp));
    assert_eq!(app.browse().state, ListState { selected: Some(1), offset: 1 });
}
