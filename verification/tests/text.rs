use roon_tui::app::ui::{get_play_state_title, get_time_string, progress, trim_string};
use roon_tui::io::transport::State;
use roon_tui::text::{decimal_string, str_eq, str_less, string_of};

#[test]
fn time_string_under_an_hour() {
    assert_eq!(get_time_string(0), "0:00");
    assert_eq!(get_time_string(59), "0:59");
    assert_eq!(get_time_string(60), "1:00");
    assert_eq!(get_time_string(754), "12:34");
    assert_eq!(get_time_string(3599), "59:59");
}

#[test]
fn time_string_from_an_hour_on() {
    assert_eq!(get_time_string(3600), "1:00:00");
    assert_eq!(get_time_string(3661), "1:01:01");
    assert_eq!(get_time_string(36_000 + 5 * 60 + 7), "10:05:07");
    assert_eq!(get_time_string(u32::MAX), "1193046:28:15");
}

#[test]
fn decimal_of_numbers() {
    assert_eq!(decimal_string(0), "0");
    assert_eq!(decimal_string(7), "7");
    assert_eq!(decimal_string(10), "10");
    assert_eq!(decimal_string(4_294_967_295), "4294967295");
}

#[test]
fn trim_keeps_a_prefix_of_characters() {
    assert_eq!(trim_string("hello", 3), (3, "hel"));
    assert_eq!(trim_string("hello", 5), (5, "hello"));
    assert_eq!(trim_string("hello", 9), (5, "hello"));
    assert_eq!(trim_string("hello", 0), (0, ""));
    assert_eq!(trim_string("", 4), (0, ""));
}

#[test]
fn trim_counts_characters_not_bytes() {
    assert_eq!(trim_string("héllo wörld", 2), (2, "hé"));
    assert_eq!(trim_string("深圳市", 2), (2, "深圳"));
    assert_eq!(trim_string("深圳市", 3), (3, "深圳市"));
}

#[test]
fn strings_compare_by_their_characters() {
    assert!(str_eq("abc", "abc"));
    assert!(!str_eq("abc", "abd"));
    assert!(!str_eq("abc", "ab"));
    assert!(str_eq("", ""));
    assert!(str_eq("héllo", "héllo"));
}

#[test]
fn strings_order_as_the_standard_library_orders_them() {
    let words = ["", "a", "ab", "abc", "b", "B", "Zebra", "apple", "é", "z", "深"];
    for x in words {
        for y in words {
            assert_eq!(str_less(x, y), x < y, "{:?} < {:?}", x, y);
        }
    }
}

#[test]
fn a_string_is_made_of_its_characters() {
    assert_eq!(string_of(&vec!['a', 'é', '深']), "aé深");
    assert_eq!(string_of(&Vec::new()), "");
}

#[test]
fn progress_shows_time_played_and_length() {
    assert_eq!(progress(200, Some(50)), Some((25, "0:50 / 3:20".to_owned())));
    assert_eq!(progress(200, Some(0)), Some((0, "0:00 / 3:20".to_owned())));
    assert_eq!(progress(200, Some(200)), Some((100, "3:20 / 3:20".to_owned())));
    assert_eq!(progress(3, Some(1)), Some((33, "0:01 / 0:03".to_owned())));
}

#[test]
fn progress_without_a_length_or_a_position() {
    assert_eq!(progress(0, Some(75)), Some((0, "1:15".to_owned())));
    assert_eq!(progress(200, None), None);
}

#[test]
fn progress_does_not_go_beyond_the_length() {
    assert_eq!(progress(100, Some(250)), Some((100, "4:10 / 1:40".to_owned())));
    assert_eq!(progress(1, Some(4_000_000_000)).map(|bar| bar.0), Some(100));
}

#[test]
fn play_state_titles() {
    assert_eq!(get_play_state_title(State::Loading, false), "Loading");
    assert_eq!(get_play_state_title(State::Paused, true), "Paused");
    assert_eq!(get_play_state_title(State::Playing, false), "Playing");
    assert_eq!(get_play_state_title(State::Playing, true), "Pause at End of Track");
    assert_eq!(get_play_state_title(State::Stopped, false), "Stopped");
}
