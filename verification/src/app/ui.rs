//! What the screen shows of the state, as far as it is text and numbers.

use vstd::prelude::*;
use vstd::string::*;
use crate::app::{App, AppView};
use crate::io::transport::State;
use crate::text::{push_decimal, push_two_digits, time_string};

verus! {

/// Formats a duration given in seconds for display.
pub fn get_time_string(seconds: u32) -> (r: String)
    ensures
        r@ == time_string(seconds as nat),
{
    let hours = seconds / 3600;
    let minutes = (seconds % 3600) / 60;
    let rest = seconds % 60;
    let mut out = String::new();
    proof {
        reveal_strlit(":");
    }
    if hours > 0 {
        push_decimal(&mut out, hours);
        out.append(":");
        push_two_digits(&mut out, minutes);
    } else {
        push_decimal(&mut out, minutes);
    }
    out.append(":");
    push_two_digits(&mut out, rest);
    assert(out@ =~= time_string(seconds as nat));
    out
}

/// The first `trim_len` characters of `string`, or all of it where it has
/// fewer, together with the number of characters kept.
pub fn trim_string(string: &str, trim_len: usize) -> (r: (usize, &str))
    ensures
        r.0 == if trim_len < string@.len() { trim_len as nat } else { string@.len() },
        r.1@ == string@.take(r.0 as int),
{
    let n = string.unicode_len();
    if trim_len < n {
        let part = string.substring_char(0, trim_len);
        (trim_len, part)
    } else {
        assert(string@.take(n as int) =~= string@);
        (n, string)
    }
}

/// The number of seconds that a position in a track or a time left in a
/// queue stands for on the screen.
pub open spec fn shown_seconds(seconds: i64) -> u32 {
    (seconds as int % 0x1_0000_0000) as u32
}

/// The time left in the queue as it is shown: that of the last report of
/// the position where there is one, else that of the zone; shown only while
/// something of a known length plays and time is left.
pub open spec fn queue_time_remaining(a: AppView) -> Option<Seq<char>> {
    match a.selected_zone {
        Some(zone) => match zone.now_playing {
            Some(now_playing) => {
                let remaining = match a.zone_seek {
                    Some(seek) => seek.queue_time_remaining,
                    None => zone.queue_time_remaining,
                };
                if remaining > 0 && now_playing.length is Some {
                    Some(time_string(shown_seconds(remaining) as nat))
                } else {
                    None
                }
            },
            None => None,
        },
        None => None,
    }
}

fn seconds_of(seconds: i64) -> (r: u32)
    ensures
        r == shown_seconds(seconds),
{
    let low = seconds % 0x1_0000_0000;
    if low < 0 {
        (low + 0x1_0000_0000) as u32
    } else {
        low as u32
    }
}

/// The time left in the queue as it is shown.
pub fn get_queue_time_remaining(app: &App) -> (r: Option<String>)
    ensures
        r.deep_view() == queue_time_remaining(app.deep_view()),
{
    let zone = match app.selected_zone() {
        Some(zone) => zone,
        None => {
            return None;
        },
    };
    let now_playing = match &zone.now_playing {
        Some(now_playing) => now_playing,
        None => {
            return None;
        },
    };
    let remaining = match app.zone_seek() {
        Some(seek) => seek.queue_time_remaining,
        None => zone.queue_time_remaining,
    };
    if remaining > 0 && now_playing.length.is_some() {
        Some(get_time_string(seconds_of(remaining)))
    } else {
        None
    }
}

/// How far a track has come, in hundredths of its length and not beyond
/// them; zero for a track without a length.
pub open spec fn progress_percent(duration: u32, elapsed: u32) -> u16 {
    if duration > 0 {
        if elapsed * 100 / (duration as int) > 100 {
            100u16
        } else {
            (elapsed * 100 / (duration as int)) as u16
        }
    } else {
        0u16
    }
}

/// The text on the bar that shows how far a track has come: the time
/// played, and the length of the track where it is known.
pub open spec fn progress_label(duration: u32, elapsed: u32) -> Seq<char> {
    if duration > 0 {
        time_string(elapsed as nat) + " / "@ + time_string(duration as nat)
    } else {
        time_string(elapsed as nat)
    }
}

/// The bar that shows how far a track has come: its fill and its text.
/// Nothing without a position.
pub fn progress(duration: u32, seek_position: Option<i64>) -> (r: Option<(u16, String)>)
    ensures
        match seek_position {
            Some(position) => match r {
                Some(bar) => bar.0 == progress_percent(duration, shown_seconds(position))
                    && bar.1@ == progress_label(duration, shown_seconds(position)),
                None => false,
            },
            None => r is None,
        },
{
    let elapsed = match seek_position {
        Some(position) => seconds_of(position),
        None => {
            return None;
        },
    };
    let percent: u16 = if duration > 0 {
        let scaled: u64 = (elapsed as u64) * 100 / (duration as u64);
        if scaled > 100 {
            100
        } else {
            scaled as u16
        }
    } else {
        0
    };
    let mut label = get_time_string(elapsed);
    if duration > 0 {
        label.append(" / ");
        label.append(get_time_string(duration).as_str());
    }
    Some((percent, label))
}

/// The title that names the state of playback.
pub open spec fn play_state_title(state: State, pause_on_track_end: bool) -> Seq<char> {
    match state {
        State::Loading => "Loading"@,
        State::Paused => "Paused"@,
        State::Playing => if pause_on_track_end {
            "Pause at End of Track"@
        } else {
            "Playing"@
        },
        State::Stopped => "Stopped"@,
    }
}

/// The title that names the state of playback.
pub fn get_play_state_title(state: State, pause_on_track_end: bool) -> (r: &'static str)
    ensures
        r@ == play_state_title(state, pause_on_track_end),
{
    match state {
        State::Loading => "Loading",
        State::Paused => "Paused",
        State::Playing => if pause_on_track_end {
            "Pause at End of Track"
        } else {
            "Playing"
        },
        State::Stopped => "Stopped",
    }
}

} // verus!
