use bjj_scoreboard::bjj_match::competitor::Competitor;
use bjj_scoreboard::bjj_match::match_time::{format_clock, MatchTime};
use bjj_scoreboard::bjj_match::{BJJMatch, MatchState};

const T0: u64 = 1_700_000_000_000;

fn five_minute_match() -> BJJMatch {
    BJJMatch::new(Competitor::default(), Competitor::default(), 5, 1, 1)
}

#[test]
fn remaining_after_one_and_a_half_seconds() {
    let mut m = five_minute_match();
    assert_eq!(m.time.duration_millis, 300_000);
    m.start_at(T0);
    assert_eq!(m.time.get_remaining_time_milliseconds_at(T0 + 1500), 298_500);
    assert_eq!(m.time.get_remaining_time_string_at(T0 + 1500), "04:58.500");
}

#[test]
fn clock_text_formats() {
    assert_eq!(format_clock(0), "00:00.000");
    assert_eq!(format_clock(300_000), "05:00.000");
    assert_eq!(format_clock(59_999), "00:59.999");
    assert_eq!(format_clock(3_599_999), "59:59.999");
    assert_eq!(format_clock(3_600_000), "1:00:00.000");
    assert_eq!(format_clock(3_723_004), "1:02:03.004");
    assert_eq!(format_clock(36_000_000 * 3 + 5), "30:00:00.005");
}

#[test]
fn start_twice_and_stop_twice_change_nothing() {
    let mut c = MatchTime::with_duration(60_000);
    c.start_at(T0);
    let once = c;
    c.start_at(T0 + 500);
    assert_eq!(c, once);
    c.stop_at(T0 + 1000);
    let stopped = c;
    c.stop_at(T0 + 4000);
    assert_eq!(c, stopped);
    assert_eq!(c.time_elapsed_millis, 1000);
    assert_eq!(c.last_started, None);
}

#[test]
fn remaining_falls_while_running_and_holds_while_stopped() {
    let mut c = MatchTime::with_duration(10_000);
    assert_eq!(c.get_remaining_time_milliseconds_at(T0), 10_000);
    c.start_at(T0);
    let a = c.get_remaining_time_milliseconds_at(T0 + 100);
    let b = c.get_remaining_time_milliseconds_at(T0 + 2_000);
    assert_eq!((a, b), (9_900, 8_000));
    assert_eq!(c.get_remaining_time_milliseconds_at(T0 + 50_000), 0);
    c.stop_at(T0 + 3_000);
    assert_eq!(c.get_remaining_time_milliseconds_at(T0 + 3_000), 7_000);
    assert_eq!(c.get_remaining_time_milliseconds_at(T0 + 90_000), 7_000);
}

#[test]
fn pause_adds_nothing_to_elapsed() {
    let mut c = MatchTime::with_duration(300_000);
    c.start_at(T0);
    c.stop_at(T0 + 2_000);
    assert_eq!(c.time_elapsed_millis, 2_000);
    c.start_at(T0 + 60_000);
    assert_eq!(c.time_elapsed_millis, 2_000);
    assert_eq!(c.get_remaining_time_milliseconds_at(T0 + 61_000), 297_000);
    c.toggle_start_stop_at(T0 + 62_000);
    assert!(!c.running);
    assert_eq!(c.time_elapsed_millis, 4_000);
    c.toggle_start_stop_at(T0 + 70_000);
    assert!(c.running);
    assert_eq!(c.last_started, Some(T0 + 70_000));
}

#[test]
fn clock_going_back_counts_as_no_time() {
    let mut c = MatchTime::with_duration(10_000);
    c.start_at(T0);
    assert_eq!(c.get_remaining_time_milliseconds_at(T0 - 5_000), 10_000);
    c.stop_at(T0 - 5_000);
    assert_eq!(c.time_elapsed_millis, 0);
}

#[test]
fn elapsed_saturates_instead_of_overflowing() {
    let mut c = MatchTime::with_duration(10_000);
    c.time_elapsed_millis = usize::MAX - 1;
    c.start_at(0);
    assert_eq!(c.get_remaining_time_milliseconds_at(u64::MAX), 0);
    c.stop_at(u64::MAX);
    assert_eq!(c.time_elapsed_millis, usize::MAX);
}

#[test]
fn state_runs_from_not_started_to_finished() {
    let mut m = five_minute_match();
    assert_eq!(m.get_match_state_at(T0), MatchState::NotStarted);
    m.start_at(T0);
    assert_eq!(m.get_match_state_at(T0), MatchState::InProgress);
    assert_eq!(m.get_match_state_at(T0 + 299_999), MatchState::InProgress);
    assert_eq!(m.get_match_state_at(T0 + 300_000), MatchState::Finished);
    m.toggle_start_stop_at(T0 + 301_000);
    assert_eq!(m.get_match_state_at(T0 + 302_000), MatchState::Finished);
    m.toggle_start_stop_at(T0 + 303_000);
    assert_eq!(m.get_match_state_at(T0 + 304_000), MatchState::Finished);
}

#[test]
fn paused_match_stays_in_progress() {
    let mut m = five_minute_match();
    m.start_at(T0);
    m.toggle_start_stop_at(T0 + 10_000);
    assert_eq!(m.get_match_state_at(T0 + 1_000_000), MatchState::InProgress);
}

#[test]
fn stopped_before_any_time_is_still_started() {
    let mut m = five_minute_match();
    m.start_at(T0);
    m.toggle_start_stop_at(T0);
    assert!(!m.time.running);
    assert_eq!(m.get_match_state_at(T0), MatchState::InProgress);
}

#[test]
fn begin_uses_minutes_set_late_and_clears_elapsed() {
    let mut m = five_minute_match();
    m.info.match_time_minutes = 2;
    m.time.time_elapsed_millis = 40_000;
    m.start_at(T0);
    assert_eq!(m.time.duration_millis, 120_000);
    assert_eq!(m.time.time_elapsed_millis, 0);
    assert_eq!(m.time.get_remaining_time_milliseconds_at(T0 + 1_000), 119_000);
}

#[test]
fn zero_minute_match_finishes_at_once() {
    let mut m = BJJMatch::new(Competitor::default(), Competitor::default(), 0, 1, 1);
    m.start_at(T0);
    assert_eq!(m.get_match_state_at(T0), MatchState::Finished);
}

#[test]
fn wall_clock_start_counts_down() {
    let mut m = five_minute_match();
    assert_eq!(m.get_match_state(), MatchState::NotStarted);
    m.start();
    assert!(m.time.running);
    assert!(m.time.last_started.is_some());
    let left = m.time.get_remaining_time_milliseconds();
    assert!(left <= 300_000 && left > 290_000);
    assert_eq!(m.get_match_state(), MatchState::InProgress);
    m.toggle_start_stop();
    assert!(!m.time.running);
    let text = m.time.get_remaining_time_string();
    assert!(text.starts_with("04:") || text == "05:00.000");
}

#[test]
fn default_clock_is_stopped_at_zero() {
    let c = MatchTime::default();
    assert_eq!(c, MatchTime::with_duration(0));
    assert_eq!(c.get_remaining_time_milliseconds_at(T0), 0);
    let m = BJJMatch::default();
    assert_eq!(m.get_match_state_at(T0), MatchState::NotStarted);
    assert_eq!(m.info.match_time_minutes, 5);
}
