use bjj_scoreboard::bjj_match::competitor::CompetitorNumber;
use bjj_scoreboard::bjj_match::player_score::PlayerScore;
use bjj_scoreboard::bjj_match::MatchState;
use bjj_scoreboard::scoreboard::{command_for_key, Command, Key, Scoreboard};
use bjj_scoreboard::AppState;

const T0: u64 = 1_000_000;

fn ready_board() -> Scoreboard {
    let mut b = Scoreboard::new();
    b.app_state = AppState::Ready;
    b
}

#[test]
fn key_bindings() {
    assert_eq!(command_for_key(Key::Q), Command::AddPoints(2, CompetitorNumber::One));
    assert_eq!(command_for_key(Key::W), Command::AddPoints(3, CompetitorNumber::One));
    assert_eq!(command_for_key(Key::E), Command::AddPoints(4, CompetitorNumber::One));
    assert_eq!(command_for_key(Key::R), Command::AddAdvantage(CompetitorNumber::One));
    assert_eq!(command_for_key(Key::T), Command::AddPenalty(CompetitorNumber::One));
    assert_eq!(command_for_key(Key::Y), Command::SubtractPoint(CompetitorNumber::One));
    assert_eq!(command_for_key(Key::U), Command::SubtractAdvantage(CompetitorNumber::One));
    assert_eq!(command_for_key(Key::I), Command::SubtractPenalty(CompetitorNumber::One));
    assert_eq!(command_for_key(Key::A), Command::AddPoints(2, CompetitorNumber::Two));
    assert_eq!(command_for_key(Key::S), Command::AddPoints(3, CompetitorNumber::Two));
    assert_eq!(command_for_key(Key::D), Command::AddPoints(4, CompetitorNumber::Two));
    assert_eq!(command_for_key(Key::F), Command::AddAdvantage(CompetitorNumber::Two));
    assert_eq!(command_for_key(Key::G), Command::AddPenalty(CompetitorNumber::Two));
    assert_eq!(command_for_key(Key::H), Command::SubtractPoint(CompetitorNumber::Two));
    assert_eq!(command_for_key(Key::J), Command::SubtractAdvantage(CompetitorNumber::Two));
    assert_eq!(command_for_key(Key::K), Command::SubtractPenalty(CompetitorNumber::Two));
    assert_eq!(command_for_key(Key::Space), Command::StartStop);
    assert_eq!(command_for_key(Key::F11), Command::ToggleFullscreen);
}

#[test]
fn commands_wait_while_settings_are_open() {
    let mut b = Scoreboard::new();
    assert_eq!(b.app_state, AppState::NewMatchDialog);
    assert!(!b.apply_at(Command::StartStop, T0));
    assert!(!b.apply_at(Command::AddPoints(2, CompetitorNumber::One), T0));
    assert!(!b.apply_at(Command::ToggleFullscreen, T0));
    assert_eq!(b.app_state, AppState::NewMatchDialog);
    assert_eq!(b.bjj_match.score.competitor_one_score, PlayerScore::default());
    assert!(!b.fullscreen);
}

#[test]
fn space_begins_then_pauses_and_resumes() {
    let mut b = ready_board();
    assert!(b.apply_at(Command::StartStop, T0));
    assert_eq!(b.app_state, AppState::InProgress);
    assert_eq!(b.bjj_match.get_match_state_at(T0), MatchState::InProgress);
    assert!(!b.apply_at(Command::StartStop, T0 + 10_000));
    assert!(!b.bjj_match.time.running);
    assert!(!b.apply_at(Command::StartStop, T0 + 20_000));
    assert!(b.bjj_match.time.running);
    assert_eq!(b.bjj_match.time.get_remaining_time_milliseconds_at(T0 + 21_000), 289_000);
}

#[test]
fn scoring_and_fullscreen_commands() {
    let mut b = ready_board();
    b.apply_at(command_for_key(Key::W), T0);
    b.apply_at(command_for_key(Key::R), T0);
    b.apply_at(command_for_key(Key::G), T0);
    b.apply_at(command_for_key(Key::F11), T0);
    assert_eq!(b.bjj_match.score.competitor_one_score, PlayerScore { points: 3, advantages: 1, penalties: 0 });
    assert_eq!(b.bjj_match.score.competitor_two_score, PlayerScore { points: 0, advantages: 0, penalties: 1 });
    assert!(b.fullscreen);
    assert_eq!(b.app_state, AppState::Ready);
}

#[test]
fn time_up_returns_to_ready() {
    let mut b = ready_board();
    assert!(!b.tick_at(T0));
    b.apply_at(Command::StartStop, T0);
    assert!(!b.tick_at(T0 + 299_999));
    assert_eq!(b.app_state, AppState::InProgress);
    assert!(b.tick_at(T0 + 300_000));
    assert_eq!(b.app_state, AppState::Ready);
    assert!(!b.tick_at(T0 + 400_000));
}

#[test]
fn can_apply_refuses_overflow() {
    let mut b = ready_board();
    b.bjj_match.score.competitor_two_score.points = usize::MAX - 1;
    assert!(!b.can_apply(Command::AddPoints(2, CompetitorNumber::Two)));
    assert!(b.can_apply(Command::AddPoints(1, CompetitorNumber::Two)));
    assert!(b.can_apply(Command::AddPoints(2, CompetitorNumber::One)));
    b.bjj_match.score.competitor_one_score.advantages = usize::MAX;
    assert!(!b.can_apply(Command::AddAdvantage(CompetitorNumber::One)));
    assert!(b.can_apply(Command::SubtractAdvantage(CompetitorNumber::One)));
    b.bjj_match.info.match_time_minutes = usize::MAX;
    assert!(!b.can_apply(Command::StartStop));
    b.app_state = AppState::InProgress;
    assert!(b.can_apply(Command::StartStop));
}

#[test]
fn wall_clock_commands() {
    let mut b = ready_board();
    assert!(b.apply(Command::StartStop));
    assert!(!b.tick());
    assert!(b.bjj_match.time.running);
    assert!(!b.apply(Command::StartStop));
    assert!(!b.bjj_match.time.running);
}
