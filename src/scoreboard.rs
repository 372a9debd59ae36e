use vstd::prelude::*;

use crate::bjj_match::competitor::CompetitorNumber;
use crate::bjj_match::match_time::now_millis;
use crate::bjj_match::player_score::{ScoreField, ScoreOp};
use crate::bjj_match::BJJMatch;

verus! {

/// The screen the scoreboard shows.
#[derive(Debug, Clone, Copy, PartialEq, Eq, Structural)]
pub enum AppState {
    /// The match settings are being entered.
    NewMatchDialog,
    /// The match has begun; the clock may be paused.
    InProgress,
    /// Settings are confirmed and the match waits to begin.
    Ready,
}

/// The keys the operator uses.
#[derive(Debug, Clone, Copy, PartialEq, Eq, Structural)]
pub enum Key {
    F11,
    Q,
    W,
    E,
    R,
    T,
    Y,
    U,
    I,
    A,
    S,
    D,
    F,
    G,
    H,
    J,
    K,
    Space,
}

/// What the operator asks for.
#[derive(Debug, Clone, Copy, PartialEq, Eq, Structural)]
pub enum Command {
    ToggleFullscreen,
    AddPoints(usize, CompetitorNumber),
    AddAdvantage(CompetitorNumber),
    AddPenalty(CompetitorNumber),
    SubtractPoint(CompetitorNumber),
    SubtractAdvantage(CompetitorNumber),
    SubtractPenalty(CompetitorNumber),
    /// Begins a ready match, or pauses and resumes one in progress.
    StartStop,
}

/// The key bindings: the top letter row scores for competitor one, the home
/// row for competitor two.
pub open spec fn key_binding(key: Key) -> Command {
    match key {
        Key::F11 => Command::ToggleFullscreen,
        Key::Q => Command::AddPoints(2, CompetitorNumber::One),
        Key::W => Command::AddPoints(3, CompetitorNumber::One),
        Key::E => Command::AddPoints(4, CompetitorNumber::One),
        Key::R => Command::AddAdvantage(CompetitorNumber::One),
        Key::T => Command::AddPenalty(CompetitorNumber::One),
        Key::Y => Command::SubtractPoint(CompetitorNumber::One),
        Key::U => Command::SubtractAdvantage(CompetitorNumber::One),
        Key::I => Command::SubtractPenalty(CompetitorNumber::One),
        Key::A => Command::AddPoints(2, CompetitorNumber::Two),
        Key::S => Command::AddPoints(3, CompetitorNumber::Two),
        Key::D => Command::AddPoints(4, CompetitorNumber::Two),
        Key::F => Command::AddAdvantage(CompetitorNumber::Two),
        Key::G => Command::AddPenalty(CompetitorNumber::Two),
        Key::H => Command::SubtractPoint(CompetitorNumber::Two),
        Key::J => Command::SubtractAdvantage(CompetitorNumber::Two),
        Key::K => Command::SubtractPenalty(CompetitorNumber::Two),
        Key::Space => Command::StartStop,
    }
}

/// The competitor and counter change a scoring command stands for.
pub open spec fn score_command(command: Command) -> Option<(CompetitorNumber, ScoreOp)> {
    match command {
        Command::AddPoints(n, c) => Some((c, ScoreOp::AddPoints(n))),
        Command::AddAdvantage(c) => Some((c, ScoreOp::AddAdvantage)),
        Command::AddPenalty(c) => Some((c, ScoreOp::AddPenalty)),
        Command::SubtractPoint(c) => Some((c, ScoreOp::Subtract(ScoreField::Points))),
        Command::SubtractAdvantage(c) => Some((c, ScoreOp::Subtract(ScoreField::Advantages))),
        Command::SubtractPenalty(c) => Some((c, ScoreOp::Subtract(ScoreField::Penalties))),
        _ => None,
    }
}

pub fn command_for_key(key: Key) -> (c: Command)
    ensures
        c == key_binding(key),
{
    match key {
        Key::F11 => Command::ToggleFullscreen,
        Key::Q => Command::AddPoints(2, CompetitorNumber::One),
        Key::W => Command::AddPoints(3, CompetitorNumber::One),
        Key::E => Command::AddPoints(4, CompetitorNumber::One),
        Key::R => Command::AddAdvantage(CompetitorNumber::One),
        Key::T => Command::AddPenalty(CompetitorNumber::One),
        Key::Y => Command::SubtractPoint(CompetitorNumber::One),
        Key::U => Command::SubtractAdvantage(CompetitorNumber::One),
        Key::I => Command::SubtractPenalty(CompetitorNumber::One),
        Key::A => Command::AddPoints(2, CompetitorNumber::Two),
        Key::S => Command::AddPoints(3, CompetitorNumber::Two),
        Key::D => Command::AddPoints(4, CompetitorNumber::Two),
        Key::F => Command::AddAdvantage(CompetitorNumber::Two),
        Key::G => Command::AddPenalty(CompetitorNumber::Two),
        Key::H => Command::SubtractPoint(CompetitorNumber::Two),
        Key::J => Command::SubtractAdvantage(CompetitorNumber::Two),
        Key::K => Command::SubtractPenalty(CompetitorNumber::Two),
        Key::Space => Command::StartStop,
    }
}

/// The scoreboard's decisions: which screen is shown, the match, and whether
/// the window fills the screen.
#[derive(Debug)]
pub struct Scoreboard {
    pub bjj_match: BJJMatch,
    pub app_state: AppState,
    pub fullscreen: bool,
}

impl Scoreboard {
    /// Whether `command` can be carried out without a counter or the match
    /// duration leaving `usize`.
    pub open spec fn accepts(self, command: Command) -> bool {
        match score_command(command) {
            Some((c, op)) => self.bjj_match.score_of(c).fits(op),
            None => command == Command::StartStop && self.app_state == AppState::Ready
                ==> self.bjj_match.duration_fits(),
        }
    }

    /// `next` and `sound_horn` are what `command` at `now` gives: nothing
    /// while the settings are open; otherwise fullscreen flips, a counter
    /// changes, a ready match begins (with the horn), or the clock of a match
    /// in progress pauses or resumes.
    pub open spec fn transition(self, next: Scoreboard, command: Command, now: u64, sound_horn: bool) -> bool {
        if self.app_state == AppState::NewMatchDialog {
            next == self && !sound_horn
        } else {
            match score_command(command) {
                Some((c, op)) => {
                    &&& self.bjj_match.scored(next.bjj_match, c, op)
                    &&& next.app_state == self.app_state
                    &&& next.fullscreen == self.fullscreen
                    &&& !sound_horn
                },
                None => if command == Command::ToggleFullscreen {
                    &&& next.bjj_match == self.bjj_match
                    &&& next.app_state == self.app_state
                    &&& next.fullscreen == !self.fullscreen
                    &&& !sound_horn
                } else if self.app_state == AppState::Ready {
                    &&& next.bjj_match == self.bjj_match.after_begin(now)
                    &&& next.app_state == AppState::InProgress
                    &&& next.fullscreen == self.fullscreen
                    &&& sound_horn
                } else {
                    &&& next.bjj_match.time == self.bjj_match.time.after_toggle(now)
                    &&& next.bjj_match.info == self.bjj_match.info
                    &&& next.bjj_match.score == self.bjj_match.score
                    &&& next.app_state == self.app_state
                    &&& next.fullscreen == self.fullscreen
                    &&& !sound_horn
                },
            }
        }
    }

    /// A match in progress whose clock has run out at `now`.
    pub open spec fn time_is_up(self, now: u64) -> bool {
        self.app_state == AppState::InProgress && self.bjj_match.time.remaining_at(now) == 0
    }

    /// A new scoreboard showing the settings of the default match.
    pub fn new() -> (r: Scoreboard)
        ensures
            r.app_state == AppState::NewMatchDialog,
            !r.fullscreen,
            r.bjj_match.info.match_time_minutes == 5,
            r.bjj_match.score.competitor_one_score@ == (0int, 0int, 0int),
            r.bjj_match.score.competitor_two_score@ == (0int, 0int, 0int),
            r.bjj_match.time.wf(),
            !r.bjj_match.time.ever_started,
    {
        Scoreboard { bjj_match: BJJMatch::default(), app_state: AppState::NewMatchDialog, fullscreen: false }
    }

    pub fn can_apply(&self, command: Command) -> (r: bool)
        ensures
            r == self.accepts(command),
    {
        match command {
            Command::AddPoints(n, c) => {
                let points = match c {
                    CompetitorNumber::One => self.bjj_match.score.competitor_one_score.points,
                    CompetitorNumber::Two => self.bjj_match.score.competitor_two_score.points,
                };
                points <= usize::MAX - n
            },
            Command::AddAdvantage(c) => match c {
                CompetitorNumber::One => self.bjj_match.score.competitor_one_score.advantages < usize::MAX,
                CompetitorNumber::Two => self.bjj_match.score.competitor_two_score.advantages < usize::MAX,
            },
            Command::AddPenalty(c) => match c {
                CompetitorNumber::One => self.bjj_match.score.competitor_one_score.penalties < usize::MAX,
                CompetitorNumber::Two => self.bjj_match.score.competitor_two_score.penalties < usize::MAX,
            },
            Command::StartStop => self.app_state != AppState::Ready || self.bjj_match.info.match_time_minutes
                <= usize::MAX / 60_000,
            _ => true,
        }
    }

    /// Carries out `command` now; the result says whether the horn sounds.
    pub fn apply(&mut self, command: Command) -> (sound_horn: bool)
        requires
            old(self).accepts(command),
        ensures
            exists|t: u64| #[trigger] old(self).transition(*final(self), command, t, sound_horn),
    {
        let now = now_millis();
        self.apply_at(command, now)
    }

    pub fn apply_at(&mut self, command: Command, now: u64) -> (sound_horn: bool)
        requires
            old(self).accepts(command),
        ensures
            old(self).transition(*final(self), command, now, sound_horn),
    {
        if self.app_state == AppState::NewMatchDialog {
            return false;
        }
        match command {
            Command::ToggleFullscreen => {
                self.fullscreen = !self.fullscreen;
                false
            },
            Command::AddPoints(n, c) => {
                self.bjj_match.add_points(n, c);
                false
            },
            Command::AddAdvantage(c) => {
                self.bjj_match.add_advantage(c);
                false
            },
            Command::AddPenalty(c) => {
                self.bjj_match.add_penalty(c);
                false
            },
            Command::SubtractPoint(c) => {
                self.bjj_match.subtract_point(c);
                false
            },
            Command::SubtractAdvantage(c) => {
                self.bjj_match.subtract_advantage(c);
                false
            },
            Command::SubtractPenalty(c) => {
                self.bjj_match.subtract_penalty(c);
                false
            },
            Command::StartStop => {
                if self.app_state == AppState::Ready {
                    self.bjj_match.start_at(now);
                    self.app_state = AppState::InProgress;
                    true
                } else {
                    self.bjj_match.toggle_start_stop_at(now);
                    false
                }
            },
        }
    }

    /// Checks the clock now; see `tick_at`.
    pub fn tick(&mut self) -> (time_is_up: bool)
        ensures
            exists|t: u64| #[trigger] old(self).time_is_up(t) == time_is_up,
            final(self).bjj_match == old(self).bjj_match,
            final(self).fullscreen == old(self).fullscreen,
            final(self).app_state == if time_is_up { AppState::Ready } else { old(self).app_state },
            time_is_up ==> old(self).app_state == AppState::InProgress,
    {
        let now = now_millis();
        self.tick_at(now)
    }

    /// When the clock of a match in progress has run out at `now`, the match
    /// goes back to ready and the result is `true`: the horn sounds and the
    /// settings for the next match are shown.
    pub fn tick_at(&mut self, now: u64) -> (time_is_up: bool)
        ensures
            time_is_up == old(self).time_is_up(now),
            final(self).bjj_match == old(self).bjj_match,
            final(self).fullscreen == old(self).fullscreen,
            final(self).app_state == if time_is_up { AppState::Ready } else { old(self).app_state },
    {
        if self.app_state == AppState::InProgress && self.bjj_match.time.get_remaining_time_milliseconds_at(now) == 0 {
            self.app_state = AppState::Ready;
            true
        } else {
            false
        }
    }
}

} // verus!
