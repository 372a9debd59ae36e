pub mod competitor;
pub mod match_information;
pub mod match_score;
pub mod match_time;
pub mod player_score;

use vstd::prelude::*;

use crate::bjj_match::competitor::{Competitor, CompetitorNumber};
use crate::bjj_match::match_information::MatchInformation;
use crate::bjj_match::match_score::MatchScore;
use crate::bjj_match::match_time::{now_millis, MatchTime};
use crate::bjj_match::player_score::{score_step, PlayerScore, ScoreField, ScoreOp};

verus! {

/// Where a match stands, derived from its clock.
#[derive(Debug, Clone, Copy, PartialEq, Eq, Structural)]
pub enum MatchState {
    NotStarted,
    InProgress,
    Finished,
}

/// One match: its settings, both competitors' counters, and its clock.
#[derive(Debug)]
pub struct BJJMatch {
    pub info: MatchInformation,
    pub score: MatchScore,
    pub time: MatchTime,
}

impl BJJMatch {
    pub open spec fn score_of(self, competitor: CompetitorNumber) -> PlayerScore {
        match competitor {
            CompetitorNumber::One => self.score.competitor_one_score,
            CompetitorNumber::Two => self.score.competitor_two_score,
        }
    }

    /// `next` is this match with `op` applied to `competitor`'s counters and
    /// nothing else changed.
    pub open spec fn scored(self, next: BJJMatch, competitor: CompetitorNumber, op: ScoreOp) -> bool {
        &&& next.score_of(competitor)@ == score_step(self.score_of(competitor)@, op)
        &&& next.score_of(competitor.other()) == self.score_of(competitor.other())
        &&& next.score.time_remaining_milliseconds == self.score.time_remaining_milliseconds
        &&& next.info == self.info
        &&& next.time == self.time
    }

    /// Whether the match's duration in milliseconds fits in a `usize`.
    pub open spec fn duration_fits(self) -> bool {
        self.info.match_time_minutes * 60_000 <= usize::MAX
    }

    /// The match begun at `now`: the clock counts down the configured
    /// duration from zero elapsed time and is started.
    pub open spec fn after_begin(self, now: u64) -> BJJMatch {
        BJJMatch {
            time: MatchTime {
                duration_millis: (self.info.match_time_minutes * 60_000) as usize,
                time_elapsed_millis: 0,
                ..self.time
            }.after_start(now),
            ..self
        }
    }

    pub fn new(
        competitor_one: Competitor,
        competitor_two: Competitor,
        match_time_minutes: usize,
        mat_number: usize,
        fight_number: usize,
    ) -> (r: BJJMatch)
        requires
            match_time_minutes * 60_000 <= usize::MAX,
        ensures
            r.info == (MatchInformation {
                competitor_one,
                competitor_two,
                match_time_minutes,
                mat_number,
                fight_number,
            }),
            r.score.competitor_one_score@ == (0int, 0int, 0int),
            r.score.competitor_two_score@ == (0int, 0int, 0int),
            r.score.time_remaining_milliseconds == 0,
            r.time == (MatchTime {
                duration_millis: (match_time_minutes * 60_000) as usize,
                last_started: None,
                time_elapsed_millis: 0,
                running: false,
                ever_started: false,
            }),
    {
        BJJMatch {
            info: MatchInformation {
                competitor_one,
                competitor_two,
                match_time_minutes,
                mat_number,
                fight_number,
            },
            score: MatchScore::default(),
            time: MatchTime::with_duration(match_time_minutes * 60_000),
        }
    }

    /// The match's state now.
    pub fn get_match_state(&self) -> (r: MatchState)
        ensures
            exists|t: u64| r == #[trigger] self.time.state_at(t),
            !self.time.ever_started <==> r == MatchState::NotStarted,
    {
        let r = self.get_match_state_at(now_millis());
        r
    }

    pub fn get_match_state_at(&self, now: u64) -> (r: MatchState)
        ensures
            r == self.time.state_at(now),
    {
        if !self.time.ever_started {
            MatchState::NotStarted
        } else if self.time.get_remaining_time_milliseconds_at(now) == 0 {
            MatchState::Finished
        } else {
            MatchState::InProgress
        }
    }

    fn apply_score(&mut self, competitor: CompetitorNumber, op: ScoreOp)
        requires
            old(self).score_of(competitor).fits(op),
        ensures
            old(self).scored(*final(self), competitor, op),
    {
        match competitor {
            CompetitorNumber::One => self.score.competitor_one_score.apply(op),
            CompetitorNumber::Two => self.score.competitor_two_score.apply(op),
        }
    }

    pub fn add_points(&mut self, points: usize, competitor: CompetitorNumber)
        requires
            old(self).score_of(competitor).points + points <= usize::MAX,
        ensures
            old(self).scored(*final(self), competitor, ScoreOp::AddPoints(points)),
    {
        self.apply_score(competitor, ScoreOp::AddPoints(points));
    }

    pub fn add_advantage(&mut self, competitor: CompetitorNumber)
        requires
            old(self).score_of(competitor).advantages < usize::MAX,
        ensures
            old(self).scored(*final(self), competitor, ScoreOp::AddAdvantage),
    {
        self.apply_score(competitor, ScoreOp::AddAdvantage);
    }

    pub fn add_penalty(&mut self, competitor: CompetitorNumber)
        requires
            old(self).score_of(competitor).penalties < usize::MAX,
        ensures
            old(self).scored(*final(self), competitor, ScoreOp::AddPenalty),
    {
        self.apply_score(competitor, ScoreOp::AddPenalty);
    }

    pub fn subtract_point(&mut self, competitor: CompetitorNumber)
        ensures
            old(self).scored(*final(self), competitor, ScoreOp::Subtract(ScoreField::Points)),
    {
        self.apply_score(competitor, ScoreOp::Subtract(ScoreField::Points));
    }

    pub fn subtract_advantage(&mut self, competitor: CompetitorNumber)
        ensures
            old(self).scored(*final(self), competitor, ScoreOp::Subtract(ScoreField::Advantages)),
    {
        self.apply_score(competitor, ScoreOp::Subtract(ScoreField::Advantages));
    }

    pub fn subtract_penalty(&mut self, competitor: CompetitorNumber)
        ensures
            old(self).scored(*final(self), competitor, ScoreOp::Subtract(ScoreField::Penalties)),
    {
        self.apply_score(competitor, ScoreOp::Subtract(ScoreField::Penalties));
    }

    /// Begins the match now.
    pub fn start(&mut self)
        requires
            old(self).duration_fits(),
        ensures
            exists|t: u64| *final(self) == #[trigger] old(self).after_begin(t),
    {
        let now = now_millis();
        self.start_at(now);
    }

    /// Begins the match at `now`: sets the clock's duration from the
    /// configured minutes, clears its elapsed time and starts it.
    pub fn start_at(&mut self, now: u64)
        requires
            old(self).duration_fits(),
        ensures
            *final(self) == old(self).after_begin(now),
    {
        self.time.duration_millis = self.info.match_time_minutes * 60_000;
        self.time.time_elapsed_millis = 0;
        self.time.start_at(now);
    }

    /// Pauses or resumes the clock now.
    pub fn toggle_start_stop(&mut self)
        ensures
            exists|t: u64| final(self).time == #[trigger] old(self).time.after_toggle(t),
            final(self).info == old(self).info,
            final(self).score == old(self).score,
    {
        self.time.toggle_start_stop();
    }

    pub fn toggle_start_stop_at(&mut self, now: u64)
        ensures
            final(self).time == old(self).time.after_toggle(now),
            final(self).info == old(self).info,
            final(self).score == old(self).score,
    {
        self.time.toggle_start_stop_at(now);
    }
}

impl Default for BJJMatch {
    fn default() -> (r: BJJMatch)
        ensures
            r.info.match_time_minutes == 5,
            r.info.mat_number == 1,
            r.info.fight_number == 1,
            r.score.competitor_one_score@ == (0int, 0int, 0int),
            r.score.competitor_two_score@ == (0int, 0int, 0int),
            r.time.duration_millis == 0,
            r.time.wf(),
            !r.time.ever_started,
    {
        BJJMatch { info: MatchInformation::default(), score: MatchScore::default(), time: MatchTime::default() }
    }
}

/// A match whose clock was never started reads `NotStarted` at every time;
/// begun with a positive duration, it reads `InProgress` at the moment it
/// begins.
pub proof fn lemma_begin_starts_match(m: BJJMatch, now: u64, t: u64)
    requires
        m.time.wf(),
        !m.time.ever_started,
        m.duration_fits(),
        m.info.match_time_minutes > 0,
    ensures
        m.time.state_at(t) == MatchState::NotStarted,
        m.after_begin(now).time.wf(),
        m.after_begin(now).time.state_at(now) == MatchState::InProgress,
{
}

} // verus!
