use vstd::prelude::*;

use crate::bjj_match::player_score::PlayerScore;

verus! {

/// The counters of both competitors.
#[derive(Debug, Clone, Copy, PartialEq, Eq, Structural)]
pub struct MatchScore {
    pub competitor_one_score: PlayerScore,
    pub competitor_two_score: PlayerScore,
    pub time_remaining_milliseconds: usize,
}

impl Default for MatchScore {
    fn default() -> (r: MatchScore)
        ensures
            r.competitor_one_score@ == (0int, 0int, 0int),
            r.competitor_two_score@ == (0int, 0int, 0int),
            r.time_remaining_milliseconds == 0,
    {
        MatchScore {
            competitor_one_score: PlayerScore::default(),
            competitor_two_score: PlayerScore::default(),
            time_remaining_milliseconds: 0,
        }
    }
}

} // verus!
