use vstd::prelude::*;

use crate::bjj_match::competitor::Competitor;

verus! {

/// What is entered before a match: who fights, for how long, and where.
#[derive(Debug)]
pub struct MatchInformation {
    pub competitor_one: Competitor,
    pub competitor_two: Competitor,
    pub match_time_minutes: usize,
    pub mat_number: usize,
    pub fight_number: usize,
}

impl Default for MatchInformation {
    /// Placeholder competitors "Competitor One" and "Competitor Two", a
    /// five-minute match on mat 1, fight 1.
    fn default() -> (r: MatchInformation)
        ensures
            r.competitor_one.first_name@ == "Competitor"@,
            r.competitor_one.last_name@ == "One"@,
            r.competitor_one.team_name@ == "BJJ Team"@,
            r.competitor_one.country == crate::flags::Country::Australia,
            r.competitor_two.first_name@ == "Competitor"@,
            r.competitor_two.last_name@ == "Two"@,
            r.competitor_two.team_name@ == "BJJ Team"@,
            r.competitor_two.country == crate::flags::Country::Australia,
            r.match_time_minutes == 5,
            r.mat_number == 1,
            r.fight_number == 1,
    {
        let mut competitor_one = Competitor::default();
        competitor_one.last_name = "One".to_owned();
        let mut competitor_two = Competitor::default();
        competitor_two.last_name = "Two".to_owned();
        MatchInformation {
            competitor_one,
            competitor_two,
            match_time_minutes: 5,
            mat_number: 1,
            fight_number: 1,
        }
    }
}

} // verus!
