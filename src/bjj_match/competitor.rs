use vstd::prelude::*;

use crate::flags::Country;

verus! {

/// Selects one of the two competitors of a match.
#[derive(Debug, Clone, Copy, PartialEq, Eq, Structural)]
pub enum CompetitorNumber {
    One,
    Two,
}

impl CompetitorNumber {
    pub open spec fn other(self) -> CompetitorNumber {
        match self {
            CompetitorNumber::One => CompetitorNumber::Two,
            CompetitorNumber::Two => CompetitorNumber::One,
        }
    }
}

#[derive(Debug)]
pub struct Competitor {
    pub first_name: String,
    pub last_name: String,
    pub team_name: String,
    pub country: Country,
}

impl Competitor {
    pub fn new(first_name: &str, last_name: &str, team_name: &str, country: Country) -> (r: Competitor)
        ensures
            r.first_name@ == first_name@,
            r.last_name@ == last_name@,
            r.team_name@ == team_name@,
            r.country == country,
    {
        Competitor {
            first_name: first_name.to_owned(),
            last_name: last_name.to_owned(),
            team_name: team_name.to_owned(),
            country,
        }
    }

    /// First and last name separated by one space.
    pub fn get_display_name(&self) -> (r: String)
        ensures
            r@ == self.first_name@ + seq![' '] + self.last_name@,
    {
        proof {
            reveal_strlit(" ");
        }
        let mut r = self.first_name.clone();
        r.append(" ");
        r.append(self.last_name.as_str());
        r
    }
}

impl Default for Competitor {
    fn default() -> (r: Competitor)
        ensures
            r.first_name@ == "Competitor"@,
            r.last_name@ == "Name"@,
            r.team_name@ == "BJJ Team"@,
            r.country == Country::Australia,
    {
        Competitor::new("Competitor", "Name", "BJJ Team", Country::Australia)
    }
}

} // verus!
