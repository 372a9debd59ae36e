use vstd::prelude::*;

verus! {

/// The nations whose flags the scoreboard can show.
#[derive(Debug, Clone, Copy, PartialEq, Eq, PartialOrd, Ord, Hash, Structural)]
pub enum Country {
    Australia,
    Brazil,
    UnitedStates,
}

impl Country {
    /// The two-letter country code, which also names the flag image.
    pub fn code(&self) -> (r: &'static str)
        ensures
            r@ == match *self {
                Country::Australia => "AU"@,
                Country::Brazil => "BR"@,
                Country::UnitedStates => "US"@,
            },
    {
        match self {
            Country::Australia => "AU",
            Country::Brazil => "BR",
            Country::UnitedStates => "US",
        }
    }

    /// The name shown when choosing a country.
    pub fn name(&self) -> (r: &'static str)
        ensures
            r@ == match *self {
                Country::Australia => "Australia"@,
                Country::Brazil => "Brazil"@,
                Country::UnitedStates => "United States"@,
            },
    {
        match self {
            Country::Australia => "Australia",
            Country::Brazil => "Brazil",
            Country::UnitedStates => "United States",
        }
    }
}

} // verus!
