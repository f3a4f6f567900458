//! Team records as the surrounding application stores them.

use vstd::prelude::*;

verus! {

/// A team, optionally assigned to a league.
#[derive(Debug, Clone)]
pub struct Team {
    pub id: Option<i64>,
    pub name: String,
    pub league_id: Option<i64>,
    pub city: Option<String>,
    pub abbreviation: Option<String>,
    pub founded_year: Option<i32>,
}

impl Team {
    /// A fresh team record, not yet persisted, so it carries no id.
    pub fn new(
        name: String,
        league_id: Option<i64>,
        city: Option<String>,
        abbreviation: Option<String>,
        founded_year: Option<i32>,
    ) -> (t: Team)
        ensures
            t.id is None,
            t.name == name,
            t.league_id == league_id,
            t.city == city,
            t.abbreviation == abbreviation,
            t.founded_year == founded_year,
    {
        Team { id: None, name, league_id, city, abbreviation, founded_year }
    }
}

} // verus!
