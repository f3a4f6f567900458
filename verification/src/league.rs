//! League records as the surrounding application stores them.

use vstd::prelude::*;

verus! {

/// A league: the organizing container teams belong to.
#[derive(Debug, Clone)]
pub struct League {
    pub id: Option<i64>,
    pub name: String,
    pub season: Option<String>,
    pub description: Option<String>,
}

impl League {
    /// A fresh league record, not yet persisted, so it carries no id.
    pub fn new(name: String, season: Option<String>, description: Option<String>) -> (l: League)
        ensures
            l.id is None,
            l.name == name,
            l.season == season,
            l.description == description,
    {
        League { id: None, name, season, description }
    }
}

} // verus!
