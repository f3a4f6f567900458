//! Player records as the surrounding application stores them.

use crate::types::Position;
use vstd::prelude::*;

verus! {

/// A player on a team's roster.
#[derive(Debug, Clone)]
pub struct Player {
    pub id: Option<i64>,
    pub team_id: i64,
    pub number: i32,
    pub name: String,
    pub position: Position,
    pub batting_order: Option<i32>,
    pub is_active: bool,
}

impl Player {
    /// A fresh player record, not yet persisted (no id) and active by
    /// default.
    pub fn new(
        team_id: i64,
        number: i32,
        name: String,
        position: Position,
        batting_order: Option<i32>,
    ) -> (p: Player)
        ensures
            p.id is None,
            p.team_id == team_id,
            p.number == number,
            p.name == name,
            p.position == position,
            p.batting_order == batting_order,
            p.is_active,
    {
        Player { id: None, team_id, number, name, position, batting_order, is_active: true }
    }
}

} // verus!
