//! Verified core of a baseball/softball scorekeeping tool.
//!
//! The crate holds the data model for plate-appearance outcomes (hits, outs,
//! walks, errors, advanced plays) together with the interpreter that turns
//! scorekeeping notation such as `"1B"`, `"K"`, `"6-4-3 DP"` or `"SB2"` into
//! those typed outcomes.  The interpreter is specified by spec functions over
//! character sequences and every executable function is proved against them.

pub mod league;
pub mod menu;
pub mod notation;
pub mod parser;
pub mod player;
pub mod team;
pub mod types;
