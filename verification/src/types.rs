//! Data model for scorekeeping: bases, defensive positions and the outcome of
//! a plate appearance.

use vstd::prelude::*;

verus! {

/// A base on the diamond, also used as the target of a steal or a tag.
#[derive(Debug, Clone, Copy, PartialEq, Eq, Structural)]
pub enum Base {
    First,
    Second,
    Third,
    Home,
}

/// A defensive position.  Every position carries a canonical scoring numeral
/// (pitcher = 1 through right field = 9); the mapping is a bijection over
/// `{1..9}` and no other numeral is valid.
#[derive(Debug, Clone, Copy, PartialEq, Eq, Structural)]
pub enum Position {
    Pitcher,
    Catcher,
    FirstBase,
    SecondBase,
    ThirdBase,
    Shortstop,
    LeftField,
    CenterField,
    RightField,
}

impl Position {
    /// The scoring numeral of this position.
    pub open spec fn number_spec(self) -> u8 {
        match self {
            Position::Pitcher => 1,
            Position::Catcher => 2,
            Position::FirstBase => 3,
            Position::SecondBase => 4,
            Position::ThirdBase => 5,
            Position::Shortstop => 6,
            Position::LeftField => 7,
            Position::CenterField => 8,
            Position::RightField => 9,
        }
    }

    /// The position a scoring numeral stands for, if the numeral is valid.
    pub open spec fn from_number_spec(n: u8) -> Option<Position> {
        match n {
            1u8 => Some(Position::Pitcher),
            2u8 => Some(Position::Catcher),
            3u8 => Some(Position::FirstBase),
            4u8 => Some(Position::SecondBase),
            5u8 => Some(Position::ThirdBase),
            6u8 => Some(Position::Shortstop),
            7u8 => Some(Position::LeftField),
            8u8 => Some(Position::CenterField),
            9u8 => Some(Position::RightField),
            _ => None,
        }
    }

    /// Look a position up by its scoring numeral; numerals outside `1..=9`
    /// have no position.
    pub fn from_number(n: u8) -> (r: Option<Position>)
        ensures
            r == Position::from_number_spec(n),
            r matches Some(p) ==> p.number_spec() == n,
            r is None <==> (n < 1 || n > 9),
    {
        match n {
            1 => Some(Position::Pitcher),
            2 => Some(Position::Catcher),
            3 => Some(Position::FirstBase),
            4 => Some(Position::SecondBase),
            5 => Some(Position::ThirdBase),
            6 => Some(Position::Shortstop),
            7 => Some(Position::LeftField),
            8 => Some(Position::CenterField),
            9 => Some(Position::RightField),
            _ => None,
        }
    }

    /// The scoring numeral of this position, the exact inverse of
    /// [`Position::from_number`].
    pub fn to_number(self) -> (n: u8)
        ensures
            n == self.number_spec(),
            1 <= n <= 9,
            Position::from_number_spec(n) == Some(self),
    {
        match self {
            Position::Pitcher => 1,
            Position::Catcher => 2,
            Position::FirstBase => 3,
            Position::SecondBase => 4,
            Position::ThirdBase => 5,
            Position::Shortstop => 6,
            Position::LeftField => 7,
            Position::CenterField => 8,
            Position::RightField => 9,
        }
    }
}

impl Position {
    /// The scoring abbreviation of this position.
    pub open spec fn label_spec(self) -> Seq<char> {
        match self {
            Position::Pitcher => "P"@,
            Position::Catcher => "C"@,
            Position::FirstBase => "1B"@,
            Position::SecondBase => "2B"@,
            Position::ThirdBase => "3B"@,
            Position::Shortstop => "SS"@,
            Position::LeftField => "LF"@,
            Position::CenterField => "CF"@,
            Position::RightField => "RF"@,
        }
    }

    /// The scoring abbreviation shown for this position (`P`, `C`, `1B`, ...,
    /// `RF`).
    pub fn display_label(self) -> (s: &'static str)
        ensures
            s@ == self.label_spec(),
    {
        match self {
            Position::Pitcher => "P",
            Position::Catcher => "C",
            Position::FirstBase => "1B",
            Position::SecondBase => "2B",
            Position::ThirdBase => "3B",
            Position::Shortstop => "SS",
            Position::LeftField => "LF",
            Position::CenterField => "CF",
            Position::RightField => "RF",
        }
    }
}

/// Every valid scoring numeral round-trips through the position table: looking
/// the numeral up yields a position whose own numeral is the one given.
pub proof fn lemma_position_numeral_roundtrip(n: u8)
    requires
        1 <= n <= 9,
    ensures
        Position::from_number_spec(n) matches Some(p) && p.number_spec() == n,
{
}

/// The other direction of the bijection: every position is found again under
/// its own numeral, and numerals never collide.
pub proof fn lemma_position_table_bijective(p: Position, q: Position)
    ensures
        1 <= p.number_spec() <= 9,
        Position::from_number_spec(p.number_spec()) == Some(p),
        p.number_spec() == q.number_spec() ==> p == q,
{
}

/// Lifecycle state of a recorded game.
#[derive(Debug, Clone, Copy, PartialEq, Eq, Structural)]
pub enum GameStatus {
    Pregame,
    InProgress,
    Finished,
}

impl GameStatus {
    /// The integer code a status is stored under.
    pub open spec fn code_spec(self) -> i64 {
        match self {
            GameStatus::Pregame => 1,
            GameStatus::InProgress => 2,
            GameStatus::Finished => 3,
        }
    }

    /// The status a stored integer code stands for, if the code is valid.
    pub open spec fn from_i64_spec(n: i64) -> Option<GameStatus> {
        match n {
            1i64 => Some(GameStatus::Pregame),
            2i64 => Some(GameStatus::InProgress),
            3i64 => Some(GameStatus::Finished),
            _ => None,
        }
    }

    /// Decode a stored status code; codes outside `1..=3` have no status.
    pub fn from_i64(n: i64) -> (r: Option<GameStatus>)
        ensures
            r == GameStatus::from_i64_spec(n),
            r matches Some(s) ==> s.code_spec() == n,
            r is None <==> (n < 1 || n > 3),
    {
        match n {
            1 => Some(GameStatus::Pregame),
            2 => Some(GameStatus::InProgress),
            3 => Some(GameStatus::Finished),
            _ => None,
        }
    }

    /// The integer code of this status, the exact inverse of
    /// [`GameStatus::from_i64`].
    pub fn to_i64(self) -> (n: i64)
        ensures
            n == self.code_spec(),
            GameStatus::from_i64_spec(n) == Some(self),
    {
        match self {
            GameStatus::Pregame => 1,
            GameStatus::InProgress => 2,
            GameStatus::Finished => 3,
        }
    }

    /// The identifier a status is written as in storage and exports.
    pub open spec fn as_str_spec(self) -> Seq<char> {
        match self {
            GameStatus::Pregame => "pregame"@,
            GameStatus::InProgress => "in_progress"@,
            GameStatus::Finished => "finished"@,
        }
    }

    /// The storage identifier of this status.
    pub fn as_str(&self) -> (s: &'static str)
        ensures
            s@ == self.as_str_spec(),
    {
        match self {
            GameStatus::Pregame => "pregame",
            GameStatus::InProgress => "in_progress",
            GameStatus::Finished => "finished",
        }
    }
}

/// The kind of hit credited to the batter.
#[derive(Debug, Clone, PartialEq, Eq, Structural)]
pub enum HitType {
    Single,
    Double,
    Triple,
    HomeRun,
    GroundRule,
    InsideThePark,
}

/// The mechanism by which a batter or runner was put out.  Variants that
/// carry a sequence of positions record the fielding sequence in throw order:
/// shortstop to first is `[Shortstop, FirstBase]`, never the reverse.
#[derive(Debug, Clone, PartialEq)]
pub enum OutType {
    Strikeout { swinging: bool, looking: bool },
    Flyout { positions: Vec<Position> },
    Groundout { positions: Vec<Position> },
    Lineout { positions: Vec<Position> },
    Popup { positions: Vec<Position> },
    Foulout { positions: Vec<Position> },
    Bunt { positions: Vec<Position> },
    DoublePlay { positions: Vec<Position> },
    TriplePlay { positions: Vec<Position> },
    Forceout { positions: Vec<Position> },
    TagOut { position: Position, base: Base },
    CaughtStealing { catcher_to: Position, base: Base },
    PickedOff { positions: Vec<Position>, base: Base },
    IntentionalWalk,
}

/// Mathematical model of an [`OutType`]: position vectors become sequences.
pub enum OutTypeView {
    Strikeout { swinging: bool, looking: bool },
    Flyout { positions: Seq<Position> },
    Groundout { positions: Seq<Position> },
    Lineout { positions: Seq<Position> },
    Popup { positions: Seq<Position> },
    Foulout { positions: Seq<Position> },
    Bunt { positions: Seq<Position> },
    DoublePlay { positions: Seq<Position> },
    TriplePlay { positions: Seq<Position> },
    Forceout { positions: Seq<Position> },
    TagOut { position: Position, base: Base },
    CaughtStealing { catcher_to: Position, base: Base },
    PickedOff { positions: Seq<Position>, base: Base },
    IntentionalWalk,
}

impl View for OutType {
    type V = OutTypeView;

    open spec fn view(&self) -> OutTypeView {
        match self {
            OutType::Strikeout { swinging, looking } => OutTypeView::Strikeout {
                swinging: *swinging,
                looking: *looking,
            },
            OutType::Flyout { positions } => OutTypeView::Flyout { positions: positions@ },
            OutType::Groundout { positions } => OutTypeView::Groundout { positions: positions@ },
            OutType::Lineout { positions } => OutTypeView::Lineout { positions: positions@ },
            OutType::Popup { positions } => OutTypeView::Popup { positions: positions@ },
            OutType::Foulout { positions } => OutTypeView::Foulout { positions: positions@ },
            OutType::Bunt { positions } => OutTypeView::Bunt { positions: positions@ },
            OutType::DoublePlay { positions } => OutTypeView::DoublePlay {
                positions: positions@,
            },
            OutType::TriplePlay { positions } => OutTypeView::TriplePlay {
                positions: positions@,
            },
            OutType::Forceout { positions } => OutTypeView::Forceout { positions: positions@ },
            OutType::TagOut { position, base } => OutTypeView::TagOut {
                position: *position,
                base: *base,
            },
            OutType::CaughtStealing { catcher_to, base } => OutTypeView::CaughtStealing {
                catcher_to: *catcher_to,
                base: *base,
            },
            OutType::PickedOff { positions, base } => OutTypeView::PickedOff {
                positions: positions@,
                base: *base,
            },
            OutType::IntentionalWalk => OutTypeView::IntentionalWalk,
        }
    }
}

impl OutTypeView {
    /// Well-formedness of an out: a recorded fielding sequence is never
    /// empty.
    pub open spec fn wf(self) -> bool {
        match self {
            OutTypeView::Flyout { positions } => positions.len() > 0,
            OutTypeView::Groundout { positions } => positions.len() > 0,
            OutTypeView::Lineout { positions } => positions.len() > 0,
            OutTypeView::Popup { positions } => positions.len() > 0,
            OutTypeView::Foulout { positions } => positions.len() > 0,
            OutTypeView::Bunt { positions } => positions.len() > 0,
            OutTypeView::DoublePlay { positions } => positions.len() > 0,
            OutTypeView::TriplePlay { positions } => positions.len() > 0,
            OutTypeView::Forceout { positions } => positions.len() > 0,
            OutTypeView::PickedOff { positions, .. } => positions.len() > 0,
            _ => true,
        }
    }
}

/// How a batter reached on balls or was awarded first base.
#[derive(Debug, Clone, PartialEq, Eq, Structural)]
pub enum Walk {
    BaseOnBalls,
    Intentional,
    HitByPitch,
}

/// A fielding error: the position charged with it and the raw notation token,
/// preserved verbatim for audit and display.
#[derive(Debug, Clone, PartialEq)]
pub struct Error {
    pub position: Position,
    pub description: String,
}

/// Mathematical model of an [`Error`].
pub struct ErrorView {
    pub position: Position,
    pub description: Seq<char>,
}

impl View for Error {
    type V = ErrorView;

    open spec fn view(&self) -> ErrorView {
        ErrorView { position: self.position, description: self.description@ }
    }
}

/// A play that happens outside the batter's own outcome: steals, balks, wild
/// pitches and the like.
#[derive(Debug, Clone, PartialEq)]
pub enum AdvancedPlay {
    StolenBase { from: Base, to: Base },
    Balk,
    WildPitch,
    PassedBall,
    Interference { by: String },
    Obstruction,
    SacrificeHit,
    SacrificeFly { positions: Vec<Position> },
}

/// Mathematical model of an [`AdvancedPlay`].
pub enum AdvancedPlayView {
    StolenBase { from: Base, to: Base },
    Balk,
    WildPitch,
    PassedBall,
    Interference { by: Seq<char> },
    Obstruction,
    SacrificeHit,
    SacrificeFly { positions: Seq<Position> },
}

impl View for AdvancedPlay {
    type V = AdvancedPlayView;

    open spec fn view(&self) -> AdvancedPlayView {
        match self {
            AdvancedPlay::StolenBase { from, to } => AdvancedPlayView::StolenBase {
                from: *from,
                to: *to,
            },
            AdvancedPlay::Balk => AdvancedPlayView::Balk,
            AdvancedPlay::WildPitch => AdvancedPlayView::WildPitch,
            AdvancedPlay::PassedBall => AdvancedPlayView::PassedBall,
            AdvancedPlay::Interference { by } => AdvancedPlayView::Interference { by: by@ },
            AdvancedPlay::Obstruction => AdvancedPlayView::Obstruction,
            AdvancedPlay::SacrificeHit => AdvancedPlayView::SacrificeHit,
            AdvancedPlay::SacrificeFly { positions } => AdvancedPlayView::SacrificeFly {
                positions: positions@,
            },
        }
    }
}

/// The outcome of one plate appearance.  Exactly one variant is populated per
/// successfully parsed token; the value is created fresh by each parse and
/// owned by the caller.
#[derive(Debug, Clone, PartialEq)]
pub enum PlateAppearanceResult {
    Hit { hit_type: HitType, location: Option<String>, rbis: u8 },
    Out { out_type: OutType, rbi: bool },
    Walk(Walk),
    Error { error: Error, reached_base: Base },
    FieldersChoice { positions: Vec<Position>, out_at: Option<Base> },
    DroppedThirdStrike,
    AdvancedPlay(AdvancedPlay),
}

/// Mathematical model of a [`PlateAppearanceResult`].
pub enum PlateAppearanceResultView {
    Hit { hit_type: HitType, location: Option<Seq<char>>, rbis: u8 },
    Out { out_type: OutTypeView, rbi: bool },
    Walk(Walk),
    Error { error: ErrorView, reached_base: Base },
    FieldersChoice { positions: Seq<Position>, out_at: Option<Base> },
    DroppedThirdStrike,
    AdvancedPlay(AdvancedPlayView),
}

impl View for PlateAppearanceResult {
    type V = PlateAppearanceResultView;

    open spec fn view(&self) -> PlateAppearanceResultView {
        match self {
            PlateAppearanceResult::Hit { hit_type, location, rbis } => {
                PlateAppearanceResultView::Hit {
                    hit_type: *hit_type,
                    location: match location {
                        Some(l) => Some(l@),
                        None => None,
                    },
                    rbis: *rbis,
                }
            },
            PlateAppearanceResult::Out { out_type, rbi } => PlateAppearanceResultView::Out {
                out_type: out_type@,
                rbi: *rbi,
            },
            PlateAppearanceResult::Walk(w) => PlateAppearanceResultView::Walk(*w),
            PlateAppearanceResult::Error { error, reached_base } => {
                PlateAppearanceResultView::Error { error: error@, reached_base: *reached_base }
            },
            PlateAppearanceResult::FieldersChoice { positions, out_at } => {
                PlateAppearanceResultView::FieldersChoice {
                    positions: positions@,
                    out_at: *out_at,
                }
            },
            PlateAppearanceResult::DroppedThirdStrike => {
                PlateAppearanceResultView::DroppedThirdStrike
            },
            PlateAppearanceResult::AdvancedPlay(a) => PlateAppearanceResultView::AdvancedPlay(a@),
        }
    }
}

/// A typed classification failure of the notation interpreter.  Every
/// failure is recoverable and carries the offending (normalized) input, so a
/// caller can surface it, re-prompt or abort as it sees fit.
#[derive(Debug, Clone, PartialEq)]
pub enum ParseError {
    /// The normalized input matched no known token shape.
    UnrecognizedToken { token: String },
    /// A token named a base or position reference outside its valid domain.
    InvalidPosition { token: String },
    /// A pitch-sequence call met a character outside the pitch symbol table.
    InvalidPitchSymbol { symbol: char },
}

/// Mathematical model of a [`ParseError`].
pub enum ParseErrorView {
    UnrecognizedToken { token: Seq<char> },
    InvalidPosition { token: Seq<char> },
    InvalidPitchSymbol { symbol: char },
}

impl View for ParseError {
    type V = ParseErrorView;

    open spec fn view(&self) -> ParseErrorView {
        match self {
            ParseError::UnrecognizedToken { token } => ParseErrorView::UnrecognizedToken {
                token: token@,
            },
            ParseError::InvalidPosition { token } => ParseErrorView::InvalidPosition {
                token: token@,
            },
            ParseError::InvalidPitchSymbol { symbol } => ParseErrorView::InvalidPitchSymbol {
                symbol: *symbol,
            },
        }
    }
}

/// A runner on base and how the plate appearance moved them.
#[derive(Debug, Clone, PartialEq)]
pub struct BaseRunner {
    pub number: u8,
    pub starting_base: Base,
    pub ending_base: Option<Base>,
    pub scored: bool,
    pub how_advanced: RunnerAdvancement,
}

/// Why a runner moved (or was put out) during a plate appearance.
#[derive(Debug, Clone, PartialEq)]
pub enum RunnerAdvancement {
    OnHit,
    StolenBase,
    WildPitch,
    PassedBall,
    Balk,
    Error(Position),
    FieldersChoice,
    Advance,
    Out(OutType),
}

/// Which half of the inning is being played.
#[derive(Debug, Clone, Copy, PartialEq, Eq, Structural)]
pub enum HalfInning {
    Top,
    Bottom,
}

/// One pitch of an at bat.
#[derive(Debug, Clone, Copy, PartialEq, Eq, Structural)]
pub enum Pitch {
    Ball,
    CalledStrike,
    SwingingStrike,
    Foul,
    FoulBunt,
    InPlay,
    HittedBy,
}

impl Pitch {
    /// The one-character notation symbol of this pitch.
    pub open spec fn symbol_spec(self) -> Seq<char> {
        match self {
            Pitch::Ball => "B"@,
            Pitch::CalledStrike => "C"@,
            Pitch::SwingingStrike => "S"@,
            Pitch::Foul => "F"@,
            Pitch::FoulBunt => "L"@,
            Pitch::InPlay => "X"@,
            Pitch::HittedBy => "H"@,
        }
    }

    /// The notation symbol this pitch is written as.
    pub fn symbol(&self) -> (s: &'static str)
        ensures
            s@ == self.symbol_spec(),
    {
        match self {
            Pitch::Ball => "B",
            Pitch::CalledStrike => "C",
            Pitch::SwingingStrike => "S",
            Pitch::Foul => "F",
            Pitch::FoulBunt => "L",
            Pitch::InPlay => "X",
            Pitch::HittedBy => "H",
        }
    }
}

/// Balls, strikes and the detailed pitch sequence of one at bat.
#[derive(Debug, Clone, PartialEq)]
pub struct PitchCount {
    pub balls: u8,
    pub strikes: u8,
    pub sequence: Vec<Pitch>,
}

/// One complete plate appearance as recorded on the scoresheet.
#[derive(Debug, Clone)]
pub struct PlateAppearance {
    pub inning: u8,
    pub half_inning: HalfInning,
    pub batter_number: u8,
    pub batter_name: String,
    pub pitcher_name: String,
    pub result: PlateAppearanceResult,
    pub pitch_count: Option<PitchCount>,
    pub runners: Vec<BaseRunner>,
    pub outs_before: u8,
    pub outs_after: u8,
    pub runs_scored: u8,
    pub notes: Option<String>,
}

/// A player slot in a game lineup.
#[derive(Debug, Clone)]
pub struct GamePlayer {
    pub number: u8,
    pub name: String,
    pub position: Position,
    pub batting_order: u8,
}

/// One side of a game: the team and its running totals.
#[derive(Debug, Clone)]
pub struct GameTeam {
    pub name: String,
    pub lineup: Vec<GamePlayer>,
    pub runs: u8,
    pub hits: u8,
    pub errors: u8,
}

/// A complete game scoresheet.
#[derive(Debug, Clone)]
pub struct Game {
    pub game_id: String,
    pub date: String,
    pub home_team: GameTeam,
    pub away_team: GameTeam,
    pub venue: String,
    pub plate_appearances: Vec<PlateAppearance>,
    pub current_inning: u8,
    pub current_half: HalfInning,
}

impl Game {
    /// Start a fresh scoresheet: no plate appearances yet, top of the first
    /// inning.
    pub fn new(
        game_id: String,
        date: String,
        home_team: GameTeam,
        away_team: GameTeam,
        venue: String,
    ) -> (g: Game)
        ensures
            g.game_id == game_id,
            g.date == date,
            g.home_team == home_team,
            g.away_team == away_team,
            g.venue == venue,
            g.plate_appearances@.len() == 0,
            g.current_inning == 1,
            g.current_half == HalfInning::Top,
    {
        Game {
            game_id,
            date,
            home_team,
            away_team,
            venue,
            plate_appearances: Vec::new(),
            current_inning: 1,
            current_half: HalfInning::Top,
        }
    }

    /// Append a plate appearance to the scoresheet; nothing else changes.
    pub fn add_plate_appearance(&mut self, pa: PlateAppearance)
        ensures
            final(self).plate_appearances@ == old(self).plate_appearances@.push(pa),
            final(self).game_id == old(self).game_id,
            final(self).date == old(self).date,
            final(self).home_team == old(self).home_team,
            final(self).away_team == old(self).away_team,
            final(self).venue == old(self).venue,
            final(self).current_inning == old(self).current_inning,
            final(self).current_half == old(self).current_half,
    {
        self.plate_appearances.push(pa);
    }
}

} // verus!
