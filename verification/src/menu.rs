//! Menu choices and the mapping from a numeric selection to a choice.  The
//! terminal rendering and input reading live in the surrounding application;
//! only the selection decision is modelled here.

use vstd::prelude::*;

verus! {

/// Top-level menu entries.
#[derive(Debug, Clone, Copy, PartialEq, Eq, Structural)]
pub enum MainMenuChoice {
    ManageGames,
    ManageLeagues,
    ManageTeams,
    ManagePlayers,
    Statistics,
    ManageDB,
    Exit,
}

impl MainMenuChoice {
    /// The choice a numeric selection stands for, if any.
    pub open spec fn from_selection_spec(n: u32) -> Option<MainMenuChoice> {
        match n {
            1u32 => Some(MainMenuChoice::ManageGames),
            2u32 => Some(MainMenuChoice::ManageLeagues),
            3u32 => Some(MainMenuChoice::ManageTeams),
            4u32 => Some(MainMenuChoice::ManagePlayers),
            5u32 => Some(MainMenuChoice::Statistics),
            6u32 => Some(MainMenuChoice::ManageDB),
            0u32 => Some(MainMenuChoice::Exit),
            _ => None,
        }
    }

    /// Decode a numeric menu selection; anything unlisted is no choice.
    pub fn from_selection(n: u32) -> (r: Option<MainMenuChoice>)
        ensures
            r == MainMenuChoice::from_selection_spec(n),
    {
        match n {
            1 => Some(MainMenuChoice::ManageGames),
            2 => Some(MainMenuChoice::ManageLeagues),
            3 => Some(MainMenuChoice::ManageTeams),
            4 => Some(MainMenuChoice::ManagePlayers),
            5 => Some(MainMenuChoice::Statistics),
            6 => Some(MainMenuChoice::ManageDB),
            0 => Some(MainMenuChoice::Exit),
            _ => None,
        }
    }
}

/// League-management menu entries.
#[derive(Debug, Clone, Copy, PartialEq, Eq, Structural)]
pub enum LeagueMenuChoice {
    CreateLeague,
    ViewLeagues,
    EditLeague,
    DeleteLeague,
    Back,
}

impl LeagueMenuChoice {
    /// The choice a numeric selection stands for, if any.
    pub open spec fn from_selection_spec(n: u32) -> Option<LeagueMenuChoice> {
        match n {
            1u32 => Some(LeagueMenuChoice::CreateLeague),
            2u32 => Some(LeagueMenuChoice::ViewLeagues),
            3u32 => Some(LeagueMenuChoice::EditLeague),
            4u32 => Some(LeagueMenuChoice::DeleteLeague),
            0u32 => Some(LeagueMenuChoice::Back),
            _ => None,
        }
    }

    /// Decode a numeric menu selection; anything unlisted is no choice.
    pub fn from_selection(n: u32) -> (r: Option<LeagueMenuChoice>)
        ensures
            r == LeagueMenuChoice::from_selection_spec(n),
    {
        match n {
            1 => Some(LeagueMenuChoice::CreateLeague),
            2 => Some(LeagueMenuChoice::ViewLeagues),
            3 => Some(LeagueMenuChoice::EditLeague),
            4 => Some(LeagueMenuChoice::DeleteLeague),
            0 => Some(LeagueMenuChoice::Back),
            _ => None,
        }
    }
}

/// Team-management menu entries.
#[derive(Debug, Clone, Copy, PartialEq, Eq, Structural)]
pub enum TeamMenuChoice {
    CreateTeam,
    ViewTeams,
    EditTeam,
    ImportTeam,
    DeleteTeam,
    Back,
}

impl TeamMenuChoice {
    /// The choice a numeric selection stands for, if any.
    pub open spec fn from_selection_spec(n: u32) -> Option<TeamMenuChoice> {
        match n {
            1u32 => Some(TeamMenuChoice::CreateTeam),
            2u32 => Some(TeamMenuChoice::ViewTeams),
            3u32 => Some(TeamMenuChoice::EditTeam),
            4u32 => Some(TeamMenuChoice::ImportTeam),
            5u32 => Some(TeamMenuChoice::DeleteTeam),
            0u32 => Some(TeamMenuChoice::Back),
            _ => None,
        }
    }

    /// Decode a numeric menu selection; anything unlisted is no choice.
    pub fn from_selection(n: u32) -> (r: Option<TeamMenuChoice>)
        ensures
            r == TeamMenuChoice::from_selection_spec(n),
    {
        match n {
            1 => Some(TeamMenuChoice::CreateTeam),
            2 => Some(TeamMenuChoice::ViewTeams),
            3 => Some(TeamMenuChoice::EditTeam),
            4 => Some(TeamMenuChoice::ImportTeam),
            5 => Some(TeamMenuChoice::DeleteTeam),
            0 => Some(TeamMenuChoice::Back),
            _ => None,
        }
    }
}

/// Player-management menu entries.
#[derive(Debug, Clone, Copy, PartialEq, Eq, Structural)]
pub enum PlayerMenuChoice {
    AddPlayer,
    ListPlayers,
    UpdatePlayer,
    DeletePlayer,
    ChangeTeam,
    ImportExport,
    Back,
}

impl PlayerMenuChoice {
    /// The choice a numeric selection stands for, if any.
    pub open spec fn from_selection_spec(n: u32) -> Option<PlayerMenuChoice> {
        match n {
            1u32 => Some(PlayerMenuChoice::AddPlayer),
            2u32 => Some(PlayerMenuChoice::ListPlayers),
            3u32 => Some(PlayerMenuChoice::UpdatePlayer),
            4u32 => Some(PlayerMenuChoice::DeletePlayer),
            5u32 => Some(PlayerMenuChoice::ChangeTeam),
            6u32 => Some(PlayerMenuChoice::ImportExport),
            0u32 => Some(PlayerMenuChoice::Back),
            _ => None,
        }
    }

    /// Decode a numeric menu selection; anything unlisted is no choice.
    pub fn from_selection(n: u32) -> (r: Option<PlayerMenuChoice>)
        ensures
            r == PlayerMenuChoice::from_selection_spec(n),
    {
        match n {
            1 => Some(PlayerMenuChoice::AddPlayer),
            2 => Some(PlayerMenuChoice::ListPlayers),
            3 => Some(PlayerMenuChoice::UpdatePlayer),
            4 => Some(PlayerMenuChoice::DeletePlayer),
            5 => Some(PlayerMenuChoice::ChangeTeam),
            6 => Some(PlayerMenuChoice::ImportExport),
            0 => Some(PlayerMenuChoice::Back),
            _ => None,
        }
    }
}

/// Game-management menu entries.
#[derive(Debug, Clone, Copy, PartialEq, Eq, Structural)]
pub enum GameMenuChoice {
    NewGame,
    ListGames,
    EditGame,
    PlayBall,
    Back,
}

impl GameMenuChoice {
    /// The choice a numeric selection stands for, if any.
    pub open spec fn from_selection_spec(n: u32) -> Option<GameMenuChoice> {
        match n {
            1u32 => Some(GameMenuChoice::NewGame),
            2u32 => Some(GameMenuChoice::ListGames),
            3u32 => Some(GameMenuChoice::EditGame),
            4u32 => Some(GameMenuChoice::PlayBall),
            0u32 => Some(GameMenuChoice::Back),
            _ => None,
        }
    }

    /// Decode a numeric menu selection; anything unlisted is no choice.
    pub fn from_selection(n: u32) -> (r: Option<GameMenuChoice>)
        ensures
            r == GameMenuChoice::from_selection_spec(n),
    {
        match n {
            1 => Some(GameMenuChoice::NewGame),
            2 => Some(GameMenuChoice::ListGames),
            3 => Some(GameMenuChoice::EditGame),
            4 => Some(GameMenuChoice::PlayBall),
            0 => Some(GameMenuChoice::Back),
            _ => None,
        }
    }
}

/// Game-editing menu entries.
#[derive(Debug, Clone, Copy, PartialEq, Eq, Structural)]
pub enum EditGameMenuChoice {
    EditTeams,
    EditLineups,
    EditInningsScore,
    Back,
}

impl EditGameMenuChoice {
    /// The choice a numeric selection stands for, if any.
    pub open spec fn from_selection_spec(n: u32) -> Option<EditGameMenuChoice> {
        match n {
            1u32 => Some(EditGameMenuChoice::EditTeams),
            2u32 => Some(EditGameMenuChoice::EditLineups),
            3u32 => Some(EditGameMenuChoice::EditInningsScore),
            0u32 => Some(EditGameMenuChoice::Back),
            _ => None,
        }
    }

    /// Decode a numeric menu selection; anything unlisted is no choice.
    pub fn from_selection(n: u32) -> (r: Option<EditGameMenuChoice>)
        ensures
            r == EditGameMenuChoice::from_selection_spec(n),
    {
        match n {
            1 => Some(EditGameMenuChoice::EditTeams),
            2 => Some(EditGameMenuChoice::EditLineups),
            3 => Some(EditGameMenuChoice::EditInningsScore),
            0 => Some(EditGameMenuChoice::Back),
            _ => None,
        }
    }
}

/// Database-management menu entries.
#[derive(Debug, Clone, Copy, PartialEq, Eq, Structural)]
pub enum DBMenuChoice {
    ViewInfo,
    ViewStatus,
    RunMigrations,
    BackupDB,
    RestoreDB,
    VacuumDB,
    ClearData,
    ExportGame,
    Back,
}

impl DBMenuChoice {
    /// The choice a numeric selection stands for, if any.
    pub open spec fn from_selection_spec(n: u32) -> Option<DBMenuChoice> {
        match n {
            1u32 => Some(DBMenuChoice::ViewInfo),
            2u32 => Some(DBMenuChoice::ViewStatus),
            3u32 => Some(DBMenuChoice::RunMigrations),
            4u32 => Some(DBMenuChoice::BackupDB),
            5u32 => Some(DBMenuChoice::RestoreDB),
            6u32 => Some(DBMenuChoice::VacuumDB),
            7u32 => Some(DBMenuChoice::ClearData),
            8u32 => Some(DBMenuChoice::ExportGame),
            0u32 => Some(DBMenuChoice::Back),
            _ => None,
        }
    }

    /// Decode a numeric menu selection; anything unlisted is no choice.
    pub fn from_selection(n: u32) -> (r: Option<DBMenuChoice>)
        ensures
            r == DBMenuChoice::from_selection_spec(n),
    {
        match n {
            1 => Some(DBMenuChoice::ViewInfo),
            2 => Some(DBMenuChoice::ViewStatus),
            3 => Some(DBMenuChoice::RunMigrations),
            4 => Some(DBMenuChoice::BackupDB),
            5 => Some(DBMenuChoice::RestoreDB),
            6 => Some(DBMenuChoice::VacuumDB),
            7 => Some(DBMenuChoice::ClearData),
            8 => Some(DBMenuChoice::ExportGame),
            0 => Some(DBMenuChoice::Back),
            _ => None,
        }
    }
}

} // verus!
