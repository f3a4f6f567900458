use bs_scoring::league::League;
use bs_scoring::menu::{
    DBMenuChoice, EditGameMenuChoice, GameMenuChoice, LeagueMenuChoice, MainMenuChoice,
    PlayerMenuChoice, TeamMenuChoice,
};
use bs_scoring::player::Player;
use bs_scoring::team::Team;
use bs_scoring::types::{
    Game, GameStatus, GameTeam, HalfInning, Pitch, PlateAppearance, PlateAppearanceResult,
    Position, Walk,
};

#[test]
fn test_position_numeral_roundtrip() {
    for n in 1u8..=9 {
        let p = Position::from_number(n).expect("numeral in 1..=9 must resolve");
        assert_eq!(p.to_number(), n);
    }
}

#[test]
fn test_position_invalid_numerals() {
    assert!(Position::from_number(0).is_none());
    assert!(Position::from_number(10).is_none());
    assert!(Position::from_number(99).is_none());
}

#[test]
fn test_position_table() {
    assert_eq!(Position::from_number(1), Some(Position::Pitcher));
    assert_eq!(Position::from_number(2), Some(Position::Catcher));
    assert_eq!(Position::from_number(3), Some(Position::FirstBase));
    assert_eq!(Position::from_number(4), Some(Position::SecondBase));
    assert_eq!(Position::from_number(5), Some(Position::ThirdBase));
    assert_eq!(Position::from_number(6), Some(Position::Shortstop));
    assert_eq!(Position::from_number(7), Some(Position::LeftField));
    assert_eq!(Position::from_number(8), Some(Position::CenterField));
    assert_eq!(Position::from_number(9), Some(Position::RightField));
}

#[test]
fn test_position_display_labels() {
    assert_eq!(Position::Pitcher.display_label(), "P");
    assert_eq!(Position::Catcher.display_label(), "C");
    assert_eq!(Position::FirstBase.display_label(), "1B");
    assert_eq!(Position::Shortstop.display_label(), "SS");
    assert_eq!(Position::CenterField.display_label(), "CF");
    assert_eq!(Position::RightField.display_label(), "RF");
}

#[test]
fn test_game_status_codes() {
    assert_eq!(GameStatus::from_i64(1), Some(GameStatus::Pregame));
    assert_eq!(GameStatus::from_i64(2), Some(GameStatus::InProgress));
    assert_eq!(GameStatus::from_i64(3), Some(GameStatus::Finished));
    assert_eq!(GameStatus::from_i64(0), None);
    assert_eq!(GameStatus::from_i64(4), None);
    for status in [
        GameStatus::Pregame,
        GameStatus::InProgress,
        GameStatus::Finished,
    ] {
        assert_eq!(GameStatus::from_i64(status.to_i64()), Some(status));
    }
    assert_eq!(GameStatus::Pregame.as_str(), "pregame");
    assert_eq!(GameStatus::InProgress.as_str(), "in_progress");
    assert_eq!(GameStatus::Finished.as_str(), "finished");
}

#[test]
fn test_pitch_symbols() {
    assert_eq!(Pitch::Ball.symbol(), "B");
    assert_eq!(Pitch::CalledStrike.symbol(), "C");
    assert_eq!(Pitch::SwingingStrike.symbol(), "S");
    assert_eq!(Pitch::Foul.symbol(), "F");
    assert_eq!(Pitch::FoulBunt.symbol(), "L");
    assert_eq!(Pitch::InPlay.symbol(), "X");
    assert_eq!(Pitch::HittedBy.symbol(), "H");
}

fn sample_team(name: &str) -> GameTeam {
    GameTeam {
        name: name.to_string(),
        lineup: vec![],
        runs: 0,
        hits: 0,
        errors: 0,
    }
}

#[test]
fn test_game_new_starts_fresh() {
    let game = Game::new(
        "g-1".to_string(),
        "2026-04-01".to_string(),
        sample_team("Home"),
        sample_team("Away"),
        "Fenway".to_string(),
    );
    assert_eq!(game.game_id, "g-1");
    assert_eq!(game.date, "2026-04-01");
    assert_eq!(game.venue, "Fenway");
    assert!(game.plate_appearances.is_empty());
    assert_eq!(game.current_inning, 1);
    assert_eq!(game.current_half, HalfInning::Top);
}

#[test]
fn test_game_add_plate_appearance() {
    let mut game = Game::new(
        "g-2".to_string(),
        "2026-04-02".to_string(),
        sample_team("Home"),
        sample_team("Away"),
        "Wrigley".to_string(),
    );
    let pa = PlateAppearance {
        inning: 1,
        half_inning: HalfInning::Top,
        batter_number: 12,
        batter_name: "Lead Off".to_string(),
        pitcher_name: "Ace".to_string(),
        result: PlateAppearanceResult::Walk(Walk::BaseOnBalls),
        pitch_count: None,
        runners: vec![],
        outs_before: 0,
        outs_after: 0,
        runs_scored: 0,
        notes: None,
    };
    game.add_plate_appearance(pa);
    assert_eq!(game.plate_appearances.len(), 1);
    assert_eq!(game.plate_appearances[0].batter_number, 12);
    assert_eq!(game.current_inning, 1);
}

#[test]
fn test_league_new() {
    let league = League::new(
        "MLB".to_string(),
        Some("2026".to_string()),
        Some("Major League Baseball".to_string()),
    );
    assert!(league.id.is_none());
    assert_eq!(league.name, "MLB");
    assert_eq!(league.season.as_deref(), Some("2026"));
    assert_eq!(league.description.as_deref(), Some("Major League Baseball"));
}

#[test]
fn test_team_new() {
    let team = Team::new(
        "Red Sox".to_string(),
        None,
        Some("Boston".to_string()),
        Some("BOS".to_string()),
        Some(1901),
    );
    assert!(team.id.is_none());
    assert_eq!(team.name, "Red Sox");
    assert!(team.league_id.is_none());
    assert_eq!(team.city.as_deref(), Some("Boston"));
    assert_eq!(team.abbreviation.as_deref(), Some("BOS"));
    assert_eq!(team.founded_year, Some(1901));
}

#[test]
fn test_player_new() {
    let player = Player::new(
        7,
        99,
        "Aaron Judge".to_string(),
        Position::RightField,
        Some(1),
    );
    assert!(player.id.is_none());
    assert_eq!(player.team_id, 7);
    assert_eq!(player.number, 99);
    assert_eq!(player.name, "Aaron Judge");
    assert_eq!(player.position, Position::RightField);
    assert_eq!(player.batting_order, Some(1));
    assert!(player.is_active);
}

#[test]
fn test_menu_selections() {
    assert_eq!(
        MainMenuChoice::from_selection(1),
        Some(MainMenuChoice::ManageGames)
    );
    assert_eq!(MainMenuChoice::from_selection(0), Some(MainMenuChoice::Exit));
    assert_eq!(MainMenuChoice::from_selection(7), None);
    assert_eq!(
        LeagueMenuChoice::from_selection(4),
        Some(LeagueMenuChoice::DeleteLeague)
    );
    assert_eq!(
        TeamMenuChoice::from_selection(5),
        Some(TeamMenuChoice::DeleteTeam)
    );
    assert_eq!(
        PlayerMenuChoice::from_selection(6),
        Some(PlayerMenuChoice::ImportExport)
    );
    assert_eq!(
        GameMenuChoice::from_selection(4),
        Some(GameMenuChoice::PlayBall)
    );
    assert_eq!(
        EditGameMenuChoice::from_selection(2),
        Some(EditGameMenuChoice::EditLineups)
    );
    assert_eq!(
        DBMenuChoice::from_selection(8),
        Some(DBMenuChoice::ExportGame)
    );
    assert_eq!(DBMenuChoice::from_selection(9), None);
}
