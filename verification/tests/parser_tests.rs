use bs_scoring::parser::CommandParser;
use bs_scoring::types::{
    AdvancedPlay, Base, HitType, OutType, ParseError, Pitch, PlateAppearanceResult, Position, Walk,
};

#[test]
fn test_parse_hits() {
    assert!(matches!(
        CommandParser::parse_command("1B"),
        Ok(PlateAppearanceResult::Hit { .. })
    ));
    assert!(matches!(
        CommandParser::parse_command("HR"),
        Ok(PlateAppearanceResult::Hit { .. })
    ));
}

#[test]
fn test_parse_strikeouts() {
    assert!(matches!(
        CommandParser::parse_command("K"),
        Ok(PlateAppearanceResult::Out { .. })
    ));
    assert!(matches!(
        CommandParser::parse_command("KL"),
        Ok(PlateAppearanceResult::Out { .. })
    ));
}

#[test]
fn test_parse_groundouts() {
    assert!(matches!(
        CommandParser::parse_command("6-3"),
        Ok(PlateAppearanceResult::Out {
            out_type: OutType::Groundout { .. },
            ..
        })
    ));
}

#[test]
fn test_parse_walks() {
    assert!(matches!(
        CommandParser::parse_command("BB"),
        Ok(PlateAppearanceResult::Walk(Walk::BaseOnBalls))
    ));
}

#[test]
fn test_single_any_case() {
    let expected = Ok(PlateAppearanceResult::Hit {
        hit_type: HitType::Single,
        location: None,
        rbis: 0,
    });
    assert_eq!(CommandParser::parse_command("1B"), expected);
    assert_eq!(CommandParser::parse_command("single"), expected);
    assert_eq!(CommandParser::parse_command("SiNgLe"), expected);
}

#[test]
fn test_hit_keywords() {
    for (token, hit_type) in [
        ("2B", HitType::Double),
        ("double", HitType::Double),
        ("3B", HitType::Triple),
        ("TRIPLE", HitType::Triple),
        ("hr", HitType::HomeRun),
        ("HOMERUN", HitType::HomeRun),
        ("GRD", HitType::GroundRule),
    ] {
        assert_eq!(
            CommandParser::parse_command(token),
            Ok(PlateAppearanceResult::Hit {
                hit_type,
                location: None,
                rbis: 0
            }),
            "token {token}"
        );
    }
}

#[test]
fn test_strikeout_swinging_vs_looking() {
    assert_eq!(
        CommandParser::parse_command("K"),
        Ok(PlateAppearanceResult::Out {
            out_type: OutType::Strikeout {
                swinging: true,
                looking: false,
            },
            rbi: false,
        })
    );
    let looking = Ok(PlateAppearanceResult::Out {
        out_type: OutType::Strikeout {
            swinging: false,
            looking: true,
        },
        rbi: false,
    });
    assert_eq!(CommandParser::parse_command("KL"), looking);
    assert_eq!(CommandParser::parse_command("K-L"), looking);
    let glyph = char::from_u32(0xA4DA).unwrap();
    let spelled = format!("K{glyph}");
    assert_eq!(CommandParser::parse_command(&spelled), looking);
}

#[test]
fn test_walk_keywords() {
    assert_eq!(
        CommandParser::parse_command("BB"),
        Ok(PlateAppearanceResult::Walk(Walk::BaseOnBalls))
    );
    assert_eq!(
        CommandParser::parse_command("IBB"),
        Ok(PlateAppearanceResult::Walk(Walk::Intentional))
    );
    assert_eq!(
        CommandParser::parse_command("hbp"),
        Ok(PlateAppearanceResult::Walk(Walk::HitByPitch))
    );
}

#[test]
fn test_prefix_outs() {
    assert_eq!(
        CommandParser::parse_command("F8"),
        Ok(PlateAppearanceResult::Out {
            out_type: OutType::Flyout {
                positions: vec![Position::CenterField],
            },
            rbi: false,
        })
    );
    assert_eq!(
        CommandParser::parse_command("L6"),
        Ok(PlateAppearanceResult::Out {
            out_type: OutType::Lineout {
                positions: vec![Position::Shortstop],
            },
            rbi: false,
        })
    );
    assert_eq!(
        CommandParser::parse_command("P4"),
        Ok(PlateAppearanceResult::Out {
            out_type: OutType::Popup {
                positions: vec![Position::SecondBase],
            },
            rbi: false,
        })
    );
}

#[test]
fn test_groundout_order_preserved() {
    match CommandParser::parse_command("6-3") {
        Ok(PlateAppearanceResult::Out {
            out_type: OutType::Groundout { positions },
            rbi,
        }) => {
            assert_eq!(positions, vec![Position::Shortstop, Position::FirstBase]);
            assert!(!rbi);
        }
        other => panic!("unexpected outcome: {other:?}"),
    }
}

#[test]
fn test_double_play() {
    match CommandParser::parse_command("6-4-3 DP") {
        Ok(PlateAppearanceResult::Out {
            out_type: OutType::DoublePlay { positions },
            ..
        }) => {
            assert_eq!(
                positions,
                vec![
                    Position::Shortstop,
                    Position::SecondBase,
                    Position::FirstBase
                ]
            );
        }
        other => panic!("unexpected outcome: {other:?}"),
    }
}

#[test]
fn test_triple_play() {
    match CommandParser::parse_command("5-4-3 TP") {
        Ok(PlateAppearanceResult::Out {
            out_type: OutType::TriplePlay { positions },
            ..
        }) => {
            assert_eq!(
                positions,
                vec![
                    Position::ThirdBase,
                    Position::SecondBase,
                    Position::FirstBase
                ]
            );
        }
        other => panic!("unexpected outcome: {other:?}"),
    }
}

#[test]
fn test_fielding_sequence_skips_noise() {
    // A malformed segment does not abort the sequence; it is skipped.
    match CommandParser::parse_command("6-x-3") {
        Ok(PlateAppearanceResult::Out {
            out_type: OutType::Groundout { positions },
            ..
        }) => {
            assert_eq!(positions, vec![Position::Shortstop, Position::FirstBase]);
        }
        other => panic!("unexpected outcome: {other:?}"),
    }
    // If every segment fails, the rule yields no match at all.
    assert!(matches!(
        CommandParser::parse_command("x-y"),
        Err(ParseError::UnrecognizedToken { .. })
    ));
}

#[test]
fn test_sacrifice_fly() {
    assert_eq!(
        CommandParser::parse_command("SF8"),
        Ok(PlateAppearanceResult::Out {
            out_type: OutType::Flyout {
                positions: vec![Position::CenterField],
            },
            rbi: true,
        })
    );
}

#[test]
fn test_stolen_bases_derive_origin() {
    for (token, from, to) in [
        ("SB2", Base::First, Base::Second),
        ("SB3", Base::Second, Base::Third),
        ("SBH", Base::Third, Base::Home),
    ] {
        assert_eq!(
            CommandParser::parse_command(token),
            Ok(PlateAppearanceResult::AdvancedPlay(
                AdvancedPlay::StolenBase { from, to }
            )),
            "token {token}"
        );
    }
}

#[test]
fn test_advanced_play_keywords() {
    assert_eq!(
        CommandParser::parse_advanced_play("BK"),
        Ok(AdvancedPlay::Balk)
    );
    assert_eq!(
        CommandParser::parse_advanced_play("balk"),
        Ok(AdvancedPlay::Balk)
    );
    assert_eq!(
        CommandParser::parse_advanced_play("WP"),
        Ok(AdvancedPlay::WildPitch)
    );
    assert_eq!(
        CommandParser::parse_advanced_play("PB"),
        Ok(AdvancedPlay::PassedBall)
    );
    assert_eq!(
        CommandParser::parse_advanced_play("SH"),
        Ok(AdvancedPlay::SacrificeHit)
    );
    assert_eq!(
        CommandParser::parse_advanced_play("SAC"),
        Ok(AdvancedPlay::SacrificeHit)
    );
}

#[test]
fn test_stolen_base_bad_target_is_hard_failure() {
    assert_eq!(
        CommandParser::parse_advanced_play("SB5"),
        Err(ParseError::InvalidPosition {
            token: "SB5".to_string()
        })
    );
    assert_eq!(
        CommandParser::parse_advanced_play("SB"),
        Err(ParseError::InvalidPosition {
            token: "SB".to_string()
        })
    );
    // Through the full cascade the same input ends as an unrecognized token.
    assert_eq!(
        CommandParser::parse_command("SB5"),
        Err(ParseError::UnrecognizedToken {
            token: "SB5".to_string()
        })
    );
}

#[test]
fn test_unrecognized_tokens() {
    assert_eq!(
        CommandParser::parse_command(""),
        Err(ParseError::UnrecognizedToken {
            token: String::new()
        })
    );
    assert_eq!(
        CommandParser::parse_command("ZZZ"),
        Err(ParseError::UnrecognizedToken {
            token: "ZZZ".to_string()
        })
    );
    assert_eq!(
        CommandParser::parse_command("F0"),
        Err(ParseError::UnrecognizedToken {
            token: "F0".to_string()
        })
    );
}

#[test]
fn test_fielding_error_keeps_token() {
    assert_eq!(
        CommandParser::parse_command("E6"),
        Ok(PlateAppearanceResult::Error {
            error: bs_scoring::types::Error {
                position: Position::Shortstop,
                description: "E6".to_string(),
            },
            reached_base: Base::First,
        })
    );
    // The description holds the normalized token even for lower-case input.
    assert_eq!(
        CommandParser::parse_command("e6"),
        Ok(PlateAppearanceResult::Error {
            error: bs_scoring::types::Error {
                position: Position::Shortstop,
                description: "E6".to_string(),
            },
            reached_base: Base::First,
        })
    );
    // No position resolves to 99, so the token falls through and fails.
    assert!(matches!(
        CommandParser::parse_command("E99"),
        Err(ParseError::UnrecognizedToken { .. })
    ));
}

#[test]
fn test_fielders_choice() {
    assert_eq!(
        CommandParser::parse_command("FC"),
        Ok(PlateAppearanceResult::FieldersChoice {
            positions: vec![],
            out_at: None,
        })
    );
}

#[test]
fn test_pitch_sequence() {
    assert_eq!(
        CommandParser::parse_pitch_sequence("BCCFBFX"),
        Ok(vec![
            Pitch::Ball,
            Pitch::CalledStrike,
            Pitch::CalledStrike,
            Pitch::Foul,
            Pitch::Ball,
            Pitch::Foul,
            Pitch::InPlay,
        ])
    );
    assert_eq!(
        CommandParser::parse_pitch_sequence("sh"),
        Ok(vec![Pitch::SwingingStrike, Pitch::HittedBy])
    );
}

#[test]
fn test_pitch_sequence_fails_whole_call() {
    assert_eq!(
        CommandParser::parse_pitch_sequence("BCZF"),
        Err(ParseError::InvalidPitchSymbol { symbol: 'Z' })
    );
    assert_eq!(
        CommandParser::parse_pitch_sequence("Q"),
        Err(ParseError::InvalidPitchSymbol { symbol: 'Q' })
    );
}

#[test]
fn test_normalization_and_purity() {
    // Surrounding whitespace and case never matter.
    assert_eq!(
        CommandParser::parse_command("  k \t"),
        CommandParser::parse_command("K")
    );
    assert_eq!(
        CommandParser::parse_command(" 1b "),
        CommandParser::parse_command("1B")
    );
    // Identical input always yields an identical result.
    assert_eq!(
        CommandParser::parse_command("6-4-3 DP"),
        CommandParser::parse_command("6-4-3 DP")
    );
}

#[test]
fn test_sf_not_taken_by_flyout_rule() {
    // "SF8" must reach the sacrifice-fly rule, not the F-plus-numeral rule,
    // and a plain "F8" must not carry the run-batted-in flag.
    let sf = CommandParser::parse_command("SF8");
    let f = CommandParser::parse_command("F8");
    assert!(matches!(
        sf,
        Ok(PlateAppearanceResult::Out { rbi: true, .. })
    ));
    assert!(matches!(
        f,
        Ok(PlateAppearanceResult::Out { rbi: false, .. })
    ));
}
