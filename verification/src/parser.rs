//! The notation interpreter: executable parsing of scoring tokens, proved
//! against the model in [`crate::notation`].

use crate::notation::{
    advanced_play_spec, all_digits, contains_char, contains_glyph, contains_pair,
    digit_val, digits_val, hyphen_pred, invalid_pitch_pred, is_digit, is_space,
    lemma_count_until_is, lemma_drop_leading_spaces_at, lemma_drop_trailing_spaces_at,
    lemma_word_prefix_at, normalize_spec, numeral_position, parse_advanced_play_spec,
    parse_command_spec, parse_pitch_sequence_spec, pitch_of_char,
    pitch_seq_spec, pitches_ok, segment_position, segment_positions, segment_word,
    split_positions, to_upper, trim_spec, upper_seq, LOOKING_GLYPH,
};
use crate::types::{
    AdvancedPlay, AdvancedPlayView, Base, Error, HitType, OutType, ParseError, ParseErrorView,
    Pitch, PlateAppearanceResult, PlateAppearanceResultView, Position, Walk,
};
use vstd::prelude::*;
use vstd::string::StrSliceExecFns;

verus! {

/// The view of a full-parse result: outcomes and failures through their
/// mathematical models.
pub open spec fn outcome_result_view(r: Result<PlateAppearanceResult, ParseError>) -> Result<
    PlateAppearanceResultView,
    ParseErrorView,
> {
    match r {
        Ok(v) => Ok(v@),
        Err(e) => Err(e@),
    }
}

/// The view of an advanced-play result.
pub open spec fn advanced_result_view(r: Result<AdvancedPlay, ParseError>) -> Result<
    AdvancedPlayView,
    ParseErrorView,
> {
    match r {
        Ok(v) => Ok(v@),
        Err(e) => Err(e@),
    }
}

/// The view of a pitch-sequence result.
pub open spec fn pitch_result_view(r: Result<Vec<Pitch>, ParseError>) -> Result<
    Seq<Pitch>,
    ParseErrorView,
> {
    match r {
        Ok(v) => Ok(v@),
        Err(e) => Err(e@),
    }
}

/// Relies on `String`'s `FromIterator<char>` impl: collecting characters
/// yields a string holding exactly that character sequence.
#[verifier::external_body]
fn chars_to_string(v: &Vec<char>) -> (r: String)
    ensures
        r@ == v@,
{
    v.iter().collect()
}

fn is_space_char(c: char) -> (r: bool)
    ensures
        r == is_space(c),
{
    c == ' ' || c == '\t' || c == '\n' || c == '\r' || c == '\x0b' || c == '\x0c'
}

fn upper_char(c: char) -> (r: char)
    ensures
        r == to_upper(c),
{
    let u = c as u32;
    if ('a' as u32) <= u && u <= ('z' as u32) {
        ((c as u8) - 32) as char
    } else {
        c
    }
}

/// Collect the characters of a string slice.
fn chars_of(s: &str) -> (v: Vec<char>)
    ensures
        v@ == s@,
{
    let n = s.unicode_len();
    let mut v: Vec<char> = Vec::new();
    let mut i: usize = 0;
    while i < n
        invariant
            i <= n,
            n == s@.len(),
            v@ == s@.take(i as int),
        decreases n - i,
    {
        v.push(s.get_char(i));
        proof {
            assert(s@.take(i + 1) =~= s@.take(i as int).push(s@[i as int]));
        }
        i += 1;
    }
    proof {
        assert(s@.take(n as int) =~= s@);
    }
    v
}

/// Compare a token against a literal, character by character.
fn tok_eq(t: &Vec<char>, s: &str) -> (r: bool)
    ensures
        r == (t@ == s@),
{
    let n = s.unicode_len();
    if t.len() != n {
        return false;
    }
    let mut i: usize = 0;
    while i < n
        invariant
            i <= n,
            n == s@.len(),
            t@.len() == n,
            forall|j: int| 0 <= j < i ==> t@[j] == s@[j],
        decreases n - i,
    {
        if t[i] != s.get_char(i) {
            return false;
        }
        i += 1;
    }
    proof {
        assert(t@ =~= s@);
    }
    true
}

/// Normalize raw input as the interpreter requires: trim surrounding
/// whitespace, then uppercase.
fn normalize(input: &str) -> (t: Vec<char>)
    ensures
        t@ == normalize_spec(input@),
{
    let raw = chars_of(input);
    let n = raw.len();
    let mut lo: usize = 0;
    while lo < n && is_space_char(raw[lo])
        invariant
            lo <= n,
            n == raw@.len(),
            forall|j: int| 0 <= j < lo ==> is_space(raw@[j]),
        decreases n - lo,
    {
        lo += 1;
    }
    let mut hi: usize = n;
    while hi > lo && is_space_char(raw[hi - 1])
        invariant
            lo <= hi <= n,
            n == raw@.len(),
            forall|j: int| hi <= j < n ==> is_space(raw@[j]),
        decreases hi,
    {
        hi -= 1;
    }
    proof {
        lemma_drop_leading_spaces_at(raw@, lo as int);
        let u = raw@.skip(lo as int);
        assert forall|j: int| (hi - lo) <= j < u.len() implies is_space(u[j]) by {
            assert(u[j] == raw@[lo + j]);
        }
        if hi > lo {
            assert(u[hi - lo - 1] == raw@[hi - 1]);
        }
        lemma_drop_trailing_spaces_at(u, hi - lo);
        assert(u.take(hi - lo) =~= raw@.subrange(lo as int, hi as int));
        assert(trim_spec(raw@) == raw@.subrange(lo as int, hi as int));
        assert(upper_seq(raw@.subrange(lo as int, lo as int)) =~= Seq::<char>::empty());
    }
    let mut t: Vec<char> = Vec::new();
    let mut j: usize = lo;
    while j < hi
        invariant
            lo <= j <= hi <= n,
            n == raw@.len(),
            t@ == upper_seq(raw@.subrange(lo as int, j as int)),
        decreases hi - j,
    {
        t.push(upper_char(raw[j]));
        proof {
            assert(raw@.subrange(lo as int, j + 1) =~= raw@.subrange(lo as int, j as int).push(
                raw@[j as int],
            ));
            assert(upper_seq(raw@.subrange(lo as int, j + 1)) =~= upper_seq(
                raw@.subrange(lo as int, j as int),
            ).push(to_upper(raw@[j as int])));
        }
        j += 1;
    }
    proof {
        assert(t@ == normalize_spec(input@));
    }
    t
}

/// Resolve the characters `t[from..to]` as a position numeral: one or more
/// digits whose value is a valid scoring numeral.
fn scan_numeral(t: &Vec<char>, from: usize, to: usize) -> (r: Option<Position>)
    requires
        from <= to <= t@.len(),
    ensures
        r == numeral_position(t@.subrange(from as int, to as int)),
{
    let ghost s = t@.subrange(from as int, to as int);
    if from == to {
        return None;
    }
    let mut v: u32 = 0;
    let mut i: usize = from;
    while i < to
        invariant
            from <= i <= to <= t@.len(),
            s == t@.subrange(from as int, to as int),
            s.len() == to - from,
            all_digits(s.take(i - from)),
            v <= 99,
            digits_val(s.take(i - from)) <= 9 ==> v == digits_val(s.take(i - from)),
            digits_val(s.take(i - from)) > 9 ==> v > 9,
        decreases to - i,
    {
        let c = t[i];
        proof {
            assert(s[i - from] == t@[i as int]);
        }
        if c < '0' || c > '9' {
            proof {
                assert(!is_digit(s[i - from]));
            }
            return None;
        }
        let d = (c as u32) - 48;
        proof {
            assert(is_digit(s[i - from]));
            let pre = s.take(i - from);
            let pre1 = s.take(i - from + 1);
            assert(pre1.drop_last() =~= pre);
            assert(pre1.last() == s[i - from]);
            assert(digit_val(s[i - from]) == d);
            assert(digits_val(pre1) == digits_val(pre) * 10 + d);
            assert forall|k: int| 0 <= k < pre1.len() implies is_digit(pre1[k]) by {
                assert(pre1[k] == s[k]);
                if k < i - from {
                    assert(pre[k] == s[k]);
                }
            }
        }
        if v <= 9 {
            v = v * 10 + d;
        }
        i += 1;
    }
    proof {
        assert(s.take(to - from) =~= s);
    }
    if 1 <= v && v <= 9 {
        Position::from_number(v as u8)
    } else {
        None
    }
}

/// Resolve one hyphen-separated fielding segment `t[from..to]`: its first
/// whitespace-separated word read as a position numeral.
fn segment_pos(t: &Vec<char>, from: usize, to: usize) -> (r: Option<Position>)
    requires
        from <= to <= t@.len(),
    ensures
        r == segment_position(t@.subrange(from as int, to as int)),
{
    let mut a = from;
    while a < to && is_space_char(t[a])
        invariant
            from <= a <= to <= t@.len(),
            forall|j: int| from <= j < a ==> is_space(t@[j]),
        decreases to - a,
    {
        a += 1;
    }
    let mut b = a;
    while b < to && !is_space_char(t[b])
        invariant
            a <= b <= to <= t@.len(),
            forall|j: int| a <= j < b ==> !is_space(t@[j]),
        decreases to - b,
    {
        b += 1;
    }
    proof {
        let seg = t@.subrange(from as int, to as int);
        assert forall|j: int| 0 <= j < a - from implies is_space(seg[j]) by {
            assert(seg[j] == t@[from + j]);
        }
        if a < to {
            assert(seg[a - from] == t@[a as int]);
        }
        lemma_drop_leading_spaces_at(seg, a - from);
        let u = seg.skip(a - from);
        assert(u =~= t@.subrange(a as int, to as int));
        assert forall|j: int| 0 <= j < b - a implies !is_space(u[j]) by {
            assert(u[j] == t@[a + j]);
        }
        if b < to {
            assert(u[b - a] == t@[b as int]);
        }
        lemma_word_prefix_at(u, b - a);
        assert(u.take(b - a) =~= t@.subrange(a as int, b as int));
        assert(segment_word(seg) == t@.subrange(a as int, b as int));
    }
    scan_numeral(t, a, b)
}

/// Read the fielding sequence of a hyphen-separated token: each segment's
/// position in order, unresolvable segments skipped.
fn split_fielding_positions(t: &Vec<char>) -> (ps: Vec<Position>)
    ensures
        ps@ == split_positions(t@),
{
    let n = t.len();
    let mut ps: Vec<Position> = Vec::new();
    let mut start: usize = 0;
    proof {
        assert(t@.skip(0) =~= t@);
        assert(ps@ + split_positions(t@) =~= split_positions(t@));
    }
    loop
        invariant_except_break
            start <= n,
            n == t@.len(),
            split_positions(t@) == ps@ + split_positions(t@.skip(start as int)),
        ensures
            ps@ == split_positions(t@),
        decreases n - start,
    {
        let mut h = start;
        while h < n && t[h] != '-'
            invariant
                start <= h <= n,
                n == t@.len(),
                forall|j: int| start <= j < h ==> t@[j] != '-',
            decreases n - h,
        {
            h += 1;
        }
        let ghost suffix = t@.skip(start as int);
        proof {
            assert forall|j: int| 0 <= j < h - start implies !((suffix[j]) == '-') by {
                assert(suffix[j] == t@[start + j]);
            }
            if h < n {
                assert(suffix[h - start] == t@[h as int]);
            }
            lemma_count_until_is(suffix, hyphen_pred(), h - start);
            assert(suffix.take(h - start) =~= t@.subrange(start as int, h as int));
        }
        let p = segment_pos(t, start, h);
        let ghost ps_old = ps@;
        if let Some(pos) = p {
            ps.push(pos);
            proof {
                assert(ps@ =~= ps_old + segment_positions(t@.subrange(start as int, h as int)));
            }
        } else {
            proof {
                assert(ps@ =~= ps_old + segment_positions(t@.subrange(start as int, h as int)));
            }
        }
        if h == n {
            proof {
                assert(suffix.take(h - start) =~= suffix);
                assert(split_positions(suffix) == segment_positions(
                    t@.subrange(start as int, h as int),
                ));
                assert(split_positions(t@) == ps@);
            }
            break;
        }
        proof {
            assert(split_positions(suffix) == segment_positions(
                t@.subrange(start as int, h as int),
            ) + split_positions(suffix.skip(h - start + 1)));
            assert(suffix.skip(h - start + 1) =~= t@.skip(h + 1));
            assert(split_positions(t@) == ps@ + split_positions(t@.skip(h + 1)));
        }
        start = h + 1;
    }
    ps
}

fn contains_hyphen(t: &Vec<char>) -> (r: bool)
    ensures
        r == contains_char(t@, '-'),
{
    let mut i: usize = 0;
    while i < t.len()
        invariant
            i <= t@.len(),
            forall|j: int| 0 <= j < i ==> t@[j] != '-',
        decreases t@.len() - i,
    {
        if t[i] == '-' {
            return true;
        }
        i += 1;
    }
    false
}

fn contains_pair_at(t: &Vec<char>, a: char, b: char) -> (r: bool)
    ensures
        r == contains_pair(t@, a, b),
{
    let n = t.len();
    if n < 2 {
        return false;
    }
    let mut i: usize = 0;
    while i + 1 < n
        invariant
            n == t@.len(),
            i + 1 <= n,
            forall|j: int| 0 <= j < i ==> !(#[trigger] t@[j] == a && t@[j + 1] == b),
        decreases t@.len() - i,
    {
        if t[i] == a && t[i + 1] == b {
            proof {
                assert(contains_pair(t@, a, b));
            }
            return true;
        }
        i += 1;
    }
    false
}

fn contains_glyph_char(t: &Vec<char>) -> (r: bool)
    ensures
        r == contains_glyph(t@),
{
    let mut i: usize = 0;
    while i < t.len()
        invariant
            i <= t@.len(),
            forall|j: int| 0 <= j < i ==> (t@[j] as u32) != LOOKING_GLYPH,
        decreases t@.len() - i,
    {
        if (t[i] as u32) == LOOKING_GLYPH {
            return true;
        }
        i += 1;
    }
    false
}

fn pitch_char(c: char) -> (r: Option<Pitch>)
    ensures
        r == pitch_of_char(c),
{
    if c == 'B' {
        Some(Pitch::Ball)
    } else if c == 'C' {
        Some(Pitch::CalledStrike)
    } else if c == 'S' {
        Some(Pitch::SwingingStrike)
    } else if c == 'F' {
        Some(Pitch::Foul)
    } else if c == 'L' {
        Some(Pitch::FoulBunt)
    } else if c == 'X' {
        Some(Pitch::InPlay)
    } else if c == 'H' {
        Some(Pitch::HittedBy)
    } else {
        None
    }
}

fn singleton(p: Position) -> (v: Vec<Position>)
    ensures
        v@ == seq![p],
{
    let mut v: Vec<Position> = Vec::new();
    v.push(p);
    proof {
        assert(v@ =~= seq![p]);
    }
    v
}

/// Stateless interpreter for scorekeeping notation.  It turns short textual
/// tokens (`"1B"`, `"K"`, `"6-4-3 DP"`, `"SF8"`, `"SB2"`, `"E6"`) into typed
/// plate-appearance outcomes; it retains no state between calls and never
/// panics on malformed input.
pub struct CommandParser;

impl CommandParser {
    /// Parse a scoring command.  The input is trimmed and uppercased, then
    /// run through a fixed cascade of shape recognizers, first match wins:
    /// exact keywords, one-letter prefix plus numeral, hyphen-separated
    /// fielding sequences, the sacrifice-fly shape, and advanced plays.
    /// Unrecognized input is a typed failure carrying the normalized token.
    pub fn parse_command(input: &str) -> (r: Result<PlateAppearanceResult, ParseError>)
        ensures
            outcome_result_view(r) == parse_command_spec(input@),
    {
        let t = normalize(input);
        let ghost tv = normalize_spec(input@);

        // Hit keywords.
        if tok_eq(&t, "1B") || tok_eq(&t, "SINGLE") {
            return Ok(
                PlateAppearanceResult::Hit { hit_type: HitType::Single, location: None, rbis: 0 },
            );
        }
        if tok_eq(&t, "2B") || tok_eq(&t, "DOUBLE") {
            return Ok(
                PlateAppearanceResult::Hit { hit_type: HitType::Double, location: None, rbis: 0 },
            );
        }
        if tok_eq(&t, "3B") || tok_eq(&t, "TRIPLE") {
            return Ok(
                PlateAppearanceResult::Hit { hit_type: HitType::Triple, location: None, rbis: 0 },
            );
        }
        if tok_eq(&t, "HR") || tok_eq(&t, "HOMERUN") {
            return Ok(
                PlateAppearanceResult::Hit { hit_type: HitType::HomeRun, location: None, rbis: 0 },
            );
        }
        if tok_eq(&t, "GRD") {
            return Ok(
                PlateAppearanceResult::Hit {
                    hit_type: HitType::GroundRule,
                    location: None,
                    rbis: 0,
                },
            );
        }

        // Strikeouts: swinging, then the looking spellings.
        if tok_eq(&t, "K") {
            return Ok(
                PlateAppearanceResult::Out {
                    out_type: OutType::Strikeout { swinging: true, looking: false },
                    rbi: false,
                },
            );
        }
        if tok_eq(&t, "KL") || tok_eq(&t, "K-L") || contains_glyph_char(&t) {
            return Ok(
                PlateAppearanceResult::Out {
                    out_type: OutType::Strikeout { swinging: false, looking: true },
                    rbi: false,
                },
            );
        }

        // Walks.
        if tok_eq(&t, "BB") {
            return Ok(PlateAppearanceResult::Walk(Walk::BaseOnBalls));
        }
        if tok_eq(&t, "IBB") {
            return Ok(PlateAppearanceResult::Walk(Walk::Intentional));
        }
        if tok_eq(&t, "HBP") {
            return Ok(PlateAppearanceResult::Walk(Walk::HitByPitch));
        }

        // One-letter prefix plus numeral: flyout, lineout, popup.
        if t.len() >= 2 && t[0] == 'F' {
            proof {
                assert(tv.skip(1) =~= tv.subrange(1, tv.len() as int));
            }
            if let Some(p) = scan_numeral(&t, 1, t.len()) {
                return Ok(
                    PlateAppearanceResult::Out {
                        out_type: OutType::Flyout { positions: singleton(p) },
                        rbi: false,
                    },
                );
            }
        }
        if t.len() >= 2 && t[0] == 'L' {
            proof {
                assert(tv.skip(1) =~= tv.subrange(1, tv.len() as int));
            }
            if let Some(p) = scan_numeral(&t, 1, t.len()) {
                return Ok(
                    PlateAppearanceResult::Out {
                        out_type: OutType::Lineout { positions: singleton(p) },
                        rbi: false,
                    },
                );
            }
        }
        if t.len() >= 2 && t[0] == 'P' {
            proof {
                assert(tv.skip(1) =~= tv.subrange(1, tv.len() as int));
            }
            if let Some(p) = scan_numeral(&t, 1, t.len()) {
                return Ok(
                    PlateAppearanceResult::Out {
                        out_type: OutType::Popup { positions: singleton(p) },
                        rbi: false,
                    },
                );
            }
        }

        // Hyphen-separated fielding sequences.
        if contains_hyphen(&t) {
            let ps = split_fielding_positions(&t);
            if ps.len() > 0 {
                if contains_pair_at(&t, 'D', 'P') {
                    return Ok(
                        PlateAppearanceResult::Out {
                            out_type: OutType::DoublePlay { positions: ps },
                            rbi: false,
                        },
                    );
                }
                if contains_pair_at(&t, 'T', 'P') {
                    return Ok(
                        PlateAppearanceResult::Out {
                            out_type: OutType::TriplePlay { positions: ps },
                            rbi: false,
                        },
                    );
                }
                return Ok(
                    PlateAppearanceResult::Out {
                        out_type: OutType::Groundout { positions: ps },
                        rbi: false,
                    },
                );
            }
        }

        // Sacrifice fly: an out with the run-batted-in flag set.
        if t.len() >= 3 && t[0] == 'S' && t[1] == 'F' {
            proof {
                assert(tv.skip(2) =~= tv.subrange(2, tv.len() as int));
            }
            if let Some(p) = scan_numeral(&t, 2, t.len()) {
                return Ok(
                    PlateAppearanceResult::Out {
                        out_type: OutType::Flyout { positions: singleton(p) },
                        rbi: true,
                    },
                );
            }
        }

        // Fielding errors: the description keeps the whole normalized token.
        if t.len() >= 2 && t[0] == 'E' {
            proof {
                assert(tv.skip(1) =~= tv.subrange(1, tv.len() as int));
            }
            if let Some(p) = scan_numeral(&t, 1, t.len()) {
                let description = chars_to_string(&t);
                return Ok(
                    PlateAppearanceResult::Error {
                        error: Error { position: p, description },
                        reached_base: Base::First,
                    },
                );
            }
        }

        // Fielder's choice: recorded bare, with no positions or out base.
        if tok_eq(&t, "FC") {
            let none_out: Vec<Position> = Vec::new();
            proof {
                assert(none_out@ =~= Seq::<Position>::empty());
            }
            return Ok(
                PlateAppearanceResult::FieldersChoice { positions: none_out, out_at: None },
            );
        }

        // Advanced plays, or a typed failure naming the token.
        match Self::advanced_play_of(&t) {
            Ok(a) => Ok(PlateAppearanceResult::AdvancedPlay(a)),
            Err(_) => Err(ParseError::UnrecognizedToken { token: chars_to_string(&t) }),
        }
    }

    /// Parse an advanced play: stolen bases (`SB2`, `SB3`, `SBH`, the origin
    /// base always derived as the base before the target), balks (`BK`,
    /// `BALK`), wild pitches (`WP`), passed balls (`PB`) and sacrifice hits
    /// (`SH`, `SAC`).
    pub fn parse_advanced_play(input: &str) -> (r: Result<AdvancedPlay, ParseError>)
        ensures
            advanced_result_view(r) == parse_advanced_play_spec(input@),
    {
        let t = normalize(input);
        Self::advanced_play_of(&t)
    }

    fn advanced_play_of(t: &Vec<char>) -> (r: Result<AdvancedPlay, ParseError>)
        ensures
            advanced_result_view(r) == advanced_play_spec(t@),
    {
        if t.len() >= 2 && t[0] == 'S' && t[1] == 'B' {
            if t.len() >= 3 {
                let c = t[2];
                if c == '2' {
                    return Ok(AdvancedPlay::StolenBase { from: Base::First, to: Base::Second });
                }
                if c == '3' {
                    return Ok(AdvancedPlay::StolenBase { from: Base::Second, to: Base::Third });
                }
                if c == 'H' {
                    return Ok(AdvancedPlay::StolenBase { from: Base::Third, to: Base::Home });
                }
            }
            return Err(ParseError::InvalidPosition { token: chars_to_string(t) });
        }
        if tok_eq(t, "BK") || tok_eq(t, "BALK") {
            return Ok(AdvancedPlay::Balk);
        }
        if tok_eq(t, "WP") {
            return Ok(AdvancedPlay::WildPitch);
        }
        if tok_eq(t, "PB") {
            return Ok(AdvancedPlay::PassedBall);
        }
        if tok_eq(t, "SH") || tok_eq(t, "SAC") {
            return Ok(AdvancedPlay::SacrificeHit);
        }
        Err(ParseError::UnrecognizedToken { token: chars_to_string(t) })
    }

    /// Parse a pitch sequence: each character of the normalized input maps
    /// independently to one pitch symbol, and one unmapped character fails
    /// the whole call with no partial result.
    pub fn parse_pitch_sequence(input: &str) -> (r: Result<Vec<Pitch>, ParseError>)
        ensures
            pitch_result_view(r) == parse_pitch_sequence_spec(input@),
    {
        let t = normalize(input);
        let ghost tv = normalize_spec(input@);
        let mut out: Vec<Pitch> = Vec::new();
        let mut i: usize = 0;
        while i < t.len()
            invariant
                i <= t@.len(),
                t@ == tv,
                tv == normalize_spec(input@),
                out@.len() == i,
                forall|j: int|
                    0 <= j < i ==> (#[trigger] pitch_of_char(tv[j])) is Some && out@[j]
                        == pitch_of_char(tv[j])->Some_0,
            decreases t@.len() - i,
        {
            let c = t[i];
            match pitch_char(c) {
                Some(p) => {
                    out.push(p);
                },
                None => {
                    proof {
                        let p = invalid_pitch_pred();
                        assert forall|j: int| 0 <= j < i implies !p(tv[j]) by {
                            assert(pitch_of_char(tv[j]) is Some);
                        }
                        assert(p(tv[i as int]));
                        lemma_count_until_is(tv, p, i as int);
                        assert(!pitches_ok(tv));
                        assert(c == tv[i as int]);
                        assert(pitch_seq_spec(tv) == Err::<Seq<Pitch>, ParseErrorView>(
                            ParseErrorView::InvalidPitchSymbol { symbol: tv[i as int] },
                        ));
                    }
                    return Err(ParseError::InvalidPitchSymbol { symbol: c });
                },
            }
            i += 1;
        }
        proof {
            assert(pitches_ok(tv));
            assert(out@ =~= Seq::new(tv.len(), |j: int| pitch_of_char(tv[j])->Some_0));
        }
        Ok(out)
    }
}

} // verus!
