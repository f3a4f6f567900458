//! Mathematical model of scoring notation: normalization, token shapes and
//! the classification cascade that the interpreter is proved against.

use crate::types::{
    AdvancedPlayView, Base, ErrorView, HitType, OutTypeView, ParseErrorView, Pitch,
    PlateAppearanceResultView, Position, Walk,
};
use vstd::prelude::*;

verus! {

/// Whitespace stripped from the ends of a token (the ASCII whitespace
/// characters).
pub open spec fn is_space(c: char) -> bool {
    c == ' ' || c == '\t' || c == '\n' || c == '\r' || c == '\x0b' || c == '\x0c'
}

/// An ASCII lower-case letter.
pub open spec fn is_lower(c: char) -> bool {
    'a' <= c && c <= 'z'
}

/// ASCII case folding: lower-case letters become upper case, everything else
/// is unchanged.  Notation is ASCII, so this is the whole of normalization's
/// case handling.
pub open spec fn to_upper(c: char) -> char {
    if is_lower(c) {
        ((c as u8) - 32) as u8 as char
    } else {
        c
    }
}

/// The number of characters of `s` before the first one satisfying `p`
/// (`s.len()` if none does).
pub open spec fn count_until(s: Seq<char>, p: spec_fn(char) -> bool) -> nat
    decreases s.len(),
{
    if s.len() == 0 {
        0
    } else if p(s[0]) {
        0
    } else {
        1 + count_until(s.drop_first(), p)
    }
}

/// `count_until` finds the first index satisfying `p`: everything before it
/// fails `p`, and the index itself (when in range) satisfies it.
proof fn lemma_count_until(s: Seq<char>, p: spec_fn(char) -> bool)
    ensures
        count_until(s, p) <= s.len(),
        forall|j: int| 0 <= j < count_until(s, p) ==> !p(s[j]),
        count_until(s, p) < s.len() ==> p(s[count_until(s, p) as int]),
    decreases s.len(),
{
    if s.len() > 0 && !p(s[0]) {
        lemma_count_until(s.drop_first(), p);
        let m = count_until(s, p) as int;
        assert forall|j: int| 0 <= j < m implies !p(s[j]) by {
            if j > 0 {
                assert(s.drop_first()[j - 1] == s[j]);
            }
        }
        if m < s.len() {
            assert(s.drop_first()[m - 1] == s[m]);
        }
    }
}

/// An index with no earlier match and a match (or the end) at the index
/// itself is exactly what `count_until` returns.
pub proof fn lemma_count_until_is(s: Seq<char>, p: spec_fn(char) -> bool, k: int)
    requires
        0 <= k <= s.len(),
        forall|j: int| 0 <= j < k ==> !p(s[j]),
        k < s.len() ==> p(s[k]),
    ensures
        count_until(s, p) == k,
{
    lemma_count_until(s, p);
    let m = count_until(s, p) as int;
    if m < k {
        assert(p(s[m]));
        assert(!p(s[m]));
    }
    if m > k {
        assert(p(s[k]));
        assert(!p(s[k]));
    }
}

/// `s` without its leading whitespace.
pub open spec fn drop_leading_spaces(s: Seq<char>) -> Seq<char>
    decreases s.len(),
{
    if s.len() > 0 && is_space(s[0]) {
        drop_leading_spaces(s.drop_first())
    } else {
        s
    }
}

/// `s` without its trailing whitespace.
pub open spec fn drop_trailing_spaces(s: Seq<char>) -> Seq<char>
    decreases s.len(),
{
    if s.len() > 0 && is_space(s.last()) {
        drop_trailing_spaces(s.drop_last())
    } else {
        s
    }
}

/// `s` with surrounding whitespace removed.
pub open spec fn trim_spec(s: Seq<char>) -> Seq<char> {
    drop_trailing_spaces(drop_leading_spaces(s))
}

/// `s` with every character case-folded to upper case.
pub open spec fn upper_seq(s: Seq<char>) -> Seq<char> {
    s.map_values(|c: char| to_upper(c))
}

/// Normalization applied to every input before classification: trim, then
/// uppercase.  Notation is case-insensitive by convention, so `"1b"` and
/// `"1B"` are equivalent.
pub open spec fn normalize_spec(s: Seq<char>) -> Seq<char> {
    upper_seq(trim_spec(s))
}

/// If the first `k` characters are whitespace and the next one (if any) is
/// not, dropping leading whitespace drops exactly those `k`.
pub proof fn lemma_drop_leading_spaces_at(s: Seq<char>, k: int)
    requires
        0 <= k <= s.len(),
        forall|j: int| 0 <= j < k ==> is_space(s[j]),
        k < s.len() ==> !is_space(s[k]),
    ensures
        drop_leading_spaces(s) == s.skip(k),
    decreases k,
{
    if k == 0 {
        assert(s.skip(0) =~= s);
    } else {
        let r = s.drop_first();
        assert forall|j: int| 0 <= j < k - 1 implies is_space(r[j]) by {
            assert(r[j] == s[j + 1]);
        }
        if k - 1 < r.len() {
            assert(r[k - 1] == s[k]);
        }
        lemma_drop_leading_spaces_at(r, k - 1);
        assert(r.skip(k - 1) =~= s.skip(k));
    }
}

/// If everything from index `k` on is whitespace and the character before
/// `k` (if any) is not, dropping trailing whitespace keeps exactly the first
/// `k` characters.
pub proof fn lemma_drop_trailing_spaces_at(s: Seq<char>, k: int)
    requires
        0 <= k <= s.len(),
        forall|j: int| k <= j < s.len() ==> is_space(s[j]),
        k > 0 ==> !is_space(s[k - 1]),
    ensures
        drop_trailing_spaces(s) == s.take(k),
    decreases s.len(),
{
    if k == s.len() {
        assert(s.take(k) =~= s);
    } else {
        assert(is_space(s[s.len() - 1]));
        let r = s.drop_last();
        assert forall|j: int| k <= j < r.len() implies is_space(r[j]) by {
            assert(r[j] == s[j]);
        }
        if k > 0 {
            assert(r[k - 1] == s[k - 1]);
        }
        lemma_drop_trailing_spaces_at(r, k);
        assert(r.take(k) =~= s.take(k));
    }
}

proof fn lemma_drop_leading_spaces_head(s: Seq<char>)
    ensures
        drop_leading_spaces(s).len() > 0 ==> !is_space(drop_leading_spaces(s)[0]),
    decreases s.len(),
{
    if s.len() > 0 && is_space(s[0]) {
        lemma_drop_leading_spaces_head(s.drop_first());
    }
}

proof fn lemma_drop_trailing_spaces_last(s: Seq<char>)
    ensures
        drop_trailing_spaces(s).len() > 0 ==> !is_space(drop_trailing_spaces(s).last()),
    decreases s.len(),
{
    if s.len() > 0 && is_space(s.last()) {
        lemma_drop_trailing_spaces_last(s.drop_last());
    }
}

proof fn lemma_drop_trailing_spaces_prefix(s: Seq<char>)
    ensures
        drop_trailing_spaces(s).len() <= s.len(),
        drop_trailing_spaces(s) == s.take(drop_trailing_spaces(s).len() as int),
    decreases s.len(),
{
    if s.len() > 0 && is_space(s.last()) {
        lemma_drop_trailing_spaces_prefix(s.drop_last());
        let m = drop_trailing_spaces(s).len() as int;
        assert(s.drop_last().take(m) =~= s.take(m));
    } else {
        assert(s.take(s.len() as int) =~= s);
    }
}

/// A trimmed token never starts or ends with whitespace.
pub proof fn lemma_trim_ends(s: Seq<char>)
    ensures
        trim_spec(s).len() > 0 ==> !is_space(trim_spec(s)[0]),
        trim_spec(s).len() > 0 ==> !is_space(trim_spec(s).last()),
{
    let u = drop_leading_spaces(s);
    let t = drop_trailing_spaces(u);
    lemma_drop_leading_spaces_head(s);
    lemma_drop_trailing_spaces_last(u);
    lemma_drop_trailing_spaces_prefix(u);
    if t.len() > 0 {
        assert(t[0] == u[0]);
    }
}

/// Normalizing an already-normalized token is a no-op: normalization is
/// idempotent.
pub proof fn lemma_normalize_idempotent(s: Seq<char>)
    ensures
        normalize_spec(normalize_spec(s)) == normalize_spec(s),
{
    let t = trim_spec(s);
    let u = upper_seq(t);
    lemma_trim_ends(s);
    if u.len() == 0 {
        assert(drop_leading_spaces(u) == u);
        assert(drop_trailing_spaces(u) == u);
        assert(upper_seq(u) =~= u);
    } else {
        assert(u[0] == to_upper(t[0]));
        assert(u.last() == to_upper(t.last()));
        assert(!is_space(u[0]));
        assert(!is_space(u.last()));
        assert(drop_leading_spaces(u) == u);
        assert(drop_trailing_spaces(u) == u);
        assert(upper_seq(u) =~= u);
    }
}

/// An ASCII decimal digit.
pub open spec fn is_digit(c: char) -> bool {
    '0' <= c && c <= '9'
}

/// The value of a decimal digit character.
pub open spec fn digit_val(c: char) -> nat {
    ((c as u32) - 48) as nat
}

/// Every character of `s` is a decimal digit.
pub open spec fn all_digits(s: Seq<char>) -> bool {
    forall|i: int| 0 <= i < s.len() ==> is_digit(s[i])
}

/// The decimal value of a digit string (leading zeros allowed).
pub open spec fn digits_val(s: Seq<char>) -> nat
    decreases s.len(),
{
    if s.len() == 0 {
        0
    } else {
        digits_val(s.drop_last()) * 10 + digit_val(s.last())
    }
}

/// The position a numeral token resolves to: one or more digits whose
/// decimal value is a valid scoring numeral, anything else resolves to
/// nothing.
pub open spec fn numeral_position(s: Seq<char>) -> Option<Position> {
    if s.len() > 0 && all_digits(s) && 1 <= digits_val(s) <= 9 {
        Position::from_number_spec(digits_val(s) as u8)
    } else {
        None
    }
}

/// `s` contains the character `c`.
pub open spec fn contains_char(s: Seq<char>, c: char) -> bool {
    exists|i: int| 0 <= i < s.len() && s[i] == c
}

/// `s` contains the two-character substring `ab`.
pub open spec fn contains_pair(s: Seq<char>, a: char, b: char) -> bool {
    exists|i: int| 0 <= i && i + 1 < s.len() && #[trigger] s[i] == a && s[i + 1] == b
}

/// Code point of the mirrored-K glyph some scorekeepers write for a looking
/// strikeout.
pub const LOOKING_GLYPH: u32 = 0xA4DA;

/// `s` contains the looking-strikeout glyph.
pub open spec fn contains_glyph(s: Seq<char>) -> bool {
    exists|i: int| 0 <= i < s.len() && (s[i] as u32) == LOOKING_GLYPH
}

/// The longest prefix of `s` made of non-whitespace characters.
pub open spec fn word_prefix(s: Seq<char>) -> Seq<char>
    decreases s.len(),
{
    if s.len() > 0 && !is_space(s[0]) {
        seq![s[0]] + word_prefix(s.drop_first())
    } else {
        Seq::empty()
    }
}

/// If the first `m` characters are not whitespace and the next one (if any)
/// is, the word prefix is exactly those `m` characters.
pub proof fn lemma_word_prefix_at(s: Seq<char>, m: int)
    requires
        0 <= m <= s.len(),
        forall|j: int| 0 <= j < m ==> !is_space(s[j]),
        m < s.len() ==> is_space(s[m]),
    ensures
        word_prefix(s) == s.take(m),
    decreases m,
{
    if m == 0 {
        assert(s.take(0) =~= Seq::<char>::empty());
    } else {
        let r = s.drop_first();
        assert forall|j: int| 0 <= j < m - 1 implies !is_space(r[j]) by {
            assert(r[j] == s[j + 1]);
        }
        if m - 1 < r.len() {
            assert(r[m - 1] == s[m]);
        }
        lemma_word_prefix_at(r, m - 1);
        assert(seq![s[0]] + r.take(m - 1) =~= s.take(m));
    }
}

/// The first whitespace-separated word of a fielding segment (so the `DP`
/// marker in a segment like `"3 DP"` is ignored).
pub open spec fn segment_word(s: Seq<char>) -> Seq<char> {
    word_prefix(drop_leading_spaces(s))
}

/// The position one hyphen-separated segment resolves to.
pub open spec fn segment_position(s: Seq<char>) -> Option<Position> {
    numeral_position(segment_word(s))
}

/// The positions contributed by one segment: one if it resolves, none
/// otherwise (malformed segments are skipped, a deliberate leniency for
/// hand-written notation).
pub open spec fn segment_positions(s: Seq<char>) -> Seq<Position> {
    match segment_position(s) {
        Some(p) => seq![p],
        None => Seq::empty(),
    }
}

/// The predicate marking a hyphen, the delimiter of fielding sequences.
pub open spec fn hyphen_pred() -> spec_fn(char) -> bool {
    |c: char| c == '-'
}

/// The fielding sequence read from a hyphen-separated token: each segment's
/// position in order, unresolvable segments skipped.
pub open spec fn split_positions(t: Seq<char>) -> Seq<Position>
    decreases t.len(),
{
    let h = count_until(t, hyphen_pred()) as int;
    if h >= t.len() {
        segment_positions(t)
    } else {
        segment_positions(t.take(h)) + split_positions(t.skip(h + 1))
    }
}

/// The pitch a single notation character stands for, if any.
pub open spec fn pitch_of_char(c: char) -> Option<Pitch> {
    if c == 'B' {
        Some(Pitch::Ball)
    } else if c == 'C' {
        Some(Pitch::CalledStrike)
    } else if c == 'S' {
        Some(Pitch::SwingingStrike)
    } else if c == 'F' {
        Some(Pitch::Foul)
    } else if c == 'L' {
        Some(Pitch::FoulBunt)
    } else if c == 'X' {
        Some(Pitch::InPlay)
    } else if c == 'H' {
        Some(Pitch::HittedBy)
    } else {
        None
    }
}

/// Every character of `t` is a valid pitch symbol.
pub open spec fn pitches_ok(t: Seq<char>) -> bool {
    forall|i: int| 0 <= i < t.len() ==> pitch_of_char(t[i]) is Some
}

/// The predicate marking a character outside the pitch symbol table.
pub open spec fn invalid_pitch_pred() -> spec_fn(char) -> bool {
    |c: char| pitch_of_char(c) is None
}

/// What a pitch-sequence call returns for a normalized token: each character
/// mapped independently, or a failure naming the first unmapped character.
/// There is no partial-sequence leniency here, unlike the fielding-sequence
/// rule: one bad symbol fails the whole call.
pub open spec fn pitch_seq_spec(t: Seq<char>) -> Result<Seq<Pitch>, ParseErrorView> {
    if pitches_ok(t) {
        Ok(Seq::new(t.len(), |i: int| pitch_of_char(t[i])->Some_0))
    } else {
        Err(
            ParseErrorView::InvalidPitchSymbol {
                symbol: t[count_until(t, invalid_pitch_pred()) as int],
            },
        )
    }
}

/// The base after `b` in the First -> Second -> Third -> Home progression
/// (Home, having no successor, maps to itself).
pub open spec fn base_after(b: Base) -> Base {
    match b {
        Base::First => Base::Second,
        Base::Second => Base::Third,
        Base::Third => Base::Home,
        Base::Home => Base::Home,
    }
}

/// What the advanced-play recognizer returns for a normalized token: stolen
/// bases (`SB` plus the target base, with the origin always derived as the
/// preceding base), balks, wild pitches, passed balls and sacrifice hits.
/// An `SB` token whose target is not one of `2`, `3`, `H` is a hard failure,
/// not a silent skip.
pub open spec fn advanced_play_spec(t: Seq<char>) -> Result<AdvancedPlayView, ParseErrorView> {
    if t.len() >= 2 && t[0] == 'S' && t[1] == 'B' {
        if t.len() >= 3 && t[2] == '2' {
            Ok(AdvancedPlayView::StolenBase { from: Base::First, to: Base::Second })
        } else if t.len() >= 3 && t[2] == '3' {
            Ok(AdvancedPlayView::StolenBase { from: Base::Second, to: Base::Third })
        } else if t.len() >= 3 && t[2] == 'H' {
            Ok(AdvancedPlayView::StolenBase { from: Base::Third, to: Base::Home })
        } else {
            Err(ParseErrorView::InvalidPosition { token: t })
        }
    } else if t == "BK"@ || t == "BALK"@ {
        Ok(AdvancedPlayView::Balk)
    } else if t == "WP"@ {
        Ok(AdvancedPlayView::WildPitch)
    } else if t == "PB"@ {
        Ok(AdvancedPlayView::PassedBall)
    } else if t == "SH"@ || t == "SAC"@ {
        Ok(AdvancedPlayView::SacrificeHit)
    } else {
        Err(ParseErrorView::UnrecognizedToken { token: t })
    }
}

/// A hit outcome as the interpreter builds it: no location, no runs batted
/// in recorded yet.
pub open spec fn hit_outcome(h: HitType) -> PlateAppearanceResultView {
    PlateAppearanceResultView::Hit { hit_type: h, location: None, rbis: 0 }
}

/// An out outcome with the given run-scored-on-out flag.
pub open spec fn out_outcome(o: OutTypeView, rbi: bool) -> PlateAppearanceResultView {
    PlateAppearanceResultView::Out { out_type: o, rbi }
}

/// The position named by a one-letter prefix shape: the prefix letter
/// followed by a numeral that resolves through the position table.
pub open spec fn prefix_position(t: Seq<char>, p: char) -> Option<Position> {
    if t.len() >= 2 && t[0] == p {
        numeral_position(t.skip(1))
    } else {
        None
    }
}

/// The position named by a sacrifice-fly token: `SF` followed by a numeral
/// that resolves through the position table.
pub open spec fn sac_fly_position(t: Seq<char>) -> Option<Position> {
    if t.len() >= 3 && t[0] == 'S' && t[1] == 'F' {
        numeral_position(t.skip(2))
    } else {
        None
    }
}

/// The classification cascade applied to a normalized token.  First match
/// wins, and the ordering is load-bearing: some shapes are prefixes of
/// others (a bare `SF8` must reach the sacrifice-fly rule rather than be
/// taken by the generic `F`-plus-numeral rule), so the order below must be
/// preserved exactly.
pub open spec fn classify(t: Seq<char>) -> Result<PlateAppearanceResultView, ParseErrorView> {
    if t == "1B"@ || t == "SINGLE"@ {
        Ok(hit_outcome(HitType::Single))
    } else if t == "2B"@ || t == "DOUBLE"@ {
        Ok(hit_outcome(HitType::Double))
    } else if t == "3B"@ || t == "TRIPLE"@ {
        Ok(hit_outcome(HitType::Triple))
    } else if t == "HR"@ || t == "HOMERUN"@ {
        Ok(hit_outcome(HitType::HomeRun))
    } else if t == "GRD"@ {
        Ok(hit_outcome(HitType::GroundRule))
    } else if t == "K"@ {
        Ok(out_outcome(OutTypeView::Strikeout { swinging: true, looking: false }, false))
    } else if t == "KL"@ || t == "K-L"@ || contains_glyph(t) {
        Ok(out_outcome(OutTypeView::Strikeout { swinging: false, looking: true }, false))
    } else if t == "BB"@ {
        Ok(PlateAppearanceResultView::Walk(Walk::BaseOnBalls))
    } else if t == "IBB"@ {
        Ok(PlateAppearanceResultView::Walk(Walk::Intentional))
    } else if t == "HBP"@ {
        Ok(PlateAppearanceResultView::Walk(Walk::HitByPitch))
    } else if prefix_position(t, 'F') is Some {
        Ok(
            out_outcome(
                OutTypeView::Flyout { positions: seq![prefix_position(t, 'F')->Some_0] },
                false,
            ),
        )
    } else if prefix_position(t, 'L') is Some {
        Ok(
            out_outcome(
                OutTypeView::Lineout { positions: seq![prefix_position(t, 'L')->Some_0] },
                false,
            ),
        )
    } else if prefix_position(t, 'P') is Some {
        Ok(
            out_outcome(
                OutTypeView::Popup { positions: seq![prefix_position(t, 'P')->Some_0] },
                false,
            ),
        )
    } else if contains_char(t, '-') && split_positions(t).len() > 0 {
        if contains_pair(t, 'D', 'P') {
            Ok(out_outcome(OutTypeView::DoublePlay { positions: split_positions(t) }, false))
        } else if contains_pair(t, 'T', 'P') {
            Ok(out_outcome(OutTypeView::TriplePlay { positions: split_positions(t) }, false))
        } else {
            Ok(out_outcome(OutTypeView::Groundout { positions: split_positions(t) }, false))
        }
    } else if sac_fly_position(t) is Some {
        Ok(
            out_outcome(
                OutTypeView::Flyout { positions: seq![sac_fly_position(t)->Some_0] },
                true,
            ),
        )
    } else if prefix_position(t, 'E') is Some {
        Ok(
            PlateAppearanceResultView::Error {
                error: ErrorView { position: prefix_position(t, 'E')->Some_0, description: t },
                reached_base: Base::First,
            },
        )
    } else if t == "FC"@ {
        Ok(PlateAppearanceResultView::FieldersChoice { positions: Seq::empty(), out_at: None })
    } else if advanced_play_spec(t) is Ok {
        Ok(PlateAppearanceResultView::AdvancedPlay(advanced_play_spec(t)->Ok_0))
    } else {
        Err(ParseErrorView::UnrecognizedToken { token: t })
    }
}

/// What a full parse returns for a raw input: normalize, then classify.
pub open spec fn parse_command_spec(s: Seq<char>) -> Result<
    PlateAppearanceResultView,
    ParseErrorView,
> {
    classify(normalize_spec(s))
}

/// What the advanced-play entry point returns for a raw input.
pub open spec fn parse_advanced_play_spec(s: Seq<char>) -> Result<
    AdvancedPlayView,
    ParseErrorView,
> {
    advanced_play_spec(normalize_spec(s))
}

/// What the pitch-sequence entry point returns for a raw input.
pub open spec fn parse_pitch_sequence_spec(s: Seq<char>) -> Result<Seq<Pitch>, ParseErrorView> {
    pitch_seq_spec(normalize_spec(s))
}

/// A classified strikeout is either swinging or looking, never both and
/// never neither.
pub proof fn lemma_strikeout_flags_exclusive(t: Seq<char>)
    ensures
        classify(t) matches Ok(PlateAppearanceResultView::Out {
            out_type: OutTypeView::Strikeout { swinging, looking },
            ..
        }) ==> swinging != looking,
{
}

/// Every out the cascade classifies is well formed: a recorded fielding
/// sequence is never empty.
pub proof fn lemma_classified_out_wf(t: Seq<char>)
    ensures
        classify(t) matches Ok(PlateAppearanceResultView::Out { out_type, .. })
            ==> out_type.wf(),
{
}

/// A classified stolen base always derives its origin: the target is the
/// base immediately after the origin in the base progression, and the
/// origin is never Home.
pub proof fn lemma_stolen_base_derived(t: Seq<char>)
    ensures
        advanced_play_spec(t) matches Ok(AdvancedPlayView::StolenBase { from, to })
            ==> to == base_after(from) && from != Base::Home,
        classify(t) matches Ok(PlateAppearanceResultView::AdvancedPlay(
            AdvancedPlayView::StolenBase { from, to },
        )) ==> to == base_after(from) && from != Base::Home,
{
}

} // verus!
