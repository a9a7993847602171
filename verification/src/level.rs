use vstd::prelude::*;
use vstd::string::StrSliceExecFns;
use crate::errors::TrackerError;

verus! {

/// The enumerated proficiency levels a session can be recorded against.
#[derive(Clone, Copy, Debug, PartialEq, Eq, Structural)]
pub enum Level {
    B1Plus,
    B2,
}

/// Goal for the first level, in hundredths of an hour (200 hours).
pub const B1_PLUS_GOAL_HUNDREDTHS: u64 = 20000;

/// Goal for the second level, in hundredths of an hour (320 hours).
pub const B2_GOAL_HUNDREDTHS: u64 = 32000;

/// The canonical name under which a level is stored and reported.
pub open spec fn canonical_name(level: Level) -> Seq<char> {
    match level {
        Level::B1Plus => "B1_PLUS"@,
        Level::B2 => "B2"@,
    }
}

/// The code of a character after ASCII-uppercasing: a lowercase ASCII letter
/// maps to its uppercase counterpart, every other character is unchanged.
pub open spec fn upper_code(c: char) -> int {
    if 97 <= c as int && c as int <= 122 {
        c as int - 32
    } else {
        c as int
    }
}

/// `s`, normalized by ASCII-uppercasing, spells exactly `t`.
pub open spec fn normalizes_to(s: Seq<char>, t: Seq<char>) -> bool {
    s.len() == t.len() && forall|i: int|
        0 <= i < s.len() ==> #[trigger] upper_code(s[i]) == t[i] as int
}

/// Which level, if any, a string names, compared case-insensitively against
/// the canonical names; anything else is an invalid level.
pub open spec fn parse_level_spec(s: Seq<char>) -> Result<Level, TrackerError> {
    if normalizes_to(s, "B1_PLUS"@) {
        Ok(Level::B1Plus)
    } else if normalizes_to(s, "B2"@) {
        Ok(Level::B2)
    } else {
        Err(TrackerError::InvalidLevel)
    }
}

/// Does `s`, ASCII-uppercased character by character, spell exactly `t`?
fn matches_name(s: &str, t: &str) -> (r: bool)
    ensures
        r == normalizes_to(s@, t@),
{
    let n = s.unicode_len();
    let m = t.unicode_len();
    if n != m {
        return false;
    }
    let mut i: usize = 0;
    while i < n
        invariant
            n == s@.len(),
            n == t@.len(),
            i <= n,
            forall|j: int| 0 <= j < i ==> #[trigger] upper_code(s@[j]) == t@[j] as int,
        decreases n - i,
    {
        let c = s.get_char(i) as u32;
        let tc = t.get_char(i) as u32;
        let up = if 97 <= c && c <= 122 {
            c - 32
        } else {
            c
        };
        proof {
            assert(c as int == s@[i as int] as int);
            assert(tc as int == t@[i as int] as int);
            assert(up as int == upper_code(s@[i as int]));
        }
        if up != tc {
            return false;
        }
        i += 1;
    }
    true
}

/// Parses a level name, case-insensitively: exactly the canonical names,
/// in any casing, are accepted; anything else is rejected with
/// `InvalidLevel` before any state change.
pub fn parse_level(s: &str) -> (r: Result<Level, TrackerError>)
    ensures
        r == parse_level_spec(s@),
{
    if matches_name(s, "B1_PLUS") {
        Ok(Level::B1Plus)
    } else if matches_name(s, "B2") {
        Ok(Level::B2)
    } else {
        Err(TrackerError::InvalidLevel)
    }
}

impl Level {
    /// The canonical name of this level, as stored and reported.
    pub fn as_str(&self) -> (r: &'static str)
        ensures
            r@ == canonical_name(*self),
    {
        match self {
            Level::B1Plus => "B1_PLUS",
            Level::B2 => "B2",
        }
    }
}

/// Canonical names parse back to their level: parsing is a left inverse of
/// naming, so a recorded level round-trips through its stored name.
pub proof fn lemma_parse_canonical(level: Level)
    ensures
        parse_level_spec(canonical_name(level)) == Ok::<Level, TrackerError>(level),
{
    reveal_strlit("B1_PLUS");
    reveal_strlit("B2");
    match level {
        Level::B1Plus => {
            assert(normalizes_to("B1_PLUS"@, "B1_PLUS"@));
        },
        Level::B2 => {
            assert(!normalizes_to("B2"@, "B1_PLUS"@));
            assert(normalizes_to("B2"@, "B2"@));
        },
    }
}

} // verus!
