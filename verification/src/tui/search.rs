use vstd::prelude::*;

use fuzzy_matcher::FuzzyMatcher;

use crate::text::ascii_lower;

verus! {


/// Whether a pattern character matches a choice character: exactly when the
/// match is case-sensitive, ignoring ASCII case otherwise.
pub open spec fn chars_match(a: char, b: char, case_sensitive: bool) -> bool {
    if case_sensitive {
        a == b
    } else {
        ascii_lower(a) == ascii_lower(b)
    }
}

/// Whether the characters of `pattern` occur in `choice` in order, each
/// matched at the first place it can be.
pub open spec fn in_order(choice: Seq<char>, pattern: Seq<char>, case_sensitive: bool) -> bool
    decreases choice.len(),
{
    if pattern.len() == 0 {
        true
    } else if choice.len() == 0 {
        false
    } else if chars_match(choice[0], pattern[0], case_sensitive) {
        in_order(choice.drop_first(), pattern.drop_first(), case_sensitive)
    } else {
        in_order(choice.drop_first(), pattern, case_sensitive)
    }
}

/// Whether `s` holds an ASCII upper-case letter.
pub open spec fn has_ascii_upper(s: Seq<char>) -> bool {
    exists|i: int| 0 <= i < s.len() && 65 <= (#[trigger] s[i] as int) <= 90
}

/// Whether the skim matcher (smart case) accepts `choice` for `pattern`: an
/// empty pattern always matches; otherwise its characters must occur in order,
/// ignoring ASCII case unless the pattern holds an upper-case ASCII letter.
pub open spec fn fuzzy_matches(choice: Seq<char>, pattern: Seq<char>) -> bool {
    pattern.len() == 0 || in_order(choice, pattern, has_ascii_upper(pattern))
}

/// The score that `SkimMatcherV2::default().fuzzy_match(choice, pattern)` returns.
pub uninterp spec fn skim_score(choice: Seq<char>, pattern: Seq<char>) -> Option<i64>;

/// `SkimMatcherV2::default().fuzzy_match`. The source shows that it returns a
/// score exactly when `fuzzy_matches` holds (an empty pattern scores; else the
/// pattern's characters must occur in order, smart-case); the score's value is
/// named `skim_score`, not stated.
#[verifier::external_body]
pub(crate) fn fuzzy_score(choice: &str, pattern: &str) -> (r: Option<i64>)
    ensures
        r == skim_score(choice@, pattern@),
        r is Some <==> fuzzy_matches(choice@, pattern@),
{
    fuzzy_matcher::skim::SkimMatcherV2::default().fuzzy_match(choice, pattern)
}

} // verus!
