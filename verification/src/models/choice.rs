use vstd::prelude::*;

use super::key::{clone_opt_string, opt_view, Platform, PlatformView};
use crate::text::{
    chars_of, clone_strings, days_from_civil, has_suffix, parse_i32, parse_i32_spec, slice_range, str_eq,
    string_from_chars, string_views,
};

verus! {

/// A game available through the Humble Choice subscription.
/// Unlike GameKey, a ChoicePick has no redeemable key yet — the user must
/// claim it on the Humble website first, after which it appears as a GameKey.
#[derive(Debug)]
pub struct ChoicePick {
    pub machine_name: String,
    pub human_name: String,
    pub platform: Platform,
    pub steam_app_id: Option<u32>,
    /// Genres come directly from Humble Choice data
    pub genres: Vec<String>,
    /// Unix timestamp in seconds (UTC)
    pub claim_deadline: Option<i64>,
    pub num_days_until_expired: Option<i32>,
    pub is_expired: bool,
    pub is_owned_on_steam: Option<bool>,
    /// Which Choice month this belongs to (e.g. "april_2025_choice")
    pub choice_month: String,
}

pub struct ChoicePickView {
    pub machine_name: Seq<char>,
    pub human_name: Seq<char>,
    pub platform: PlatformView,
    pub steam_app_id: Option<u32>,
    pub genres: Seq<Seq<char>>,
    pub claim_deadline: Option<i64>,
    pub num_days_until_expired: Option<i32>,
    pub is_expired: bool,
    pub is_owned_on_steam: Option<bool>,
    pub choice_month: Seq<char>,
}

impl View for ChoicePick {
    type V = ChoicePickView;

    open spec fn view(&self) -> ChoicePickView {
        ChoicePickView {
            machine_name: self.machine_name@,
            human_name: self.human_name@,
            platform: self.platform@,
            steam_app_id: self.steam_app_id,
            genres: string_views(self.genres@),
            claim_deadline: self.claim_deadline,
            num_days_until_expired: self.num_days_until_expired,
            is_expired: self.is_expired,
            is_owned_on_steam: self.is_owned_on_steam,
            choice_month: self.choice_month@,
        }
    }
}

/// The views of a sequence of picks.
pub open spec fn picks_view(s: Seq<ChoicePick>) -> Seq<ChoicePickView> {
    s.map_values(|p: ChoicePick| p@)
}

impl Clone for ChoicePick {
    fn clone(&self) -> (r: ChoicePick)
        ensures
            r@ == self@,
    {
        ChoicePick {
            machine_name: self.machine_name.clone(),
            human_name: self.human_name.clone(),
            platform: self.platform.duplicate(),
            steam_app_id: self.steam_app_id,
            genres: clone_strings(&self.genres),
            claim_deadline: self.claim_deadline,
            num_days_until_expired: self.num_days_until_expired,
            is_expired: self.is_expired,
            is_owned_on_steam: self.is_owned_on_steam,
            choice_month: self.choice_month.clone(),
        }
    }
}

// ── The month a pick belongs to ─────────────────────────────────────────────

/// The slug of a Choice month: its name without a trailing `_choice`.
pub open spec fn choice_slug(m: Seq<char>) -> Seq<char> {
    if has_suffix(m, "_choice"@) {
        m.subrange(0, m.len() - "_choice"@.len())
    } else {
        m
    }
}

/// The position of the first `c` in `s`, or -1.
pub open spec fn index_of_char(s: Seq<char>, c: char) -> int
    decreases s.len(),
{
    if s.len() == 0 {
        -1
    } else if s[0] == c {
        0
    } else {
        let r = index_of_char(s.drop_first(), c);
        if r < 0 {
            -1
        } else {
            r + 1
        }
    }
}

/// The month number (1..=12) of an English month name in lowercase.
pub open spec fn month_number(name: Seq<char>) -> Option<u32> {
    if name == "january"@ {
        Some(1)
    } else if name == "february"@ {
        Some(2)
    } else if name == "march"@ {
        Some(3)
    } else if name == "april"@ {
        Some(4)
    } else if name == "may"@ {
        Some(5)
    } else if name == "june"@ {
        Some(6)
    } else if name == "july"@ {
        Some(7)
    } else if name == "august"@ {
        Some(8)
    } else if name == "september"@ {
        Some(9)
    } else if name == "october"@ {
        Some(10)
    } else if name == "november"@ {
        Some(11)
    } else if name == "december"@ {
        Some(12)
    } else {
        None
    }
}

/// Midnight UTC on the first day of `month` in `year`, as a Unix timestamp,
/// when chrono can hold that date: a month in 1..=12 and a year in chrono's
/// range -262143..=262142.
pub open spec fn month_start_spec(year: i32, month: u32) -> Option<i64> {
    if 1 <= month <= 12 && -262143 <= year <= 262142 {
        Some((days_from_civil(year as int, month as int, 1) * 86400) as i64)
    } else {
        None
    }
}

/// `NaiveDate::from_ymd_opt(year, month, 1)` at 00:00 UTC, as a Unix
/// timestamp: `None` exactly for a month outside 1..=12 or a year outside
/// chrono's range, else the proleptic Gregorian date's seconds since 1970.
#[verifier::external_body]
fn month_start(year: i32, month: u32) -> (r: Option<i64>)
    ensures
        r == month_start_spec(year, month),
{
    match chrono::NaiveDate::from_ymd_opt(year, month, 1) {
        Some(d) => Some(d.and_time(chrono::NaiveTime::MIN).and_utc().timestamp()),
        None => None,
    }
}

/// The start of the month that a Choice month name such as
/// "april_2025_choice" stands for.
pub open spec fn month_date_spec(m: Seq<char>) -> Option<i64> {
    let slug = choice_slug(m);
    let k = index_of_char(slug, '_');
    if k < 0 {
        None
    } else {
        match parse_i32_spec(slug.subrange(k + 1, slug.len() as int)) {
            None => None,
            Some(year) => match month_number(slug.subrange(0, k)) {
                None => None,
                Some(month) => month_start_spec(year, month),
            },
        }
    }
}

/// The slug of `m` (without a trailing "_choice").
pub fn choice_slug_of(m: &str) -> (r: Vec<char>)
    ensures
        r@ == choice_slug(m@),
{
    let cs = chars_of(m);
    let n = cs.len();
    if n >= 7 {
        let tail = slice_range(&cs, n - 7, n);
        let tail_s = string_from_chars(tail.as_slice());
        if str_eq(tail_s.as_str(), "_choice") {
            return slice_range(&cs, 0, n - 7);
        }
    }
    proof {
        reveal_strlit("_choice");
    }
    cs
}

/// The position of the first `c` in `s`, or -1 when there is none.
pub fn find_char(s: &Vec<char>, c: char) -> (r: Option<usize>)
    ensures
        match r {
            Some(i) => index_of_char(s@, c) == i && i < s.len(),
            None => index_of_char(s@, c) == -1,
        },
{
    let mut i: usize = 0;
    assert(s@.subrange(0, s@.len() as int) == s@);
    while i < s.len()
        invariant
            i <= s@.len(),
            index_of_char(s@, c) == if index_of_char(s@.subrange(i as int, s@.len() as int), c)
                < 0 {
                -1
            } else {
                index_of_char(s@.subrange(i as int, s@.len() as int), c) + i
            },
        decreases s@.len() - i,
    {
        let ghost rest = s@.subrange(i as int, s@.len() as int);
        assert(rest[0] == s@[i as int]);
        if s[i] == c {
            return Some(i);
        }
        assert(rest.drop_first() == s@.subrange(i + 1, s@.len() as int));
        i = i + 1;
    }
    None
}

fn month_number_of(name: &str) -> (r: Option<u32>)
    ensures
        r == month_number(name@),
{
    if str_eq(name, "january") {
        Some(1)
    } else if str_eq(name, "february") {
        Some(2)
    } else if str_eq(name, "march") {
        Some(3)
    } else if str_eq(name, "april") {
        Some(4)
    } else if str_eq(name, "may") {
        Some(5)
    } else if str_eq(name, "june") {
        Some(6)
    } else if str_eq(name, "july") {
        Some(7)
    } else if str_eq(name, "august") {
        Some(8)
    } else if str_eq(name, "september") {
        Some(9)
    } else if str_eq(name, "october") {
        Some(10)
    } else if str_eq(name, "november") {
        Some(11)
    } else if str_eq(name, "december") {
        Some(12)
    } else {
        None
    }
}

impl ChoicePick {
    /// The first of the month this pick belongs to, derived from `choice_month`
    /// (e.g. "april_2025_choice" → 2025-04-01 00:00 UTC), as a Unix timestamp.
    pub fn month_date(&self) -> (r: Option<i64>)
        ensures
            r == month_date_spec(self.choice_month@),
    {
        let slug = choice_slug_of(self.choice_month.as_str());
        let k = match find_char(&slug, '_') {
            Some(k) => k,
            None => return None,
        };
        let year_chars = slice_range(&slug, k + 1, slug.len());
        let year = match parse_i32(&year_chars) {
            Some(y) => y,
            None => return None,
        };
        let name_chars = slice_range(&slug, 0, k);
        let name = string_from_chars(name_chars.as_slice());
        match month_number_of(name.as_str()) {
            Some(month) => month_start(year, month),
            None => None,
        }
    }
}

} // verus!
