use vstd::prelude::*;

use super::state::Mode;
use crate::text::{chars_of, concat, decimal, slice_range, str_eq, string_from_chars, u64_to_string};

verus! {

// ── Table columns ───────────────────────────────────────────────────────────

/// A column of the key table.
#[derive(Debug, Clone, Copy, PartialEq, Eq, Structural)]
pub enum ColumnId {
    Name,
    Platform,
    Status,
    Bundle,
    PurchaseDate,
    Expiry,
    Metacritic,
    UserRating,
    SteamDeck,
}

/// The column a configuration name stands for.
pub open spec fn column_named(s: Seq<char>) -> Option<ColumnId> {
    if s == "name"@ {
        Some(ColumnId::Name)
    } else if s == "platform"@ {
        Some(ColumnId::Platform)
    } else if s == "status"@ {
        Some(ColumnId::Status)
    } else if s == "bundle"@ {
        Some(ColumnId::Bundle)
    } else if s == "purchase_date"@ {
        Some(ColumnId::PurchaseDate)
    } else if s == "expiry"@ {
        Some(ColumnId::Expiry)
    } else if s == "metacritic"@ {
        Some(ColumnId::Metacritic)
    } else if s == "user_rating"@ {
        Some(ColumnId::UserRating)
    } else if s == "steam_deck"@ {
        Some(ColumnId::SteamDeck)
    } else {
        None
    }
}

pub open spec fn column_header(c: ColumnId) -> Seq<char> {
    match c {
        ColumnId::Name => "Name"@,
        ColumnId::Platform => "Plat"@,
        ColumnId::Status => "St"@,
        ColumnId::Bundle => "Bundle"@,
        ColumnId::PurchaseDate => "Date"@,
        ColumnId::Expiry => "Expiry"@,
        ColumnId::Metacritic => "MC"@,
        ColumnId::UserRating => "Rating"@,
        ColumnId::SteamDeck => "Deck"@,
    }
}

impl ColumnId {
    /// The column a configuration name stands for, if any.
    pub fn from_name(s: &str) -> (r: Option<ColumnId>)
        ensures
            r == column_named(s@),
    {
        if str_eq(s, "name") {
            Some(ColumnId::Name)
        } else if str_eq(s, "platform") {
            Some(ColumnId::Platform)
        } else if str_eq(s, "status") {
            Some(ColumnId::Status)
        } else if str_eq(s, "bundle") {
            Some(ColumnId::Bundle)
        } else if str_eq(s, "purchase_date") {
            Some(ColumnId::PurchaseDate)
        } else if str_eq(s, "expiry") {
            Some(ColumnId::Expiry)
        } else if str_eq(s, "metacritic") {
            Some(ColumnId::Metacritic)
        } else if str_eq(s, "user_rating") {
            Some(ColumnId::UserRating)
        } else if str_eq(s, "steam_deck") {
            Some(ColumnId::SteamDeck)
        } else {
            None
        }
    }
}

/// The header text of a column.
pub fn col_header(col: ColumnId) -> (r: &'static str)
    ensures
        r@ == column_header(col),
{
    match col {
        ColumnId::Name => "Name",
        ColumnId::Platform => "Plat",
        ColumnId::Status => "St",
        ColumnId::Bundle => "Bundle",
        ColumnId::PurchaseDate => "Date",
        ColumnId::Expiry => "Expiry",
        ColumnId::Metacritic => "MC",
        ColumnId::UserRating => "Rating",
        ColumnId::SteamDeck => "Deck",
    }
}

/// The columns that configuration names stand for, in order; unknown names
/// are skipped.
pub open spec fn columns_named(names: Seq<Seq<char>>) -> Seq<ColumnId>
    decreases names.len(),
{
    if names.len() == 0 {
        Seq::empty()
    } else {
        let rest = columns_named(names.drop_last());
        match column_named(names.last()) {
            Some(c) => rest.push(c),
            None => rest,
        }
    }
}

/// The columns to show for the configured column names.
pub fn active_columns(names: &Vec<String>) -> (r: Vec<ColumnId>)
    ensures
        r@ == columns_named(names@.map_values(|s: String| s@)),
{
    let ghost nv = names@.map_values(|s: String| s@);
    let mut r: Vec<ColumnId> = Vec::new();
    let mut i: usize = 0;
    while i < names.len()
        invariant
            nv == names@.map_values(|s: String| s@),
            i <= names@.len(),
            r@ == columns_named(nv.subrange(0, i as int)),
        decreases names@.len() - i,
    {
        assert(nv.subrange(0, i + 1).drop_last() == nv.subrange(0, i as int));
        assert(nv.subrange(0, i + 1).last() == names@[i as int]@);
        match ColumnId::from_name(names[i].as_str()) {
            Some(c) => r.push(c),
            None => {},
        }
        i = i + 1;
    }
    assert(nv.subrange(0, nv.len() as int) == nv);
    r
}

// ── Text fitting ────────────────────────────────────────────────────────────

/// `s` cut to at most `max` characters: a longer text keeps its first
/// `max - 1` characters and ends with `…`.
pub open spec fn truncated(s: Seq<char>, max: int) -> Seq<char> {
    if s.len() <= max {
        s
    } else {
        s.subrange(0, max - 1).push('…')
    }
}

/// `s` cut to fit `max` characters. A `max` of 0 fits only the empty text.
pub fn truncate(s: &str, max: usize) -> (r: String)
    requires
        max > 0 || s@.len() == 0,
    ensures
        r@ == truncated(s@, max as int),
{
    let cs = chars_of(s);
    if cs.len() <= max {
        s.to_owned()
    } else {
        let head = slice_range(&cs, 0, max - 1);
        let mut r = string_from_chars(head.as_slice());
        crate::text::push_char(&mut r, '…');
        r
    }
}

// ── Durations ───────────────────────────────────────────────────────────────

/// The time left until a deadline, `secs` seconds away: "expired" when it has
/// passed, else days and hours, hours and minutes, or minutes.
pub open spec fn duration_text(secs: int) -> Seq<char> {
    if secs <= 0 {
        "expired"@
    } else {
        let days = secs / 86400;
        let hours = (secs / 3600) % 24;
        let mins = (secs / 60) % 60;
        if days > 0 {
            decimal(days as nat) + "d "@ + decimal(hours as nat) + "h"@
        } else if hours > 0 {
            decimal(hours as nat) + "h "@ + decimal(mins as nat) + "m"@
        } else {
            decimal(mins as nat) + "m"@
        }
    }
}

/// The time left until a deadline `secs` seconds away, for the detail panel.
pub fn format_duration(secs: i64) -> (r: String)
    ensures
        r@ == duration_text(secs as int),
{
    if secs <= 0 {
        return "expired".to_owned();
    }
    let days = secs / 86400;
    let hours = (secs / 3600) % 24;
    let mins = (secs / 60) % 60;
    if days > 0 {
        let d = u64_to_string(days as u64);
        let h = u64_to_string(hours as u64);
        let a = concat(d.as_str(), "d ");
        let b = concat(a.as_str(), h.as_str());
        concat(b.as_str(), "h")
    } else if hours > 0 {
        let h = u64_to_string(hours as u64);
        let m = u64_to_string(mins as u64);
        let a = concat(h.as_str(), "h ");
        let b = concat(a.as_str(), m.as_str());
        concat(b.as_str(), "m")
    } else {
        let m = u64_to_string(mins as u64);
        concat(m.as_str(), "m")
    }
}

// ── Status bar and filter bar texts ─────────────────────────────────────────

pub open spec fn mode_text(m: Mode) -> Seq<char> {
    match m {
        Mode::Normal => " NORMAL "@,
        Mode::Search => " SEARCH "@,
        Mode::Auth => "  AUTH  "@,
        Mode::ExportPrompt => " EXPORT "@,
        Mode::Error => "  ERROR "@,
        Mode::SyncPrompt | Mode::SortPicker | Mode::GenrePicker => " NORMAL "@,
    }
}

/// The mode badge of the status bar.
pub fn mode_label(m: Mode) -> (r: &'static str)
    ensures
        r@ == mode_text(m),
{
    match m {
        Mode::Normal => " NORMAL ",
        Mode::Search => " SEARCH ",
        Mode::Auth => "  AUTH  ",
        Mode::ExportPrompt => " EXPORT ",
        Mode::Error => "  ERROR ",
        Mode::SyncPrompt | Mode::SortPicker | Mode::GenrePicker => " NORMAL ",
    }
}

pub open spec fn sync_text(progress: Option<(u32, u32)>) -> Seq<char> {
    match progress {
        Some((done, total)) => if done < total {
            " Syncing "@ + decimal(done as nat) + "/"@ + decimal(total as nat) + " "@
        } else {
            " Sync complete "@
        },
        None => " Press r to sync "@,
    }
}

/// The sync part of the status bar.
pub fn sync_status(progress: Option<(u32, u32)>) -> (r: String)
    ensures
        r@ == sync_text(progress),
{
    match progress {
        Some((done, total)) => if done < total {
            let d = u64_to_string(done as u64);
            let t = u64_to_string(total as u64);
            let a = concat(" Syncing ", d.as_str());
            let b = concat(a.as_str(), "/");
            let c = concat(b.as_str(), t.as_str());
            concat(c.as_str(), " ")
        } else {
            " Sync complete ".to_owned()
        },
        None => " Press r to sync ".to_owned(),
    }
}

pub open spec fn enrich_text(progress: Option<(u32, u32)>) -> Seq<char> {
    match progress {
        Some((done, total)) => if total == 0 {
            " Enriching... "@
        } else if done < total {
            " Enriching "@ + decimal(done as nat) + "/"@ + decimal(total as nat) + " "@
        } else {
            " Enriched "@
        },
        None => Seq::empty(),
    }
}

/// The metadata part of the status bar.
pub fn enrich_status(progress: Option<(u32, u32)>) -> (r: String)
    ensures
        r@ == enrich_text(progress),
{
    proof {
        reveal_strlit("");
    }
    match progress {
        Some((done, total)) => if total == 0 {
            " Enriching... ".to_owned()
        } else if done < total {
            let d = u64_to_string(done as u64);
            let t = u64_to_string(total as u64);
            let a = concat(" Enriching ", d.as_str());
            let b = concat(a.as_str(), "/");
            let c = concat(b.as_str(), t.as_str());
            concat(c.as_str(), " ")
        } else {
            " Enriched ".to_owned()
        },
        None => String::new(),
    }
}

/// The "shown" counter of the filter bar.
pub fn shown_count(shown: usize, total: usize) -> (r: String)
    ensures
        r@ == "  "@ + decimal(shown as nat) + "/"@ + decimal(total as nat) + " shown"@,
{
    let s = u64_to_string(shown as u64);
    let t = u64_to_string(total as u64);
    let a = concat("  ", s.as_str());
    let b = concat(a.as_str(), "/");
    let c = concat(b.as_str(), t.as_str());
    concat(c.as_str(), " shown")
}

/// A filter chip's text.
pub fn chip_text(label: &str) -> (r: String)
    ensures
        r@ == "["@ + label@ + "]"@,
{
    let a = concat("[", label);
    concat(a.as_str(), "]")
}

} // verus!
