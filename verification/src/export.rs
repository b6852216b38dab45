use vstd::prelude::*;

use crate::models::choice::ChoicePickView;
use crate::models::key::{platform_display_name, redeem_status_text, GameKeyView};
use crate::tui::state::{items_view, ListItem, ListItemView};
use crate::db::chrono_timestamp_in_range;
use crate::text::{
    chars_of, concat, date_of_second, decimal, has_prefix, join, join_path, join_seq, path_join,
    slice_range, str_eq, string_from_chars, u64_to_string, year_text, zero_padded,
};

verus! {

// ── Dates ───────────────────────────────────────────────────────────────────

/// What `chrono` prints for a Unix timestamp with `%Y-%m-%d` (UTC): the
/// year as `%Y` writes it, then the month and day in two digits; `None` when
/// the timestamp is outside chrono's range.
pub open spec fn chrono_ymd(ts: i64) -> Option<Seq<char>> {
    if chrono_timestamp_in_range(ts) {
        let (y, m, d) = date_of_second(ts as int);
        Some(year_text(y) + "-"@ + zero_padded(m as nat, 2) + "-"@ + zero_padded(d as nat, 2))
    } else {
        None
    }
}

/// `DateTime::from_timestamp(ts, 0)` formatted with `%Y-%m-%d`.
#[verifier::external_body]
pub(crate) fn format_ymd(ts: i64) -> (r: Option<String>)
    ensures
        match r {
            Some(s) => chrono_ymd(ts) == Some(s@),
            None => chrono_ymd(ts) is None,
        },
{
    match chrono::DateTime::from_timestamp(ts, 0) {
        Some(d) => Some(d.format("%Y-%m-%d").to_string()),
        None => None,
    }
}

/// The date of a timestamp as text, or empty when there is none.
pub open spec fn date_text(ts: Option<i64>) -> Seq<char> {
    match ts {
        Some(t) => match chrono_ymd(t) {
            Some(s) => s,
            None => Seq::empty(),
        },
        None => Seq::empty(),
    }
}

pub(crate) fn date_cell(ts: Option<i64>) -> (r: String)
    ensures
        r@ == date_text(ts),
{
    match ts {
        Some(t) => match format_ymd(t) {
            Some(s) => s,
            None => String::new(),
        },
        None => String::new(),
    }
}

// ── Rows ────────────────────────────────────────────────────────────────────

/// The header row of the export.
pub open spec fn export_header() -> Seq<Seq<char>> {
    seq![
        "Name"@,
        "Platform"@,
        "Status"@,
        "Bundle"@,
        "Purchase Date"@,
        "Key Type"@,
        "Has Key"@,
        "Expiry"@,
        "Genres"@,
        "Steam App ID"@,
    ]
}

/// An optional Steam app id as text, or empty.
pub open spec fn app_id_text(id: Option<u32>) -> Seq<char> {
    match id {
        Some(n) => decimal(n as nat),
        None => Seq::empty(),
    }
}

/// The export row of one list row.
pub open spec fn export_record(i: ListItemView) -> Seq<Seq<char>> {
    match i {
        ListItemView::Key(k) => seq![
            k.human_name,
            platform_display_name(k.platform),
            redeem_status_text(k.redeem_status),
            k.bundle_human_name,
            date_text(Some(k.purchase_date)),
            k.key_type,
            if k.redeemed_key_val is Some {
                "yes"@
            } else {
                "no"@
            },
            date_text(k.expiry_date),
            join_seq(k.igdb_genres, "; "@),
            app_id_text(k.steam_app_id),
        ],
        ListItemView::Choice(p) => seq![
            p.human_name,
            platform_display_name(p.platform),
            "unclaimed"@,
            "Choice: "@ + p.choice_month,
            Seq::empty(),
            "Steam"@,
            "no"@,
            date_text(p.claim_deadline),
            join_seq(p.genres, "; "@),
            app_id_text(p.steam_app_id),
        ],
    }
}

/// The views of a row of cells.
pub open spec fn cells_view(r: Seq<String>) -> Seq<Seq<char>> {
    r.map_values(|s: String| s@)
}

fn app_id_cell(id: Option<u32>) -> (r: String)
    ensures
        r@ == app_id_text(id),
{
    match id {
        Some(n) => u64_to_string(n as u64),
        None => String::new(),
    }
}

/// The header row of the export.
pub fn header_record() -> (r: Vec<String>)
    ensures
        cells_view(r@) == export_header(),
{
    let r = vec![
        "Name".to_owned(),
        "Platform".to_owned(),
        "Status".to_owned(),
        "Bundle".to_owned(),
        "Purchase Date".to_owned(),
        "Key Type".to_owned(),
        "Has Key".to_owned(),
        "Expiry".to_owned(),
        "Genres".to_owned(),
        "Steam App ID".to_owned(),
    ];
    assert(cells_view(r@) =~= export_header());
    r
}

/// The export row of one list row.
pub fn record_of(item: &ListItem) -> (r: Vec<String>)
    ensures
        cells_view(r@) == export_record(item@),
{
    match item {
        ListItem::Key(k) => {
            let r = vec![
                k.human_name.clone(),
                k.platform.display_name().to_owned(),
                k.redeem_status.as_str().to_owned(),
                k.bundle_human_name.clone(),
                date_cell(Some(k.purchase_date)),
                k.key_type.clone(),
                if k.redeemed_key_val.is_some() {
                    "yes".to_owned()
                } else {
                    "no".to_owned()
                },
                date_cell(k.expiry_date),
                join(&k.igdb_genres, "; "),
                app_id_cell(k.steam_app_id),
            ];
            assert(cells_view(r@) =~= export_record(item@));
            r
        },
        ListItem::Choice(p) => {
            let r = vec![
                p.human_name.clone(),
                p.platform.display_name().to_owned(),
                "unclaimed".to_owned(),
                concat("Choice: ", p.choice_month.as_str()),
                String::new(),
                "Steam".to_owned(),
                "no".to_owned(),
                date_cell(p.claim_deadline),
                join(&p.genres, "; "),
                app_id_cell(p.steam_app_id),
            ];
            assert(cells_view(r@) =~= export_record(item@));
            r
        },
    }
}

/// The rows of a CSV export of `items`: the header, then one row per item.
pub fn export_rows(items: &Vec<ListItem>) -> (r: Vec<Vec<String>>)
    ensures
        r@.len() == items@.len() + 1,
        cells_view(r@[0]@) == export_header(),
        forall|i: int|
            0 <= i < items@.len() ==> cells_view(#[trigger] r@[i + 1]@) == export_record(
                items@[i]@,
            ),
{
    let mut r: Vec<Vec<String>> = Vec::new();
    r.push(header_record());
    let mut i: usize = 0;
    while i < items.len()
        invariant
            i <= items@.len(),
            r@.len() == i + 1,
            cells_view(r@[0]@) == export_header(),
            forall|k: int|
                0 <= k < i ==> cells_view(#[trigger] r@[k + 1]@) == export_record(items@[k]@),
        decreases items@.len() - i,
    {
        r.push(record_of(&items[i]));
        i = i + 1;
    }
    r
}

// ── The export path ─────────────────────────────────────────────────────────

/// The export path with a leading `~/` replaced by the home directory, when
/// one is known.
pub open spec fn expanded_path(path: Seq<char>, home: Option<Seq<char>>) -> Seq<char> {
    if has_prefix(path, "~/"@) && home is Some {
        path_join(home->0, path.subrange(2, path.len() as int))
    } else {
        path
    }
}

/// Expands a leading `~/` in `path` to the home directory `home` (the value
/// of `HOME`, read by the caller).
pub fn expand_tilde(path: &str, home: Option<&str>) -> (r: String)
    ensures
        r@ == expanded_path(path@, match home {
            Some(h) => Some(h@),
            None => None,
        }),
{
    proof {
        reveal_strlit("~/");
    }
    let cs = chars_of(path);
    let n = cs.len();
    if n >= 2 && cs[0] == '~' && cs[1] == '/' {
        assert(cs@.subrange(0, 2) =~= "~/"@);
        if let Some(h) = home {
            let rest = slice_range(&cs, 2, n);
            let rest_s = string_from_chars(rest.as_slice());
            return join_path(h, rest_s.as_str());
        }
    } else {
        if n >= 2 {
            assert(cs@.subrange(0, 2)[0] == cs@[0]);
            assert(cs@.subrange(0, 2)[1] == cs@[1]);
        }
    }
    path.to_owned()
}


/// A key's export row: its name, platform, status, bundle, purchase date,
/// key type, "yes" in the Has Key column exactly when it holds a revealed
/// key value (else "no"), expiry, genres joined by "; " and Steam app id.
pub proof fn law_export_key_row(k: GameKeyView)
    ensures
        ({
            let r = export_record(ListItemView::Key(k));
            &&& r.len() == 10
            &&& r[0] == k.human_name
            &&& r[1] == platform_display_name(k.platform)
            &&& r[2] == redeem_status_text(k.redeem_status)
            &&& r[3] == k.bundle_human_name
            &&& r[4] == date_text(Some(k.purchase_date))
            &&& r[5] == k.key_type
            &&& (k.redeemed_key_val is Some ==> r[6] == "yes"@)
            &&& (k.redeemed_key_val is None ==> r[6] == "no"@)
            &&& r[7] == date_text(k.expiry_date)
            &&& r[8] == join_seq(k.igdb_genres, "; "@)
            &&& (k.steam_app_id matches Some(n) ==> r[9] == decimal(n as nat))
            &&& (k.steam_app_id is None ==> r[9].len() == 0)
        }),
{
}

/// A Choice pick's export row: unclaimed, listed under its month, of key
/// type Steam, without a key value, with its claim deadline as the expiry.
pub proof fn law_export_pick_row(p: ChoicePickView)
    ensures
        ({
            let r = export_record(ListItemView::Choice(p));
            &&& r.len() == 10
            &&& r[0] == p.human_name
            &&& r[1] == platform_display_name(p.platform)
            &&& r[2] == "unclaimed"@
            &&& r[3] == "Choice: "@ + p.choice_month
            &&& r[4].len() == 0
            &&& r[5] == "Steam"@
            &&& r[6] == "no"@
            &&& r[7] == date_text(p.claim_deadline)
            &&& r[8] == join_seq(p.genres, "; "@)
        }),
{
}

} // verus!
