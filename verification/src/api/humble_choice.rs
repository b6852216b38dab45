use vstd::prelude::*;

use crate::models::choice::{picks_view, ChoicePick, ChoicePickView};
use crate::models::key::{platform_from_lower, Platform, PlatformView};
use crate::text::{
    chars_of, clone_strings, concat, find_first, find_from, slice_range, string_from_chars,
    string_views, trim, trim_seq, unicode_lowercase,
};

verus! {

// ── Finding the page data ───────────────────────────────────────────────────

/// The opening tag of the JSON script element with id `script_id`.
pub open spec fn script_start_tag(script_id: Seq<char>) -> Seq<char> {
    "id=\""@ + script_id + "\" type=\"application/json\">"@
}

/// The trimmed text between the first opening tag for `script_id` and the
/// first `</script>` after it, if both are there.
pub open spec fn webpack_data(html: Seq<char>, script_id: Seq<char>) -> Option<Seq<char>> {
    let tag = script_start_tag(script_id);
    let i = find_first(html, tag, 0);
    if i < 0 {
        None
    } else {
        let start = i + tag.len();
        let end = find_first(html, "</script>"@, start);
        if end < 0 {
            None
        } else {
            Some(trim_seq(html.subrange(start, end)))
        }
    }
}

/// The JSON text of the page-data script element with id `script_id`.
pub fn extract_webpack_data(html: &str, script_id: &str) -> (r: Option<String>)
    ensures
        match r {
            Some(s) => webpack_data(html@, script_id@) == Some(s@),
            None => webpack_data(html@, script_id@) is None,
        },
{
    let open_tag = concat("id=\"", script_id);
    let tag = concat(open_tag.as_str(), "\" type=\"application/json\">");
    let h = chars_of(html);
    let t = chars_of(tag.as_str());
    let i = match find_from(&h, &t, 0) {
        Some(i) => i,
        None => return None,
    };
    proof {
        assert(crate::text::occurs_at(h@, t@, i as int)) by {
            lemma_find_first_found(h@, t@, 0);
        }
    }
    assert(i + t@.len() <= h.len());
    let start = i + t.len();
    let close = chars_of("</script>");
    let end = match find_from(&h, &close, start) {
        Some(e) => e,
        None => return None,
    };
    proof {
        lemma_find_first_found(h@, close@, start as int);
    }
    let body = slice_range(&h, start, end);
    let body_s = string_from_chars(body.as_slice());
    Some(trim(body_s.as_str()))
}

/// The page data of a membership page: the current month's script element
/// (`webpack-subscriber-hub-data`), else a past month's
/// (`webpack-monthly-product-data`).
pub open spec fn choice_page_data_spec(html: Seq<char>) -> Option<Seq<char>> {
    match webpack_data(html, "webpack-subscriber-hub-data"@) {
        Some(s) => Some(s),
        None => webpack_data(html, "webpack-monthly-product-data"@),
    }
}

/// The JSON page data of a Choice membership page, if it has any.
pub fn choice_page_data(html: &str) -> (r: Option<String>)
    ensures
        match r {
            Some(s) => choice_page_data_spec(html@) == Some(s@),
            None => choice_page_data_spec(html@) is None,
        },
{
    match extract_webpack_data(html, "webpack-subscriber-hub-data") {
        Some(s) => Some(s),
        None => extract_webpack_data(html, "webpack-monthly-product-data"),
    }
}

/// A position that `find_first` returns is an occurrence at or after `from`.
pub proof fn lemma_find_first_found(s: Seq<char>, p: Seq<char>, from: int)
    ensures
        find_first(s, p, from) >= 0 ==> from <= find_first(s, p, from) && crate::text::occurs_at(
            s,
            p,
            find_first(s, p, from),
        ),
    decreases s.len() + 1 - from,
{
    if 0 <= from <= s.len() && !crate::text::occurs_at(s, p, from) {
        lemma_find_first_found(s, p, from + 1);
    }
}

/// The Choice month a page belongs to: the page's product machine name, or
/// the URL slug when the page gives none.
pub fn choice_month_name(product_machine_name: &str, url_slug: &str) -> (r: String)
    ensures
        r@ == if product_machine_name@.len() == 0 {
            url_slug@
        } else {
            product_machine_name@
        },
{
    if product_machine_name.unicode_len() == 0 {
        url_slug.to_owned()
    } else {
        product_machine_name.to_owned()
    }
}

// ── Building the picks ──────────────────────────────────────────────────────

/// One key of a Choice game, as the membership page lists it.
#[derive(Debug)]
pub struct ChoiceTpkd {
    pub machine_name: String,
    pub key_type: Option<String>,
    pub steam_app_id: Option<u32>,
    pub expiration_date: Option<String>,
    pub num_days_until_expired: i32,
    pub is_expired: bool,
}

/// One game of a Choice month, as the membership page lists it.
#[derive(Debug)]
pub struct ChoiceGameEntry {
    pub title: String,
    pub genres: Vec<String>,
    pub delivery_methods: Vec<String>,
    pub tpkds: Vec<ChoiceTpkd>,
}

/// What `chrono` reads from Humble's date-time format `%Y-%m-%dT%H:%M:%S`
/// (taken as UTC), as Unix seconds, or `None` when the text does not fit it.
pub uninterp spec fn chrono_humble_datetime(s: Seq<char>) -> Option<i64>;

/// `NaiveDateTime::parse_from_str(s, "%Y-%m-%dT%H:%M:%S")` in UTC, as Unix
/// seconds. The format's grammar is chrono's; the result is named
/// `chrono_humble_datetime`.
#[verifier::external_body]
pub(crate) fn parse_humble_datetime(s: &str) -> (r: Option<i64>)
    ensures
        r == chrono_humble_datetime(s@),
{
    match chrono::NaiveDateTime::parse_from_str(s, "%Y-%m-%dT%H:%M:%S") {
        Ok(ndt) => Some(ndt.and_utc().timestamp()),
        Err(_) => None,
    }
}

/// The platform of a Choice key: its key type, else the game's first delivery
/// method, else `Other("unknown")`.
pub open spec fn choice_platform(key_type: Option<Seq<char>>, delivery: Seq<Seq<char>>) -> PlatformView {
    match key_type {
        Some(k) => platform_from_lower(unicode_lowercase(k)),
        None => if delivery.len() > 0 {
            platform_from_lower(unicode_lowercase(delivery[0]))
        } else {
            PlatformView::Other("unknown"@)
        },
    }
}

/// The pick that key `t` of game `e` becomes, in month `month`.
pub open spec fn pick_of(e: ChoiceGameEntry, t: ChoiceTpkd, month: Seq<char>) -> ChoicePickView {
    ChoicePickView {
        machine_name: t.machine_name@,
        human_name: e.title@,
        platform: choice_platform(
            match t.key_type {
                Some(k) => Some(k@),
                None => None,
            },
            string_views(e.delivery_methods@),
        ),
        steam_app_id: t.steam_app_id,
        genres: string_views(e.genres@),
        claim_deadline: match t.expiration_date {
            Some(d) => chrono_humble_datetime(d@),
            None => None,
        },
        num_days_until_expired: Some(t.num_days_until_expired),
        is_expired: t.is_expired,
        is_owned_on_steam: None,
        choice_month: month,
    }
}

/// The picks of one game: one per key, in order.
pub open spec fn picks_of_entry(e: ChoiceGameEntry, month: Seq<char>) -> Seq<ChoicePickView> {
    e.tpkds@.map_values(|t: ChoiceTpkd| pick_of(e, t, month))
}

/// The picks of all games, game after game.
pub open spec fn picks_of(entries: Seq<ChoiceGameEntry>, month: Seq<char>) -> Seq<ChoicePickView>
    decreases entries.len(),
{
    if entries.len() == 0 {
        Seq::empty()
    } else {
        picks_of(entries.drop_last(), month) + picks_of_entry(entries.last(), month)
    }
}

fn choice_platform_of(key_type: &Option<String>, delivery: &Vec<String>) -> (r: Platform)
    ensures
        r@ == choice_platform(
            match key_type {
                Some(k) => Some(k@),
                None => None,
            },
            string_views(delivery@),
        ),
{
    match key_type {
        Some(k) => Platform::from_str(k.as_str()),
        None => if delivery.len() > 0 {
            Platform::from_str(delivery[0].as_str())
        } else {
            Platform::Other("unknown".to_owned())
        },
    }
}

/// The picks of a Choice month's games, game after game and key after key.
pub fn build_picks(entries: &Vec<ChoiceGameEntry>, choice_month: &str) -> (r: Vec<ChoicePick>)
    ensures
        picks_view(r@) == picks_of(entries@, choice_month@),
{
    let mut picks: Vec<ChoicePick> = Vec::new();
    let mut i: usize = 0;
    while i < entries.len()
        invariant
            i <= entries@.len(),
            picks_view(picks@) == picks_of(entries@.subrange(0, i as int), choice_month@),
        decreases entries@.len() - i,
    {
        let e = &entries[i];
        assert(entries@.subrange(0, i + 1).drop_last() == entries@.subrange(0, i as int));
        let ghost before = picks_view(picks@);
        let mut j: usize = 0;
        while j < e.tpkds.len()
            invariant
                j <= e.tpkds@.len(),
                picks_view(picks@) == before + picks_of_entry(*e, choice_month@).subrange(0, j as int),
            decreases e.tpkds@.len() - j,
        {
            let t = &e.tpkds[j];
            let claim_deadline = match &t.expiration_date {
                Some(d) => parse_humble_datetime(d.as_str()),
                None => None,
            };
            let pick = ChoicePick {
                machine_name: t.machine_name.clone(),
                human_name: e.title.clone(),
                platform: choice_platform_of(&t.key_type, &e.delivery_methods),
                steam_app_id: t.steam_app_id,
                genres: clone_strings(&e.genres),
                claim_deadline,
                num_days_until_expired: Some(t.num_days_until_expired),
                is_expired: t.is_expired,
                is_owned_on_steam: None,
                choice_month: choice_month.to_owned(),
            };
            let ghost mid = picks_view(picks@);
            picks.push(pick);
            assert(picks_view(picks@) =~= mid.push(pick_of(*e, *t, choice_month@)));
            assert(picks_of_entry(*e, choice_month@).subrange(0, j + 1) =~= picks_of_entry(
                *e,
                choice_month@,
            ).subrange(0, j as int).push(pick_of(*e, *t, choice_month@)));
            j = j + 1;
        }
        assert(picks_of_entry(*e, choice_month@).subrange(0, e.tpkds@.len() as int)
            =~= picks_of_entry(*e, choice_month@));
        i = i + 1;
    }
    assert(entries@.subrange(0, entries@.len() as int) == entries@);
    picks
}


/// The picks of one game: exactly one per key of the game, in order, each
/// with the key's machine name, Steam app id, days left and expiry flag,
/// the game's title and genres, and the month it belongs to; Steam
/// ownership is not known yet.
pub proof fn law_picks_of_game(e: ChoiceGameEntry, month: Seq<char>)
    ensures
        picks_of_entry(e, month).len() == e.tpkds@.len(),
        forall|j: int|
            0 <= j < e.tpkds@.len() ==> {
                let p = #[trigger] picks_of_entry(e, month)[j];
                let t = e.tpkds@[j];
                &&& p.machine_name == t.machine_name@
                &&& p.human_name == e.title@
                &&& p.steam_app_id == t.steam_app_id
                &&& p.genres == string_views(e.genres@)
                &&& p.num_days_until_expired == Some(t.num_days_until_expired)
                &&& p.is_expired == t.is_expired
                &&& p.is_owned_on_steam is None
                &&& p.choice_month == month
                &&& (t.expiration_date is None ==> p.claim_deadline is None)
            },
{
}

/// The picks of a page are its games' picks, game after game: the picks of
/// no games are none, and one more game adds its picks at the end.
pub proof fn law_picks_of_page(entries: Seq<ChoiceGameEntry>, e: ChoiceGameEntry, month: Seq<char>)
    ensures
        picks_of(Seq::empty(), month).len() == 0,
        picks_of(entries.push(e), month) == picks_of(entries, month) + picks_of_entry(e, month),
{
    assert(entries.push(e).drop_last() == entries);
}

} // verus!
