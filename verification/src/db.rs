use vstd::prelude::*;

use chrono::TimeZone;

use crate::models::choice::{ChoicePick, ChoicePickView};
use crate::models::key::{
    opt_view, platform_from_lower, redeem_status_from, GameKey, GameKeyView, Platform,
    PlatformView, RedeemStatus,
};
use crate::models::metadata::{
    deck_category, GameMetadata, GameMetadataView, ReviewCounts, SteamDeckCompat,
};
use crate::text::{str_eq, string_views, unicode_lowercase};
use crate::tui::state::metas_view;
use crate::tui::update::{meta_index, upsert_meta, upsert_metas, upsert_metas_into};

verus! {

// ── Values stored as text or numbers ────────────────────────────────────────

/// What `serde_json` reads from a JSON array of strings, or `None` when the
/// text is not one.
pub uninterp spec fn json_string_list(s: Seq<char>) -> Option<Seq<Seq<char>>>;

/// `serde_json::from_str::<Vec<String>>`. JSON's grammar is serde_json's; the
/// result is named `json_string_list`.
#[verifier::external_body]
fn parse_string_list(s: &str) -> (r: Option<Vec<String>>)
    ensures
        match r {
            Some(v) => json_string_list(s@) == Some(string_views(v@)),
            None => json_string_list(s@) is None,
        },
{
    match serde_json::from_str::<Vec<String>>(s) {
        Ok(v) => Some(v),
        Err(_) => None,
    }
}

/// Whether chrono can hold the Unix timestamp `ts` (seconds) as a UTC
/// date-time: it falls within -262143-01-01 00:00:00 to 262142-12-31 23:59:59.
pub open spec fn chrono_timestamp_in_range(ts: i64) -> bool {
    crate::text::chrono_first_second() <= ts <= crate::text::chrono_last_second()
}

/// `Utc.timestamp_opt(ts, 0).single().is_some()`: true exactly for the
/// seconds of the dates chrono can hold.
#[verifier::external_body]
fn timestamp_in_range(ts: i64) -> (r: bool)
    ensures
        r == chrono_timestamp_in_range(ts),
{
    chrono::Utc.timestamp_opt(ts, 0).single().is_some()
}

/// A stored timestamp that chrono can hold, else the Unix epoch.
pub open spec fn stored_date(ts: i64) -> i64 {
    if chrono_timestamp_in_range(ts) {
        ts
    } else {
        0
    }
}

/// An optional stored timestamp, dropped when chrono cannot hold it.
pub open spec fn stored_opt_date(ts: Option<i64>) -> Option<i64> {
    match ts {
        Some(t) => if chrono_timestamp_in_range(t) {
            Some(t)
        } else {
            None
        },
        None => None,
    }
}

fn date_or_epoch(ts: i64) -> (r: i64)
    ensures
        r == stored_date(ts),
{
    if timestamp_in_range(ts) {
        ts
    } else {
        0
    }
}

fn opt_date(ts: Option<i64>) -> (r: Option<i64>)
    ensures
        r == stored_opt_date(ts),
{
    match ts {
        Some(t) => if timestamp_in_range(t) {
            Some(t)
        } else {
            None
        },
        None => None,
    }
}

/// A list of strings stored as JSON, or no strings when the text is not one.
pub open spec fn stored_list(s: Seq<char>) -> Seq<Seq<char>> {
    match json_string_list(s) {
        Some(v) => v,
        None => Seq::empty(),
    }
}

fn list_or_empty(s: &str) -> (r: Vec<String>)
    ensures
        string_views(r@) == stored_list(s@),
{
    match parse_string_list(s) {
        Some(v) => v,
        None => {
            let r: Vec<String> = Vec::new();
            assert(string_views(r@) =~= Seq::<Seq<char>>::empty());
            r
        },
    }
}

/// The platform of a stored row: the one its JSON form names (decoded by the
/// caller), else the platform its text names.
pub open spec fn stored_platform(decoded: Option<PlatformView>, text: Seq<char>) -> PlatformView {
    match decoded {
        Some(p) => p,
        None => platform_from_lower(unicode_lowercase(text)),
    }
}

fn platform_of(decoded: Option<Platform>, text: &str) -> (r: Platform)
    ensures
        r@ == stored_platform(
            match decoded {
                Some(p) => Some(p@),
                None => None,
            },
            text@,
        ),
{
    match decoded {
        Some(p) => p,
        None => Platform::from_str(text),
    }
}

/// A stored optional id, as `id as u32` reads it.
pub open spec fn stored_app_id(id: Option<i32>) -> Option<u32> {
    match id {
        Some(n) => Some(n as u32),
        None => None,
    }
}

/// A stored optional flag: non-zero is true.
pub open spec fn stored_flag(v: Option<i32>) -> Option<bool> {
    match v {
        Some(n) => Some(n != 0),
        None => None,
    }
}

fn app_id_of(id: Option<i32>) -> (r: Option<u32>)
    ensures
        r == stored_app_id(id),
{
    match id {
        Some(n) => Some(#[verifier::truncate] (n as u32)),
        None => None,
    }
}

fn flag_of(v: Option<i32>) -> (r: Option<bool>)
    ensures
        r == stored_flag(v),
{
    match v {
        Some(n) => Some(n != 0),
        None => None,
    }
}

// ── Keys ────────────────────────────────────────────────────────────────────

/// A row of the `game_keys` table.
#[derive(Debug)]
pub struct KeyRow {
    pub id: String,
    pub tpkd_machine_name: String,
    pub human_name: String,
    pub platform: String,
    pub key_type: String,
    pub redeemed_key_val: Option<String>,
    pub is_revealed: i32,
    pub redeem_status: String,
    pub bundle_machine_name: String,
    pub bundle_human_name: String,
    pub purchase_date: i64,
    pub expiry_date: Option<i64>,
    pub steam_app_id: Option<i32>,
    pub igdb_genres: String,
    pub is_owned_on_steam: Option<i32>,
}

/// The key a stored row holds, given the platform decoded from its JSON form.
pub open spec fn key_of_row(row: KeyRow, decoded: Option<PlatformView>) -> GameKeyView {
    GameKeyView {
        id: row.id@,
        tpkd_machine_name: row.tpkd_machine_name@,
        human_name: row.human_name@,
        platform: stored_platform(decoded, row.platform@),
        key_type: row.key_type@,
        redeemed_key_val: opt_view(row.redeemed_key_val),
        is_revealed: row.is_revealed != 0,
        redeem_status: redeem_status_from(row.redeem_status@),
        bundle_machine_name: row.bundle_machine_name@,
        bundle_human_name: row.bundle_human_name@,
        purchase_date: stored_date(row.purchase_date),
        purchase_nanos: 0,
        expiry_date: stored_opt_date(row.expiry_date),
        steam_app_id: stored_app_id(row.steam_app_id),
        igdb_genres: stored_list(row.igdb_genres@),
        is_owned_on_steam: stored_flag(row.is_owned_on_steam),
    }
}

/// The key a stored row holds. `decoded` is the platform that the row's
/// platform text names as JSON, when it does.
pub fn key_from_row(row: KeyRow, decoded: Option<Platform>) -> (r: GameKey)
    ensures
        r@ == key_of_row(
            row,
            match decoded {
                Some(p) => Some(p@),
                None => None,
            },
        ),
{
    let platform = platform_of(decoded, row.platform.as_str());
    let igdb_genres = list_or_empty(row.igdb_genres.as_str());
    GameKey {
        id: row.id,
        tpkd_machine_name: row.tpkd_machine_name,
        human_name: row.human_name,
        platform,
        key_type: row.key_type,
        redeemed_key_val: row.redeemed_key_val,
        is_revealed: row.is_revealed != 0,
        redeem_status: RedeemStatus::from_str(row.redeem_status.as_str()),
        bundle_machine_name: row.bundle_machine_name,
        bundle_human_name: row.bundle_human_name,
        purchase_date: date_or_epoch(row.purchase_date),
        purchase_nanos: 0,
        expiry_date: opt_date(row.expiry_date),
        steam_app_id: app_id_of(row.steam_app_id),
        igdb_genres,
        is_owned_on_steam: flag_of(row.is_owned_on_steam),
    }
}

// ── Choice picks ────────────────────────────────────────────────────────────

/// A row of the `choice_picks` table.
#[derive(Debug)]
pub struct PickRow {
    pub machine_name: String,
    pub human_name: String,
    pub platform: String,
    pub steam_app_id: Option<i32>,
    pub genres: String,
    pub claim_deadline: Option<i64>,
    pub num_days_until_expired: Option<i32>,
    pub is_expired: i32,
    pub is_owned_on_steam: Option<i32>,
    pub choice_month: String,
}

/// The pick a stored row holds, given the platform decoded from its JSON form.
pub open spec fn pick_of_row(row: PickRow, decoded: Option<PlatformView>) -> ChoicePickView {
    ChoicePickView {
        machine_name: row.machine_name@,
        human_name: row.human_name@,
        platform: stored_platform(decoded, row.platform@),
        steam_app_id: stored_app_id(row.steam_app_id),
        genres: stored_list(row.genres@),
        claim_deadline: stored_opt_date(row.claim_deadline),
        num_days_until_expired: row.num_days_until_expired,
        is_expired: row.is_expired != 0,
        is_owned_on_steam: stored_flag(row.is_owned_on_steam),
        choice_month: row.choice_month@,
    }
}

/// The pick a stored row holds. `decoded` is the platform that the row's
/// platform text names as JSON, when it does.
pub fn pick_from_row(row: PickRow, decoded: Option<Platform>) -> (r: ChoicePick)
    ensures
        r@ == pick_of_row(
            row,
            match decoded {
                Some(p) => Some(p@),
                None => None,
            },
        ),
{
    let platform = platform_of(decoded, row.platform.as_str());
    let genres = list_or_empty(row.genres.as_str());
    ChoicePick {
        machine_name: row.machine_name,
        human_name: row.human_name,
        platform,
        steam_app_id: app_id_of(row.steam_app_id),
        genres,
        claim_deadline: opt_date(row.claim_deadline),
        num_days_until_expired: row.num_days_until_expired,
        is_expired: row.is_expired != 0,
        is_owned_on_steam: flag_of(row.is_owned_on_steam),
        choice_month: row.choice_month,
    }
}

// ── Game metadata ───────────────────────────────────────────────────────────

/// A row of the `game_metadata` table. The Steam user rating comes as review
/// counts, the IGDB rating in hundredths.
#[derive(Debug)]
pub struct MetadataRow {
    pub steam_app_id: i64,
    pub metacritic_score: Option<i64>,
    pub steam_user_rating: Option<ReviewCounts>,
    pub igdb_id: Option<i64>,
    pub igdb_rating_centi: Option<u32>,
    pub steam_deck_compat: Option<i64>,
    pub enriched_at: i64,
}

/// A row of the `game_tags` table.
#[derive(Debug)]
pub struct TagRow {
    pub steam_app_id: i64,
    pub tag: String,
    pub source: String,
}

/// The Steam Deck rating of a stored category number.
pub open spec fn stored_deck(n: Option<i64>) -> Option<SteamDeckCompat> {
    match n {
        Some(c) => if c == 1 {
            Some(SteamDeckCompat::Unsupported)
        } else if c == 2 {
            Some(SteamDeckCompat::Playable)
        } else if c == 3 {
            Some(SteamDeckCompat::Verified)
        } else {
            None
        },
        None => None,
    }
}

/// The metadata a stored row holds, before its tags are added.
pub open spec fn meta_of_row(row: MetadataRow) -> GameMetadataView {
    GameMetadataView {
        steam_app_id: row.steam_app_id as u32,
        steam_tags: Seq::empty(),
        steam_genres: Seq::empty(),
        metacritic_score: match row.metacritic_score {
            Some(v) => Some(v as u32),
            None => None,
        },
        steam_user_rating: row.steam_user_rating,
        igdb_id: match row.igdb_id {
            Some(v) => Some(v as u64),
            None => None,
        },
        igdb_genres: Seq::empty(),
        igdb_rating_centi: row.igdb_rating_centi,
        steam_deck_compat: stored_deck(row.steam_deck_compat),
        enriched_at: stored_date(row.enriched_at),
    }
}

/// `m` with `tag` added to the list that `source` names
/// ("steam_genre", "steam_tag", "igdb_genre"); other sources add nothing.
pub open spec fn with_tag(m: GameMetadataView, tag: Seq<char>, source: Seq<char>) -> GameMetadataView {
    if source == "steam_genre"@ {
        GameMetadataView { steam_genres: m.steam_genres.push(tag), ..m }
    } else if source == "steam_tag"@ {
        GameMetadataView { steam_tags: m.steam_tags.push(tag), ..m }
    } else if source == "igdb_genre"@ {
        GameMetadataView { igdb_genres: m.igdb_genres.push(tag), ..m }
    } else {
        m
    }
}

/// `metas` after one tag row: the tag joins its app's entry, if the app has one.
pub open spec fn add_tag_row(metas: Seq<GameMetadataView>, app_id: i64, tag: Seq<char>, source: Seq<char>) -> Seq<GameMetadataView> {
    let i = meta_index(metas, app_id as u32);
    if i >= 0 {
        metas.update(i, with_tag(metas[i], tag, source))
    } else {
        metas
    }
}

/// `metas` after all tag rows, in order.
pub open spec fn add_tag_rows(metas: Seq<GameMetadataView>, tags: Seq<TagRow>) -> Seq<GameMetadataView>
    decreases tags.len(),
{
    if tags.len() == 0 {
        metas
    } else {
        let t = tags.last();
        add_tag_row(add_tag_rows(metas, tags.drop_last()), t.steam_app_id, t.tag@, t.source@)
    }
}

/// The metadata entries that stored rows hold: one per app (a later row for
/// the same app wins), each with its tags in row order.
pub open spec fn metadata_of_rows(rows: Seq<MetadataRow>, tags: Seq<TagRow>) -> Seq<GameMetadataView> {
    add_tag_rows(
        upsert_metas(Seq::empty(), rows.map_values(|r: MetadataRow| meta_of_row(r))),
        tags,
    )
}

fn deck_of(n: Option<i64>) -> (r: Option<SteamDeckCompat>)
    ensures
        r == stored_deck(n),
{
    match n {
        Some(c) => SteamDeckCompat::from_category(c),
        None => None,
    }
}

fn meta_from_row(row: &MetadataRow) -> (r: GameMetadata)
    ensures
        r@ == meta_of_row(*row),
{
    let r = GameMetadata {
        steam_app_id: #[verifier::truncate] (row.steam_app_id as u32),
        steam_tags: Vec::new(),
        steam_genres: Vec::new(),
        metacritic_score: match row.metacritic_score {
            Some(v) => Some(#[verifier::truncate] (v as u32)),
            None => None,
        },
        steam_user_rating: row.steam_user_rating,
        igdb_id: match row.igdb_id {
            Some(v) => Some(#[verifier::truncate] (v as u64)),
            None => None,
        },
        igdb_genres: Vec::new(),
        igdb_rating_centi: row.igdb_rating_centi,
        steam_deck_compat: deck_of(row.steam_deck_compat),
        enriched_at: date_or_epoch(row.enriched_at),
    };
    assert(r@.steam_tags =~= Seq::<Seq<char>>::empty());
    assert(r@.steam_genres =~= Seq::<Seq<char>>::empty());
    assert(r@.igdb_genres =~= Seq::<Seq<char>>::empty());
    r
}

/// Adds `tag` to the list of `m` that `source` names.
fn add_tag(m: &mut GameMetadata, tag: String, source: &str)
    ensures
        final(m)@ == with_tag(old(m)@, tag@, source@),
{
    if str_eq(source, "steam_genre") {
        let ghost before = m@;
        m.steam_genres.push(tag);
        assert(m@.steam_genres =~= before.steam_genres.push(tag@));
    } else if str_eq(source, "steam_tag") {
        let ghost before = m@;
        m.steam_tags.push(tag);
        assert(m@.steam_tags =~= before.steam_tags.push(tag@));
    } else if str_eq(source, "igdb_genre") {
        let ghost before = m@;
        m.igdb_genres.push(tag);
        assert(m@.igdb_genres =~= before.igdb_genres.push(tag@));
    }
}

/// The metadata entries that the rows of `game_metadata` and `game_tags` hold.
pub fn metadata_from_rows(rows: &Vec<MetadataRow>, tags: &Vec<TagRow>) -> (r: Vec<GameMetadata>)
    ensures
        metas_view(r@) == metadata_of_rows(rows@, tags@),
{
    let mut scalars: Vec<GameMetadata> = Vec::new();
    let mut i: usize = 0;
    while i < rows.len()
        invariant
            i <= rows@.len(),
            scalars@.len() == i,
            forall|k: int| 0 <= k < i ==> (#[trigger] scalars@[k])@ == meta_of_row(rows@[k]),
        decreases rows@.len() - i,
    {
        scalars.push(meta_from_row(&rows[i]));
        i = i + 1;
    }
    assert(metas_view(scalars@) =~= rows@.map_values(|r: MetadataRow| meta_of_row(r)));
    let mut metas: Vec<GameMetadata> = Vec::new();
    assert(metas_view(metas@) =~= Seq::<GameMetadataView>::empty());
    upsert_metas_into(&mut metas, &scalars);
    let ghost base = metas_view(metas@);
    let mut j: usize = 0;
    while j < tags.len()
        invariant
            j <= tags@.len(),
            metas_view(metas@) == add_tag_rows(base, tags@.subrange(0, j as int)),
        decreases tags@.len() - j,
    {
        assert(tags@.subrange(0, j + 1).drop_last() == tags@.subrange(0, j as int));
        let t = &tags[j];
        let id = #[verifier::truncate] (t.steam_app_id as u32);
        let ghost before = metas_view(metas@);
        proof {
            crate::tui::update::lemma_meta_index_bounds(before, id);
        }
        match crate::tui::update::find_meta(&metas, id) {
            Some(k) => {
                let mut m = metas[k].clone();
                add_tag(&mut m, t.tag.clone(), t.source.as_str());
                metas.set(k, m);
                assert(metas_view(metas@) =~= before.update(
                    k as int,
                    with_tag(before[k as int], t.tag@, t.source@),
                ));
            },
            None => {},
        }
        j = j + 1;
    }
    assert(tags@.subrange(0, tags@.len() as int) == tags@);
    metas
}


/// A key read back from a stored row keeps the row's values: its id, names,
/// key type, bundle names and revealed key value unchanged; "revealed" when
/// the flag is non-zero; the stored status text read back ("redeemed",
/// "expired", "unredeemed", anything else unknown); the decoded platform
/// when there is one; no fraction of a second; the Steam app id and
/// ownership flag as stored.
pub proof fn law_key_from_stored_row(row: KeyRow, decoded: Option<PlatformView>)
    ensures
        ({
            let k = key_of_row(row, decoded);
            &&& k.id == row.id@
            &&& k.tpkd_machine_name == row.tpkd_machine_name@
            &&& k.human_name == row.human_name@
            &&& k.key_type == row.key_type@
            &&& k.bundle_machine_name == row.bundle_machine_name@
            &&& k.bundle_human_name == row.bundle_human_name@
            &&& match row.redeemed_key_val {
                Some(v) => k.redeemed_key_val == Some(v@),
                None => k.redeemed_key_val is None,
            }
            &&& k.is_revealed == (row.is_revealed != 0)
            &&& (row.redeem_status@ == "redeemed"@ ==> k.redeem_status == RedeemStatus::Redeemed)
            &&& (row.redeem_status@ == "expired"@ ==> k.redeem_status == RedeemStatus::Expired)
            &&& (row.redeem_status@ == "unredeemed"@ ==> k.redeem_status == RedeemStatus::Unredeemed)
            &&& (decoded matches Some(p) ==> k.platform == p)
            &&& k.purchase_nanos == 0
            &&& (chrono_timestamp_in_range(row.purchase_date) ==> k.purchase_date == row.purchase_date)
            &&& match row.steam_app_id {
                Some(n) => k.steam_app_id == Some(n as u32),
                None => k.steam_app_id is None,
            }
            &&& match row.is_owned_on_steam {
                Some(n) => k.is_owned_on_steam == Some(n != 0),
                None => k.is_owned_on_steam is None,
            }
        }),
{
    reveal_strlit("redeemed");
    reveal_strlit("expired");
    reveal_strlit("unredeemed");
    assert("redeemed"@.len() == 8 && "expired"@.len() == 7 && "unredeemed"@.len() == 10);
}

/// A Choice pick read back from a stored row keeps the row's values: its
/// machine name, name, month and days left unchanged; expired when the flag
/// is non-zero; the decoded platform when there is one; the Steam app id
/// and ownership flag as stored.
pub proof fn law_pick_from_stored_row(row: PickRow, decoded: Option<PlatformView>)
    ensures
        ({
            let p = pick_of_row(row, decoded);
            &&& p.machine_name == row.machine_name@
            &&& p.human_name == row.human_name@
            &&& p.choice_month == row.choice_month@
            &&& p.num_days_until_expired == row.num_days_until_expired
            &&& p.is_expired == (row.is_expired != 0)
            &&& (decoded matches Some(q) ==> p.platform == q)
            &&& match row.steam_app_id {
                Some(n) => p.steam_app_id == Some(n as u32),
                None => p.steam_app_id is None,
            }
            &&& match row.is_owned_on_steam {
                Some(n) => p.is_owned_on_steam == Some(n != 0),
                None => p.is_owned_on_steam is None,
            }
        }),
{
}

} // verus!
