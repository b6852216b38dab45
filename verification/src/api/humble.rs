use vstd::prelude::*;

use crate::models::bundle::{bundle_type_from_lower, Bundle, BundleType};
use crate::models::key::{
    clone_opt_string, keys_view, opt_view, platform_from_lower, GameKey, GameKeyView, Platform,
    RedeemStatus,
};
use crate::text::{concat, unicode_lowercase};

verus! {

/// One key of an order, as the order API lists it.
#[derive(Debug)]
pub struct TpkEntry {
    pub machine_name: String,
    pub human_name: String,
    pub key_type: Option<String>,
    pub key_type_human_name: Option<String>,
    /// Present and non-null when the key has been revealed by the user
    pub redeemed_key_val: Option<String>,
    /// True when the key has expired
    pub is_expired: bool,
    /// The Steam app id when the API gives it as a non-negative integer
    pub steam_app_id: Option<u64>,
    pub num_days_until_expired: i32,
}

/// The product of an order.
#[derive(Debug)]
pub struct OrderProduct {
    pub machine_name: String,
    pub human_name: String,
    pub category: String,
    /// Present on Choice subscription orders — the URL slug for the membership page
    /// e.g. "april-2025" → /membership/april-2025
    pub choice_url: Option<String>,
}

/// One order, as the order API returns it.
#[derive(Debug)]
pub struct OrderDetail {
    pub gamekey: String,
    pub created: Option<String>,
    pub product: OrderProduct,
    /// The keys of the order (`tpkd_dict.all_tpks`), when the order has any
    pub all_tpks: Option<Vec<TpkEntry>>,
}

/// A fresh random key id (`Uuid::new_v4`, hyphenated). It is random: nothing
/// is stated of the value.
#[verifier::external_body]
fn new_key_id() -> String {
    uuid::Uuid::new_v4().to_string()
}

/// The status of a key from the order API: expired keys are `Expired`; all
/// others are `Unredeemed` (the API does not say whether a revealed key was
/// redeemed on its platform).
pub open spec fn tpk_status(is_expired: bool) -> RedeemStatus {
    if is_expired {
        RedeemStatus::Expired
    } else {
        RedeemStatus::Unredeemed
    }
}

/// The key that order entry `t` becomes, with id `id`, in the bundle with
/// machine name `bundle_machine_name` and name `bundle_human_name` bought at
/// `purchased_at` (seconds) and `purchased_nanos` (the fraction of a second).
pub open spec fn key_from_tpk(
    t: TpkEntry,
    bundle_machine_name: Seq<char>,
    bundle_human_name: Seq<char>,
    purchased_at: i64,
    purchased_nanos: u32,
    id: Seq<char>,
) -> GameKeyView {
    GameKeyView {
        id,
        tpkd_machine_name: t.machine_name@,
        human_name: t.human_name@,
        platform: platform_from_lower(
            unicode_lowercase(
                match t.key_type {
                    Some(k) => k@,
                    None => Seq::empty(),
                },
            ),
        ),
        key_type: match t.key_type_human_name {
            Some(k) => k@,
            None => Seq::empty(),
        },
        redeemed_key_val: opt_view(t.redeemed_key_val),
        is_revealed: t.redeemed_key_val is Some,
        redeem_status: tpk_status(t.is_expired),
        bundle_machine_name,
        bundle_human_name,
        purchase_date: purchased_at,
        purchase_nanos: purchased_nanos,
        expiry_date: None,
        steam_app_id: match t.steam_app_id {
            Some(n) => Some(n as u32),
            None => None,
        },
        igdb_genres: Seq::empty(),
        is_owned_on_steam: None,
    }
}

/// Whether `k` is the key that order entry `t` becomes, for some id.
pub open spec fn is_key_of(
    k: GameKeyView,
    t: TpkEntry,
    bundle_machine_name: Seq<char>,
    bundle_human_name: Seq<char>,
    purchased_at: i64,
    purchased_nanos: u32,
) -> bool {
    exists|id: Seq<char>|
        #[trigger] key_from_tpk(
            t,
            bundle_machine_name,
            bundle_human_name,
            purchased_at,
            purchased_nanos,
            id,
        ) == k
}

/// The key that order entry `t` of `bundle` becomes, given its id.
pub fn game_key_from_tpk(t: &TpkEntry, bundle: &Bundle, id: String) -> (r: GameKey)
    ensures
        r@ == key_from_tpk(
            *t,
            bundle.machine_name@,
            bundle.human_name@,
            bundle.purchased_at,
            bundle.purchased_nanos,
            id@,
        ),
{
    let is_revealed = t.redeemed_key_val.is_some();
    let redeem_status = if t.is_expired {
        RedeemStatus::Expired
    } else {
        RedeemStatus::Unredeemed
    };
    let steam_app_id = match t.steam_app_id {
        Some(n) => Some(#[verifier::truncate] (n as u32)),
        None => None,
    };
    let platform = match &t.key_type {
        Some(k) => Platform::from_str(k.as_str()),
        None => Platform::from_str(""),
    };
    proof {
        reveal_strlit("");
        assert(""@ =~= Seq::<char>::empty());
    }
    let key_type = match &t.key_type_human_name {
        Some(k) => k.clone(),
        None => String::new(),
    };
    let r = GameKey {
        id,
        tpkd_machine_name: t.machine_name.clone(),
        human_name: t.human_name.clone(),
        platform,
        key_type,
        redeemed_key_val: clone_opt_string(&t.redeemed_key_val),
        is_revealed,
        redeem_status,
        bundle_machine_name: bundle.machine_name.clone(),
        bundle_human_name: bundle.human_name.clone(),
        purchase_date: bundle.purchased_at,
        purchase_nanos: bundle.purchased_nanos,
        expiry_date: None,
        steam_app_id,
        igdb_genres: Vec::new(),
        is_owned_on_steam: None,
    };
    assert(r@.igdb_genres =~= Seq::<Seq<char>>::empty());
    r
}

/// The key that order entry `t` of `bundle` becomes, with a fresh random id.
pub fn tpk_to_game_key(t: &TpkEntry, bundle: &Bundle) -> (r: GameKey)
    ensures
        is_key_of(
            r@,
            *t,
            bundle.machine_name@,
            bundle.human_name@,
            bundle.purchased_at,
            bundle.purchased_nanos,
        ),
{
    let id = new_key_id();
    game_key_from_tpk(t, bundle, id)
}

/// What `chrono` reads from an RFC 3339 date-time: its instant as Unix
/// seconds (UTC) and the nanoseconds past that second, or `None` when the
/// text is not one.
pub uninterp spec fn chrono_rfc3339(s: Seq<char>) -> Option<(i64, u32)>;

/// `DateTime::parse_from_rfc3339(s)` in UTC, as Unix seconds and the
/// nanoseconds past the second (`timestamp`, `timestamp_subsec_nanos`). The
/// grammar is chrono's; the result is named `chrono_rfc3339`.
#[verifier::external_body]
fn parse_rfc3339(s: &str) -> (r: Option<(i64, u32)>)
    ensures
        r == chrono_rfc3339(s@),
{
    match chrono::DateTime::parse_from_rfc3339(s) {
        Ok(d) => Some((d.timestamp(), d.timestamp_subsec_nanos())),
        Err(_) => None,
    }
}

/// `Utc::now()` as Unix seconds. It reads the clock: nothing is stated of it.
#[verifier::external_body]
fn now_seconds() -> i64 {
    chrono::Utc::now().timestamp()
}

/// The purchase date of an order: its `created` time, or the Unix epoch when
/// it is missing or unreadable.
pub open spec fn order_purchase_date(created: Option<Seq<char>>) -> i64 {
    match created {
        Some(c) => match chrono_rfc3339(c) {
            Some(t) => t.0,
            None => 0,
        },
        None => 0,
    }
}

/// The fraction of a second (in nanoseconds) of an order's `created` time,
/// or 0 when it is missing or unreadable.
pub open spec fn order_purchase_nanos(created: Option<Seq<char>>) -> u32 {
    match created {
        Some(c) => match chrono_rfc3339(c) {
            Some(t) => t.1,
            None => 0,
        },
        None => 0,
    }
}

/// The bundle that an order describes, fetched at `cached_at`.
pub fn bundle_of(detail: &OrderDetail, cached_at: i64) -> (r: Bundle)
    ensures
        r.machine_name@ == detail.gamekey@,
        r.human_name@ == detail.product.human_name@,
        r.product_machine_name@ == detail.product.machine_name@,
        r.purchased_at == order_purchase_date(opt_view(detail.created)),
        r.purchased_nanos == order_purchase_nanos(opt_view(detail.created)),
        r.bundle_type == bundle_type_from_lower(unicode_lowercase(detail.product.category@)),
        r.cached_at == cached_at,
{
    let (purchased_at, purchased_nanos) = match &detail.created {
        Some(c) => match parse_rfc3339(c.as_str()) {
            Some(t) => t,
            None => (0, 0),
        },
        None => (0, 0),
    };
    Bundle {
        machine_name: detail.gamekey.clone(),
        human_name: detail.product.human_name.clone(),
        product_machine_name: detail.product.machine_name.clone(),
        purchased_at,
        purchased_nanos,
        bundle_type: BundleType::from_str(detail.product.category.as_str()),
        cached_at,
    }
}

/// Converts an order into its bundle, its keys (one per order entry, in
/// order, each with a fresh id) and, for a Choice month, the slug of its
/// membership page.
pub fn order_contents(detail: OrderDetail) -> (r: (Bundle, Vec<GameKey>, Option<String>))
    ensures
        r.0.machine_name@ == detail.gamekey@,
        r.0.human_name@ == detail.product.human_name@,
        r.0.product_machine_name@ == detail.product.machine_name@,
        r.0.purchased_at == order_purchase_date(opt_view(detail.created)),
        r.0.purchased_nanos == order_purchase_nanos(opt_view(detail.created)),
        r.0.bundle_type == bundle_type_from_lower(unicode_lowercase(detail.product.category@)),
        opt_view(r.2) == opt_view(detail.product.choice_url),
        r.1@.len() == match detail.all_tpks {
            Some(v) => v@.len(),
            None => 0,
        },
        forall|i: int|
            0 <= i < r.1@.len() ==> is_key_of(
                (#[trigger] r.1@[i])@,
                detail.all_tpks->0@[i],
                detail.gamekey@,
                detail.product.human_name@,
                order_purchase_date(opt_view(detail.created)),
                order_purchase_nanos(opt_view(detail.created)),
            ),
{
    let now = now_seconds();
    let bundle = bundle_of(&detail, now);
    let choice_url = clone_opt_string(&detail.product.choice_url);
    let mut keys: Vec<GameKey> = Vec::new();
    match detail.all_tpks {
        None => {},
        Some(tpks) => {
            let ghost tv = tpks@;
            let mut i: usize = 0;
            while i < tpks.len()
                invariant
                    tv == tpks@,
                    i <= tv.len(),
                    keys@.len() == i,
                    bundle.machine_name@ == detail.gamekey@,
                    bundle.human_name@ == detail.product.human_name@,
                    bundle.purchased_at == order_purchase_date(opt_view(detail.created)),
                    bundle.purchased_nanos == order_purchase_nanos(opt_view(detail.created)),
                    forall|k: int|
                        0 <= k < i ==> is_key_of(
                            (#[trigger] keys@[k])@,
                            tv[k],
                            detail.gamekey@,
                            detail.product.human_name@,
                            order_purchase_date(opt_view(detail.created)),
                            order_purchase_nanos(opt_view(detail.created)),
                        ),
                decreases tv.len() - i,
            {
                let key = tpk_to_game_key(&tpks[i], &bundle);
                keys.push(key);
                i = i + 1;
            }
        },
    }
    (bundle, keys, choice_url)
}

// ── Requests ────────────────────────────────────────────────────────────────

/// The URL of one order, with all its keys.
pub open spec fn order_url_spec(gamekey: Seq<char>) -> Seq<char> {
    "https://www.humblebundle.com/api/v1/order/"@ + gamekey + "?all_tpkds=true"@
}

pub fn order_url(gamekey: &str) -> (r: String)
    ensures
        r@ == order_url_spec(gamekey@),
{
    let a = concat("https://www.humblebundle.com/api/v1/order/", gamekey);
    concat(a.as_str(), "?all_tpkds=true")
}

/// The membership page of a Choice month.
pub fn membership_url(url_slug: &str) -> (r: String)
    ensures
        r@ == "https://www.humblebundle.com/membership/"@ + url_slug@,
{
    concat("https://www.humblebundle.com/membership/", url_slug)
}

/// The `Cookie` header value that carries the session cookie.
pub fn session_cookie_header(session_cookie: &str) -> (r: String)
    ensures
        r@ == "_simpleauth_sess="@ + session_cookie@,
{
    concat("_simpleauth_sess=", session_cookie)
}


/// A key made from an order entry keeps what the entry says of it: the
/// entry's machine name, name and key-type name; the revealed key value,
/// unchanged, and "revealed" exactly when there is one; "expired" exactly
/// when the entry has expired (else "unredeemed"); the entry's Steam app id;
/// and the bundle's names and purchase time. Nothing is known yet of its
/// expiry date, genres or Steam ownership.
pub proof fn law_key_from_order_entry(
    k: GameKeyView,
    t: TpkEntry,
    bundle_machine_name: Seq<char>,
    bundle_human_name: Seq<char>,
    purchased_at: i64,
    purchased_nanos: u32,
)
    requires
        is_key_of(k, t, bundle_machine_name, bundle_human_name, purchased_at, purchased_nanos),
    ensures
        k.tpkd_machine_name == t.machine_name@,
        k.human_name == t.human_name@,
        match t.redeemed_key_val {
            Some(v) => k.redeemed_key_val == Some(v@),
            None => k.redeemed_key_val is None,
        },
        k.is_revealed == (t.redeemed_key_val is Some),
        t.is_expired ==> k.redeem_status == RedeemStatus::Expired,
        !t.is_expired ==> k.redeem_status == RedeemStatus::Unredeemed,
        match t.key_type_human_name {
            Some(n) => k.key_type == n@,
            None => k.key_type.len() == 0,
        },
        match t.steam_app_id {
            Some(n) => k.steam_app_id == Some(n as u32),
            None => k.steam_app_id is None,
        },
        k.bundle_machine_name == bundle_machine_name,
        k.bundle_human_name == bundle_human_name,
        k.purchase_date == purchased_at,
        k.purchase_nanos == purchased_nanos,
        k.expiry_date is None,
        k.igdb_genres.len() == 0,
        k.is_owned_on_steam is None,
{
    let id = choose|id: Seq<char>|
        #[trigger] key_from_tpk(
            t,
            bundle_machine_name,
            bundle_human_name,
            purchased_at,
            purchased_nanos,
            id,
        ) == k;
    assert(key_from_tpk(t, bundle_machine_name, bundle_human_name, purchased_at, purchased_nanos, id)
        == k);
}

} // verus!
