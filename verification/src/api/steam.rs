use vstd::prelude::*;

use crate::db::stored_deck;
use crate::models::metadata::{ReviewCounts, SteamDeckCompat};
use crate::text::{concat, decimal, string_views, u64_to_string};
use crate::tui::order::{rank_keys_view, sort_positions, stable_sorted, RankKey, SortKey};

verus! {

/// The Steam store's details URL for an app (genres, Metacritic score and
/// Steam Deck compatibility).
pub open spec fn app_details_url_spec(app_id: u32) -> Seq<char> {
    "https://store.steampowered.com/api/appdetails?appids="@ + decimal(app_id as nat)
        + "&filters=genres,metacritic,steam_deck_compatibility"@
}

/// SteamSpy's details URL for an app (tags and votes).
pub open spec fn steamspy_url_spec(app_id: u32) -> Seq<char> {
    "https://steamspy.com/api.php?request=appdetails&appid="@ + decimal(app_id as nat)
}

pub fn app_details_url(app_id: u32) -> (r: String)
    ensures
        r@ == app_details_url_spec(app_id),
{
    let n = u64_to_string(app_id as u64);
    let a = concat("https://store.steampowered.com/api/appdetails?appids=", n.as_str());
    concat(a.as_str(), "&filters=genres,metacritic,steam_deck_compatibility")
}

pub fn steamspy_url(app_id: u32) -> (r: String)
    ensures
        r@ == steamspy_url_spec(app_id),
{
    let n = u64_to_string(app_id as u64);
    concat("https://steamspy.com/api.php?request=appdetails&appid=", n.as_str())
}

/// The sort key of a tag: more votes first.
pub open spec fn tag_key(votes: u64) -> SortKey {
    SortKey { group: 0, num: -(votes as int), text: Seq::empty() }
}

/// The tag names of `pairs`.
pub open spec fn tag_names(pairs: Seq<(String, u64)>) -> Seq<Seq<char>> {
    pairs.map_values(|p: (String, u64)| p.0@)
}

/// The sort keys of `pairs`.
pub open spec fn tag_keys(pairs: Seq<(String, u64)>) -> Seq<SortKey> {
    pairs.map_values(|p: (String, u64)| tag_key(p.1))
}

/// SteamSpy's tags ordered by vote count, most votes first; tags with equal
/// votes keep their order.
pub fn rank_tags(pairs: &Vec<(String, u64)>) -> (r: Vec<String>)
    ensures
        stable_sorted(tag_names(pairs@), tag_keys(pairs@), false, string_views(r@)),
{
    let mut keys: Vec<RankKey> = Vec::new();
    let mut i: usize = 0;
    while i < pairs.len()
        invariant
            i <= pairs@.len(),
            keys@.len() == i,
            forall|k: int| 0 <= k < i ==> (#[trigger] keys@[k])@ == tag_key(pairs@[k].1),
        decreases pairs@.len() - i,
    {
        let votes = pairs[i].1;
        keys.push(RankKey { group: 0, num: -(votes as i128), text: Vec::new() });
        i = i + 1;
    }
    assert(rank_keys_view(keys@) =~= tag_keys(pairs@));
    let order = sort_positions(&keys, false);
    let mut out: Vec<String> = Vec::new();
    let mut k: usize = 0;
    while k < order.len()
        invariant
            order@.len() == pairs@.len(),
            forall|m: int| 0 <= m < order@.len() ==> #[trigger] order@[m] < pairs@.len(),
            k <= order@.len(),
            out@.len() == k,
            forall|m: int| 0 <= m < k ==> (#[trigger] out@[m])@ == pairs@[order@[m] as int].0@,
        decreases order@.len() - k,
    {
        out.push(pairs[order[k]].0.clone());
        k = k + 1;
    }
    proof {
        let names = tag_names(pairs@);
        let ov = string_views(out@);
        assert(forall|m: int| 0 <= m < ov.len() ==> #[trigger] ov[m] == names[order@[m] as int]);
    }
    out
}

/// SteamSpy's user rating: its positive and negative review counts, or
/// `None` when there are no reviews.
pub open spec fn user_rating_spec(positive: u64, negative: u64) -> Option<ReviewCounts> {
    if positive + negative > 0 {
        Some(ReviewCounts { positive, negative })
    } else {
        None
    }
}

pub fn user_rating(positive: u64, negative: u64) -> (r: Option<ReviewCounts>)
    ensures
        r == user_rating_spec(positive, negative),
{
    if positive > 0 || negative > 0 {
        Some(ReviewCounts { positive, negative })
    } else {
        None
    }
}

/// The Steam store's details of an app, as read from its JSON answer.
#[derive(Debug)]
pub struct AppDetails {
    /// The store's `success` flag
    pub success: bool,
    /// The genre descriptions
    pub genres: Vec<String>,
    /// `metacritic.score`
    pub metacritic_score: Option<u64>,
    /// `steam_deck_compatibility.category`
    pub deck_category: Option<i64>,
}

/// The genres, Metacritic score and Steam Deck rating that the store's
/// details give; nothing when the store reports no success.
pub fn app_details_fields(d: AppDetails) -> (r: (Vec<String>, Option<u32>, Option<SteamDeckCompat>))
    ensures
        d.success ==> string_views(r.0@) == string_views(d.genres@) && r.1 == match d.metacritic_score {
            Some(s) => Some(s as u32),
            None => None,
        } && r.2 == stored_deck(d.deck_category),
        !d.success ==> r.0@.len() == 0 && r.1 is None && r.2 is None,
{
    if !d.success {
        return (Vec::new(), None, None);
    }
    let score = match d.metacritic_score {
        Some(s) => Some(#[verifier::truncate] (s as u32)),
        None => None,
    };
    let deck = match d.deck_category {
        Some(c) => SteamDeckCompat::from_category(c),
        None => None,
    };
    (d.genres, score, deck)
}

} // verus!
