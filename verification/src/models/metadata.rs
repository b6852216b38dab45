use vstd::prelude::*;

use crate::text::{clone_strings, string_views};

verus! {

/// Steam Deck compatibility rating (Steam's category numbers 1, 2, 3).
#[derive(Debug, Clone, Copy, PartialEq, Eq, Structural)]
pub enum SteamDeckCompat {
    Unsupported,
    Playable,
    Verified,
}

pub open spec fn deck_category(c: SteamDeckCompat) -> i64 {
    match c {
        SteamDeckCompat::Unsupported => 1,
        SteamDeckCompat::Playable => 2,
        SteamDeckCompat::Verified => 3,
    }
}

/// SteamSpy's counts of positive and negative user reviews of a game.
#[derive(Debug, Clone, Copy, PartialEq, Eq, Structural)]
pub struct ReviewCounts {
    pub positive: u64,
    pub negative: u64,
}

/// The share of positive reviews as a whole percentage, rounded to the
/// nearest, with a tie going to the even percentage. Meant for counts with at
/// least one review.
pub open spec fn rating_percent(c: ReviewCounts) -> int {
    let t = c.positive + c.negative;
    let q = (100 * c.positive) / t;
    let r = (100 * c.positive) % t;
    if 2 * r > t {
        q + 1
    } else if 2 * r < t {
        q
    } else if q % 2 == 0 {
        q
    } else {
        q + 1
    }
}

/// The share of positive reviews in units of 2^-64, rounded down: what
/// ratings are ordered by. Meant for counts with at least one review.
pub open spec fn rating_rank(c: ReviewCounts) -> int {
    (c.positive * 0x1_0000_0000_0000_0000) / (c.positive + c.negative)
}

/// The share of positive reviews as a whole percentage (see
/// [`rating_percent`]).
pub fn percent_positive(c: ReviewCounts) -> (r: u64)
    requires
        c.positive + c.negative > 0,
    ensures
        r == rating_percent(c),
{
    let t: u128 = c.positive as u128 + c.negative as u128;
    let n: u128 = 100 * (c.positive as u128);
    let q: u128 = n / t;
    let r: u128 = n % t;
    assert(q <= 100) by (nonlinear_arith)
        requires
            q as int == (n as int) / (t as int),
            n == 100 * c.positive,
            c.positive <= t,
            t > 0,
    ;
    let p: u128 = if 2 * r > t {
        q + 1
    } else if 2 * r < t {
        q
    } else if q % 2 == 0 {
        q
    } else {
        q + 1
    };
    p as u64
}

/// The share of positive reviews in units of 2^-64 (see [`rating_rank`]).
pub fn rank_of_rating(c: ReviewCounts) -> (r: i128)
    requires
        c.positive + c.negative > 0,
    ensures
        r == rating_rank(c),
{
    let t: u128 = c.positive as u128 + c.negative as u128;
    assert(c.positive * 0x1_0000_0000_0000_0000 < 0x1_0000_0000_0000_0000_0000_0000_0000_0000)
        by (nonlinear_arith)
        requires
            c.positive < 0x1_0000_0000_0000_0000,
    ;
    let n: u128 = (c.positive as u128) * 0x1_0000_0000_0000_0000u128;
    let q: u128 = n / t;
    assert(q <= 0x1_0000_0000_0000_0000) by (nonlinear_arith)
        requires
            q as int == (n as int) / (t as int),
            n == c.positive * 0x1_0000_0000_0000_0000,
            c.positive <= t,
            t > 0,
    ;
    q as i128
}

pub open spec fn deck_label(c: SteamDeckCompat) -> Seq<char> {
    match c {
        SteamDeckCompat::Unsupported => "Unsupported"@,
        SteamDeckCompat::Playable => "Playable"@,
        SteamDeckCompat::Verified => "Verified"@,
    }
}

impl SteamDeckCompat {
    /// The rating for Steam's category number; 0 (unknown) and anything
    /// outside 1..=3 give `None`.
    pub fn from_category(n: i64) -> (r: Option<SteamDeckCompat>)
        ensures
            r is Some <==> 1 <= n <= 3,
            r matches Some(c) ==> deck_category(c) == n,
    {
        match n {
            1 => Some(SteamDeckCompat::Unsupported),
            2 => Some(SteamDeckCompat::Playable),
            3 => Some(SteamDeckCompat::Verified),
            _ => None,
        }
    }

    pub fn as_i64(&self) -> (r: i64)
        ensures
            r == deck_category(*self),
    {
        match self {
            SteamDeckCompat::Unsupported => 1,
            SteamDeckCompat::Playable => 2,
            SteamDeckCompat::Verified => 3,
        }
    }

    pub fn label(&self) -> (r: &'static str)
        ensures
            r@ == deck_label(*self),
    {
        match self {
            SteamDeckCompat::Unsupported => "Unsupported",
            SteamDeckCompat::Playable => "Playable",
            SteamDeckCompat::Verified => "Verified",
        }
    }
}

/// A rating's category number reads back as the same rating, and the
/// category numbers are exactly 1, 2 and 3.
pub proof fn law_deck_category_round_trip(c: SteamDeckCompat)
    ensures
        1 <= deck_category(c) <= 3,
        forall|d: SteamDeckCompat| deck_category(d) == deck_category(c) ==> d == c,
{
}

/// Enrichment data for one Steam app.
///
/// The Steam user rating is held as SteamSpy's review counts, so the share
/// of positive reviews is exact; the IGDB critic rating, a fraction, is held
/// in hundredths of a point (0–10000).
#[derive(Debug)]
pub struct GameMetadata {
    pub steam_app_id: u32,
    /// User-voted folksonomy tags from SteamSpy, sorted by vote count
    pub steam_tags: Vec<String>,
    /// Valve-assigned genre labels from Steam appdetails
    pub steam_genres: Vec<String>,
    pub metacritic_score: Option<u32>,
    pub steam_user_rating: Option<ReviewCounts>,
    pub igdb_id: Option<u64>,
    /// Standardized genre names from IGDB taxonomy
    pub igdb_genres: Vec<String>,
    pub igdb_rating_centi: Option<u32>,
    pub steam_deck_compat: Option<SteamDeckCompat>,
    pub enriched_at: i64,
}

pub struct GameMetadataView {
    pub steam_app_id: u32,
    pub steam_tags: Seq<Seq<char>>,
    pub steam_genres: Seq<Seq<char>>,
    pub metacritic_score: Option<u32>,
    pub steam_user_rating: Option<ReviewCounts>,
    pub igdb_id: Option<u64>,
    pub igdb_genres: Seq<Seq<char>>,
    pub igdb_rating_centi: Option<u32>,
    pub steam_deck_compat: Option<SteamDeckCompat>,
    pub enriched_at: i64,
}

impl View for GameMetadata {
    type V = GameMetadataView;

    open spec fn view(&self) -> GameMetadataView {
        GameMetadataView {
            steam_app_id: self.steam_app_id,
            steam_tags: string_views(self.steam_tags@),
            steam_genres: string_views(self.steam_genres@),
            metacritic_score: self.metacritic_score,
            steam_user_rating: self.steam_user_rating,
            igdb_id: self.igdb_id,
            igdb_genres: string_views(self.igdb_genres@),
            igdb_rating_centi: self.igdb_rating_centi,
            steam_deck_compat: self.steam_deck_compat,
            enriched_at: self.enriched_at,
        }
    }
}

impl Clone for GameMetadata {
    fn clone(&self) -> (r: GameMetadata)
        ensures
            r@ == self@,
    {
        GameMetadata {
            steam_app_id: self.steam_app_id,
            steam_tags: clone_strings(&self.steam_tags),
            steam_genres: clone_strings(&self.steam_genres),
            metacritic_score: self.metacritic_score,
            steam_user_rating: self.steam_user_rating,
            igdb_id: self.igdb_id,
            igdb_genres: clone_strings(&self.igdb_genres),
            igdb_rating_centi: self.igdb_rating_centi,
            steam_deck_compat: self.steam_deck_compat,
            enriched_at: self.enriched_at,
        }
    }
}

} // verus!
