use vstd::prelude::*;

use crate::text::{concat, decimal, u64_to_string};

verus! {

/// A bearer token for the IGDB API.
#[derive(Debug)]
pub struct IgdbToken(pub String);

/// The Apicalypse query that looks a game up by its Steam app id
/// (`external_games.category = 1` is Steam).
pub open spec fn igdb_query_spec(steam_app_id: u32) -> Seq<char> {
    "fields id,genres.name,aggregated_rating; where external_games.uid = \""@ + decimal(
        steam_app_id as nat,
    ) + "\" & external_games.category = 1; limit 1;"@
}

pub fn igdb_query(steam_app_id: u32) -> (r: String)
    ensures
        r@ == igdb_query_spec(steam_app_id),
{
    let n = u64_to_string(steam_app_id as u64);
    let a = concat(
        "fields id,genres.name,aggregated_rating; where external_games.uid = \"",
        n.as_str(),
    );
    concat(a.as_str(), "\" & external_games.category = 1; limit 1;")
}

/// The `Authorization` header value for a token.
pub fn bearer_header(token: &IgdbToken) -> (r: String)
    ensures
        r@ == "Bearer "@ + token.0@,
{
    concat("Bearer ", token.0.as_str())
}

} // verus!
