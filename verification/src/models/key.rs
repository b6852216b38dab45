use vstd::prelude::*;

use crate::text::{
    ascii_lowercase, is_ascii_text, lemma_ascii_lowercase_idempotent,
    clone_strings, concat, decimal, str_eq, string_views, to_lowercase, u64_to_string,
    unicode_lowercase,
};

verus! {

// ── Platform ────────────────────────────────────────────────────────────────

/// The store or launcher a key is redeemed on.
#[derive(Debug, Clone, PartialEq, Eq, Hash)]
pub enum Platform {
    Steam,
    Gog,
    EpicGames,
    Itch,
    DrmFree,
    HumbleApp,
    Ubisoft,
    BattleNet,
    Other(String),
}

/// A platform as a mathematical value: `Other` holds the characters of its name.
pub enum PlatformView {
    Steam,
    Gog,
    EpicGames,
    Itch,
    DrmFree,
    HumbleApp,
    Ubisoft,
    BattleNet,
    Other(Seq<char>),
}

impl View for Platform {
    type V = PlatformView;

    open spec fn view(&self) -> PlatformView {
        match self {
            Platform::Steam => PlatformView::Steam,
            Platform::Gog => PlatformView::Gog,
            Platform::EpicGames => PlatformView::EpicGames,
            Platform::Itch => PlatformView::Itch,
            Platform::DrmFree => PlatformView::DrmFree,
            Platform::HumbleApp => PlatformView::HumbleApp,
            Platform::Ubisoft => PlatformView::Ubisoft,
            Platform::BattleNet => PlatformView::BattleNet,
            Platform::Other(s) => PlatformView::Other(s@),
        }
    }
}

/// The platform that a lowercased platform name stands for.
pub open spec fn platform_from_lower(s: Seq<char>) -> PlatformView {
    if s == "steam"@ {
        PlatformView::Steam
    } else if s == "gog"@ || s == "gog_game"@ {
        PlatformView::Gog
    } else if s == "epic"@ || s == "epic_games"@ || s == "epicgames"@ {
        PlatformView::EpicGames
    } else if s == "itch"@ || s == "itch.io"@ {
        PlatformView::Itch
    } else if s == "download"@ || s == "drm_free"@ || s == "drmfree"@ {
        PlatformView::DrmFree
    } else if s == "humble_app"@ || s == "humble"@ {
        PlatformView::HumbleApp
    } else if s == "ubisoft"@ || s == "uplay"@ {
        PlatformView::Ubisoft
    } else if s == "battlenet"@ || s == "battle.net"@ {
        PlatformView::BattleNet
    } else {
        PlatformView::Other(s)
    }
}

pub open spec fn platform_short_label(p: PlatformView) -> Seq<char> {
    match p {
        PlatformView::Steam => "STM"@,
        PlatformView::Gog => "GOG"@,
        PlatformView::EpicGames => "EPC"@,
        PlatformView::Itch => "ITCH"@,
        PlatformView::DrmFree => "DRM"@,
        PlatformView::HumbleApp => "HMB"@,
        PlatformView::Ubisoft => "UBI"@,
        PlatformView::BattleNet => "BTN"@,
        PlatformView::Other(_) => "???"@,
    }
}

pub open spec fn platform_display_name(p: PlatformView) -> Seq<char> {
    match p {
        PlatformView::Steam => "Steam"@,
        PlatformView::Gog => "GOG"@,
        PlatformView::EpicGames => "Epic"@,
        PlatformView::Itch => "Itch.io"@,
        PlatformView::DrmFree => "DRM-free"@,
        PlatformView::HumbleApp => "Humble App"@,
        PlatformView::Ubisoft => "Ubisoft"@,
        PlatformView::BattleNet => "Battle.net"@,
        PlatformView::Other(s) => s,
    }
}

// ── Percent-encoding (urlencoding::encode) ──────────────────────────────────

/// Bytes that `urlencoding::encode` leaves as they are: ASCII alphanumerics and `-_.~`.
pub open spec fn is_url_safe_byte(b: u8) -> bool {
    (48 <= b <= 57) || (65 <= b <= 90) || (97 <= b <= 122) || b == 45 || b == 46 || b == 95
        || b == 126
}

/// The upper-case hexadecimal digit for `d` (0..=15).
pub open spec fn hex_upper(d: u8) -> char {
    if d < 10 {
        ((48 + d) as u8) as char
    } else {
        ((55 + d) as u8) as char
    }
}

/// The characters that stand for one byte in a percent-encoded string.
pub open spec fn url_encode_byte(b: u8) -> Seq<char> {
    if is_url_safe_byte(b) {
        seq![b as char]
    } else {
        seq!['%', hex_upper(b / 16), hex_upper(b % 16)]
    }
}

/// Percent-encoding of a byte sequence.
pub open spec fn url_encode_bytes(bs: Seq<u8>) -> Seq<char>
    decreases bs.len(),
{
    if bs.len() == 0 {
        Seq::empty()
    } else {
        url_encode_byte(bs[0]) + url_encode_bytes(bs.drop_first())
    }
}

/// Percent-encoding of the UTF-8 bytes of `s`.
pub open spec fn url_encode(s: Seq<char>) -> Seq<char> {
    url_encode_bytes(vstd::utf8::encode_utf8(s))
}

/// `urlencoding::encode`: percent-encodes every UTF-8 byte of `s` except ASCII
/// alphanumerics and `-`, `_`, `.`, `~`, with upper-case hex digits.
#[verifier::external_body]
fn url_encoded(s: &str) -> (r: String)
    ensures
        r@ == url_encode(s@),
{
    urlencoding::encode(s).into_owned()
}

/// The store page for `p`, given the game's name and Steam app id.
pub open spec fn store_url_spec(p: PlatformView, name: Seq<char>, steam_app_id: Option<u32>) -> Seq<
    char,
> {
    let q = url_encode(name);
    match p {
        PlatformView::Steam => match steam_app_id {
            Some(id) => "https://store.steampowered.com/app/"@ + decimal(id as nat),
            None => "https://store.steampowered.com/search/?term="@ + q,
        },
        PlatformView::Gog => "https://www.gog.com/en/games?query="@ + q,
        PlatformView::EpicGames => "https://store.epicgames.com/en-US/browse?q="@ + q,
        PlatformView::Ubisoft => "https://store.ubisoft.com/en-gb/search?searchText="@ + q,
        PlatformView::Itch => "https://itch.io/search?q="@ + q,
        PlatformView::BattleNet => "https://us.battle.net/shop/"@,
        _ => "https://store.steampowered.com/search/?term="@ + q,
    }
}

impl Platform {
    /// Parses a platform name, ignoring case (Unicode lowercase of `s`, then
    /// [`Platform::from_lowercase`]).
    pub fn from_str(s: &str) -> (r: Platform)
        ensures
            r@ == platform_from_lower(unicode_lowercase(s@)),
            is_ascii_text(s@) ==> r@ == platform_from_lower(ascii_lowercase(s@)),
    {
        let lower = to_lowercase(s);
        Platform::from_lowercase(lower.as_str())
    }

    /// The platform a lowercased name stands for; unknown names become `Other`.
    pub fn from_lowercase(s: &str) -> (r: Platform)
        ensures
            r@ == platform_from_lower(s@),
    {
        if str_eq(s, "steam") {
            Platform::Steam
        } else if str_eq(s, "gog") || str_eq(s, "gog_game") {
            Platform::Gog
        } else if str_eq(s, "epic") || str_eq(s, "epic_games") || str_eq(s, "epicgames") {
            Platform::EpicGames
        } else if str_eq(s, "itch") || str_eq(s, "itch.io") {
            Platform::Itch
        } else if str_eq(s, "download") || str_eq(s, "drm_free") || str_eq(s, "drmfree") {
            Platform::DrmFree
        } else if str_eq(s, "humble_app") || str_eq(s, "humble") {
            Platform::HumbleApp
        } else if str_eq(s, "ubisoft") || str_eq(s, "uplay") {
            Platform::Ubisoft
        } else if str_eq(s, "battlenet") || str_eq(s, "battle.net") {
            Platform::BattleNet
        } else {
            Platform::Other(s.to_owned())
        }
    }

    pub fn short_label(&self) -> (r: &'static str)
        ensures
            r@ == platform_short_label(self@),
    {
        match self {
            Platform::Steam => "STM",
            Platform::Gog => "GOG",
            Platform::EpicGames => "EPC",
            Platform::Itch => "ITCH",
            Platform::DrmFree => "DRM",
            Platform::HumbleApp => "HMB",
            Platform::Ubisoft => "UBI",
            Platform::BattleNet => "BTN",
            Platform::Other(_) => "???",
        }
    }

    pub fn display_name(&self) -> (r: &str)
        ensures
            r@ == platform_display_name(self@),
    {
        match self {
            Platform::Steam => "Steam",
            Platform::Gog => "GOG",
            Platform::EpicGames => "Epic",
            Platform::Itch => "Itch.io",
            Platform::DrmFree => "DRM-free",
            Platform::HumbleApp => "Humble App",
            Platform::Ubisoft => "Ubisoft",
            Platform::BattleNet => "Battle.net",
            Platform::Other(s) => s.as_str(),
        }
    }

    /// A store search/page URL for this platform given a game name. Every
    /// platform has one: DRM-free, Humble App and unknown platforms fall back
    /// to a Steam search.
    pub fn store_url(&self, name: &str, steam_app_id: Option<u32>) -> (r: Option<String>)
        ensures
            r is Some,
            r->0@ == store_url_spec(self@, name@, steam_app_id),
    {
        let q = url_encoded(name);
        let url = match self {
            Platform::Steam => match steam_app_id {
                Some(id) => {
                    let n = u64_to_string(id as u64);
                    concat("https://store.steampowered.com/app/", n.as_str())
                },
                None => concat("https://store.steampowered.com/search/?term=", q.as_str()),
            },
            Platform::Gog => concat("https://www.gog.com/en/games?query=", q.as_str()),
            Platform::EpicGames => concat("https://store.epicgames.com/en-US/browse?q=", q.as_str()),
            Platform::Ubisoft => concat(
                "https://store.ubisoft.com/en-gb/search?searchText=",
                q.as_str(),
            ),
            Platform::Itch => concat("https://itch.io/search?q=", q.as_str()),
            Platform::BattleNet => "https://us.battle.net/shop/".to_owned(),
            _ => concat("https://store.steampowered.com/search/?term=", q.as_str()),
        };
        Some(url)
    }

    /// Whether `self` and `other` are the same platform.
    pub fn same_as(&self, other: &Platform) -> (r: bool)
        ensures
            r == (self@ == other@),
    {
        match (self, other) {
            (Platform::Steam, Platform::Steam) => true,
            (Platform::Gog, Platform::Gog) => true,
            (Platform::EpicGames, Platform::EpicGames) => true,
            (Platform::Itch, Platform::Itch) => true,
            (Platform::DrmFree, Platform::DrmFree) => true,
            (Platform::HumbleApp, Platform::HumbleApp) => true,
            (Platform::Ubisoft, Platform::Ubisoft) => true,
            (Platform::BattleNet, Platform::BattleNet) => true,
            (Platform::Other(a), Platform::Other(b)) => str_eq(a.as_str(), b.as_str()),
            _ => false,
        }
    }

    /// A copy of this platform.
    pub fn duplicate(&self) -> (r: Platform)
        ensures
            r@ == self@,
    {
        match self {
            Platform::Steam => Platform::Steam,
            Platform::Gog => Platform::Gog,
            Platform::EpicGames => Platform::EpicGames,
            Platform::Itch => Platform::Itch,
            Platform::DrmFree => Platform::DrmFree,
            Platform::HumbleApp => Platform::HumbleApp,
            Platform::Ubisoft => Platform::Ubisoft,
            Platform::BattleNet => Platform::BattleNet,
            Platform::Other(s) => Platform::Other(s.clone()),
        }
    }
}

// ── Redeem status ───────────────────────────────────────────────────────────

/// Whether a key has been redeemed.
#[derive(Debug, Clone, Copy, PartialEq, Eq, Structural)]
pub enum RedeemStatus {
    Unredeemed,
    Redeemed,
    Expired,
    Unknown,
}

pub open spec fn redeem_status_from(s: Seq<char>) -> RedeemStatus {
    if s == "redeemed"@ {
        RedeemStatus::Redeemed
    } else if s == "expired"@ {
        RedeemStatus::Expired
    } else if s == "unredeemed"@ {
        RedeemStatus::Unredeemed
    } else {
        RedeemStatus::Unknown
    }
}

pub open spec fn redeem_status_text(r: RedeemStatus) -> Seq<char> {
    match r {
        RedeemStatus::Unredeemed => "unredeemed"@,
        RedeemStatus::Redeemed => "redeemed"@,
        RedeemStatus::Expired => "expired"@,
        RedeemStatus::Unknown => "unknown"@,
    }
}

impl RedeemStatus {
    /// Parses the stored form of a status (case-sensitive); anything else is `Unknown`.
    pub fn from_str(s: &str) -> (r: RedeemStatus)
        ensures
            r == redeem_status_from(s@),
    {
        if str_eq(s, "redeemed") {
            RedeemStatus::Redeemed
        } else if str_eq(s, "expired") {
            RedeemStatus::Expired
        } else if str_eq(s, "unredeemed") {
            RedeemStatus::Unredeemed
        } else {
            RedeemStatus::Unknown
        }
    }

    pub fn as_str(&self) -> (r: &'static str)
        ensures
            r@ == redeem_status_text(*self),
    {
        match self {
            RedeemStatus::Unredeemed => "unredeemed",
            RedeemStatus::Redeemed => "redeemed",
            RedeemStatus::Expired => "expired",
            RedeemStatus::Unknown => "unknown",
        }
    }
}

impl Default for RedeemStatus {
    fn default() -> (r: RedeemStatus)
        ensures
            r == RedeemStatus::Unredeemed,
    {
        RedeemStatus::Unredeemed
    }
}

/// Parsing a platform name ignores the case of its ASCII letters: an ASCII
/// name and its lowercase form name the same platform.
pub proof fn law_platform_name_ignores_case(s: Seq<char>)
    requires
        is_ascii_text(s),
    ensures
        is_ascii_text(ascii_lowercase(s)),
        platform_from_lower(ascii_lowercase(ascii_lowercase(s))) == platform_from_lower(
            ascii_lowercase(s),
        ),
{
    lemma_ascii_lowercase_idempotent(s);
}

/// The stored form of a status reads back as the same status.
pub proof fn law_redeem_status_round_trip(r: RedeemStatus)
    ensures
        redeem_status_from(redeem_status_text(r)) == r,
{
    reveal_strlit("unredeemed");
    reveal_strlit("redeemed");
    reveal_strlit("expired");
    reveal_strlit("unknown");
    match r {
        RedeemStatus::Unredeemed => {
            assert("unredeemed"@.len() != "redeemed"@.len());
            assert("unredeemed"@.len() != "expired"@.len());
        },
        RedeemStatus::Redeemed => {},
        RedeemStatus::Expired => {
            assert("expired"@.len() != "redeemed"@.len());
        },
        RedeemStatus::Unknown => {
            assert("unknown"@.len() != "redeemed"@.len());
            assert("unknown"@[0] != "expired"@[0]);
            assert("unknown"@.len() != "unredeemed"@.len());
        },
    }
}

// ── Game key ────────────────────────────────────────────────────────────────

/// A key from a Humble order. Dates are Unix timestamps in seconds (UTC).
#[derive(Debug)]
pub struct GameKey {
    pub id: String,
    /// Humble's opaque key ID — unique across all keys
    pub tpkd_machine_name: String,
    pub human_name: String,
    pub platform: Platform,
    pub key_type: String,
    /// None until the user reveals the key
    pub redeemed_key_val: Option<String>,
    pub is_revealed: bool,
    pub redeem_status: RedeemStatus,
    /// The machine name of the bundle this key came from
    pub bundle_machine_name: String,
    /// Denormalized for display without a join
    pub bundle_human_name: String,
    pub purchase_date: i64,
    /// The fraction of a second of the purchase time, in nanoseconds (0 for
    /// keys read from the cache, which keeps whole seconds)
    pub purchase_nanos: u32,
    pub expiry_date: Option<i64>,
    pub steam_app_id: Option<u32>,
    pub igdb_genres: Vec<String>,
    pub is_owned_on_steam: Option<bool>,
}

pub struct GameKeyView {
    pub id: Seq<char>,
    pub tpkd_machine_name: Seq<char>,
    pub human_name: Seq<char>,
    pub platform: PlatformView,
    pub key_type: Seq<char>,
    pub redeemed_key_val: Option<Seq<char>>,
    pub is_revealed: bool,
    pub redeem_status: RedeemStatus,
    pub bundle_machine_name: Seq<char>,
    pub bundle_human_name: Seq<char>,
    pub purchase_date: i64,
    pub purchase_nanos: u32,
    pub expiry_date: Option<i64>,
    pub steam_app_id: Option<u32>,
    pub igdb_genres: Seq<Seq<char>>,
    pub is_owned_on_steam: Option<bool>,
}

/// The view of an optional string.
pub open spec fn opt_view(s: Option<String>) -> Option<Seq<char>> {
    match s {
        Some(s) => Some(s@),
        None => None,
    }
}

impl View for GameKey {
    type V = GameKeyView;

    open spec fn view(&self) -> GameKeyView {
        GameKeyView {
            id: self.id@,
            tpkd_machine_name: self.tpkd_machine_name@,
            human_name: self.human_name@,
            platform: self.platform@,
            key_type: self.key_type@,
            redeemed_key_val: opt_view(self.redeemed_key_val),
            is_revealed: self.is_revealed,
            redeem_status: self.redeem_status,
            bundle_machine_name: self.bundle_machine_name@,
            bundle_human_name: self.bundle_human_name@,
            purchase_date: self.purchase_date,
            purchase_nanos: self.purchase_nanos,
            expiry_date: self.expiry_date,
            steam_app_id: self.steam_app_id,
            igdb_genres: string_views(self.igdb_genres@),
            is_owned_on_steam: self.is_owned_on_steam,
        }
    }
}

/// The views of a sequence of keys.
pub open spec fn keys_view(s: Seq<GameKey>) -> Seq<GameKeyView> {
    s.map_values(|k: GameKey| k@)
}

/// A copy of an optional string.
pub fn clone_opt_string(s: &Option<String>) -> (r: Option<String>)
    ensures
        opt_view(r) == opt_view(*s),
{
    match s {
        Some(v) => Some(v.clone()),
        None => None,
    }
}

impl Clone for GameKey {
    fn clone(&self) -> (r: GameKey)
        ensures
            r@ == self@,
    {
        GameKey {
            id: self.id.clone(),
            tpkd_machine_name: self.tpkd_machine_name.clone(),
            human_name: self.human_name.clone(),
            platform: self.platform.duplicate(),
            key_type: self.key_type.clone(),
            redeemed_key_val: clone_opt_string(&self.redeemed_key_val),
            is_revealed: self.is_revealed,
            redeem_status: self.redeem_status,
            bundle_machine_name: self.bundle_machine_name.clone(),
            bundle_human_name: self.bundle_human_name.clone(),
            purchase_date: self.purchase_date,
            purchase_nanos: self.purchase_nanos,
            expiry_date: self.expiry_date,
            steam_app_id: self.steam_app_id,
            igdb_genres: clone_strings(&self.igdb_genres),
            is_owned_on_steam: self.is_owned_on_steam,
        }
    }
}

} // verus!
