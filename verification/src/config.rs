use vstd::prelude::*;

use crate::text::{join_path, path_join, trim, trim_seq};

verus! {

/// The program's settings.
#[derive(Debug)]
pub struct Config {
    pub auth: AuthConfig,
    pub sync: SyncConfig,
    pub steam: SteamConfig,
    pub igdb: IgdbConfig,
    pub export: ExportConfig,
    pub ui: UiConfig,
}

#[derive(Debug)]
pub struct AuthConfig {
    /// Value of the _simpleauth_sess cookie from browser devtools
    pub session_cookie: String,
}

#[derive(Debug)]
pub struct SyncConfig {
    /// Minutes between auto-refresh; 0 = manual only
    pub auto_refresh_interval: u32,
    pub max_concurrent_requests: usize,
    pub enable_steam_enrichment: bool,
    pub enable_igdb_enrichment: bool,
}

#[derive(Debug)]
pub struct SteamConfig {
    pub api_key: String,
    /// 64-bit SteamID
    pub steam_id: String,
}

#[derive(Debug)]
pub struct IgdbConfig {
    pub client_id: String,
    pub client_secret: String,
}

#[derive(Debug)]
pub struct ExportConfig {
    pub default_export_dir: String,
}

#[derive(Debug)]
pub struct UiConfig {
    pub tick_rate_ms: u64,
    pub default_sort: String,
    pub show_redeemed: bool,
    pub show_expired: bool,
    /// Column IDs to display, in order. Valid values: name, platform, status, bundle,
    /// purchase_date, expiry, metacritic, user_rating, steam_deck
    pub columns: Vec<String>,
}

impl Default for AuthConfig {
    fn default() -> (r: AuthConfig)
        ensures
            r.session_cookie@.len() == 0,
    {
        AuthConfig { session_cookie: String::new() }
    }
}

impl Default for SyncConfig {
    fn default() -> (r: SyncConfig)
        ensures
            r.auto_refresh_interval == 0,
            r.max_concurrent_requests == 4,
            !r.enable_steam_enrichment,
            !r.enable_igdb_enrichment,
    {
        SyncConfig {
            auto_refresh_interval: 0,
            max_concurrent_requests: 4,
            enable_steam_enrichment: false,
            enable_igdb_enrichment: false,
        }
    }
}

impl Default for SteamConfig {
    fn default() -> (r: SteamConfig)
        ensures
            r.api_key@.len() == 0,
            r.steam_id@.len() == 0,
    {
        SteamConfig { api_key: String::new(), steam_id: String::new() }
    }
}

impl Default for IgdbConfig {
    fn default() -> (r: IgdbConfig)
        ensures
            r.client_id@.len() == 0,
            r.client_secret@.len() == 0,
    {
        IgdbConfig { client_id: String::new(), client_secret: String::new() }
    }
}

impl Default for ExportConfig {
    fn default() -> (r: ExportConfig)
        ensures
            r.default_export_dir@ == "~/Downloads"@,
    {
        ExportConfig { default_export_dir: "~/Downloads".to_owned() }
    }
}

/// The columns shown when the configuration names none.
pub open spec fn default_column_names() -> Seq<Seq<char>> {
    seq!["name"@, "platform"@, "status"@, "bundle"@]
}

impl UiConfig {
    /// The default columns: name, platform, status, bundle.
    pub fn default_columns() -> (r: Vec<String>)
        ensures
            r@.map_values(|s: String| s@) == default_column_names(),
    {
        let r = vec![
            "name".to_owned(),
            "platform".to_owned(),
            "status".to_owned(),
            "bundle".to_owned(),
        ];
        assert(r@.map_values(|s: String| s@) =~= default_column_names());
        r
    }
}

impl Default for UiConfig {
    fn default() -> (r: UiConfig)
        ensures
            r.tick_rate_ms == 250,
            r.default_sort@ == "purchase_date_desc"@,
            r.show_redeemed,
            !r.show_expired,
            r.columns@.map_values(|s: String| s@) == default_column_names(),
    {
        UiConfig {
            tick_rate_ms: 250,
            default_sort: "purchase_date_desc".to_owned(),
            show_redeemed: true,
            show_expired: false,
            columns: UiConfig::default_columns(),
        }
    }
}

impl Default for Config {
    fn default() -> (r: Config)
        ensures
            r.auth.session_cookie@.len() == 0,
            r.sync.max_concurrent_requests == 4,
            r.sync.auto_refresh_interval == 0,
            !r.sync.enable_steam_enrichment,
            !r.sync.enable_igdb_enrichment,
            r.steam.api_key@.len() == 0,
            r.steam.steam_id@.len() == 0,
            r.igdb.client_id@.len() == 0,
            r.igdb.client_secret@.len() == 0,
            r.export.default_export_dir@ == "~/Downloads"@,
            r.ui.tick_rate_ms == 250,
            r.ui.default_sort@ == "purchase_date_desc"@,
            r.ui.show_redeemed,
            !r.ui.show_expired,
            r.ui.columns@.map_values(|s: String| s@) == default_column_names(),
    {
        Config {
            auth: AuthConfig::default(),
            sync: SyncConfig::default(),
            steam: SteamConfig::default(),
            igdb: IgdbConfig::default(),
            export: ExportConfig::default(),
            ui: UiConfig::default(),
        }
    }
}

/// The name of the cache database file in the data directory.
pub open spec fn db_file_name() -> Seq<char> {
    "humble-manager.db"@
}

impl Config {
    /// The cache database's path inside the data directory `data_dir`.
    pub fn db_path(data_dir: &str) -> (r: String)
        ensures
            r@ == path_join(data_dir@, db_file_name()),
    {
        join_path(data_dir, "humble-manager.db")
    }

    /// Whether no session cookie is configured (a blank one counts as none).
    pub fn needs_auth(&self) -> (r: bool)
        ensures
            r == (trim_seq(self.auth.session_cookie@).len() == 0),
    {
        let t = trim(self.auth.session_cookie.as_str());
        t.unicode_len() == 0
    }
}

} // verus!
