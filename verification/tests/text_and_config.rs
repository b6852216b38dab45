use humble_manager::config::{Config, UiConfig};
use humble_manager::models::choice::ChoicePick;
use humble_manager::models::key::Platform;
use humble_manager::text::{join, join_path, parse_i32, trim, u64_to_string};
use humble_manager::tui::display::{
    active_columns, chip_text, col_header, enrich_status, format_duration, mode_label, shown_count,
    sync_status, truncate, ColumnId,
};
use humble_manager::tui::state::Mode;

#[test]
fn trim_removes_unicode_white_space() {
    assert_eq!(trim("  hello \t\n"), "hello");
    assert_eq!(trim("\u{3000}wide\u{00A0}"), "wide");
    assert_eq!(trim("   "), "");
    assert_eq!(trim("a b"), "a b");
}

#[test]
fn lowercase_is_unicode() {
    assert_eq!(Platform::from_str("ÉCOLE Steam"), Platform::Other("école steam".to_string()));
}

#[test]
fn decimal_numbers() {
    assert_eq!(u64_to_string(0), "0");
    assert_eq!(u64_to_string(1234567890), "1234567890");
    assert_eq!(u64_to_string(u64::MAX), "18446744073709551615");
}

#[test]
fn parse_i32_like_std() {
    let p = |s: &str| parse_i32(&s.chars().collect());
    assert_eq!(p("2025"), Some(2025));
    assert_eq!(p("+7"), Some(7));
    assert_eq!(p("-0"), Some(0));
    assert_eq!(p("-2147483648"), Some(i32::MIN));
    assert_eq!(p("2147483647"), Some(i32::MAX));
    assert_eq!(p("2147483648"), None);
    assert_eq!(p("99999999999999999999"), None);
    assert_eq!(p(""), None);
    assert_eq!(p("-"), None);
    assert_eq!(p("12a"), None);
    assert_eq!(p(" 1"), None);
    for s in ["1", "-15", "+0", "x", "--1", "007"] {
        assert_eq!(p(s), s.parse::<i32>().ok());
    }
}

#[test]
fn join_with_separator() {
    assert_eq!(join(&vec![], "; "), "");
    assert_eq!(join(&vec!["RPG".to_string()], "; "), "RPG");
    assert_eq!(join(&vec!["RPG".to_string(), "Action".to_string()], "; "), "RPG; Action");
}

#[test]
fn paths_join_like_pathbuf() {
    assert_eq!(join_path("/data", "cache.db"), "/data/cache.db");
    assert_eq!(join_path("/data/", "cache.db"), "/data/cache.db");
    assert_eq!(join_path("", "cache.db"), "cache.db");
    assert_eq!(join_path("/data", "/etc/x"), "/etc/x");
    assert_eq!(Config::db_path("/home/u/.local/share/humble-manager"), "/home/u/.local/share/humble-manager/humble-manager.db");
}

#[test]
fn config_defaults() {
    let c = Config::default();
    assert!(c.needs_auth());
    assert_eq!(c.sync.max_concurrent_requests, 4);
    assert_eq!(c.ui.tick_rate_ms, 250);
    assert_eq!(c.ui.default_sort, "purchase_date_desc");
    assert!(c.ui.show_redeemed);
    assert!(!c.ui.show_expired);
    assert_eq!(c.export.default_export_dir, "~/Downloads");
    assert_eq!(UiConfig::default_columns(), vec!["name", "platform", "status", "bundle"]);
}

#[test]
fn needs_auth_ignores_blank_cookies() {
    let mut c = Config::default();
    c.auth.session_cookie = " \t ".to_string();
    assert!(c.needs_auth());
    c.auth.session_cookie = "abc".to_string();
    assert!(!c.needs_auth());
}

fn pick_of_month(m: &str) -> ChoicePick {
    ChoicePick {
        machine_name: "x".to_string(),
        human_name: "X".to_string(),
        platform: Platform::Steam,
        steam_app_id: None,
        genres: vec![],
        claim_deadline: None,
        num_days_until_expired: None,
        is_expired: false,
        is_owned_on_steam: None,
        choice_month: m.to_string(),
    }
}

#[test]
fn month_date_of_choice_months() {
    assert_eq!(pick_of_month("april_2025_choice").month_date(), Some(1743465600));
    assert_eq!(pick_of_month("may_2024").month_date(), Some(1714521600));
    assert_eq!(pick_of_month("january_1900_choice").month_date(), Some(-2208988800));
    assert_eq!(pick_of_month("march_2000").month_date(), Some(951868800));
    assert_eq!(pick_of_month("december_262143").month_date(), None);
    assert_eq!(pick_of_month("smarch_2024_choice").month_date(), None);
    assert_eq!(pick_of_month("april_choice").month_date(), None);
    assert_eq!(pick_of_month("april_20x5_choice").month_date(), None);
    assert_eq!(pick_of_month("april_999999_choice").month_date(), None);
    assert_eq!(pick_of_month("").month_date(), None);
}

#[test]
fn truncate_to_width() {
    assert_eq!(truncate("short", 28), "short");
    assert_eq!(truncate("abcdef", 4), "abc…");
    assert_eq!(truncate("ééééé", 5), "ééééé");
    assert_eq!(truncate("", 0), "");
}

#[test]
fn durations() {
    assert_eq!(format_duration(0), "expired");
    assert_eq!(format_duration(-5), "expired");
    assert_eq!(format_duration(59), "0m");
    assert_eq!(format_duration(3 * 3600 + 7 * 60), "3h 7m");
    assert_eq!(format_duration(2 * 86400 + 5 * 3600 + 1), "2d 5h");
}

#[test]
fn status_texts() {
    assert_eq!(sync_status(None), " Press r to sync ");
    assert_eq!(sync_status(Some((3, 10))), " Syncing 3/10 ");
    assert_eq!(sync_status(Some((10, 10))), " Sync complete ");
    assert_eq!(enrich_status(None), "");
    assert_eq!(enrich_status(Some((0, 0))), " Enriching... ");
    assert_eq!(enrich_status(Some((2, 5))), " Enriching 2/5 ");
    assert_eq!(enrich_status(Some((5, 5))), " Enriched ");
    assert_eq!(mode_label(Mode::Auth), "  AUTH  ");
    assert_eq!(mode_label(Mode::SyncPrompt), " NORMAL ");
    assert_eq!(shown_count(3, 12), "  3/12 shown");
    assert_eq!(chip_text("Keys"), "[Keys]");
}

#[test]
fn columns() {
    let names: Vec<String> = ["name", "bogus", "steam_deck", "user_rating"]
        .iter()
        .map(|s| s.to_string())
        .collect();
    assert_eq!(
        active_columns(&names),
        vec![ColumnId::Name, ColumnId::SteamDeck, ColumnId::UserRating]
    );
    assert_eq!(col_header(ColumnId::Metacritic), "MC");
    assert_eq!(col_header(ColumnId::PurchaseDate), "Date");
    assert_eq!(ColumnId::from_name("expiry"), Some(ColumnId::Expiry));
}
