use humble_manager::models::choice::ChoicePick;
use humble_manager::models::filter::{SortOrder, SourceFilter};
use humble_manager::models::key::{GameKey, Platform, RedeemStatus};
use humble_manager::models::metadata::{GameMetadata, ReviewCounts};
use humble_manager::tui::state::{ListItem, Mode, UiState};

fn key(tpkd: &str, name: &str, platform: Platform, status: RedeemStatus, purchased: i64) -> GameKey {
    GameKey {
        id: format!("id-{}", tpkd),
        tpkd_machine_name: tpkd.to_string(),
        human_name: name.to_string(),
        platform,
        key_type: "Steam".to_string(),
        redeemed_key_val: None,
        is_revealed: false,
        redeem_status: status,
        bundle_machine_name: format!("bundle_{}", tpkd),
        bundle_human_name: format!("Bundle {}", name),
        purchase_date: purchased,
        purchase_nanos: 0,
        expiry_date: None,
        steam_app_id: None,
        igdb_genres: vec![],
        is_owned_on_steam: None,
    }
}

fn pick(machine: &str, name: &str, month: &str, expired: bool) -> ChoicePick {
    ChoicePick {
        machine_name: machine.to_string(),
        human_name: name.to_string(),
        platform: Platform::Steam,
        steam_app_id: None,
        genres: vec![],
        claim_deadline: None,
        num_days_until_expired: None,
        is_expired: expired,
        is_owned_on_steam: None,
        choice_month: month.to_string(),
    }
}

fn names(s: &UiState) -> Vec<String> {
    s.visible.iter().map(|i| i.human_name().to_string()).collect()
}

fn loaded() -> UiState {
    let mut s = UiState::new("purchase_date_desc", true);
    s.all_keys = vec![
        key("a", "Portal", Platform::Steam, RedeemStatus::Unredeemed, 100),
        key("b", "Braid", Platform::Gog, RedeemStatus::Redeemed, 300),
        key("c", "Celeste", Platform::Steam, RedeemStatus::Expired, 200),
        key("d", "Dead Cells", Platform::EpicGames, RedeemStatus::Unredeemed, 300),
    ];
    s.all_picks = vec![
        pick("e", "Everspace", "april_2025_choice", false),
        pick("a", "Portal", "april_2025_choice", false),
        pick("f", "Frostpunk", "march_2025_choice", true),
    ];
    s
}

#[test]
fn new_state_is_empty_and_normal() {
    let s = UiState::new("name_asc", false);
    assert_eq!(s.mode, Mode::Normal);
    assert!(s.visible.is_empty());
    assert_eq!(s.selected, None);
    assert_eq!(s.filter.sort, SortOrder::PurchaseDateDesc);
    assert!(!s.filter.show_expired);
    assert_eq!(s.filter.source, SourceFilter::All);
}

#[test]
fn apply_filters_hides_expired_and_claimed_and_sorts_newest_first() {
    let mut s = loaded();
    s.apply_filters();
    // Newest first; ties keep load order; picks count as the epoch.
    assert_eq!(names(&s), vec!["Braid", "Dead Cells", "Portal", "Everspace"]);
    assert_eq!(s.selected, Some(0));
}

#[test]
fn apply_filters_shows_expired_when_asked() {
    let mut s = loaded();
    s.filter.show_expired = true;
    s.apply_filters();
    assert_eq!(
        names(&s),
        vec!["Braid", "Dead Cells", "Celeste", "Portal", "Everspace", "Frostpunk"]
    );
}

#[test]
fn status_filter_hides_picks_when_redeemed_only() {
    let mut s = loaded();
    s.filter.redeem_status = Some(RedeemStatus::Redeemed);
    s.apply_filters();
    assert_eq!(names(&s), vec!["Braid"]);
    s.filter.redeem_status = Some(RedeemStatus::Unredeemed);
    s.apply_filters();
    assert_eq!(names(&s), vec!["Dead Cells", "Portal", "Everspace"]);
}

#[test]
fn platform_and_source_filters() {
    let mut s = loaded();
    s.filter.platforms = vec![Platform::Steam];
    s.apply_filters();
    assert_eq!(names(&s), vec!["Portal", "Everspace"]);
    s.filter.platforms = vec![];
    s.filter.source = SourceFilter::Choice;
    s.apply_filters();
    assert_eq!(names(&s), vec!["Everspace"]);
    s.filter.source = SourceFilter::Keys;
    s.apply_filters();
    assert_eq!(names(&s), vec!["Braid", "Dead Cells", "Portal"]);
}

#[test]
fn search_is_fuzzy_and_case_insensitive() {
    let mut s = loaded();
    s.filter.search_query = "  DC ".to_string();
    s.apply_filters();
    assert_eq!(names(&s), vec!["Dead Cells"]);
    s.filter.search_query = "pl".to_string();
    s.apply_filters();
    assert_eq!(names(&s), vec!["Portal"]);
    s.filter.search_query = "zzz".to_string();
    s.apply_filters();
    assert!(names(&s).is_empty());
    assert_eq!(s.selected, None);
}

#[test]
fn sort_orders() {
    let mut s = loaded();
    s.filter.sort = SortOrder::NameAsc;
    s.apply_filters();
    assert_eq!(names(&s), vec!["Braid", "Dead Cells", "Everspace", "Portal"]);
    s.filter.sort = SortOrder::NameDesc;
    s.apply_filters();
    assert_eq!(names(&s), vec!["Portal", "Everspace", "Dead Cells", "Braid"]);
    s.filter.sort = SortOrder::PurchaseDateAsc;
    s.apply_filters();
    assert_eq!(names(&s), vec!["Everspace", "Portal", "Braid", "Dead Cells"]);
    s.filter.sort = SortOrder::PlatformAsc;
    s.apply_filters();
    // EPC < GOG < STM; ties keep their order
    assert_eq!(names(&s), vec!["Dead Cells", "Braid", "Portal", "Everspace"]);
    s.filter.sort = SortOrder::BundleAsc;
    s.apply_filters();
    assert_eq!(names(&s), vec!["Braid", "Dead Cells", "Portal", "Everspace"]);
}

#[test]
fn expiry_sort_puts_unknown_last() {
    let mut s = loaded();
    s.all_keys[0].expiry_date = Some(500);
    s.all_keys[3].expiry_date = Some(50);
    s.filter.sort = SortOrder::ExpiryAsc;
    s.apply_filters();
    assert_eq!(names(&s), vec!["Dead Cells", "Portal", "Braid", "Everspace"]);
}

#[test]
fn metacritic_sort_uses_metadata() {
    let mut s = loaded();
    s.all_keys[0].steam_app_id = Some(1);
    s.all_keys[1].steam_app_id = Some(2);
    s.metadata_map = vec![meta(1, Some(70), Some((9, 1))), meta(2, Some(90), Some((1, 1)))];
    s.filter.sort = SortOrder::MetacriticDesc;
    s.apply_filters();
    assert_eq!(names(&s), vec!["Braid", "Portal", "Dead Cells", "Everspace"]);
    s.filter.sort = SortOrder::UserRatingDesc;
    s.apply_filters();
    assert_eq!(names(&s), vec!["Portal", "Braid", "Dead Cells", "Everspace"]);
}

fn meta(id: u32, mc: Option<u32>, rating: Option<(u64, u64)>) -> GameMetadata {
    GameMetadata {
        steam_app_id: id,
        steam_tags: vec![],
        steam_genres: vec![],
        metacritic_score: mc,
        steam_user_rating: rating.map(|(positive, negative)| ReviewCounts { positive, negative }),
        igdb_id: None,
        igdb_genres: vec![],
        igdb_rating_centi: None,
        steam_deck_compat: None,
        enriched_at: 0,
    }
}

#[test]
fn selection_is_clamped_after_filtering() {
    let mut s = loaded();
    s.apply_filters();
    s.selected = Some(3);
    s.filter.source = SourceFilter::Keys;
    s.apply_filters();
    assert_eq!(s.selected, Some(2));
}

#[test]
fn navigation_stays_in_bounds() {
    let mut s = loaded();
    s.apply_filters();
    s.selected = None;
    s.move_down();
    assert_eq!(s.selected, Some(0));
    s.move_up();
    assert_eq!(s.selected, Some(0));
    s.move_down();
    s.move_down();
    s.move_down();
    s.move_down();
    assert_eq!(s.selected, Some(3));
    s.jump_top();
    assert_eq!(s.selected, Some(0));
    s.jump_bottom();
    assert_eq!(s.selected, Some(3));
    s.page_up(15);
    assert_eq!(s.selected, Some(0));
    s.page_down(2);
    assert_eq!(s.selected, Some(2));
    s.page_down(15);
    assert_eq!(s.selected, Some(3));
    match s.selected_item() {
        Some(ListItem::Choice(p)) => assert_eq!(p.human_name, "Everspace"),
        _ => panic!("expected the pick"),
    }
}

#[test]
fn navigation_on_empty_list_does_nothing() {
    let mut s = UiState::new("", true);
    s.move_down();
    s.move_up();
    s.jump_top();
    s.jump_bottom();
    s.page_down(15);
    s.page_up(15);
    assert_eq!(s.selected, None);
    assert!(s.selected_item().is_none());
}

#[test]
fn list_item_labels() {
    let k = ListItem::Key(key("a", "Portal", Platform::Gog, RedeemStatus::Redeemed, 1));
    let p = ListItem::Choice(pick("e", "Everspace", "april_2025_choice", false));
    assert_eq!(k.status_label(), "●");
    assert_eq!(p.status_label(), "⊕");
    assert_eq!(k.platform_label(), "GOG");
    assert_eq!(k.bundle_name(), "Bundle Portal");
    assert_eq!(p.bundle_name(), "april_2025_choice");
    assert!(p.is_choice());
    assert!(!k.is_choice());
}

#[test]
fn genre_filter_keeps_items_with_a_matching_genre_or_tag() {
    let mut s = loaded();
    s.all_keys[0].igdb_genres = vec!["Puzzle".to_string()];
    s.all_keys[3].steam_app_id = Some(588650);
    let mut m = meta(588650, None, None);
    m.steam_tags = vec!["Roguelite".to_string()];
    s.metadata_map = vec![m];
    s.all_picks[0].genres = vec!["Space".to_string(), "Puzzle".to_string()];
    s.filter.genre_filter = vec!["Puzzle".to_string(), "Roguelite".to_string()];
    s.apply_filters();
    assert_eq!(names(&s), vec!["Dead Cells", "Portal", "Everspace"]);
    s.filter.genre_filter = vec![];
    s.apply_filters();
    assert_eq!(names(&s), vec!["Braid", "Dead Cells", "Portal", "Everspace"]);
}

#[test]
fn purchase_times_within_a_second_sort_by_fraction() {
    let mut s = UiState::new("purchase_date_desc", true);
    let mut early = key("a", "Early", Platform::Steam, RedeemStatus::Unredeemed, 100);
    early.purchase_nanos = 250_000_000;
    let mut late = key("b", "Late", Platform::Steam, RedeemStatus::Unredeemed, 100);
    late.purchase_nanos = 750_000_000;
    s.all_keys = vec![early, late];
    s.apply_filters();
    assert_eq!(names(&s), vec!["Late", "Early"]);
    s.filter.sort = SortOrder::PurchaseDateAsc;
    s.apply_filters();
    assert_eq!(names(&s), vec!["Early", "Late"]);
}

#[test]
fn user_rating_sort_compares_exact_shares() {
    let mut s = loaded();
    s.all_keys[0].steam_app_id = Some(1);
    s.all_keys[1].steam_app_id = Some(2);
    s.all_keys[3].steam_app_id = Some(3);
    // 2/3 and 666/1000 differ only past the thousandth
    s.metadata_map = vec![meta(1, None, Some((2, 1))), meta(2, None, Some((666, 334))), meta(3, None, Some((0, 0)))];
    s.filter.sort = SortOrder::UserRatingDesc;
    s.apply_filters();
    assert_eq!(names(&s), vec!["Portal", "Braid", "Dead Cells", "Everspace"]);
}
