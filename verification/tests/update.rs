use humble_manager::models::choice::ChoicePick;
use humble_manager::models::filter::{SortOrder, SourceFilter};
use humble_manager::models::key::{GameKey, Platform, RedeemStatus};
use humble_manager::models::metadata::GameMetadata;
use humble_manager::tui::app_event::{
    AppEvent, Cmd, InputEvent, KeyCode, KeyPress, MOD_CONTROL, MOD_NONE, MOD_SHIFT,
};
use humble_manager::tui::state::{Mode, UiState};
use humble_manager::tui::update::{step, sync_prompt_message, update};

fn key(tpkd: &str, name: &str, purchased: i64) -> GameKey {
    GameKey {
        id: format!("id-{}", tpkd),
        tpkd_machine_name: tpkd.to_string(),
        human_name: name.to_string(),
        platform: Platform::Steam,
        key_type: "Steam".to_string(),
        redeemed_key_val: None,
        is_revealed: false,
        redeem_status: RedeemStatus::Unredeemed,
        bundle_machine_name: "humble_bundle_1".to_string(),
        bundle_human_name: "Humble Bundle 1".to_string(),
        purchase_date: purchased,
        purchase_nanos: 0,
        expiry_date: None,
        steam_app_id: Some(620),
        igdb_genres: vec![],
        is_owned_on_steam: None,
    }
}

fn pick(machine: &str, name: &str, month: &str) -> ChoicePick {
    ChoicePick {
        machine_name: machine.to_string(),
        human_name: name.to_string(),
        platform: Platform::Steam,
        steam_app_id: None,
        genres: vec![],
        claim_deadline: None,
        num_days_until_expired: None,
        is_expired: false,
        is_owned_on_steam: None,
        choice_month: month.to_string(),
    }
}

fn press(code: KeyCode) -> AppEvent {
    AppEvent::Input(InputEvent::Key(KeyPress { code, modifiers: MOD_NONE }))
}

fn press_with(code: KeyCode, modifiers: u8) -> AppEvent {
    AppEvent::Input(InputEvent::Key(KeyPress { code, modifiers }))
}

fn names(s: &UiState) -> Vec<String> {
    s.visible.iter().map(|i| i.human_name().to_string()).collect()
}

fn cache_loaded() -> UiState {
    let mut s = UiState::new("purchase_date_desc", true);
    let c = update(
        &mut s,
        AppEvent::CacheLoaded {
            keys: vec![key("a", "Portal", 100), key("b", "Braid", 200)],
            picks: vec![pick("p1", "Everspace", "april_2025_choice")],
        },
    );
    assert!(c.is_none());
    s
}

#[test]
fn cache_loaded_fills_the_list() {
    let s = cache_loaded();
    assert_eq!(names(&s), vec!["Braid", "Portal", "Everspace"]);
    assert_eq!(s.selected, Some(0));
}

#[test]
fn order_loaded_merges_by_machine_name() {
    let mut s = cache_loaded();
    let mut updated = key("a", "Portal (revealed)", 100);
    updated.redeemed_key_val = Some("AAAA-BBBB".to_string());
    update(&mut s, AppEvent::OrderLoaded { keys: vec![updated, key("c", "Celeste", 300)] });
    assert_eq!(s.all_keys.len(), 3);
    assert_eq!(s.all_keys[0].human_name, "Portal (revealed)");
    assert_eq!(s.all_keys[2].human_name, "Celeste");
    assert_eq!(names(&s), vec!["Celeste", "Braid", "Portal (revealed)", "Everspace"]);
}

#[test]
fn choice_picks_loaded_replaces_the_month() {
    let mut s = cache_loaded();
    s.all_picks.push(pick("m1", "Mars", "march_2025_choice"));
    update(
        &mut s,
        AppEvent::ChoicePicksLoaded {
            month: "april_2025_choice".to_string(),
            picks: vec![pick("p2", "Hades", "april_2025_choice")],
        },
    );
    let ps: Vec<&str> = s.all_picks.iter().map(|p| p.human_name.as_str()).collect();
    assert_eq!(ps, vec!["Mars", "Hades"]);
}

#[test]
fn progress_and_errors() {
    let mut s = UiState::new("", true);
    update(&mut s, AppEvent::OrderRefsLoaded(vec!["x".to_string(), "y".to_string()]));
    assert_eq!(s.sync_progress, Some((0, 2)));
    update(&mut s, AppEvent::SyncProgress { done: 1, total: 2, label: "x".to_string() });
    assert_eq!(s.sync_progress, Some((1, 2)));
    assert_eq!(s.sync_label, "x");
    update(&mut s, AppEvent::SyncError("boom".to_string()));
    assert_eq!(s.last_error, Some("boom".to_string()));
    update(&mut s, AppEvent::MetadataProgress { done: 3, total: 9 });
    assert_eq!(s.metadata_progress, Some((3, 9)));
    assert!(update(&mut s, AppEvent::Tick).is_none());
    assert!(update(&mut s, AppEvent::MetadataSyncComplete).is_none());
}

fn meta(id: u32, mc: u32) -> GameMetadata {
    GameMetadata {
        steam_app_id: id,
        steam_tags: vec![],
        steam_genres: vec![],
        metacritic_score: Some(mc),
        steam_user_rating: None,
        igdb_id: None,
        igdb_genres: vec![],
        igdb_rating_centi: None,
        steam_deck_compat: None,
        enriched_at: 0,
    }
}

#[test]
fn metadata_is_stored_per_app() {
    let mut s = UiState::new("", true);
    update(&mut s, AppEvent::AllMetadataLoaded(vec![meta(1, 50), meta(2, 60), meta(1, 70)]));
    assert_eq!(s.metadata_map.len(), 2);
    assert_eq!(s.metadata_map[0].metacritic_score, Some(70));
    update(&mut s, AppEvent::MetadataEnriched(meta(2, 99)));
    assert_eq!(s.metadata_map[1].metacritic_score, Some(99));
    update(&mut s, AppEvent::MetadataEnriched(meta(3, 10)));
    assert_eq!(s.metadata_map.len(), 3);
}

#[test]
fn never_synced_suggests_a_sync() {
    let mut s = UiState::new("", true);
    update(&mut s, AppEvent::SyncStateLoaded(None));
    assert_eq!(s.mode, Mode::SyncPrompt);
    assert_eq!(s.sync_prompt_msg, "never synced");
    // r syncs from the prompt; any other key dismisses it
    assert!(matches!(update(&mut s, press(KeyCode::Char('r'))), Some(Cmd::StartFullSync)));
    assert_eq!(s.mode, Mode::Normal);
}

#[test]
fn stale_message_counts_days() {
    assert_eq!(sync_prompt_message(None, 0), Some("never synced".to_string()));
    assert_eq!(sync_prompt_message(Some(0), 86400), None);
    assert_eq!(sync_prompt_message(Some(0), 86401), Some("1 day ago".to_string()));
    assert_eq!(sync_prompt_message(Some(0), 3 * 86400 + 5), Some("3 days ago".to_string()));
    assert_eq!(sync_prompt_message(Some(1000), 0), None);
}

#[test]
fn fresh_cache_does_not_prompt() {
    let mut s = UiState::new("", true);
    let now = std::time::SystemTime::now()
        .duration_since(std::time::UNIX_EPOCH)
        .unwrap()
        .as_secs() as i64;
    update(&mut s, AppEvent::SyncStateLoaded(Some(now)));
    assert_eq!(s.mode, Mode::Normal);
}

#[test]
fn normal_mode_keys() {
    let mut s = cache_loaded();
    update(&mut s, press(KeyCode::Char('j')));
    assert_eq!(s.selected, Some(1));
    update(&mut s, press(KeyCode::Up));
    assert_eq!(s.selected, Some(0));
    update(&mut s, press_with(KeyCode::Char('G'), MOD_SHIFT));
    assert_eq!(s.selected, Some(2));
    update(&mut s, press(KeyCode::Char('g')));
    assert_eq!(s.selected, Some(0));
    update(&mut s, press_with(KeyCode::Char('d'), MOD_CONTROL));
    assert_eq!(s.selected, Some(2));
    update(&mut s, press(KeyCode::PageUp));
    assert_eq!(s.selected, Some(0));
    assert!(matches!(update(&mut s, press(KeyCode::Char('q'))), Some(Cmd::Quit)));
    assert!(matches!(
        update(&mut s, press_with(KeyCode::Char('c'), MOD_CONTROL)),
        Some(Cmd::Quit)
    ));
    assert!(matches!(update(&mut s, press(KeyCode::Char('r'))), Some(Cmd::StartFullSync)));
    assert!(matches!(update(&mut s, press(KeyCode::Char('R'))), Some(Cmd::StartMetadataSync)));
    assert_eq!(s.metadata_progress, Some((0, 0)));
    assert!(update(&mut s, press(KeyCode::Char('x'))).is_none());
}

#[test]
fn filters_cycle() {
    let mut s = cache_loaded();
    update(&mut s, press(KeyCode::Char('f')));
    assert_eq!(s.filter.redeem_status, Some(RedeemStatus::Unredeemed));
    update(&mut s, press(KeyCode::Char('f')));
    assert_eq!(s.filter.redeem_status, Some(RedeemStatus::Redeemed));
    assert!(s.visible.is_empty());
    update(&mut s, press(KeyCode::Char('f')));
    assert_eq!(s.filter.redeem_status, None);
    update(&mut s, press(KeyCode::Char('c')));
    assert_eq!(s.filter.source, SourceFilter::Keys);
    assert_eq!(names(&s), vec!["Braid", "Portal"]);
    update(&mut s, press(KeyCode::Char('c')));
    assert_eq!(s.filter.source, SourceFilter::Choice);
    assert_eq!(names(&s), vec!["Everspace"]);
    update(&mut s, press(KeyCode::Char('c')));
    assert_eq!(s.filter.source, SourceFilter::All);
    update(&mut s, press(KeyCode::Char('s')));
    assert_eq!(s.filter.sort, SortOrder::PurchaseDateAsc);
    assert_eq!(names(&s), vec!["Everspace", "Portal", "Braid"]);
}

#[test]
fn search_mode_typing_and_escape() {
    let mut s = cache_loaded();
    update(&mut s, press(KeyCode::Char('/')));
    assert_eq!(s.mode, Mode::Search);
    update(&mut s, press(KeyCode::Char('b')));
    update(&mut s, press(KeyCode::Char('r')));
    assert_eq!(s.filter.search_query, "br");
    assert_eq!(names(&s), vec!["Braid"]);
    update(&mut s, press(KeyCode::Backspace));
    assert_eq!(s.search_input, "b");
    update(&mut s, press(KeyCode::Enter));
    assert_eq!(s.mode, Mode::Normal);
    assert_eq!(s.filter.search_query, "b");
    update(&mut s, press(KeyCode::Char('/')));
    update(&mut s, press(KeyCode::Esc));
    assert_eq!(s.mode, Mode::Normal);
    assert_eq!(s.filter.search_query, "");
    assert_eq!(names(&s).len(), 3);
}

#[test]
fn export_prompt_returns_trimmed_path() {
    let mut s = cache_loaded();
    update(&mut s, press(KeyCode::Char('e')));
    assert_eq!(s.mode, Mode::ExportPrompt);
    for c in " ~/keys.csv ".chars() {
        update(&mut s, press(KeyCode::Char(c)));
    }
    update(&mut s, press(KeyCode::Backspace));
    match update(&mut s, press(KeyCode::Enter)) {
        Some(Cmd::ExportCsv(p)) => assert_eq!(p, "~/keys.csv"),
        _ => panic!("expected an export"),
    }
    assert_eq!(s.mode, Mode::Normal);
    update(&mut s, press(KeyCode::Char('e')));
    assert!(update(&mut s, press(KeyCode::Esc)).is_none());
    assert_eq!(s.mode, Mode::Normal);
}

#[test]
fn sort_picker() {
    let mut s = cache_loaded();
    update(&mut s, press(KeyCode::Char('s')));
    update(&mut s, press(KeyCode::Char('S')));
    assert_eq!(s.mode, Mode::SortPicker);
    assert_eq!(s.sort_picker_cursor, 1);
    update(&mut s, press(KeyCode::Down));
    assert_eq!(s.sort_picker_cursor, 2);
    update(&mut s, press_with(KeyCode::Char('G'), MOD_SHIFT));
    assert_eq!(s.sort_picker_cursor, 9);
    update(&mut s, press(KeyCode::Char('j')));
    assert_eq!(s.sort_picker_cursor, 9);
    update(&mut s, press(KeyCode::Char('g')));
    update(&mut s, press(KeyCode::Char('k')));
    assert_eq!(s.sort_picker_cursor, 0);
    update(&mut s, press(KeyCode::Char('j')));
    update(&mut s, press(KeyCode::Char('j')));
    update(&mut s, press(KeyCode::Enter));
    assert_eq!(s.mode, Mode::Normal);
    assert_eq!(s.filter.sort, SortOrder::NameAsc);
    assert_eq!(names(&s), vec!["Braid", "Everspace", "Portal"]);
}

#[test]
fn open_and_yank_commands() {
    let mut s = cache_loaded();
    // Braid is selected
    match update(&mut s, press(KeyCode::Char('o'))) {
        Some(Cmd::OpenUrl(u)) => {
            assert_eq!(u, "https://www.humblebundle.com/downloads?key=humble_bundle_1")
        }
        _ => panic!("expected a URL"),
    }
    match update(&mut s, press_with(KeyCode::Char('O'), MOD_SHIFT)) {
        Some(Cmd::OpenUrl(u)) => assert_eq!(u, "https://store.steampowered.com/app/620"),
        _ => panic!("expected a URL"),
    }
    assert!(update(&mut s, press(KeyCode::Char('y'))).is_none());
    s.visible.clear();
    s.all_keys[1].redeemed_key_val = Some("XXXX-YYYY".to_string());
    s.apply_filters();
    match update(&mut s, press(KeyCode::Char('y'))) {
        Some(Cmd::CopyToClipboard(v)) => assert_eq!(v, "XXXX-YYYY"),
        _ => panic!("expected a copy"),
    }
    update(&mut s, press_with(KeyCode::Char('G'), MOD_SHIFT));
    match update(&mut s, press(KeyCode::Char('o'))) {
        Some(Cmd::OpenUrl(u)) => assert_eq!(u, "https://www.humblebundle.com/membership/april-2025"),
        _ => panic!("expected a URL"),
    }
    assert!(update(&mut s, press(KeyCode::Char('y'))).is_none());
}

#[test]
fn error_mode_any_key_dismisses() {
    let mut s = cache_loaded();
    s.last_error = Some("x".to_string());
    s.mode = Mode::Error;
    assert!(update(&mut s, press(KeyCode::Char('z'))).is_none());
    assert_eq!(s.mode, Mode::Normal);
    assert_eq!(s.last_error, None);
}

#[test]
fn auth_mode_collects_cookie_and_step_saves_it() {
    let mut s = UiState::new("", true);
    s.mode = Mode::Auth;
    for c in " abc".chars() {
        step(&mut s, press(KeyCode::Char(c)));
    }
    step(&mut s, press(KeyCode::Backspace));
    assert!(step(&mut s, press(KeyCode::Esc)).is_none());
    assert_eq!(s.mode, Mode::Auth);
    assert_eq!(s.auth_input, " ab");
    match step(&mut s, press(KeyCode::Enter)) {
        Some(Cmd::SaveSessionCookie(c)) => assert_eq!(c, "ab"),
        _ => panic!("expected the cookie"),
    }
    assert_eq!(s.mode, Mode::Normal);
}

#[test]
fn step_shows_pending_error() {
    let mut s = UiState::new("", true);
    assert!(step(&mut s, AppEvent::SyncError("network down".to_string())).is_none());
    assert_eq!(s.mode, Mode::Error);
    s.export_failed("disk full");
    assert_eq!(s.last_error, Some("Export failed: disk full".to_string()));
}

#[test]
fn blank_cookie_keeps_auth_open() {
    let mut s = UiState::new("", true);
    s.mode = Mode::Auth;
    step(&mut s, press(KeyCode::Char(' ')));
    assert!(step(&mut s, press(KeyCode::Enter)).is_none());
    assert_eq!(s.mode, Mode::Auth);
}

#[test]
fn sync_state_does_not_replace_auth_prompt() {
    let mut s = UiState::new("", true);
    s.mode = Mode::Auth;
    assert!(step(&mut s, AppEvent::SyncStateLoaded(None)).is_none());
    assert_eq!(s.mode, Mode::Auth);
    assert!(step(&mut s, AppEvent::SyncError("offline".to_string())).is_none());
    assert_eq!(s.mode, Mode::Auth);
}

fn tagged(id: u32, genres: &[&str], tags: &[&str]) -> GameMetadata {
    let mut m = meta(id, 50);
    m.steam_genres = genres.iter().map(|s| s.to_string()).collect();
    m.steam_tags = tags.iter().map(|s| s.to_string()).collect();
    m
}

#[test]
fn genre_picker_chooses_and_applies_a_filter() {
    let mut s = cache_loaded();
    s.all_keys[0].steam_app_id = Some(400);
    s.all_keys[1].steam_app_id = Some(26800);
    s.metadata_map = vec![
        tagged(400, &["Puzzle"], &["First-Person", "Puzzle Platformer"]),
        tagged(26800, &["Puzzle", "Indie"], &["Time Manipulation"]),
    ];
    assert!(update(&mut s, press(KeyCode::Char('t'))).is_none());
    assert_eq!(s.mode, Mode::GenrePicker);
    {
        let p = s.genre_picker.as_ref().unwrap();
        assert_eq!(p.all_items.len(), 5);
        // Listed by count: Puzzle (2) first, then the rest by name
        let first = &p.all_items[p.filtered_indices[0]];
        assert_eq!((first.name.as_str(), first.count, first.is_genre), ("Puzzle", 2, true));
        assert_eq!(p.filtered_indices.len(), 5);
    }
    // Only tags, then search for "time"
    update(&mut s, press(KeyCode::Char('f')));
    update(&mut s, press(KeyCode::Char('f')));
    assert_eq!(s.genre_picker.as_ref().unwrap().filtered_indices.len(), 3);
    update(&mut s, press(KeyCode::Char('/')));
    for c in "TIME".chars() {
        update(&mut s, press(KeyCode::Char(c)));
    }
    update(&mut s, press(KeyCode::Enter));
    {
        let p = s.genre_picker.as_ref().unwrap();
        assert_eq!(p.search, "TIME");
        assert_eq!(p.filtered_indices.len(), 1);
    }
    update(&mut s, press(KeyCode::Char(' ')));
    assert_eq!(s.genre_picker.as_ref().unwrap().pending_filter, vec!["Time Manipulation".to_string()]);
    // Enter applies: only Braid has that tag
    update(&mut s, press(KeyCode::Enter));
    assert_eq!(s.mode, Mode::Normal);
    assert!(s.genre_picker.is_none());
    assert_eq!(s.filter.genre_filter, vec!["Time Manipulation".to_string()]);
    assert_eq!(names(&s), vec!["Braid"]);
}

#[test]
fn genre_picker_escape_clears_search_then_closes() {
    let mut s = cache_loaded();
    s.filter.genre_filter = vec!["Indie".to_string()];
    update(&mut s, press(KeyCode::Char('t')));
    assert_eq!(s.genre_picker.as_ref().unwrap().pending_filter, vec!["Indie".to_string()]);
    update(&mut s, press(KeyCode::Char('/')));
    update(&mut s, press(KeyCode::Char('x')));
    update(&mut s, press(KeyCode::Esc));
    update(&mut s, press(KeyCode::Esc));
    assert_eq!(s.genre_picker.as_ref().unwrap().search, "");
    update(&mut s, press_with(KeyCode::Char('c'), MOD_CONTROL));
    assert!(s.genre_picker.as_ref().unwrap().pending_filter.is_empty());
    update(&mut s, press(KeyCode::Esc));
    assert_eq!(s.mode, Mode::Normal);
    assert!(s.genre_picker.is_none());
    assert_eq!(s.filter.genre_filter, vec!["Indie".to_string()]);
}

#[test]
fn order_loaded_keeps_the_last_key_of_each_name() {
    let mut s = cache_loaded();
    update(
        &mut s,
        AppEvent::OrderLoaded {
            keys: vec![
                key("c", "Celeste", 300),
                key("a", "Portal 1", 100),
                key("c", "Celeste (again)", 300),
                key("d", "Dead Cells", 50),
                key("a", "Portal 2", 100),
            ],
        },
    );
    let merged: Vec<(String, String)> = s
        .all_keys
        .iter()
        .map(|k| (k.tpkd_machine_name.clone(), k.human_name.clone()))
        .collect();
    assert_eq!(
        merged,
        vec![
            ("a".to_string(), "Portal 2".to_string()),
            ("b".to_string(), "Braid".to_string()),
            ("c".to_string(), "Celeste (again)".to_string()),
            ("d".to_string(), "Dead Cells".to_string()),
        ]
    );
}
