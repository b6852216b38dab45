use humble_manager::api::steam::{app_details_fields, user_rating, AppDetails};
use humble_manager::models::choice::ChoicePick;
use humble_manager::models::key::{GameKey, Platform, RedeemStatus};
use humble_manager::models::metadata::{GameMetadata, ReviewCounts, SteamDeckCompat};
use humble_manager::tui::components::{
    cell_text, row_tone, AuthModal, DetailPanel, ErrorModal, ExportModal, FilterBar, KeyTable,
    Piece, StatusBar, SyncPromptModal, Tone,
};
use humble_manager::tui::display::ColumnId;
use humble_manager::tui::state::{ListItem, Mode, UiState};

fn texts(line: &[Piece]) -> Vec<String> {
    line.iter().map(|p| p.text.clone()).collect()
}

fn tones(line: &[Piece]) -> Vec<Tone> {
    line.iter().map(|p| p.tone).collect()
}

fn key() -> GameKey {
    GameKey {
        id: "1".to_string(),
        tpkd_machine_name: "portal_steam".to_string(),
        human_name: "Portal".to_string(),
        platform: Platform::Steam,
        key_type: "Steam".to_string(),
        redeemed_key_val: None,
        is_revealed: false,
        redeem_status: RedeemStatus::Unredeemed,
        bundle_machine_name: "b".to_string(),
        bundle_human_name: "Valve Complete Pack Featuring Every Game".to_string(),
        purchase_date: 1743465600,
        purchase_nanos: 0,
        expiry_date: Some(1_000_090_000),
        steam_app_id: Some(400),
        igdb_genres: vec!["Puzzle".to_string(), "FPS".to_string()],
        is_owned_on_steam: Some(false),
    }
}

fn pick() -> ChoicePick {
    ChoicePick {
        machine_name: "hades_choice_steam".to_string(),
        human_name: "Hades".to_string(),
        platform: Platform::Steam,
        steam_app_id: Some(1145360),
        genres: vec![],
        claim_deadline: Some(999_999_000),
        num_days_until_expired: Some(0),
        is_expired: false,
        is_owned_on_steam: Some(true),
        choice_month: "april_2025_choice".to_string(),
    }
}

fn meta(id: u32) -> GameMetadata {
    GameMetadata {
        steam_app_id: id,
        steam_tags: vec![],
        steam_genres: vec![],
        metacritic_score: Some(90),
        steam_user_rating: Some(ReviewCounts { positive: 876, negative: 124 }),
        igdb_id: None,
        igdb_genres: vec![],
        igdb_rating_centi: None,
        steam_deck_compat: Some(SteamDeckCompat::Verified),
        enriched_at: 0,
    }
}

fn state_with(items: Vec<ListItem>) -> UiState {
    let mut s = UiState::new("purchase_date_desc", true);
    s.visible = items;
    s.selected = Some(0);
    s
}

#[test]
fn detail_without_selection() {
    let s = UiState::new("purchase_date_desc", true);
    let lines = DetailPanel { state: &s }.lines(0);
    assert_eq!(lines.len(), 1);
    assert_eq!(texts(&lines[0]), vec!["No item selected"]);
    assert_eq!(tones(&lines[0]), vec![Tone::Dim]);
}

#[test]
fn detail_of_a_key() {
    let s = state_with(vec![ListItem::Key(key())]);
    let lines = DetailPanel { state: &s }.lines(1_000_000_000);
    assert_eq!(texts(&lines[0]), vec!["Bundle     ", "Valve Complete Pack Featuring Every Game"]);
    assert_eq!(texts(&lines[1]), vec!["Purchased  ", "2025-04-01"]);
    assert_eq!(texts(&lines[2]), vec!["Platform   ", "Steam"]);
    assert_eq!(texts(&lines[3]), vec!["Status     ", "unredeemed"]);
    assert_eq!(texts(&lines[4]), vec!["Type       ", "Steam"]);
    assert_eq!(texts(&lines[5]), vec!["Key        ", "[not revealed]"]);
    assert_eq!(texts(&lines[6]), vec!["Expires    ", "1d 1h"]);
    assert_eq!(tones(&lines[6]), vec![Tone::Dim, Tone::Warn]);
    assert_eq!(texts(&lines[7]), vec!["Genres     ", "Puzzle, FPS"]);
    assert_eq!(texts(&lines[8]), vec!["Steam      ", "Not owned"]);
    assert_eq!(texts(&lines[9]), vec!["App ID     ", "400"]);
    assert_eq!(texts(&lines[10]), vec!["Press ", "o", " to open Humble page"]);
    assert_eq!(texts(&lines[11]), vec!["Press ", "O", " to open Steam store page"]);
    assert_eq!(lines.len(), 12);
}

#[test]
fn detail_of_an_expired_key_with_a_revealed_value() {
    let mut k = key();
    k.redeemed_key_val = Some("AAAA-BBBB".to_string());
    k.igdb_genres = vec![];
    k.is_owned_on_steam = None;
    k.steam_app_id = None;
    let s = state_with(vec![ListItem::Key(k)]);
    let lines = DetailPanel { state: &s }.lines(2_000_000_000);
    assert_eq!(texts(&lines[5]), vec!["Key        ", "AAAA-BBBB"]);
    assert_eq!(tones(&lines[5]), vec![Tone::Dim, Tone::Good]);
    assert_eq!(texts(&lines[6]), vec!["Expires    ", "EXPIRED"]);
    assert_eq!(tones(&lines[6]), vec![Tone::Dim, Tone::Alert]);
    assert_eq!(lines.len(), 9);
}

#[test]
fn detail_of_a_choice_pick() {
    let s = state_with(vec![ListItem::Choice(pick())]);
    let lines = DetailPanel { state: &s }.lines(999_996_000);
    assert_eq!(texts(&lines[0]), vec!["Month      ", "april_2025_choice"]);
    assert_eq!(texts(&lines[1]), vec!["Available  ", "2025-04-01"]);
    assert_eq!(texts(&lines[2]), vec!["Platform   ", "Steam"]);
    assert_eq!(texts(&lines[3]), vec!["Status     ", "[UNCLAIMED]"]);
    assert_eq!(tones(&lines[3]), vec![Tone::Dim, Tone::Accent]);
    assert_eq!(texts(&lines[4]), vec!["Claim by   ", "50m"]);
    assert_eq!(texts(&lines[5]), vec!["Steam      ", "Already owned"]);
    assert_eq!(texts(&lines[6]), vec!["Press ", "o", " to open claim page"]);
    assert_eq!(lines.len(), 7);
}

#[test]
fn detail_of_a_pick_from_an_unknown_month() {
    let mut p = pick();
    p.choice_month = "spring_sale".to_string();
    p.is_expired = true;
    let s = state_with(vec![ListItem::Choice(p)]);
    let lines = DetailPanel { state: &s }.lines(0);
    assert_eq!(texts(&lines[1]), vec!["Available  ", "spring_sale"]);
    assert_eq!(texts(&lines[4]), vec!["Claim by   ", "EXPIRED"]);
}

#[test]
fn table_cells() {
    let metas = vec![meta(400), meta(1145360)];
    let k = ListItem::Key(key());
    let p = ListItem::Choice(pick());
    assert_eq!(cell_text(ColumnId::Name, &k, &metas), "Portal");
    assert_eq!(cell_text(ColumnId::Platform, &k, &metas), "STM");
    assert_eq!(cell_text(ColumnId::Status, &k, &metas), "○");
    assert_eq!(cell_text(ColumnId::Status, &p, &metas), "⊕");
    assert_eq!(cell_text(ColumnId::Bundle, &k, &metas), "Valve Complete Pack Featuri…");
    assert_eq!(cell_text(ColumnId::PurchaseDate, &k, &metas), "2025-04-01");
    assert_eq!(cell_text(ColumnId::PurchaseDate, &p, &metas), "Apr 2025");
    assert_eq!(cell_text(ColumnId::Expiry, &k, &metas), "2001-09-10");
    assert_eq!(cell_text(ColumnId::Metacritic, &k, &metas), "90");
    assert_eq!(cell_text(ColumnId::UserRating, &k, &metas), "88%");
    assert_eq!(cell_text(ColumnId::SteamDeck, &p, &metas), "✓");
    assert_eq!(cell_text(ColumnId::Metacritic, &k, &vec![]), "");
}

#[test]
fn table_rows_and_tones() {
    let mut expired = key();
    expired.redeem_status = RedeemStatus::Expired;
    let mut revealed = key();
    revealed.is_revealed = true;
    let mut s = state_with(vec![
        ListItem::Key(key()),
        ListItem::Choice(pick()),
        ListItem::Key(expired),
        ListItem::Key(revealed),
    ]);
    s.metadata_map = vec![meta(400)];
    let cols = vec![ColumnId::Name, ColumnId::Metacritic];
    assert_eq!(KeyTable::header(&cols), vec!["#", "Name", "MC"]);
    let rows = KeyTable { state: &s }.rows(&cols);
    assert_eq!(rows.len(), 4);
    assert_eq!(rows[0].0, vec!["1", "Portal", "90"]);
    assert_eq!(rows[1].0, vec!["2", "Hades", ""]);
    assert_eq!(rows[0].1, Tone::Plain);
    assert_eq!(rows[1].1, Tone::Info);
    assert_eq!(rows[2].1, Tone::Dim);
    assert_eq!(rows[3].1, Tone::Good);
    assert_eq!(row_tone(&s.visible[3]), Tone::Good);
}

#[test]
fn status_bar_line() {
    let mut s = UiState::new("purchase_date_desc", true);
    s.sync_progress = Some((3, 10));
    s.metadata_progress = Some((0, 0));
    let line = StatusBar { state: &s }.line();
    assert_eq!(texts(&line)[0], " NORMAL ");
    assert_eq!(texts(&line)[2], " Syncing 3/10 ");
    assert_eq!(texts(&line)[3], " Enriching... ");
    assert_eq!(
        tones(&line),
        vec![Tone::BadgeNormal, Tone::Plain, Tone::Warn, Tone::Info, Tone::Dim]
    );
    s.mode = Mode::ExportPrompt;
    s.sync_progress = None;
    s.metadata_progress = Some((5, 5));
    let line = StatusBar { state: &s }.line();
    assert_eq!(texts(&line)[0], " EXPORT ");
    assert_eq!(texts(&line)[2], " Press r to sync ");
    assert_eq!(texts(&line)[3], " Enriched ");
    assert_eq!(tones(&line)[0], Tone::BadgeExport);
    assert_eq!(tones(&line)[3], Tone::Good);
}

#[test]
fn filter_bar_lines() {
    let mut s = UiState::new("purchase_date_desc", true);
    s.all_keys = vec![key(), key()];
    s.all_picks = vec![pick()];
    s.visible = vec![ListItem::Key(key())];
    let lines = FilterBar { state: &s }.lines();
    assert_eq!(lines.len(), 2);
    assert_eq!(texts(&lines[0])[1], "[All]");
    assert_eq!(tones(&lines[0])[1], Tone::ChipOn);
    assert_eq!(tones(&lines[0])[3], Tone::ChipOff);
    assert_eq!(texts(&lines[0])[15], "[Purchase↓]");
    assert_eq!(texts(&lines[1]), vec!["Search: ", "(type / to search)", "  1/3 shown"]);
    s.filter.search_query = "hal".to_string();
    s.filter.redeem_status = Some(RedeemStatus::Redeemed);
    let lines = FilterBar { state: &s }.lines();
    assert_eq!(texts(&lines[1])[1], "\"hal\"");
    assert_eq!(tones(&lines[0])[8], Tone::ChipOff);
    assert_eq!(tones(&lines[0])[12], Tone::ChipOn);
}

#[test]
fn modal_lines() {
    let mut s = UiState::new("purchase_date_desc", true);
    let lines = AuthModal { state: &s }.lines();
    assert_eq!(lines.len(), 8);
    assert_eq!(texts(&lines[5]), vec!["Cookie: ", "_"]);
    s.auth_input = "abcdefghijklmnopqrstuvwxyz".to_string();
    let lines = AuthModal { state: &s }.lines();
    assert_eq!(texts(&lines[5]), vec!["Cookie: ", "abcdefghijklmnopqrst…"]);
    s.auth_input = "é".repeat(15);
    let lines = AuthModal { state: &s }.lines();
    assert_eq!(texts(&lines[5]), vec!["Cookie: ".to_string(), format!("{}…", "é".repeat(10))]);
    s.auth_input = "abc".to_string();
    let lines = AuthModal { state: &s }.lines();
    assert_eq!(texts(&lines[5]), vec!["Cookie: ", "abc…"]);
    s.export_input = "~/keys.csv".to_string();
    let lines = ExportModal { state: &s }.lines();
    assert_eq!(texts(&lines[2]), vec!["> ", "~/keys.csv_"]);
    let lines = ErrorModal { message: "Export failed: disk full" }.lines();
    assert_eq!(texts(&lines[1]), vec!["Export failed: disk full"]);
    assert_eq!(texts(&lines[3]), vec!["Press any key to dismiss."]);
    let lines = SyncPromptModal { last_synced_msg: "never" }.lines();
    assert_eq!(texts(&lines[1]), vec!["Last sync: ", "never"]);
    assert!(lines[0].is_empty());
}

#[test]
fn steam_user_rating() {
    assert_eq!(user_rating(3, 1), Some(ReviewCounts { positive: 3, negative: 1 }));
    assert_eq!(user_rating(0, 5), Some(ReviewCounts { positive: 0, negative: 5 }));
    assert_eq!(user_rating(0, 0), None);
    assert_eq!(user_rating(u64::MAX, u64::MAX), Some(ReviewCounts { positive: u64::MAX, negative: u64::MAX }));
}

#[test]
fn user_rating_percent_rounds_ties_to_even() {
    let metas_of = |positive: u64, negative: u64| {
        let mut m = meta(400);
        m.steam_user_rating = Some(ReviewCounts { positive, negative });
        vec![m]
    };
    let k = ListItem::Key(key());
    // 1 of 8 is 12.5%: a tie, to the even 12
    assert_eq!(cell_text(ColumnId::UserRating, &k, &metas_of(1, 7)), "12%");
    // 7 of 8 is 87.5%: a tie, to the even 88
    assert_eq!(cell_text(ColumnId::UserRating, &k, &metas_of(7, 1)), "88%");
    assert_eq!(cell_text(ColumnId::UserRating, &k, &metas_of(2, 1)), "67%");
    assert_eq!(cell_text(ColumnId::UserRating, &k, &metas_of(1, 2)), "33%");
    assert_eq!(cell_text(ColumnId::UserRating, &k, &metas_of(u64::MAX, 0)), "100%");
    assert_eq!(cell_text(ColumnId::UserRating, &k, &metas_of(0, 0)), "");
}

#[test]
fn steam_app_details() {
    let ok = AppDetails {
        success: true,
        genres: vec!["Action".to_string()],
        metacritic_score: Some(91),
        deck_category: Some(3),
    };
    let (genres, score, deck) = app_details_fields(ok);
    assert_eq!(genres, vec!["Action".to_string()]);
    assert_eq!(score, Some(91));
    assert_eq!(deck, Some(SteamDeckCompat::Verified));
    let unknown_deck = AppDetails {
        success: true,
        genres: vec![],
        metacritic_score: None,
        deck_category: Some(0),
    };
    assert_eq!(app_details_fields(unknown_deck).2, None);
    let failed = AppDetails {
        success: false,
        genres: vec!["Action".to_string()],
        metacritic_score: Some(91),
        deck_category: Some(3),
    };
    let (genres, score, deck) = app_details_fields(failed);
    assert!(genres.is_empty());
    assert_eq!(score, None);
    assert_eq!(deck, None);
}
