use humble_manager::api::humble::{
    game_key_from_tpk, membership_url, order_contents, order_url, session_cookie_header,
    tpk_to_game_key, OrderDetail, OrderProduct, TpkEntry,
};
use humble_manager::api::humble_choice::{
    build_picks, choice_month_name, extract_webpack_data, ChoiceGameEntry,
    ChoiceTpkd,
};
use humble_manager::api::igdb::{bearer_header, igdb_query, IgdbToken};
use humble_manager::api::steam::{app_details_url, rank_tags, steamspy_url};
use humble_manager::db::{key_from_row, metadata_from_rows, pick_from_row, KeyRow, MetadataRow, PickRow, TagRow};
use humble_manager::export::{expand_tilde, export_rows};
use humble_manager::models::bundle::{Bundle, BundleType};
use humble_manager::models::key::{GameKey, Platform, RedeemStatus};
use humble_manager::models::metadata::{ReviewCounts, SteamDeckCompat};
use humble_manager::tui::state::ListItem;

fn tpk(name: &str) -> TpkEntry {
    TpkEntry {
        machine_name: format!("{}_steam", name),
        human_name: name.to_string(),
        key_type: Some("steam".to_string()),
        key_type_human_name: Some("Steam".to_string()),
        redeemed_key_val: None,
        is_expired: false,
        steam_app_id: Some(4294967296 + 5),
        num_days_until_expired: -1,
    }
}

#[test]
fn order_becomes_bundle_and_keys() {
    let mut expired = tpk("Braid");
    expired.is_expired = true;
    expired.redeemed_key_val = Some("K".to_string());
    expired.key_type = None;
    let detail = OrderDetail {
        gamekey: "ABC123".to_string(),
        created: Some("2020-01-02T04:04:05.25+01:00".to_string()),
        product: OrderProduct {
            machine_name: "humble_choice_april".to_string(),
            human_name: "Humble Choice April".to_string(),
            category: "Humble_Choice".to_string(),
            choice_url: Some("april-2025".to_string()),
        },
        all_tpks: Some(vec![tpk("Portal"), expired]),
    };
    let (bundle, keys, choice_url) = order_contents(detail);
    assert_eq!(bundle.machine_name, "ABC123");
    assert_eq!(bundle.purchased_at, 1577934245);
    assert_eq!(bundle.bundle_type, BundleType::Choice);
    assert_eq!(choice_url, Some("april-2025".to_string()));
    assert_eq!(keys.len(), 2);
    assert_eq!(keys[0].tpkd_machine_name, "Portal_steam");
    assert_eq!(keys[0].platform, Platform::Steam);
    assert_eq!(keys[0].steam_app_id, Some(5));
    assert_eq!(keys[0].purchase_date, 1577934245);
    assert_eq!(bundle.purchased_nanos, 250_000_000);
    assert_eq!(keys[0].purchase_nanos, 250_000_000);
    assert_eq!(keys[0].bundle_human_name, "Humble Choice April");
    assert_eq!(keys[0].redeem_status, RedeemStatus::Unredeemed);
    assert_eq!(keys[0].id.len(), 36);
    assert_ne!(keys[0].id, keys[1].id);
    assert_eq!(keys[1].redeem_status, RedeemStatus::Expired);
    assert!(keys[1].is_revealed);
    assert_eq!(keys[1].platform, Platform::Other("".to_string()));
}

#[test]
fn order_without_created_date_or_keys() {
    let detail = OrderDetail {
        gamekey: "X".to_string(),
        created: Some("not a date".to_string()),
        product: OrderProduct {
            machine_name: "m".to_string(),
            human_name: "h".to_string(),
            category: "".to_string(),
            choice_url: None,
        },
        all_tpks: None,
    };
    let (bundle, keys, url) = order_contents(detail);
    assert_eq!(bundle.purchased_at, 0);
    assert_eq!(bundle.bundle_type, BundleType::Unknown);
    assert!(keys.is_empty());
    assert!(url.is_none());
}

#[test]
fn key_with_given_id() {
    let bundle = Bundle {
        machine_name: "b".to_string(),
        human_name: "B".to_string(),
        product_machine_name: "p".to_string(),
        purchased_at: 42,
        purchased_nanos: 7,
        bundle_type: BundleType::Classic,
        cached_at: 0,
    };
    let k = game_key_from_tpk(&tpk("Hades"), &bundle, "id-1".to_string());
    assert_eq!(k.id, "id-1");
    assert_eq!(k.purchase_date, 42);
    assert_eq!(k.purchase_nanos, 7);
    assert_eq!(k.key_type, "Steam");
    let r = tpk_to_game_key(&tpk("Hades"), &bundle);
    assert_eq!(r.human_name, "Hades");
}

#[test]
fn request_texts() {
    assert_eq!(order_url("ABC"), "https://www.humblebundle.com/api/v1/order/ABC?all_tpkds=true");
    assert_eq!(membership_url("april-2025"), "https://www.humblebundle.com/membership/april-2025");
    assert_eq!(session_cookie_header("s3cr"), "_simpleauth_sess=s3cr");
    assert_eq!(
        app_details_url(620),
        "https://store.steampowered.com/api/appdetails?appids=620&filters=genres,metacritic,steam_deck_compatibility"
    );
    assert_eq!(steamspy_url(620), "https://steamspy.com/api.php?request=appdetails&appid=620");
    assert_eq!(
        igdb_query(620),
        "fields id,genres.name,aggregated_rating; where external_games.uid = \"620\" & external_games.category = 1; limit 1;"
    );
    assert_eq!(bearer_header(&IgdbToken("tok".to_string())), "Bearer tok");
}

#[test]
fn choice_page_data() {
    let html = r#"<html><script id="webpack-monthly-product-data" type="application/json">
  {"a": 1}
</script></html>"#;
    assert_eq!(
        extract_webpack_data(html, "webpack-monthly-product-data"),
        Some("{\"a\": 1}".to_string())
    );
    assert_eq!(extract_webpack_data(html, "webpack-subscriber-hub-data"), None);
    assert_eq!(
        extract_webpack_data(r#"id="x" type="application/json">no end"#, "x"),
        None
    );
    assert_eq!(choice_month_name("", "april-2025"), "april-2025");
    assert_eq!(choice_month_name("april_2025_choice", "april-2025"), "april_2025_choice");
}

#[test]
fn choice_picks_from_entries() {
    let entries = vec![
        ChoiceGameEntry {
            title: "Hades".to_string(),
            genres: vec!["Action".to_string()],
            delivery_methods: vec!["steam".to_string()],
            tpkds: vec![
                ChoiceTpkd {
                    machine_name: "hades_steam".to_string(),
                    key_type: None,
                    steam_app_id: Some(1145360),
                    expiration_date: Some("2027-05-05T17:00:00".to_string()),
                    num_days_until_expired: 30,
                    is_expired: false,
                },
                ChoiceTpkd {
                    machine_name: "hades_gog".to_string(),
                    key_type: Some("GOG".to_string()),
                    steam_app_id: None,
                    expiration_date: Some("soon".to_string()),
                    num_days_until_expired: 0,
                    is_expired: true,
                },
            ],
        },
        ChoiceGameEntry {
            title: "Odd".to_string(),
            genres: vec![],
            delivery_methods: vec![],
            tpkds: vec![ChoiceTpkd {
                machine_name: "odd".to_string(),
                key_type: None,
                steam_app_id: None,
                expiration_date: None,
                num_days_until_expired: 1,
                is_expired: false,
            }],
        },
    ];
    let picks = build_picks(&entries, "may_2027_choice");
    assert_eq!(picks.len(), 3);
    assert_eq!(picks[0].platform, Platform::Steam);
    assert_eq!(picks[0].claim_deadline, Some(1809536400));
    assert_eq!(picks[0].genres, vec!["Action".to_string()]);
    assert_eq!(picks[0].choice_month, "may_2027_choice");
    assert_eq!(picks[1].platform, Platform::Gog);
    assert_eq!(picks[1].claim_deadline, None);
    assert_eq!(picks[1].num_days_until_expired, Some(0));
    assert_eq!(picks[2].platform, Platform::Other("unknown".to_string()));
}

#[test]
fn tags_ranked_by_votes() {
    let pairs = vec![
        ("Indie".to_string(), 50u64),
        ("Action".to_string(), 900u64),
        ("Co-op".to_string(), 50u64),
        ("RPG".to_string(), 120u64),
    ];
    assert_eq!(rank_tags(&pairs), vec!["Action", "RPG", "Indie", "Co-op"]);
}

fn game_key() -> GameKey {
    GameKey {
        id: "1".to_string(),
        tpkd_machine_name: "portal".to_string(),
        human_name: "Portal, \"2\"".to_string(),
        platform: Platform::Steam,
        key_type: "Steam".to_string(),
        redeemed_key_val: Some("K".to_string()),
        is_revealed: true,
        redeem_status: RedeemStatus::Redeemed,
        bundle_machine_name: "b".to_string(),
        bundle_human_name: "Bundle".to_string(),
        purchase_date: 0,
        purchase_nanos: 0,
        expiry_date: Some(1743465600),
        steam_app_id: Some(620),
        igdb_genres: vec!["Puzzle".to_string(), "FPS".to_string()],
        is_owned_on_steam: None,
    }
}

#[test]
fn export_rows_of_keys_and_picks() {
    let pick = humble_manager::models::choice::ChoicePick {
        machine_name: "x".to_string(),
        human_name: "Hades".to_string(),
        platform: Platform::Gog,
        steam_app_id: None,
        genres: vec![],
        claim_deadline: None,
        num_days_until_expired: None,
        is_expired: false,
        is_owned_on_steam: None,
        choice_month: "april_2025_choice".to_string(),
    };
    let rows = export_rows(&vec![ListItem::Key(game_key()), ListItem::Choice(pick)]);
    assert_eq!(rows.len(), 3);
    assert_eq!(rows[0][0], "Name");
    assert_eq!(rows[0][9], "Steam App ID");
    assert_eq!(
        rows[1],
        vec![
            "Portal, \"2\"", "Steam", "redeemed", "Bundle", "1970-01-01", "Steam", "yes",
            "2025-04-01", "Puzzle; FPS", "620"
        ]
    );
    assert_eq!(
        rows[2],
        vec!["Hades", "GOG", "unclaimed", "Choice: april_2025_choice", "", "Steam", "no", "", "", ""]
    );
    let mut far = game_key();
    far.purchase_date = i64::MAX;
    far.expiry_date = None;
    let far_rows = export_rows(&vec![ListItem::Key(far)]);
    assert_eq!(far_rows[1][4], "");
    assert_eq!(far_rows[1][7], "");
}

#[test]
fn tilde_expansion() {
    assert_eq!(expand_tilde("~/keys.csv", Some("/home/u")), "/home/u/keys.csv");
    assert_eq!(expand_tilde("~/keys.csv", None), "~/keys.csv");
    assert_eq!(expand_tilde("/tmp/keys.csv", Some("/home/u")), "/tmp/keys.csv");
    assert_eq!(expand_tilde("~keys.csv", Some("/home/u")), "~keys.csv");
}

#[test]
fn stored_rows_become_models() {
    let row = KeyRow {
        id: "1".to_string(),
        tpkd_machine_name: "t".to_string(),
        human_name: "Portal".to_string(),
        platform: "Battle.net".to_string(),
        key_type: "Steam".to_string(),
        redeemed_key_val: None,
        is_revealed: 0,
        redeem_status: "expired".to_string(),
        bundle_machine_name: "b".to_string(),
        bundle_human_name: "B".to_string(),
        purchase_date: 1000,
        expiry_date: Some(i64::MAX),
        steam_app_id: Some(-1),
        igdb_genres: "[\"RPG\",\"Action\"]".to_string(),
        is_owned_on_steam: Some(2),
    };
    let k = key_from_row(row, None);
    assert_eq!(k.platform, Platform::BattleNet);
    assert_eq!(k.redeem_status, RedeemStatus::Expired);
    assert_eq!(k.purchase_date, 1000);
    assert_eq!(k.purchase_nanos, 0);
    assert_eq!(k.expiry_date, None);
    assert_eq!(k.steam_app_id, Some(u32::MAX));
    assert_eq!(k.igdb_genres, vec!["RPG".to_string(), "Action".to_string()]);
    assert_eq!(k.is_owned_on_steam, Some(true));
    let prow = PickRow {
        machine_name: "m".to_string(),
        human_name: "H".to_string(),
        platform: "\"Gog\"".to_string(),
        steam_app_id: None,
        genres: "not json".to_string(),
        claim_deadline: Some(5),
        num_days_until_expired: Some(3),
        is_expired: 1,
        is_owned_on_steam: None,
        choice_month: "april_2025_choice".to_string(),
    };
    let p = pick_from_row(prow, Some(Platform::Gog));
    assert_eq!(p.platform, Platform::Gog);
    assert!(p.genres.is_empty());
    assert!(p.is_expired);
    assert_eq!(p.claim_deadline, Some(5));
}

#[test]
fn stored_metadata_with_tags() {
    let rows = vec![
        MetadataRow {
            steam_app_id: 620,
            metacritic_score: Some(95),
            steam_user_rating: Some(ReviewCounts { positive: 98, negative: 2 }),
            igdb_id: Some(7),
            igdb_rating_centi: None,
            steam_deck_compat: Some(3),
            enriched_at: 10,
        },
        MetadataRow {
            steam_app_id: 400,
            metacritic_score: None,
            steam_user_rating: None,
            igdb_id: None,
            igdb_rating_centi: None,
            steam_deck_compat: Some(0),
            enriched_at: 11,
        },
    ];
    let tags = vec![
        TagRow { steam_app_id: 620, tag: "Puzzle".to_string(), source: "steam_genre".to_string() },
        TagRow { steam_app_id: 620, tag: "Co-op".to_string(), source: "steam_tag".to_string() },
        TagRow { steam_app_id: 620, tag: "Funny".to_string(), source: "steam_tag".to_string() },
        TagRow { steam_app_id: 999, tag: "Lost".to_string(), source: "steam_tag".to_string() },
        TagRow { steam_app_id: 400, tag: "Shooter".to_string(), source: "igdb_genre".to_string() },
        TagRow { steam_app_id: 400, tag: "Odd".to_string(), source: "other".to_string() },
    ];
    let metas = metadata_from_rows(&rows, &tags);
    assert_eq!(metas.len(), 2);
    assert_eq!(metas[0].steam_genres, vec!["Puzzle".to_string()]);
    assert_eq!(metas[0].steam_tags, vec!["Co-op".to_string(), "Funny".to_string()]);
    assert_eq!(metas[0].steam_deck_compat, Some(SteamDeckCompat::Verified));
    assert_eq!(metas[1].igdb_genres, vec!["Shooter".to_string()]);
    assert_eq!(metas[1].steam_deck_compat, None);
    assert!(metas[1].steam_tags.is_empty());
}

#[test]
fn choice_page_data_prefers_the_current_month() {
    let past = r#"<script id="webpack-monthly-product-data" type="application/json">{"m": 1}</script>"#;
    assert_eq!(humble_manager::api::humble_choice::choice_page_data(past), Some("{\"m\": 1}".to_string()));
    let both = format!(
        "{}{}",
        past,
        r#"<script id="webpack-subscriber-hub-data" type="application/json">{"c": 2}</script>"#
    );
    assert_eq!(humble_manager::api::humble_choice::choice_page_data(&both), Some("{\"c\": 2}".to_string()));
    assert_eq!(humble_manager::api::humble_choice::choice_page_data("<html></html>"), None);
}

#[test]
fn export_dates_across_the_calendar() {
    let dated = |purchase: i64, expiry: i64| {
        let mut k = game_key();
        k.purchase_date = purchase;
        k.expiry_date = Some(expiry);
        export_rows(&vec![ListItem::Key(k)])
    };
    let rows = dated(951782400, -62167305600);
    assert_eq!(rows[1][4], "2000-02-29");
    assert_eq!(rows[1][7], "-0001-12-31");
    let rows = dated(253402300800, -1);
    assert_eq!(rows[1][4], "+10000-01-01");
    assert_eq!(rows[1][7], "1969-12-31");
}
