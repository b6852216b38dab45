use humble_manager::models::bundle::BundleType;
use humble_manager::models::filter::SortOrder;
use humble_manager::models::key::{Platform, RedeemStatus};
use humble_manager::models::metadata::SteamDeckCompat;

#[test]
fn bundle_type_parses_categories_ignoring_case() {
    assert_eq!(BundleType::from_str("classic"), BundleType::Classic);
    assert_eq!(BundleType::from_str("HUMBLE_CHOICE"), BundleType::Choice);
    assert_eq!(BundleType::from_str("Humble_Monthly"), BundleType::Monthly);
    assert_eq!(BundleType::from_str("books"), BundleType::Book);
    assert_eq!(BundleType::from_str("Software"), BundleType::Software);
    assert_eq!(BundleType::from_str("storefront"), BundleType::Unknown);
    assert_eq!(BundleType::from_str(""), BundleType::Unknown);
}

#[test]
fn bundle_type_text_reads_back() {
    for b in [
        BundleType::Classic,
        BundleType::Monthly,
        BundleType::Choice,
        BundleType::Book,
        BundleType::Software,
        BundleType::Unknown,
    ] {
        assert_eq!(BundleType::from_str(b.as_str()), b);
        assert_eq!(BundleType::from_lowercase(b.as_str()), b);
    }
    assert_eq!(BundleType::Monthly.as_str(), "monthly");
}

#[test]
fn platform_parses_names_ignoring_case() {
    assert_eq!(Platform::from_str("Steam"), Platform::Steam);
    assert_eq!(Platform::from_str("GOG_GAME"), Platform::Gog);
    assert_eq!(Platform::from_str("epic_games"), Platform::EpicGames);
    assert_eq!(Platform::from_str("Itch.IO"), Platform::Itch);
    assert_eq!(Platform::from_str("download"), Platform::DrmFree);
    assert_eq!(Platform::from_str("humble"), Platform::HumbleApp);
    assert_eq!(Platform::from_str("Uplay"), Platform::Ubisoft);
    assert_eq!(Platform::from_str("Battle.net"), Platform::BattleNet);
    assert_eq!(Platform::from_str("Origin"), Platform::Other("origin".to_string()));
    assert_eq!(Platform::from_lowercase("Steam"), Platform::Other("Steam".to_string()));
}

#[test]
fn platform_labels() {
    assert_eq!(Platform::Steam.short_label(), "STM");
    assert_eq!(Platform::Other("x".to_string()).short_label(), "???");
    assert_eq!(Platform::DrmFree.display_name(), "DRM-free");
    assert_eq!(Platform::Other("origin".to_string()).display_name(), "origin");
}

#[test]
fn store_urls() {
    assert_eq!(
        Platform::Steam.store_url("Portal 2", Some(620)),
        Some("https://store.steampowered.com/app/620".to_string())
    );
    assert_eq!(
        Platform::Steam.store_url("Half-Life 2", None),
        Some("https://store.steampowered.com/search/?term=Half-Life%202".to_string())
    );
    assert_eq!(
        Platform::Gog.store_url("The Witcher 3: Wild Hunt", None),
        Some("https://www.gog.com/en/games?query=The%20Witcher%203%3A%20Wild%20Hunt".to_string())
    );
    assert_eq!(
        Platform::EpicGames.store_url("Hades", Some(1)),
        Some("https://store.epicgames.com/en-US/browse?q=Hades".to_string())
    );
    assert_eq!(
        Platform::Itch.store_url("Café~ok", None),
        Some("https://itch.io/search?q=Caf%C3%A9~ok".to_string())
    );
    assert_eq!(
        Platform::BattleNet.store_url("Diablo", None),
        Some("https://us.battle.net/shop/".to_string())
    );
    assert_eq!(
        Platform::DrmFree.store_url("a_b.c", None),
        Some("https://store.steampowered.com/search/?term=a_b.c".to_string())
    );
    assert_eq!(
        Platform::Ubisoft.store_url("Far Cry", None),
        Some("https://store.ubisoft.com/en-gb/search?searchText=Far%20Cry".to_string())
    );
}

#[test]
fn redeem_status_round_trip() {
    for r in [
        RedeemStatus::Unredeemed,
        RedeemStatus::Redeemed,
        RedeemStatus::Expired,
        RedeemStatus::Unknown,
    ] {
        assert_eq!(RedeemStatus::from_str(r.as_str()), r);
    }
    assert_eq!(RedeemStatus::from_str("Redeemed"), RedeemStatus::Unknown);
    assert_eq!(RedeemStatus::default(), RedeemStatus::Unredeemed);
}

#[test]
fn steam_deck_categories() {
    assert_eq!(SteamDeckCompat::from_category(0), None);
    assert_eq!(SteamDeckCompat::from_category(1), Some(SteamDeckCompat::Unsupported));
    assert_eq!(SteamDeckCompat::from_category(2), Some(SteamDeckCompat::Playable));
    assert_eq!(SteamDeckCompat::from_category(3), Some(SteamDeckCompat::Verified));
    assert_eq!(SteamDeckCompat::from_category(4), None);
    assert_eq!(SteamDeckCompat::Verified.as_i64(), 3);
    assert_eq!(SteamDeckCompat::Playable.label(), "Playable");
}

#[test]
fn sort_order_cycles_through_all() {
    let all = SortOrder::all();
    assert_eq!(all.len(), 10);
    let mut o = SortOrder::PurchaseDateDesc;
    for i in 0..10 {
        assert_eq!(o, all[i]);
        o = o.next();
    }
    assert_eq!(o, SortOrder::PurchaseDateDesc);
    assert_eq!(SortOrder::UserRatingDesc.next(), SortOrder::PurchaseDateDesc);
    assert_eq!(SortOrder::NameAsc.label(), "Name A-Z");
    assert_eq!(SortOrder::default(), SortOrder::PurchaseDateDesc);
}

#[test]
fn names_are_read_ignoring_case() {
    assert_eq!(BundleType::from_str("Humble_Choice"), BundleType::Choice);
    assert_eq!(BundleType::from_str("BOOKS"), BundleType::Book);
    assert_eq!(BundleType::from_str("humble_monthly"), BundleType::Monthly);
    assert_eq!(BundleType::from_str(""), BundleType::Unknown);
    for b in [BundleType::Classic, BundleType::Monthly, BundleType::Choice, BundleType::Book, BundleType::Software, BundleType::Unknown] {
        assert_eq!(BundleType::from_str(&b.as_str().to_uppercase()), b);
    }
    assert_eq!(Platform::from_str("STEAM"), Platform::Steam);
    assert_eq!(Platform::from_str("Battle.Net"), Platform::BattleNet);
}
