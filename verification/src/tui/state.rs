use vstd::prelude::*;

use super::order::{
    rank_keys_view, sort_positions, stable_sorted, RankKey, SortKey,
};
use super::genre_picker::{GenrePickerState, GenrePickerView};
use super::search::{fuzzy_matches, fuzzy_score};
use crate::models::choice::{picks_view, ChoicePick, ChoicePickView};
use crate::models::filter::{FilterState, FilterStateView, SortOrder, SourceFilter};
use crate::models::key::{
    keys_view, opt_view, platform_short_label, GameKey, GameKeyView, Platform, PlatformView,
    RedeemStatus,
};
use crate::models::metadata::{
    rank_of_rating, rating_rank, GameMetadata, GameMetadataView, ReviewCounts,
};
use crate::text::{chars_of, str_eq, string_views, to_lowercase, trim, trim_seq, unicode_lowercase};

verus! {

/// What the screen is doing with key presses.
#[derive(Debug, Clone, Copy, PartialEq, Eq, Structural)]
pub enum Mode {
    /// Navigating the key list
    Normal,
    /// Typing a search query
    Search,
    /// Auth modal: paste session cookie
    Auth,
    /// Export path input
    ExportPrompt,
    /// Non-fatal error displayed
    Error,
    /// Suggestion to sync (shown when cache is stale or never synced)
    SyncPrompt,
    /// Choosing a sort order from the list of all orders
    SortPicker,
    /// Choosing the genres and tags to filter by
    GenrePicker,
}

/// A unified row that can be either a regular key or a Choice pick
#[derive(Debug)]
pub enum ListItem {
    Key(GameKey),
    Choice(ChoicePick),
}

pub enum ListItemView {
    Key(GameKeyView),
    Choice(ChoicePickView),
}

impl View for ListItem {
    type V = ListItemView;

    open spec fn view(&self) -> ListItemView {
        match self {
            ListItem::Key(k) => ListItemView::Key(k@),
            ListItem::Choice(p) => ListItemView::Choice(p@),
        }
    }
}

impl Clone for ListItem {
    fn clone(&self) -> (r: ListItem)
        ensures
            r@ == self@,
    {
        match self {
            ListItem::Key(k) => ListItem::Key(k.clone()),
            ListItem::Choice(p) => ListItem::Choice(p.clone()),
        }
    }
}

/// The views of a sequence of rows.
pub open spec fn items_view(s: Seq<ListItem>) -> Seq<ListItemView> {
    s.map_values(|i: ListItem| i@)
}

pub open spec fn item_name(i: ListItemView) -> Seq<char> {
    match i {
        ListItemView::Key(k) => k.human_name,
        ListItemView::Choice(p) => p.human_name,
    }
}

pub open spec fn item_platform(i: ListItemView) -> PlatformView {
    match i {
        ListItemView::Key(k) => k.platform,
        ListItemView::Choice(p) => p.platform,
    }
}

pub open spec fn item_bundle(i: ListItemView) -> Seq<char> {
    match i {
        ListItemView::Key(k) => k.bundle_human_name,
        ListItemView::Choice(p) => p.choice_month,
    }
}

pub open spec fn item_steam_app_id(i: ListItemView) -> Option<u32> {
    match i {
        ListItemView::Key(k) => k.steam_app_id,
        ListItemView::Choice(p) => p.steam_app_id,
    }
}

pub open spec fn item_status_label(i: ListItemView) -> Seq<char> {
    match i {
        ListItemView::Key(k) => match k.redeem_status {
            RedeemStatus::Redeemed => "●"@,
            RedeemStatus::Unredeemed => "○"@,
            RedeemStatus::Expired => "✗"@,
            RedeemStatus::Unknown => "?"@,
        },
        ListItemView::Choice(_) => "⊕"@,
    }
}

impl ListItem {
    pub fn human_name(&self) -> (r: &str)
        ensures
            r@ == item_name(self@),
    {
        match self {
            ListItem::Key(k) => k.human_name.as_str(),
            ListItem::Choice(p) => p.human_name.as_str(),
        }
    }

    pub fn platform_label(&self) -> (r: &'static str)
        ensures
            r@ == platform_short_label(item_platform(self@)),
    {
        match self {
            ListItem::Key(k) => k.platform.short_label(),
            ListItem::Choice(p) => p.platform.short_label(),
        }
    }

    /// A one-character status mark: ● redeemed, ○ unredeemed, ✗ expired,
    /// ? unknown, ⊕ an unclaimed Choice pick.
    pub fn status_label(&self) -> (r: &'static str)
        ensures
            r@ == item_status_label(self@),
    {
        match self {
            ListItem::Key(k) => match k.redeem_status {
                RedeemStatus::Redeemed => "●",
                RedeemStatus::Unredeemed => "○",
                RedeemStatus::Expired => "✗",
                RedeemStatus::Unknown => "?",
            },
            ListItem::Choice(_) => "⊕",
        }
    }

    /// The bundle a key came from, or the month of a Choice pick.
    pub fn bundle_name(&self) -> (r: &str)
        ensures
            r@ == item_bundle(self@),
    {
        match self {
            ListItem::Key(k) => k.bundle_human_name.as_str(),
            ListItem::Choice(p) => p.choice_month.as_str(),
        }
    }

    pub fn is_choice(&self) -> (r: bool)
        ensures
            r == (self@ is Choice),
    {
        match self {
            ListItem::Key(_) => false,
            ListItem::Choice(_) => true,
        }
    }

    pub fn steam_app_id(&self) -> (r: Option<u32>)
        ensures
            r == item_steam_app_id(self@),
    {
        match self {
            ListItem::Key(k) => k.steam_app_id,
            ListItem::Choice(p) => p.steam_app_id,
        }
    }
}

// ── Filtering ───────────────────────────────────────────────────────────────

/// The search pattern for a query: trimmed, then lowercased.
pub open spec fn search_pattern(query: Seq<char>) -> Seq<char> {
    unicode_lowercase(trim_seq(query))
}

/// Whether a name passes the search: always for an empty pattern, else by the
/// fuzzy matcher on the lowercased name.
pub open spec fn name_passes(name: Seq<char>, pattern: Seq<char>) -> bool {
    pattern.len() == 0 || fuzzy_matches(unicode_lowercase(name), pattern)
}

/// Whether a platform passes the platform filter (an empty filter passes all).
pub open spec fn platform_passes(f: FilterStateView, p: PlatformView) -> bool {
    f.platforms.len() == 0 || f.platforms.contains(p)
}

/// The genres and tags stored for a Steam app id: its Steam genres, Steam
/// tags and IGDB genres (none when the app id or its metadata is unknown).
pub open spec fn app_tags(metas: Seq<GameMetadataView>, id: Option<u32>) -> Seq<Seq<char>> {
    match id {
        Some(id) => match meta_lookup(metas, id) {
            Some(m) => m.steam_genres + m.steam_tags + m.igdb_genres,
            None => Seq::empty(),
        },
        None => Seq::empty(),
    }
}

/// Whether an item passes the genre filter: an empty filter passes all;
/// otherwise one of the item's own genres or its app's stored genres and
/// tags must be in the filter.
pub open spec fn genre_passes(
    f: FilterStateView,
    own: Seq<Seq<char>>,
    metas: Seq<GameMetadataView>,
    id: Option<u32>,
) -> bool {
    f.genre_filter.len() == 0 || exists|i: int|
        0 <= i < f.genre_filter.len() && (own.contains(#[trigger] f.genre_filter[i])
            || app_tags(metas, id).contains(f.genre_filter[i]))
}

/// Whether a key is listed under filter `f` and search pattern `pattern`,
/// with `metas` the stored metadata.
pub open spec fn key_shown(
    f: FilterStateView,
    pattern: Seq<char>,
    metas: Seq<GameMetadataView>,
    k: GameKeyView,
) -> bool {
    &&& (f.show_expired || k.redeem_status != RedeemStatus::Expired)
    &&& (f.redeem_status matches Some(s) ==> k.redeem_status == s)
    &&& platform_passes(f, k.platform)
    &&& genre_passes(f, k.igdb_genres, metas, k.steam_app_id)
    &&& name_passes(k.human_name, pattern)
}

/// Whether some key has the machine name `name` (the pick has been claimed).
pub open spec fn claimed_by(keys: Seq<GameKeyView>, name: Seq<char>) -> bool {
    exists|i: int| 0 <= i < keys.len() && (#[trigger] keys[i]).tpkd_machine_name == name
}

/// Whether a Choice pick is listed: never once claimed (a key with the same
/// machine name exists) or when filtering to redeemed keys only.
pub open spec fn pick_shown(
    f: FilterStateView,
    pattern: Seq<char>,
    metas: Seq<GameMetadataView>,
    keys: Seq<GameKeyView>,
    p: ChoicePickView,
) -> bool {
    &&& !claimed_by(keys, p.machine_name)
    &&& f.redeem_status != Some(RedeemStatus::Redeemed)
    &&& (f.show_expired || !p.is_expired)
    &&& platform_passes(f, p.platform)
    &&& genre_passes(f, p.genres, metas, p.steam_app_id)
    &&& name_passes(p.human_name, pattern)
}

/// The keys that are listed, in their order.
pub open spec fn shown_keys(
    f: FilterStateView,
    pattern: Seq<char>,
    metas: Seq<GameMetadataView>,
    keys: Seq<GameKeyView>,
) -> Seq<
    ListItemView,
>
    decreases keys.len(),
{
    if keys.len() == 0 {
        Seq::empty()
    } else {
        let rest = shown_keys(f, pattern, metas, keys.drop_last());
        if key_shown(f, pattern, metas, keys.last()) {
            rest.push(ListItemView::Key(keys.last()))
        } else {
            rest
        }
    }
}

/// The picks that are listed, in their order.
pub open spec fn shown_picks(
    f: FilterStateView,
    pattern: Seq<char>,
    metas: Seq<GameMetadataView>,
    keys: Seq<GameKeyView>,
    picks: Seq<ChoicePickView>,
) -> Seq<ListItemView>
    decreases picks.len(),
{
    if picks.len() == 0 {
        Seq::empty()
    } else {
        let rest = shown_picks(f, pattern, metas, keys, picks.drop_last());
        if pick_shown(f, pattern, metas, keys, picks.last()) {
            rest.push(ListItemView::Choice(picks.last()))
        } else {
            rest
        }
    }
}

/// The rows that pass the filters, before sorting: keys first, then picks.
pub open spec fn candidates(
    f: FilterStateView,
    metas: Seq<GameMetadataView>,
    keys: Seq<GameKeyView>,
    picks: Seq<ChoicePickView>,
) -> Seq<ListItemView> {
    let pattern = search_pattern(f.search_query);
    (if f.source != SourceFilter::Choice {
        shown_keys(f, pattern, metas, keys)
    } else {
        Seq::empty()
    }) + (if f.source != SourceFilter::Keys {
        shown_picks(f, pattern, metas, keys, picks)
    } else {
        Seq::empty()
    })
}

// ── Sorting ─────────────────────────────────────────────────────────────────

/// The metadata stored for a Steam app id (the first entry for it).
pub open spec fn meta_lookup(metas: Seq<GameMetadataView>, id: u32) -> Option<GameMetadataView>
    decreases metas.len(),
{
    if metas.len() == 0 {
        None
    } else if metas[0].steam_app_id == id {
        Some(metas[0])
    } else {
        meta_lookup(metas.drop_first(), id)
    }
}

/// The Metacritic score of a row's game, if known.
pub open spec fn item_metacritic(metas: Seq<GameMetadataView>, i: ListItemView) -> Option<u32> {
    match item_steam_app_id(i) {
        Some(id) => match meta_lookup(metas, id) {
            Some(m) => m.metacritic_score,
            None => None,
        },
        None => None,
    }
}

/// The Steam review counts of a row's game, if known and not empty.
pub open spec fn item_user_rating(metas: Seq<GameMetadataView>, i: ListItemView) -> Option<ReviewCounts> {
    match item_steam_app_id(i) {
        Some(id) => match meta_lookup(metas, id) {
            Some(m) => match m.steam_user_rating {
                Some(c) => if c.positive + c.negative > 0 {
                    Some(c)
                } else {
                    None
                },
                None => None,
            },
            None => None,
        },
        None => None,
    }
}

/// The purchase time a row sorts by: seconds first, then the fraction of a
/// second (a second counts as 2e9 units, since a leap second's fraction can
/// pass one second); a Choice pick counts as the Unix epoch.
pub open spec fn item_purchase_date(i: ListItemView) -> int {
    match i {
        ListItemView::Key(k) => k.purchase_date * 2_000_000_000 + k.purchase_nanos,
        ListItemView::Choice(_) => 0,
    }
}

/// The key's expiry date or the pick's claim deadline.
pub open spec fn item_expiry(i: ListItemView) -> Option<i64> {
    match i {
        ListItemView::Key(k) => k.expiry_date,
        ListItemView::Choice(p) => p.claim_deadline,
    }
}

/// A known value first (ordered by `value`), unknown ones after.
pub open spec fn known_first(value: Option<int>) -> SortKey {
    match value {
        Some(v) => SortKey { group: 0, num: v, text: Seq::empty() },
        None => SortKey { group: 1, num: 0, text: Seq::empty() },
    }
}

/// What a row is ordered by under `order`.
pub open spec fn item_sort_key(order: SortOrder, metas: Seq<GameMetadataView>, i: ListItemView) -> SortKey {
    match order {
        SortOrder::PurchaseDateDesc => SortKey { group: 0, num: -item_purchase_date(i), text: Seq::empty() },
        SortOrder::PurchaseDateAsc => SortKey { group: 0, num: item_purchase_date(i), text: Seq::empty() },
        SortOrder::NameAsc | SortOrder::NameDesc => SortKey { group: 0, num: 0, text: item_name(i) },
        SortOrder::BundleAsc | SortOrder::BundleDesc => SortKey { group: 0, num: 0, text: item_bundle(i) },
        SortOrder::ExpiryAsc => known_first(
            match item_expiry(i) {
                Some(e) => Some(e as int),
                None => None,
            },
        ),
        SortOrder::PlatformAsc => SortKey {
            group: 0,
            num: 0,
            text: platform_short_label(item_platform(i)),
        },
        SortOrder::MetacriticDesc => known_first(
            match item_metacritic(metas, i) {
                Some(s) => Some(-(s as int)),
                None => None,
            },
        ),
        SortOrder::UserRatingDesc => known_first(
            match item_user_rating(metas, i) {
                Some(c) => Some(-rating_rank(c)),
                None => None,
            },
        ),
    }
}

/// Whether text keys go from Z to A under `order`.
pub open spec fn text_descending(order: SortOrder) -> bool {
    order == SortOrder::NameDesc || order == SortOrder::BundleDesc
}

/// The sort keys of rows.
pub open spec fn sort_keys(order: SortOrder, metas: Seq<GameMetadataView>, items: Seq<ListItemView>) -> Seq<SortKey> {
    items.map_values(|i: ListItemView| item_sort_key(order, metas, i))
}

/// The views of a sequence of metadata entries.
pub open spec fn metas_view(s: Seq<GameMetadata>) -> Seq<GameMetadataView> {
    s.map_values(|m: GameMetadata| m@)
}

// ── The UI state ────────────────────────────────────────────────────────────

pub struct UiState {
    pub mode: Mode,
    pub filter: FilterState,
    /// All keys loaded (from cache or sync)
    pub all_keys: Vec<GameKey>,
    /// All Choice picks loaded
    pub all_picks: Vec<ChoicePick>,
    /// Filtered + sorted view shown in the table
    pub visible: Vec<ListItem>,
    /// The selected row of `visible`
    pub selected: Option<usize>,
    /// Sync progress (done/total)
    pub sync_progress: Option<(u32, u32)>,
    pub sync_label: String,
    pub last_error: Option<String>,
    /// Accumulator for search input
    pub search_input: String,
    /// Auth input (session cookie)
    pub auth_input: String,
    pub auth_input_visible: bool,
    /// Export path input
    pub export_input: String,
    /// Message shown in SyncPrompt modal (e.g. "3 days ago" or "never synced")
    pub sync_prompt_msg: String,
    /// Enrichment data, one entry per Steam app id
    pub metadata_map: Vec<GameMetadata>,
    /// Metadata sync progress (done/total)
    pub metadata_progress: Option<(u32, u32)>,
    /// The highlighted row of the sort picker
    pub sort_picker_cursor: usize,
    /// The genre/tag picker while it is open
    pub genre_picker: Option<GenrePickerState>,
}

pub struct UiStateView {
    pub mode: Mode,
    pub filter: FilterStateView,
    pub all_keys: Seq<GameKeyView>,
    pub all_picks: Seq<ChoicePickView>,
    pub visible: Seq<ListItemView>,
    pub selected: Option<usize>,
    pub sync_progress: Option<(u32, u32)>,
    pub sync_label: Seq<char>,
    pub last_error: Option<Seq<char>>,
    pub search_input: Seq<char>,
    pub auth_input: Seq<char>,
    pub auth_input_visible: bool,
    pub export_input: Seq<char>,
    pub sync_prompt_msg: Seq<char>,
    pub metadata_map: Seq<GameMetadataView>,
    pub metadata_progress: Option<(u32, u32)>,
    pub sort_picker_cursor: usize,
    pub genre_picker: Option<GenrePickerView>,
}

impl View for UiState {
    type V = UiStateView;

    open spec fn view(&self) -> UiStateView {
        UiStateView {
            mode: self.mode,
            filter: self.filter@,
            all_keys: keys_view(self.all_keys@),
            all_picks: picks_view(self.all_picks@),
            visible: items_view(self.visible@),
            selected: self.selected,
            sync_progress: self.sync_progress,
            sync_label: self.sync_label@,
            last_error: opt_view(self.last_error),
            search_input: self.search_input@,
            auth_input: self.auth_input@,
            auth_input_visible: self.auth_input_visible,
            export_input: self.export_input@,
            sync_prompt_msg: self.sync_prompt_msg@,
            metadata_map: metas_view(self.metadata_map@),
            metadata_progress: self.metadata_progress,
            sort_picker_cursor: self.sort_picker_cursor,
            genre_picker: match self.genre_picker {
                Some(p) => Some(p@),
                None => None,
            },
        }
    }
}

/// The rows shown for a state's filter and data: the candidates, stably
/// sorted by the filter's order.
pub open spec fn shows_sorted(s: UiStateView, visible: Seq<ListItemView>) -> bool {
    let c = candidates(s.filter, s.metadata_map, s.all_keys, s.all_picks);
    stable_sorted(
        c,
        sort_keys(s.filter.sort, s.metadata_map, c),
        text_descending(s.filter.sort),
        visible,
    )
}

/// The selection after the list changed to `len` rows: none for an empty
/// list, else the old row (or the first) clamped to the last row.
pub open spec fn clamped_selection(selected: Option<usize>, len: int) -> Option<usize> {
    if len == 0 {
        None
    } else {
        let cur = match selected {
            Some(i) => i as int,
            None => 0,
        };
        Some((if cur < len - 1 {
            cur
        } else {
            len - 1
        }) as usize)
    }
}

/// The selection after moving one row down.
pub open spec fn after_move_down(s: UiStateView) -> UiStateView {
    UiStateView {
        selected: if s.visible.len() == 0 {
            s.selected
        } else {
            match s.selected {
                None => Some(0usize),
                Some(i) => Some(
                    (if i + 1 < s.visible.len() - 1 {
                        i + 1
                    } else {
                        s.visible.len() - 1
                    }) as usize,
                ),
            }
        },
        ..s
    }
}

/// The selection after moving one row up.
pub open spec fn after_move_up(s: UiStateView) -> UiStateView {
    UiStateView {
        selected: if s.visible.len() == 0 {
            s.selected
        } else {
            match s.selected {
                None => Some(0usize),
                Some(i) => Some(
                    (if i >= 1 {
                        i - 1
                    } else {
                        0
                    }) as usize,
                ),
            }
        },
        ..s
    }
}

/// The selection after jumping to the first row.
pub open spec fn after_jump_top(s: UiStateView) -> UiStateView {
    UiStateView {
        selected: if s.visible.len() == 0 {
            s.selected
        } else {
            Some(0usize)
        },
        ..s
    }
}

/// The selection after jumping to the last row.
pub open spec fn after_jump_bottom(s: UiStateView) -> UiStateView {
    UiStateView {
        selected: if s.visible.len() == 0 {
            s.selected
        } else {
            Some((s.visible.len() - 1) as usize)
        },
        ..s
    }
}

/// The selection after moving `page` rows down.
pub open spec fn after_page_down(s: UiStateView, page: usize) -> UiStateView {
    UiStateView {
        selected: if s.visible.len() == 0 {
            s.selected
        } else {
            match s.selected {
                None => Some(0usize),
                Some(i) => Some(
                    (if i + page < s.visible.len() - 1 {
                        i + page
                    } else {
                        s.visible.len() - 1
                    }) as usize,
                ),
            }
        },
        ..s
    }
}

/// The selection after moving `page` rows up.
pub open spec fn after_page_up(s: UiStateView, page: usize) -> UiStateView {
    UiStateView {
        selected: if s.visible.len() == 0 {
            s.selected
        } else {
            match s.selected {
                None => Some(0usize),
                Some(i) => Some(
                    (if i >= page {
                        i - page
                    } else {
                        0
                    }) as usize,
                ),
            }
        },
        ..s
    }
}

/// `t` is `s` with its list rebuilt from its filter and data
/// (what `apply_filters` does).
pub open spec fn refreshed(s: UiStateView, t: UiStateView) -> bool {
    &&& shows_sorted(s, t.visible)
    &&& t == (UiStateView {
        visible: t.visible,
        selected: clamped_selection(s.selected, t.visible.len() as int),
        ..s
    })
}

/// The row that `s` has selected, if it is a row of the list.
pub open spec fn selected_view(s: UiStateView) -> Option<ListItemView> {
    match s.selected {
        Some(i) => if i < s.visible.len() {
            Some(s.visible[i as int])
        } else {
            None
        },
        None => None,
    }
}

/// The selection of `s` is a row of its list (or there is none).
pub open spec fn selection_in_bounds(s: UiStateView) -> bool {
    s.selected matches Some(i) ==> i < s.visible.len()
}

/// The platform filter of `f` holds `p`.
fn platforms_contain(ps: &Vec<Platform>, p: &Platform) -> (r: bool)
    ensures
        r == ps@.map_values(|q: Platform| q@).contains(p@),
{
    let ghost pv = ps@.map_values(|q: Platform| q@);
    let mut i: usize = 0;
    while i < ps.len()
        invariant
            pv == ps@.map_values(|q: Platform| q@),
            i <= ps@.len(),
            forall|k: int| 0 <= k < i ==> pv[k] != p@,
        decreases ps@.len() - i,
    {
        if ps[i].same_as(p) {
            assert(pv[i as int] == p@);
            return true;
        }
        i = i + 1;
    }
    false
}

/// Whether a key with machine name `name` is among `keys`.
fn claimed(keys: &Vec<GameKey>, name: &str) -> (r: bool)
    ensures
        r == claimed_by(keys_view(keys@), name@),
{
    let ghost kv = keys_view(keys@);
    let mut i: usize = 0;
    while i < keys.len()
        invariant
            kv == keys_view(keys@),
            i <= keys@.len(),
            forall|k: int| 0 <= k < i ==> kv[k].tpkd_machine_name != name@,
        decreases keys@.len() - i,
    {
        if str_eq(keys[i].tpkd_machine_name.as_str(), name) {
            assert(kv[i as int].tpkd_machine_name == name@);
            return true;
        }
        i = i + 1;
    }
    false
}

/// Whether `name` passes the search for `pattern`.
fn name_matches(name: &str, pattern: &str) -> (r: bool)
    ensures
        r == name_passes(name@, pattern@),
{
    if pattern.unicode_len() == 0 {
        return true;
    }
    let lower = to_lowercase(name);
    fuzzy_score(lower.as_str(), pattern).is_some()
}

/// Whether `s` is one of `v`.
fn strings_contain(v: &Vec<String>, s: &str) -> (r: bool)
    ensures
        r == string_views(v@).contains(s@),
{
    let ghost sv = string_views(v@);
    let mut i: usize = 0;
    while i < v.len()
        invariant
            sv == string_views(v@),
            i <= v@.len(),
            forall|k: int| 0 <= k < i ==> sv[k] != s@,
        decreases v@.len() - i,
    {
        if str_eq(v[i].as_str(), s) {
            assert(sv[i as int] == s@);
            return true;
        }
        i = i + 1;
    }
    false
}

/// Whether `t` is among the genres and tags stored in `m`.
fn meta_has_tag(m: &GameMetadata, t: &str) -> (r: bool)
    ensures
        r == (m@.steam_genres + m@.steam_tags + m@.igdb_genres).contains(t@),
{
    let a = strings_contain(&m.steam_genres, t);
    let b = strings_contain(&m.steam_tags, t);
    let c = strings_contain(&m.igdb_genres, t);
    proof {
        let all = m@.steam_genres + m@.steam_tags + m@.igdb_genres;
        if a {
            let k = choose|k: int| 0 <= k < m@.steam_genres.len() && m@.steam_genres[k] == t@;
            assert(all[k] == t@);
        } else if b {
            let k = choose|k: int| 0 <= k < m@.steam_tags.len() && m@.steam_tags[k] == t@;
            assert(all[m@.steam_genres.len() + k] == t@);
        } else if c {
            let k = choose|k: int| 0 <= k < m@.igdb_genres.len() && m@.igdb_genres[k] == t@;
            assert(all[m@.steam_genres.len() + m@.steam_tags.len() + k] == t@);
        } else if all.contains(t@) {
            let k = choose|k: int| 0 <= k < all.len() && all[k] == t@;
            if k < m@.steam_genres.len() {
                assert(m@.steam_genres[k] == t@);
            } else if k < m@.steam_genres.len() + m@.steam_tags.len() {
                assert(m@.steam_tags[k - m@.steam_genres.len()] == t@);
            } else {
                assert(m@.igdb_genres[k - m@.steam_genres.len() - m@.steam_tags.len()] == t@);
            }
        }
    }
    a || b || c
}

/// Whether an item with genres `own` and Steam app id `id` passes the genre
/// filter of `f`.
fn genre_matches(f: &FilterState, own: &Vec<String>, metas: &Vec<GameMetadata>, id: Option<u32>) -> (r: bool)
    ensures
        r == genre_passes(f@, string_views(own@), metas_view(metas@), id),
{
    if f.genre_filter.len() == 0 {
        return true;
    }
    let meta = match id {
        Some(n) => metadata_for(metas, n),
        None => None,
    };
    let ghost tags = app_tags(metas_view(metas@), id);
    let ghost gf = f@.genre_filter;
    let mut i: usize = 0;
    while i < f.genre_filter.len()
        invariant
            gf == f@.genre_filter,
            gf == string_views(f.genre_filter@),
            i <= gf.len(),
            tags == app_tags(metas_view(metas@), id),
            match meta {
                Some(m) => tags == m@.steam_genres + m@.steam_tags + m@.igdb_genres,
                None => tags == Seq::<Seq<char>>::empty(),
            },
            forall|k: int| 0 <= k < i ==> !(string_views(own@).contains(#[trigger] gf[k]) || tags.contains(gf[k])),
        decreases gf.len() - i,
    {
        let t = f.genre_filter[i].as_str();
        let hit = strings_contain(own, t) || match meta {
            Some(m) => meta_has_tag(m, t),
            None => false,
        };
        if hit {
            assert(gf[i as int] == t@);
            return true;
        }
        i = i + 1;
    }
    false
}

fn key_passes(f: &FilterState, pattern: &str, metas: &Vec<GameMetadata>, k: &GameKey) -> (r: bool)
    ensures
        r == key_shown(f@, pattern@, metas_view(metas@), k@),
{
    if !f.show_expired && k.redeem_status == RedeemStatus::Expired {
        return false;
    }
    if let Some(s) = f.redeem_status {
        if k.redeem_status != s {
            return false;
        }
    }
    if f.platforms.len() > 0 && !platforms_contain(&f.platforms, &k.platform) {
        return false;
    }
    if !genre_matches(f, &k.igdb_genres, metas, k.steam_app_id) {
        return false;
    }
    name_matches(k.human_name.as_str(), pattern)
}

fn pick_passes(
    f: &FilterState,
    pattern: &str,
    metas: &Vec<GameMetadata>,
    keys: &Vec<GameKey>,
    p: &ChoicePick,
) -> (r: bool)
    ensures
        r == pick_shown(f@, pattern@, metas_view(metas@), keys_view(keys@), p@),
{
    if claimed(keys, p.machine_name.as_str()) {
        return false;
    }
    if f.redeem_status == Some(RedeemStatus::Redeemed) {
        return false;
    }
    if !f.show_expired && p.is_expired {
        return false;
    }
    if f.platforms.len() > 0 && !platforms_contain(&f.platforms, &p.platform) {
        return false;
    }
    if !genre_matches(f, &p.genres, metas, p.steam_app_id) {
        return false;
    }
    name_matches(p.human_name.as_str(), pattern)
}

/// The metadata stored for a Steam app id.
pub fn metadata_for(metas: &Vec<GameMetadata>, id: u32) -> (r: Option<&GameMetadata>)
    ensures
        match r {
            Some(m) => meta_lookup(metas_view(metas@), id) == Some(m@),
            None => meta_lookup(metas_view(metas@), id) is None,
        },
{
    let ghost mv = metas_view(metas@);
    let mut i: usize = 0;
    assert(mv.subrange(0, mv.len() as int) == mv);
    while i < metas.len()
        invariant
            mv == metas_view(metas@),
            i <= metas@.len(),
            meta_lookup(mv, id) == meta_lookup(mv.subrange(i as int, mv.len() as int), id),
        decreases metas@.len() - i,
    {
        let ghost rest = mv.subrange(i as int, mv.len() as int);
        assert(rest[0] == metas@[i as int]@);
        if metas[i].steam_app_id == id {
            return Some(&metas[i]);
        }
        assert(rest.drop_first() == mv.subrange(i + 1, mv.len() as int));
        i = i + 1;
    }
    None
}

fn known_first_key(value: Option<i128>) -> (r: RankKey)
    ensures
        r@ == known_first(
            match value {
                Some(v) => Some(v as int),
                None => None,
            },
        ),
{
    match value {
        Some(v) => RankKey { group: 0, num: v, text: Vec::new() },
        None => RankKey { group: 1, num: 0, text: Vec::new() },
    }
}

/// What `item` is ordered by under `order`.
fn rank_key(order: SortOrder, metas: &Vec<GameMetadata>, item: &ListItem) -> (r: RankKey)
    ensures
        r@ == item_sort_key(order, metas_view(metas@), item@),
{
    match order {
        SortOrder::PurchaseDateDesc | SortOrder::PurchaseDateAsc => {
            let d: i128 = match item {
                ListItem::Key(k) => k.purchase_date as i128 * 2_000_000_000 + k.purchase_nanos as i128,
                ListItem::Choice(_) => 0,
            };
            let num: i128 = if order == SortOrder::PurchaseDateDesc {
                -d
            } else {
                d
            };
            RankKey { group: 0, num, text: Vec::new() }
        },
        SortOrder::NameAsc | SortOrder::NameDesc => RankKey {
            group: 0,
            num: 0,
            text: chars_of(item.human_name()),
        },
        SortOrder::BundleAsc | SortOrder::BundleDesc => RankKey {
            group: 0,
            num: 0,
            text: chars_of(item.bundle_name()),
        },
        SortOrder::PlatformAsc => RankKey {
            group: 0,
            num: 0,
            text: chars_of(item.platform_label()),
        },
        SortOrder::ExpiryAsc => {
            let e = match item {
                ListItem::Key(k) => k.expiry_date,
                ListItem::Choice(p) => p.claim_deadline,
            };
            known_first_key(
                match e {
                    Some(e) => Some(e as i128),
                    None => None,
                },
            )
        },
        SortOrder::MetacriticDesc => {
            let score: Option<u32> = match item.steam_app_id() {
                Some(id) => match metadata_for(metas, id) {
                    Some(m) => m.metacritic_score,
                    None => None,
                },
                None => None,
            };
            known_first_key(
                match score {
                    Some(s) => Some(-(s as i128)),
                    None => None,
                },
            )
        },
        SortOrder::UserRatingDesc => {
            let rank: Option<i128> = match item.steam_app_id() {
                Some(id) => match metadata_for(metas, id) {
                    Some(m) => match m.steam_user_rating {
                        Some(c) => if c.positive > 0 || c.negative > 0 {
                            Some(rank_of_rating(c))
                        } else {
                            None
                        },
                        None => None,
                    },
                    None => None,
                },
                None => None,
            };
            known_first_key(
                match rank {
                    Some(r) => Some(-r),
                    None => None,
                },
            )
        },
    }
}

impl UiState {
    /// The initial state: normal mode, default filter (expired items hidden),
    /// nothing loaded. `default_sort` and `show_redeemed` are accepted as the
    /// configuration gives them; the filter starts at its default order.
    pub fn new(default_sort: &str, show_redeemed: bool) -> (r: UiState)
        ensures
            r@.mode == Mode::Normal,
            r@.filter.search_query.len() == 0,
            r@.filter.platforms.len() == 0,
            r@.filter.redeem_status is None,
            r@.filter.sort == SortOrder::PurchaseDateDesc,
            !r@.filter.show_expired,
            r@.filter.source == SourceFilter::All,
            r@.filter.genre_filter.len() == 0,
            r@.all_keys.len() == 0,
            r@.all_picks.len() == 0,
            r@.visible.len() == 0,
            r@.selected is None,
            r@.sync_progress is None,
            r@.sync_label.len() == 0,
            r@.last_error is None,
            r@.search_input.len() == 0,
            r@.auth_input.len() == 0,
            !r@.auth_input_visible,
            r@.export_input.len() == 0,
            r@.sync_prompt_msg.len() == 0,
            r@.metadata_map.len() == 0,
            r@.metadata_progress is None,
            r@.sort_picker_cursor == 0,
            r@.genre_picker is None,
    {
        let filter = FilterState {
            search_query: String::new(),
            platforms: Vec::new(),
            redeem_status: None,
            sort: SortOrder::PurchaseDateDesc,
            show_expired: false,
            source: SourceFilter::All,
            genre_filter: Vec::new(),
        };
        UiState {
            mode: Mode::Normal,
            filter,
            all_keys: Vec::new(),
            all_picks: Vec::new(),
            visible: Vec::new(),
            selected: None,
            sync_progress: None,
            sync_label: String::new(),
            last_error: None,
            search_input: String::new(),
            auth_input: String::new(),
            auth_input_visible: false,
            export_input: String::new(),
            sync_prompt_msg: String::new(),
            metadata_map: Vec::new(),
            metadata_progress: None,
            sort_picker_cursor: 0,
            genre_picker: None,
        }
    }

    /// The rows passing the filters, keys first, then picks (unsorted).
    fn filtered_rows(&self) -> (r: Vec<ListItem>)
        ensures
            items_view(r@) == candidates(self@.filter, self@.metadata_map, self@.all_keys, self@.all_picks),
    {
        let trimmed = trim(self.filter.search_query.as_str());
        let pattern = to_lowercase(trimmed.as_str());
        let ghost f = self@.filter;
        let ghost kv = self@.all_keys;
        let ghost pv = self@.all_picks;
        let ghost mv = self@.metadata_map;
        assert(pattern@ == search_pattern(f.search_query));
        let mut items: Vec<ListItem> = Vec::new();
        if self.filter.source != SourceFilter::Choice {
            let mut i: usize = 0;
            while i < self.all_keys.len()
                invariant
                    f == self.filter@,
                    kv == keys_view(self.all_keys@),
                    i <= self.all_keys@.len(),
                    items_view(items@) == shown_keys(f, pattern@, mv, kv.subrange(0, i as int)),
                    mv == metas_view(self.metadata_map@),
                decreases self.all_keys@.len() - i,
            {
                assert(kv.subrange(0, i + 1).drop_last() == kv.subrange(0, i as int));
                let k = &self.all_keys[i];
                if key_passes(&self.filter, pattern.as_str(), &self.metadata_map, k) {
                    items.push(ListItem::Key(k.clone()));
                    assert(items_view(items@) =~= shown_keys(
                        f,
                        pattern@,
                        mv,
                        kv.subrange(0, i as int),
                    ).push(ListItemView::Key(k@)));
                }
                i = i + 1;
            }
            assert(kv.subrange(0, kv.len() as int) == kv);
        }
        let ghost key_part = items_view(items@);
        let mut j: usize = 0;
        if self.filter.source != SourceFilter::Keys {
            while j < self.all_picks.len()
                invariant
                    f == self.filter@,
                    kv == keys_view(self.all_keys@),
                    pv == picks_view(self.all_picks@),
                    j <= self.all_picks@.len(),
                    mv == metas_view(self.metadata_map@),
                    items_view(items@) == key_part + shown_picks(
                        f,
                        pattern@,
                        mv,
                        kv,
                        pv.subrange(0, j as int),
                    ),
                decreases self.all_picks@.len() - j,
            {
                assert(pv.subrange(0, j + 1).drop_last() == pv.subrange(0, j as int));
                let p = &self.all_picks[j];
                if pick_passes(&self.filter, pattern.as_str(), &self.metadata_map, &self.all_keys, p) {
                    let ghost before = items_view(items@);
                    items.push(ListItem::Choice(p.clone()));
                    assert(items_view(items@) =~= before.push(ListItemView::Choice(p@)));
                    assert(items_view(items@) =~= key_part + shown_picks(
                        f,
                        pattern@,
                        mv,
                        kv,
                        pv.subrange(0, j as int),
                    ).push(ListItemView::Choice(p@)));
                }
                j = j + 1;
            }
            assert(pv.subrange(0, pv.len() as int) == pv);
        }
        assert(items_view(items@) =~= candidates(f, mv, kv, pv));
        items
    }

    /// Rebuild the `visible` list from all_keys + all_picks applying current
    /// filters and the current sort order, and keep the selection in bounds.
    pub fn apply_filters(&mut self)
        ensures
            refreshed(old(self)@, final(self)@),
    {
        let items = self.filtered_rows();
        let ghost c = items_view(items@);
        let order = self.filter.sort;
        let mut keys: Vec<RankKey> = Vec::new();
        let mut i: usize = 0;
        while i < items.len()
            invariant
                i <= items@.len(),
                keys@.len() == i,
                forall|k: int|
                    0 <= k < i ==> (#[trigger] keys@[k])@ == item_sort_key(
                        order,
                        metas_view(self.metadata_map@),
                        items@[k]@,
                    ),
            decreases items@.len() - i,
        {
            keys.push(rank_key(order, &self.metadata_map, &items[i]));
            i = i + 1;
        }
        let ghost kv = sort_keys(order, metas_view(self.metadata_map@), c);
        assert(rank_keys_view(keys@) =~= kv);
        let desc = order == SortOrder::NameDesc || order == SortOrder::BundleDesc;
        let positions = sort_positions(&keys, desc);
        let mut out: Vec<ListItem> = Vec::new();
        let mut k: usize = 0;
        while k < positions.len()
            invariant
                positions@.len() == items@.len(),
                forall|m: int| 0 <= m < positions@.len() ==> #[trigger] positions@[m] < items@.len(),
                k <= positions@.len(),
                out@.len() == k,
                forall|m: int|
                    0 <= m < k ==> (#[trigger] out@[m])@ == items@[positions@[m] as int]@,
            decreases positions@.len() - k,
        {
            out.push(items[positions[k]].clone());
            k = k + 1;
        }
        proof {
            let ov = items_view(out@);
            assert(forall|m: int| 0 <= m < ov.len() ==> #[trigger] ov[m] == c[positions@[m] as int]);
            assert(stable_sorted(c, kv, desc, ov));
        }
        self.visible = out;
        let len = self.visible.len();
        if len == 0 {
            self.selected = None;
        } else {
            let current = match self.selected {
                Some(i) => i,
                None => 0,
            };
            self.selected = Some(if current < len - 1 {
                current
            } else {
                len - 1
            });
        }
    }

    pub fn selected_item(&self) -> (r: Option<&ListItem>)
        ensures
            match r {
                Some(item) => selected_view(self@) == Some(item@),
                None => selected_view(self@) is None,
            },
    {
        match self.selected {
            Some(i) => if i < self.visible.len() {
                Some(&self.visible[i])
            } else {
                None
            },
            None => None,
        }
    }

    /// Selects the next row (the first when nothing is selected), stopping at
    /// the last; does nothing on an empty list.
    pub fn move_down(&mut self)
        ensures
            final(self)@ == after_move_down(old(self)@),
    {
        let len = self.visible.len();
        if len == 0 {
            return;
        }
        let next = match self.selected {
            None => 0,
            Some(i) => if i < len - 1 {
                i + 1
            } else {
                len - 1
            },
        };
        self.selected = Some(next);
    }

    /// Selects the previous row (the first when nothing is selected), stopping
    /// at the first; does nothing on an empty list.
    pub fn move_up(&mut self)
        ensures
            final(self)@ == after_move_up(old(self)@),
    {
        let len = self.visible.len();
        if len == 0 {
            return;
        }
        let next = match self.selected {
            None => 0,
            Some(i) => i.saturating_sub(1),
        };
        self.selected = Some(next);
    }

    /// Selects the first row of a non-empty list.
    pub fn jump_top(&mut self)
        ensures
            final(self)@ == after_jump_top(old(self)@),
    {
        if self.visible.len() > 0 {
            self.selected = Some(0);
        }
    }

    /// Selects the last row of a non-empty list.
    pub fn jump_bottom(&mut self)
        ensures
            final(self)@ == after_jump_bottom(old(self)@),
    {
        let len = self.visible.len();
        if len > 0 {
            self.selected = Some(len - 1);
        }
    }

    /// Moves the selection `page_size` rows down, stopping at the last row.
    pub fn page_down(&mut self, page_size: usize)
        ensures
            final(self)@ == after_page_down(old(self)@, page_size),
    {
        let len = self.visible.len();
        if len == 0 {
            return;
        }
        let next = match self.selected {
            None => 0,
            Some(i) => if i < len - 1 && page_size < len - 1 - i {
                i + page_size
            } else {
                len - 1
            },
        };
        self.selected = Some(next);
    }

    /// Moves the selection `page_size` rows up, stopping at the first row.
    pub fn page_up(&mut self, page_size: usize)
        ensures
            final(self)@ == after_page_up(old(self)@, page_size),
    {
        if self.visible.len() == 0 {
            return;
        }
        let next = match self.selected {
            None => 0,
            Some(i) => i.saturating_sub(page_size),
        };
        self.selected = Some(next);
    }
}

} // verus!
