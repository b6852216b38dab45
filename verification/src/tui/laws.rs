use vstd::prelude::*;

use super::app_event::{AppEvent, CmdView, InputEvent, KeyCode, KeyPress};
use super::order::{
    is_permutation, key_lt, ranked, rank_lt, stable_sorted, SortKey, lemma_rank_lt_order,
};
use super::state::{
    after_jump_bottom, after_jump_top, after_move_down, after_move_up, after_page_down,
    after_page_up, candidates, claimed_by, clamped_selection, meta_lookup, refreshed,
    selection_in_bounds, shown_keys, shown_picks, search_pattern, ListItemView, Mode,
    UiStateView, key_shown, pick_shown, item_sort_key, text_descending, sort_keys, item_name,
    item_bundle, item_platform, item_expiry, item_metacritic, item_user_rating,
    item_purchase_date,
};
use super::update::{
    auth_outcome, key_index, key_outcome, merge_key, merge_keys, meta_index, next_source,
    next_status_filter, other_months, search_outcome, sort_picker_outcome, stale_message,
    upsert_meta, day_seconds, event_outcome,
};
use crate::models::choice::ChoicePickView;
use crate::models::filter::{FilterStateView, SortOrder, SourceFilter};
use crate::models::key::{keys_view, platform_short_label, GameKey, GameKeyView, RedeemStatus};
use crate::models::metadata::{rating_rank, GameMetadataView};
use crate::text::{
    lemma_text_lt_irreflexive, lemma_text_lt_total, lemma_text_lt_transitive, text_lt, trim_seq,
};

verus! {

// ── The list ────────────────────────────────────────────────────────────────

proof fn lemma_shown_picks_unclaimed(
    f: FilterStateView,
    pattern: Seq<char>,
    metas: Seq<GameMetadataView>,
    keys: Seq<GameKeyView>,
    picks: Seq<ChoicePickView>,
    i: int,
)
    requires
        0 <= i < shown_picks(f, pattern, metas, keys, picks).len(),
    ensures
        shown_picks(f, pattern, metas, keys, picks)[i] matches ListItemView::Choice(p) && pick_shown(
            f,
            pattern,
            metas,
            keys,
            p,
        ),
    decreases picks.len(),
{
    if picks.len() > 0 {
        let rest = shown_picks(f, pattern, metas, keys, picks.drop_last());
        if i < rest.len() {
            lemma_shown_picks_unclaimed(f, pattern, metas, keys, picks.drop_last(), i);
        }
    }
}

proof fn lemma_shown_keys_are_keys(
    f: FilterStateView,
    pattern: Seq<char>,
    metas: Seq<GameMetadataView>,
    keys: Seq<GameKeyView>,
    i: int,
)
    requires
        0 <= i < shown_keys(f, pattern, metas, keys).len(),
    ensures
        shown_keys(f, pattern, metas, keys)[i] matches ListItemView::Key(k) && key_shown(f, pattern, metas, k),
    decreases keys.len(),
{
    if keys.len() > 0 {
        let rest = shown_keys(f, pattern, metas, keys.drop_last());
        if i < rest.len() {
            lemma_shown_keys_are_keys(f, pattern, metas, keys.drop_last(), i);
        }
    }
}

/// Every row of a rebuilt list passes the filters: a key is listed only if it
/// passes the status, expiry, platform, genre and search filters, and a Choice pick
/// only if no key has its machine name (claimed picks are never listed) and
/// the status filter is not "redeemed".
pub proof fn law_listed_rows_pass_filters(s: UiStateView, t: UiStateView, i: int)
    requires
        refreshed(s, t),
        0 <= i < t.visible.len(),
    ensures
        match t.visible[i] {
            ListItemView::Key(k) => s.filter.source != SourceFilter::Choice && key_shown(
                s.filter,
                search_pattern(s.filter.search_query),
                s.metadata_map,
                k,
            ),
            ListItemView::Choice(p) => {
                &&& s.filter.source != SourceFilter::Keys
                &&& pick_shown(
                    s.filter,
                    search_pattern(s.filter.search_query),
                    s.metadata_map,
                    s.all_keys,
                    p,
                )
                &&& !claimed_by(s.all_keys, p.machine_name)
                &&& s.filter.redeem_status != Some(RedeemStatus::Redeemed)
            },
        },
{
    let c = candidates(s.filter, s.metadata_map, s.all_keys, s.all_picks);
    let pat = search_pattern(s.filter.search_query);
    let order = choose|order: Seq<usize>|
        {
            &&& is_permutation(order, c.len() as int)
            &&& ranked(
                super::state::sort_keys(s.filter.sort, s.metadata_map, c),
                super::state::text_descending(s.filter.sort),
                order,
            )
            &&& t.visible.len() == c.len()
            &&& forall|k: int| 0 <= k < t.visible.len() ==> #[trigger] t.visible[k] == c[order[k] as int]
        };
    let j = order[i] as int;
    assert(t.visible[i] == c[j]);
    let kpart = if s.filter.source != SourceFilter::Choice {
        shown_keys(s.filter, pat, s.metadata_map, s.all_keys)
    } else {
        Seq::empty()
    };
    let ppart = if s.filter.source != SourceFilter::Keys {
        shown_picks(s.filter, pat, s.metadata_map, s.all_keys, s.all_picks)
    } else {
        Seq::empty()
    };
    assert(c == kpart + ppart);
    if j < kpart.len() {
        lemma_shown_keys_are_keys(s.filter, pat, s.metadata_map, s.all_keys, j);
        assert(c[j] == kpart[j]);
    } else {
        lemma_shown_picks_unclaimed(s.filter, pat, s.metadata_map, s.all_keys, s.all_picks, j - kpart.len());
        assert(c[j] == ppart[j - kpart.len()]);
    }
}

proof fn lemma_key_lt_asymmetric(a: SortKey, b: SortKey, d: bool)
    requires
        key_lt(a, b, d),
    ensures
        !key_lt(b, a, d),
{
    if a.group == b.group && a.num == b.num {
        if text_lt(a.text, b.text) && text_lt(b.text, a.text) {
            lemma_text_lt_transitive(a.text, b.text, a.text);
            lemma_text_lt_irreflexive(a.text);
        }
    }
}

/// Of two listed rows, the later one never sorts strictly before the earlier.
proof fn lemma_listed_pair_in_order(s: UiStateView, t: UiStateView, i: int, j: int)
    requires
        refreshed(s, t),
        0 <= i < j < t.visible.len(),
    ensures
        !key_lt(
            item_sort_key(s.filter.sort, s.metadata_map, t.visible[j]),
            item_sort_key(s.filter.sort, s.metadata_map, t.visible[i]),
            text_descending(s.filter.sort),
        ),
{
    let c = candidates(s.filter, s.metadata_map, s.all_keys, s.all_picks);
    let keys = sort_keys(s.filter.sort, s.metadata_map, c);
    let d = text_descending(s.filter.sort);
    let order = choose|order: Seq<usize>|
        {
            &&& is_permutation(order, c.len() as int)
            &&& ranked(keys, d, order)
            &&& t.visible.len() == c.len()
            &&& forall|k: int| 0 <= k < t.visible.len() ==> #[trigger] t.visible[k] == c[order[k] as int]
        };
    let a = order[i] as int;
    let b = order[j] as int;
    assert(rank_lt(keys, d, order[i] as int, order[j] as int));
    assert(t.visible[i] == c[a] && t.visible[j] == c[b]);
    assert(keys[a] == item_sort_key(s.filter.sort, s.metadata_map, c[a]));
    assert(keys[b] == item_sort_key(s.filter.sort, s.metadata_map, c[b]));
    if key_lt(keys[a], keys[b], d) {
        lemma_key_lt_asymmetric(keys[a], keys[b], d);
    }
}

/// The rows of a rebuilt list follow its sort order: for any two rows, the
/// earlier one is purchased no earlier (newest first) or no later (oldest
/// first); its name or bundle name is not after the later one's A to Z, or
/// not before it Z to A (so of two different names or bundle names, the
/// smaller comes first A to Z and the greater first Z to A); its platform
/// label is not after the later one's; and by expiry, Metacritic score or
/// user rating, rows with a value come before rows without, earliest expiry
/// first, highest score and rating first.
pub proof fn law_listed_rows_in_order(s: UiStateView, t: UiStateView, i: int, j: int)
    requires
        refreshed(s, t),
        0 <= i < j < t.visible.len(),
    ensures
        ({
            let a = t.visible[i];
            let b = t.visible[j];
            let metas = s.metadata_map;
            match s.filter.sort {
                SortOrder::PurchaseDateDesc => item_purchase_date(a) >= item_purchase_date(b),
                SortOrder::PurchaseDateAsc => item_purchase_date(a) <= item_purchase_date(b),
                SortOrder::NameAsc => !text_lt(item_name(b), item_name(a)) && (item_name(a)
                    != item_name(b) ==> text_lt(item_name(a), item_name(b))),
                SortOrder::NameDesc => !text_lt(item_name(a), item_name(b)) && (item_name(a)
                    != item_name(b) ==> text_lt(item_name(b), item_name(a))),
                SortOrder::BundleAsc => !text_lt(item_bundle(b), item_bundle(a)) && (item_bundle(a)
                    != item_bundle(b) ==> text_lt(item_bundle(a), item_bundle(b))),
                SortOrder::BundleDesc => !text_lt(item_bundle(a), item_bundle(b)) && (item_bundle(a)
                    != item_bundle(b) ==> text_lt(item_bundle(b), item_bundle(a))),
                SortOrder::PlatformAsc => !text_lt(
                    platform_short_label(item_platform(b)),
                    platform_short_label(item_platform(a)),
                ),
                SortOrder::ExpiryAsc => match (item_expiry(a), item_expiry(b)) {
                    (Some(x), Some(y)) => x <= y,
                    (None, Some(_)) => false,
                    _ => true,
                },
                SortOrder::MetacriticDesc => match (item_metacritic(metas, a), item_metacritic(metas, b)) {
                    (Some(x), Some(y)) => x >= y,
                    (None, Some(_)) => false,
                    _ => true,
                },
                SortOrder::UserRatingDesc => match (item_user_rating(metas, a), item_user_rating(metas, b)) {
                    (Some(x), Some(y)) => rating_rank(x) >= rating_rank(y),
                    (None, Some(_)) => false,
                    _ => true,
                },
            }
        }),
{
    lemma_listed_pair_in_order(s, t, i, j);
    let a = t.visible[i];
    let b = t.visible[j];
    if item_name(a) != item_name(b) {
        lemma_text_lt_total(item_name(a), item_name(b));
    }
    if item_bundle(a) != item_bundle(b) {
        lemma_text_lt_total(item_bundle(a), item_bundle(b));
    }
}

/// Under the bundle Z-to-A order, of two listed rows with different bundle
/// names, the one whose bundle name is greater comes first.
pub proof fn law_bundle_desc_greater_first(s: UiStateView, t: UiStateView, i: int, j: int)
    requires
        refreshed(s, t),
        s.filter.sort == SortOrder::BundleDesc,
        0 <= i < j < t.visible.len(),
        item_bundle(t.visible[i]) != item_bundle(t.visible[j]),
    ensures
        text_lt(item_bundle(t.visible[j]), item_bundle(t.visible[i])),
{
    law_listed_rows_in_order(s, t, i, j);
}

/// Two orders that both put positions in `rank_lt` order are the same: the
/// sorted list is determined by the rows and their keys.
pub proof fn law_sorted_order_unique(keys: Seq<SortKey>, d: bool, a: Seq<usize>, b: Seq<usize>)
    requires
        is_permutation(a, keys.len() as int),
        is_permutation(b, keys.len() as int),
        ranked(keys, d, a),
        ranked(keys, d, b),
    ensures
        a == b,
{
    lemma_rank_lt_order(keys, d);
    let n = keys.len() as int;
    // Each position's place in an order is the number of positions before it.
    assert forall|k: int| 0 <= k < n implies a[k] == b[k] by {
        lemma_place_is_rank(keys, d, a, k);
        lemma_place_is_rank(keys, d, b, k);
        lemma_rank_determines(keys, d, a, b, k);
    }
    assert(a =~= b);
}

/// The positions that go before position `x`.
pub open spec fn below(keys: Seq<SortKey>, d: bool, x: int) -> Set<int> {
    Set::new(|y: int| 0 <= y < keys.len() && rank_lt(keys, d, y, x))
}

proof fn lemma_place_is_rank(keys: Seq<SortKey>, d: bool, a: Seq<usize>, k: int)
    requires
        is_permutation(a, keys.len() as int),
        ranked(keys, d, a),
        0 <= k < keys.len(),
        forall|x: int| !#[trigger] rank_lt(keys, d, x, x),
        forall|x: int, y: int|
            x != y ==> #[trigger] rank_lt(keys, d, x, y) || #[trigger] rank_lt(keys, d, y, x),
        forall|x: int, y: int, z: int|
            #[trigger] rank_lt(keys, d, x, y) && #[trigger] rank_lt(keys, d, y, z) ==> rank_lt(
                keys,
                d,
                x,
                z,
            ),
    ensures
        below(keys, d, a[k] as int) == Set::new(|m: int| 0 <= m < k).map(|m: int| a[m] as int),
{
    let n = keys.len() as int;
    let x = a[k] as int;
    let pre = Set::new(|m: int| 0 <= m < k).map(|m: int| a[m] as int);
    assert forall|y: int| below(keys, d, x).contains(y) implies pre.contains(y) by {
        // y is some a[m]; since a is a permutation of 0..n
        let m = lemma_preimage(a, n, y);
        if m >= k {
            if m > k {
                assert(rank_lt(keys, d, a[k] as int, a[m] as int));
            }
        }
        assert(Set::new(|m: int| 0 <= m < k).contains(m));
    }
    assert forall|y: int| pre.contains(y) implies below(keys, d, x).contains(y) by {
        let m = choose|m: int| Set::new(|m: int| 0 <= m < k).contains(m) && a[m] as int == y;
        assert(rank_lt(keys, d, a[m] as int, a[k] as int));
    }
    assert(below(keys, d, x) =~= pre);
}

/// A value in 0..n has a position in a permutation of 0..n.
proof fn lemma_preimage(a: Seq<usize>, n: int, y: int) -> (m: int)
    requires
        is_permutation(a, n),
        0 <= y < n,
    ensures
        0 <= m < n,
        a[m] as int == y,
{
    if forall|m: int| 0 <= m < n ==> a[m] as int != y {
        let f = |m: int| a[m] as int;
        let dom = vstd::set_lib::set_int_range(0, n);
        let image = dom.map(f);
        vstd::set_lib::lemma_int_range(0, n);
        assert(vstd::relations::injective_on(f, dom));
        vstd::set_lib::lemma_map_size(dom, image, f);
        let room = dom.remove(y);
        assert(room.len() == n - 1);
        assert forall|x: int| image.contains(x) implies room.contains(x) by {
            let m = choose|m: int| dom.contains(m) && f(m) == x;
        }
        vstd::set_lib::lemma_len_subset(image, room);
        assert(false);
    }
    choose|m: int| 0 <= m < n && a[m] as int == y
}

proof fn lemma_rank_determines(keys: Seq<SortKey>, d: bool, a: Seq<usize>, b: Seq<usize>, k: int)
    requires
        is_permutation(a, keys.len() as int),
        is_permutation(b, keys.len() as int),
        0 <= k < keys.len(),
        below(keys, d, a[k] as int) == Set::new(|m: int| 0 <= m < k).map(|m: int| a[m] as int),
        below(keys, d, b[k] as int) == Set::new(|m: int| 0 <= m < k).map(|m: int| b[m] as int),
        forall|x: int| !#[trigger] rank_lt(keys, d, x, x),
        forall|x: int, y: int|
            x != y ==> #[trigger] rank_lt(keys, d, x, y) || #[trigger] rank_lt(keys, d, y, x),
        forall|x: int, y: int, z: int|
            #[trigger] rank_lt(keys, d, x, y) && #[trigger] rank_lt(keys, d, y, z) ==> rank_lt(
                keys,
                d,
                x,
                z,
            ),
    ensures
        a[k] == b[k],
{
    let (x, y) = (a[k] as int, b[k] as int);
    let dom = Set::new(|m: int| 0 <= m < k);
    vstd::set_lib::lemma_int_range(0, k);
    assert(dom =~= vstd::set_lib::set_int_range(0, k));
    assert forall|p: int, q: int| dom.contains(p) && dom.contains(q) && a[p] as int == a[q] as int implies p == q by {}
    assert forall|p: int, q: int| dom.contains(p) && dom.contains(q) && b[p] as int == b[q] as int implies p == q by {}
    vstd::set_lib::lemma_map_size(dom, below(keys, d, x), |m: int| a[m] as int);
    vstd::set_lib::lemma_map_size(dom, below(keys, d, y), |m: int| b[m] as int);
    if x != y {
        if rank_lt(keys, d, x, y) {
            // below(x) + {x} ⊆ below(y), so below(y) is larger
            let bx = below(keys, d, x);
            let by_ = below(keys, d, y);
            assert(bx.insert(x).subset_of(by_));
            assert(!bx.contains(x));
            vstd::set_lib::lemma_len_subset(bx.insert(x), by_);
        } else {
            let bx = below(keys, d, x);
            let by_ = below(keys, d, y);
            assert(rank_lt(keys, d, y, x));
            assert forall|z: int| by_.insert(y).contains(z) implies bx.contains(z) by {
                if z != y {
                    assert(rank_lt(keys, d, z, y));
                }
            }
            assert(by_.insert(y).subset_of(bx));
            assert(!by_.contains(y));
            vstd::set_lib::lemma_len_subset(by_.insert(y), bx);
        }
    }
}

// ── Selection ───────────────────────────────────────────────────────────────

/// The selection never points past the list: rebuilding the list and every
/// navigation key keep it on a row (or empty for an empty list).
pub proof fn law_selection_stays_in_bounds(s: UiStateView, t: UiStateView, page: usize)
    requires
        selection_in_bounds(s),
    ensures
        refreshed(s, t) ==> selection_in_bounds(t) && (t.selected is None <==> t.visible.len() == 0),
        selection_in_bounds(after_move_down(s)),
        selection_in_bounds(after_move_up(s)),
        selection_in_bounds(after_jump_top(s)),
        selection_in_bounds(after_jump_bottom(s)),
        selection_in_bounds(after_page_down(s, page)),
        selection_in_bounds(after_page_up(s, page)),
{
}

// ── Filters that cycle ──────────────────────────────────────────────────────

/// `f` cycles the status filter all → unredeemed → redeemed → all, and `c`
/// cycles the source all → keys → choice → all: three presses come back.
pub proof fn law_filters_cycle(r: Option<RedeemStatus>, src: SourceFilter)
    requires
        r is None || r == Some(RedeemStatus::Unredeemed) || r == Some(RedeemStatus::Redeemed),
    ensures
        next_status_filter(next_status_filter(next_status_filter(r))) == r,
        next_source(next_source(next_source(src))) == src,
        next_status_filter(None) == Some(RedeemStatus::Unredeemed),
        next_status_filter(Some(RedeemStatus::Unredeemed)) == Some(RedeemStatus::Redeemed),
        next_status_filter(Some(RedeemStatus::Redeemed)) is None,
        next_source(SourceFilter::All) == SourceFilter::Keys,
        next_source(SourceFilter::Keys) == SourceFilter::Choice,
        next_source(SourceFilter::Choice) == SourceFilter::All,
{
}

// ── Text input ──────────────────────────────────────────────────────────────

/// In search mode, typing a character and then Backspace gives back the
/// query that was there before.
pub proof fn law_search_type_then_erase(
    s: UiStateView,
    c: char,
    k1: KeyPress,
    k2: KeyPress,
    t: UiStateView,
    u: UiStateView,
)
    requires
        k1.code == KeyCode::Char(c),
        k2.code == KeyCode::Backspace,
        search_outcome(s, k1, t),
        search_outcome(t, k2, u),
    ensures
        u.search_input == s.search_input,
        u.filter.search_query == s.search_input,
        u.mode == s.mode,
{
    assert(t.search_input == s.search_input.push(c));
    assert(t.search_input.drop_last() =~= s.search_input);
}

/// The cookie prompt stays open until a cookie that is not blank is
/// submitted: no other event (another key, a blank Enter, news of the last
/// sync, loaded data, an error) leaves it.
pub proof fn law_auth_stays_until_cookie(
    s: UiStateView,
    e: AppEvent,
    now: i64,
    t: UiStateView,
    c: Option<CmdView>,
)
    requires
        s.mode == Mode::Auth,
        !(e matches AppEvent::Input(InputEvent::Key(k)) && k.code == KeyCode::Enter && trim_seq(
            s.auth_input,
        ).len() > 0),
        event_outcome(s, e, now, t, c),
    ensures
        t.mode == Mode::Auth,
        !(t.last_error is Some && t.mode == Mode::Normal),
{
}

/// The sort picker's cursor stays on one of the ten orders.
pub proof fn law_sort_picker_cursor_in_range(s: UiStateView, k: KeyPress, t: UiStateView)
    requires
        s.sort_picker_cursor <= 9,
        sort_picker_outcome(s, k, t),
    ensures
        t.sort_picker_cursor <= 9,
{
}

// ── The sync prompt ─────────────────────────────────────────────────────────

/// A sync is suggested when the cache was never synced or is more than a day
/// old, and only then.
pub proof fn law_sync_suggested_when_stale(last: Option<i64>, now: i64)
    ensures
        stale_message(last, now) is Some <==> match last {
            None => true,
            Some(t) => now - t > day_seconds(),
        },
        last is None ==> stale_message(last, now) == Some("never synced"@),
{
}

// ── Merging loaded data ─────────────────────────────────────────────────────

/// No two keys share a machine name.
pub open spec fn unique_names(keys: Seq<GameKeyView>) -> bool {
    forall|i: int, j: int|
        0 <= i < keys.len() && 0 <= j < keys.len() && i != j ==> #[trigger] keys[i].tpkd_machine_name
            != #[trigger] keys[j].tpkd_machine_name
}

proof fn lemma_key_index_spec(keys: Seq<GameKeyView>, name: Seq<char>)
    ensures
        -1 <= key_index(keys, name) < keys.len(),
        key_index(keys, name) >= 0 ==> keys[key_index(keys, name)].tpkd_machine_name == name
            && forall|j: int| 0 <= j < key_index(keys, name) ==> keys[j].tpkd_machine_name != name,
        key_index(keys, name) < 0 ==> forall|j: int|
            0 <= j < keys.len() ==> keys[j].tpkd_machine_name != name,
    decreases keys.len(),
{
    if keys.len() > 0 && keys[0].tpkd_machine_name != name {
        lemma_key_index_spec(keys.drop_first(), name);
        assert forall|j: int| 1 <= j < keys.len() implies keys[j] == keys.drop_first()[j - 1] by {}
    }
}

/// Merging a loaded key keeps the machine names unique, and afterwards the
/// key stored under its machine name is the loaded one.
pub proof fn law_merge_key(keys: Seq<GameKeyView>, k: GameKeyView)
    requires
        unique_names(keys),
    ensures
        unique_names(merge_key(keys, k)),
        merge_key(keys, k)[key_index(merge_key(keys, k), k.tpkd_machine_name)] == k,
        key_index(merge_key(keys, k), k.tpkd_machine_name) >= 0,
        merge_key(keys, k).len() == keys.len() + (if key_index(keys, k.tpkd_machine_name) >= 0 {
            0int
        } else {
            1int
        }),
{
    let m = merge_key(keys, k);
    lemma_key_index_spec(keys, k.tpkd_machine_name);
    lemma_key_index_spec(m, k.tpkd_machine_name);
    let i = key_index(keys, k.tpkd_machine_name);
    if i >= 0 {
        assert forall|a: int, b: int|
            0 <= a < m.len() && 0 <= b < m.len() && a != b implies #[trigger] m[a].tpkd_machine_name
            != #[trigger] m[b].tpkd_machine_name by {
            if a != i && b != i {
                assert(m[a] == keys[a] && m[b] == keys[b]);
            } else if a == i {
                assert(m[b] == keys[b]);
                assert(keys[i].tpkd_machine_name == k.tpkd_machine_name);
            } else {
                assert(m[a] == keys[a]);
                assert(keys[i].tpkd_machine_name == k.tpkd_machine_name);
            }
        }
    } else {
        assert forall|a: int, b: int|
            0 <= a < m.len() && 0 <= b < m.len() && a != b implies #[trigger] m[a].tpkd_machine_name
            != #[trigger] m[b].tpkd_machine_name by {
            if a < keys.len() && b < keys.len() {
                assert(m[a] == keys[a] && m[b] == keys[b]);
            }
        }
    }
    let j = key_index(m, k.tpkd_machine_name);
    if i >= 0 {
        assert(m[i].tpkd_machine_name == k.tpkd_machine_name);
    } else {
        assert(m[keys.len() as int].tpkd_machine_name == k.tpkd_machine_name);
    }
    assert(j >= 0);
    if j != (if i >= 0 { i } else { keys.len() as int }) {
        let p = if i >= 0 { i } else { keys.len() as int };
        assert(m[j].tpkd_machine_name == m[p].tpkd_machine_name);
    }
}

/// Merging a batch of loaded keys keeps the machine names unique.
pub proof fn law_merge_keys_unique(keys: Seq<GameKeyView>, new: Seq<GameKeyView>)
    requires
        unique_names(keys),
    ensures
        unique_names(merge_keys(keys, new)),
    decreases new.len(),
{
    if new.len() > 0 {
        law_merge_keys_unique(keys, new.drop_last());
        law_merge_key(merge_keys(keys, new.drop_last()), new.last());
    }
}

/// The last key of `new` with machine name `name`, if any.
pub open spec fn last_named(new: Seq<GameKeyView>, name: Seq<char>) -> Option<GameKeyView>
    decreases new.len(),
{
    if new.len() == 0 {
        None
    } else if new.last().tpkd_machine_name == name {
        Some(new.last())
    } else {
        last_named(new.drop_last(), name)
    }
}

/// What a stored key becomes once `new` is merged in: the last key of `new`
/// with its machine name, else itself.
pub open spec fn merged_entry(new: Seq<GameKeyView>, k: GameKeyView) -> GameKeyView {
    match last_named(new, k.tpkd_machine_name) {
        Some(n) => n,
        None => k,
    }
}

proof fn lemma_last_named(new: Seq<GameKeyView>, name: Seq<char>)
    ensures
        last_named(new, name) matches Some(x) ==> x.tpkd_machine_name == name && exists|j: int|
            0 <= j < new.len() && (#[trigger] new[j]).tpkd_machine_name == name,
        last_named(new, name) is None ==> forall|j: int|
            0 <= j < new.len() ==> (#[trigger] new[j]).tpkd_machine_name != name,
    decreases new.len(),
{
    if new.len() > 0 {
        let n = new.drop_last();
        lemma_last_named(n, name);
        if new.last().tpkd_machine_name == name {
            assert(new[new.len() - 1].tpkd_machine_name == name);
        } else {
            if let Some(x) = last_named(n, name) {
                let j = choose|j: int| 0 <= j < n.len() && (#[trigger] n[j]).tpkd_machine_name == name;
                assert(new[j] == n[j]);
            } else {
                assert forall|j: int| 0 <= j < new.len() implies (#[trigger] new[j]).tpkd_machine_name
                    != name by {
                    if j < n.len() {
                        assert(new[j] == n[j]);
                    }
                }
            }
        }
    }
}

/// Appending a key keeps the first position of every name already there,
/// and puts a new name at the end.
proof fn lemma_key_index_push(s: Seq<GameKeyView>, k: GameKeyView, name: Seq<char>)
    ensures
        key_index(s, name) >= 0 ==> key_index(s.push(k), name) == key_index(s, name),
        key_index(s, name) < 0 && k.tpkd_machine_name == name ==> key_index(s.push(k), name)
            == s.len(),
{
    let t = s.push(k);
    lemma_key_index_spec(s, name);
    lemma_key_index_spec(t, name);
    let f = key_index(s, name);
    let g = key_index(t, name);
    if f >= 0 {
        assert(t[f] == s[f]);
        if g < f {
            assert(t[g] == s[g]);
        }
    } else if k.tpkd_machine_name == name {
        assert(t[s.len() as int] == k);
        if g < s.len() {
            assert(t[g] == s[g]);
        }
    }
}

proof fn lemma_merge_keys_closed_form(keys: Seq<GameKeyView>, new: Seq<GameKeyView>)
    requires
        unique_names(keys),
    ensures
        unique_names(merge_keys(keys, new)),
        keys.len() <= merge_keys(keys, new).len(),
        forall|i: int|
            0 <= i < keys.len() ==> #[trigger] merge_keys(keys, new)[i] == merged_entry(new, keys[i]),
        forall|i: int|
            keys.len() <= i < merge_keys(keys, new).len() ==> key_index(
                keys,
                (#[trigger] merge_keys(keys, new)[i]).tpkd_machine_name,
            ) < 0 && last_named(new, merge_keys(keys, new)[i].tpkd_machine_name) == Some(
                merge_keys(keys, new)[i],
            ),
        forall|j: int|
            0 <= j < new.len() && key_index(keys, (#[trigger] new[j]).tpkd_machine_name) < 0
                ==> exists|i: int|
                keys.len() <= i < merge_keys(keys, new).len() && merge_keys(keys, new)[i].tpkd_machine_name
                    == new[j].tpkd_machine_name,
        forall|i: int, j: int|
            keys.len() <= i < j < merge_keys(keys, new).len() ==> 0 <= key_index(
                new,
                (#[trigger] merge_keys(keys, new)[i]).tpkd_machine_name,
            ) < key_index(new, (#[trigger] merge_keys(keys, new)[j]).tpkd_machine_name),
    decreases new.len(),
{
    law_merge_keys_unique(keys, new);
    if new.len() == 0 {
        assert forall|i: int| 0 <= i < keys.len() implies merge_keys(keys, new)[i] == merged_entry(
            new,
            keys[i],
        ) by {}
    } else {
        let n = new.drop_last();
        let k = new.last();
        let kn = k.tpkd_machine_name;
        lemma_merge_keys_closed_form(keys, n);
        law_merge_keys_unique(keys, n);
        let mp = merge_keys(keys, n);
        let m = merge_keys(keys, new);
        assert(m == merge_key(mp, k));
        lemma_key_index_spec(mp, kn);
        lemma_key_index_spec(keys, kn);
        lemma_last_named(n, kn);
        let p = key_index(mp, kn);
        // the names of the stored keys are kept in place
        assert forall|i: int| 0 <= i < keys.len() implies #[trigger] mp[i].tpkd_machine_name
            == keys[i].tpkd_machine_name by {
            lemma_last_named(n, keys[i].tpkd_machine_name);
        }
        assert forall|i: int| 0 <= i < keys.len() implies #[trigger] m[i] == merged_entry(
            new,
            keys[i],
        ) by {
            if p >= 0 && i == p {
                assert(mp[i].tpkd_machine_name == kn);
            } else if keys[i].tpkd_machine_name == kn {
                assert(p >= 0);
                assert(mp[p].tpkd_machine_name == mp[i].tpkd_machine_name);
            }
        }
        assert forall|i: int| keys.len() <= i < m.len() implies key_index(
            keys,
            (#[trigger] m[i]).tpkd_machine_name,
        ) < 0 && last_named(new, m[i].tpkd_machine_name) == Some(m[i]) by {
            if p >= 0 {
                if i == p {
                    assert(m[i] == k);
                    assert(mp[i].tpkd_machine_name == kn);
                } else {
                    assert(m[i] == mp[i]);
                    if mp[i].tpkd_machine_name == kn {
                        assert(mp[p].tpkd_machine_name == mp[i].tpkd_machine_name);
                    }
                }
            } else if i == mp.len() {
                assert(m[i] == k);
                if key_index(keys, kn) >= 0 {
                    let q = key_index(keys, kn);
                    assert(mp[q].tpkd_machine_name == kn);
                }
            } else {
                assert(m[i] == mp[i]);
            }
        }
        assert forall|j: int|
            0 <= j < new.len() && key_index(keys, (#[trigger] new[j]).tpkd_machine_name) < 0
                implies exists|i: int|
            keys.len() <= i < m.len() && m[i].tpkd_machine_name == new[j].tpkd_machine_name by {
            if j < n.len() {
                assert(new[j] == n[j]);
                let i = choose|i: int|
                    keys.len() <= i < mp.len() && mp[i].tpkd_machine_name == n[j].tpkd_machine_name;
                if p >= 0 && i == p {
                    assert(m[i] == k);
                } else {
                    assert(m[i] == mp[i]);
                }
            } else {
                assert(new[j] == k);
                if p >= 0 {
                    assert(m[p] == k);
                    if p < keys.len() {
                        assert(mp[p].tpkd_machine_name == keys[p].tpkd_machine_name);
                    }
                } else {
                    assert(m[mp.len() as int] == k);
                }
            }
        }
        assert forall|i: int, j: int| keys.len() <= i < j < m.len() implies 0 <= key_index(
            new,
            (#[trigger] m[i]).tpkd_machine_name,
        ) < key_index(new, (#[trigger] m[j]).tpkd_machine_name) by {
            assert(new == n.push(k));
            let ni = m[i].tpkd_machine_name;
            let nj = m[j].tpkd_machine_name;
            lemma_key_index_push(n, k, ni);
            lemma_key_index_push(n, k, nj);
            if j < mp.len() {
                assert(ni == mp[i].tpkd_machine_name) by {
                    if p >= 0 && i == p {
                        assert(mp[p].tpkd_machine_name == kn);
                    }
                }
                assert(nj == mp[j].tpkd_machine_name) by {
                    if p >= 0 && j == p {
                        assert(mp[p].tpkd_machine_name == kn);
                    }
                }
                assert(0 <= key_index(n, ni) < key_index(n, nj));
            } else {
                // a name new to the list: it does not occur before the last key
                assert(p < 0);
                assert(m[j] == k);
                assert(m[i] == mp[i]);
                lemma_key_index_spec(n, kn);
                if key_index(n, kn) >= 0 {
                    let q = key_index(n, kn);
                    if key_index(keys, kn) < 0 {
                        let w = choose|w: int|
                            keys.len() <= w < mp.len() && mp[w].tpkd_machine_name
                                == n[q].tpkd_machine_name;
                        assert(mp[w].tpkd_machine_name == kn);
                    } else {
                        let r = key_index(keys, kn);
                        assert(mp[r].tpkd_machine_name == kn);
                    }
                }
                lemma_key_index_spec(n, ni);
                lemma_last_named(n, ni);
                assert(last_named(n, mp[i].tpkd_machine_name) == Some(mp[i]));
                assert(0 <= key_index(n, ni) < n.len());
            }
        }
    }
}

/// The position of the first key of `keys` with machine name `name`, or -1
/// when there is none.
pub open spec fn first_position(keys: Seq<GameKeyView>, name: Seq<char>) -> int {
    key_index(keys, name)
}

/// The closed form of merging a batch `new` of loaded keys into `keys`.
pub open spec fn merged_closed_form(keys: Seq<GameKeyView>, new: Seq<GameKeyView>, m: Seq<GameKeyView>) -> bool {
    // the machine names stay distinct
    &&& unique_names(m)
    &&& keys.len() <= m.len()
    // each stored key is replaced in place by the last loaded key of its name
    &&& forall|i: int| 0 <= i < keys.len() ==> #[trigger] m[i] == merged_entry(new, keys[i])
    // then come the names not stored before, each holding its last loaded key
    &&& forall|i: int|
        keys.len() <= i < m.len() ==> key_index(keys, (#[trigger] m[i]).tpkd_machine_name) < 0
            && last_named(new, m[i].tpkd_machine_name) == Some(m[i])
    // every loaded name not stored before is among them
    &&& forall|j: int|
        0 <= j < new.len() && key_index(keys, (#[trigger] new[j]).tpkd_machine_name) < 0
            ==> exists|i: int|
            keys.len() <= i < m.len() && m[i].tpkd_machine_name == new[j].tpkd_machine_name
    // in the order in which their names first occur in the batch
    &&& forall|i: int, j: int|
        keys.len() <= i < j < m.len() ==> 0 <= first_position(
            new,
            (#[trigger] m[i]).tpkd_machine_name,
        ) < first_position(new, (#[trigger] m[j]).tpkd_machine_name)
}

/// Merging a batch of loaded keys, in closed form: each stored key is
/// replaced in place by the last loaded key with its machine name; loaded
/// keys with names not stored before follow, one per name, holding the last
/// loaded key of that name, in the order the names first occur in the
/// batch; and the machine names stay distinct.
pub proof fn law_merge_keys_closed_form(keys: Seq<GameKeyView>, new: Seq<GameKeyView>)
    requires
        unique_names(keys),
    ensures
        merged_closed_form(keys, new, merge_keys(keys, new)),
{
    lemma_merge_keys_closed_form(keys, new);
}

/// Loading an order's keys asks for nothing, merges them into the stored
/// keys in the closed form of [`law_merge_keys_closed_form`] (appended names
/// in first-occurrence order), and rebuilds the list.
pub proof fn law_order_loaded_merges(
    s: UiStateView,
    ks: Vec<GameKey>,
    now: i64,
    t: UiStateView,
    c: Option<CmdView>,
)
    requires
        unique_names(s.all_keys),
        event_outcome(s, AppEvent::OrderLoaded { keys: ks }, now, t, c),
    ensures
        c is None,
        t.all_keys == merge_keys(s.all_keys, keys_view(ks@)),
        merged_closed_form(s.all_keys, keys_view(ks@), t.all_keys),
        refreshed(UiStateView { all_keys: t.all_keys, ..s }, t),
{
    lemma_merge_keys_closed_form(s.all_keys, keys_view(ks@));
}

proof fn lemma_meta_index_spec(metas: Seq<GameMetadataView>, id: u32)
    ensures
        -1 <= meta_index(metas, id) < metas.len(),
        meta_index(metas, id) >= 0 ==> metas[meta_index(metas, id)].steam_app_id == id
            && meta_lookup(metas, id) == Some(metas[meta_index(metas, id)]) && forall|j: int|
            0 <= j < meta_index(metas, id) ==> metas[j].steam_app_id != id,
        meta_index(metas, id) < 0 ==> meta_lookup(metas, id) is None && forall|j: int|
            0 <= j < metas.len() ==> metas[j].steam_app_id != id,
    decreases metas.len(),
{
    if metas.len() > 0 && metas[0].steam_app_id != id {
        lemma_meta_index_spec(metas.drop_first(), id);
        assert forall|j: int| 1 <= j < metas.len() implies metas[j] == metas.drop_first()[j - 1] by {}
    }
}

proof fn lemma_lookup_first(metas: Seq<GameMetadataView>, id: u32, j: int)
    requires
        0 <= j < metas.len(),
        metas[j].steam_app_id == id,
        forall|k: int| 0 <= k < j ==> metas[k].steam_app_id != id,
    ensures
        meta_lookup(metas, id) == Some(metas[j]),
    decreases j,
{
    if j > 0 {
        lemma_lookup_first(metas.drop_first(), id, j - 1);
    }
}

proof fn lemma_lookup_absent(metas: Seq<GameMetadataView>, id: u32)
    requires
        forall|k: int| 0 <= k < metas.len() ==> metas[k].steam_app_id != id,
    ensures
        meta_lookup(metas, id) is None,
    decreases metas.len(),
{
    if metas.len() > 0 {
        lemma_lookup_absent(metas.drop_first(), id);
    }
}

/// Reading metadata back after storing it: the app just stored gives the
/// stored entry, every other app gives what it gave before.
pub proof fn law_metadata_read_after_write(metas: Seq<GameMetadataView>, m: GameMetadataView, id: u32)
    ensures
        meta_lookup(upsert_meta(metas, m), id) == if id == m.steam_app_id {
            Some(m)
        } else {
            meta_lookup(metas, id)
        },
{
    let u = upsert_meta(metas, m);
    lemma_meta_index_spec(metas, m.steam_app_id);
    lemma_meta_index_spec(metas, id);
    let i = meta_index(metas, m.steam_app_id);
    if id == m.steam_app_id {
        if i >= 0 {
            assert forall|k: int| 0 <= k < i implies u[k].steam_app_id != id by {
                assert(u[k] == metas[k]);
            }
            lemma_lookup_first(u, id, i);
        } else {
            assert forall|k: int| 0 <= k < metas.len() implies u[k].steam_app_id != id by {
                assert(u[k] == metas[k]);
            }
            lemma_lookup_first(u, id, metas.len() as int);
        }
    } else {
        let j = meta_index(metas, id);
        if j >= 0 {
            assert forall|k: int| 0 <= k < j implies u[k].steam_app_id != id by {
                if k != i {
                    assert(u[k] == metas[k]);
                }
            }
            assert(u[j] == metas[j]);
            lemma_lookup_first(u, id, j);
        } else {
            assert forall|k: int| 0 <= k < u.len() implies u[k].steam_app_id != id by {
                if k < metas.len() && k != i {
                    assert(u[k] == metas[k]);
                }
            }
            lemma_lookup_absent(u, id);
        }
    }
}

proof fn lemma_other_months_content(picks: Seq<ChoicePickView>, month: Seq<char>)
    ensures
        forall|i: int|
            0 <= i < other_months(picks, month).len() ==> (#[trigger] other_months(
                picks,
                month,
            )[i]).choice_month != month,
    decreases picks.len(),
{
    if picks.len() > 0 {
        lemma_other_months_content(picks.drop_last(), month);
    }
}

proof fn lemma_other_months_keeps(picks: Seq<ChoicePickView>, month: Seq<char>)
    requires
        forall|i: int| 0 <= i < picks.len() ==> (#[trigger] picks[i]).choice_month != month,
    ensures
        other_months(picks, month) == picks,
    decreases picks.len(),
{
    if picks.len() > 0 {
        lemma_other_months_keeps(picks.drop_last(), month);
        assert(picks.drop_last().push(picks.last()) =~= picks);
    }
}

proof fn lemma_other_months_append(a: Seq<ChoicePickView>, b: Seq<ChoicePickView>, month: Seq<char>)
    ensures
        other_months(a + b, month) == other_months(a, month) + other_months(b, month),
    decreases b.len(),
{
    if b.len() == 0 {
        assert(a + b =~= a);
        assert(other_months(a, month) + other_months(b, month) =~= other_months(a, month));
    } else {
        lemma_other_months_append(a, b.drop_last(), month);
        assert((a + b).drop_last() =~= a + b.drop_last());
        assert((a + b).last() == b.last());
    }
}

proof fn lemma_other_months_drops_month(picks: Seq<ChoicePickView>, month: Seq<char>)
    requires
        forall|i: int| 0 <= i < picks.len() ==> (#[trigger] picks[i]).choice_month == month,
    ensures
        other_months(picks, month).len() == 0,
    decreases picks.len(),
{
    if picks.len() > 0 {
        lemma_other_months_drops_month(picks.drop_last(), month);
    }
}

/// Loading a Choice month again replaces it: when the loaded picks all belong
/// to `month`, loading them twice leaves the same picks as loading them once.
pub proof fn law_choice_month_reload(picks: Seq<ChoicePickView>, month: Seq<char>, new: Seq<ChoicePickView>)
    requires
        forall|i: int| 0 <= i < new.len() ==> (#[trigger] new[i]).choice_month == month,
    ensures
        other_months(other_months(picks, month) + new, month) + new == other_months(picks, month)
            + new,
{
    let kept = other_months(picks, month);
    lemma_other_months_content(picks, month);
    lemma_other_months_append(kept, new, month);
    lemma_other_months_keeps(kept, month);
    lemma_other_months_drops_month(new, month);
    assert(other_months(kept, month) + other_months(new, month) =~= kept);
}

} // verus!
