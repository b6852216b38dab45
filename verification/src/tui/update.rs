use vstd::prelude::*;

use super::app_event::{
    opt_cmd_view, AppEvent, Cmd, CmdView, InputEvent, KeyCode, KeyPress, MOD_CONTROL, MOD_NONE,
    MOD_SHIFT,
};
use super::state::{
    after_jump_bottom, after_jump_top, after_move_down, after_move_up, after_page_down,
    after_page_up, metas_view, refreshed, selected_view, ListItem, ListItemView, Mode, UiState,
    UiStateView,
};
use super::genre_picker::{
    cursor_bottom, cursor_down, cursor_up, current_name, next_tag_sort, next_type_filter, tally,
    toggled, viewed, GenrePickerState, GenrePickerView, PickerSubMode, TagSort, TagTypeFilter,
};
use crate::models::choice::{choice_slug, choice_slug_of, picks_view, ChoicePick, ChoicePickView};
use crate::models::filter::{
    sort_position, FilterStateView, SortOrder, SourceFilter,
};
use crate::models::key::{keys_view, store_url_spec, GameKey, GameKeyView, RedeemStatus};
use crate::models::metadata::{GameMetadata, GameMetadataView};
use crate::text::{
    concat, decimal, pop_char, push_char, str_eq, string_from_chars, trim, trim_seq,
    u64_to_string,
};

verus! {

// ── Merging loaded data ─────────────────────────────────────────────────────

/// The position of the first key with machine name `name`, or -1.
pub open spec fn key_index(keys: Seq<GameKeyView>, name: Seq<char>) -> int
    decreases keys.len(),
{
    if keys.len() == 0 {
        -1
    } else if keys[0].tpkd_machine_name == name {
        0
    } else {
        let r = key_index(keys.drop_first(), name);
        if r < 0 {
            -1
        } else {
            r + 1
        }
    }
}

/// `keys` with `k` in place of the first key with the same machine name, or
/// with `k` appended when there is none.
pub open spec fn merge_key(keys: Seq<GameKeyView>, k: GameKeyView) -> Seq<GameKeyView> {
    let i = key_index(keys, k.tpkd_machine_name);
    if i >= 0 {
        keys.update(i, k)
    } else {
        keys.push(k)
    }
}

/// `keys` with each of `new` merged in, in order.
pub open spec fn merge_keys(keys: Seq<GameKeyView>, new: Seq<GameKeyView>) -> Seq<GameKeyView>
    decreases new.len(),
{
    if new.len() == 0 {
        keys
    } else {
        merge_key(merge_keys(keys, new.drop_last()), new.last())
    }
}

/// The position of the first entry for Steam app `id`, or -1.
pub open spec fn meta_index(metas: Seq<GameMetadataView>, id: u32) -> int
    decreases metas.len(),
{
    if metas.len() == 0 {
        -1
    } else if metas[0].steam_app_id == id {
        0
    } else {
        let r = meta_index(metas.drop_first(), id);
        if r < 0 {
            -1
        } else {
            r + 1
        }
    }
}

/// `metas` with `m` in place of the entry for the same app, or appended.
pub open spec fn upsert_meta(metas: Seq<GameMetadataView>, m: GameMetadataView) -> Seq<
    GameMetadataView,
> {
    let i = meta_index(metas, m.steam_app_id);
    if i >= 0 {
        metas.update(i, m)
    } else {
        metas.push(m)
    }
}

/// `metas` with each of `new` stored, in order (a later entry for the same app wins).
pub open spec fn upsert_metas(metas: Seq<GameMetadataView>, new: Seq<GameMetadataView>) -> Seq<
    GameMetadataView,
>
    decreases new.len(),
{
    if new.len() == 0 {
        metas
    } else {
        upsert_meta(upsert_metas(metas, new.drop_last()), new.last())
    }
}

/// The picks that do not belong to `month`, in their order.
pub open spec fn other_months(picks: Seq<ChoicePickView>, month: Seq<char>) -> Seq<ChoicePickView>
    decreases picks.len(),
{
    if picks.len() == 0 {
        Seq::empty()
    } else {
        let rest = other_months(picks.drop_last(), month);
        if picks.last().choice_month != month {
            rest.push(picks.last())
        } else {
            rest
        }
    }
}

// ── The sync prompt ─────────────────────────────────────────────────────────

/// Seconds in a day.
pub open spec fn day_seconds() -> int {
    86400
}

/// The message that suggests a sync: "never synced", or how many whole days
/// ago the last sync was when that is more than a day; `None` when the cache
/// is fresh.
pub open spec fn stale_message(last_synced: Option<i64>, now: i64) -> Option<Seq<char>> {
    match last_synced {
        None => Some("never synced"@),
        Some(t) => {
            let age = if now - t > 0 {
                now - t
            } else {
                0
            };
            if age > day_seconds() {
                let days = age / day_seconds();
                if days == 1 {
                    Some("1 day ago"@)
                } else {
                    Some(decimal(days as nat) + " days ago"@)
                }
            } else {
                None
            }
        },
    }
}

/// The state after learning when the last sync was, at time `now`.
/// The auth prompt is never replaced: while it is open nothing changes.
pub open spec fn after_sync_state(s: UiStateView, last_synced: Option<i64>, now: i64) -> UiStateView {
    if s.mode == Mode::Auth {
        s
    } else {
        match stale_message(last_synced, now) {
            Some(msg) => UiStateView { sync_prompt_msg: msg, mode: Mode::SyncPrompt, ..s },
            None => s,
        }
    }
}

/// The sync suggestion for a cache last synced at `last_synced`, at time `now`
/// (both Unix seconds).
pub fn sync_prompt_message(last_synced: Option<i64>, now: i64) -> (r: Option<String>)
    ensures
        match r {
            Some(m) => stale_message(last_synced, now) == Some(m@),
            None => stale_message(last_synced, now) is None,
        },
{
    match last_synced {
        None => Some("never synced".to_owned()),
        Some(t) => {
            let diff: i128 = now as i128 - t as i128;
            let age: i128 = if diff > 0 {
                diff
            } else {
                0
            };
            if age > 86400 {
                let days = age / 86400;
                if days == 1 {
                    Some("1 day ago".to_owned())
                } else {
                    let n = u64_to_string(days as u64);
                    Some(concat(n.as_str(), " days ago"))
                }
            } else {
                None
            }
        },
    }
}

/// `Utc::now()` as a Unix timestamp. It reads the clock: nothing is stated of
/// the result.
#[verifier::external_body]
fn now_timestamp() -> i64 {
    chrono::Utc::now().timestamp()
}

// ── Key handling ────────────────────────────────────────────────────────────

pub open spec fn key_is(k: KeyPress, modifiers: u8, code: KeyCode) -> bool {
    k.modifiers == modifiers && k.code == code
}

/// `s` with a search query (both the typed input and the filter's query).
pub open spec fn with_search(s: UiStateView, q: Seq<char>) -> UiStateView {
    UiStateView { search_input: q, filter: FilterStateView { search_query: q, ..s.filter }, ..s }
}

/// `t` is what a key press in search mode makes of `s`.
pub open spec fn search_outcome(s: UiStateView, k: KeyPress, t: UiStateView) -> bool {
    match k.code {
        KeyCode::Esc => refreshed(
            UiStateView { mode: Mode::Normal, ..with_search(s, Seq::empty()) },
            t,
        ),
        KeyCode::Enter => t == UiStateView { mode: Mode::Normal, ..s },
        KeyCode::Backspace => refreshed(
            with_search(
                s,
                if s.search_input.len() > 0 {
                    s.search_input.drop_last()
                } else {
                    s.search_input
                },
            ),
            t,
        ),
        KeyCode::Char(c) => refreshed(with_search(s, s.search_input.push(c)), t),
        _ => t == s,
    }
}

/// `t` is what a key press in the auth prompt makes of `s`. The prompt can
/// only be left by Enter with a cookie that is not blank; Esc does nothing.
pub open spec fn auth_outcome(s: UiStateView, k: KeyPress, t: UiStateView) -> bool {
    match k.code {
        KeyCode::Enter => t == if trim_seq(s.auth_input).len() > 0 {
            UiStateView { mode: Mode::Normal, ..s }
        } else {
            s
        },
        KeyCode::Backspace => t == UiStateView {
            auth_input: if s.auth_input.len() > 0 {
                s.auth_input.drop_last()
            } else {
                s.auth_input
            },
            ..s
        },
        KeyCode::Char(c) => t == UiStateView { auth_input: s.auth_input.push(c), ..s },
        _ => t == s,
    }
}

/// `t` and `c` are what a key press in the export prompt makes of `s`.
pub open spec fn export_outcome(s: UiStateView, k: KeyPress, t: UiStateView, c: Option<CmdView>) -> bool {
    match k.code {
        KeyCode::Esc => t == UiStateView { mode: Mode::Normal, ..s } && c is None,
        KeyCode::Enter => t == UiStateView { mode: Mode::Normal, ..s } && c == Some(
            CmdView::ExportCsv(trim_seq(s.export_input)),
        ),
        KeyCode::Backspace => c is None && t == UiStateView {
            export_input: if s.export_input.len() > 0 {
                s.export_input.drop_last()
            } else {
                s.export_input
            },
            ..s
        },
        KeyCode::Char(ch) => c is None && t == UiStateView {
            export_input: s.export_input.push(ch),
            ..s
        },
        _ => c is None && t == s,
    }
}

/// The sort order at position `i` of the cycle.
pub open spec fn sort_at(i: int) -> SortOrder {
    if i == 0 {
        SortOrder::PurchaseDateDesc
    } else if i == 1 {
        SortOrder::PurchaseDateAsc
    } else if i == 2 {
        SortOrder::NameAsc
    } else if i == 3 {
        SortOrder::NameDesc
    } else if i == 4 {
        SortOrder::BundleAsc
    } else if i == 5 {
        SortOrder::BundleDesc
    } else if i == 6 {
        SortOrder::ExpiryAsc
    } else if i == 7 {
        SortOrder::PlatformAsc
    } else if i == 8 {
        SortOrder::MetacriticDesc
    } else {
        SortOrder::UserRatingDesc
    }
}

/// `t` is what a key press in the sort picker makes of `s`.
pub open spec fn sort_picker_outcome(s: UiStateView, k: KeyPress, t: UiStateView) -> bool {
    if key_is(k, MOD_NONE, KeyCode::Esc) {
        t == UiStateView { mode: Mode::Normal, ..s }
    } else if key_is(k, MOD_NONE, KeyCode::Enter) {
        if s.sort_picker_cursor < 10 {
            refreshed(
                UiStateView {
                    mode: Mode::Normal,
                    filter: FilterStateView { sort: sort_at(s.sort_picker_cursor as int), ..s.filter },
                    ..s
                },
                t,
            )
        } else {
            t == UiStateView { mode: Mode::Normal, ..s }
        }
    } else if key_is(k, MOD_NONE, KeyCode::Char('j')) || key_is(k, MOD_NONE, KeyCode::Down) {
        t == UiStateView {
            sort_picker_cursor: (if s.sort_picker_cursor < 9 {
                s.sort_picker_cursor + 1
            } else {
                9
            }) as usize,
            ..s
        }
    } else if key_is(k, MOD_NONE, KeyCode::Char('k')) || key_is(k, MOD_NONE, KeyCode::Up) {
        t == UiStateView {
            sort_picker_cursor: (if s.sort_picker_cursor >= 1 {
                s.sort_picker_cursor - 1
            } else {
                0
            }) as usize,
            ..s
        }
    } else if key_is(k, MOD_NONE, KeyCode::Char('g')) {
        t == UiStateView { sort_picker_cursor: 0, ..s }
    } else if key_is(k, MOD_SHIFT, KeyCode::Char('G')) || key_is(k, MOD_NONE, KeyCode::Char('G')) {
        t == UiStateView { sort_picker_cursor: 9, ..s }
    } else {
        t == s
    }
}

/// The status filter after `f`: all → unredeemed → redeemed → all.
pub open spec fn next_status_filter(r: Option<RedeemStatus>) -> Option<RedeemStatus> {
    match r {
        None => Some(RedeemStatus::Unredeemed),
        Some(RedeemStatus::Unredeemed) => Some(RedeemStatus::Redeemed),
        Some(_) => None,
    }
}

/// The source filter after `c`: all → keys → choice → all.
pub open spec fn next_source(s: SourceFilter) -> SourceFilter {
    match s {
        SourceFilter::All => SourceFilter::Keys,
        SourceFilter::Keys => SourceFilter::Choice,
        SourceFilter::Choice => SourceFilter::All,
    }
}

/// `s` with every `_` replaced by `-`.
pub open spec fn dashed(s: Seq<char>) -> Seq<char> {
    s.map_values(|c: char| if c == '_' { '-' } else { c })
}

/// The Humble page for a row: the downloads page of a key's bundle, or the
/// membership page of a pick's month.
pub open spec fn humble_page_url(i: ListItemView) -> Seq<char> {
    match i {
        ListItemView::Key(k) => "https://www.humblebundle.com/downloads?key="@ + k.bundle_machine_name,
        ListItemView::Choice(p) => "https://www.humblebundle.com/membership/"@ + dashed(
            choice_slug(p.choice_month),
        ),
    }
}

/// The store page for a row.
pub open spec fn store_page_url(i: ListItemView) -> Seq<char> {
    match i {
        ListItemView::Key(k) => store_url_spec(k.platform, k.human_name, k.steam_app_id),
        ListItemView::Choice(p) => store_url_spec(p.platform, p.human_name, p.steam_app_id),
    }
}

/// `t` and `c` are what a key press while browsing the list makes of `s`.
pub open spec fn normal_outcome(s: UiStateView, k: KeyPress, t: UiStateView, c: Option<CmdView>) -> bool {
    if key_is(k, MOD_NONE, KeyCode::Char('j')) || key_is(k, MOD_NONE, KeyCode::Down) {
        c is None && t == after_move_down(s)
    } else if key_is(k, MOD_NONE, KeyCode::Char('k')) || key_is(k, MOD_NONE, KeyCode::Up) {
        c is None && t == after_move_up(s)
    } else if key_is(k, MOD_NONE, KeyCode::Char('g')) {
        c is None && t == after_jump_top(s)
    } else if key_is(k, MOD_SHIFT, KeyCode::Char('G')) {
        c is None && t == after_jump_bottom(s)
    } else if key_is(k, MOD_CONTROL, KeyCode::Char('d')) || key_is(k, MOD_NONE, KeyCode::PageDown) {
        c is None && t == after_page_down(s, 15)
    } else if key_is(k, MOD_CONTROL, KeyCode::Char('u')) || key_is(k, MOD_NONE, KeyCode::PageUp) {
        c is None && t == after_page_up(s, 15)
    } else if key_is(k, MOD_NONE, KeyCode::Char('/')) {
        c is None && t == UiStateView { mode: Mode::Search, ..s }
    } else if key_is(k, MOD_NONE, KeyCode::Char('f')) {
        c is None && refreshed(
            UiStateView {
                filter: FilterStateView {
                    redeem_status: next_status_filter(s.filter.redeem_status),
                    ..s.filter
                },
                ..s
            },
            t,
        )
    } else if key_is(k, MOD_SHIFT, KeyCode::Char('O')) || key_is(k, MOD_NONE, KeyCode::Char('O')) {
        t == s && c == match selected_view(s) {
            Some(i) => Some(CmdView::OpenUrl(store_page_url(i))),
            None => None,
        }
    } else if key_is(k, MOD_NONE, KeyCode::Char('o')) {
        t == s && c == match selected_view(s) {
            Some(i) => Some(CmdView::OpenUrl(humble_page_url(i))),
            None => None,
        }
    } else if key_is(k, MOD_NONE, KeyCode::Char('y')) {
        t == s && c == match selected_view(s) {
            Some(ListItemView::Key(key)) => match key.redeemed_key_val {
                Some(v) => Some(CmdView::CopyToClipboard(v)),
                None => None,
            },
            _ => None,
        }
    } else if key_is(k, MOD_NONE, KeyCode::Char('s')) {
        c is None && refreshed(
            UiStateView {
                filter: FilterStateView {
                    sort: crate::models::filter::sort_step(s.filter.sort),
                    ..s.filter
                },
                ..s
            },
            t,
        )
    } else if key_is(k, MOD_SHIFT, KeyCode::Char('S')) || key_is(k, MOD_NONE, KeyCode::Char('S')) {
        c is None && t == UiStateView {
            sort_picker_cursor: sort_position(s.filter.sort) as usize,
            mode: Mode::SortPicker,
            ..s
        }
    } else if key_is(k, MOD_NONE, KeyCode::Char('c')) {
        c is None && refreshed(
            UiStateView {
                filter: FilterStateView { source: next_source(s.filter.source), ..s.filter },
                ..s
            },
            t,
        )
    } else if key_is(k, MOD_NONE, KeyCode::Char('r')) {
        t == s && c == Some(CmdView::StartFullSync)
    } else if key_is(k, MOD_SHIFT, KeyCode::Char('R')) || key_is(k, MOD_NONE, KeyCode::Char('R')) {
        t == UiStateView { metadata_progress: Some((0u32, 0u32)), ..s } && c == Some(
            CmdView::StartMetadataSync,
        )
    } else if key_is(k, MOD_NONE, KeyCode::Char('e')) {
        c is None && t == UiStateView {
            export_input: Seq::empty(),
            mode: Mode::ExportPrompt,
            ..s
        }
    } else if key_is(k, MOD_NONE, KeyCode::Char('q')) || key_is(k, MOD_CONTROL, KeyCode::Char('c')) {
        t == s && c == Some(CmdView::Quit)
    } else if key_is(k, MOD_NONE, KeyCode::Char('t')) {
        c is None && exists|q: GenrePickerView|
            fresh_picker(s, q) && t == UiStateView {
                genre_picker: Some(q),
                mode: Mode::GenrePicker,
                ..s
            }
    } else {
        t == s && c is None
    }
}

// ── The genre picker ────────────────────────────────────────────────────────

/// `q` is a picker just opened on `s`: every genre and tag of the stored
/// metadata, the current genre filter chosen, listed by count.
pub open spec fn fresh_picker(s: UiStateView, q: GenrePickerView) -> bool {
    &&& q.items == tally(s.metadata_map)
    &&& q.pending == s.filter.genre_filter
    &&& viewed(
        GenrePickerView {
            items: q.items,
            search: Seq::empty(),
            listed: Seq::empty(),
            cursor: 0,
            pending: q.pending,
            sub_mode: PickerSubMode::Navigate,
            sort: TagSort::Count,
            type_filter: TagTypeFilter::All,
        },
        q,
    )
}

/// `t` is `s` with its picker `p` changed to `p2`, its list rebuilt.
pub open spec fn picker_reviewed(s: UiStateView, p2: GenrePickerView, t: UiStateView) -> bool {
    exists|q: GenrePickerView| viewed(p2, q) && t == UiStateView { genre_picker: Some(q), ..s }
}

/// `t` is `s` with its picker set to `p2`.
pub open spec fn with_picker(s: UiStateView, p2: GenrePickerView) -> UiStateView {
    UiStateView { genre_picker: Some(p2), ..s }
}

/// `t` is what a key press in the genre picker makes of `s`. While searching,
/// keys edit the search; otherwise they move, choose, change the order or the
/// kinds listed, and Enter applies the chosen genres as the filter.
pub open spec fn genre_picker_outcome(s: UiStateView, k: KeyPress, t: UiStateView) -> bool {
    match s.genre_picker {
        Some(p) => if p.sub_mode == PickerSubMode::Search {
            if key_is(k, MOD_NONE, KeyCode::Esc) || key_is(k, MOD_NONE, KeyCode::Enter) {
                t == with_picker(s, GenrePickerView { sub_mode: PickerSubMode::Navigate, ..p })
            } else if key_is(k, MOD_NONE, KeyCode::Backspace) {
                picker_reviewed(
                    s,
                    GenrePickerView {
                        search: if p.search.len() > 0 {
                            p.search.drop_last()
                        } else {
                            p.search
                        },
                        ..p
                    },
                    t,
                )
            } else if k.modifiers == MOD_NONE && k.code is Char {
                picker_reviewed(s, GenrePickerView { search: p.search.push(k.code->Char_0), ..p }, t)
            } else {
                t == s
            }
        } else {
            picker_navigate(s, p, k, t)
        },
        None => if key_is(k, MOD_NONE, KeyCode::Esc) {
            t == UiStateView { genre_picker: None, mode: Mode::Normal, ..s }
        } else if key_is(k, MOD_NONE, KeyCode::Enter) {
            refreshed(UiStateView { genre_picker: None, mode: Mode::Normal, ..s }, t)
        } else {
            t == s
        },
    }
}

/// `t` is what a key press makes of `s` while its picker `p` is navigated.
pub open spec fn picker_navigate(s: UiStateView, p: GenrePickerView, k: KeyPress, t: UiStateView) -> bool {
    if key_is(k, MOD_NONE, KeyCode::Esc) {
        if p.search.len() > 0 {
            picker_reviewed(s, GenrePickerView { search: Seq::empty(), ..p }, t)
        } else {
            t == UiStateView { genre_picker: None, mode: Mode::Normal, ..s }
        }
    } else if key_is(k, MOD_NONE, KeyCode::Enter) {
        refreshed(
            UiStateView {
                filter: FilterStateView { genre_filter: p.pending, ..s.filter },
                genre_picker: None,
                mode: Mode::Normal,
                ..s
            },
            t,
        )
    } else if key_is(k, MOD_NONE, KeyCode::Char(' ')) {
        t == match current_name(p) {
            Some(n) => with_picker(s, GenrePickerView { pending: toggled(p.pending, n), ..p }),
            None => s,
        }
    } else if key_is(k, MOD_NONE, KeyCode::Char('j')) || key_is(k, MOD_NONE, KeyCode::Down) {
        t == with_picker(s, GenrePickerView { cursor: cursor_down(p), ..p })
    } else if key_is(k, MOD_NONE, KeyCode::Char('k')) || key_is(k, MOD_NONE, KeyCode::Up) {
        t == with_picker(s, GenrePickerView { cursor: cursor_up(p), ..p })
    } else if key_is(k, MOD_NONE, KeyCode::Char('g')) {
        t == with_picker(s, GenrePickerView { cursor: 0, ..p })
    } else if key_is(k, MOD_SHIFT, KeyCode::Char('G')) || key_is(k, MOD_NONE, KeyCode::Char('G')) {
        t == with_picker(s, GenrePickerView { cursor: cursor_bottom(p), ..p })
    } else if key_is(k, MOD_NONE, KeyCode::Char('s')) {
        picker_reviewed(s, GenrePickerView { sort: next_tag_sort(p.sort), ..p }, t)
    } else if key_is(k, MOD_NONE, KeyCode::Char('f')) {
        picker_reviewed(s, GenrePickerView { type_filter: next_type_filter(p.type_filter), ..p }, t)
    } else if key_is(k, MOD_NONE, KeyCode::Char('/')) {
        t == with_picker(s, GenrePickerView { sub_mode: PickerSubMode::Search, ..p })
    } else if key_is(k, MOD_CONTROL, KeyCode::Char('c')) {
        t == with_picker(s, GenrePickerView { pending: Seq::empty(), ..p })
    } else {
        t == s
    }
}

/// `t` and `c` are what a key press makes of `s`, by the mode `s` is in.
pub open spec fn key_outcome(s: UiStateView, k: KeyPress, t: UiStateView, c: Option<CmdView>) -> bool {
    match s.mode {
        Mode::Auth => auth_outcome(s, k, t) && c is None,
        Mode::Search => search_outcome(s, k, t) && c is None,
        Mode::ExportPrompt => export_outcome(s, k, t, c),
        Mode::SortPicker => sort_picker_outcome(s, k, t) && c is None,
        Mode::GenrePicker => genre_picker_outcome(s, k, t) && c is None,
        Mode::Error => t == UiStateView { last_error: None, mode: Mode::Normal, ..s } && c is None,
        Mode::SyncPrompt => t == UiStateView { mode: Mode::Normal, ..s } && c == (if k.code
            == KeyCode::Char('r') {
            Some(CmdView::StartFullSync)
        } else {
            None
        }),
        Mode::Normal => normal_outcome(s, k, t, c),
    }
}

// ── Executable merging ──────────────────────────────────────────────────────

proof fn lemma_key_index_bounds(keys: Seq<GameKeyView>, name: Seq<char>)
    ensures
        -1 <= key_index(keys, name) < keys.len(),
        key_index(keys, name) >= 0 ==> keys[key_index(keys, name)].tpkd_machine_name == name,
    decreases keys.len(),
{
    if keys.len() > 0 && keys[0].tpkd_machine_name != name {
        lemma_key_index_bounds(keys.drop_first(), name);
    }
}

pub proof fn lemma_meta_index_bounds(metas: Seq<GameMetadataView>, id: u32)
    ensures
        -1 <= meta_index(metas, id) < metas.len(),
        meta_index(metas, id) >= 0 ==> metas[meta_index(metas, id)].steam_app_id == id,
    decreases metas.len(),
{
    if metas.len() > 0 && metas[0].steam_app_id != id {
        lemma_meta_index_bounds(metas.drop_first(), id);
    }
}

/// The position of the first key in `keys` with machine name `name`.
fn find_key(keys: &Vec<GameKey>, name: &str) -> (r: Option<usize>)
    ensures
        match r {
            Some(i) => key_index(keys_view(keys@), name@) == i && i < keys@.len(),
            None => key_index(keys_view(keys@), name@) == -1,
        },
{
    let ghost kv = keys_view(keys@);
    let mut i: usize = 0;
    assert(kv.subrange(0, kv.len() as int) == kv);
    while i < keys.len()
        invariant
            kv == keys_view(keys@),
            i <= keys@.len(),
            key_index(kv, name@) == if key_index(kv.subrange(i as int, kv.len() as int), name@)
                < 0 {
                -1
            } else {
                key_index(kv.subrange(i as int, kv.len() as int), name@) + i
            },
        decreases keys@.len() - i,
    {
        let ghost rest = kv.subrange(i as int, kv.len() as int);
        assert(rest[0] == keys@[i as int]@);
        if str_eq(keys[i].tpkd_machine_name.as_str(), name) {
            return Some(i);
        }
        assert(rest.drop_first() == kv.subrange(i + 1, kv.len() as int));
        i = i + 1;
    }
    None
}

/// The position of the first entry in `metas` for Steam app `id`.
pub fn find_meta(metas: &Vec<GameMetadata>, id: u32) -> (r: Option<usize>)
    ensures
        match r {
            Some(i) => meta_index(metas_view(metas@), id) == i && i < metas@.len(),
            None => meta_index(metas_view(metas@), id) == -1,
        },
{
    let ghost mv = metas_view(metas@);
    let mut i: usize = 0;
    assert(mv.subrange(0, mv.len() as int) == mv);
    while i < metas.len()
        invariant
            mv == metas_view(metas@),
            i <= metas@.len(),
            meta_index(mv, id) == if meta_index(mv.subrange(i as int, mv.len() as int), id) < 0 {
                -1
            } else {
                meta_index(mv.subrange(i as int, mv.len() as int), id) + i
            },
        decreases metas@.len() - i,
    {
        let ghost rest = mv.subrange(i as int, mv.len() as int);
        assert(rest[0] == metas@[i as int]@);
        if metas[i].steam_app_id == id {
            return Some(i);
        }
        assert(rest.drop_first() == mv.subrange(i + 1, mv.len() as int));
        i = i + 1;
    }
    None
}

/// Merges `new` into `keys`: each key replaces the first key with the same
/// machine name, or is appended.
pub fn merge_keys_into(keys: &mut Vec<GameKey>, new: &Vec<GameKey>)
    ensures
        keys_view(final(keys)@) == merge_keys(keys_view(old(keys)@), keys_view(new@)),
{
    let ghost nv = keys_view(new@);
    let ghost start = keys_view(keys@);
    let mut i: usize = 0;
    while i < new.len()
        invariant
            nv == keys_view(new@),
            i <= new@.len(),
            keys_view(keys@) == merge_keys(start, nv.subrange(0, i as int)),
        decreases new@.len() - i,
    {
        assert(nv.subrange(0, i + 1).drop_last() == nv.subrange(0, i as int));
        let k = new[i].clone();
        let ghost before = keys_view(keys@);
        proof {
            lemma_key_index_bounds(before, k@.tpkd_machine_name);
        }
        match find_key(keys, k.tpkd_machine_name.as_str()) {
            Some(j) => {
                keys.set(j, k);
                assert(keys_view(keys@) =~= before.update(j as int, new@[i as int]@));
            },
            None => {
                keys.push(k);
                assert(keys_view(keys@) =~= before.push(new@[i as int]@));
            },
        }
        i = i + 1;
    }
    assert(nv.subrange(0, nv.len() as int) == nv);
}

/// Stores each of `new` in `metas`: an entry replaces the first entry for the
/// same Steam app, or is appended.
pub fn upsert_metas_into(metas: &mut Vec<GameMetadata>, new: &Vec<GameMetadata>)
    ensures
        metas_view(final(metas)@) == upsert_metas(metas_view(old(metas)@), metas_view(new@)),
{
    let ghost nv = metas_view(new@);
    let ghost start = metas_view(metas@);
    let mut i: usize = 0;
    while i < new.len()
        invariant
            nv == metas_view(new@),
            i <= new@.len(),
            metas_view(metas@) == upsert_metas(start, nv.subrange(0, i as int)),
        decreases new@.len() - i,
    {
        assert(nv.subrange(0, i + 1).drop_last() == nv.subrange(0, i as int));
        let m = new[i].clone();
        let ghost before = metas_view(metas@);
        proof {
            lemma_meta_index_bounds(before, m@.steam_app_id);
        }
        match find_meta(metas, m.steam_app_id) {
            Some(j) => {
                metas.set(j, m);
                assert(metas_view(metas@) =~= before.update(j as int, new@[i as int]@));
            },
            None => {
                metas.push(m);
                assert(metas_view(metas@) =~= before.push(new@[i as int]@));
            },
        }
        i = i + 1;
    }
    assert(nv.subrange(0, nv.len() as int) == nv);
}

/// Replaces the picks of `month` by `new`: picks of other months stay, in
/// their order, and `new` follows them.
pub fn replace_month_picks(picks: &mut Vec<ChoicePick>, month: &str, new: &Vec<ChoicePick>)
    ensures
        picks_view(final(picks)@) == other_months(picks_view(old(picks)@), month@) + picks_view(
            new@,
        ),
{
    let ghost pv = picks_view(picks@);
    let mut kept: Vec<ChoicePick> = Vec::new();
    let mut i: usize = 0;
    while i < picks.len()
        invariant
            pv == picks_view(picks@),
            i <= picks@.len(),
            picks_view(kept@) == other_months(pv.subrange(0, i as int), month@),
        decreases picks@.len() - i,
    {
        assert(pv.subrange(0, i + 1).drop_last() == pv.subrange(0, i as int));
        if !str_eq(picks[i].choice_month.as_str(), month) {
            let ghost before = picks_view(kept@);
            kept.push(picks[i].clone());
            assert(picks_view(kept@) =~= before.push(pv[i as int]));
        }
        i = i + 1;
    }
    assert(pv.subrange(0, pv.len() as int) == pv);
    let ghost kept_view = picks_view(kept@);
    let mut j: usize = 0;
    while j < new.len()
        invariant
            j <= new@.len(),
            picks_view(kept@) == kept_view + picks_view(new@).subrange(0, j as int),
        decreases new@.len() - j,
    {
        let ghost before = picks_view(kept@);
        kept.push(new[j].clone());
        assert(picks_view(kept@) =~= before.push(new@[j as int]@));
        assert(picks_view(new@).subrange(0, j + 1) =~= picks_view(new@).subrange(0, j as int).push(
            new@[j as int]@,
        ));
        assert(picks_view(kept@) =~= kept_view + picks_view(new@).subrange(0, j + 1));
        j = j + 1;
    }
    assert(picks_view(new@).subrange(0, new@.len() as int) == picks_view(new@));
    *picks = kept;
}

// ── Executable key handling ─────────────────────────────────────────────────

fn handle_search_input(state: &mut UiState, key: KeyPress)
    ensures
        search_outcome(old(state)@, key, final(state)@),
{
    match key.code {
        KeyCode::Esc => {
            state.filter.search_query = String::new();
            state.search_input = String::new();
            state.mode = Mode::Normal;
            state.apply_filters();
        },
        KeyCode::Enter => {
            state.mode = Mode::Normal;
        },
        KeyCode::Backspace => {
            pop_char(&mut state.search_input);
            state.filter.search_query = state.search_input.clone();
            state.apply_filters();
        },
        KeyCode::Char(c) => {
            push_char(&mut state.search_input, c);
            state.filter.search_query = state.search_input.clone();
            state.apply_filters();
        },
        _ => {},
    }
}

fn handle_auth_input(state: &mut UiState, key: KeyPress)
    ensures
        auth_outcome(old(state)@, key, final(state)@),
{
    match key.code {
        KeyCode::Enter => {
            let cookie = trim(state.auth_input.as_str());
            if cookie.unicode_len() > 0 {
                state.mode = Mode::Normal;
            }
        },
        KeyCode::Backspace => {
            pop_char(&mut state.auth_input);
        },
        KeyCode::Char(c) => {
            push_char(&mut state.auth_input, c);
        },
        _ => {},
    }
}

fn handle_export_input(state: &mut UiState, key: KeyPress) -> (r: Option<Cmd>)
    ensures
        export_outcome(old(state)@, key, final(state)@, opt_cmd_view(r)),
{
    match key.code {
        KeyCode::Esc => {
            state.mode = Mode::Normal;
            None
        },
        KeyCode::Enter => {
            let path = trim(state.export_input.as_str());
            state.mode = Mode::Normal;
            Some(Cmd::ExportCsv(path))
        },
        KeyCode::Backspace => {
            pop_char(&mut state.export_input);
            None
        },
        KeyCode::Char(c) => {
            push_char(&mut state.export_input, c);
            None
        },
        _ => None,
    }
}

fn sort_order_at(i: usize) -> (r: SortOrder)
    ensures
        r == sort_at(i as int),
{
    if i == 0 {
        SortOrder::PurchaseDateDesc
    } else if i == 1 {
        SortOrder::PurchaseDateAsc
    } else if i == 2 {
        SortOrder::NameAsc
    } else if i == 3 {
        SortOrder::NameDesc
    } else if i == 4 {
        SortOrder::BundleAsc
    } else if i == 5 {
        SortOrder::BundleDesc
    } else if i == 6 {
        SortOrder::ExpiryAsc
    } else if i == 7 {
        SortOrder::PlatformAsc
    } else if i == 8 {
        SortOrder::MetacriticDesc
    } else {
        SortOrder::UserRatingDesc
    }
}

fn handle_sort_picker_input(state: &mut UiState, key: KeyPress)
    ensures
        sort_picker_outcome(old(state)@, key, final(state)@),
{
    let none = key.modifiers == MOD_NONE;
    if none && key.code == KeyCode::Esc {
        state.mode = Mode::Normal;
    } else if none && key.code == KeyCode::Enter {
        if state.sort_picker_cursor < 10 {
            state.filter.sort = sort_order_at(state.sort_picker_cursor);
            state.mode = Mode::Normal;
            state.apply_filters();
        } else {
            state.mode = Mode::Normal;
        }
    } else if none && (key.code == KeyCode::Char('j') || key.code == KeyCode::Down) {
        state.sort_picker_cursor = if state.sort_picker_cursor < 9 {
            state.sort_picker_cursor + 1
        } else {
            9
        };
    } else if none && (key.code == KeyCode::Char('k') || key.code == KeyCode::Up) {
        state.sort_picker_cursor = state.sort_picker_cursor.saturating_sub(1);
    } else if none && key.code == KeyCode::Char('g') {
        state.sort_picker_cursor = 0;
    } else if (key.modifiers == MOD_SHIFT || none) && key.code == KeyCode::Char('G') {
        state.sort_picker_cursor = 9;
    }
}

/// `s` with every `_` replaced by `-`.
fn dashes_for_underscores(s: &Vec<char>) -> (r: Vec<char>)
    ensures
        r@ == dashed(s@),
{
    let mut r: Vec<char> = Vec::new();
    let mut i: usize = 0;
    while i < s.len()
        invariant
            i <= s@.len(),
            r@ == dashed(s@.subrange(0, i as int)),
        decreases s@.len() - i,
    {
        let c = s[i];
        r.push(if c == '_' {
            '-'
        } else {
            c
        });
        assert(dashed(s@.subrange(0, i + 1)) =~= dashed(s@.subrange(0, i as int)).push(
            if c == '_' {
                '-'
            } else {
                c
            },
        ));
        i = i + 1;
    }
    assert(s@.subrange(0, s@.len() as int) == s@);
    r
}

/// The Humble page for a row.
pub fn humble_page(item: &ListItem) -> (r: String)
    ensures
        r@ == humble_page_url(item@),
{
    match item {
        ListItem::Key(k) => concat(
            "https://www.humblebundle.com/downloads?key=",
            k.bundle_machine_name.as_str(),
        ),
        ListItem::Choice(p) => {
            let slug = choice_slug_of(p.choice_month.as_str());
            let d = dashes_for_underscores(&slug);
            let ds = string_from_chars(d.as_slice());
            concat("https://www.humblebundle.com/membership/", ds.as_str())
        },
    }
}

/// The store page for a row.
pub fn store_page(item: &ListItem) -> (r: String)
    ensures
        r@ == store_page_url(item@),
{
    let url = match item {
        ListItem::Key(k) => k.platform.store_url(k.human_name.as_str(), k.steam_app_id),
        ListItem::Choice(p) => p.platform.store_url(p.human_name.as_str(), p.steam_app_id),
    };
    match url {
        Some(u) => u,
        None => String::new(),
    }
}

fn handle_normal_input(state: &mut UiState, key: KeyPress) -> (r: Option<Cmd>)
    ensures
        normal_outcome(old(state)@, key, final(state)@, opt_cmd_view(r)),
{
    let m = key.modifiers;
    let code = key.code;
    let none = m == MOD_NONE;
    if none && (code == KeyCode::Char('j') || code == KeyCode::Down) {
        state.move_down();
        None
    } else if none && (code == KeyCode::Char('k') || code == KeyCode::Up) {
        state.move_up();
        None
    } else if none && code == KeyCode::Char('g') {
        state.jump_top();
        None
    } else if m == MOD_SHIFT && code == KeyCode::Char('G') {
        state.jump_bottom();
        None
    } else if (m == MOD_CONTROL && code == KeyCode::Char('d')) || (none && code
        == KeyCode::PageDown) {
        state.page_down(15);
        None
    } else if (m == MOD_CONTROL && code == KeyCode::Char('u')) || (none && code == KeyCode::PageUp) {
        state.page_up(15);
        None
    } else if none && code == KeyCode::Char('/') {
        state.mode = Mode::Search;
        None
    } else if none && code == KeyCode::Char('f') {
        state.filter.redeem_status = match state.filter.redeem_status {
            None => Some(RedeemStatus::Unredeemed),
            Some(RedeemStatus::Unredeemed) => Some(RedeemStatus::Redeemed),
            Some(_) => None,
        };
        state.apply_filters();
        None
    } else if (m == MOD_SHIFT || none) && code == KeyCode::Char('O') {
        match state.selected_item() {
            Some(item) => Some(Cmd::OpenUrl(store_page(item))),
            None => None,
        }
    } else if none && code == KeyCode::Char('o') {
        match state.selected_item() {
            Some(item) => Some(Cmd::OpenUrl(humble_page(item))),
            None => None,
        }
    } else if none && code == KeyCode::Char('y') {
        match state.selected_item() {
            Some(ListItem::Key(k)) => match &k.redeemed_key_val {
                Some(v) => Some(Cmd::CopyToClipboard(v.clone())),
                None => None,
            },
            _ => None,
        }
    } else if none && code == KeyCode::Char('s') {
        state.filter.sort = state.filter.sort.next();
        state.apply_filters();
        None
    } else if (m == MOD_SHIFT || none) && code == KeyCode::Char('S') {
        let all = SortOrder::all();
        let mut i: usize = 0;
        while i < all.len() && all[i] != state.filter.sort
            invariant
                all@.len() == 10,
                forall|k: int| 0 <= k < all@.len() ==> sort_position(#[trigger] all@[k]) == k,
                i <= all@.len(),
                forall|k: int| 0 <= k < i ==> all@[k] != state.filter.sort,
            decreases all@.len() - i,
        {
            i = i + 1;
        }
        proof {
            if i == all@.len() {
                let p = sort_position(state.filter.sort);
                assert(sort_position(all@[p]) == p);
            }
        }
        let cursor = if i < all.len() {
            i
        } else {
            0
        };
        state.sort_picker_cursor = cursor;
        state.mode = Mode::SortPicker;
        None
    } else if none && code == KeyCode::Char('c') {
        state.filter.source = match state.filter.source {
            SourceFilter::All => SourceFilter::Keys,
            SourceFilter::Keys => SourceFilter::Choice,
            SourceFilter::Choice => SourceFilter::All,
        };
        state.apply_filters();
        None
    } else if none && code == KeyCode::Char('r') {
        Some(Cmd::StartFullSync)
    } else if (m == MOD_SHIFT || none) && code == KeyCode::Char('R') {
        state.metadata_progress = Some((0, 0));
        Some(Cmd::StartMetadataSync)
    } else if none && code == KeyCode::Char('e') {
        state.export_input = String::new();
        state.mode = Mode::ExportPrompt;
        None
    } else if (none && code == KeyCode::Char('q')) || (m == MOD_CONTROL && code == KeyCode::Char(
        'c',
    )) {
        Some(Cmd::Quit)
    } else if none && code == KeyCode::Char('t') {
        let picker = GenrePickerState::new(&state.metadata_map, &state.filter.genre_filter);
        let ghost q = picker@;
        state.genre_picker = Some(picker);
        state.mode = Mode::GenrePicker;
        assert(fresh_picker(old(state)@, q));
        None
    } else {
        None
    }
}

/// Rebuilds the list of `p` and stores it back in `state`.
fn store_viewed(state: &mut UiState, p: GenrePickerState)
    ensures
        exists|q: GenrePickerView|
            viewed(p@, q) && final(state)@ == (UiStateView { genre_picker: Some(q), ..old(state)@ }),
{
    let mut p = p;
    let ghost before = p@;
    p.apply_view();
    let ghost q = p@;
    state.genre_picker = Some(p);
    assert(viewed(before, q) && state@ == UiStateView { genre_picker: Some(q), ..old(state)@ });
}

fn handle_genre_picker_input(state: &mut UiState, key: KeyPress)
    ensures
        genre_picker_outcome(old(state)@, key, final(state)@),
{
    let m = key.modifiers;
    let code = key.code;
    let none = m == MOD_NONE;
    let ghost s = state@;
    match state.genre_picker.take() {
        None => {
            assert(state@ == s);
            if none && code == KeyCode::Esc {
                state.mode = Mode::Normal;
            } else if none && code == KeyCode::Enter {
                state.mode = Mode::Normal;
                state.apply_filters();
            }
        },
        Some(mut p) => {
            assert(s.genre_picker == Some(p@));
            if p.sub_mode == PickerSubMode::Search {
                if none && (code == KeyCode::Esc || code == KeyCode::Enter) {
                    p.sub_mode = PickerSubMode::Navigate;
                    state.genre_picker = Some(p);
                } else if none && code == KeyCode::Backspace {
                    pop_char(&mut p.search);
                    store_viewed(state, p);
                } else {
                    match code {
                        KeyCode::Char(c) => {
                            if none {
                                push_char(&mut p.search, c);
                                store_viewed(state, p);
                            } else {
                                state.genre_picker = Some(p);
                            }
                        },
                        _ => {
                            state.genre_picker = Some(p);
                        },
                    }
                }
            } else if none && code == KeyCode::Esc {
                if p.search.unicode_len() > 0 {
                    p.search = String::new();
                    proof {
                        reveal_strlit("");
                    }
                    store_viewed(state, p);
                } else {
                    state.mode = Mode::Normal;
                }
            } else if none && code == KeyCode::Enter {
                state.filter.genre_filter = p.pending_filter;
                state.mode = Mode::Normal;
                state.apply_filters();
            } else if none && code == KeyCode::Char(' ') {
                p.toggle_current();
                state.genre_picker = Some(p);
            } else if none && (code == KeyCode::Char('j') || code == KeyCode::Down) {
                p.move_down();
                state.genre_picker = Some(p);
            } else if none && (code == KeyCode::Char('k') || code == KeyCode::Up) {
                p.move_up();
                state.genre_picker = Some(p);
            } else if none && code == KeyCode::Char('g') {
                p.jump_top();
                state.genre_picker = Some(p);
            } else if (m == MOD_SHIFT || none) && code == KeyCode::Char('G') {
                p.jump_bottom();
                state.genre_picker = Some(p);
            } else if none && code == KeyCode::Char('s') {
                p.sort = p.sort.next();
                store_viewed(state, p);
            } else if none && code == KeyCode::Char('f') {
                p.type_filter = p.type_filter.next();
                store_viewed(state, p);
            } else if none && code == KeyCode::Char('/') {
                p.sub_mode = PickerSubMode::Search;
                state.genre_picker = Some(p);
            } else if m == MOD_CONTROL && code == KeyCode::Char('c') {
                p.pending_filter = Vec::new();
                proof {
                    assert(crate::text::string_views(p.pending_filter@) =~= Seq::<Seq<char>>::empty());
                }
                state.genre_picker = Some(p);
            } else {
                state.genre_picker = Some(p);
            }
        },
    }
}

fn handle_input(state: &mut UiState, event: InputEvent) -> (r: Option<Cmd>)
    ensures
        match event {
            InputEvent::Key(k) => key_outcome(old(state)@, k, final(state)@, opt_cmd_view(r)),
            InputEvent::Other => final(state)@ == old(state)@ && r is None,
        },
{
    let key = match event {
        InputEvent::Key(k) => k,
        InputEvent::Other => {
            return None;
        },
    };
    match state.mode {
        Mode::Auth => {
            handle_auth_input(state, key);
            None
        },
        Mode::Search => {
            handle_search_input(state, key);
            None
        },
        Mode::ExportPrompt => handle_export_input(state, key),
        Mode::SortPicker => {
            handle_sort_picker_input(state, key);
            None
        },
        Mode::GenrePicker => {
            handle_genre_picker_input(state, key);
            None
        },
        Mode::Error => {
            state.last_error = None;
            state.mode = Mode::Normal;
            None
        },
        Mode::SyncPrompt => {
            state.mode = Mode::Normal;
            if key.code == KeyCode::Char('r') {
                Some(Cmd::StartFullSync)
            } else {
                None
            }
        },
        Mode::Normal => handle_normal_input(state, key),
    }
}

// ── Processing one event ────────────────────────────────────────────────────

/// `t` and `c` are what event `e` makes of `s`, when the clock reads `now`.
pub open spec fn event_outcome(
    s: UiStateView,
    e: AppEvent,
    now: i64,
    t: UiStateView,
    c: Option<CmdView>,
) -> bool {
    match e {
        AppEvent::Tick => t == s && c is None,
        AppEvent::Input(InputEvent::Key(k)) => key_outcome(s, k, t, c),
        AppEvent::Input(InputEvent::Other) => t == s && c is None,
        AppEvent::CacheLoaded { keys, picks } => c is None && refreshed(
            UiStateView { all_keys: keys_view(keys@), all_picks: picks_view(picks@), ..s },
            t,
        ),
        AppEvent::OrderRefsLoaded(refs) => c is None && t == UiStateView {
            sync_progress: Some((0u32, refs@.len() as u32)),
            ..s
        },
        AppEvent::OrderLoaded { keys } => c is None && refreshed(
            UiStateView { all_keys: merge_keys(s.all_keys, keys_view(keys@)), ..s },
            t,
        ),
        AppEvent::ChoicePicksLoaded { month, picks } => c is None && refreshed(
            UiStateView { all_picks: other_months(s.all_picks, month@) + picks_view(picks@), ..s },
            t,
        ),
        AppEvent::SyncProgress { done, total, label } => c is None && t == UiStateView {
            sync_progress: Some((done, total)),
            sync_label: label@,
            ..s
        },
        AppEvent::SyncError(msg) => c is None && t == UiStateView { last_error: Some(msg@), ..s },
        AppEvent::SyncStateLoaded(last) => c is None && t == after_sync_state(s, last, now),
        AppEvent::AllMetadataLoaded(items) => c is None && t == UiStateView {
            metadata_map: upsert_metas(Seq::empty(), metas_view(items@)),
            ..s
        },
        AppEvent::MetadataEnriched(m) => c is None && t == UiStateView {
            metadata_map: upsert_meta(s.metadata_map, m@),
            ..s
        },
        AppEvent::MetadataProgress { done, total } => c is None && t == UiStateView {
            metadata_progress: Some((done, total)),
            ..s
        },
        AppEvent::MetadataSyncComplete => t == s && c is None,
    }
}

/// Process one event, mutate state, and optionally return a Cmd for the rest
/// of the program. Only the sync-state event reads the clock; the result holds
/// for the time it read.
pub fn update(state: &mut UiState, event: AppEvent) -> (r: Option<Cmd>)
    ensures
        exists|now: i64| event_outcome(old(state)@, event, now, final(state)@, opt_cmd_view(r)),
{
    let ghost e = event;
    let ghost now0: i64 = 0;
    let r = match event {
        AppEvent::Tick => None,
        AppEvent::CacheLoaded { keys, picks } => {
            state.all_keys = keys;
            state.all_picks = picks;
            state.apply_filters();
            assert(event_outcome(old(state)@, e, now0, state@, None));
            None
        },
        AppEvent::OrderRefsLoaded(refs) => {
            state.sync_progress = Some((0, #[verifier::truncate] (refs.len() as u32)));
            assert(event_outcome(old(state)@, e, now0, state@, None));
            None
        },
        AppEvent::OrderLoaded { keys } => {
            merge_keys_into(&mut state.all_keys, &keys);
            state.apply_filters();
            assert(event_outcome(old(state)@, e, now0, state@, None));
            None
        },
        AppEvent::ChoicePicksLoaded { month, picks } => {
            replace_month_picks(&mut state.all_picks, month.as_str(), &picks);
            state.apply_filters();
            assert(event_outcome(old(state)@, e, now0, state@, None));
            None
        },
        AppEvent::SyncProgress { done, total, label } => {
            state.sync_progress = Some((done, total));
            state.sync_label = label;
            assert(event_outcome(old(state)@, e, now0, state@, None));
            None
        },
        AppEvent::SyncError(msg) => {
            state.last_error = Some(msg);
            assert(event_outcome(old(state)@, e, now0, state@, None));
            None
        },
        AppEvent::AllMetadataLoaded(items) => {
            let mut map: Vec<GameMetadata> = Vec::new();
            assert(metas_view(map@) =~= Seq::<GameMetadataView>::empty());
            upsert_metas_into(&mut map, &items);
            state.metadata_map = map;
            assert(event_outcome(old(state)@, e, now0, state@, None));
            None
        },
        AppEvent::MetadataEnriched(meta) => {
            let one = vec![meta];
            proof {
                assert(one@.len() == 1);
                reveal_with_fuel(upsert_metas, 2);
                assert(metas_view(one@).drop_last() =~= Seq::<GameMetadataView>::empty());
                assert(metas_view(one@).last() == one@[0]@);
                assert(upsert_metas(metas_view(state.metadata_map@), metas_view(one@)) == upsert_meta(
                    metas_view(state.metadata_map@),
                    one@[0]@,
                ));
            }
            upsert_metas_into(&mut state.metadata_map, &one);
            assert(event_outcome(old(state)@, e, now0, state@, None));
            None
        },
        AppEvent::MetadataProgress { done, total } => {
            state.metadata_progress = Some((done, total));
            assert(event_outcome(old(state)@, e, now0, state@, None));
            None
        },
        AppEvent::MetadataSyncComplete => None,
        AppEvent::SyncStateLoaded(last_synced) => {
            let now = now_timestamp();
            proof {
                now0 = now;
            }
            if state.mode != Mode::Auth {
                if let Some(msg) = sync_prompt_message(last_synced, now) {
                    state.sync_prompt_msg = msg;
                    state.mode = Mode::SyncPrompt;
                }
            }
            assert(event_outcome(old(state)@, e, now0, state@, None));
            None
        },
        AppEvent::Input(input) => handle_input(state, input),
    };
    assert(event_outcome(old(state)@, e, now0, state@, opt_cmd_view(r)));
    r
}

/// One turn of the main loop: an Enter in the auth prompt with a non-blank
/// cookie saves it (the trimmed cookie) and leaves the prompt; any other event
/// goes to [`update`], after which a pending error shows as the error modal.
pub fn step(state: &mut UiState, event: AppEvent) -> (r: Option<Cmd>)
    ensures
        ({
            let s = old(state)@;
            let saves = s.mode == Mode::Auth && (event matches AppEvent::Input(
                InputEvent::Key(k),
            ) && k.code == KeyCode::Enter) && trim_seq(s.auth_input).len() > 0;
            if saves {
                final(state)@ == UiStateView { mode: Mode::Normal, ..s } && opt_cmd_view(r)
                    == Some(CmdView::SaveSessionCookie(trim_seq(s.auth_input)))
            } else {
                exists|now: i64, t: UiStateView|
                    {
                        &&& event_outcome(s, event, now, t, opt_cmd_view(r))
                        &&& final(state)@ == if t.last_error is Some && t.mode == Mode::Normal {
                            UiStateView { mode: Mode::Error, ..t }
                        } else {
                            t
                        }
                    }
            }
        }),
{
    if state.mode == Mode::Auth {
        if let AppEvent::Input(InputEvent::Key(k)) = &event {
            if k.code == KeyCode::Enter {
                let cookie = trim(state.auth_input.as_str());
                if cookie.unicode_len() > 0 {
                    state.mode = Mode::Normal;
                    return Some(Cmd::SaveSessionCookie(cookie));
                }
            }
        }
    }
    let ghost e = event;
    let r = update(state, event);
    let ghost t = state@;
    if state.last_error.is_some() && state.mode == Mode::Normal {
        state.mode = Mode::Error;
    }
    proof {
        let now = choose|now: i64| event_outcome(old(state)@, e, now, t, opt_cmd_view(r));
        assert(event_outcome(old(state)@, e, now, t, opt_cmd_view(r)));
    }
    r
}

impl UiState {
    /// Shows an export failure in the error modal.
    pub fn export_failed(&mut self, reason: &str)
        ensures
            final(self)@ == (UiStateView {
                last_error: Some("Export failed: "@ + reason@),
                mode: Mode::Error,
                ..old(self)@
            }),
    {
        self.last_error = Some(concat("Export failed: ", reason));
        self.mode = Mode::Error;
    }
}

} // verus!
