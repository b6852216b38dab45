use vstd::prelude::*;

use super::order::{rank_keys_view, sort_positions, stable_sorted, RankKey, SortKey};
use super::state::metas_view;
use crate::models::metadata::{GameMetadata, GameMetadataView};
use crate::text::{
    chars_of, clone_strings, find_first, find_from, str_eq, string_views, to_lowercase,
    unicode_lowercase,
};

verus! {

// ── Settings of the picker ──────────────────────────────────────────────────

/// Whether keys go to the list or to the search box.
#[derive(Debug, Clone, Copy, PartialEq, Eq, Structural)]
pub enum PickerSubMode {
    Navigate,
    Search,
}

/// Which kinds of entries the picker lists.
#[derive(Debug, Clone, Copy, PartialEq, Eq, Structural)]
pub enum TagTypeFilter {
    All,
    Genres,
    Tags,
}

pub open spec fn next_type_filter(f: TagTypeFilter) -> TagTypeFilter {
    match f {
        TagTypeFilter::All => TagTypeFilter::Genres,
        TagTypeFilter::Genres => TagTypeFilter::Tags,
        TagTypeFilter::Tags => TagTypeFilter::All,
    }
}

impl TagTypeFilter {
    /// The next setting: all → genres → tags → all.
    pub fn next(&self) -> (r: TagTypeFilter)
        ensures
            r == next_type_filter(*self),
    {
        match self {
            TagTypeFilter::All => TagTypeFilter::Genres,
            TagTypeFilter::Genres => TagTypeFilter::Tags,
            TagTypeFilter::Tags => TagTypeFilter::All,
        }
    }
}

/// The order of the picker's list.
#[derive(Debug, Clone, Copy, PartialEq, Eq, Structural)]
pub enum TagSort {
    /// Most used first, then by name
    Count,
    /// By name
    Name,
}

pub open spec fn next_tag_sort(s: TagSort) -> TagSort {
    match s {
        TagSort::Count => TagSort::Name,
        TagSort::Name => TagSort::Count,
    }
}

impl TagSort {
    /// The other order.
    pub fn next(&self) -> (r: TagSort)
        ensures
            r == next_tag_sort(*self),
    {
        match self {
            TagSort::Count => TagSort::Name,
            TagSort::Name => TagSort::Count,
        }
    }
}

// ── Entries ─────────────────────────────────────────────────────────────────

/// A genre or tag with the number of times the stored metadata names it.
#[derive(Debug)]
pub struct TagEntry {
    pub name: String,
    pub count: u32,
    pub is_genre: bool,
}

impl View for TagEntry {
    type V = (Seq<char>, u32, bool);

    open spec fn view(&self) -> (Seq<char>, u32, bool) {
        (self.name@, self.count, self.is_genre)
    }
}

pub open spec fn entries_view(s: Seq<TagEntry>) -> Seq<(Seq<char>, u32, bool)> {
    s.map_values(|e: TagEntry| e@)
}

/// The position of the first entry named `name` of kind `g`, or -1.
pub open spec fn entry_index(items: Seq<(Seq<char>, u32, bool)>, name: Seq<char>, g: bool) -> int
    decreases items.len(),
{
    if items.len() == 0 {
        -1
    } else if items[0].0 == name && items[0].2 == g {
        0
    } else {
        let r = entry_index(items.drop_first(), name, g);
        if r < 0 {
            -1
        } else {
            r + 1
        }
    }
}

proof fn lemma_entry_index_bounds(items: Seq<(Seq<char>, u32, bool)>, name: Seq<char>, g: bool)
    ensures
        -1 <= entry_index(items, name, g) < items.len(),
    decreases items.len(),
{
    if items.len() > 0 {
        lemma_entry_index_bounds(items.drop_first(), name, g);
    }
}

/// `items` after counting one more use of `name` (of kind `g`): its count
/// goes up by one (staying at the largest `u32`), or a new entry with count 1
/// is added at the end.
pub open spec fn tally_one(items: Seq<(Seq<char>, u32, bool)>, name: Seq<char>, g: bool) -> Seq<
    (Seq<char>, u32, bool),
> {
    let i = entry_index(items, name, g);
    if i >= 0 {
        items.update(
            i,
            (name, if items[i].1 < u32::MAX {
                (items[i].1 + 1) as u32
            } else {
                items[i].1
            }, g),
        )
    } else {
        items.push((name, 1u32, g))
    }
}

/// `items` after counting each of `names`, in order.
pub open spec fn tally_names(items: Seq<(Seq<char>, u32, bool)>, names: Seq<Seq<char>>, g: bool) -> Seq<
    (Seq<char>, u32, bool),
>
    decreases names.len(),
{
    if names.len() == 0 {
        items
    } else {
        tally_one(tally_names(items, names.drop_last(), g), names.last(), g)
    }
}

/// The entries for all stored metadata: each app's Steam genres and IGDB
/// genres count as genres, its Steam tags as tags; entries appear in the
/// order they are first met.
pub open spec fn tally(metas: Seq<GameMetadataView>) -> Seq<(Seq<char>, u32, bool)>
    decreases metas.len(),
{
    if metas.len() == 0 {
        Seq::empty()
    } else {
        let m = metas.last();
        tally_names(
            tally_names(tally_names(tally(metas.drop_last()), m.steam_genres, true), m.igdb_genres, true),
            m.steam_tags,
            false,
        )
    }
}

fn find_entry(items: &Vec<TagEntry>, name: &str, g: bool) -> (r: Option<usize>)
    ensures
        match r {
            Some(i) => entry_index(entries_view(items@), name@, g) == i && i < items@.len(),
            None => entry_index(entries_view(items@), name@, g) == -1,
        },
{
    let ghost ev = entries_view(items@);
    let mut i: usize = 0;
    assert(ev.subrange(0, ev.len() as int) == ev);
    while i < items.len()
        invariant
            ev == entries_view(items@),
            i <= items@.len(),
            entry_index(ev, name@, g) == if entry_index(ev.subrange(i as int, ev.len() as int), name@, g)
                < 0 {
                -1
            } else {
                entry_index(ev.subrange(i as int, ev.len() as int), name@, g) + i
            },
        decreases items@.len() - i,
    {
        let ghost rest = ev.subrange(i as int, ev.len() as int);
        assert(rest[0] == items@[i as int]@);
        if items[i].is_genre == g && str_eq(items[i].name.as_str(), name) {
            return Some(i);
        }
        assert(rest.drop_first() == ev.subrange(i + 1, ev.len() as int));
        i = i + 1;
    }
    None
}

fn tally_into(items: &mut Vec<TagEntry>, names: &Vec<String>, g: bool)
    ensures
        entries_view(final(items)@) == tally_names(entries_view(old(items)@), string_views(names@), g),
{
    let ghost start = entries_view(items@);
    let ghost nv = string_views(names@);
    let mut j: usize = 0;
    while j < names.len()
        invariant
            nv == string_views(names@),
            j <= names@.len(),
            entries_view(items@) == tally_names(start, nv.subrange(0, j as int), g),
        decreases names@.len() - j,
    {
        assert(nv.subrange(0, j + 1).drop_last() == nv.subrange(0, j as int));
        let name = names[j].as_str();
        let ghost before = entries_view(items@);
        proof {
            lemma_entry_index_bounds(before, name@, g);
        }
        match find_entry(items, name, g) {
            Some(i) => {
                let c = items[i].count;
                let c2 = if c < u32::MAX {
                    c + 1
                } else {
                    c
                };
                items.set(i, TagEntry { name: name.to_owned(), count: c2, is_genre: g });
                assert(entries_view(items@) =~= tally_one(before, name@, g));
            },
            None => {
                items.push(TagEntry { name: name.to_owned(), count: 1, is_genre: g });
                assert(entries_view(items@) =~= tally_one(before, name@, g));
            },
        }
        j = j + 1;
    }
    assert(nv.subrange(0, nv.len() as int) == nv);
}

/// The genre and tag entries of the stored metadata.
pub fn tally_metadata(metas: &Vec<GameMetadata>) -> (r: Vec<TagEntry>)
    ensures
        entries_view(r@) == tally(metas_view(metas@)),
{
    let ghost mv = metas_view(metas@);
    let mut items: Vec<TagEntry> = Vec::new();
    let mut i: usize = 0;
    assert(entries_view(items@) =~= tally(mv.subrange(0, 0)));
    while i < metas.len()
        invariant
            mv == metas_view(metas@),
            i <= metas@.len(),
            entries_view(items@) == tally(mv.subrange(0, i as int)),
        decreases metas@.len() - i,
    {
        assert(mv.subrange(0, i + 1).drop_last() == mv.subrange(0, i as int));
        assert(mv.subrange(0, i + 1).last() == metas@[i as int]@);
        let m = &metas[i];
        tally_into(&mut items, &m.steam_genres, true);
        tally_into(&mut items, &m.igdb_genres, true);
        tally_into(&mut items, &m.steam_tags, false);
        i = i + 1;
    }
    assert(mv.subrange(0, mv.len() as int) == mv);
    items
}

// ── The listed entries ──────────────────────────────────────────────────────

/// Whether an entry of kind `g` passes the kind setting.
pub open spec fn kind_passes(f: TagTypeFilter, g: bool) -> bool {
    match f {
        TagTypeFilter::All => true,
        TagTypeFilter::Genres => g,
        TagTypeFilter::Tags => !g,
    }
}

/// Whether an entry name passes the search: always for an empty search,
/// else when the lowercased search occurs in the lowercased name.
pub open spec fn search_passes(search: Seq<char>, name: Seq<char>) -> bool {
    search.len() == 0 || find_first(unicode_lowercase(name), unicode_lowercase(search), 0) >= 0
}

/// The positions `0..n` of `items` whose entries pass the kind setting and
/// the search, in order.
pub open spec fn listed_upto(
    items: Seq<(Seq<char>, u32, bool)>,
    search: Seq<char>,
    f: TagTypeFilter,
    n: int,
) -> Seq<usize>
    decreases n,
{
    if n <= 0 {
        Seq::empty()
    } else {
        let rest = listed_upto(items, search, f, n - 1);
        let e = items[n - 1];
        if kind_passes(f, e.2) && search_passes(search, e.0) {
            rest.push((n - 1) as usize)
        } else {
            rest
        }
    }
}

/// What an entry is ordered by.
pub open spec fn entry_key(sort: TagSort, e: (Seq<char>, u32, bool)) -> SortKey {
    match sort {
        TagSort::Count => SortKey { group: 0, num: -(e.1 as int), text: e.0 },
        TagSort::Name => SortKey { group: 0, num: 0, text: e.0 },
    }
}

/// The sort keys of the listed positions.
pub open spec fn listed_keys(
    items: Seq<(Seq<char>, u32, bool)>,
    sort: TagSort,
    listed: Seq<usize>,
) -> Seq<SortKey> {
    listed.map_values(|i: usize| entry_key(sort, items[i as int]))
}

/// The state of the genre/tag picker.
#[derive(Debug)]
pub struct GenrePickerState {
    /// Every genre and tag, with how often it is named
    pub all_items: Vec<TagEntry>,
    pub search: String,
    /// The positions in `all_items` of the listed entries, in list order
    pub filtered_indices: Vec<usize>,
    /// The highlighted row of the list
    pub cursor: usize,
    /// The genres and tags chosen so far
    pub pending_filter: Vec<String>,
    pub sub_mode: PickerSubMode,
    pub sort: TagSort,
    pub type_filter: TagTypeFilter,
}

pub struct GenrePickerView {
    pub items: Seq<(Seq<char>, u32, bool)>,
    pub search: Seq<char>,
    pub listed: Seq<usize>,
    pub cursor: usize,
    pub pending: Seq<Seq<char>>,
    pub sub_mode: PickerSubMode,
    pub sort: TagSort,
    pub type_filter: TagTypeFilter,
}

impl View for GenrePickerState {
    type V = GenrePickerView;

    open spec fn view(&self) -> GenrePickerView {
        GenrePickerView {
            items: entries_view(self.all_items@),
            search: self.search@,
            listed: self.filtered_indices@,
            cursor: self.cursor,
            pending: string_views(self.pending_filter@),
            sub_mode: self.sub_mode,
            sort: self.sort,
            type_filter: self.type_filter,
        }
    }
}

/// `t` is `p` with its list rebuilt for the current search, kind setting and
/// order (a stable sort), and the cursor back on the first row.
pub open spec fn viewed(p: GenrePickerView, t: GenrePickerView) -> bool {
    let c = listed_upto(p.items, p.search, p.type_filter, p.items.len() as int);
    &&& stable_sorted(c, listed_keys(p.items, p.sort, c), false, t.listed)
    &&& t == GenrePickerView { listed: t.listed, cursor: 0, ..p }
}

/// Whether `name` is chosen in `pending`.
pub fn is_chosen(pending: &Vec<String>, name: &str) -> (r: bool)
    ensures
        r == string_views(pending@).contains(name@),
{
    let ghost pv = string_views(pending@);
    let mut i: usize = 0;
    while i < pending.len()
        invariant
            pv == string_views(pending@),
            i <= pending@.len(),
            forall|k: int| 0 <= k < i ==> pv[k] != name@,
        decreases pending@.len() - i,
    {
        if str_eq(pending[i].as_str(), name) {
            assert(pv[i as int] == name@);
            return true;
        }
        i = i + 1;
    }
    false
}

/// `pending` without `name`.
pub open spec fn without(pending: Seq<Seq<char>>, name: Seq<char>) -> Seq<Seq<char>>
    decreases pending.len(),
{
    if pending.len() == 0 {
        pending
    } else {
        let rest = without(pending.drop_last(), name);
        if pending.last() == name {
            rest
        } else {
            rest.push(pending.last())
        }
    }
}

/// The choice after toggling `name`: removed when chosen, else added at the end.
pub open spec fn toggled(pending: Seq<Seq<char>>, name: Seq<char>) -> Seq<Seq<char>> {
    if pending.contains(name) {
        without(pending, name)
    } else {
        pending.push(name)
    }
}

/// The entry name on the cursor's row, if the cursor is on a row.
pub open spec fn current_name(p: GenrePickerView) -> Option<Seq<char>> {
    if p.cursor < p.listed.len() && p.listed[p.cursor as int] < p.items.len() {
        Some(p.items[p.listed[p.cursor as int] as int].0)
    } else {
        None
    }
}

/// The cursor one row down, stopping at the last row.
pub open spec fn cursor_down(p: GenrePickerView) -> usize {
    if p.cursor + 1 < p.listed.len() {
        (p.cursor + 1) as usize
    } else {
        p.cursor
    }
}

/// The cursor one row up, stopping at the first row.
pub open spec fn cursor_up(p: GenrePickerView) -> usize {
    if p.cursor > 0 {
        (p.cursor - 1) as usize
    } else {
        0
    }
}

/// The cursor on the last row (the first when the list is empty).
pub open spec fn cursor_bottom(p: GenrePickerView) -> usize {
    if p.listed.len() > 0 {
        (p.listed.len() - 1) as usize
    } else {
        0
    }
}

impl GenrePickerState {
    /// A picker over the genres and tags of `metas`, with `current` chosen,
    /// listing everything by count.
    pub fn new(metas: &Vec<GameMetadata>, current: &Vec<String>) -> (r: GenrePickerState)
        ensures
            r@.items == tally(metas_view(metas@)),
            r@.pending == string_views(current@),
            viewed(
                GenrePickerView {
                    items: r@.items,
                    search: Seq::empty(),
                    listed: Seq::empty(),
                    cursor: 0,
                    pending: r@.pending,
                    sub_mode: PickerSubMode::Navigate,
                    sort: TagSort::Count,
                    type_filter: TagTypeFilter::All,
                },
                r@,
            ),
    {
        let mut p = GenrePickerState {
            all_items: tally_metadata(metas),
            search: String::new(),
            filtered_indices: Vec::new(),
            cursor: 0,
            pending_filter: clone_strings(current),
            sub_mode: PickerSubMode::Navigate,
            sort: TagSort::Count,
            type_filter: TagTypeFilter::All,
        };
        proof {
            reveal_strlit("");
        }
        p.apply_view();
        p
    }

    /// Rebuilds the list for the current search, kind setting and order, and
    /// puts the cursor on the first row.
    pub fn apply_view(&mut self)
        ensures
            viewed(old(self)@, final(self)@),
    {
        let ghost items = entries_view(self.all_items@);
        let lower_search = to_lowercase(self.search.as_str());
        let needle = chars_of(lower_search.as_str());
        let mut listed: Vec<usize> = Vec::new();
        let mut i: usize = 0;
        while i < self.all_items.len()
            invariant
                items == entries_view(self.all_items@),
                needle@ == unicode_lowercase(self.search@),
                i <= items.len(),
                listed@ == listed_upto(items, self.search@, self.type_filter, i as int),
                forall|m: int| 0 <= m < listed@.len() ==> #[trigger] listed@[m] < i,
            decreases items.len() - i,
        {
            let e = &self.all_items[i];
            assert(items[i as int] == e@);
            let kind_ok = match self.type_filter {
                TagTypeFilter::All => true,
                TagTypeFilter::Genres => e.is_genre,
                TagTypeFilter::Tags => !e.is_genre,
            };
            if kind_ok {
                let found = if self.search.unicode_len() == 0 {
                    true
                } else {
                    let lower = to_lowercase(e.name.as_str());
                    let hay = chars_of(lower.as_str());
                    find_from(&hay, &needle, 0).is_some()
                };
                if found {
                    listed.push(i);
                }
            }
            i = i + 1;
        }
        let ghost c = listed@;
        let mut keys: Vec<RankKey> = Vec::new();
        let mut k: usize = 0;
        while k < listed.len()
            invariant
                items == entries_view(self.all_items@),
                c == listed@,
                forall|m: int| 0 <= m < c.len() ==> #[trigger] c[m] < items.len(),
                k <= c.len(),
                keys@.len() == k,
                forall|m: int|
                    0 <= m < k ==> (#[trigger] keys@[m])@ == entry_key(self.sort, items[c[m] as int]),
            decreases c.len() - k,
        {
            let e = &self.all_items[listed[k]];
            assert(items[c[k as int] as int] == e@);
            let num: i128 = match self.sort {
                TagSort::Count => -(e.count as i128),
                TagSort::Name => 0,
            };
            keys.push(RankKey { group: 0, num, text: chars_of(e.name.as_str()) });
            k = k + 1;
        }
        assert(rank_keys_view(keys@) =~= listed_keys(items, self.sort, c));
        let order = sort_positions(&keys, false);
        let mut out: Vec<usize> = Vec::new();
        let mut m: usize = 0;
        while m < order.len()
            invariant
                c == listed@,
                order@.len() == c.len(),
                forall|q: int| 0 <= q < order@.len() ==> #[trigger] order@[q] < c.len(),
                m <= order@.len(),
                out@.len() == m,
                forall|q: int| 0 <= q < m ==> #[trigger] out@[q] == c[order@[q] as int],
            decreases order@.len() - m,
        {
            out.push(listed[order[m]]);
            m = m + 1;
        }
        assert(stable_sorted(c, listed_keys(items, self.sort, c), false, out@));
        self.filtered_indices = out;
        self.cursor = 0;
    }

    /// Chooses the entry on the cursor's row, or unchooses it when chosen.
    pub fn toggle_current(&mut self)
        ensures
            final(self)@ == match current_name(old(self)@) {
                Some(n) => GenrePickerView { pending: toggled(old(self)@.pending, n), ..old(self)@ },
                None => old(self)@,
            },
    {
        if self.cursor < self.filtered_indices.len() {
            let idx = self.filtered_indices[self.cursor];
            if idx < self.all_items.len() {
                let name = self.all_items[idx].name.clone();
                assert(entries_view(self.all_items@)[idx as int] == self.all_items@[idx as int]@);
                if is_chosen(&self.pending_filter, name.as_str()) {
                    let mut kept: Vec<String> = Vec::new();
                    let ghost pv = string_views(self.pending_filter@);
                    let mut i: usize = 0;
                    while i < self.pending_filter.len()
                        invariant
                            pv == string_views(self.pending_filter@),
                            i <= pv.len(),
                            string_views(kept@) == without(pv.subrange(0, i as int), name@),
                        decreases pv.len() - i,
                    {
                        assert(pv.subrange(0, i + 1).drop_last() == pv.subrange(0, i as int));
                        if !str_eq(self.pending_filter[i].as_str(), name.as_str()) {
                            let ghost before = string_views(kept@);
                            kept.push(self.pending_filter[i].clone());
                            assert(string_views(kept@) =~= before.push(pv[i as int]));
                        }
                        i = i + 1;
                    }
                    assert(pv.subrange(0, pv.len() as int) == pv);
                    self.pending_filter = kept;
                } else {
                    let ghost before = string_views(self.pending_filter@);
                    self.pending_filter.push(name);
                    assert(string_views(self.pending_filter@) =~= before.push(name@));
                }
            }
        }
    }

    pub fn move_down(&mut self)
        ensures
            final(self)@ == (GenrePickerView { cursor: cursor_down(old(self)@), ..old(self)@ }),
    {
        let n = self.filtered_indices.len();
        if self.cursor < n && self.cursor + 1 < n {
            self.cursor = self.cursor + 1;
        }
    }

    pub fn move_up(&mut self)
        ensures
            final(self)@ == (GenrePickerView { cursor: cursor_up(old(self)@), ..old(self)@ }),
    {
        if self.cursor > 0 {
            self.cursor = self.cursor - 1;
        }
    }

    pub fn jump_top(&mut self)
        ensures
            final(self)@ == (GenrePickerView { cursor: 0, ..old(self)@ }),
    {
        self.cursor = 0;
    }

    pub fn jump_bottom(&mut self)
        ensures
            final(self)@ == (GenrePickerView { cursor: cursor_bottom(old(self)@), ..old(self)@ }),
    {
        if self.filtered_indices.len() > 0 {
            self.cursor = self.filtered_indices.len() - 1;
        } else {
            self.cursor = 0;
        }
    }
}

} // verus!
