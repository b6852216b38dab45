use vstd::prelude::*;

use super::display::{
    col_header, column_header, duration_text, enrich_status, enrich_text, format_duration,
    mode_label, mode_text, sync_status, sync_text, truncate, truncated, ColumnId,
};
use super::genre_picker::GenrePickerView;
use super::state::{
    item_bundle, item_expiry, item_metacritic, item_name, item_platform, item_status_label,
    item_steam_app_id, item_user_rating, meta_lookup, metadata_for, metas_view,
    selected_view, ListItem, ListItemView, Mode, UiState,
};
use crate::export::{chrono_ymd, date_cell, date_text};
use crate::models::choice::{month_date_spec, ChoicePick, ChoicePickView};
use crate::models::filter::{sort_label, SourceFilter};
use crate::models::key::{
    platform_display_name, platform_short_label, redeem_status_text, GameKey, GameKeyView,
    RedeemStatus,
};
use crate::models::metadata::{
    percent_positive, rating_percent, GameMetadata, GameMetadataView, SteamDeckCompat,
};
use crate::text::{chars_of, concat, decimal, join, join_seq, push_char, slice_range, string_from_chars, u64_to_string};

verus! {

// ── Styled text ─────────────────────────────────────────────────────────────

/// How a piece of text is drawn.
#[derive(Debug, Clone, Copy, PartialEq, Eq, Structural)]
pub enum Tone {
    /// The terminal's default style
    Plain,
    /// Dark gray: labels and hints
    Dim,
    /// Gray
    Soft,
    /// White
    Bright,
    /// White, bold
    Strong,
    /// Green
    Good,
    /// Yellow
    Warn,
    /// Red, bold
    Alert,
    /// Cyan, bold
    Accent,
    /// Cyan
    Info,
    /// A selected filter chip: black on cyan, bold
    ChipOn,
    /// A filter chip that is not selected: dark gray
    ChipOff,
    /// The mode badge of normal mode: black on green, bold
    BadgeNormal,
    /// The mode badge of search mode: black on yellow, bold
    BadgeSearch,
    /// The mode badge of the auth prompt and of errors: black on red, bold
    BadgeAlert,
    /// The mode badge of the export prompt: black on magenta, bold
    BadgeExport,
}

/// A piece of text with its tone.
#[derive(Debug)]
pub struct Piece {
    pub text: String,
    pub tone: Tone,
}

impl View for Piece {
    type V = (Seq<char>, Tone);

    open spec fn view(&self) -> (Seq<char>, Tone) {
        (self.text@, self.tone)
    }
}

/// The view of a line of pieces.
pub open spec fn line_view(l: Seq<Piece>) -> Seq<(Seq<char>, Tone)> {
    l.map_values(|p: Piece| p@)
}

/// The views of several lines.
pub open spec fn lines_view(ls: Seq<Vec<Piece>>) -> Seq<Seq<(Seq<char>, Tone)>> {
    ls.map_values(|l: Vec<Piece>| line_view(l@))
}

fn piece(text: &str, tone: Tone) -> (r: Piece)
    ensures
        r@ == (text@, tone),
{
    Piece { text: text.to_owned(), tone }
}

fn line1(a: Piece) -> (r: Vec<Piece>)
    ensures
        line_view(r@) == seq![a@],
{
    let r = vec![a];
    assert(line_view(r@) =~= seq![a@]);
    r
}

fn line2(a: Piece, b: Piece) -> (r: Vec<Piece>)
    ensures
        line_view(r@) == seq![a@, b@],
{
    let r = vec![a, b];
    assert(line_view(r@) =~= seq![a@, b@]);
    r
}

fn line3(a: Piece, b: Piece, c: Piece) -> (r: Vec<Piece>)
    ensures
        line_view(r@) == seq![a@, b@, c@],
{
    let r = vec![a, b, c];
    assert(line_view(r@) =~= seq![a@, b@, c@]);
    r
}

/// Adds `line` at the end of `lines`.
fn push_line(lines: &mut Vec<Vec<Piece>>, line: Vec<Piece>)
    ensures
        lines_view(final(lines)@) == lines_view(old(lines)@).push(line_view(line@)),
{
    let ghost before = lines_view(lines@);
    lines.push(line);
    assert(lines_view(lines@) =~= before.push(line_view(line@)));
}

/// Adds the lines of `more` at the end of `lines`.
fn append_lines(lines: &mut Vec<Vec<Piece>>, more: Vec<Vec<Piece>>)
    ensures
        lines_view(final(lines)@) == lines_view(old(lines)@) + lines_view(more@),
{
    let ghost before = lines_view(lines@);
    let mut more = more;
    let ghost added = lines_view(more@);
    lines.append(&mut more);
    assert(lines_view(lines@) =~= before + added);
}

// ── Labels ──────────────────────────────────────────────────────────────────

/// `n` spaces.
pub open spec fn spaces(n: nat) -> Seq<char>
    decreases n,
{
    if n == 0 {
        Seq::empty()
    } else {
        spaces((n - 1) as nat).push(' ')
    }
}

/// A field label: the name padded with spaces to ten characters, then one
/// more space.
pub open spec fn label_text(name: Seq<char>) -> Seq<char> {
    if name.len() >= 10 {
        name + " "@
    } else {
        name + spaces((10 - name.len()) as nat) + " "@
    }
}

fn label_piece(name: &str) -> (r: Piece)
    ensures
        r@ == (label_text(name@), Tone::Dim),
{
    let mut s = name.to_owned();
    let n = name.unicode_len();
    let mut k: usize = n;
    while k < 10
        invariant
            n == name@.len(),
            n <= k,
            n < 10 ==> k <= 10,
            n >= 10 ==> k == n,
            s@ == name@ + spaces((k - n) as nat),
        decreases 10 - k,
    {
        let ghost before = s@;
        push_char(&mut s, ' ');
        assert(s@ =~= name@ + spaces((k + 1 - n) as nat));
        k = k + 1;
    }
    proof {
        if n >= 10 {
            assert(k == n);
            assert(s@ =~= name@);
        } else {
            assert(k == 10);
        }
    }
    let ghost before = s@;
    push_char(&mut s, ' ');
    proof {
        reveal_strlit(" ");
        assert(s@ =~= before + " "@);
        if n < 10 {
            assert(s@ =~= name@ + spaces((10 - n) as nat) + " "@);
        } else {
            assert(s@ =~= name@ + " "@);
        }
    }
    Piece { text: s, tone: Tone::Dim }
}

/// A labelled value.
pub open spec fn field_spec(name: Seq<char>, value: Seq<char>) -> Seq<(Seq<char>, Tone)> {
    seq![(label_text(name), Tone::Dim), (value, Tone::Plain)]
}

fn field_line(name: &str, value: String) -> (r: Vec<Piece>)
    ensures
        line_view(r@) == field_spec(name@, value@),
{
    line2(label_piece(name), Piece { text: value, tone: Tone::Plain })
}

/// A key hint: "Press", the key in bold, then what it does.
pub open spec fn hint_spec(key: Seq<char>, text: Seq<char>) -> Seq<(Seq<char>, Tone)> {
    seq![("Press "@, Tone::Dim), (key, Tone::Strong), (text, Tone::Dim)]
}

fn hint_line(key: &str, text: String) -> (r: Vec<Piece>)
    ensures
        line_view(r@) == hint_spec(key@, text@),
{
    line3(piece("Press ", Tone::Dim), piece(key, Tone::Strong), Piece { text, tone: Tone::Dim })
}

// ── Detail panel ────────────────────────────────────────────────────────────

/// The seconds from `now` until `until`, capped at the largest `i64`.
pub open spec fn time_left(until: i64, now: i64) -> int {
    if until - now > i64::MAX {
        i64::MAX as int
    } else {
        until - now
    }
}

/// The line for a deadline: "EXPIRED" once it has passed (or when the item
/// says it has expired), else the time left.
pub open spec fn deadline_spec(name: Seq<char>, until: i64, expired: bool, now: i64) -> Seq<
    (Seq<char>, Tone),
> {
    if expired || until < now {
        seq![(label_text(name), Tone::Dim), ("EXPIRED"@, Tone::Alert)]
    } else {
        seq![(label_text(name), Tone::Dim), (duration_text(time_left(until, now)), Tone::Warn)]
    }
}

/// The deadline lines: one when there is a deadline, else none.
pub open spec fn deadline_lines_spec(
    name: Seq<char>,
    until: Option<i64>,
    expired: bool,
    now: i64,
) -> Seq<Seq<(Seq<char>, Tone)>> {
    match until {
        Some(t) => seq![deadline_spec(name, t, expired, now)],
        None => Seq::empty(),
    }
}

fn deadline_lines(name: &str, until: Option<i64>, expired: bool, now: i64) -> (r: Vec<Vec<Piece>>)
    ensures
        lines_view(r@) == deadline_lines_spec(name@, until, expired, now),
{
    let mut r: Vec<Vec<Piece>> = Vec::new();
    match until {
        Some(t) => {
            let line = if expired || t < now {
                line2(label_piece(name), piece("EXPIRED", Tone::Alert))
            } else {
                let secs: i64 = match t.checked_sub(now) {
                    Some(d) => d,
                    None => i64::MAX,
                };
                line2(label_piece(name), Piece { text: format_duration(secs), tone: Tone::Warn })
            };
            push_line(&mut r, line);
        },
        None => {},
    }
    assert(lines_view(r@) =~= deadline_lines_spec(name@, until, expired, now));
    r
}

/// The genre line, when there are genres.
pub open spec fn genre_lines_spec(genres: Seq<Seq<char>>) -> Seq<Seq<(Seq<char>, Tone)>> {
    if genres.len() > 0 {
        seq![field_spec("Genres"@, join_seq(genres, ", "@))]
    } else {
        Seq::empty()
    }
}

fn genre_lines(genres: &Vec<String>) -> (r: Vec<Vec<Piece>>)
    ensures
        lines_view(r@) == genre_lines_spec(crate::text::string_views(genres@)),
{
    let mut r: Vec<Vec<Piece>> = Vec::new();
    if genres.len() > 0 {
        push_line(&mut r, field_line("Genres", join(genres, ", ")));
    }
    assert(lines_view(r@) =~= genre_lines_spec(crate::text::string_views(genres@)));
    r
}

/// The Steam ownership line, when it is known.
pub open spec fn owned_lines_spec(owned: Option<bool>) -> Seq<Seq<(Seq<char>, Tone)>> {
    match owned {
        Some(true) => seq![seq![(label_text("Steam"@), Tone::Dim), ("Already owned"@, Tone::Dim)]],
        Some(false) => seq![field_spec("Steam"@, "Not owned"@)],
        None => Seq::empty(),
    }
}

fn owned_lines(owned: Option<bool>) -> (r: Vec<Vec<Piece>>)
    ensures
        lines_view(r@) == owned_lines_spec(owned),
{
    let mut r: Vec<Vec<Piece>> = Vec::new();
    match owned {
        Some(true) => push_line(
            &mut r,
            line2(label_piece("Steam"), piece("Already owned", Tone::Dim)),
        ),
        Some(false) => push_line(&mut r, field_line("Steam", "Not owned".to_owned())),
        None => {},
    }
    assert(lines_view(r@) =~= owned_lines_spec(owned));
    r
}

/// The key's value, or a note that it is not revealed.
pub open spec fn key_value_spec(val: Option<Seq<char>>) -> Seq<(Seq<char>, Tone)> {
    match val {
        Some(v) => seq![(label_text("Key"@), Tone::Dim), (v, Tone::Good)],
        None => seq![(label_text("Key"@), Tone::Dim), ("[not revealed]"@, Tone::Dim)],
    }
}

/// The Steam app id line, when there is one.
pub open spec fn app_id_lines_spec(id: Option<u32>) -> Seq<Seq<(Seq<char>, Tone)>> {
    match id {
        Some(n) => seq![field_spec("App ID"@, decimal(n as nat))],
        None => Seq::empty(),
    }
}

/// The detail of a key at time `now`.
pub open spec fn key_detail_spec(k: GameKeyView, now: i64) -> Seq<Seq<(Seq<char>, Tone)>> {
    seq![
        field_spec("Bundle"@, k.bundle_human_name),
        field_spec("Purchased"@, date_text(Some(k.purchase_date))),
        field_spec("Platform"@, platform_display_name(k.platform)),
        field_spec("Status"@, redeem_status_text(k.redeem_status)),
        field_spec("Type"@, k.key_type),
        key_value_spec(k.redeemed_key_val),
    ] + deadline_lines_spec("Expires"@, k.expiry_date, false, now) + genre_lines_spec(
        k.igdb_genres,
    ) + owned_lines_spec(k.is_owned_on_steam) + app_id_lines_spec(k.steam_app_id) + seq![
        hint_spec("o"@, " to open Humble page"@),
        hint_spec("O"@, " to open "@ + platform_display_name(k.platform) + " store page"@),
    ]
}

fn key_detail(k: &GameKey, now: i64) -> (r: Vec<Vec<Piece>>)
    ensures
        lines_view(r@) == key_detail_spec(k@, now),
{
    let mut r: Vec<Vec<Piece>> = Vec::new();
    push_line(&mut r, field_line("Bundle", k.bundle_human_name.clone()));
    push_line(&mut r, field_line("Purchased", date_cell(Some(k.purchase_date))));
    push_line(&mut r, field_line("Platform", k.platform.display_name().to_owned()));
    push_line(&mut r, field_line("Status", k.redeem_status.as_str().to_owned()));
    push_line(&mut r, field_line("Type", k.key_type.clone()));
    let key_line = match &k.redeemed_key_val {
        Some(v) => line2(label_piece("Key"), Piece { text: v.clone(), tone: Tone::Good }),
        None => line2(label_piece("Key"), piece("[not revealed]", Tone::Dim)),
    };
    push_line(&mut r, key_line);
    append_lines(&mut r, deadline_lines("Expires", k.expiry_date, false, now));
    append_lines(&mut r, genre_lines(&k.igdb_genres));
    append_lines(&mut r, owned_lines(k.is_owned_on_steam));
    match k.steam_app_id {
        Some(n) => push_line(&mut r, field_line("App ID", u64_to_string(n as u64))),
        None => {},
    }
    push_line(&mut r, hint_line("o", " to open Humble page".to_owned()));
    let a = concat(" to open ", k.platform.display_name());
    push_line(&mut r, hint_line("O", concat(a.as_str(), " store page")));
    assert(lines_view(r@) =~= key_detail_spec(k@, now));
    r
}

/// When a Choice pick becomes available: the first of its month as a date,
/// or the month's name when that cannot be told.
pub open spec fn available_text(month: Seq<char>) -> Seq<char> {
    match month_date_spec(month) {
        Some(t) => match chrono_ymd(t) {
            Some(s) => s,
            None => month,
        },
        None => month,
    }
}

/// The detail of a Choice pick at time `now`.
pub open spec fn pick_detail_spec(p: ChoicePickView, now: i64) -> Seq<Seq<(Seq<char>, Tone)>> {
    seq![
        field_spec("Month"@, p.choice_month),
        field_spec("Available"@, available_text(p.choice_month)),
        field_spec("Platform"@, platform_display_name(p.platform)),
        seq![(label_text("Status"@), Tone::Dim), ("[UNCLAIMED]"@, Tone::Accent)],
    ] + deadline_lines_spec("Claim by"@, p.claim_deadline, p.is_expired, now) + genre_lines_spec(
        p.genres,
    ) + owned_lines_spec(p.is_owned_on_steam) + seq![hint_spec("o"@, " to open claim page"@)]
}

fn pick_detail(p: &ChoicePick, now: i64) -> (r: Vec<Vec<Piece>>)
    ensures
        lines_view(r@) == pick_detail_spec(p@, now),
{
    let mut r: Vec<Vec<Piece>> = Vec::new();
    push_line(&mut r, field_line("Month", p.choice_month.clone()));
    let available = match p.month_date() {
        Some(t) => match crate::export::format_ymd(t) {
            Some(s) => s,
            None => p.choice_month.clone(),
        },
        None => p.choice_month.clone(),
    };
    push_line(&mut r, field_line("Available", available));
    push_line(&mut r, field_line("Platform", p.platform.display_name().to_owned()));
    push_line(&mut r, line2(label_piece("Status"), piece("[UNCLAIMED]", Tone::Accent)));
    append_lines(&mut r, deadline_lines("Claim by", p.claim_deadline, p.is_expired, now));
    append_lines(&mut r, genre_lines(&p.genres));
    append_lines(&mut r, owned_lines(p.is_owned_on_steam));
    push_line(&mut r, hint_line("o", " to open claim page".to_owned()));
    assert(lines_view(r@) =~= pick_detail_spec(p@, now));
    r
}

/// The detail panel's lines for the selected row (if any) at time `now`.
pub open spec fn detail_spec(item: Option<ListItemView>, now: i64) -> Seq<Seq<(Seq<char>, Tone)>> {
    match item {
        None => seq![seq![("No item selected"@, Tone::Dim)]],
        Some(ListItemView::Key(k)) => key_detail_spec(k, now),
        Some(ListItemView::Choice(p)) => pick_detail_spec(p, now),
    }
}

/// The panel beside the table that shows everything known of the selected row.
pub struct DetailPanel<'a> {
    pub state: &'a UiState,
}

impl<'a> DetailPanel<'a> {
    /// The panel's lines at time `now` (Unix seconds).
    pub fn lines(&self, now: i64) -> (r: Vec<Vec<Piece>>)
        ensures
            lines_view(r@) == detail_spec(selected_view(self.state@), now),
    {
        match self.state.selected_item() {
            None => {
                let mut r: Vec<Vec<Piece>> = Vec::new();
                push_line(&mut r, line1(piece("No item selected", Tone::Dim)));
                assert(lines_view(r@) =~= detail_spec(selected_view(self.state@), now));
                r
            },
            Some(ListItem::Key(k)) => key_detail(k, now),
            Some(ListItem::Choice(p)) => pick_detail(p, now),
        }
    }
}

// ── Key table ───────────────────────────────────────────────────────────────

/// What `chrono` prints for a Unix timestamp with `%b %Y` (UTC), such as
/// "Apr 2025": the month's English short name and the year as `%Y` writes
/// it; `None` when the timestamp is outside chrono's range.
pub open spec fn chrono_month_year(ts: i64) -> Option<Seq<char>> {
    if crate::db::chrono_timestamp_in_range(ts) {
        let (y, m, d) = crate::text::date_of_second(ts as int);
        Some(crate::text::short_month_name(m) + " "@ + crate::text::year_text(y))
    } else {
        None
    }
}

/// `DateTime::from_timestamp(ts, 0)` formatted with `%b %Y`.
#[verifier::external_body]
fn format_month_year(ts: i64) -> (r: Option<String>)
    ensures
        match r {
            Some(s) => chrono_month_year(ts) == Some(s@),
            None => chrono_month_year(ts) is None,
        },
{
    match chrono::DateTime::from_timestamp(ts, 0) {
        Some(d) => Some(d.format("%b %Y").to_string()),
        None => None,
    }
}

/// The Steam Deck rating of a row's game, if known.
pub open spec fn item_deck(metas: Seq<GameMetadataView>, i: ListItemView) -> Option<SteamDeckCompat> {
    match item_steam_app_id(i) {
        Some(id) => match meta_lookup(metas, id) {
            Some(m) => m.steam_deck_compat,
            None => None,
        },
        None => None,
    }
}

/// The text of one cell of the key table.
pub open spec fn cell_spec(col: ColumnId, i: ListItemView, metas: Seq<GameMetadataView>) -> Seq<char> {
    match col {
        ColumnId::Name => item_name(i),
        ColumnId::Platform => platform_short_label(item_platform(i)),
        ColumnId::Status => item_status_label(i),
        ColumnId::Bundle => truncated(item_bundle(i), 28),
        ColumnId::PurchaseDate => match i {
            ListItemView::Key(k) => date_text(Some(k.purchase_date)),
            ListItemView::Choice(p) => match month_date_spec(p.choice_month) {
                Some(t) => match chrono_month_year(t) {
                    Some(s) => s,
                    None => Seq::empty(),
                },
                None => Seq::empty(),
            },
        },
        ColumnId::Expiry => date_text(item_expiry(i)),
        ColumnId::Metacritic => match item_metacritic(metas, i) {
            Some(s) => decimal(s as nat),
            None => Seq::empty(),
        },
        ColumnId::UserRating => match item_user_rating(metas, i) {
            Some(c) => decimal(rating_percent(c) as nat) + "%"@,
            None => Seq::empty(),
        },
        ColumnId::SteamDeck => match item_deck(metas, i) {
            Some(SteamDeckCompat::Verified) => "✓"@,
            Some(SteamDeckCompat::Playable) => "~"@,
            Some(SteamDeckCompat::Unsupported) => "✗"@,
            None => Seq::empty(),
        },
    }
}

/// The text of one cell of the key table.
pub fn cell_text(col: ColumnId, item: &ListItem, metas: &Vec<GameMetadata>) -> (r: String)
    ensures
        r@ == cell_spec(col, item@, metas_view(metas@)),
{
    proof {
        reveal_strlit("");
        reveal_strlit("%");
    }
    match col {
        ColumnId::Name => item.human_name().to_owned(),
        ColumnId::Platform => item.platform_label().to_owned(),
        ColumnId::Status => item.status_label().to_owned(),
        ColumnId::Bundle => {
            proof {
                reveal_strlit("");
            }
            truncate(item.bundle_name(), 28)
        },
        ColumnId::PurchaseDate => match item {
            ListItem::Key(k) => date_cell(Some(k.purchase_date)),
            ListItem::Choice(p) => match p.month_date() {
                Some(t) => match format_month_year(t) {
                    Some(s) => s,
                    None => String::new(),
                },
                None => String::new(),
            },
        },
        ColumnId::Expiry => match item {
            ListItem::Key(k) => date_cell(k.expiry_date),
            ListItem::Choice(p) => date_cell(p.claim_deadline),
        },
        ColumnId::Metacritic => {
            let m = match item.steam_app_id() {
                Some(id) => metadata_for(metas, id),
                None => None,
            };
            match m {
                Some(m) => match m.metacritic_score {
                    Some(s) => u64_to_string(s as u64),
                    None => String::new(),
                },
                None => String::new(),
            }
        },
        ColumnId::UserRating => {
            let m = match item.steam_app_id() {
                Some(id) => metadata_for(metas, id),
                None => None,
            };
            match m {
                Some(m) => match m.steam_user_rating {
                    Some(c) => if c.positive > 0 || c.negative > 0 {
                        let pct = u64_to_string(percent_positive(c));
                        concat(pct.as_str(), "%")
                    } else {
                        String::new()
                    },
                    None => String::new(),
                },
                None => String::new(),
            }
        },
        ColumnId::SteamDeck => {
            let m = match item.steam_app_id() {
                Some(id) => metadata_for(metas, id),
                None => None,
            };
            match m {
                Some(m) => match m.steam_deck_compat {
                    Some(SteamDeckCompat::Verified) => "✓".to_owned(),
                    Some(SteamDeckCompat::Playable) => "~".to_owned(),
                    Some(SteamDeckCompat::Unsupported) => "✗".to_owned(),
                    None => String::new(),
                },
                None => String::new(),
            }
        },
    }
}

/// The tone of a table row: Choice picks in cyan, expired keys dimmed,
/// revealed keys in green.
pub open spec fn row_tone_spec(i: ListItemView) -> Tone {
    match i {
        ListItemView::Choice(_) => Tone::Info,
        ListItemView::Key(k) => if k.redeem_status == RedeemStatus::Expired {
            Tone::Dim
        } else if k.is_revealed {
            Tone::Good
        } else {
            Tone::Plain
        },
    }
}

pub fn row_tone(item: &ListItem) -> (r: Tone)
    ensures
        r == row_tone_spec(item@),
{
    match item {
        ListItem::Choice(_) => Tone::Info,
        ListItem::Key(k) => if k.redeem_status == RedeemStatus::Expired {
            Tone::Dim
        } else if k.is_revealed {
            Tone::Good
        } else {
            Tone::Plain
        },
    }
}

/// The cells of row `index` (counted from 0): its number from 1, then one
/// cell per column.
pub open spec fn row_spec(
    index: int,
    i: ListItemView,
    cols: Seq<ColumnId>,
    metas: Seq<GameMetadataView>,
) -> Seq<Seq<char>> {
    seq![decimal((index + 1) as nat)] + cols.map_values(|c: ColumnId| cell_spec(c, i, metas))
}

/// The table of keys and Choice picks.
pub struct KeyTable<'a> {
    pub state: &'a UiState,
}

impl<'a> KeyTable<'a> {
    /// The header row: "#", then each column's header.
    pub fn header(cols: &Vec<ColumnId>) -> (r: Vec<String>)
        ensures
            crate::text::string_views(r@) == seq!["#"@] + cols@.map_values(
                |c: ColumnId| column_header(c),
            ),
    {
        let mut r: Vec<String> = Vec::new();
        r.push("#".to_owned());
        let mut j: usize = 0;
        while j < cols.len()
            invariant
                j <= cols@.len(),
                crate::text::string_views(r@) == seq!["#"@] + cols@.subrange(0, j as int).map_values(
                    |c: ColumnId| column_header(c),
                ),
            decreases cols@.len() - j,
        {
            let ghost before = crate::text::string_views(r@);
            r.push(col_header(cols[j]).to_owned());
            assert(crate::text::string_views(r@) =~= before.push(column_header(cols@[j as int])));
            assert(cols@.subrange(0, j + 1).map_values(|c: ColumnId| column_header(c))
                =~= cols@.subrange(0, j as int).map_values(|c: ColumnId| column_header(c)).push(
                column_header(cols@[j as int]),
            ));
            j = j + 1;
        }
        assert(cols@.subrange(0, cols@.len() as int) == cols@);
        r
    }

    /// The cells and tone of every row shown, in list order.
    pub fn rows(&self, cols: &Vec<ColumnId>) -> (r: Vec<(Vec<String>, Tone)>)
        ensures
            r@.len() == self.state@.visible.len(),
            forall|i: int|
                0 <= i < r@.len() ==> crate::text::string_views((#[trigger] r@[i]).0@) == row_spec(
                    i,
                    self.state@.visible[i],
                    cols@,
                    self.state@.metadata_map,
                ) && r@[i].1 == row_tone_spec(self.state@.visible[i]),
    {
        let visible = &self.state.visible;
        let metas = &self.state.metadata_map;
        let mut r: Vec<(Vec<String>, Tone)> = Vec::new();
        let mut i: usize = 0;
        while i < visible.len()
            invariant
                visible == &self.state.visible,
                metas == &self.state.metadata_map,
                i <= visible@.len(),
                r@.len() == i,
                forall|k: int|
                    0 <= k < i ==> crate::text::string_views((#[trigger] r@[k]).0@) == row_spec(
                        k,
                        self.state@.visible[k],
                        cols@,
                        self.state@.metadata_map,
                    ) && r@[k].1 == row_tone_spec(self.state@.visible[k]),
            decreases visible@.len() - i,
        {
            let item = &visible[i];
            assert(self.state@.visible[i as int] == item@);
            let mut cells: Vec<String> = Vec::new();
            cells.push(u64_to_string(i as u64 + 1));
            let mut j: usize = 0;
            while j < cols.len()
                invariant
                    j <= cols@.len(),
                    metas == &self.state.metadata_map,
                    self.state@.metadata_map == metas_view(metas@),
                    crate::text::string_views(cells@) == seq![decimal((i + 1) as nat)]
                        + cols@.subrange(0, j as int).map_values(
                        |c: ColumnId| cell_spec(c, item@, self.state@.metadata_map),
                    ),
                decreases cols@.len() - j,
            {
                let ghost before = crate::text::string_views(cells@);
                cells.push(cell_text(cols[j], item, metas));
                assert(crate::text::string_views(cells@) =~= before.push(
                    cell_spec(cols@[j as int], item@, self.state@.metadata_map),
                ));
                assert(cols@.subrange(0, j + 1).map_values(
                    |c: ColumnId| cell_spec(c, item@, self.state@.metadata_map),
                ) =~= cols@.subrange(0, j as int).map_values(
                    |c: ColumnId| cell_spec(c, item@, self.state@.metadata_map),
                ).push(cell_spec(cols@[j as int], item@, self.state@.metadata_map)));
                j = j + 1;
            }
            assert(cols@.subrange(0, cols@.len() as int) == cols@);
            r.push((cells, row_tone(item)));
            i = i + 1;
        }
        r
    }
}

// ── Status bar ──────────────────────────────────────────────────────────────

/// The tone of the mode badge.
pub open spec fn badge_tone(m: Mode) -> Tone {
    match m {
        Mode::Search => Tone::BadgeSearch,
        Mode::Auth | Mode::Error => Tone::BadgeAlert,
        Mode::ExportPrompt => Tone::BadgeExport,
        Mode::Normal | Mode::SyncPrompt | Mode::SortPicker | Mode::GenrePicker => Tone::BadgeNormal,
    }
}

/// The tone of the sync progress: yellow while running, green when done.
pub open spec fn sync_tone(p: Option<(u32, u32)>) -> Tone {
    match p {
        Some((done, total)) => if done < total {
            Tone::Warn
        } else {
            Tone::Good
        },
        None => Tone::Dim,
    }
}

/// The tone of the metadata progress: cyan while running, green when done.
pub open spec fn enrich_tone(p: Option<(u32, u32)>) -> Tone {
    match p {
        Some((done, total)) => if total == 0 || done < total {
            Tone::Info
        } else {
            Tone::Good
        },
        None => Tone::Plain,
    }
}

/// The key hints of the status bar.
pub open spec fn key_hints() -> Seq<char> {
    " j/k:move  /:search  f:status  s:sort  t:tags  c:source  e:export  r:sync  R:enrich  q:quit"@
}

/// The line at the bottom of the screen.
pub open spec fn status_spec(mode: Mode, sync: Option<(u32, u32)>, meta: Option<(u32, u32)>) -> Seq<
    (Seq<char>, Tone),
> {
    seq![
        (mode_text(mode), badge_tone(mode)),
        (" "@, Tone::Plain),
        (sync_text(sync), sync_tone(sync)),
        (enrich_text(meta), enrich_tone(meta)),
        (key_hints(), Tone::Dim),
    ]
}

/// The status bar: mode, sync and metadata progress, key hints.
pub struct StatusBar<'a> {
    pub state: &'a UiState,
}

impl<'a> StatusBar<'a> {
    pub fn line(&self) -> (r: Vec<Piece>)
        ensures
            line_view(r@) == status_spec(
                self.state@.mode,
                self.state@.sync_progress,
                self.state@.metadata_progress,
            ),
    {
        let mode = self.state.mode;
        let badge = match mode {
            Mode::Search => Tone::BadgeSearch,
            Mode::Auth | Mode::Error => Tone::BadgeAlert,
            Mode::ExportPrompt => Tone::BadgeExport,
            Mode::Normal | Mode::SyncPrompt | Mode::SortPicker | Mode::GenrePicker => Tone::BadgeNormal,
        };
        let sync = self.state.sync_progress;
        let sync_t = match sync {
            Some((done, total)) => if done < total {
                Tone::Warn
            } else {
                Tone::Good
            },
            None => Tone::Dim,
        };
        let meta = self.state.metadata_progress;
        let meta_t = match meta {
            Some((done, total)) => if total == 0 || done < total {
                Tone::Info
            } else {
                Tone::Good
            },
            None => Tone::Plain,
        };
        let r = vec![
            piece(mode_label(mode), badge),
            piece(" ", Tone::Plain),
            Piece { text: sync_status(sync), tone: sync_t },
            Piece { text: enrich_status(meta), tone: meta_t },
            piece(
                " j/k:move  /:search  f:status  s:sort  t:tags  c:source  e:export  r:sync  R:enrich  q:quit",
                Tone::Dim,
            ),
        ];
        assert(line_view(r@) =~= status_spec(mode, sync, meta));
        r
    }
}

// ── Filter bar ──────────────────────────────────────────────────────────────

/// A filter chip: its label in brackets, highlighted when selected.
pub open spec fn chip_spec(label: Seq<char>, on: bool) -> (Seq<char>, Tone) {
    ("["@ + label + "]"@, if on { Tone::ChipOn } else { Tone::ChipOff })
}

fn chip(label: &str, on: bool) -> (r: Piece)
    ensures
        r@ == chip_spec(label@, on),
{
    let a = concat("[", label);
    Piece { text: concat(a.as_str(), "]"), tone: if on { Tone::ChipOn } else { Tone::ChipOff } }
}

/// The first line of the filter bar: source, status and sort.
pub open spec fn filter_chips_spec(
    source: SourceFilter,
    status: Option<RedeemStatus>,
    sort: crate::models::filter::SortOrder,
) -> Seq<(Seq<char>, Tone)> {
    seq![
        ("Source: "@, Tone::Soft),
        chip_spec("All"@, source == SourceFilter::All),
        (" "@, Tone::Plain),
        chip_spec("Keys"@, source == SourceFilter::Keys),
        (" "@, Tone::Plain),
        chip_spec("Choice"@, source == SourceFilter::Choice),
        ("  "@, Tone::Plain),
        ("Status: "@, Tone::Soft),
        chip_spec("All"@, status is None),
        (" "@, Tone::Plain),
        chip_spec("Unredeemed"@, status == Some(RedeemStatus::Unredeemed)),
        (" "@, Tone::Plain),
        chip_spec("Redeemed"@, status == Some(RedeemStatus::Redeemed)),
        ("  "@, Tone::Plain),
        ("Sort: "@, Tone::Soft),
        ("["@ + sort_label(sort) + "]"@, Tone::Warn),
    ]
}

/// The search query as the filter bar shows it.
pub open spec fn search_text(query: Seq<char>) -> Seq<char> {
    if query.len() == 0 {
        "(type / to search)"@
    } else {
        "\""@ + query + "\""@
    }
}

/// The second line of the filter bar: the search and how many rows are shown.
pub open spec fn filter_search_spec(query: Seq<char>, shown: nat, total: nat) -> Seq<
    (Seq<char>, Tone),
> {
    seq![
        ("Search: "@, Tone::Soft),
        (search_text(query), Tone::Bright),
        ("  "@ + decimal(shown) + "/"@ + decimal(total) + " shown"@, Tone::Dim),
    ]
}

/// The bar above the table: filter chips, sort order and search.
pub struct FilterBar<'a> {
    pub state: &'a UiState,
}

impl<'a> FilterBar<'a> {
    pub fn lines(&self) -> (r: Vec<Vec<Piece>>)
        ensures
            lines_view(r@) == seq![
                filter_chips_spec(
                    self.state@.filter.source,
                    self.state@.filter.redeem_status,
                    self.state@.filter.sort,
                ),
                filter_search_spec(
                    self.state@.filter.search_query,
                    self.state@.visible.len(),
                    self.state@.all_keys.len() + self.state@.all_picks.len(),
                ),
            ],
    {
        let f = &self.state.filter;
        let source = f.source;
        let status = f.redeem_status;
        let sort_a = concat("[", f.sort.label());
        let first = vec![
            piece("Source: ", Tone::Soft),
            chip("All", source == SourceFilter::All),
            piece(" ", Tone::Plain),
            chip("Keys", source == SourceFilter::Keys),
            piece(" ", Tone::Plain),
            chip("Choice", source == SourceFilter::Choice),
            piece("  ", Tone::Plain),
            piece("Status: ", Tone::Soft),
            chip("All", status.is_none()),
            piece(" ", Tone::Plain),
            chip("Unredeemed", status == Some(RedeemStatus::Unredeemed)),
            piece(" ", Tone::Plain),
            chip("Redeemed", status == Some(RedeemStatus::Redeemed)),
            piece("  ", Tone::Plain),
            piece("Sort: ", Tone::Soft),
            Piece { text: concat(sort_a.as_str(), "]"), tone: Tone::Warn },
        ];
        assert(line_view(first@) =~= filter_chips_spec(source, status, f.sort));
        let query = if f.search_query.unicode_len() == 0 {
            "(type / to search)".to_owned()
        } else {
            let a = concat("\"", f.search_query.as_str());
            concat(a.as_str(), "\"")
        };
        let shown = u64_to_string(self.state.visible.len() as u64);
        let total = crate::text::u128_to_string(
            self.state.all_keys.len() as u128 + self.state.all_picks.len() as u128,
        );
        let c1 = concat("  ", shown.as_str());
        let c2 = concat(c1.as_str(), "/");
        let c3 = concat(c2.as_str(), total.as_str());
        let second = vec![
            piece("Search: ", Tone::Soft),
            Piece { text: query, tone: Tone::Bright },
            Piece { text: concat(c3.as_str(), " shown"), tone: Tone::Dim },
        ];
        assert(line_view(second@) =~= filter_search_spec(
            self.state@.filter.search_query,
            self.state@.visible.len(),
            self.state@.all_keys.len() + self.state@.all_picks.len(),
        ));
        let r = vec![first, second];
        assert(lines_view(r@) =~= seq![line_view(first@), line_view(second@)]);
        r
    }
}

// ── Modals ──────────────────────────────────────────────────────────────────

/// The number of bytes of `c` in UTF-8.
pub open spec fn utf8_width(c: char) -> nat {
    if (c as u32) < 0x80 {
        1
    } else if (c as u32) < 0x800 {
        2
    } else if (c as u32) < 0x10000 {
        3
    } else {
        4
    }
}

/// The number of bytes of `s` in UTF-8.
pub open spec fn utf8_len(s: Seq<char>) -> nat
    decreases s.len(),
{
    if s.len() == 0 {
        0
    } else {
        utf8_len(s.drop_last()) + utf8_width(s.last())
    }
}

/// How many characters from the start of `s` fit in `n` bytes of UTF-8.
pub open spec fn chars_within(s: Seq<char>, n: nat) -> nat
    decreases s.len(),
{
    if s.len() == 0 || utf8_width(s[0]) > n {
        0
    } else {
        1 + chars_within(s.drop_first(), (n - utf8_width(s[0])) as nat)
    }
}

/// The cookie's first `min(bytes, 20)` bytes fall on a character boundary
/// (else the prompt cannot cut it there).
pub open spec fn preview_cut_ok(input: Seq<char>) -> bool {
    utf8_len(input.take(chars_within(input, 20) as int)) == if utf8_len(input) < 20 {
        utf8_len(input)
    } else {
        20
    }
}

/// What the auth prompt shows of the cookie typed so far: "_" when nothing
/// is typed, else its first twenty bytes (all of it when shorter) and an
/// ellipsis.
pub open spec fn cookie_preview(input: Seq<char>) -> Seq<char> {
    if input.len() == 0 {
        "_"@
    } else {
        input.take(chars_within(input, 20) as int) + "…"@
    }
}

fn char_width(c: char) -> (r: usize)
    ensures
        r == utf8_width(c),
{
    let n = c as u32;
    if n < 0x80 {
        1
    } else if n < 0x800 {
        2
    } else if n < 0x10000 {
        3
    } else {
        4
    }
}

/// How many characters of `cs` fit in 20 bytes of UTF-8.
fn fitting_chars(cs: &Vec<char>) -> (r: usize)
    ensures
        r == chars_within(cs@, 20),
        r <= cs@.len(),
{
    let mut i: usize = 0;
    let mut room: usize = 20;
    assert(cs@.skip(0) =~= cs@);
    while i < cs.len()
        invariant
            i <= cs@.len(),
            room <= 20,
            chars_within(cs@, 20) == i + chars_within(cs@.skip(i as int), room as nat),
        decreases cs@.len() - i,
    {
        let w = char_width(cs[i]);
        let ghost rest = cs@.skip(i as int);
        assert(rest[0] == cs@[i as int]);
        if w > room {
            return i;
        }
        assert(rest.drop_first() =~= cs@.skip(i + 1));
        room = room - w;
        i = i + 1;
    }
    i
}

/// The lines of the auth prompt.
pub open spec fn auth_spec(input: Seq<char>) -> Seq<Seq<(Seq<char>, Tone)>> {
    seq![
        Seq::empty(),
        seq![("Paste your _simpleauth_sess cookie value below."@, Tone::Bright)],
        Seq::empty(),
        seq![("To get it: open humblebundle.com → F12 → Application → Cookies"@, Tone::Soft)],
        Seq::empty(),
        seq![("Cookie: "@, Tone::Dim), (cookie_preview(input), Tone::Warn)],
        Seq::empty(),
        seq![("Press Enter to confirm."@, Tone::Dim)],
    ]
}

/// The prompt for the session cookie.
pub struct AuthModal<'a> {
    pub state: &'a UiState,
}

impl<'a> AuthModal<'a> {
    /// The prompt's lines. The cookie preview cuts the cookie at byte 20,
    /// which must be a character boundary.
    pub fn lines(&self) -> (r: Vec<Vec<Piece>>)
        requires
            preview_cut_ok(self.state@.auth_input),
        ensures
            lines_view(r@) == auth_spec(self.state@.auth_input),
    {
        let input = self.state.auth_input.as_str();
        let preview = if input.unicode_len() == 0 {
            "_".to_owned()
        } else {
            let cs = chars_of(input);
            let n = fitting_chars(&cs);
            let head = slice_range(&cs, 0, n);
            let s = string_from_chars(head.as_slice());
            assert(s@ =~= input@.take(n as int));
            concat(s.as_str(), "…")
        };
        let r = vec![
            Vec::new(),
            line1(piece("Paste your _simpleauth_sess cookie value below.", Tone::Bright)),
            Vec::new(),
            line1(piece("To get it: open humblebundle.com → F12 → Application → Cookies", Tone::Soft)),
            Vec::new(),
            line2(piece("Cookie: ", Tone::Dim), Piece { text: preview, tone: Tone::Warn }),
            Vec::new(),
            line1(piece("Press Enter to confirm.", Tone::Dim)),
        ];
        assert(lines_view(r@) =~~= auth_spec(self.state@.auth_input));
        r
    }
}

/// The lines of the export prompt.
pub open spec fn export_spec(input: Seq<char>) -> Seq<Seq<(Seq<char>, Tone)>> {
    seq![
        Seq::empty(),
        seq![("Export path:"@, Tone::Soft)],
        seq![("> "@, Tone::Warn), (input + "_"@, Tone::Bright)],
        Seq::empty(),
        seq![("Enter=export  Esc=cancel"@, Tone::Dim)],
    ]
}

/// The prompt for the export path.
pub struct ExportModal<'a> {
    pub state: &'a UiState,
}

impl<'a> ExportModal<'a> {
    pub fn lines(&self) -> (r: Vec<Vec<Piece>>)
        ensures
            lines_view(r@) == export_spec(self.state@.export_input),
    {
        let r = vec![
            Vec::new(),
            line1(piece("Export path:", Tone::Soft)),
            line2(
                piece("> ", Tone::Warn),
                Piece { text: concat(self.state.export_input.as_str(), "_"), tone: Tone::Bright },
            ),
            Vec::new(),
            line1(piece("Enter=export  Esc=cancel", Tone::Dim)),
        ];
        assert(lines_view(r@) =~~= export_spec(self.state@.export_input));
        r
    }
}

/// The lines of the error modal.
pub open spec fn error_spec(message: Seq<char>) -> Seq<Seq<(Seq<char>, Tone)>> {
    seq![
        Seq::empty(),
        seq![(message, Tone::Plain)],
        Seq::empty(),
        seq![("Press any key to dismiss."@, Tone::Dim)],
    ]
}

/// A non-fatal error, shown until a key is pressed.
pub struct ErrorModal<'a> {
    pub message: &'a str,
}

impl<'a> ErrorModal<'a> {
    pub fn lines(&self) -> (r: Vec<Vec<Piece>>)
        ensures
            lines_view(r@) == error_spec(self.message@),
    {
        let r = vec![
            Vec::new(),
            line1(piece(self.message, Tone::Plain)),
            Vec::new(),
            line1(piece("Press any key to dismiss.", Tone::Dim)),
        ];
        assert(lines_view(r@) =~~= error_spec(self.message@));
        r
    }
}

/// The lines of the sync suggestion.
pub open spec fn sync_prompt_spec(message: Seq<char>) -> Seq<Seq<(Seq<char>, Tone)>> {
    seq![
        Seq::empty(),
        seq![("Last sync: "@, Tone::Soft), (message, Tone::Warn)],
        Seq::empty(),
        seq![("r=sync now  any other key=dismiss"@, Tone::Dim)],
    ]
}

/// The suggestion to sync when the cache is stale or was never filled.
pub struct SyncPromptModal<'a> {
    pub last_synced_msg: &'a str,
}

impl<'a> SyncPromptModal<'a> {
    pub fn lines(&self) -> (r: Vec<Vec<Piece>>)
        ensures
            lines_view(r@) == sync_prompt_spec(self.last_synced_msg@),
    {
        let r = vec![
            Vec::new(),
            line2(piece("Last sync: ", Tone::Soft), piece(self.last_synced_msg, Tone::Warn)),
            Vec::new(),
            line1(piece("r=sync now  any other key=dismiss", Tone::Dim)),
        ];
        assert(lines_view(r@) =~~= sync_prompt_spec(self.last_synced_msg@));
        r
    }
}

// ── Genre picker ────────────────────────────────────────────────────────────

/// One row of the genre picker: a check box, a mark for genres (◆) or tags
/// (#), the name and how often it is used.
pub open spec fn picker_row_spec(e: (Seq<char>, u32, bool), checked: bool) -> Seq<(Seq<char>, Tone)> {
    seq![
        (if checked { "[x] "@ } else { "[ ] "@ }, if checked { Tone::Good } else { Tone::Dim }),
        (if e.2 { "◆ "@ } else { "# "@ }, if e.2 { Tone::Info } else { Tone::Warn }),
        (e.0, if e.2 { Tone::Info } else { Tone::Warn }),
        ("  ("@ + decimal(e.1 as nat) + ")"@, Tone::Soft),
    ]
}

/// The rows of the picker's list, in list order (a position past the
/// entries gives an empty row).
pub open spec fn picker_rows_spec(p: GenrePickerView) -> Seq<Seq<(Seq<char>, Tone)>> {
    p.listed.map_values(
        |i: usize|
            if i < p.items.len() {
                picker_row_spec(p.items[i as int], p.pending.contains(p.items[i as int].0))
            } else {
                Seq::empty()
            },
    )
}

/// The picker's footer: the keys, and how many genres and tags are chosen.
pub open spec fn picker_footer_spec(chosen: nat) -> Seq<char> {
    if chosen > 0 {
        " Space:toggle  Enter:apply ("@ + decimal(chosen)
            + " active)  Esc:cancel  Ctrl+C:clear all "@
    } else {
        " Space:toggle  Enter:apply  Esc:cancel "@
    }
}

/// The picker for filtering by genre or tag.
pub struct GenrePickerModal<'a> {
    pub picker: &'a crate::tui::genre_picker::GenrePickerState,
}

impl<'a> GenrePickerModal<'a> {
    /// The search line: the search typed so far and a cursor mark.
    pub fn search_line(&self) -> (r: Vec<Piece>)
        ensures
            line_view(r@) == seq![("Search: "@, Tone::Soft), (self.picker@.search + "_"@, Tone::Bright)],
    {
        line2(
            piece("Search: ", Tone::Soft),
            Piece { text: concat(self.picker.search.as_str(), "_"), tone: Tone::Bright },
        )
    }

    /// The rows of the list (the app highlights the cursor's row).
    pub fn rows(&self) -> (r: Vec<Vec<Piece>>)
        ensures
            lines_view(r@) == picker_rows_spec(self.picker@),
    {
        let p = self.picker;
        let ghost pv = p@;
        let mut r: Vec<Vec<Piece>> = Vec::new();
        let mut i: usize = 0;
        while i < p.filtered_indices.len()
            invariant
                pv == p@,
                i <= pv.listed.len(),
                lines_view(r@) == picker_rows_spec(pv).subrange(0, i as int),
            decreases pv.listed.len() - i,
        {
            let idx = p.filtered_indices[i];
            if idx < p.all_items.len() {
                let e = &p.all_items[idx];
                assert(pv.items[idx as int] == e@);
                let checked = crate::tui::genre_picker::is_chosen(&p.pending_filter, e.name.as_str());
                let name_tone = if e.is_genre { Tone::Info } else { Tone::Warn };
                let c1 = concat("  (", u64_to_string(e.count as u64).as_str());
                let line = vec![
                    piece(if checked { "[x] " } else { "[ ] " }, if checked { Tone::Good } else { Tone::Dim }),
                    piece(if e.is_genre { "◆ " } else { "# " }, name_tone),
                    Piece { text: e.name.clone(), tone: name_tone },
                    Piece { text: concat(c1.as_str(), ")"), tone: Tone::Soft },
                ];
                assert(line_view(line@) =~= picker_row_spec(e@, checked));
                let ghost before = lines_view(r@);
                push_line(&mut r, line);
                assert(lines_view(r@) =~= picker_rows_spec(pv).subrange(0, i + 1));
            } else {
                let empty: Vec<Piece> = Vec::new();
                assert(line_view(empty@) =~= Seq::<(Seq<char>, Tone)>::empty());
                push_line(&mut r, empty);
                assert(picker_rows_spec(pv)[i as int] == Seq::<(Seq<char>, Tone)>::empty());
                assert(lines_view(r@) =~= picker_rows_spec(pv).subrange(0, i + 1));
            }
            i = i + 1;
        }
        assert(picker_rows_spec(pv).subrange(0, pv.listed.len() as int) == picker_rows_spec(pv));
        r
    }

    /// The footer line.
    pub fn footer(&self) -> (r: String)
        ensures
            r@ == picker_footer_spec(self.picker@.pending.len()),
    {
        let n = self.picker.pending_filter.len();
        if n > 0 {
            let a = concat(" Space:toggle  Enter:apply (", u64_to_string(n as u64).as_str());
            concat(a.as_str(), " active)  Esc:cancel  Ctrl+C:clear all ")
        } else {
            " Space:toggle  Enter:apply  Esc:cancel ".to_owned()
        }
    }
}

} // verus!
