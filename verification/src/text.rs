use vstd::prelude::*;

verus! {

// ── Character-level helpers ─────────────────────────────────────────────────

/// The characters of `s`, in order.
pub fn chars_of(s: &str) -> (r: Vec<char>)
    ensures
        r@ == s@,
{
    let n = s.unicode_len();
    let mut r: Vec<char> = Vec::new();
    let mut i: usize = 0;
    while i < n
        invariant
            n == s@.len(),
            i <= n,
            r@ == s@.subrange(0, i as int),
        decreases n - i,
    {
        let c = s.get_char(i);
        r.push(c);
        i = i + 1;
    }
    r
}

/// Appends `c` at the end of `s` (`String::push`).
#[verifier::external_body]
pub(crate) fn push_char(s: &mut String, c: char)
    ensures
        final(s)@ == old(s)@.push(c),
{
    s.push(c);
}

/// Removes the last character of `s`, if any (`String::pop`).
#[verifier::external_body]
pub(crate) fn pop_char(s: &mut String) -> (r: Option<char>)
    ensures
        old(s)@.len() == 0 ==> r is None && final(s)@ == old(s)@,
        old(s)@.len() > 0 ==> r == Some(old(s)@.last()) && final(s)@ == old(s)@.drop_last(),
{
    s.pop()
}

/// A string holding the characters of `cs`, in order.
pub fn string_from_chars(cs: &[char]) -> (r: String)
    ensures
        r@ == cs@,
{
    let mut r = String::new();
    let mut i: usize = 0;
    while i < cs.len()
        invariant
            i <= cs@.len(),
            r@ == cs@.subrange(0, i as int),
        decreases cs@.len() - i,
    {
        push_char(&mut r, cs[i]);
        i = i + 1;
    }
    r
}

/// Equality of two string slices, character by character.
pub fn str_eq(a: &str, b: &str) -> (r: bool)
    ensures
        r == (a@ == b@),
{
    let n = a.unicode_len();
    let m = b.unicode_len();
    if n != m {
        return false;
    }
    let mut i: usize = 0;
    while i < n
        invariant
            n == a@.len(),
            m == b@.len(),
            n == m,
            i <= n,
            a@.subrange(0, i as int) == b@.subrange(0, i as int),
        decreases n - i,
    {
        if a.get_char(i) != b.get_char(i) {
            assert(a@[i as int] != b@[i as int]);
            return false;
        }
        assert(a@.subrange(0, i + 1) == a@.subrange(0, i as int).push(a@[i as int]));
        assert(b@.subrange(0, i + 1) == b@.subrange(0, i as int).push(b@[i as int]));
        i = i + 1;
    }
    assert(a@ == a@.subrange(0, n as int));
    assert(b@ == b@.subrange(0, n as int));
    true
}

// ── Unicode whitespace and trimming ─────────────────────────────────────────

/// The Unicode `White_Space` property, which `str::trim` uses.
pub open spec fn is_white_space(c: char) -> bool {
    let u = c as u32;
    ||| 0x09 <= u <= 0x0D
    ||| u == 0x20
    ||| u == 0x85
    ||| u == 0xA0
    ||| u == 0x1680
    ||| 0x2000 <= u <= 0x200A
    ||| u == 0x2028
    ||| u == 0x2029
    ||| u == 0x202F
    ||| u == 0x205F
    ||| u == 0x3000
}

pub fn white_space(c: char) -> (r: bool)
    ensures
        r == is_white_space(c),
{
    let u = c as u32;
    (0x09 <= u && u <= 0x0D) || u == 0x20 || u == 0x85 || u == 0xA0 || u == 0x1680 || (0x2000
        <= u && u <= 0x200A) || u == 0x2028 || u == 0x2029 || u == 0x202F || u == 0x205F || u
        == 0x3000
}

/// `s` without its leading white space.
pub open spec fn trim_start_seq(s: Seq<char>) -> Seq<char>
    decreases s.len(),
{
    if s.len() > 0 && is_white_space(s[0]) {
        trim_start_seq(s.drop_first())
    } else {
        s
    }
}

/// `s` without its trailing white space.
pub open spec fn trim_end_seq(s: Seq<char>) -> Seq<char>
    decreases s.len(),
{
    if s.len() > 0 && is_white_space(s.last()) {
        trim_end_seq(s.drop_last())
    } else {
        s
    }
}

/// `s` without leading and trailing white space (`str::trim`).
pub open spec fn trim_seq(s: Seq<char>) -> Seq<char> {
    trim_end_seq(trim_start_seq(s))
}

/// `s` with leading and trailing Unicode white space removed.
pub fn trim(s: &str) -> (r: String)
    ensures
        r@ == trim_seq(s@),
{
    let cs = chars_of(s);
    let n = cs.len();
    let mut start: usize = 0;
    assert(cs@.subrange(0, n as int) == cs@);
    while start < n && white_space(cs[start])
        invariant
            n == cs@.len(),
            start <= n,
            trim_start_seq(cs@) == trim_start_seq(cs@.subrange(start as int, n as int)),
        decreases n - start,
    {
        assert(cs@.subrange(start as int, n as int).drop_first() == cs@.subrange(
            start + 1,
            n as int,
        ));
        start = start + 1;
    }
    assert(trim_start_seq(cs@) == cs@.subrange(start as int, n as int));
    let mut end: usize = n;
    while end > start && white_space(cs[end - 1])
        invariant
            n == cs@.len(),
            start <= end <= n,
            trim_seq(s@) == trim_end_seq(cs@.subrange(start as int, end as int)),
        decreases end,
    {
        assert(cs@.subrange(start as int, end as int).drop_last() == cs@.subrange(
            start as int,
            end - 1,
        ));
        end = end - 1;
    }
    let piece = slice_range(&cs, start, end);
    string_from_chars(piece.as_slice())
}

/// The characters `v[from..to]` as a new vector.
pub fn slice_range(v: &Vec<char>, from: usize, to: usize) -> (r: Vec<char>)
    requires
        from <= to <= v@.len(),
    ensures
        r@ == v@.subrange(from as int, to as int),
{
    let mut r: Vec<char> = Vec::new();
    let mut i = from;
    while i < to
        invariant
            from <= i <= to <= v@.len(),
            r@ == v@.subrange(from as int, i as int),
        decreases to - i,
    {
        r.push(v[i]);
        i = i + 1;
    }
    r
}

// ── Lowercasing ─────────────────────────────────────────────────────────────

/// What `str::to_lowercase` returns for a string: its Unicode lowercase mapping.
pub uninterp spec fn unicode_lowercase(s: Seq<char>) -> Seq<char>;

/// ASCII lowercase of one character; other characters stay as they are.
pub open spec fn ascii_lower(c: char) -> char {
    if 65 <= (c as int) <= 90 {
        ((c as int) + 32) as char
    } else {
        c
    }
}

/// Whether every character of `s` is ASCII.
pub open spec fn is_ascii_text(s: Seq<char>) -> bool {
    forall|i: int| 0 <= i < s.len() ==> (#[trigger] s[i] as int) < 128
}

/// `s` with its ASCII capital letters made small.
pub open spec fn ascii_lowercase(s: Seq<char>) -> Seq<char> {
    s.map_values(|c: char| ascii_lower(c))
}

/// `str::to_lowercase`: the Unicode lowercase form of `s`. For ASCII text it
/// is the ASCII lowercase form (each of `A`–`Z` becomes `a`–`z`, all else
/// stays). Beyond ASCII, the mapping (Unicode's case tables and special
/// cases) is left unstated; the result is named `unicode_lowercase` of the
/// input.
#[verifier::external_body]
pub(crate) fn to_lowercase(s: &str) -> (r: String)
    ensures
        r@ == unicode_lowercase(s@),
        is_ascii_text(s@) ==> r@ == ascii_lowercase(s@),
{
    s.to_lowercase()
}

/// ASCII lowercasing twice is lowercasing once, and keeps text ASCII.
pub proof fn lemma_ascii_lowercase_idempotent(s: Seq<char>)
    requires
        is_ascii_text(s),
    ensures
        is_ascii_text(ascii_lowercase(s)),
        ascii_lowercase(ascii_lowercase(s)) == ascii_lowercase(s),
{
    assert(ascii_lowercase(ascii_lowercase(s)) =~= ascii_lowercase(s));
}

/// Text without ASCII capitals is its own ASCII lowercase form.
pub proof fn lemma_ascii_lowercase_fixed(s: Seq<char>)
    requires
        forall|i: int| 0 <= i < s.len() ==> !(65 <= (#[trigger] s[i] as int) <= 90),
    ensures
        ascii_lowercase(s) == s,
{
    assert(ascii_lowercase(s) =~= s);
}

// ── Calendar ────────────────────────────────────────────────────────────────

/// The number of days from 1970-01-01 to the given day of the proleptic
/// Gregorian calendar (negative before it).
pub open spec fn days_from_civil(year: int, month: int, day: int) -> int {
    let y = if month <= 2 {
        year - 1
    } else {
        year
    };
    let era = y / 400;
    let yoe = y - era * 400;
    let mp = (month + 9) % 12;
    let doy = (153 * mp + 2) / 5 + day - 1;
    let doe = yoe * 365 + yoe / 4 - yoe / 100 + doy;
    era * 146097 + doe - 719468
}

/// The first and last Unix second of the dates chrono can hold
/// (-262143-01-01 00:00:00 to 262142-12-31 23:59:59).
pub open spec fn chrono_first_second() -> int {
    days_from_civil(-262143, 1, 1) * 86400
}

pub open spec fn chrono_last_second() -> int {
    days_from_civil(262142, 12, 31) * 86400 + 86399
}

/// The proleptic Gregorian date `(year, month, day)` that lies `days` days
/// after 1970-01-01 (before it when negative).
pub open spec fn civil_from_days(days: int) -> (int, int, int) {
    let z = days + 719468;
    let era = z / 146097;
    let doe = z - era * 146097;
    let yoe = (doe - doe / 1460 + doe / 36524 - doe / 146096) / 365;
    let doy = doe - (365 * yoe + yoe / 4 - yoe / 100);
    let mp = (5 * doy + 2) / 153;
    let d = doy - (153 * mp + 2) / 5 + 1;
    let m = if mp < 10 {
        mp + 3
    } else {
        mp - 9
    };
    let y = yoe + era * 400 + if m <= 2 {
        1int
    } else {
        0int
    };
    (y, m, d)
}

/// The UTC date of the Unix second `ts`.
pub open spec fn date_of_second(ts: int) -> (int, int, int) {
    civil_from_days(ts / 86400)
}

/// `n` in decimal, with zeros in front to make at least `width` digits.
pub open spec fn zero_padded(n: nat, width: nat) -> Seq<char> {
    let d = decimal(n);
    if d.len() >= width {
        d
    } else {
        Seq::new((width - d.len()) as nat, |i: int| '0') + d
    }
}

/// A year as chrono's `%Y` writes it: four digits for years 0 to 9999, else
/// a sign and at least four digits.
pub open spec fn year_text(y: int) -> Seq<char> {
    if 0 <= y <= 9999 {
        zero_padded(y as nat, 4)
    } else if y < 0 {
        "-"@ + zero_padded((-y) as nat, 4)
    } else {
        "+"@ + zero_padded(y as nat, 4)
    }
}

/// The English three-letter name of month `m` (1 to 12), as chrono's `%b`
/// writes it.
pub open spec fn short_month_name(m: int) -> Seq<char> {
    if m == 1 {
        "Jan"@
    } else if m == 2 {
        "Feb"@
    } else if m == 3 {
        "Mar"@
    } else if m == 4 {
        "Apr"@
    } else if m == 5 {
        "May"@
    } else if m == 6 {
        "Jun"@
    } else if m == 7 {
        "Jul"@
    } else if m == 8 {
        "Aug"@
    } else if m == 9 {
        "Sep"@
    } else if m == 10 {
        "Oct"@
    } else if m == 11 {
        "Nov"@
    } else {
        "Dec"@
    }
}

// ── Decimal numbers ─────────────────────────────────────────────────────────

/// The decimal digit for `d` (0..=9).
pub open spec fn digit_char(d: nat) -> char {
    if d == 0 {
        '0'
    } else if d == 1 {
        '1'
    } else if d == 2 {
        '2'
    } else if d == 3 {
        '3'
    } else if d == 4 {
        '4'
    } else if d == 5 {
        '5'
    } else if d == 6 {
        '6'
    } else if d == 7 {
        '7'
    } else if d == 8 {
        '8'
    } else {
        '9'
    }
}

/// The decimal representation of `n`, without leading zeros (as `to_string` prints it).
pub open spec fn decimal(n: nat) -> Seq<char>
    decreases n,
{
    if n < 10 {
        seq![digit_char(n)]
    } else {
        decimal(n / 10).push(digit_char(n % 10))
    }
}

fn digit(d: u64) -> (c: char)
    requires
        d < 10,
    ensures
        c == digit_char(d as nat),
{
    if d == 0 {
        '0'
    } else if d == 1 {
        '1'
    } else if d == 2 {
        '2'
    } else if d == 3 {
        '3'
    } else if d == 4 {
        '4'
    } else if d == 5 {
        '5'
    } else if d == 6 {
        '6'
    } else if d == 7 {
        '7'
    } else if d == 8 {
        '8'
    } else {
        '9'
    }
}

/// The decimal form of `n`.
pub fn u64_to_string(n: u64) -> (r: String)
    ensures
        r@ == decimal(n as nat),
    decreases n,
{
    if n < 10 {
        let mut s = String::new();
        push_char(&mut s, digit(n));
        s
    } else {
        let mut s = u64_to_string(n / 10);
        push_char(&mut s, digit(n % 10));
        s
    }
}

/// The decimal form of `n`, for numbers wider than 64 bits.
pub fn u128_to_string(n: u128) -> (r: String)
    ensures
        r@ == decimal(n as nat),
    decreases n,
{
    if n < 10 {
        let mut s = String::new();
        push_char(&mut s, digit(n as u64));
        s
    } else {
        let mut s = u128_to_string(n / 10);
        push_char(&mut s, digit((n % 10) as u64));
        s
    }
}

/// Appends `b` at the end of `a`.
pub fn append_str(a: &mut String, b: &str)
    ensures
        final(a)@ == old(a)@ + b@,
{
    let cs = chars_of(b);
    let ghost a0 = a@;
    let mut i: usize = 0;
    while i < cs.len()
        invariant
            cs@ == b@,
            i <= cs@.len(),
            a@ == a0 + cs@.subrange(0, i as int),
        decreases cs@.len() - i,
    {
        push_char(a, cs[i]);
        assert(cs@.subrange(0, i + 1) == cs@.subrange(0, i as int).push(cs@[i as int]));
        i = i + 1;
    }
    assert(cs@.subrange(0, cs@.len() as int) == cs@);
}

/// The concatenation of `a` and `b` as a new string.
pub fn concat(a: &str, b: &str) -> (r: String)
    ensures
        r@ == a@ + b@,
{
    let mut r = a.to_owned();
    append_str(&mut r, b);
    r
}

// ── Joining ─────────────────────────────────────────────────────────────────

/// The pieces of `parts` separated by `sep` (as `[String]::join` builds it).
pub open spec fn join_seq(parts: Seq<Seq<char>>, sep: Seq<char>) -> Seq<char>
    decreases parts.len(),
{
    if parts.len() == 0 {
        Seq::empty()
    } else if parts.len() == 1 {
        parts[0]
    } else {
        join_seq(parts.drop_last(), sep) + sep + parts.last()
    }
}

/// The views of a vector of strings.
pub open spec fn string_views(v: Seq<String>) -> Seq<Seq<char>> {
    v.map_values(|s: String| s@)
}

/// A copy of a vector of strings.
pub fn clone_strings(v: &Vec<String>) -> (r: Vec<String>)
    ensures
        string_views(r@) == string_views(v@),
{
    let mut r: Vec<String> = Vec::new();
    let mut i: usize = 0;
    while i < v.len()
        invariant
            i <= v@.len(),
            r@.len() == i,
            string_views(r@) == string_views(v@).subrange(0, i as int),
        decreases v@.len() - i,
    {
        let c = v[i].clone();
        r.push(c);
        assert(string_views(r@) =~= string_views(v@).subrange(0, i + 1)) by {
            assert(string_views(r@)[i as int] == r@[i as int]@);
        }
        i = i + 1;
    }
    r
}

/// The strings of `parts` separated by `sep`.
pub fn join(parts: &Vec<String>, sep: &str) -> (r: String)
    ensures
        r@ == join_seq(string_views(parts@), sep@),
{
    let mut r = String::new();
    let mut i: usize = 0;
    let ghost views = string_views(parts@);
    while i < parts.len()
        invariant
            views == string_views(parts@),
            i <= parts@.len(),
            r@ == join_seq(views.subrange(0, i as int), sep@),
        decreases parts@.len() - i,
    {
        assert(views.subrange(0, i + 1).drop_last() == views.subrange(0, i as int));
        if i > 0 {
            append_str(&mut r, sep);
        } else {
            assert(views.subrange(0, 1) == seq![views[0]]);
        }
        append_str(&mut r, parts[i].as_str());
        i = i + 1;
    }
    assert(views.subrange(0, parts@.len() as int) == views);
    r
}

// ── Prefixes, suffixes, search ──────────────────────────────────────────────

/// Whether `p` is a prefix of `s`.
pub open spec fn has_prefix(s: Seq<char>, p: Seq<char>) -> bool {
    p.len() <= s.len() && s.subrange(0, p.len() as int) == p
}

/// Whether `p` is a suffix of `s`.
pub open spec fn has_suffix(s: Seq<char>, p: Seq<char>) -> bool {
    p.len() <= s.len() && s.subrange(s.len() - p.len(), s.len() as int) == p
}

/// Whether `p` occurs in `s` at position `i`.
pub open spec fn occurs_at(s: Seq<char>, p: Seq<char>, i: int) -> bool {
    0 <= i && i + p.len() <= s.len() && s.subrange(i, i + p.len()) == p
}

/// Whether `v[at..]` starts with `p`.
pub fn matches_at(v: &Vec<char>, p: &Vec<char>, at: usize) -> (r: bool)
    ensures
        r == occurs_at(v@, p@, at as int),
{
    if at > v.len() || p.len() > v.len() - at {
        return false;
    }
    let mut j: usize = 0;
    while j < p.len()
        invariant
            at + p@.len() <= v.len(),
            j <= p@.len(),
            v@.subrange(at as int, at + j) == p@.subrange(0, j as int),
        decreases p@.len() - j,
    {
        if v[at + j] != p[j] {
            assert(v@.subrange(at as int, at + p@.len())[j as int] != p@[j as int]);
            return false;
        }
        assert(v@.subrange(at as int, at + j + 1) == v@.subrange(at as int, at + j).push(
            v@[at + j],
        ));
        assert(p@.subrange(0, j + 1) == p@.subrange(0, j as int).push(p@[j as int]));
        j = j + 1;
    }
    assert(p@.subrange(0, p@.len() as int) == p@);
    true
}

/// The first position at or after `from` where `p` occurs in `s`, or -1.
pub open spec fn find_first(s: Seq<char>, p: Seq<char>, from: int) -> int
    decreases s.len() + 1 - from,
{
    if from < 0 || from > s.len() {
        -1
    } else if occurs_at(s, p, from) {
        from
    } else {
        find_first(s, p, from + 1)
    }
}

/// The first position at or after `from` where `p` occurs in `v`, if any.
pub fn find_from(v: &Vec<char>, p: &Vec<char>, from: usize) -> (r: Option<usize>)
    requires
        from <= v@.len(),
    ensures
        match r {
            Some(i) => find_first(v@, p@, from as int) == i && i <= v@.len(),
            None => find_first(v@, p@, from as int) == -1,
        },
{
    let mut i = from;
    loop
        invariant
            from <= i <= v@.len(),
            find_first(v@, p@, from as int) == find_first(v@, p@, i as int),
        decreases v@.len() - i,
    {
        if matches_at(v, p, i) {
            return Some(i);
        }
        if i >= v.len() {
            assert(find_first(v@, p@, i + 1) == -1);
            return None;
        }
        i = i + 1;
    }
}

// ── Lexicographic order ─────────────────────────────────────────────────────

/// Lexicographic order on character sequences by code point: the order of
/// `str`'s `Ord`, since UTF-8 keeps code-point order.
pub open spec fn text_lt(a: Seq<char>, b: Seq<char>) -> bool
    decreases a.len(),
{
    if a.len() == 0 {
        b.len() > 0
    } else if b.len() == 0 {
        false
    } else if a[0] != b[0] {
        (a[0] as int) < (b[0] as int)
    } else {
        text_lt(a.drop_first(), b.drop_first())
    }
}

pub proof fn lemma_text_lt_irreflexive(a: Seq<char>)
    ensures
        !text_lt(a, a),
    decreases a.len(),
{
    if a.len() > 0 {
        lemma_text_lt_irreflexive(a.drop_first());
    }
}

pub proof fn lemma_text_lt_transitive(a: Seq<char>, b: Seq<char>, c: Seq<char>)
    requires
        text_lt(a, b),
        text_lt(b, c),
    ensures
        text_lt(a, c),
    decreases a.len(),
{
    if a.len() > 0 && b.len() > 0 && c.len() > 0 {
        if a[0] == b[0] && b[0] == c[0] {
            lemma_text_lt_transitive(a.drop_first(), b.drop_first(), c.drop_first());
        }
    }
}

pub proof fn lemma_text_lt_total(a: Seq<char>, b: Seq<char>)
    requires
        a != b,
    ensures
        text_lt(a, b) || text_lt(b, a),
    decreases a.len(),
{
    if a.len() > 0 && b.len() > 0 && a[0] == b[0] {
        if a.drop_first() == b.drop_first() {
            assert(a == seq![a[0]] + a.drop_first());
            assert(b == seq![b[0]] + b.drop_first());
        }
        lemma_text_lt_total(a.drop_first(), b.drop_first());
    } else if a.len() > 0 && b.len() > 0 {
        assert((a[0] as int) != (b[0] as int));
    } else if a.len() == 0 && b.len() == 0 {
        assert(a == b);
    }
}

proof fn lemma_text_lt_skip(a: Seq<char>, b: Seq<char>, i: int)
    requires
        0 <= i <= a.len(),
        i <= b.len(),
        a.subrange(0, i) == b.subrange(0, i),
    ensures
        text_lt(a, b) == text_lt(a.subrange(i, a.len() as int), b.subrange(i, b.len() as int)),
    decreases i,
{
    if i > 0 {
        assert(a[0] == a.subrange(0, i)[0]);
        assert(b[0] == b.subrange(0, i)[0]);
        assert(a.drop_first().subrange(0, i - 1) == a.subrange(0, i).drop_first());
        assert(b.drop_first().subrange(0, i - 1) == b.subrange(0, i).drop_first());
        lemma_text_lt_skip(a.drop_first(), b.drop_first(), i - 1);
        assert(a.drop_first().subrange(i - 1, a.len() - 1) == a.subrange(i, a.len() as int));
        assert(b.drop_first().subrange(i - 1, b.len() - 1) == b.subrange(i, b.len() as int));
    } else {
        assert(a.subrange(0, a.len() as int) == a);
        assert(b.subrange(0, b.len() as int) == b);
    }
}

/// Whether `a` comes strictly before `b` in lexicographic order.
pub fn chars_lt(a: &Vec<char>, b: &Vec<char>) -> (r: bool)
    ensures
        r == text_lt(a@, b@),
{
    let mut i: usize = 0;
    while i < a.len() && i < b.len() && a[i] == b[i]
        invariant
            i <= a@.len(),
            i <= b@.len(),
            a@.subrange(0, i as int) == b@.subrange(0, i as int),
        decreases a@.len() - i,
    {
        assert(a@.subrange(0, i + 1) == a@.subrange(0, i as int).push(a@[i as int]));
        assert(b@.subrange(0, i + 1) == b@.subrange(0, i as int).push(b@[i as int]));
        i = i + 1;
    }
    proof {
        lemma_text_lt_skip(a@, b@, i as int);
    }
    let ghost ra = a@.subrange(i as int, a@.len() as int);
    let ghost rb = b@.subrange(i as int, b@.len() as int);
    if i == a.len() {
        assert(ra.len() == 0);
        i < b.len()
    } else if i == b.len() {
        false
    } else {
        assert(ra[0] == a@[i as int]);
        assert(rb[0] == b@[i as int]);
        a[i] < b[i]
    }
}

// ── Integers in text ────────────────────────────────────────────────────────

pub open spec fn is_digit(c: char) -> bool {
    48 <= (c as int) <= 57
}

pub open spec fn all_digits(s: Seq<char>) -> bool {
    forall|i: int| 0 <= i < s.len() ==> is_digit(#[trigger] s[i])
}

/// The number that a sequence of decimal digits spells.
pub open spec fn digits_value(s: Seq<char>) -> int
    decreases s.len(),
{
    if s.len() == 0 {
        0
    } else {
        digits_value(s.drop_last()) * 10 + ((s.last() as int) - 48)
    }
}

/// What `str::parse::<i32>` accepts: an optional `+` or `-`, then one or more
/// ASCII digits, with a value in `i32`'s range.
pub open spec fn parse_i32_spec(s: Seq<char>) -> Option<i32> {
    let neg = s.len() > 0 && s[0] == '-';
    let body = if s.len() > 0 && (s[0] == '-' || s[0] == '+') {
        s.drop_first()
    } else {
        s
    };
    if body.len() == 0 || !all_digits(body) {
        None
    } else {
        let v = if neg {
            -digits_value(body)
        } else {
            digits_value(body)
        };
        if i32::MIN <= v <= i32::MAX {
            Some(v as i32)
        } else {
            None
        }
    }
}

proof fn lemma_digits_value_nonneg(s: Seq<char>)
    requires
        all_digits(s),
    ensures
        digits_value(s) >= 0,
    decreases s.len(),
{
    if s.len() > 0 {
        lemma_digits_value_nonneg(s.drop_last());
    }
}

proof fn lemma_digits_value_prefix(s: Seq<char>, i: int)
    requires
        all_digits(s),
        0 <= i <= s.len(),
    ensures
        digits_value(s.subrange(0, i)) <= digits_value(s),
    decreases s.len() - i,
{
    if i < s.len() {
        lemma_digits_value_prefix(s.drop_last(), if i < s.len() { i } else { i - 1 });
        assert(s.drop_last().subrange(0, i) == s.subrange(0, i));
        lemma_digits_value_nonneg(s.drop_last());
    } else {
        assert(s.subrange(0, i) == s);
    }
}

/// Parses a decimal `i32` as `str::parse::<i32>` does.
pub fn parse_i32(s: &Vec<char>) -> (r: Option<i32>)
    ensures
        r == parse_i32_spec(s@),
{
    let n = s.len();
    let neg = n > 0 && s[0] == '-';
    let start: usize = if n > 0 && (s[0] == '-' || s[0] == '+') {
        1
    } else {
        0
    };
    let ghost body = s@.subrange(start as int, n as int);
    assert(body == if s@.len() > 0 && (s@[0] == '-' || s@[0] == '+') {
        s@.drop_first()
    } else {
        s@
    });
    if start == n {
        return None;
    }
    let mut v: i64 = 0;
    let mut i = start;
    while i < n
        invariant
            start <= i <= n == s@.len(),
            body == s@.subrange(start as int, n as int),
            body == if s@.len() > 0 && (s@[0] == '-' || s@[0] == '+') {
                s@.drop_first()
            } else {
                s@
            },
            all_digits(s@.subrange(start as int, i as int)),
            v == digits_value(s@.subrange(start as int, i as int)),
            0 <= v <= 2147483648,
        decreases n - i,
    {
        let c = s[i];
        if !('0' <= c && c <= '9') {
            assert(body[i - start] == c);
            assert(!is_digit(body[i - start]));
            return None;
        }
        let d = (c as u32 - '0' as u32) as i64;
        assert(d == (c as int) - 48);
        assert(s@.subrange(start as int, i + 1).drop_last() == s@.subrange(start as int, i as int));
        assert(s@.subrange(start as int, i + 1).last() == c);
        let nv = v * 10 + d;
        if nv > 2147483648 {
            proof {
                let pre = s@.subrange(start as int, i + 1);
                assert(pre == body.subrange(0, i + 1 - start));
                assert(digits_value(pre) == nv);
                if all_digits(body) {
                    lemma_digits_value_prefix(body, i + 1 - start);
                    assert(digits_value(body) >= nv);
                }
            }
            return None;
        }
        v = nv;
        i = i + 1;
    }
    assert(s@.subrange(start as int, n as int) == body);
    if neg {
        Some((-v) as i32)
    } else if v <= 2147483647 {
        Some(v as i32)
    } else {
        None
    }
}

// ── Paths ───────────────────────────────────────────────────────────────────

/// `base` joined with `rest` as `PathBuf::join` does on Unix: an absolute
/// `rest` replaces `base`; otherwise a `/` goes between them unless `base` is
/// empty or already ends with one.
pub open spec fn path_join(base: Seq<char>, rest: Seq<char>) -> Seq<char> {
    if rest.len() > 0 && rest[0] == '/' {
        rest
    } else if base.len() == 0 || base.last() == '/' {
        base + rest
    } else {
        base + "/"@ + rest
    }
}

/// `base` joined with `rest` (`PathBuf::join` on Unix).
pub fn join_path(base: &str, rest: &str) -> (r: String)
    ensures
        r@ == path_join(base@, rest@),
{
    proof {
        reveal_strlit("/");
    }
    let n = rest.unicode_len();
    if n > 0 && rest.get_char(0) == '/' {
        return rest.to_owned();
    }
    let m = base.unicode_len();
    if m == 0 || base.get_char(m - 1) == '/' {
        concat(base, rest)
    } else {
        let with_sep = concat(base, "/");
        concat(with_sep.as_str(), rest)
    }
}

} // verus!
