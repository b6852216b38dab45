use vstd::prelude::*;

use crate::text::{chars_lt, lemma_text_lt_irreflexive, lemma_text_lt_total, lemma_text_lt_transitive, text_lt};

verus! {

/// What a list row is ordered by: first `group`, then `num`, then `text`
/// (ascending, or descending when the order asks for it).
pub struct SortKey {
    pub group: int,
    pub num: int,
    pub text: Seq<char>,
}

/// Whether key `a` goes strictly before key `b`.
pub open spec fn key_lt(a: SortKey, b: SortKey, desc_text: bool) -> bool {
    ||| a.group < b.group
    ||| a.group == b.group && a.num < b.num
    ||| a.group == b.group && a.num == b.num && (if desc_text {
        text_lt(b.text, a.text)
    } else {
        text_lt(a.text, b.text)
    })
}

/// Whether the row at position `a` goes before the row at position `b`: by key,
/// and rows whose keys tie keep their original order (a stable sort).
pub open spec fn rank_lt(keys: Seq<SortKey>, desc_text: bool, a: int, b: int) -> bool {
    key_lt(keys[a], keys[b], desc_text) || (!key_lt(keys[b], keys[a], desc_text) && a < b)
}

/// `order` lists each of the positions 0..n exactly once.
pub open spec fn is_permutation(order: Seq<usize>, n: int) -> bool {
    &&& order.len() == n
    &&& forall|k: int| 0 <= k < n ==> #[trigger] order[k] < n
    &&& forall|k1: int, k2: int|
        0 <= k1 < n && 0 <= k2 < n && k1 != k2 ==> #[trigger] order[k1] != #[trigger] order[k2]
}

/// `order` puts the positions in `rank_lt` order.
pub open spec fn ranked(keys: Seq<SortKey>, desc_text: bool, order: Seq<usize>) -> bool {
    forall|a: int, b: int|
        0 <= a < b < order.len() ==> rank_lt(
            keys,
            desc_text,
            #[trigger] order[a] as int,
            #[trigger] order[b] as int,
        )
}

/// `out` is the stable sort of `items` by `keys`.
pub open spec fn stable_sorted<T>(
    items: Seq<T>,
    keys: Seq<SortKey>,
    desc_text: bool,
    out: Seq<T>,
) -> bool {
    exists|order: Seq<usize>|
        {
            &&& is_permutation(order, items.len() as int)
            &&& ranked(keys, desc_text, order)
            &&& out.len() == items.len()
            &&& forall|k: int| 0 <= k < out.len() ==> #[trigger] out[k] == items[order[k] as int]
        }
}

pub proof fn lemma_key_lt_irreflexive(a: SortKey, d: bool)
    ensures
        !key_lt(a, a, d),
{
    lemma_text_lt_irreflexive(a.text);
}

pub proof fn lemma_key_lt_transitive(a: SortKey, b: SortKey, c: SortKey, d: bool)
    requires
        key_lt(a, b, d),
        key_lt(b, c, d),
    ensures
        key_lt(a, c, d),
{
    if a.group == b.group && b.group == c.group && a.num == b.num && b.num == c.num {
        if d {
            lemma_text_lt_transitive(c.text, b.text, a.text);
        } else {
            lemma_text_lt_transitive(a.text, b.text, c.text);
        }
    }
}

pub proof fn lemma_key_lt_total(a: SortKey, b: SortKey, d: bool)
    requires
        !key_lt(a, b, d),
        !key_lt(b, a, d),
    ensures
        a == b,
{
    if a.text != b.text {
        lemma_text_lt_total(a.text, b.text);
    }
}

/// `rank_lt` is a strict total order on the positions of `keys`.
pub proof fn lemma_rank_lt_order(keys: Seq<SortKey>, d: bool)
    ensures
        forall|a: int| !#[trigger] rank_lt(keys, d, a, a),
        forall|a: int, b: int|
            a != b ==> #[trigger] rank_lt(keys, d, a, b) || #[trigger] rank_lt(keys, d, b, a),
        forall|a: int, b: int, c: int|
            #[trigger] rank_lt(keys, d, a, b) && #[trigger] rank_lt(keys, d, b, c) ==> rank_lt(
                keys,
                d,
                a,
                c,
            ),
{
    assert forall|a: int| !#[trigger] rank_lt(keys, d, a, a) by {
        lemma_key_lt_irreflexive(keys[a], d);
    }
    assert forall|a: int, b: int, c: int|
        #[trigger] rank_lt(keys, d, a, b) && #[trigger] rank_lt(keys, d, b, c) implies rank_lt(
        keys,
        d,
        a,
        c,
    ) by {
        let (ka, kb, kc) = (keys[a], keys[b], keys[c]);
        if key_lt(ka, kb, d) && key_lt(kb, kc, d) {
            lemma_key_lt_transitive(ka, kb, kc, d);
        } else if key_lt(ka, kb, d) {
            lemma_key_lt_total(kb, kc, d);
        } else if key_lt(kb, kc, d) {
            lemma_key_lt_total(ka, kb, d);
        } else {
            lemma_key_lt_total(ka, kb, d);
            lemma_key_lt_total(kb, kc, d);
            lemma_key_lt_irreflexive(ka, d);
        }
        if key_lt(kc, ka, d) {
            if key_lt(ka, kb, d) {
                lemma_key_lt_transitive(kc, ka, kb, d);
                if key_lt(kb, kc, d) {
                    lemma_key_lt_transitive(kc, kb, kc, d);
                    lemma_key_lt_irreflexive(kc, d);
                } else {
                    lemma_key_lt_total(kb, kc, d);
                    lemma_key_lt_irreflexive(kc, d);
                }
            } else {
                lemma_key_lt_total(ka, kb, d);
                if key_lt(kb, kc, d) {
                    lemma_key_lt_transitive(kc, kb, kc, d);
                    lemma_key_lt_irreflexive(kc, d);
                } else {
                    lemma_key_lt_total(kb, kc, d);
                    lemma_key_lt_irreflexive(kc, d);
                }
            }
        }
    }
}

/// The executable form of a sort key.
pub struct RankKey {
    pub group: u8,
    pub num: i128,
    pub text: Vec<char>,
}

impl View for RankKey {
    type V = SortKey;

    open spec fn view(&self) -> SortKey {
        SortKey { group: self.group as int, num: self.num as int, text: self.text@ }
    }
}

/// The views of a sequence of keys.
pub open spec fn rank_keys_view(s: Seq<RankKey>) -> Seq<SortKey> {
    s.map_values(|k: RankKey| k@)
}

/// Whether key `a` goes strictly before key `b`.
pub fn key_before(a: &RankKey, b: &RankKey, desc_text: bool) -> (r: bool)
    ensures
        r == key_lt(a@, b@, desc_text),
{
    if a.group != b.group {
        a.group < b.group
    } else if a.num != b.num {
        a.num < b.num
    } else if desc_text {
        chars_lt(&b.text, &a.text)
    } else {
        chars_lt(&a.text, &b.text)
    }
}

fn rank_before(keys: &Vec<RankKey>, desc_text: bool, a: usize, b: usize) -> (r: bool)
    requires
        a < keys@.len(),
        b < keys@.len(),
    ensures
        r == rank_lt(rank_keys_view(keys@), desc_text, a as int, b as int),
{
    if key_before(&keys[a], &keys[b], desc_text) {
        true
    } else if key_before(&keys[b], &keys[a], desc_text) {
        false
    } else {
        a < b
    }
}

/// The positions 0..n of `keys`, stably sorted by key (insertion sort).
pub fn sort_positions(keys: &Vec<RankKey>, desc_text: bool) -> (order: Vec<usize>)
    ensures
        is_permutation(order@, keys@.len() as int),
        ranked(rank_keys_view(keys@), desc_text, order@),
{
    let n = keys.len();
    let ghost kv = rank_keys_view(keys@);
    proof {
        lemma_rank_lt_order(kv, desc_text);
    }
    let mut order: Vec<usize> = Vec::new();
    let mut i: usize = 0;
    while i < n
        invariant
            n == keys@.len(),
            i <= n,
            order@.len() == i,
            forall|k: int| 0 <= k < i ==> order@[k] == k,
        decreases n - i,
    {
        order.push(i);
        i = i + 1;
    }
    let mut i: usize = 1;
    while i < n
        invariant
            n == keys@.len(),
            kv == rank_keys_view(keys@),
            1 <= i || n == 0,
            i <= n || n == 0,
            is_permutation(order@, n as int),
            forall|a: int, b: int|
                0 <= a < b < i && b < n ==> rank_lt(
                    kv,
                    desc_text,
                    #[trigger] order@[a] as int,
                    #[trigger] order@[b] as int,
                ),
            forall|a: int| !#[trigger] rank_lt(kv, desc_text, a, a),
            forall|a: int, b: int|
                a != b ==> #[trigger] rank_lt(kv, desc_text, a, b) || #[trigger] rank_lt(
                    kv,
                    desc_text,
                    b,
                    a,
                ),
            forall|a: int, b: int, c: int|
                #[trigger] rank_lt(kv, desc_text, a, b) && #[trigger] rank_lt(kv, desc_text, b, c)
                    ==> rank_lt(kv, desc_text, a, c),
            forall|k: int| i <= k < n ==> order@[k] == k,
        decreases n - i,
    {
        let mut j = i;
        while j > 0 && rank_before(keys, desc_text, order[j], order[j - 1])
            invariant
                n == keys@.len(),
                kv == rank_keys_view(keys@),
                1 <= i < n,
                j <= i,
                is_permutation(order@, n as int),
                // sorted before j
                forall|a: int, b: int|
                    0 <= a < b < j ==> rank_lt(
                        kv,
                        desc_text,
                        #[trigger] order@[a] as int,
                        #[trigger] order@[b] as int,
                    ),
                // sorted after j, up to i
                forall|a: int, b: int|
                    j < a < b <= i ==> rank_lt(
                        kv,
                        desc_text,
                        #[trigger] order@[a] as int,
                        #[trigger] order@[b] as int,
                    ),
                // everything before j goes before everything after j
                forall|a: int, b: int|
                    0 <= a < j && j < b <= i ==> rank_lt(
                        kv,
                        desc_text,
                        #[trigger] order@[a] as int,
                        #[trigger] order@[b] as int,
                    ),
                // the row being placed goes before its right neighbour
                j < i ==> rank_lt(kv, desc_text, order@[j as int] as int, order@[j + 1] as int),
                forall|a: int| !#[trigger] rank_lt(kv, desc_text, a, a),
                forall|a: int, b: int|
                    a != b ==> #[trigger] rank_lt(kv, desc_text, a, b) || #[trigger] rank_lt(
                        kv,
                        desc_text,
                        b,
                        a,
                    ),
                forall|a: int, b: int, c: int|
                    #[trigger] rank_lt(kv, desc_text, a, b) && #[trigger] rank_lt(
                        kv,
                        desc_text,
                        b,
                        c,
                    ) ==> rank_lt(kv, desc_text, a, c),
                forall|k: int| i < k < n ==> order@[k] == k,
            decreases j,
        {
            let x = order[j];
            let y = order[j - 1];
            let ghost before = order@;
            order.set(j, y);
            order.set(j - 1, x);
            proof {
                assert forall|k1: int, k2: int|
                    0 <= k1 < n && 0 <= k2 < n && k1 != k2 implies #[trigger] order@[k1]
                    != #[trigger] order@[k2] by {
                    let m1 = if k1 == j {
                        j - 1
                    } else if k1 == j - 1 {
                        j as int
                    } else {
                        k1
                    };
                    let m2 = if k2 == j {
                        j - 1
                    } else if k2 == j - 1 {
                        j as int
                    } else {
                        k2
                    };
                    assert(order@[k1] == before[m1]);
                    assert(order@[k2] == before[m2]);
                }
                assert forall|k: int| 0 <= k < n implies #[trigger] order@[k] < n by {
                    if k == j {
                        assert(order@[k] == before[j - 1]);
                    } else if k == j - 1 {
                        assert(order@[k] == before[j as int]);
                    } else {
                        assert(order@[k] == before[k]);
                    }
                }
                assert forall|a: int, b: int|
                    j < a < b <= i implies rank_lt(
                    kv,
                    desc_text,
                    #[trigger] order@[a] as int,
                    #[trigger] order@[b] as int,
                ) by {
                    if a == j {
                        assert(order@[a] == before[j - 1]);
                        assert(order@[b] == before[b]);
                    } else {
                        assert(order@[a] == before[a]);
                        assert(order@[b] == before[b]);
                    }
                }
                assert forall|a: int, b: int|
                    0 <= a < j - 1 && j - 1 < b <= i implies rank_lt(
                    kv,
                    desc_text,
                    #[trigger] order@[a] as int,
                    #[trigger] order@[b] as int,
                ) by {
                    assert(order@[a] == before[a]);
                    if b == j {
                        assert(order@[b] == before[j - 1]);
                    } else {
                        assert(order@[b] == before[b]);
                    }
                }
                assert forall|a: int, b: int|
                    0 <= a < b < j - 1 implies rank_lt(
                    kv,
                    desc_text,
                    #[trigger] order@[a] as int,
                    #[trigger] order@[b] as int,
                ) by {
                    assert(order@[a] == before[a]);
                    assert(order@[b] == before[b]);
                }
                assert(order@[j - 1] == x);
                assert(order@[j as int] == y);
            }
            j = j - 1;
        }
        proof {
            assert forall|a: int, b: int|
                0 <= a < b < i + 1 && b < n implies rank_lt(
                kv,
                desc_text,
                #[trigger] order@[a] as int,
                #[trigger] order@[b] as int,
            ) by {
                if b < j {
                } else if a > j {
                } else if a < j && b > j {
                } else if a == j && b > j {
                    if b > j + 1 {
                        assert(rank_lt(
                            kv,
                            desc_text,
                            order@[j + 1] as int,
                            order@[b] as int,
                        ));
                    }
                } else if b == j && a < j {
                    let x = order@[j as int] as int;
                    let y = order@[j - 1] as int;
                    assert(!rank_lt(kv, desc_text, x, y));
                    assert(x != y);
                    assert(rank_lt(kv, desc_text, y, x));
                    if a < j - 1 {
                        assert(rank_lt(kv, desc_text, order@[a] as int, y));
                    }
                }
            }
        }
        i = i + 1;
    }
    order
}

} // verus!
