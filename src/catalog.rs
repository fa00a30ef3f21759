use vstd::prelude::*;
use crate::text::same_text;

verus! {

/// Order of the book lists.
#[derive(Clone, Copy, Debug, PartialEq, Eq, Structural)]
pub enum LibrarySortMode {
    /// Most recently added first.
    NewlyAdded,
    /// By author, then title.
    AuthorAsc,
    /// By title, then author.
    TitleAsc,
}

/// What the book lists read of a library item.
#[derive(Clone, Debug)]
pub struct ItemSummary {
    pub id: String,
    pub title: Option<String>,
    pub author_name: Option<String>,
    /// The author as "Last, First", preferred for sorting.
    pub author_name_lf: Option<String>,
    pub added_at: Option<u64>,
    pub created_at: Option<u64>,
    pub updated_at: Option<u64>,
}

pub open spec fn text_or_empty(s: Option<String>) -> Seq<char> {
    match s {
        Some(t) => t@,
        None => Seq::empty(),
    }
}

pub open spec fn title_spec(item: ItemSummary) -> Seq<char> {
    text_or_empty(item.title)
}

pub open spec fn author_spec(item: ItemSummary) -> Seq<char> {
    if item.author_name_lf is Some {
        text_or_empty(item.author_name_lf)
    } else {
        text_or_empty(item.author_name)
    }
}

pub open spec fn added_spec(item: ItemSummary) -> u64 {
    match item.added_at {
        Some(t) => t,
        None => match item.created_at {
            Some(t) => t,
            None => match item.updated_at {
                Some(t) => t,
                None => 0,
            },
        },
    }
}

/// The title to sort by; empty when there is none.
pub fn item_title_for_sort(item: &ItemSummary) -> (r: &str)
    ensures
        r@ == title_spec(*item),
{
    proof {
        reveal_strlit("");
    }
    match &item.title {
        Some(t) => t.as_str(),
        None => "",
    }
}

/// The author to sort by: "Last, First" when known, else the plain name.
pub fn item_author_for_sort(item: &ItemSummary) -> (r: &str)
    ensures
        r@ == author_spec(*item),
{
    proof {
        reveal_strlit("");
    }
    match &item.author_name_lf {
        Some(a) => a.as_str(),
        None => match &item.author_name {
            Some(a) => a.as_str(),
            None => "",
        },
    }
}

/// When the item was added, else created, else last updated; 0 if unknown.
pub fn item_added_timestamp(item: &ItemSummary) -> (r: u64)
    ensures
        r == added_spec(*item),
{
    match item.added_at {
        Some(t) => t,
        None => match item.created_at {
            Some(t) => t,
            None => match item.updated_at {
                Some(t) => t,
                None => 0,
            },
        },
    }
}

/// What `str::to_lowercase` makes of a text.
pub uninterp spec fn lower_of(s: Seq<char>) -> Seq<char>;

/// Relies on `str::to_lowercase`: the result depends on the characters alone.
#[verifier::external_body]
fn lowercase(s: &str) -> (r: String)
    ensures
        r@ == lower_of(s@),
{
    s.to_lowercase()
}

/// What `str::trim` makes of a text.
pub uninterp spec fn trimmed_of(s: Seq<char>) -> Seq<char>;

/// Relies on `str::trim`: the text without leading and trailing white space,
/// which depends on the characters alone.
#[verifier::external_body]
fn trim(s: &str) -> (r: &str)
    ensures
        r@ == trimmed_of(s@),
{
    s.trim()
}

/// Texts in lexicographic order of their characters, the order of `str`.
pub open spec fn text_less(a: Seq<char>, b: Seq<char>) -> bool
    decreases a.len(),
{
    if a.len() == 0 {
        b.len() > 0
    } else if b.len() == 0 {
        false
    } else if a[0] != b[0] {
        a[0] < b[0]
    } else {
        text_less(a.drop_first(), b.drop_first())
    }
}

proof fn lemma_text_less_trans(a: Seq<char>, b: Seq<char>, c: Seq<char>)
    requires
        text_less(a, b),
        text_less(b, c),
    ensures
        text_less(a, c),
    decreases a.len(),
{
    if a.len() > 0 && b.len() > 0 && c.len() > 0 && a[0] == b[0] && b[0] == c[0] {
        lemma_text_less_trans(a.drop_first(), b.drop_first(), c.drop_first());
    }
}

proof fn lemma_text_less_total(a: Seq<char>, b: Seq<char>)
    ensures
        text_less(a, b) || text_less(b, a) || a == b,
        !(text_less(a, b) && text_less(b, a)),
        !text_less(a, a),
    decreases a.len(),
{
    if a.len() > 0 && b.len() > 0 {
        if a[0] == b[0] {
            lemma_text_less_total(a.drop_first(), b.drop_first());
            if a.drop_first() == b.drop_first() {
                assert(a =~= seq![a[0]] + a.drop_first());
                assert(b =~= seq![b[0]] + b.drop_first());
            }
        }
    } else if a.len() == 0 && b.len() == 0 {
        assert(a =~= b);
    }
    if a.len() > 0 {
        lemma_text_less_total(a.drop_first(), a.drop_first());
    }
}

/// Compare two texts: -1, 0 or 1.
pub fn compare_text(a: &str, b: &str) -> (r: i8)
    ensures
        r == -1 <==> text_less(a@, b@),
        r == 1 <==> text_less(b@, a@),
        r == 0 <==> a@ == b@,
{
    proof {
        lemma_text_less_total(a@, b@);
    }
    let n = a.unicode_len();
    let m = b.unicode_len();
    let mut i: usize = 0;
    assert(a@.subrange(0, n as int) =~= a@);
    assert(b@.subrange(0, m as int) =~= b@);
    while i < n && i < m
        invariant
            n == a@.len(),
            m == b@.len(),
            i <= n,
            i <= m,
            a@.subrange(0, i as int) == b@.subrange(0, i as int),
            text_less(a@, b@) == text_less(a@.subrange(i as int, n as int), b@.subrange(i as int, m as int)),
            text_less(b@, a@) == text_less(b@.subrange(i as int, m as int), a@.subrange(i as int, n as int)),
        decreases n - i,
    {
        let x = a.get_char(i);
        let y = b.get_char(i);
        assert(a@.subrange(i as int, n as int)[0] == x);
        assert(b@.subrange(i as int, m as int)[0] == y);
        if x != y {
            assert(a@[i as int] != b@[i as int]);
            if x < y {
                return -1;
            } else {
                return 1;
            }
        }
        assert(a@.subrange(i as int, n as int).drop_first() =~= a@.subrange(i + 1, n as int));
        assert(b@.subrange(i as int, m as int).drop_first() =~= b@.subrange(i + 1, m as int));
        assert(a@.subrange(0, i + 1) =~= a@.subrange(0, i as int).push(x));
        assert(b@.subrange(0, i + 1) =~= b@.subrange(0, i as int).push(y));
        i = i + 1;
    }
    if n == m {
        assert(a@ =~= a@.subrange(0, n as int));
        assert(b@ =~= b@.subrange(0, m as int));
        0
    } else if i == n {
        -1
    } else {
        1
    }
}


/// The key a list is sorted by: the time added for `NewlyAdded`, else two
/// lowercased texts.
#[derive(Clone, Debug)]
pub struct SortKey {
    pub stamp: u64,
    pub first: String,
    pub second: String,
}

pub struct KeyView {
    pub stamp: u64,
    pub first: Seq<char>,
    pub second: Seq<char>,
}

impl View for SortKey {
    type V = KeyView;

    open spec fn view(&self) -> KeyView {
        KeyView { stamp: self.stamp, first: self.first@, second: self.second@ }
    }
}

/// The key of `item` under `mode`.
pub open spec fn key_of(item: ItemSummary, mode: LibrarySortMode) -> KeyView {
    match mode {
        LibrarySortMode::NewlyAdded => KeyView {
            stamp: added_spec(item),
            first: Seq::empty(),
            second: Seq::empty(),
        },
        LibrarySortMode::AuthorAsc => KeyView {
            stamp: 0,
            first: lower_of(author_spec(item)),
            second: lower_of(title_spec(item)),
        },
        LibrarySortMode::TitleAsc => KeyView {
            stamp: 0,
            first: lower_of(title_spec(item)),
            second: lower_of(author_spec(item)),
        },
    }
}

pub fn sort_key(item: &ItemSummary, mode: LibrarySortMode) -> (r: SortKey)
    ensures
        r@ == key_of(*item, mode),
{
    match mode {
        LibrarySortMode::NewlyAdded => SortKey {
            stamp: item_added_timestamp(item),
            first: String::new(),
            second: String::new(),
        },
        LibrarySortMode::AuthorAsc => SortKey {
            stamp: 0,
            first: lowercase(item_author_for_sort(item)),
            second: lowercase(item_title_for_sort(item)),
        },
        LibrarySortMode::TitleAsc => SortKey {
            stamp: 0,
            first: lowercase(item_title_for_sort(item)),
            second: lowercase(item_author_for_sort(item)),
        },
    }
}

pub open spec fn key_views(keys: Seq<SortKey>) -> Seq<KeyView> {
    keys.map_values(|k: SortKey| k@)
}

/// Key `a` sorts strictly before key `b`.
pub open spec fn key_before(mode: LibrarySortMode, a: KeyView, b: KeyView) -> bool {
    if mode == LibrarySortMode::NewlyAdded {
        a.stamp > b.stamp
    } else {
        text_less(a.first, b.first) || (a.first == b.first && text_less(a.second, b.second))
    }
}

pub open spec fn key_same(mode: LibrarySortMode, a: KeyView, b: KeyView) -> bool {
    if mode == LibrarySortMode::NewlyAdded {
        a.stamp == b.stamp
    } else {
        a.first == b.first && a.second == b.second
    }
}

/// Position `i` comes before position `j`: a smaller key, or an equal key
/// and an earlier position, so that the order is stable.
pub open spec fn ranks_before(mode: LibrarySortMode, keys: Seq<KeyView>, i: int, j: int) -> bool {
    key_before(mode, keys[i], keys[j]) || (key_same(mode, keys[i], keys[j]) && i < j)
}

proof fn lemma_ranks_order(mode: LibrarySortMode, keys: Seq<KeyView>, i: int, j: int, k: int)
    ensures
        ranks_before(mode, keys, i, j) && ranks_before(mode, keys, j, k) ==> ranks_before(
            mode,
            keys,
            i,
            k,
        ),
        i != j ==> ranks_before(mode, keys, i, j) || ranks_before(mode, keys, j, i),
        !(ranks_before(mode, keys, i, j) && ranks_before(mode, keys, j, i)),
{
    let (a, b, c) = (keys[i], keys[j], keys[k]);
    lemma_text_less_total(a.first, b.first);
    lemma_text_less_total(b.first, c.first);
    lemma_text_less_total(a.first, c.first);
    lemma_text_less_total(a.second, b.second);
    lemma_text_less_total(b.second, c.second);
    lemma_text_less_total(a.second, c.second);
    if text_less(a.first, b.first) && text_less(b.first, c.first) {
        lemma_text_less_trans(a.first, b.first, c.first);
    }
    if text_less(a.second, b.second) && text_less(b.second, c.second) {
        lemma_text_less_trans(a.second, b.second, c.second);
    }
}

fn ranks_before_exec(mode: LibrarySortMode, keys: &Vec<SortKey>, i: usize, j: usize) -> (r: bool)
    requires
        i < keys@.len(),
        j < keys@.len(),
    ensures
        r == ranks_before(mode, key_views(keys@), i as int, j as int),
{
    let ghost kv = key_views(keys@);
    assert(kv[i as int] == keys@[i as int]@ && kv[j as int] == keys@[j as int]@);
    proof {
        lemma_text_less_total(kv[i as int].first, kv[j as int].first);
        lemma_text_less_total(kv[i as int].second, kv[j as int].second);
    }
    let a = &keys[i];
    let b = &keys[j];
    match mode {
        LibrarySortMode::NewlyAdded => a.stamp > b.stamp || (a.stamp == b.stamp && i < j),
        _ => {
            let c1 = compare_text(a.first.as_str(), b.first.as_str());
            if c1 != 0 {
                return c1 < 0;
            }
            let c2 = compare_text(a.second.as_str(), b.second.as_str());
            c2 < 0 || (c2 == 0 && i < j)
        },
    }
}

/// A sequence of positions below `n` without repeats.
pub open spec fn distinct_below(r: Seq<usize>, n: nat) -> bool {
    &&& forall|k: int| 0 <= k < r.len() ==> r[k] < n
    &&& forall|k1: int, k2: int| 0 <= k1 < k2 < r.len() ==> r[k1] != r[k2]
}

/// Every position comes before each one that follows it.
pub open spec fn ranked(mode: LibrarySortMode, keys: Seq<KeyView>, r: Seq<usize>) -> bool {
    forall|k1: int, k2: int|
        0 <= k1 < k2 < r.len() ==> ranks_before(mode, keys, r[k1] as int, r[k2] as int)
}

/// The positions of `keys` in sorted order: each position once, smaller keys
/// first, equal keys in their original order.
pub fn order_by(keys: &Vec<SortKey>, mode: LibrarySortMode) -> (r: Vec<usize>)
    ensures
        r@.len() == keys@.len(),
        distinct_below(r@, keys@.len()),
        forall|p: usize| p < keys@.len() ==> #[trigger] r@.contains(p),
        ranked(mode, key_views(keys@), r@),
{
    let ghost kv = key_views(keys@);
    let n = keys.len();
    let mut used: Vec<bool> = Vec::new();
    let mut i: usize = 0;
    while i < n
        invariant
            n == keys@.len(),
            i <= n,
            used@.len() == i,
            forall|k: int| 0 <= k < i ==> !used@[k],
        decreases n - i,
    {
        used.push(false);
        i = i + 1;
    }
    let mut out: Vec<usize> = Vec::new();
    while out.len() < n
        invariant
            n == keys@.len(),
            kv == key_views(keys@),
            used@.len() == n,
            out@.len() <= n,
            distinct_below(out@, n as nat),
            ranked(mode, kv, out@),
            forall|p: int| 0 <= p < n ==> (used@[p] <==> out@.contains(p as usize)),
            forall|k: int, p: int|
                0 <= k < out@.len() && 0 <= p < n && !used@[p] ==> ranks_before(
                    mode,
                    kv,
                    out@[k] as int,
                    p,
                ),
        decreases n - out@.len(),
    {
        proof {
            if forall|p: int| 0 <= p < n ==> used@[p] {
                assert forall|p: usize| p < n implies #[trigger] out@.contains(p) by {
                    assert(used@[p as int]);
                }
                lemma_covering_distinct(out@, n as nat);
            }
        }
        let mut best: usize = n;
        let mut j: usize = 0;
        while j < n
            invariant
                n == keys@.len(),
                kv == key_views(keys@),
                used@.len() == n,
                j <= n,
                best == n || (best < n && !used@[best as int]),
                best == n ==> forall|p: int| 0 <= p < j ==> used@[p],
                best < n ==> forall|p: int|
                    0 <= p < j && !used@[p] && p != best ==> ranks_before(mode, kv, best as int, p),
            decreases n - j,
        {
            if !used[j] {
                if best == n {
                    best = j;
                } else if ranks_before_exec(mode, keys, j, best) {
                    proof {
                        assert forall|p: int|
                            0 <= p < j + 1 && !used@[p] && p != j implies ranks_before(
                                mode,
                                kv,
                                j as int,
                                p,
                            ) by {
                            lemma_ranks_order(mode, kv, j as int, best as int, p);
                        }
                    }
                    best = j;
                } else {
                    proof {
                        lemma_ranks_order(mode, kv, best as int, j as int, best as int);
                    }
                }
            }
            j = j + 1;
        }
        if best == n {
            proof {
                assert(false);
            }
            return out;
        }
        let ghost old_out = out@;
        let ghost old_used = used@;
        out.push(best);
        used.set(best, true);
        proof {
            assert forall|p: int| 0 <= p < n implies (used@[p] <==> out@.contains(p as usize)) by {
                if used@[p] && p != best {
                    assert(old_out.contains(p as usize));
                    let w = choose|w: int| 0 <= w < old_out.len() && old_out[w] == p as usize;
                    assert(out@[w] == p as usize);
                }
                if out@.contains(p as usize) {
                    let w = choose|w: int| 0 <= w < out@.len() && out@[w] == p as usize;
                    if w < old_out.len() {
                        assert(old_out[w] == p as usize);
                    }
                }
                if p == best {
                    assert(out@[old_out.len() as int] == best);
                }
            }
            assert forall|k1: int, k2: int| 0 <= k1 < k2 < out@.len() implies out@[k1] != out@[k2] by {
                if k2 == old_out.len() {
                    assert(old_out.contains(out@[k1]));
                    assert(!old_used[best as int]);
                }
            }
        }
    }
    proof {
        assert forall|p: usize| p < n implies #[trigger] out@.contains(p) by {
            if !out@.contains(p) {
                let s = vstd::set_lib::set_int_range(0, n as int).remove(p as int);
                vstd::set_lib::lemma_int_range(0, n as int);
                assert forall|k: int| 0 <= k < out@.len() implies s.contains(#[trigger] out@[k] as int) by {
                    assert(out@.contains(out@[k]));
                }
                lemma_distinct_fits(out@, s);
            }
        }
    }
    out
}

proof fn lemma_distinct_fits(r: Seq<usize>, s: Set<int>)
    requires
        s.finite(),
        forall|k: int| 0 <= k < r.len() ==> s.contains(#[trigger] r[k] as int),
        forall|k1: int, k2: int| 0 <= k1 < k2 < r.len() ==> r[k1] != r[k2],
    ensures
        r.len() <= s.len(),
{
    let d = vstd::set_lib::set_int_range(0, r.len() as int);
    vstd::set_lib::lemma_int_range(0, r.len() as int);
    let f = |k: int| r[k] as int;
    assert(vstd::relations::injective_on(f, d)) by {
        assert forall|k1: int, k2: int| d.contains(k1) && d.contains(k2) && #[trigger] f(k1) == #[trigger] f(k2) implies k1 == k2 by {
            if k1 < k2 {
                assert(r[k1] != r[k2]);
            } else if k2 < k1 {
                assert(r[k2] != r[k1]);
            }
        }
    }
    let img = d.map(f);
    vstd::set_lib::lemma_map_size(d, img, f);
    assert forall|y: int| img.contains(y) implies s.contains(y) by {
        let k = choose|k: int| d.contains(k) && f(k) == y;
    }
    assert(img.subset_of(s));
    vstd::set_lib::lemma_len_subset(img, s);
}

proof fn lemma_covering_distinct(r: Seq<usize>, n: nat)
    requires
        n <= usize::MAX,
        distinct_below(r, n),
        forall|p: usize| p < n ==> #[trigger] r.contains(p),
    ensures
        r.len() >= n,
{
    let s = vstd::set_lib::set_int_range(0, n as int);
    let t = vstd::set_lib::set_int_range(0, r.len() as int);
    vstd::set_lib::lemma_int_range(0, n as int);
    vstd::set_lib::lemma_int_range(0, r.len() as int);
    let f = |p: int| choose|k: int| 0 <= k < r.len() && r[k] == p as usize;
    assert forall|p: int| s.contains(p) implies 0 <= #[trigger] f(p) < r.len() && r[f(p)] == p as usize by {
        assert(r.contains(p as usize));
    }
    assert forall|y: int| s.map(f).contains(y) implies t.contains(y) by {
        let p = choose|p: int| s.contains(p) && f(p) == y;
    }
    assert(vstd::relations::injective_on(f, s)) by {
        assert forall|p1: int, p2: int| s.contains(p1) && s.contains(p2) && #[trigger] f(p1) == #[trigger] f(p2) implies p1 == p2 by {
            assert(r[f(p1)] == p1 as usize);
            assert(r[f(p2)] == p2 as usize);
        }
    }
    let img = s.map(f);
    vstd::set_lib::lemma_map_size(s, img, f);
    assert(img.subset_of(t));
    vstd::set_lib::lemma_len_subset(img, t);
}


/// `needle` occurs in `hay`.
pub open spec fn text_contains(hay: Seq<char>, needle: Seq<char>) -> bool {
    exists|i: int| 0 <= i && i + needle.len() <= hay.len() && #[trigger] hay.subrange(i, i + needle.len()) == needle
}

/// Whether `needle` occurs in `hay`.
pub fn contains_text(hay: &str, needle: &str) -> (r: bool)
    ensures
        r == text_contains(hay@, needle@),
{
    let n = hay.unicode_len();
    let m = needle.unicode_len();
    if m > n {
        return false;
    }
    if m == 0 {
        assert(hay@.subrange(0int, 0int + needle@.len()) =~= needle@);
        return true;
    }
    let mut i: usize = 0;
    while i <= n - m
        invariant
            n == hay@.len(),
            m == needle@.len(),
            1 <= m <= n,
            i <= n - m + 1,
            forall|k: int| 0 <= k < i ==> #[trigger] hay@.subrange(k, k + m) != needle@,
        decreases n - m + 1 - i,
    {
        if same_text(hay.substring_char(i, i + m), needle) {
            return true;
        }
        i = i + 1;
    }
    false
}

/// An item whose lowercased title or author holds the lowercased query.
pub fn matches_query(title_lower: &str, author_lower: &str, query_lower: &str) -> (r: bool)
    ensures
        r == (text_contains(title_lower@, query_lower@) || text_contains(author_lower@, query_lower@)),
{
    contains_text(title_lower, query_lower) || contains_text(author_lower, query_lower)
}

/// An item stays in the list for the lowercased, trimmed query `q`.
pub open spec fn shown_for(item: ItemSummary, q: Seq<char>) -> bool {
    q.len() == 0 || text_contains(lower_of(title_spec(item)), q) || text_contains(
        lower_of(author_spec(item)),
        q,
    )
}

pub open spec fn keys_of(items: Seq<ItemSummary>, mode: LibrarySortMode) -> Seq<KeyView> {
    items.map_values(|it: ItemSummary| key_of(it, mode))
}

/// The positions of the items a book list shows, in the order it shows them:
/// sorted by `mode` (stable), and, for a non-blank `query`, only those whose
/// title or author holds it, ignoring case.
pub fn visible_items(items: &Vec<ItemSummary>, mode: LibrarySortMode, query: &str) -> (r: Vec<usize>)
    ensures
        distinct_below(r@, items@.len()),
        ranked(mode, keys_of(items@, mode), r@),
        forall|p: usize|
            p < items@.len() ==> (#[trigger] r@.contains(p) <==> shown_for(
                items@[p as int],
                lower_of(trimmed_of(query@)),
            )),
{
    let n = items.len();
    let mut keys: Vec<SortKey> = Vec::new();
    let mut i: usize = 0;
    while i < n
        invariant
            n == items@.len(),
            i <= n,
            keys@.len() == i,
            forall|k: int| 0 <= k < i ==> #[trigger] keys@[k]@ == key_of(items@[k], mode),
        decreases n - i,
    {
        keys.push(sort_key(&items[i], mode));
        i = i + 1;
    }
    assert(key_views(keys@) =~= keys_of(items@, mode));
    let order = order_by(&keys, mode);
    let q = lowercase(trim(query));
    if q.as_str().unicode_len() == 0 {
        return order;
    }
    let ghost kv = keys_of(items@, mode);
    let mut out: Vec<usize> = Vec::new();
    let ghost mut pos: Seq<int> = Seq::empty();
    let mut k: usize = 0;
    while k < n
        invariant
            n == items@.len(),
            order@.len() == n,
            kv == keys_of(items@, mode),
            distinct_below(order@, n as nat),
            ranked(mode, kv, order@),
            forall|p: usize| p < n ==> #[trigger] order@.contains(p),
            q@ == lower_of(trimmed_of(query@)),
            q@.len() > 0,
            k <= n,
            pos.len() == out@.len(),
            forall|w: int| 0 <= w < out@.len() ==> 0 <= #[trigger] pos[w] < k && out@[w] == order@[pos[w]],
            forall|w1: int, w2: int| 0 <= w1 < w2 < out@.len() ==> pos[w1] < pos[w2],
            forall|c: int|
                0 <= c < k ==> (shown_for(items@[order@[c] as int], q@) <==> exists|w: int|
                    0 <= w < out@.len() && #[trigger] pos[w] == c),
        decreases n - k,
    {
        let ghost old_pos = pos;
        let ghost old_len = out@.len();
        let idx = order[k];
        let item = &items[idx];
        let title_lower = lowercase(item_title_for_sort(item));
        let author_lower = lowercase(item_author_for_sort(item));
        if matches_query(title_lower.as_str(), author_lower.as_str(), q.as_str()) {
            out.push(idx);
            proof {
                pos = pos.push(k as int);
            }
        }
        proof {
            assert forall|c: int|
                0 <= c < k + 1 implies (shown_for(items@[order@[c] as int], q@) <==> exists|w: int|
                    0 <= w < out@.len() && #[trigger] pos[w] == c) by {
                if c < k {
                    if shown_for(items@[order@[c] as int], q@) {
                        let w = choose|w: int| 0 <= w < old_len && #[trigger] old_pos[w] == c;
                        assert(pos[w] == c);
                    }
                    if exists|w: int| 0 <= w < out@.len() && #[trigger] pos[w] == c {
                        let w = choose|w: int| 0 <= w < out@.len() && #[trigger] pos[w] == c;
                        if w < old_len {
                            assert(old_pos[w] == c);
                        }
                    }
                } else {
                    if exists|w: int| 0 <= w < out@.len() && #[trigger] pos[w] == c {
                        let w = choose|w: int| 0 <= w < out@.len() && #[trigger] pos[w] == c;
                        if w < old_len {
                            assert(old_pos[w] < k);
                        }
                    }
                    if shown_for(items@[order@[c] as int], q@) {
                        assert(pos[old_len as int] == c);
                    }
                }
            }
        }
        k = k + 1;
    }
    proof {
        assert forall|w1: int, w2: int| 0 <= w1 < w2 < out@.len() implies ranks_before(
            mode,
            kv,
            out@[w1] as int,
            out@[w2] as int,
        ) by {
            assert(pos[w1] < pos[w2]);
        }
        assert forall|w1: int, w2: int| 0 <= w1 < w2 < out@.len() implies out@[w1] != out@[w2] by {
            assert(pos[w1] < pos[w2]);
        }
        assert forall|w: int| 0 <= w < out@.len() implies out@[w] < n by {
            assert(order@[pos[w]] < n);
        }
        assert forall|p: usize| p < n implies (#[trigger] out@.contains(p) <==> shown_for(
            items@[p as int],
            q@,
        )) by {
            assert(order@.contains(p));
            let c = choose|c: int| 0 <= c < order@.len() && order@[c] == p;
            if out@.contains(p) {
                let w = choose|w: int| 0 <= w < out@.len() && out@[w] == p;
                if pos[w] != c {
                    assert(order@[pos[w]] == order@[c]);
                    if pos[w] < c {
                        assert(order@[pos[w]] != order@[c]);
                    } else {
                        assert(order@[c] != order@[pos[w]]);
                    }
                }
            }
            if shown_for(items@[p as int], q@) {
                let w = choose|w: int| 0 <= w < out@.len() && #[trigger] pos[w] == c;
                assert(out@[w] == p);
            }
        }
    }
    out
}

} // verus!
