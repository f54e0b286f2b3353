//! Stable sorting by a key, with lexicographic order on integer sequences
//! as the order of keys.

use vstd::prelude::*;

verus! {

/// Strict lexicographic order on integer sequences; a proper prefix comes
/// first.
pub open spec fn lex_lt(a: Seq<int>, b: Seq<int>) -> bool
    decreases a.len(),
{
    if b.len() == 0 {
        false
    } else if a.len() == 0 {
        true
    } else if a[0] != b[0] {
        a[0] < b[0]
    } else {
        lex_lt(a.drop_first(), b.drop_first())
    }
}

/// Sort key of a string: its characters as code points, so that keys
/// compare as strings do.
pub open spec fn char_codes(s: Seq<char>) -> Seq<int> {
    s.map_values(|c: char| (c as u32) as int)
}

/// No sequence comes before itself, and of two sequences at most one comes
/// first.
pub proof fn lemma_lex_asym(a: Seq<int>, b: Seq<int>)
    ensures
        !(lex_lt(a, b) && lex_lt(b, a)),
        !lex_lt(a, a),
    decreases a.len(),
{
    if a.len() > 0 && b.len() > 0 && a[0] == b[0] {
        lemma_lex_asym(a.drop_first(), b.drop_first());
    }
    if a.len() > 0 {
        lemma_lex_asym(a.drop_first(), a.drop_first());
    }
}

/// Of two different sequences, one comes first.
pub proof fn lemma_lex_total(a: Seq<int>, b: Seq<int>)
    ensures
        lex_lt(a, b) || lex_lt(b, a) || a == b,
    decreases a.len(),
{
    if a.len() > 0 && b.len() > 0 && a[0] == b[0] {
        lemma_lex_total(a.drop_first(), b.drop_first());
        if a.drop_first() == b.drop_first() {
            assert forall|i: int| 0 <= i < a.len() implies a[i] == b[i] by {
                if i > 0 {
                    assert(a[i] == a.drop_first()[i - 1]);
                    assert(b[i] == b.drop_first()[i - 1]);
                }
            }
            assert(a =~= b);
        }
    } else if a.len() == 0 && b.len() == 0 {
        assert(a =~= b);
    }
}

/// The order is transitive.
pub proof fn lemma_lex_trans(a: Seq<int>, b: Seq<int>, c: Seq<int>)
    requires
        lex_lt(a, b),
        lex_lt(b, c),
    ensures
        lex_lt(a, c),
    decreases a.len(),
{
    if a.len() > 0 && b.len() > 0 && c.len() > 0 && a[0] == b[0] && b[0] == c[0] {
        lemma_lex_trans(a.drop_first(), b.drop_first(), c.drop_first());
    }
}

/// "Not after" is transitive.
pub proof fn lemma_lex_le_trans(a: Seq<int>, b: Seq<int>, c: Seq<int>)
    requires
        !lex_lt(b, a),
        !lex_lt(c, b),
    ensures
        !lex_lt(c, a),
{
    lemma_lex_total(a, b);
    if lex_lt(c, a) && lex_lt(a, b) {
        lemma_lex_trans(c, a, b);
    }
}

/// Whether string `a` sorts strictly before string `b`, comparing
/// characters by code point as `str` ordering does.
pub fn str_lt(a: &str, b: &str) -> (r: bool)
    ensures
        r == lex_lt(char_codes(a@), char_codes(b@)),
{
    let ca = crate::text::chars_of(a);
    let cb = crate::text::chars_of(b);
    let n = ca.len();
    let m = cb.len();
    let ghost xa = char_codes(a@);
    let ghost xb = char_codes(b@);
    let mut i: usize = 0;
    assert(xa.subrange(0, n as int) =~= xa);
    assert(xb.subrange(0, m as int) =~= xb);
    while i < n && i < m
        invariant
            ca@ == a@,
            cb@ == b@,
            n == ca@.len(),
            m == cb@.len(),
            xa == char_codes(a@),
            xb == char_codes(b@),
            i <= n,
            i <= m,
            lex_lt(xa, xb) == lex_lt(xa.subrange(i as int, n as int), xb.subrange(i as int, m as int)),
        decreases n - i,
    {
        let x = ca[i] as u32;
        let y = cb[i] as u32;
        let ghost sa = xa.subrange(i as int, n as int);
        let ghost sb = xb.subrange(i as int, m as int);
        assert(sa[0] == x as int && sb[0] == y as int);
        if x != y {
            return x < y;
        }
        assert(sa.drop_first() =~= xa.subrange(i + 1, n as int));
        assert(sb.drop_first() =~= xb.subrange(i + 1, m as int));
        i = i + 1;
    }
    i == n && i < m
}

/// Values that have a sort key.
pub trait SortKey {
    /// The key the value is sorted by.
    spec fn sort_key(&self) -> Seq<int>;

    /// Whether this value's key comes strictly before the other's.
    fn key_lt(&self, other: &Self) -> (r: bool)
        ensures
            r == lex_lt(self.sort_key(), other.sort_key()),
    ;
}

/// Key `a` strictly precedes key `b` in the chosen direction.
pub open spec fn key_before(a: Seq<int>, b: Seq<int>, asc: bool) -> bool {
    if asc {
        lex_lt(a, b)
    } else {
        lex_lt(b, a)
    }
}

/// Keys never decrease (ascending) or never increase (descending).
pub open spec fn sorted_by_key<T: SortKey>(s: Seq<T>, asc: bool) -> bool {
    forall|i: int, j: int|
        0 <= i < j < s.len() ==> !key_before(#[trigger] s[j].sort_key(), #[trigger] s[i].sort_key(), asc)
}

/// The items with key `k`.
pub open spec fn with_key<T: SortKey>(k: Seq<int>) -> spec_fn(T) -> bool {
    |x: T| x.sort_key() == k
}

/// For every key, the items with that key are the same, in the same order:
/// a rearrangement that keeps equal keys in their order.
pub open spec fn same_per_key<T: SortKey>(a: Seq<T>, b: Seq<T>) -> bool {
    forall|k: Seq<int>| #[trigger] a.filter(with_key::<T>(k)) == b.filter(with_key::<T>(k))
}

proof fn lemma_insert_sorted<T: SortKey>(r: Seq<T>, p: int, x: T, asc: bool)
    requires
        0 <= p <= r.len(),
        sorted_by_key(r, asc),
        forall|j: int| 0 <= j < p ==> key_before(r[j].sort_key(), x.sort_key(), asc),
        p < r.len() ==> !key_before(r[p].sort_key(), x.sort_key(), asc),
    ensures
        sorted_by_key(r.insert(p, x), asc),
{
    let s = r.insert(p, x);
    assert forall|i: int, j: int| 0 <= i < j < s.len() implies !key_before(
        #[trigger] s[j].sort_key(),
        #[trigger] s[i].sort_key(),
        asc,
    ) by {
        let ki = s[i].sort_key();
        let kj = s[j].sort_key();
        let kx = x.sort_key();
        if i < p && j < p {
            assert(s[i] == r[i] && s[j] == r[j]);
        } else if i < p && j == p {
            lemma_lex_asym(ki, kx);
        } else if i < p && j > p {
            assert(s[i] == r[i] && s[j] == r[j - 1]);
        } else if i == p {
            assert(s[j] == r[j - 1]);
            assert(!key_before(r[p].sort_key(), kx, asc));
            if j - 1 > p {
                assert(!key_before(r[j - 1].sort_key(), r[p].sort_key(), asc));
            } else {
                lemma_lex_asym(r[p].sort_key(), r[p].sort_key());
            }
            if asc {
                lemma_lex_le_trans(kx, r[p].sort_key(), kj);
            } else {
                lemma_lex_le_trans(kj, r[p].sort_key(), kx);
            }
        } else {
            assert(s[i] == r[i - 1] && s[j] == r[j - 1]);
        }
    }
}

proof fn lemma_insert_per_key<T: SortKey>(r: Seq<T>, p: int, x: T, asc: bool, k: Seq<int>)
    requires
        0 <= p <= r.len(),
        forall|j: int| 0 <= j < p ==> key_before(r[j].sort_key(), x.sort_key(), asc),
    ensures
        r.insert(p, x).filter(with_key::<T>(k)) == (if x.sort_key() == k {
            seq![x]
        } else {
            Seq::empty()
        }) + r.filter(with_key::<T>(k)),
{
    let f = with_key::<T>(k);
    let pre = r.subrange(0, p);
    let post = r.subrange(p, r.len() as int);
    assert(r =~= pre + post);
    assert(r.insert(p, x) =~= pre + (seq![x] + post));
    Seq::filter_distributes_over_add(pre, seq![x] + post, f);
    Seq::filter_distributes_over_add(pre, post, f);
    post.lemma_filter_prepend(x, f);
    if x.sort_key() == k {
        assert forall|j: int| 0 <= j < pre.len() implies !f(pre[j]) by {
            lemma_lex_asym(pre[j].sort_key(), x.sort_key());
        }
        pre.lemma_all_neg_filter_empty(f);
        assert(pre.filter(f) =~= Seq::<T>::empty());
        assert(r.insert(p, x).filter(f) =~= seq![x] + post.filter(f));
        assert(r.filter(f) =~= post.filter(f));
    } else {
        assert(r.insert(p, x).filter(f) =~= pre.filter(f) + post.filter(f));
    }
}

fn precedes<T: SortKey>(a: &T, b: &T, asc: bool) -> (r: bool)
    ensures
        r == key_before(a.sort_key(), b.sort_key(), asc),
{
    if asc {
        a.key_lt(b)
    } else {
        b.key_lt(a)
    }
}

/// Sorts `v` by key, ascending or descending, keeping items with equal keys
/// in their original order.
pub fn stable_sort<T: SortKey>(v: Vec<T>, asc: bool) -> (r: Vec<T>)
    ensures
        sorted_by_key(r@, asc),
        same_per_key(r@, v@),
        r@.len() == v@.len(),
{
    let ghost orig = v@;
    let n = v.len();
    let mut src = v;
    let mut r: Vec<T> = Vec::new();
    assert(orig.subrange(n as int, n as int) =~= Seq::<T>::empty());
    while src.len() > 0
        invariant
            n == orig.len(),
            src@.len() <= n,
            src@ == orig.subrange(0, src@.len() as int),
            sorted_by_key(r@, asc),
            same_per_key(r@, orig.subrange(src@.len() as int, n as int)),
            r@.len() + src@.len() == n,
        decreases src.len(),
    {
        let ghost m = src@.len();
        let x = src.pop().unwrap();
        assert(x == orig[m - 1]);
        let mut p: usize = 0;
        while p < r.len() && precedes(&r[p], &x, asc)
            invariant
                p <= r@.len(),
                forall|j: int| 0 <= j < p ==> key_before(r@[j].sort_key(), x.sort_key(), asc),
            decreases r@.len() - p,
        {
            p = p + 1;
        }
        let ghost old_r = r@;
        proof {
            lemma_insert_sorted(old_r, p as int, x, asc);
            assert(orig.subrange(m - 1, n as int) =~= seq![x] + orig.subrange(m as int, n as int));
            assert forall|k: Seq<int>| #[trigger] old_r.insert(p as int, x).filter(with_key::<T>(k))
                == orig.subrange(m - 1, n as int).filter(with_key::<T>(k)) by {
                lemma_insert_per_key(old_r, p as int, x, asc, k);
                orig.subrange(m as int, n as int).lemma_filter_prepend(x, with_key::<T>(k));
                assert(old_r.filter(with_key::<T>(k)) == orig.subrange(m as int, n as int).filter(
                    with_key::<T>(k),
                ));
            }
        }
        r.insert(p, x);
    }
    assert(orig.subrange(0, n as int) =~= orig);
    r
}

} // verus!
