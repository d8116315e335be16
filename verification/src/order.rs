//! Stable sorting by a text key (what `sort_by` on a string field does).
use vstd::prelude::*;
use crate::common::{lemma_seq_lt_asym, lemma_seq_lt_irrefl, lemma_seq_lt_total, lemma_seq_lt_trans, seq_lt, str_lt};

verus! {

/// A value sorted by a text key.
pub trait SortKey: Sized {
    /// The key, as text.
    spec fn sort_key(&self) -> Seq<char>;

    /// The key of this value.
    fn key_str(&self) -> (r: &str)
        ensures
            r@ == self.sort_key(),
    ;
}

impl SortKey for String {
    open spec fn sort_key(&self) -> Seq<char> {
        self@
    }

    fn key_str(&self) -> (r: &str) {
        self.as_str()
    }
}

/// Where `x` goes into the sorted `s`: after every element whose key is not
/// greater than its own, so that equal keys keep their order.
pub open spec fn insert_index<T: SortKey>(s: Seq<T>, x: T) -> nat
    decreases s.len(),
{
    if s.len() == 0 {
        0
    } else if seq_lt(x.sort_key(), s[0].sort_key()) {
        0
    } else {
        1 + insert_index(s.drop_first(), x)
    }
}

/// `s` sorted by key, stably: each element in turn inserted after the
/// elements before it whose key is not greater.
pub open spec fn stable_sorted<T: SortKey>(s: Seq<T>) -> Seq<T>
    decreases s.len(),
{
    if s.len() == 0 {
        s
    } else {
        let prev = stable_sorted(s.drop_last());
        prev.insert(insert_index(prev, s.last()) as int, s.last())
    }
}

/// The insertion index is a position of the sequence.
proof fn lemma_insert_index_bound<T: SortKey>(s: Seq<T>, x: T)
    ensures
        insert_index(s, x) <= s.len(),
    decreases s.len(),
{
    if s.len() > 0 && !seq_lt(x.sort_key(), s[0].sort_key()) {
        lemma_insert_index_bound(s.drop_first(), x);
    }
}

/// The sorted sequence is as long as the input.
proof fn lemma_stable_sorted_len<T: SortKey>(s: Seq<T>)
    ensures
        stable_sorted(s).len() == s.len(),
    decreases s.len(),
{
    if s.len() > 0 {
        lemma_stable_sorted_len(s.drop_last());
        lemma_insert_index_bound(stable_sorted(s.drop_last()), s.last());
    }
}

/// Finds where `x` goes into the sorted `s`.
fn find_insert_index<T: SortKey>(s: &Vec<T>, x: &T) -> (k: usize)
    ensures
        k == insert_index(s@, *x),
        k <= s.len(),
{
    let mut j: usize = 0;
    assert(s@.skip(0) =~= s@);
    while j < s.len()
        invariant
            j <= s.len(),
            insert_index(s@, *x) == j + insert_index(s@.skip(j as int), *x),
        decreases s.len() - j,
    {
        let ghost rest = s@.skip(j as int);
        assert(rest[0] == s@[j as int]);
        if str_lt(x.key_str(), s[j].key_str()) {
            return j;
        }
        assert(rest.drop_first() =~= s@.skip(j + 1));
        j = j + 1;
    }
    assert(s@.skip(j as int).len() == 0);
    j
}

/// Sorts by key, keeping the order of equal keys (`slice::sort_by` with a
/// comparison of the keys).
pub fn sort_by_key<T: SortKey>(v: Vec<T>) -> (r: Vec<T>)
    ensures
        r@ == stable_sorted(v@),
{
    let ghost orig = v@;
    let mut rest = v;
    let mut out: Vec<T> = Vec::new();
    let mut i: usize = 0;
    let n = rest.len();
    while rest.len() > 0
        invariant
            i + rest.len() == n,
            n == orig.len(),
            rest@ == orig.skip(i as int),
            out@ == stable_sorted(orig.take(i as int)),
        decreases rest.len(),
    {
        let x = rest.remove(0);
        assert(orig.take(i + 1).drop_last() =~= orig.take(i as int));
        assert(orig.take(i + 1).last() == x);
        proof {
            lemma_stable_sorted_len(orig.take(i as int));
            lemma_insert_index_bound(out@, x);
        }
        let k = find_insert_index(&out, &x);
        out.insert(k, x);
        assert(rest@ =~= orig.skip(i + 1));
        i = i + 1;
    }
    assert(orig.take(n as int) =~= orig);
    out
}

/// `s` is in key order: no element has a smaller key than one before it.
pub open spec fn key_sorted<T: SortKey>(s: Seq<T>) -> bool {
    forall|i: int, j: int| 0 <= i < j < s.len() ==> !seq_lt(#[trigger] s[j].sort_key(), #[trigger] s[i].sort_key())
}

/// Everything before the insertion index has a key not greater than `x`'s,
/// and the element at it (if any) a greater key.
proof fn lemma_insert_index_split<T: SortKey>(s: Seq<T>, x: T)
    ensures
        forall|m: int| 0 <= m < insert_index(s, x) ==> !seq_lt(x.sort_key(), #[trigger] s[m].sort_key()),
        insert_index(s, x) < s.len() ==> seq_lt(x.sort_key(), s[insert_index(s, x) as int].sort_key()),
    decreases s.len(),
{
    lemma_insert_index_bound(s, x);
    if s.len() > 0 && !seq_lt(x.sort_key(), s[0].sort_key()) {
        let r = s.drop_first();
        lemma_insert_index_split(r, x);
        assert forall|m: int| 0 <= m < insert_index(s, x) implies !seq_lt(x.sort_key(), #[trigger] s[m].sort_key()) by {
            if m > 0 {
                assert(s[m] == r[m - 1]);
            }
        }
        if insert_index(s, x) < s.len() {
            assert(s[insert_index(s, x) as int] == r[insert_index(r, x) as int]);
        }
    }
}

/// Inserting at the insertion index keeps a sorted sequence sorted.
proof fn lemma_insert_keeps_sorted<T: SortKey>(s: Seq<T>, x: T)
    requires
        key_sorted(s),
    ensures
        key_sorted(s.insert(insert_index(s, x) as int, x)),
{
    let k = insert_index(s, x) as int;
    lemma_insert_index_bound(s, x);
    lemma_insert_index_split(s, x);
    let t = s.insert(k, x);
    assert forall|i: int, j: int| 0 <= i < j < t.len() implies !seq_lt(#[trigger] t[j].sort_key(), #[trigger] t[i].sort_key()) by {
        if j < k {
            assert(t[i] == s[i] && t[j] == s[j]);
        } else if j == k {
            assert(t[i] == s[i] && t[j] == x);
        } else if i < k {
            assert(t[i] == s[i] && t[j] == s[j - 1]);
        } else if i == k {
            assert(t[i] == x && t[j] == s[j - 1]);
            if j - 1 > k {
                assert(!seq_lt(s[j - 1].sort_key(), s[k].sort_key()));
            }
            if seq_lt(s[j - 1].sort_key(), x.sort_key()) {
                lemma_seq_lt_trans(s[j - 1].sort_key(), x.sort_key(), s[k].sort_key());
                if j - 1 == k {
                    lemma_seq_lt_irrefl(s[k].sort_key());
                }
            }
        } else {
            assert(t[i] == s[i - 1] && t[j] == s[j - 1]);
        }
    }
}

/// Inserting adds exactly the inserted element to the multiset.
proof fn lemma_insert_multiset<T>(s: Seq<T>, k: int, x: T)
    requires
        0 <= k <= s.len(),
    ensures
        s.insert(k, x).to_multiset() =~= s.to_multiset().insert(x),
{
    broadcast use vstd::seq_lib::group_to_multiset_ensures;
    let t = s.insert(k, x);
    assert(t.remove(k) =~= s);
    assert(t[k] == x);
    assert(t.to_multiset().remove(x) =~= s.to_multiset());
    assert(t.contains(x));
    assert(t.to_multiset().count(x) > 0);
}

/// Sorting puts the keys in order and keeps every element, as often as it
/// occurred.
pub proof fn lemma_stable_sorted_is_sorted_permutation<T: SortKey>(s: Seq<T>)
    ensures
        key_sorted(stable_sorted(s)),
        stable_sorted(s).to_multiset() =~= s.to_multiset(),
    decreases s.len(),
{
    broadcast use vstd::seq_lib::group_to_multiset_ensures;
    if s.len() == 0 {
    } else {
        let r = s.drop_last();
        lemma_stable_sorted_is_sorted_permutation(r);
        let prev = stable_sorted(r);
        lemma_insert_keeps_sorted(prev, s.last());
        lemma_insert_index_bound(prev, s.last());
        lemma_insert_multiset(prev, insert_index(prev, s.last()) as int, s.last());
        assert(r.push(s.last()) =~= s);
    }
}

// ---------------------------------------------------------------------------
// Sorting by a number
// ---------------------------------------------------------------------------

/// A value sorted by a number.
pub trait NumKey: Sized {
    /// The key.
    spec fn num_key(&self) -> int;

    /// The key of this value.
    fn key_num(&self) -> (r: i64)
        ensures
            r == self.num_key(),
    ;
}

/// Where `x` goes into the sorted `s`: after every element whose key is not
/// greater than its own.
pub open spec fn num_insert_index<T: NumKey>(s: Seq<T>, x: T) -> nat
    decreases s.len(),
{
    if s.len() == 0 {
        0
    } else if x.num_key() < s[0].num_key() {
        0
    } else {
        1 + num_insert_index(s.drop_first(), x)
    }
}

/// `s` sorted by number, stably (`slice::sort_by_key`).
pub open spec fn num_sorted<T: NumKey>(s: Seq<T>) -> Seq<T>
    decreases s.len(),
{
    if s.len() == 0 {
        s
    } else {
        let prev = num_sorted(s.drop_last());
        prev.insert(num_insert_index(prev, s.last()) as int, s.last())
    }
}

proof fn lemma_num_insert_index_bound<T: NumKey>(s: Seq<T>, x: T)
    ensures
        num_insert_index(s, x) <= s.len(),
    decreases s.len(),
{
    if s.len() > 0 && !(x.num_key() < s[0].num_key()) {
        lemma_num_insert_index_bound(s.drop_first(), x);
    }
}

proof fn lemma_num_sorted_len<T: NumKey>(s: Seq<T>)
    ensures
        num_sorted(s).len() == s.len(),
    decreases s.len(),
{
    if s.len() > 0 {
        lemma_num_sorted_len(s.drop_last());
        lemma_num_insert_index_bound(num_sorted(s.drop_last()), s.last());
    }
}

fn find_num_insert_index<T: NumKey>(s: &Vec<T>, x: &T) -> (k: usize)
    ensures
        k == num_insert_index(s@, *x),
        k <= s.len(),
{
    let mut j: usize = 0;
    assert(s@.skip(0) =~= s@);
    let xk = x.key_num();
    while j < s.len()
        invariant
            j <= s.len(),
            xk == x.num_key(),
            num_insert_index(s@, *x) == j + num_insert_index(s@.skip(j as int), *x),
        decreases s.len() - j,
    {
        let ghost rest = s@.skip(j as int);
        assert(rest[0] == s@[j as int]);
        if xk < s[j].key_num() {
            return j;
        }
        assert(rest.drop_first() =~= s@.skip(j + 1));
        j = j + 1;
    }
    assert(s@.skip(j as int).len() == 0);
    j
}

/// Sorts by number, keeping the order of equal numbers.
pub fn sort_by_num<T: NumKey>(v: Vec<T>) -> (r: Vec<T>)
    ensures
        r@ == num_sorted(v@),
{
    let ghost orig = v@;
    let mut rest = v;
    let mut out: Vec<T> = Vec::new();
    let mut i: usize = 0;
    let n = rest.len();
    while rest.len() > 0
        invariant
            i + rest.len() == n,
            n == orig.len(),
            rest@ == orig.skip(i as int),
            out@ == num_sorted(orig.take(i as int)),
        decreases rest.len(),
    {
        let x = rest.remove(0);
        assert(orig.take(i + 1).drop_last() =~= orig.take(i as int));
        assert(orig.take(i + 1).last() == x);
        proof {
            lemma_num_sorted_len(orig.take(i as int));
            lemma_num_insert_index_bound(out@, x);
        }
        let k = find_num_insert_index(&out, &x);
        out.insert(k, x);
        assert(rest@ =~= orig.skip(i + 1));
        i = i + 1;
    }
    assert(orig.take(n as int) =~= orig);
    out
}

} // verus!
