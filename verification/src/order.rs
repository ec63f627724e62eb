//! Selecting and ordering rows, as the store's reads do: keep the rows that
//! match, in table order, then sort them stably (rows that tie keep table order).

use vstd::prelude::*;

verus! {

/// The rows of `rows` that satisfy `pred`, in order.
pub open spec fn keep<T>(rows: Seq<T>, pred: spec_fn(T) -> bool) -> Seq<T>
    decreases rows.len(),
{
    if rows.len() == 0 {
        Seq::empty()
    } else if pred(rows.last()) {
        keep(rows.drop_last(), pred).push(rows.last())
    } else {
        keep(rows.drop_last(), pred)
    }
}

/// `x` placed into `sorted` before the first row it precedes (after every row it
/// does not precede).
pub open spec fn insert_ranked<T>(sorted: Seq<T>, x: T, lt: spec_fn(T, T) -> bool) -> Seq<T>
    decreases sorted.len(),
{
    if sorted.len() == 0 {
        seq![x]
    } else if lt(x, sorted[0]) {
        seq![x] + sorted
    } else {
        seq![sorted[0]] + insert_ranked(sorted.drop_first(), x, lt)
    }
}

/// `rows` sorted by `lt`, stably: each row, in table order, is placed before the
/// first already placed row that it precedes.
pub open spec fn stable_sort<T>(rows: Seq<T>, lt: spec_fn(T, T) -> bool) -> Seq<T>
    decreases rows.len(),
{
    if rows.len() == 0 {
        Seq::empty()
    } else {
        insert_ranked(stable_sort(rows.drop_last(), lt), rows.last(), lt)
    }
}

/// An order on rows of type `T`, as a strict "comes before".
pub trait RowOrder<T> {
    spec fn before(a: T, b: T) -> bool;

    fn precedes(a: &T, b: &T) -> (r: bool)
        ensures
            r == Self::before(*a, *b);
}

/// The order `O` as a spec closure.
pub open spec fn order_of<T, O: RowOrder<T>>() -> spec_fn(T, T) -> bool {
    |a: T, b: T| O::before(a, b)
}

proof fn lemma_insert_ranked_at<T>(sorted: Seq<T>, x: T, lt: spec_fn(T, T) -> bool, j: int)
    requires
        0 <= j <= sorted.len(),
        forall|k: int| 0 <= k < j ==> !lt(x, sorted[k]),
        j < sorted.len() ==> lt(x, sorted[j]),
    ensures
        insert_ranked(sorted, x, lt) == sorted.insert(j, x),
    decreases sorted.len(),
{
    if sorted.len() == 0 {
        assert(sorted.insert(j, x) =~= seq![x]);
    } else if j == 0 {
        assert(sorted.insert(0, x) =~= seq![x] + sorted);
    } else {
        assert(!lt(x, sorted[0]));
        let rest = sorted.drop_first();
        assert forall|k: int| 0 <= k < j - 1 implies !lt(x, rest[k]) by {
            assert(rest[k] == sorted[k + 1]);
        }
        if j < sorted.len() {
            assert(rest[j - 1] == sorted[j]);
        }
        lemma_insert_ranked_at(rest, x, lt, j - 1);
        assert(seq![sorted[0]] + rest.insert(j - 1, x) =~= sorted.insert(j, x));
    }
}

/// The rows of `rows` that `pred` keeps, in order.
pub fn keep_rows<T, P: RowFilter<T>>(rows: &Vec<T>, p: &P) -> (out: Vec<T>)
    where
        T: crate::store::KeyedRow,
    ensures
        out@ == keep(rows@, |r: T| p.keeps(r)),
{
    let mut out: Vec<T> = Vec::new();
    let mut i: usize = 0;
    while i < rows.len()
        invariant
            i <= rows@.len(),
            out@ == keep(rows@.take(i as int), |r: T| p.keeps(r)),
        decreases rows@.len() - i,
    {
        assert(rows@.take(i + 1).drop_last() =~= rows@.take(i as int));
        if p.matches(&rows[i]) {
            out.push(rows[i].copy_row());
        }
        i = i + 1;
    }
    assert(rows@.take(rows@.len() as int) =~= rows@);
    out
}

/// A condition that selects rows of type `T`.
pub trait RowFilter<T> {
    spec fn keeps(&self, r: T) -> bool;

    fn matches(&self, r: &T) -> (b: bool)
        ensures
            b == self.keeps(*r);
}

/// `rows` sorted stably by the order `O`.
pub fn sort_rows<T, O: RowOrder<T>>(rows: Vec<T>) -> (out: Vec<T>)
    ensures
        out@ == stable_sort(rows@, order_of::<T, O>()),
{
    let ghost lt = order_of::<T, O>();
    let mut out: Vec<T> = Vec::new();
    let mut rest = rows;
    let ghost given = rest@;
    // Consume from the back; remember them to place in table order.
    let mut pending: Vec<T> = Vec::new();
    while rest.len() > 0
        invariant
            pending@.len() + rest@.len() == given.len(),
            rest@ == given.take(rest@.len() as int),
            forall|k: int| 0 <= k < pending@.len() ==> pending@[k] == given[given.len() - 1 - k],
        decreases rest@.len(),
    {
        let x = rest.pop().unwrap();
        pending.push(x);
        assert(rest@ =~= given.take(rest@.len() as int));
    }
    let n = pending.len();
    let mut placed: usize = 0;
    while pending.len() > 0
        invariant
            n == given.len(),
            placed + pending@.len() == n,
            forall|k: int| 0 <= k < pending@.len() ==> pending@[k] == given[n - 1 - k],
            out@ == stable_sort(given.take(placed as int), lt),
            lt == order_of::<T, O>(),
        decreases pending@.len(),
    {
        let x = pending.pop().unwrap();
        assert(x == given[placed as int]);
        let mut j: usize = 0;
        let mut found = false;
        while j < out.len() && !found
            invariant
                lt == order_of::<T, O>(),
                j <= out@.len(),
                forall|k: int| 0 <= k < j ==> !lt(x, out@[k]),
                found ==> j < out@.len() && lt(x, out@[j as int]),
            decreases out@.len() - j, if found { 0int } else { 1int },
        {
            if O::precedes(&x, &out[j]) {
                found = true;
            } else {
                j = j + 1;
            }
        }
        proof {
            lemma_insert_ranked_at(out@, x, lt, j as int);
            assert(given.take(placed + 1).drop_last() =~= given.take(placed as int));
            assert(given.take(placed + 1).last() == x);
        }
        out.insert(j, x);
        placed = placed + 1;
    }
    assert(given.take(n as int) =~= given);
    out
}

/// `lt` is a strict order: asymmetric and transitive.
pub open spec fn strict_order<T>(lt: spec_fn(T, T) -> bool) -> bool {
    &&& forall|a: T, b: T| #[trigger] lt(a, b) ==> !lt(b, a)
    &&& forall|a: T, b: T, c: T| #[trigger] lt(a, b) && #[trigger] lt(b, c) ==> lt(a, c)
}

/// No row of `s` strictly precedes a row before it.
pub open spec fn ordered_by<T>(s: Seq<T>, lt: spec_fn(T, T) -> bool) -> bool {
    forall|i: int, j: int| 0 <= i < j < s.len() ==> !lt(#[trigger] s[j], #[trigger] s[i])
}

/// Where `insert_ranked` places `x`: before the first row it precedes.
proof fn lemma_insert_ranked_index<T>(sorted: Seq<T>, x: T, lt: spec_fn(T, T) -> bool) -> (p: int)
    ensures
        0 <= p <= sorted.len(),
        insert_ranked(sorted, x, lt) == sorted.insert(p, x),
        forall|k: int| 0 <= k < p ==> !lt(x, sorted[k]),
        p < sorted.len() ==> lt(x, sorted[p]),
    decreases sorted.len(),
{
    if sorted.len() == 0 || lt(x, sorted[0]) {
        lemma_insert_ranked_at(sorted, x, lt, 0);
        0
    } else {
        let rest = sorted.drop_first();
        let q = lemma_insert_ranked_index(rest, x, lt);
        assert forall|k: int| 0 <= k < q + 1 implies !lt(x, sorted[k]) by {
            if k > 0 {
                assert(sorted[k] == rest[k - 1]);
            }
        }
        if q < rest.len() {
            assert(sorted[q + 1] == rest[q]);
        }
        lemma_insert_ranked_at(sorted, x, lt, q + 1);
        q + 1
    }
}

/// The rows `keep` selects are exactly the rows of `rows` that satisfy `pred`.
pub proof fn lemma_keep_contains<T>(rows: Seq<T>, pred: spec_fn(T) -> bool, x: T)
    ensures
        keep(rows, pred).contains(x) <==> rows.contains(x) && pred(x),
    decreases rows.len(),
{
    if rows.len() > 0 {
        let init = rows.drop_last();
        lemma_keep_contains(init, pred, x);
        assert(rows =~= init.push(rows.last()));
        if rows.contains(x) && x != rows.last() {
            let i = choose|i: int| 0 <= i < rows.len() && rows[i] == x;
            assert(init[i] == x);
        }
        if init.contains(x) {
            let i = choose|i: int| 0 <= i < init.len() && init[i] == x;
            assert(rows[i] == x);
        }
        if pred(rows.last()) {
            let k = keep(init, pred);
            if k.push(rows.last()).contains(x) && x != rows.last() {
                let i = choose|i: int| 0 <= i < k.push(rows.last()).len() && k.push(rows.last())[i] == x;
                assert(k[i] == x);
            }
            if k.contains(x) {
                let i = choose|i: int| 0 <= i < k.len() && k[i] == x;
                assert(k.push(rows.last())[i] == x);
            }
            assert(k.push(rows.last())[k.len() as int] == rows.last());
        }
        assert(rows[rows.len() - 1] == rows.last());
    }
}

/// Sorting by a strict order gives the same rows, as often as before, with no
/// row strictly preceding a row before it.
pub proof fn lemma_stable_sort<T>(rows: Seq<T>, lt: spec_fn(T, T) -> bool)
    requires
        strict_order(lt),
    ensures
        ordered_by(stable_sort(rows, lt), lt),
        stable_sort(rows, lt).to_multiset() == rows.to_multiset(),
    decreases rows.len(),
{
    broadcast use vstd::seq_lib::group_to_multiset_ensures;
    if rows.len() > 0 {
        let init = rows.drop_last();
        let x = rows.last();
        lemma_stable_sort(init, lt);
        let prev = stable_sort(init, lt);
        let p = lemma_insert_ranked_index(prev, x, lt);
        let out = prev.insert(p, x);
        assert forall|i: int, j: int| 0 <= i < j < out.len() implies !lt(#[trigger] out[j], #[trigger] out[i]) by {
            if j < p {
                assert(out[i] == prev[i] && out[j] == prev[j]);
            } else if j == p {
                assert(out[i] == prev[i] && out[j] == x);
            } else if i < p {
                assert(out[i] == prev[i] && out[j] == prev[j - 1]);
            } else if i == p {
                assert(out[i] == x && out[j] == prev[j - 1]);
                if j - 1 > p {
                    assert(!lt(prev[j - 1], prev[p]));
                }
            } else {
                assert(out[i] == prev[i - 1] && out[j] == prev[j - 1]);
            }
        }
        assert(rows =~= init.push(x));
        assert(out.remove(p) =~= prev);
        assert(out[p] == x);
        assert(out.to_multiset() =~= prev.to_multiset().insert(x)) by {
            assert(out.remove(p).to_multiset() == out.to_multiset().remove(x));
            assert(out.contains(x));
        }
    }
}

/// A stable sort of the rows `pred` selects holds exactly those rows, as often as
/// the table does, with no row strictly preceding a row before it.
pub proof fn lemma_sorted_selection<T>(rows: Seq<T>, pred: spec_fn(T) -> bool, lt: spec_fn(T, T) -> bool)
    requires
        strict_order(lt),
    ensures
        stable_sort(keep(rows, pred), lt).to_multiset() == keep(rows, pred).to_multiset(),
        forall|x: T| stable_sort(keep(rows, pred), lt).contains(x) <==> rows.contains(x) && pred(x),
        ordered_by(stable_sort(keep(rows, pred), lt), lt),
{
    broadcast use vstd::seq_lib::group_to_multiset_ensures;
    lemma_stable_sort(keep(rows, pred), lt);
    assert forall|x: T| stable_sort(keep(rows, pred), lt).contains(x) <==> rows.contains(x) && pred(x) by {
        lemma_keep_contains(rows, pred, x);
        assert(stable_sort(keep(rows, pred), lt).to_multiset().count(x) == keep(rows, pred).to_multiset().count(x));
    }
}

} // verus!
