//! Queries over the rows of a table.
//!
//! A table is a sequence of rows. A query is a predicate on rows: what it
//! selects is the table filtered by it, in the table's order. The lemmas say
//! how the selection changes when a row is added, removed or replaced.

use vstd::prelude::*;

verus! {

/// The views of the rows of a table.
pub open spec fn views<T: View>(rows: Seq<T>) -> Seq<T::V> {
    rows.map_values(|r: T| r@)
}

/// Whether the query selects a row.
pub open spec fn any_row<T>(s: Seq<T>, p: spec_fn(T) -> bool) -> bool {
    s.filter(p).len() > 0
}

/// The first row that the query selects.
pub open spec fn first_row<T>(s: Seq<T>, p: spec_fn(T) -> bool) -> T {
    s.filter(p)[0]
}

/// The query that selects what `p` does not.
pub open spec fn rows_except<T>(p: spec_fn(T) -> bool) -> spec_fn(T) -> bool {
    |r: T| !p(r)
}

/// The change that applies `f` to the rows that `p` selects and keeps the
/// others.
pub open spec fn rows_replaced<T>(p: spec_fn(T) -> bool, f: spec_fn(T) -> T) -> spec_fn(T) -> T {
    |r: T|
        if p(r) {
            f(r)
        } else {
            r
        }
}

/// The views of a table with one more row.
pub proof fn lemma_views_push<T: View>(rows: Seq<T>, row: T)
    ensures
        views(rows.push(row)) == views(rows).push(row@),
{
}

/// The views of a table without one of its rows.
pub proof fn lemma_views_remove<T: View>(rows: Seq<T>, i: int)
    requires
        0 <= i < rows.len(),
    ensures
        views(rows.remove(i)) == views(rows).remove(i),
{
}

/// The views of a table with one row replaced.
pub proof fn lemma_views_update<T: View>(rows: Seq<T>, i: int, row: T)
    requires
        0 <= i < rows.len(),
    ensures
        views(rows.update(i, row)) == views(rows).update(i, row@),
{
}

/// A row that is added is selected if the query holds of it.
pub proof fn lemma_filter_push<T>(s: Seq<T>, p: spec_fn(T) -> bool, x: T)
    ensures
        s.push(x).filter(p) == if p(x) {
            s.filter(p).push(x)
        } else {
            s.filter(p)
        },
{
    reveal(Seq::filter);
    assert(s.push(x).drop_last() =~= s);
}

/// What a query selects from one more row of a table, taken from the
/// front.
pub proof fn lemma_filter_step<T>(s: Seq<T>, p: spec_fn(T) -> bool, i: int)
    requires
        0 <= i < s.len(),
    ensures
        s.take(i + 1).filter(p) == if p(s[i]) {
            s.take(i).filter(p).push(s[i])
        } else {
            s.take(i).filter(p)
        },
{
    assert(s.take(i + 1) =~= s.take(i).push(s[i]));
    lemma_filter_push(s.take(i), p, s[i]);
}

/// A query that holds of every row selects the table.
pub proof fn lemma_filter_all<T>(s: Seq<T>, p: spec_fn(T) -> bool)
    requires
        forall|i: int| 0 <= i < s.len() ==> p(#[trigger] s[i]),
    ensures
        s.filter(p) == s,
    decreases s.len(),
{
    reveal(Seq::filter);
    if s.len() > 0 {
        lemma_filter_all(s.drop_last(), p);
    }
}

/// A query that holds of no row selects nothing.
pub proof fn lemma_filter_none<T>(s: Seq<T>, p: spec_fn(T) -> bool)
    requires
        forall|i: int| 0 <= i < s.len() ==> !p(#[trigger] s[i]),
    ensures
        s.filter(p) == Seq::<T>::empty(),
    decreases s.len(),
{
    reveal(Seq::filter);
    if s.len() > 0 {
        lemma_filter_none(s.drop_last(), p);
    }
}

/// A query selects a row exactly if some row of the table satisfies it.
pub proof fn lemma_any_row<T>(s: Seq<T>, p: spec_fn(T) -> bool)
    ensures
        any_row(s, p) <==> exists|i: int| 0 <= i < s.len() && p(#[trigger] s[i]),
{
    if exists|i: int| 0 <= i < s.len() && p(#[trigger] s[i]) {
        let i = choose|i: int| 0 <= i < s.len() && p(#[trigger] s[i]);
        s.lemma_filter_contains(p, i);
    } else {
        lemma_filter_none(s, p);
    }
}

/// The first selected row is the first row of the table that satisfies the
/// query.
pub proof fn lemma_first_row<T>(s: Seq<T>, p: spec_fn(T) -> bool, i: int)
    requires
        0 <= i < s.len(),
        p(s[i]),
        forall|j: int| 0 <= j < i ==> !p(#[trigger] s[j]),
    ensures
        any_row(s, p),
        first_row(s, p) == s[i],
{
    let a = s.take(i);
    let c = seq![s[i]];
    let d = s.skip(i + 1);
    assert(s =~= a + (c + d));
    Seq::filter_distributes_over_add(a, c + d, p);
    Seq::filter_distributes_over_add(c, d, p);
    lemma_filter_none(a, p);
    lemma_filter_all(c, p);
}

/// Where the query selects one row only, the rest of the table is the table
/// without that row.
pub proof fn lemma_remove_only<T>(s: Seq<T>, p: spec_fn(T) -> bool, i: int)
    requires
        0 <= i < s.len(),
        p(s[i]),
        forall|j: int| 0 <= j < s.len() && j != i ==> !p(#[trigger] s[j]),
    ensures
        s.filter(rows_except(p)) == s.remove(i),
{
    let q = rows_except(p);
    let a = s.take(i);
    let c = seq![s[i]];
    let d = s.skip(i + 1);
    assert(s =~= a + (c + d));
    Seq::filter_distributes_over_add(a, c + d, q);
    Seq::filter_distributes_over_add(c, d, q);
    assert forall|j: int| 0 <= j < a.len() implies q(#[trigger] a[j]) by {}
    assert forall|j: int| 0 <= j < d.len() implies q(#[trigger] d[j]) by {}
    lemma_filter_all(a, q);
    lemma_filter_none(c, q);
    lemma_filter_all(d, q);
}

/// Removing a row that a query does not select leaves its selection as it
/// was.
pub proof fn lemma_remove_other<T>(s: Seq<T>, q: spec_fn(T) -> bool, i: int)
    requires
        0 <= i < s.len(),
        !q(s[i]),
    ensures
        s.remove(i).filter(q) == s.filter(q),
{
    let a = s.take(i);
    let c = seq![s[i]];
    let d = s.skip(i + 1);
    assert(s =~= a + (c + d));
    Seq::filter_distributes_over_add(a, c + d, q);
    Seq::filter_distributes_over_add(c, d, q);
    Seq::filter_distributes_over_add(a, d, q);
    lemma_filter_none(c, q);
}

/// Replacing a row by one that a query treats alike does not change whether
/// the query selects a row.
pub proof fn lemma_update_any<T>(s: Seq<T>, q: spec_fn(T) -> bool, i: int, v: T)
    requires
        0 <= i < s.len(),
        q(v) == q(s[i]),
    ensures
        any_row(s.update(i, v), q) == any_row(s, q),
{
    let t = s.update(i, v);
    lemma_any_row(s, q);
    lemma_any_row(t, q);
    if exists|j: int| 0 <= j < s.len() && q(#[trigger] s[j]) {
        let j = choose|j: int| 0 <= j < s.len() && q(#[trigger] s[j]);
        assert(q(t[j]));
    }
}

/// A query that selects only rows that another query keeps selects from what
/// that query keeps as it does from the table.
pub proof fn lemma_filter_within<T>(s: Seq<T>, keep: spec_fn(T) -> bool, q: spec_fn(T) -> bool)
    requires
        forall|r: T| #[trigger] q(r) ==> keep(r),
    ensures
        s.filter(keep).filter(q) == s.filter(q),
    decreases s.len(),
{
    reveal(Seq::filter);
    if s.len() > 0 {
        let init = s.drop_last();
        lemma_filter_within(init, keep, q);
        if keep(s.last()) {
            lemma_filter_push(init.filter(keep), q, s.last());
        }
    }
}

/// Selecting by one query and then by another is selecting by both.
pub proof fn lemma_filter_both<T>(
    s: Seq<T>,
    p: spec_fn(T) -> bool,
    q: spec_fn(T) -> bool,
    both: spec_fn(T) -> bool,
)
    requires
        forall|r: T| #[trigger] both(r) == (p(r) && q(r)),
    ensures
        s.filter(p).filter(q) == s.filter(both),
    decreases s.len(),
{
    reveal(Seq::filter);
    if s.len() > 0 {
        let init = s.drop_last();
        lemma_filter_both(init, p, q, both);
        if p(s.last()) {
            lemma_filter_push(init.filter(p), q, s.last());
        }
    }
}

/// Taking out rows that a query does not select leaves its selection as it
/// was.
pub proof fn lemma_filter_except<T>(s: Seq<T>, p: spec_fn(T) -> bool, q: spec_fn(T) -> bool)
    requires
        forall|r: T| #[trigger] q(r) ==> !p(r),
    ensures
        s.filter(rows_except(p)).filter(q) == s.filter(q),
{
    lemma_filter_within(s, rows_except(p), q);
}

/// Changing rows in a way that a query cannot tell, and that keeps the rows
/// it selects, leaves its selection as it was.
pub proof fn lemma_filter_replaced<T>(s: Seq<T>, f: spec_fn(T) -> T, q: spec_fn(T) -> bool)
    requires
        forall|r: T| q(#[trigger] f(r)) == q(r),
        forall|r: T| #[trigger] q(r) ==> f(r) == r,
    ensures
        s.map_values(f).filter(q) == s.filter(q),
    decreases s.len(),
{
    reveal(Seq::filter);
    if s.len() > 0 {
        let init = s.drop_last();
        lemma_filter_replaced(init, f, q);
        assert(s.map_values(f).drop_last() =~= init.map_values(f));
    }
}

/// A change that a query cannot tell may be made before the selection or
/// after it.
pub proof fn lemma_filter_changed<T>(s: Seq<T>, f: spec_fn(T) -> T, q: spec_fn(T) -> bool)
    requires
        forall|r: T| q(#[trigger] f(r)) == q(r),
    ensures
        s.map_values(f).filter(q) == s.filter(q).map_values(f),
    decreases s.len(),
{
    reveal(Seq::filter);
    if s.len() > 0 {
        let init = s.drop_last();
        lemma_filter_changed(init, f, q);
        assert(s.map_values(f).drop_last() =~= init.map_values(f));
    }
}

/// From the rows that a query does not select, the query selects none.
pub proof fn lemma_filter_disjoint<T>(s: Seq<T>, p: spec_fn(T) -> bool)
    ensures
        s.filter(rows_except(p)).filter(p) == Seq::<T>::empty(),
{
    let rest = s.filter(rows_except(p));
    assert forall|i: int| 0 <= i < rest.len() implies !p(#[trigger] rest[i]) by {
        s.lemma_filter_pred(rows_except(p), i);
    }
    lemma_filter_none(rest, p);
}

/// Rows that differ in a number still differ in it where a query has
/// selected them.
pub proof fn lemma_filter_distinct<T>(s: Seq<T>, q: spec_fn(T) -> bool, key: spec_fn(T) -> i64)
    requires
        forall|i: int, j: int| 0 <= i < j < s.len() ==> key(#[trigger] s[i]) != key(#[trigger] s[j]),
    ensures
        forall|i: int, j: int|
            0 <= i < j < s.filter(q).len() ==> key(#[trigger] s.filter(q)[i]) != key(
                #[trigger] s.filter(q)[j],
            ),
    decreases s.len(),
{
    reveal(Seq::filter);
    if s.len() > 0 {
        let init = s.drop_last();
        lemma_filter_distinct(init, q, key);
        let f = init.filter(q);
        if q(s.last()) {
            assert forall|i: int| 0 <= i < f.len() implies key(#[trigger] f[i]) != key(
                s.last(),
            ) by {
                assert(f.contains(f[i]));
                init.lemma_filter_contains_rev(q, f[i]);
                let k = choose|k: int| 0 <= k < init.len() && init[k] == f[i];
                assert(s[k] == init[k]);
            }
        }
    }
}

/// Replacing one row is applying a change that alters that row only.
pub proof fn lemma_update_replaced<T>(s: Seq<T>, f: spec_fn(T) -> T, i: int)
    requires
        0 <= i < s.len(),
        forall|j: int| 0 <= j < s.len() && j != i ==> f(#[trigger] s[j]) == s[j],
    ensures
        s.update(i, f(s[i])) == s.map_values(f),
{
}

} // verus!
