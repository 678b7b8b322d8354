//! The stable sort of catalog records by one of four keys, ascending or
//! descending, and what holds of it.

use crate::models::DAG;
use crate::text::{
    lemma_text_lt_asymmetric, lemma_text_lt_connected, lemma_text_lt_transitive, text_less,
    text_lt,
};
use vstd::prelude::*;

verus! {

/// The field by which records are sorted.
#[derive(Debug, Clone, Copy, PartialEq, Eq, Structural)]
pub enum SortField {
    /// The workflow identifier, in lexicographic order.
    DagId,
    /// The owner, in lexicographic order.
    Owner,
    /// The instant of the last run; a record without one comes first.
    LastRun,
    /// The instant of the next run; a record without one comes first.
    NextRun,
}

/// The order of optional instants: none before any instant, and instants
/// by their value.
pub open spec fn instant_key_lt(a: Option<i64>, b: Option<i64>) -> bool {
    match (a, b) {
        (None, Some(_)) => true,
        (Some(x), Some(y)) => x < y,
        _ => false,
    }
}

/// Whether the key of `a` is strictly less than the key of `b`.
pub open spec fn key_lt(a: DAG, b: DAG, field: SortField) -> bool {
    match field {
        SortField::DagId => text_lt(a.dag_id@, b.dag_id@),
        SortField::Owner => text_lt(a.owner@, b.owner@),
        SortField::LastRun => instant_key_lt(a.last_run, b.last_run),
        SortField::NextRun => instant_key_lt(a.next_run, b.next_run),
    }
}

/// Whether two records have the same key.
pub open spec fn same_key(a: DAG, b: DAG, field: SortField) -> bool {
    match field {
        SortField::DagId => a.dag_id@ == b.dag_id@,
        SortField::Owner => a.owner@ == b.owner@,
        SortField::LastRun => a.last_run == b.last_run,
        SortField::NextRun => a.next_run == b.next_run,
    }
}

/// Whether `a` must come before `b` in the requested direction: its key is
/// strictly less when ascending, strictly greater when descending.
pub open spec fn precedes(a: DAG, b: DAG, field: SortField, descending: bool) -> bool {
    if descending {
        key_lt(b, a, field)
    } else {
        key_lt(a, b, field)
    }
}

/// The keys of a field are totally ordered: of two records at most one has
/// the lesser key, the order is transitive, and two records of which
/// neither has the lesser key have the same key.
pub proof fn lemma_key_order(a: DAG, b: DAG, c: DAG, field: SortField)
    ensures
        key_lt(a, b, field) ==> !key_lt(b, a, field),
        key_lt(a, b, field) && key_lt(b, c, field) ==> key_lt(a, c, field),
        same_key(a, b, field) <==> !key_lt(a, b, field) && !key_lt(b, a, field),
{
    match field {
        SortField::DagId => {
            lemma_text_order(a.dag_id@, b.dag_id@, c.dag_id@);
        },
        SortField::Owner => {
            lemma_text_order(a.owner@, b.owner@, c.owner@);
        },
        SortField::LastRun => {},
        SortField::NextRun => {},
    }
}

proof fn lemma_text_order(a: Seq<char>, b: Seq<char>, c: Seq<char>)
    ensures
        text_lt(a, b) ==> !text_lt(b, a),
        text_lt(a, b) && text_lt(b, c) ==> text_lt(a, c),
        a == b <==> !text_lt(a, b) && !text_lt(b, a),
{
    if text_lt(a, b) {
        lemma_text_lt_asymmetric(a, b);
        if text_lt(b, c) {
            lemma_text_lt_transitive(a, b, c);
        }
    }
    if text_lt(b, a) {
        lemma_text_lt_asymmetric(b, a);
    }
    if !text_lt(a, b) && !text_lt(b, a) {
        lemma_text_lt_connected(a, b);
    }
}

/// In either direction the order of records is a strict weak order whose
/// ties are the records with the same key.
pub proof fn lemma_precedes_order(a: DAG, b: DAG, c: DAG, field: SortField, descending: bool)
    ensures
        precedes(a, b, field, descending) ==> !precedes(b, a, field, descending),
        precedes(a, b, field, descending) && precedes(b, c, field, descending) ==> precedes(
            a,
            c,
            field,
            descending,
        ),
        !precedes(a, b, field, descending) && !precedes(b, c, field, descending) ==> !precedes(
            a,
            c,
            field,
            descending,
        ),
        same_key(a, b, field) <==> !precedes(a, b, field, descending) && !precedes(
            b,
            a,
            field,
            descending,
        ),
{
    lemma_key_order(a, b, c, field);
    lemma_key_order(c, b, a, field);
    lemma_key_order(b, a, c, field);
    lemma_key_order(b, c, a, field);
    lemma_key_order(a, c, b, field);
    lemma_key_order(c, a, b, field);
}

/// The place at which `x` enters a sorted sequence: after the records at
/// its front that must come before `x`, and so before every record with the
/// same key.
pub open spec fn insert_point(sorted: Seq<DAG>, x: DAG, field: SortField, descending: bool) -> int
    decreases sorted.len(),
{
    if sorted.len() == 0 {
        0
    } else if precedes(sorted[0], x, field, descending) {
        1 + insert_point(sorted.drop_first(), x, field, descending)
    } else {
        0
    }
}

/// The records in the order of their keys, records with the same key in
/// the order in which they stand in `s`.
pub open spec fn stable_sorted(s: Seq<DAG>, field: SortField, descending: bool) -> Seq<DAG>
    decreases s.len(),
{
    if s.len() == 0 {
        s
    } else {
        let rest = stable_sorted(s.drop_first(), field, descending);
        rest.insert(insert_point(rest, s[0], field, descending), s[0])
    }
}

/// Whether no record of the sequence must come before an earlier one.
pub open spec fn ordered(s: Seq<DAG>, field: SortField, descending: bool) -> bool {
    forall|i: int, j: int|
        0 <= i < j < s.len() ==> !precedes(#[trigger] s[j], #[trigger] s[i], field, descending)
}

/// Whether no two records of the sequence have the same key.
pub open spec fn distinct_keys(s: Seq<DAG>, field: SortField) -> bool {
    forall|i: int, j: int|
        0 <= i < j < s.len() ==> !same_key(#[trigger] s[i], #[trigger] s[j], field)
}

/// The records with the same key as `z`.
pub open spec fn same_key_as(z: DAG, field: SortField) -> spec_fn(DAG) -> bool {
    |y: DAG| same_key(y, z, field)
}

/// The insert point lies in the sequence or at its end; every record before
/// it must come before `x`, and the record at it need not.
pub proof fn lemma_insert_point(t: Seq<DAG>, x: DAG, field: SortField, descending: bool)
    ensures
        0 <= insert_point(t, x, field, descending) <= t.len(),
        forall|k: int|
            0 <= k < insert_point(t, x, field, descending) ==> precedes(
                #[trigger] t[k],
                x,
                field,
                descending,
            ),
        insert_point(t, x, field, descending) < t.len() ==> !precedes(
            t[insert_point(t, x, field, descending)],
            x,
            field,
            descending,
        ),
    decreases t.len(),
{
    if t.len() > 0 && precedes(t[0], x, field, descending) {
        let rest = t.drop_first();
        lemma_insert_point(rest, x, field, descending);
        let p = insert_point(rest, x, field, descending);
        assert forall|k: int| 0 <= k < p + 1 implies precedes(
            #[trigger] t[k],
            x,
            field,
            descending,
        ) by {
            if k > 0 {
                assert(t[k] == rest[k - 1]);
            }
        }
        if p < rest.len() {
            assert(t[p + 1] == rest[p]);
        }
    }
}

/// The insert point is the only place with the two properties of
/// `lemma_insert_point`.
pub proof fn lemma_insert_point_unique(
    t: Seq<DAG>,
    x: DAG,
    field: SortField,
    descending: bool,
    p: int,
)
    requires
        0 <= p <= t.len(),
        forall|k: int| 0 <= k < p ==> precedes(#[trigger] t[k], x, field, descending),
        p < t.len() ==> !precedes(t[p], x, field, descending),
    ensures
        insert_point(t, x, field, descending) == p,
    decreases t.len(),
{
    if t.len() > 0 {
        if p == 0 {
        } else {
            assert(precedes(t[0], x, field, descending));
            let rest = t.drop_first();
            assert forall|k: int| 0 <= k < p - 1 implies precedes(
                #[trigger] rest[k],
                x,
                field,
                descending,
            ) by {
                assert(rest[k] == t[k + 1]);
            }
            if p - 1 < rest.len() {
                assert(rest[p - 1] == t[p]);
            }
            lemma_insert_point_unique(rest, x, field, descending, p - 1);
        }
    }
}

/// Sorting keeps the records: each record occurs in the result as often as
/// in the input.
pub proof fn sorted_is_permutation(s: Seq<DAG>, field: SortField, descending: bool)
    ensures
        stable_sorted(s, field, descending).len() == s.len(),
        stable_sorted(s, field, descending).to_multiset() == s.to_multiset(),
    decreases s.len(),
{
    broadcast use vstd::seq_lib::group_to_multiset_ensures;

    if s.len() > 0 {
        let x = s[0];
        let tail = s.drop_first();
        sorted_is_permutation(tail, field, descending);
        let rest = stable_sorted(tail, field, descending);
        lemma_insert_point(rest, x, field, descending);
        let p = insert_point(rest, x, field, descending);
        let out = rest.insert(p, x);
        assert(out.remove(p) =~= rest);
        assert(out[p] == x);
        assert(s.remove(0) =~= tail);
        vstd::seq_lib::to_multiset_remove(out, p);
        vstd::seq_lib::to_multiset_remove(s, 0);
        assert(out.contains(x));
        assert(s.contains(x));
        assert(out.to_multiset() =~= rest.to_multiset().insert(x));
        assert(s.to_multiset() =~= tail.to_multiset().insert(x));
    }
}

/// The result of sorting is in order: no record must come before an
/// earlier one.
pub proof fn sorted_is_ordered(s: Seq<DAG>, field: SortField, descending: bool)
    ensures
        ordered(stable_sorted(s, field, descending), field, descending),
    decreases s.len(),
{
    if s.len() > 0 {
        let x = s[0];
        sorted_is_ordered(s.drop_first(), field, descending);
        let rest = stable_sorted(s.drop_first(), field, descending);
        lemma_insert_point(rest, x, field, descending);
        let p = insert_point(rest, x, field, descending);
        let out = rest.insert(p, x);
        assert forall|i: int, j: int| 0 <= i < j < out.len() implies !precedes(
            #[trigger] out[j],
            #[trigger] out[i],
            field,
            descending,
        ) by {
            if j < p {
                assert(out[i] == rest[i] && out[j] == rest[j]);
            } else if j == p {
                assert(out[i] == rest[i]);
                lemma_precedes_order(rest[i], x, x, field, descending);
            } else if i == p {
                assert(out[j] == rest[j - 1]);
                if j - 1 > p {
                    assert(!precedes(rest[j - 1], rest[p], field, descending));
                }
                lemma_precedes_order(rest[j - 1], rest[p], x, field, descending);
            } else if i < p {
                assert(out[i] == rest[i] && out[j] == rest[j - 1]);
            } else {
                assert(out[i] == rest[i - 1] && out[j] == rest[j - 1]);
            }
        }
    }
}

/// Sorting is stable: the records with any one key stand in the result in
/// the order in which they stand in the input.
pub proof fn sort_is_stable(s: Seq<DAG>, field: SortField, descending: bool, z: DAG)
    ensures
        stable_sorted(s, field, descending).filter(same_key_as(z, field)) == s.filter(
            same_key_as(z, field),
        ),
    decreases s.len(),
{
    let q = same_key_as(z, field);
    if s.len() > 0 {
        let x = s[0];
        let tail = s.drop_first();
        sort_is_stable(tail, field, descending, z);
        let rest = stable_sorted(tail, field, descending);
        lemma_insert_point(rest, x, field, descending);
        let p = insert_point(rest, x, field, descending);
        let front = rest.subrange(0, p);
        let back = rest.subrange(p, rest.len() as int);
        let one = seq![x];
        assert(rest.insert(p, x) =~= front + one + back);
        assert(rest =~= front + back);
        assert(s =~= one + tail);
        Seq::filter_distributes_over_add(front + one, back, q);
        Seq::filter_distributes_over_add(front, one, q);
        Seq::filter_distributes_over_add(front, back, q);
        Seq::filter_distributes_over_add(one, tail, q);
        if q(x) {
            if front.filter(q).len() > 0 {
                let e = front.filter(q)[0];
                assert(front.filter(q).contains(e));
                front.lemma_filter_contains_rev(q, e);
                let k = choose|k: int| 0 <= k < front.len() && front[k] == e;
                assert(front[k] == rest[k]);
                lemma_precedes_order(e, x, z, field, descending);
                lemma_key_order(e, z, x, field);
                lemma_key_order(x, z, e, field);
                lemma_key_order(e, x, z, field);
            }
            assert(front.filter(q) =~= Seq::<DAG>::empty());
            assert(front.filter(q) + one.filter(q) + back.filter(q) =~= one.filter(q) + (
            front.filter(q) + back.filter(q)));
        } else {
            assert(one.filter(q) =~= Seq::<DAG>::empty()) by {
                reveal_with_fuel(Seq::filter, 2);
            }
            assert(front.filter(q) + one.filter(q) + back.filter(q) =~= one.filter(q) + (
            front.filter(q) + back.filter(q)));
        }
    }
}

/// Where no two records have the same key, the descending order is the
/// ascending order reversed.
pub proof fn descending_reverses_ascending(s: Seq<DAG>, field: SortField)
    requires
        distinct_keys(s, field),
    ensures
        stable_sorted(s, field, true) == stable_sorted(s, field, false).reverse(),
    decreases s.len(),
{
    if s.len() == 0 {
        assert(stable_sorted(s, field, false).reverse() =~= stable_sorted(s, field, true));
    } else {
        let x = s[0];
        let tail = s.drop_first();
        assert forall|i: int, j: int| 0 <= i < j < tail.len() implies !same_key(
            #[trigger] tail[i],
            #[trigger] tail[j],
            field,
        ) by {
            assert(tail[i] == s[i + 1] && tail[j] == s[j + 1]);
        }
        descending_reverses_ascending(tail, field);
        let up = stable_sorted(tail, field, false);
        let down = stable_sorted(tail, field, true);
        sorted_is_ordered(tail, field, false);
        sorted_is_permutation(tail, field, false);
        lemma_insert_point(up, x, field, false);
        let p = insert_point(up, x, field, false);
        let n = up.len() as int;
        assert forall|k: int| 0 <= k < n implies !same_key(#[trigger] up[k], x, field) by {
            broadcast use vstd::seq_lib::group_to_multiset_ensures;

            assert(up.contains(up[k]));
            assert(up.to_multiset().count(up[k]) > 0);
            assert(tail.contains(up[k]));
            let m = choose|m: int| 0 <= m < tail.len() && tail[m] == up[k];
            assert(tail[m] == s[m + 1]);
            assert(!same_key(s[0], s[m + 1], field));
            lemma_key_order(up[k], x, x, field);
            lemma_key_order(x, up[k], x, field);
        }
        assert(down.len() == n);
        assert forall|k: int| 0 <= k < n - p implies precedes(
            #[trigger] down[k],
            x,
            field,
            true,
        ) by {
            let m = n - 1 - k;
            assert(down[k] == up[m]);
            assert(!same_key(up[m], x, field));
            assert(!same_key(up[p], x, field));
            lemma_key_order(up[p], x, up[m], field);
            lemma_key_order(x, up[p], up[m], field);
            lemma_key_order(up[m], x, up[p], field);
            lemma_key_order(x, up[m], up[p], field);
            if m > p {
                assert(!precedes(up[m], up[p], field, false));
            }
        }
        if n - p < n {
            assert(down[n - p] == up[p - 1]);
            assert(precedes(up[p - 1], x, field, false));
            lemma_key_order(up[p - 1], x, x, field);
        }
        lemma_insert_point_unique(down, x, field, true, n - p);
        assert(down.insert(n - p, x) =~= up.insert(p, x).reverse());
    }
}

/// Whether the first record must come before the second in the requested
/// direction.
pub fn record_precedes(a: &DAG, b: &DAG, field: SortField, descending: bool) -> (r: bool)
    ensures
        r == precedes(*a, *b, field, descending),
{
    if descending {
        key_less(b, a, field)
    } else {
        key_less(a, b, field)
    }
}

fn instant_key_less(a: Option<i64>, b: Option<i64>) -> (r: bool)
    ensures
        r == instant_key_lt(a, b),
{
    match (a, b) {
        (None, Some(_)) => true,
        (Some(x), Some(y)) => x < y,
        _ => false,
    }
}

/// Whether the key of the first record is strictly less than the key of
/// the second.
pub fn key_less(a: &DAG, b: &DAG, field: SortField) -> (r: bool)
    ensures
        r == key_lt(*a, *b, field),
{
    match field {
        SortField::DagId => text_less(a.dag_id.as_str(), b.dag_id.as_str()),
        SortField::Owner => text_less(a.owner.as_str(), b.owner.as_str()),
        SortField::LastRun => instant_key_less(a.last_run, b.last_run),
        SortField::NextRun => instant_key_less(a.next_run, b.next_run),
    }
}

/// The place at which `x` enters the sorted records.
fn find_insert_point(sorted: &Vec<DAG>, x: &DAG, field: SortField, descending: bool) -> (p: usize)
    ensures
        p == insert_point(sorted@, *x, field, descending),
        p <= sorted@.len(),
{
    let mut p: usize = 0;
    assert(sorted@.subrange(0, sorted@.len() as int) =~= sorted@);
    while p < sorted.len() && record_precedes(&sorted[p], x, field, descending)
        invariant
            p <= sorted@.len(),
            insert_point(sorted@, *x, field, descending) == p + insert_point(
                sorted@.subrange(p as int, sorted@.len() as int),
                *x,
                field,
                descending,
            ),
        decreases sorted@.len() - p,
    {
        proof {
            let here = sorted@.subrange(p as int, sorted@.len() as int);
            assert(here[0] == sorted@[p as int]);
            assert(here.drop_first() =~= sorted@.subrange(p + 1, sorted@.len() as int));
        }
        p = p + 1;
    }
    proof {
        let here = sorted@.subrange(p as int, sorted@.len() as int);
        if p < sorted@.len() {
            assert(here[0] == sorted@[p as int]);
        }
    }
    p
}

/// Sorts the records by the key of `field`, ascending or descending.
/// The sort is stable: records with the same key keep their order.
pub fn sort_dags(dags: Vec<DAG>, field: SortField, descending: bool) -> (out: Vec<DAG>)
    ensures
        out@ == stable_sorted(dags@, field, descending),
        out@.len() == dags@.len(),
        out@.to_multiset() == dags@.to_multiset(),
        ordered(out@, field, descending),
{
    let ghost all = dags@;
    let mut input = dags;
    let mut out: Vec<DAG> = Vec::new();
    assert(all.subrange(all.len() as int, all.len() as int) =~= Seq::<DAG>::empty());
    assert(all.subrange(0, all.len() as int) =~= all);
    while input.len() > 0
        invariant
            input@.len() <= all.len(),
            input@ == all.subrange(0, input@.len() as int),
            out@ == stable_sorted(
                all.subrange(input@.len() as int, all.len() as int),
                field,
                descending,
            ),
        decreases input@.len(),
    {
        let ghost k = input@.len() as int;
        let x = input.pop().unwrap();
        let p = find_insert_point(&out, &x, field, descending);
        proof {
            let here = all.subrange(k - 1, all.len() as int);
            assert(x == all[k - 1]);
            assert(here[0] == x);
            assert(here.drop_first() =~= all.subrange(k, all.len() as int));
            assert(input@ =~= all.subrange(0, k - 1));
        }
        out.insert(p, x);
    }
    proof {
        assert(all.subrange(0, all.len() as int) =~= all);
        sorted_is_permutation(all, field, descending);
        sorted_is_ordered(all, field, descending);
    }
    out
}

} // verus!
