//! Overlapping pairs among intervals, and the merging of intervals into a minimal set of
//! non-overlapping, non-adjacent spans.
use crate::laws::law_merged_spans_hold_the_same_addresses;
use crate::model::{spans_overlap, Interval};
use vstd::prelude::*;

verus! {

// ---------------------------------------------------------------------------------------
// Overlapping pairs.
// ---------------------------------------------------------------------------------------
/// Pairs `(s[i], s[j])` with `i < j < m` whose intervals overlap, in increasing `j`.
pub open spec fn overlap_row<'b, T: Interval>(s: Seq<&'b T>, i: int, m: int) -> Seq<(&'b T, &'b T)>
    decreases m - i,
{
    if m <= i + 1 {
        seq![]
    } else {
        overlap_row(s, i, m - 1) + (if spans_overlap(
            s[i].lo(),
            s[i].hi(),
            s[m - 1].lo(),
            s[m - 1].hi(),
        ) {
            seq![(s[i], s[m - 1])]
        } else {
            seq![]
        })
    }
}

/// Overlapping pairs whose first element has an index below `n`, by first index, then by
/// second index.
pub open spec fn overlap_rows<'b, T: Interval>(s: Seq<&'b T>, n: int) -> Seq<(&'b T, &'b T)>
    decreases n,
{
    if n <= 0 {
        seq![]
    } else {
        overlap_rows(s, n - 1) + overlap_row(s, n - 1, s.len() as int)
    }
}

/// All pairs `(s[i], s[j])` with `i < j` whose intervals overlap, ordered by `i`, then `j`.
pub open spec fn overlapping_pairs<'b, T: Interval>(s: Seq<&'b T>) -> Seq<(&'b T, &'b T)> {
    overlap_rows(s, s.len() as int)
}

/// Every interval of `s` ends inside the 64-bit address space.
pub open spec fn all_fit<'b, T: Interval>(s: Seq<&'b T>) -> bool {
    forall|k: int| 0 <= k < s.len() ==> #[trigger] s[k].hi() <= u64::MAX
}

/// Each pair of intervals of the list that overlap, in list order.
pub fn check_hob_overlap<'b, T: Interval>(resource_list: &Vec<&'b T>) -> (r: Vec<(&'b T, &'b T)>)
    requires
        all_fit(resource_list@),
    ensures
        r@ == overlapping_pairs(resource_list@),
{
    let mut pairs: Vec<(&'b T, &'b T)> = Vec::new();
    let n = resource_list.len();
    let mut i: usize = 0;
    while i < n
        invariant
            n == resource_list@.len(),
            i <= n,
            all_fit(resource_list@),
            pairs@ == overlap_rows(resource_list@, i as int),
        decreases n - i,
    {
        let mut j: usize = i + 1;
        while j < n
            invariant
                n == resource_list@.len(),
                i < n,
                i + 1 <= j <= n,
                all_fit(resource_list@),
                pairs@ == overlap_rows(resource_list@, i as int) + overlap_row(
                    resource_list@,
                    i as int,
                    j as int,
                ),
            decreases n - j,
        {
            let a: &'b T = resource_list[i];
            let b: &'b T = resource_list[j];
            assert(a.hi() <= u64::MAX && b.hi() <= u64::MAX);
            if crate::model::overlaps(a, b) {
                pairs.push((a, b));
            }
            assert(overlap_row(resource_list@, i as int, j + 1) == overlap_row(
                resource_list@,
                i as int,
                j as int,
            ) + (if spans_overlap(a.lo(), a.hi(), b.lo(), b.hi()) {
                seq![(a, b)]
            } else {
                seq![]
            }));
            j += 1;
        }
        i += 1;
    }
    pairs
}

// ---------------------------------------------------------------------------------------
// Sorting spans.
// ---------------------------------------------------------------------------------------
/// Spans `(lo, hi)` ordered by `lo`, then by `hi`.
pub open spec fn span_le(a: (u64, u64), b: (u64, u64)) -> bool {
    a.0 < b.0 || (a.0 == b.0 && a.1 <= b.1)
}

/// `x` inserted into `s` behind the last element that is not greater than it.
pub open spec fn insert_span(s: Seq<(u64, u64)>, x: (u64, u64)) -> Seq<(u64, u64)>
    decreases s.len(),
{
    if s.len() == 0 {
        seq![x]
    } else if span_le(s.last(), x) {
        s.push(x)
    } else {
        insert_span(s.drop_last(), x).push(s.last())
    }
}

/// `s` sorted by `span_le` (stable insertion order).
pub open spec fn sort_spans(s: Seq<(u64, u64)>) -> Seq<(u64, u64)>
    decreases s.len(),
{
    if s.len() == 0 {
        seq![]
    } else {
        insert_span(sort_spans(s.drop_last()), s.last())
    }
}

/// `s` is ordered by `span_le`.
pub open spec fn spans_sorted(s: Seq<(u64, u64)>) -> bool {
    forall|i: int, j: int| 0 <= i < j < s.len() ==> span_le(#[trigger] s[i], #[trigger] s[j])
}

proof fn lemma_insert_at(s: Seq<(u64, u64)>, x: (u64, u64), k: int)
    requires
        0 <= k <= s.len(),
        k == 0 || span_le(s[k - 1], x),
        forall|j: int| k <= j < s.len() ==> !span_le(#[trigger] s[j], x),
    ensures
        insert_span(s, x) == s.take(k) + seq![x] + s.skip(k),
    decreases s.len(),
{
    if s.len() == 0 {
        assert(s.take(k) + seq![x] + s.skip(k) =~= seq![x]);
    } else if k == s.len() {
        assert(s.take(k) + seq![x] + s.skip(k) =~= s.push(x));
    } else {
        assert(!span_le(s.last(), x));
        lemma_insert_at(s.drop_last(), x, k);
        assert(s.drop_last().take(k) + seq![x] + s.drop_last().skip(k) + seq![s.last()] =~= s.take(k)
            + seq![x] + s.skip(k));
    }
}

/// The insertion into a sorted sequence keeps it sorted and adds exactly `x`.
pub proof fn lemma_insert_span_sorted(s: Seq<(u64, u64)>, x: (u64, u64))
    requires
        spans_sorted(s),
    ensures
        spans_sorted(insert_span(s, x)),
        insert_span(s, x).to_multiset() == s.to_multiset().insert(x),
    decreases s.len(),
{
    broadcast use vstd::seq_lib::group_to_multiset_ensures;

    if s.len() == 0 {
        assert(seq![x] =~= Seq::<(u64, u64)>::empty().push(x));
    } else if span_le(s.last(), x) {
    } else {
        lemma_insert_span_sorted(s.drop_last(), x);
        let t = insert_span(s.drop_last(), x);
        assert(s.drop_last().push(s.last()) =~= s);
        assert forall|i: int, j: int| 0 <= i < j < t.push(s.last()).len() implies span_le(
            #[trigger] t.push(s.last())[i],
            #[trigger] t.push(s.last())[j],
        ) by {
            if j == t.len() {
                // every element of t is x or an element of s before its last
                assert(t.to_multiset().contains(t[i]));
                assert(t.to_multiset() == s.drop_last().to_multiset().insert(x));
                if t[i] != x {
                    assert(s.drop_last().to_multiset().contains(t[i]));
                    let k = choose|k: int| 0 <= k < s.drop_last().len() && s.drop_last()[k] == t[i];
                    assert(s[k] == t[i]);
                    assert(span_le(s[k], s[s.len() - 1]));
                }
            }
        }
    }
}

/// Sorting yields a sorted permutation.
pub proof fn lemma_sort_spans(s: Seq<(u64, u64)>)
    ensures
        spans_sorted(sort_spans(s)),
        sort_spans(s).to_multiset() == s.to_multiset(),
    decreases s.len(),
{
    broadcast use vstd::seq_lib::group_to_multiset_ensures;

    if s.len() > 0 {
        lemma_sort_spans(s.drop_last());
        lemma_insert_span_sorted(sort_spans(s.drop_last()), s.last());
        assert(s.drop_last().push(s.last()) =~= s);
    }
}

/// The spans sorted by `lo`, then by `hi`.
pub fn sort_span_list(spans: &Vec<(u64, u64)>) -> (r: Vec<(u64, u64)>)
    ensures
        r@ == sort_spans(spans@),
{
    let mut sorted: Vec<(u64, u64)> = Vec::new();
    let mut i: usize = 0;
    while i < spans.len()
        invariant
            i <= spans@.len(),
            sorted@ == sort_spans(spans@.take(i as int)),
        decreases spans@.len() - i,
    {
        let x = spans[i];
        let mut k: usize = sorted.len();
        while k > 0 && !(sorted[k - 1].0 < x.0 || (sorted[k - 1].0 == x.0 && sorted[k - 1].1 <= x.1))
            invariant
                k <= sorted@.len(),
                forall|j: int| k <= j < sorted@.len() ==> !span_le(#[trigger] sorted@[j], x),
            decreases k,
        {
            k -= 1;
        }
        proof {
            lemma_insert_at(sorted@, x, k as int);
            assert(spans@.take(i + 1).drop_last() =~= spans@.take(i as int));
        }
        sorted.insert(k, x);
        assert(sorted@ =~= sort_spans(spans@.take(i + 1)));
        i += 1;
    }
    assert(spans@.take(spans@.len() as int) =~= spans@);
    sorted
}

// ---------------------------------------------------------------------------------------
// Merging sorted spans.
// ---------------------------------------------------------------------------------------
/// The two spans overlap, or one ends exactly where the other begins.
pub open spec fn spans_touch(a: (u64, u64), b: (u64, u64)) -> bool {
    spans_overlap(a.0 as int, a.1 as int, b.0 as int, b.1 as int) || a.1 == b.0 || b.1 == a.0
}

/// The smallest span that covers both.
pub open spec fn span_union(a: (u64, u64), b: (u64, u64)) -> (u64, u64) {
    (if a.0 <= b.0 {
        a.0
    } else {
        b.0
    }, if a.1 >= b.1 {
        a.1
    } else {
        b.1
    })
}

/// The spans of `s` folded from the left: each one joins the last merged span where the
/// two touch, and starts a new one otherwise.
pub open spec fn merge_sorted(s: Seq<(u64, u64)>) -> Seq<(u64, u64)>
    decreases s.len(),
{
    if s.len() == 0 {
        seq![]
    } else {
        let m = merge_sorted(s.drop_last());
        let x = s.last();
        if m.len() == 0 {
            seq![x]
        } else if spans_touch(m.last(), x) {
            m.update(m.len() - 1, span_union(m.last(), x))
        } else {
            m.push(x)
        }
    }
}

/// The minimal set of merged spans of a list of spans: the spans sorted, then merged.
pub open spec fn merged_spans(s: Seq<(u64, u64)>) -> Seq<(u64, u64)> {
    merge_sorted(sort_spans(s))
}

/// Merged spans are well ordered: each span has `lo <= hi`, and every span ends strictly
/// before any later span begins.
pub open spec fn spans_separated(m: Seq<(u64, u64)>) -> bool {
    &&& forall|k: int| 0 <= k < m.len() ==> (#[trigger] m[k]).0 <= m[k].1
    &&& forall|i: int, j: int| 0 <= i < j < m.len() ==> (#[trigger] m[i]).1 < (#[trigger] m[j]).0
}

/// The address `p` lies in the span.
pub open spec fn in_span(x: (u64, u64), p: int) -> bool {
    x.0 <= p < x.1
}

/// Some span of `m` holds the address `p`.
pub open spec fn span_holds(m: Seq<(u64, u64)>, p: int) -> bool {
    exists|k: int| 0 <= k < m.len() && in_span(#[trigger] m[k], p)
}

/// Merges a list of spans into the minimal list of non-overlapping, non-adjacent spans:
/// where every span has `lo <= hi`, the merged spans come in increasing order, apart from
/// each other, and hold exactly the addresses that the given spans hold.
pub fn merge_intervals(spans: &Vec<(u64, u64)>) -> (r: Vec<(u64, u64)>)
    ensures
        r@ == merged_spans(spans@),
        (forall|i: int| 0 <= i < spans@.len() ==> (#[trigger] spans@[i]).0 <= spans@[i].1) ==> {
            &&& spans_separated(r@)
            &&& forall|p: int| span_holds(r@, p) <==> #[trigger] span_holds(spans@, p)
        },
{
    proof {
        if forall|i: int| 0 <= i < spans@.len() ==> (#[trigger] spans@[i]).0 <= spans@[i].1 {
            law_merged_spans_hold_the_same_addresses(spans@);
        }
    }
    let sorted = sort_span_list(spans);
    let mut merged: Vec<(u64, u64)> = Vec::new();
    let mut i: usize = 0;
    while i < sorted.len()
        invariant
            i <= sorted@.len(),
            merged@ == merge_sorted(sorted@.take(i as int)),
        decreases sorted@.len() - i,
    {
        let x = sorted[i];
        assert(sorted@.take(i + 1).drop_last() =~= sorted@.take(i as int));
        let n = merged.len();
        if n == 0 {
            merged.push(x);
        } else {
            let last = merged[n - 1];
            let touch = (last.0 < x.1 && x.0 < last.1) || last.1 == x.0 || x.1 == last.0;
            if touch {
                let lo = if last.0 <= x.0 {
                    last.0
                } else {
                    x.0
                };
                let hi = if last.1 >= x.1 {
                    last.1
                } else {
                    x.1
                };
                merged.set(n - 1, (lo, hi));
            } else {
                merged.push(x);
            }
        }
        assert(merged@ =~= merge_sorted(sorted@.take(i + 1)));
        i += 1;
    }
    assert(sorted@.take(sorted@.len() as int) =~= sorted@);
    merged
}

} // verus!
