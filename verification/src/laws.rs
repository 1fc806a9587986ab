//! Properties that hold of the validators on every input.
use crate::fv::{
    combined_fv, combined_item, combined_violations, file_sections_item, is_eligible_module_type,
    section_item, section_violations, sections_fv, smm_fv, smm_item, smm_violations,
};
use crate::guid::{guid_byte_pair, guid_digits, guid_from_text, is_memory_type_info_spec};
use crate::hob::{
    cacheability_rejected, counted_cache_mask, hob_kind_count, hob_kind_rank, memory_overlap_violations,
    memory_type_info_length_violations, memory_type_info_resources, memory_type_info_single_violations,
    merged_v2_spans, overlap_group, overlap_group_item, plain_v1_item, range_overlap_kinds, span_of,
    v1v2_attribute_violations, v1v2_item, v1v2_row, v1v2_rows, v1v2_superset_violations, v2_descriptors, v2_item, covered_by,
};
use crate::kind::{
    guidance_text, header_text, name_text, table_header_text, two_descriptor_columns, variant_index,
    HobValidationKind, ValidationKind,
};
use crate::merge::{
    in_span, span_holds, spans_separated, lemma_sort_spans, merge_sorted, merged_spans, overlap_row, overlap_rows, overlapping_pairs,
    sort_spans, span_union, spans_touch,
};
use crate::model::{
    gather, gather_all, hob_list_ranges_fit, lemma_gather_forall, span_contains, spans_overlap,
    FirmwareFile, FirmwareSection, FirmwareVolume, Hob, Interval, ResourceDescriptor,
};
use crate::text::{
    all_hex_digits, has_prefix, digit_char, hex, hex_digit_value, hex_number, hex_number_digits, hex_prefixed, hex_value,
    is_hex_digit,
};
use vstd::prelude::*;

verus! {

// ---------------------------------------------------------------------------------------
// Generic facts about gathering.
// ---------------------------------------------------------------------------------------
/// Where each `f(x)` is no longer than `g(x)`, gathering with `f` is no longer than
/// gathering with `g`.
proof fn lemma_gather_len_le<A, B, C>(s: Seq<A>, f: spec_fn(A) -> Seq<B>, g: spec_fn(A) -> Seq<C>, n: int)
    requires
        n <= s.len(),
        forall|k: int| 0 <= k < n ==> #[trigger] f(s[k]).len() <= g(s[k]).len(),
    ensures
        gather(s, f, n).len() <= gather(s, g, n).len(),
    decreases n,
{
    if n > 0 {
        lemma_gather_len_le(s, f, g, n - 1);
    }
}

/// Gathering singletons keeps the length.
proof fn lemma_gather_singletons_len<A, B>(s: Seq<A>, f: spec_fn(A) -> Seq<B>, n: int)
    requires
        0 <= n <= s.len(),
        forall|k: int| 0 <= k < n ==> (#[trigger] f(s[k])).len() == 1,
    ensures
        gather(s, f, n).len() == n,
    decreases n,
{
    if n > 0 {
        lemma_gather_singletons_len(s, f, n - 1);
    }
}

/// The pairs of intervals that overlap consist of elements of the list.
proof fn lemma_pairs_members<'b, T: Interval>(s: Seq<&'b T>, p: spec_fn(&'b T) -> bool)
    requires
        forall|k: int| 0 <= k < s.len() ==> p(#[trigger] s[k]),
    ensures
        forall|i: int|
            0 <= i < overlapping_pairs(s).len() ==> p((#[trigger] overlapping_pairs(s)[i]).0) && p(
                overlapping_pairs(s)[i].1,
            ),
{
    lemma_rows_members(s, p, s.len() as int);
}

proof fn lemma_rows_members<'b, T: Interval>(s: Seq<&'b T>, p: spec_fn(&'b T) -> bool, n: int)
    requires
        n <= s.len(),
        forall|k: int| 0 <= k < s.len() ==> p(#[trigger] s[k]),
    ensures
        forall|i: int|
            0 <= i < overlap_rows(s, n).len() ==> p((#[trigger] overlap_rows(s, n)[i]).0) && p(
                overlap_rows(s, n)[i].1,
            ),
    decreases n,
{
    if n > 0 {
        lemma_rows_members(s, p, n - 1);
        lemma_row_members(s, p, n - 1, s.len() as int);
        let a = overlap_rows(s, n - 1);
        let b = overlap_row(s, n - 1, s.len() as int);
        assert forall|i: int| 0 <= i < overlap_rows(s, n).len() implies p(
            (#[trigger] overlap_rows(s, n)[i]).0,
        ) && p(overlap_rows(s, n)[i].1) by {
            if i < a.len() {
                assert(overlap_rows(s, n)[i] == a[i]);
            } else {
                assert(overlap_rows(s, n)[i] == b[i - a.len()]);
            }
        }
    }
}

proof fn lemma_row_members<'b, T: Interval>(s: Seq<&'b T>, p: spec_fn(&'b T) -> bool, i: int, m: int)
    requires
        0 <= i < s.len(),
        m <= s.len(),
        forall|k: int| 0 <= k < s.len() ==> p(#[trigger] s[k]),
    ensures
        forall|j: int|
            0 <= j < overlap_row(s, i, m).len() ==> p((#[trigger] overlap_row(s, i, m)[j]).0) && p(
                overlap_row(s, i, m)[j].1,
            ),
    decreases m - i,
{
    if m > i + 1 {
        lemma_row_members(s, p, i, m - 1);
        let a = overlap_row(s, i, m - 1);
        assert(p(s[i]) && p(s[m - 1]));
        assert forall|j: int| 0 <= j < overlap_row(s, i, m).len() implies p(
            (#[trigger] overlap_row(s, i, m)[j]).0,
        ) && p(overlap_row(s, i, m)[j].1) by {
            if j < a.len() {
                assert(overlap_row(s, i, m)[j] == a[j]);
            }
        }
    }
}

// ---------------------------------------------------------------------------------------
// HOB laws.
// ---------------------------------------------------------------------------------------
/// A reported overlap of resource ranges never involves a descriptor owned by the Memory
/// Type Information GUID: the PEI memory bins may overlap the memory that backs them.
pub proof fn law_memory_type_info_never_in_overlaps<'a>(hobs: Seq<Hob>)
    ensures
        forall|i: int|
            0 <= i < memory_overlap_violations::<'a>(hobs).len() ==> match #[trigger] memory_overlap_violations::<
                'a,
            >(hobs)[i] {
                ValidationKind::Hob(HobValidationKind::OverlappingMemoryRanges { hob1, hob2 }) => !is_memory_type_info_spec(*hob1)
                    && !is_memory_type_info_spec(*hob2),
                _ => false,
            },
{
    let p = |r: &'a ResourceDescriptor| !is_memory_type_info_spec(*r);
    let a = overlapping_pairs(overlap_group::<'a>(hobs, false, false));
    let b = overlapping_pairs(overlap_group::<'a>(hobs, true, false));
    let c = overlapping_pairs(overlap_group::<'a>(hobs, false, true));
    let d = overlapping_pairs(overlap_group::<'a>(hobs, true, true));
    lemma_group_pairs_clean(hobs, false, false);
    lemma_group_pairs_clean(hobs, true, false);
    lemma_group_pairs_clean(hobs, false, true);
    lemma_group_pairs_clean(hobs, true, true);
    let all = a + b + c + d;
    assert forall|i: int| 0 <= i < all.len() implies p((#[trigger] all[i]).0) && p(all[i].1) by {
        if i < a.len() {
            assert(all[i] == a[i]);
        } else if i < a.len() + b.len() {
            assert(all[i] == b[i - a.len()]);
        } else if i < a.len() + b.len() + c.len() {
            assert(all[i] == c[i - a.len() - b.len()]);
        } else {
            assert(all[i] == d[i - a.len() - b.len() - c.len()]);
        }
    }
    let q = |k: ValidationKind<'a>|
        match k {
            ValidationKind::Hob(HobValidationKind::OverlappingMemoryRanges { hob1, hob2 }) => !is_memory_type_info_spec(*hob1)
                && !is_memory_type_info_spec(*hob2),
            _ => false,
        };
    let f = |pr: (&'a ResourceDescriptor, &'a ResourceDescriptor)|
        seq![ValidationKind::Hob(HobValidationKind::OverlappingMemoryRanges { hob1: pr.0, hob2: pr.1 })];
    assert forall|k: int, j: int| 0 <= k < all.len() && 0 <= j < f(all[k]).len() implies q(
        #[trigger] f(all[k])[j],
    ) by {
        assert(p(all[k].0) && p(all[k].1));
    }
    lemma_gather_forall(all, f, all.len() as int, q);
    assert(memory_overlap_violations::<'a>(hobs) == range_overlap_kinds(all));
}

/// The overlapping pairs of one overlap group hold no descriptor owned by the Memory Type
/// Information GUID.
proof fn lemma_group_pairs_clean<'a>(hobs: Seq<Hob>, v2: bool, io: bool)
    ensures
        forall|i: int|
            0 <= i < overlapping_pairs(overlap_group::<'a>(hobs, v2, io)).len()
                ==> !is_memory_type_info_spec(
                *(#[trigger] overlapping_pairs(overlap_group::<'a>(hobs, v2, io))[i]).0,
            ) && !is_memory_type_info_spec(*overlapping_pairs(overlap_group::<'a>(hobs, v2, io))[i].1),
{
    let p = |r: &'a ResourceDescriptor| !is_memory_type_info_spec(*r);
    let f = |h: Hob| overlap_group_item::<'a>(h, v2, io);
    assert forall|k: int, j: int| 0 <= k < hobs.len() && 0 <= j < f(hobs[k]).len() implies p(
        #[trigger] f(hobs[k])[j],
    ) by {}
    lemma_gather_forall(hobs, f, hobs.len() as int, p);
    lemma_pairs_members(overlap_group::<'a>(hobs, v2, io), p);
}


/// What a reported V1/V2 inconsistency says of its pair: neither descriptor is owned by the
/// Memory Type Information GUID, their ranges overlap, and their types or attributes differ.
pub open spec fn is_reported_inconsistency(k: ValidationKind) -> bool {
    match k {
        ValidationKind::Hob(HobValidationKind::InconsistentMemoryAttributes { hob1, hob2 }) => {
            &&& !is_memory_type_info_spec(*hob1)
            &&& !is_memory_type_info_spec(*hob2)
            &&& spans_overlap(hob1.lo(), hob1.hi(), hob2.lo(), hob2.hi())
            &&& (hob1.resource_type != hob2.resource_type || hob1.resource_attribute
                != hob2.resource_attribute)
        },
        _ => false,
    }
}

proof fn lemma_v1v2_row_reports(hobs: Seq<Hob>, i: int, m: int)
    requires
        0 <= i < hobs.len(),
        m <= hobs.len(),
    ensures
        forall|j: int|
            0 <= j < v1v2_row(hobs, i, m).len() ==> is_reported_inconsistency(
                #[trigger] v1v2_row(hobs, i, m)[j],
            ),
    decreases m,
{
    if m > 0 {
        lemma_v1v2_row_reports(hobs, i, m - 1);
        let a = v1v2_row(hobs, i, m - 1);
        let b = v1v2_item(hobs[i], hobs[m - 1]);
        assert forall|j: int| 0 <= j < v1v2_row(hobs, i, m).len() implies is_reported_inconsistency(
            #[trigger] v1v2_row(hobs, i, m)[j],
        ) by {
            if j < a.len() {
                assert(v1v2_row(hobs, i, m)[j] == a[j]);
            } else {
                assert(v1v2_row(hobs, i, m)[j] == b[j - a.len()]);
            }
        }
    }
}

proof fn lemma_v1v2_rows_report(hobs: Seq<Hob>, n: int)
    requires
        n <= hobs.len(),
    ensures
        forall|j: int|
            0 <= j < v1v2_rows(hobs, n).len() ==> is_reported_inconsistency(
                #[trigger] v1v2_rows(hobs, n)[j],
            ),
    decreases n,
{
    if n > 0 {
        lemma_v1v2_rows_report(hobs, n - 1);
        lemma_v1v2_row_reports(hobs, n - 1, hobs.len() as int);
        let a = v1v2_rows(hobs, n - 1);
        let b = v1v2_row(hobs, n - 1, hobs.len() as int);
        assert forall|j: int| 0 <= j < v1v2_rows(hobs, n).len() implies is_reported_inconsistency(
            #[trigger] v1v2_rows(hobs, n)[j],
        ) by {
            if j < a.len() {
                assert(v1v2_rows(hobs, n)[j] == a[j]);
            } else {
                assert(v1v2_rows(hobs, n)[j] == b[j - a.len()]);
            }
        }
    }
}

/// Every reported V1/V2 inconsistency is a pair of overlapping descriptors, neither owned by
/// the Memory Type Information GUID, whose resource types or resource attributes differ (a
/// difference of owner alone is never reported).
pub proof fn law_inconsistencies_are_overlapping_mismatches<'a>(hobs: Seq<Hob>)
    ensures
        forall|j: int|
            0 <= j < v1v2_attribute_violations::<'a>(hobs).len() ==> is_reported_inconsistency(
                #[trigger] v1v2_attribute_violations::<'a>(hobs)[j],
            ),
{
    lemma_v1v2_rows_report(hobs, hobs.len() as int);
}

/// The single-owner check reports nothing where at most one resource descriptor is owned by
/// the Memory Type Information GUID, and exactly one violation for each such descriptor
/// otherwise.
pub proof fn law_memory_type_info_one_violation_per_hob<'a>(hobs: Seq<Hob>)
    ensures
        memory_type_info_resources::<'a>(hobs).len() <= 1 ==> memory_type_info_single_violations::<
            'a,
        >(hobs).len() == 0,
        memory_type_info_resources::<'a>(hobs).len() > 1 ==> memory_type_info_single_violations::<
            'a,
        >(hobs).len() == memory_type_info_resources::<'a>(hobs).len(),
{
    let mti = memory_type_info_resources::<'a>(hobs);
    if mti.len() > 1 {
        let f = |r: &'a ResourceDescriptor|
            seq![ValidationKind::Hob(HobValidationKind::MemoryTypeInfoMultipleResourceHobs { hob1: r })];
        lemma_gather_singletons_len(mti, f, mti.len() as int);
    }
}

/// The length check and the single-owner check never both report: the length check only
/// runs when exactly one resource descriptor is owned by the Memory Type Information GUID,
/// and then the single-owner check is content.
pub proof fn law_length_check_defers_to_single_owner_check<'a>(hobs: Seq<Hob>)
    ensures
        memory_type_info_length_violations::<'a>(hobs).len() > 0
            ==> memory_type_info_single_violations::<'a>(hobs).len() == 0,
        memory_type_info_length_violations::<'a>(hobs).len() <= 1,
{
}

/// A V2 descriptor of memory is rejected by the cacheability check exactly when the counted
/// cacheability bits of its attributes (UC, WC, WT, WB, WP) are none or more than one: the
/// test "no bit, or not a power of two" of those bits.
pub proof fn law_cacheability_rejected_iff_not_exactly_one(attributes: u64)
    ensures
        cacheability_rejected(attributes) <==> ({
            let m = attributes & counted_cache_mask();
            m == 0 || m & ((m - 1) as u64) != 0
        }),
{
    assert(counted_cache_mask() == 0x100fu64) by (bit_vector);
    let m = attributes & 0x100fu64;
    assert(m == attributes & 0x100fu64 ==> ((m == 0 || m & ((m - 1) as u64) != 0) <==> !(m
        == 0x1u64 || m == 0x2u64 || m == 0x4u64 || m == 0x8u64 || m == 0x1000u64)))
        by (bit_vector);
}

/// A V1 descriptor that is reported as not covered by V2 lies in the range of no single V2
/// descriptor that is not owned by the Memory Type Information GUID (every such V2 range is
/// kept whole by the merge).
pub proof fn law_v1_inside_a_v2_is_not_reported<'a>(hobs: Seq<Hob>)
    requires
        hob_list_ranges_fit(hobs),
    ensures
        forall|i: int|
            0 <= i < v1v2_superset_violations::<'a>(hobs).len() ==> match #[trigger] v1v2_superset_violations::<
                'a,
            >(hobs)[i] {
                ValidationKind::Hob(HobValidationKind::V1MemoryRangeNotContainedInV2 { hob1 }) => forall|j: int|
                    0 <= j < v2_descriptors::<'a>(hobs).len() ==> !span_contains(
                        (#[trigger] v2_descriptors::<'a>(hobs)[j]).lo(),
                        v2_descriptors::<'a>(hobs)[j].hi(),
                        hob1.lo(),
                        hob1.hi(),
                    ),
                _ => false,
            },
{
    let v2s = gather_all(hobs, |h: Hob| v2_item::<'a>(h));
    let v1s = gather_all(hobs, |h: Hob| plain_v1_item::<'a>(h));
    let spans = v2s.map_values(|r: &ResourceDescriptor| span_of(r));
    let merged = merged_v2_spans(hobs);
    crate::hob::lemma_v1_v2_fit(hobs);
    lemma_sort_spans(spans);
    lemma_merge_sorted_covers(sort_spans(spans));
    let q = |r: &'a ResourceDescriptor|
        forall|j: int|
            0 <= j < v2s.len() ==> !span_contains(
                (#[trigger] v2s[j]).lo(),
                v2s[j].hi(),
                r.lo(),
                r.hi(),
            );
    // a V1 range that no merged span contains lies in no V2 range
    assert forall|r: &'a ResourceDescriptor| !covered_by(merged, r) implies #[trigger] q(r) by {
        assert forall|j: int| 0 <= j < v2s.len() implies !span_contains(
            (#[trigger] v2s[j]).lo(),
            v2s[j].hi(),
            r.lo(),
            r.hi(),
        ) by {
            broadcast use vstd::seq_lib::group_to_multiset_ensures;

            assert(v2s[j].hi() <= u64::MAX);
            let x = spans[j];
            assert(spans.contains(x));
            assert(sort_spans(spans).to_multiset().contains(x));
            let s = sort_spans(spans);
            let t = choose|t: int| 0 <= t < s.len() && s[t] == x;
            let k = choose|k: int|
                0 <= k < merge_sorted(s).len() && span_contains(
                    merge_sorted(s)[k].0 as int,
                    merge_sorted(s)[k].1 as int,
                    s[t].0 as int,
                    s[t].1 as int,
                );
            if span_contains(v2s[j].lo(), v2s[j].hi(), r.lo(), r.hi()) {
                assert(span_contains(merged[k].0 as int, merged[k].1 as int, r.lo(), r.hi()));
                assert(covered_by(merged, r));
            }
        }
    }
    let f = |r: &'a ResourceDescriptor|
        if covered_by(merged_v2_spans(hobs), r) {
            seq![]
        } else {
            seq![ValidationKind::Hob(HobValidationKind::V1MemoryRangeNotContainedInV2 { hob1: r })]
        };
    let pk = |k: ValidationKind<'a>|
        match k {
            ValidationKind::Hob(HobValidationKind::V1MemoryRangeNotContainedInV2 { hob1 }) => q(hob1),
            _ => false,
        };
    assert forall|k: int, j: int| 0 <= k < v1s.len() && 0 <= j < f(v1s[k]).len() implies pk(
        #[trigger] f(v1s[k])[j],
    ) by {
        assert(q(v1s[k]));
    }
    lemma_gather_forall(v1s, f, v1s.len() as int, pk);
}



/// Some descriptor of `ds` has the address `p` in its range.
pub open spec fn range_holds(ds: Seq<&ResourceDescriptor>, p: int) -> bool {
    exists|j: int| 0 <= j < ds.len() && (#[trigger] ds[j]).lo() <= p < ds[j].hi()
}

/// Merging a sorted list of spans (each with `lo <= hi`) yields separated spans that cover
/// every address of every input span; the last merged span starts no later than the last
/// input span.
proof fn lemma_merge_sorted_shape(s: Seq<(u64, u64)>)
    requires
        crate::merge::spans_sorted(s),
        forall|i: int| 0 <= i < s.len() ==> (#[trigger] s[i]).0 <= s[i].1,
    ensures
        spans_separated(merge_sorted(s)),
        s.len() > 0 ==> merge_sorted(s).len() > 0 && merge_sorted(s).last().0 <= s.last().0,
        forall|i: int, p: int|
            0 <= i < s.len() && #[trigger] in_span(s[i], p) ==> exists|k: int|
                0 <= k < merge_sorted(s).len() && in_span(#[trigger] merge_sorted(s)[k], p),
    decreases s.len(),
{
    if s.len() > 0 {
        let d = s.drop_last();
        assert forall|i: int, j: int| 0 <= i < j < d.len() implies crate::merge::span_le(
            #[trigger] d[i],
            #[trigger] d[j],
        ) by {
            assert(d[i] == s[i] && d[j] == s[j]);
        }
        lemma_merge_sorted_shape(d);
        let m = merge_sorted(d);
        let x = s.last();
        let r = merge_sorted(s);
        if m.len() == 0 {
            assert(r == seq![x]);
            assert forall|i: int, p: int| 0 <= i < s.len() && #[trigger] in_span(s[i], p) implies exists|k: int|
                0 <= k < r.len() && in_span(#[trigger] r[k], p) by {
                if i < s.len() - 1 {
                    assert(d[i] == s[i]);
                    assert(in_span(d[i], p));
                } else {
                    assert(in_span(r[0], p));
                }
            }
        } else {
            let l = m.last();
            assert(l.0 <= d.last().0);
            assert(crate::merge::span_le(d.last(), x)) by {
                assert(d.last() == s[s.len() - 2]);
            }
            assert(l.0 <= x.0);
            if spans_touch(l, x) {
                let u = span_union(l, x);
                assert(u.0 == l.0);
                assert(r == m.update(m.len() - 1, u));
                assert forall|i: int, j: int| 0 <= i < j < r.len() implies (#[trigger] r[i]).1 < (
                #[trigger] r[j]).0 by {
                    if j == r.len() - 1 {
                        assert(m[i].1 < m[j].0);
                    } else {
                        assert(m[i].1 < m[j].0);
                    }
                }
                assert forall|i: int, p: int| 0 <= i < s.len() && #[trigger] in_span(s[i], p) implies exists|k: int|
                    0 <= k < r.len() && in_span(#[trigger] r[k], p) by {
                    if i < s.len() - 1 {
                        assert(d[i] == s[i]);
                        assert(in_span(d[i], p));
                        let k = choose|k: int| 0 <= k < m.len() && in_span(#[trigger] m[k], p);
                        assert(in_span(r[k], p));
                    } else {
                        assert(in_span(r[r.len() - 1], p));
                    }
                }
            } else {
                assert(l.1 < x.0);
                assert(r == m.push(x));
                assert forall|i: int, j: int| 0 <= i < j < r.len() implies (#[trigger] r[i]).1 < (
                #[trigger] r[j]).0 by {
                    if j == r.len() - 1 {
                        if i < m.len() - 1 {
                            assert(m[i].1 < m[m.len() - 1].0);
                        }
                    } else {
                        assert(m[i].1 < m[j].0);
                    }
                }
                assert forall|i: int, p: int| 0 <= i < s.len() && #[trigger] in_span(s[i], p) implies exists|k: int|
                    0 <= k < r.len() && in_span(#[trigger] r[k], p) by {
                    if i < s.len() - 1 {
                        assert(d[i] == s[i]);
                        assert(in_span(d[i], p));
                        let k = choose|k: int| 0 <= k < m.len() && in_span(#[trigger] m[k], p);
                        assert(in_span(r[k], p));
                    } else {
                        assert(in_span(r[r.len() - 1], p));
                    }
                }
            }
        }
    }
}

/// Where separated spans cover every address of a non-empty range, one of them contains
/// the whole range.
proof fn lemma_single_span_covers(m: Seq<(u64, u64)>, a: int, b: int)
    requires
        spans_separated(m),
        a < b,
        forall|p: int| a <= p < b ==> #[trigger] span_holds(m, p),
    ensures
        exists|k: int| 0 <= k < m.len() && span_contains((#[trigger] m[k]).0 as int, m[k].1 as int, a, b),
{
    assert(span_holds(m, a));
    let k = choose|k: int| 0 <= k < m.len() && in_span(#[trigger] m[k], a);
    if m[k].1 < b {
        let p = m[k].1 as int;
        assert(span_holds(m, p));
        let k2 = choose|k2: int| 0 <= k2 < m.len() && in_span(#[trigger] m[k2], p);
        if k2 < k {
            assert(m[k2].1 < m[k].0);
        } else if k2 > k {
            assert(m[k].1 < m[k2].0);
        }
        assert(false);
    }
    assert(span_contains(m[k].0 as int, m[k].1 as int, a, b));
}

/// A non-empty V1 range whose every address lies in the range of some V2 descriptor not
/// owned by the Memory Type Information GUID (possibly a different one for different
/// addresses) lies within one merged V2 span, so the superset check does not report it.
pub proof fn law_v1_covered_by_v2_union_is_not_reported<'a>(hobs: Seq<Hob>, r: &'a ResourceDescriptor)
    requires
        hob_list_ranges_fit(hobs),
        r.lo() < r.hi(),
        forall|p: int| r.lo() <= p < r.hi() ==> #[trigger] range_holds(v2_descriptors::<'a>(hobs), p),
    ensures
        covered_by(merged_v2_spans(hobs), r),
{
    broadcast use vstd::seq_lib::group_to_multiset_ensures;

    let v2s = v2_descriptors::<'a>(hobs);
    let spans = v2s.map_values(|d: &ResourceDescriptor| span_of(d));
    let sorted = sort_spans(spans);
    let merged = merge_sorted(sorted);
    crate::hob::lemma_v1_v2_fit(hobs);
    lemma_sort_spans(spans);
    assert forall|i: int| 0 <= i < sorted.len() implies (#[trigger] sorted[i]).0 <= sorted[i].1 by {
        assert(sorted.to_multiset().contains(sorted[i]));
        assert(spans.to_multiset().contains(sorted[i]));
        let j = choose|j: int| 0 <= j < spans.len() && spans[j] == sorted[i];
        assert(v2s[j].hi() <= u64::MAX);
    }
    lemma_merge_sorted_shape(sorted);
    assert forall|p: int| r.lo() <= p < r.hi() implies #[trigger] span_holds(merged, p) by {
        assert(range_holds(v2s, p));
        let j = choose|j: int| 0 <= j < v2s.len() && (#[trigger] v2s[j]).lo() <= p < v2s[j].hi();
        assert(v2s[j].hi() <= u64::MAX);
        let x = spans[j];
        assert(in_span(x, p));
        assert(spans.contains(x));
        assert(sorted.to_multiset().contains(x));
        let t = choose|t: int| 0 <= t < sorted.len() && sorted[t] == x;
        assert(in_span(sorted[t], p));
    }
    lemma_single_span_covers(merged, r.lo(), r.hi());
    assert(merged == merged_v2_spans(hobs));
}

/// Each span of a sorted list lies within some span of its merge.
proof fn lemma_merge_sorted_covers(s: Seq<(u64, u64)>)
    ensures
        forall|i: int|
            0 <= i < s.len() ==> exists|k: int|
                0 <= k < merge_sorted(s).len() && span_contains(
                    merge_sorted(s)[k].0 as int,
                    merge_sorted(s)[k].1 as int,
                    (#[trigger] s[i]).0 as int,
                    s[i].1 as int,
                ),
    decreases s.len(),
{
    if s.len() > 0 {
        let d = s.drop_last();
        lemma_merge_sorted_covers(d);
        let m = merge_sorted(d);
        let x = s.last();
        let r = merge_sorted(s);
        assert forall|i: int| 0 <= i < s.len() implies exists|k: int|
            0 <= k < r.len() && span_contains(
                r[k].0 as int,
                r[k].1 as int,
                (#[trigger] s[i]).0 as int,
                s[i].1 as int,
            ) by {
            if i == s.len() - 1 {
                if m.len() == 0 {
                    assert(span_contains(r[0].0 as int, r[0].1 as int, x.0 as int, x.1 as int));
                } else if spans_touch(m.last(), x) {
                    let k = m.len() - 1;
                    assert(span_contains(r[k].0 as int, r[k].1 as int, x.0 as int, x.1 as int));
                } else {
                    let k = m.len() as int;
                    assert(span_contains(r[k].0 as int, r[k].1 as int, x.0 as int, x.1 as int));
                }
            } else {
                assert(s[i] == d[i]);
                let k = choose|k: int|
                    0 <= k < m.len() && span_contains(
                        m[k].0 as int,
                        m[k].1 as int,
                        d[i].0 as int,
                        d[i].1 as int,
                    );
                assert(span_contains(r[k].0 as int, r[k].1 as int, s[i].0 as int, s[i].1 as int));
            }
        }
    }
}

/// Every address in a span of the merge of a list of spans (each with `lo <= hi`) lies in
/// some span of the list, and every merged span has `lo <= hi`.
proof fn lemma_merge_sorted_points(s: Seq<(u64, u64)>)
    requires
        forall|i: int| 0 <= i < s.len() ==> (#[trigger] s[i]).0 <= s[i].1,
    ensures
        forall|k: int| 0 <= k < merge_sorted(s).len() ==> (#[trigger] merge_sorted(s)[k]).0
            <= merge_sorted(s)[k].1,
        forall|k: int, p: int|
            0 <= k < merge_sorted(s).len() && #[trigger] in_span(merge_sorted(s)[k], p) ==> exists|
                i: int,
            |
                0 <= i < s.len() && in_span(#[trigger] s[i], p),
    decreases s.len(),
{
    if s.len() > 0 {
        let d = s.drop_last();
        assert forall|i: int| 0 <= i < d.len() implies (#[trigger] d[i]).0 <= d[i].1 by {
            assert(d[i] == s[i]);
        }
        lemma_merge_sorted_points(d);
        let m = merge_sorted(d);
        let x = s.last();
        let r = merge_sorted(s);
        assert(x == s[s.len() - 1]);
        assert forall|k: int| 0 <= k < r.len() implies (#[trigger] r[k]).0 <= r[k].1 by {
            if m.len() > 0 && k < m.len() - 1 {
                assert(r[k] == m[k]);
            } else if m.len() > 0 && k < m.len() {
                assert(m[k].0 <= m[k].1);
            } else if m.len() > 0 {
                assert(r[k] == m.push(x)[k]);
            }
        }
        assert forall|k: int, p: int| 0 <= k < r.len() && #[trigger] in_span(r[k], p) implies exists|
            i: int,
        |
            0 <= i < s.len() && in_span(#[trigger] s[i], p) by {
            if m.len() == 0 {
                assert(in_span(s[s.len() - 1], p));
            } else if spans_touch(m.last(), x) {
                if k < m.len() - 1 {
                    assert(r[k] == m[k]);
                    assert(in_span(m[k], p));
                    let i = choose|i: int| 0 <= i < d.len() && in_span(#[trigger] d[i], p);
                    assert(s[i] == d[i]);
                } else {
                    let l = m.last();
                    assert(m[m.len() - 1] == l);
                    assert(l.0 <= l.1);
                    if in_span(l, p) {
                        assert(in_span(m[m.len() - 1], p));
                        let i = choose|i: int| 0 <= i < d.len() && in_span(#[trigger] d[i], p);
                        assert(s[i] == d[i]);
                    } else {
                        assert(in_span(s[s.len() - 1], p));
                    }
                }
            } else {
                if k < m.len() {
                    assert(r[k] == m[k]);
                    assert(in_span(m[k], p));
                    let i = choose|i: int| 0 <= i < d.len() && in_span(#[trigger] d[i], p);
                    assert(s[i] == d[i]);
                } else {
                    assert(r[k] == x);
                    assert(in_span(s[s.len() - 1], p));
                }
            }
        }
    }
}

/// A non-empty V1 range is reported by the superset check exactly when some of its
/// addresses lie in the range of no V2 descriptor that is not owned by the Memory Type
/// Information GUID: the check reports the V1 ranges that the union of those V2 ranges
/// does not cover.
pub proof fn law_v1_reported_iff_outside_v2_union<'a>(hobs: Seq<Hob>, r: &'a ResourceDescriptor)
    requires
        hob_list_ranges_fit(hobs),
        r.lo() < r.hi(),
    ensures
        !covered_by(merged_v2_spans(hobs), r) <==> exists|p: int|
            r.lo() <= p < r.hi() && !#[trigger] range_holds(v2_descriptors::<'a>(hobs), p),
{
    broadcast use vstd::seq_lib::group_to_multiset_ensures;

    let v2s = v2_descriptors::<'a>(hobs);
    if forall|p: int| r.lo() <= p < r.hi() ==> #[trigger] range_holds(v2s, p) {
        law_v1_covered_by_v2_union_is_not_reported(hobs, r);
    } else {
        let spans = v2s.map_values(|d: &ResourceDescriptor| span_of(d));
        let sorted = sort_spans(spans);
        let merged = merge_sorted(sorted);
        crate::hob::lemma_v1_v2_fit(hobs);
        lemma_sort_spans(spans);
        assert forall|i: int| 0 <= i < sorted.len() implies (#[trigger] sorted[i]).0 <= sorted[i].1 by {
            assert(sorted.to_multiset().contains(sorted[i]));
            assert(spans.to_multiset().contains(sorted[i]));
            let j = choose|j: int| 0 <= j < spans.len() && spans[j] == sorted[i];
            assert(v2s[j].hi() <= u64::MAX);
        }
        lemma_merge_sorted_points(sorted);
        assert(merged == merged_v2_spans(hobs));
        let p = choose|p: int| r.lo() <= p < r.hi() && !#[trigger] range_holds(v2s, p);
        if covered_by(merged, r) {
            let k = choose|k: int|
                0 <= k < merged.len() && span_contains(
                    (#[trigger] merged[k]).0 as int,
                    merged[k].1 as int,
                    r.lo(),
                    r.hi(),
                );
            assert(in_span(merged[k], p));
            let i = choose|i: int| 0 <= i < sorted.len() && in_span(#[trigger] sorted[i], p);
            assert(sorted.to_multiset().contains(sorted[i]));
            assert(spans.to_multiset().contains(sorted[i]));
            let j = choose|j: int| 0 <= j < spans.len() && spans[j] == sorted[i];
            assert(v2s[j].hi() <= u64::MAX);
            assert(v2s[j].lo() <= p < v2s[j].hi());
            assert(range_holds(v2s, p));
        }
    }
}

/// The V2 ranges that the superset check merges never include one owned by the Memory Type
/// Information GUID: the PEI memory bins cover no V1 range.
pub proof fn law_memory_type_info_v2_never_covers<'a>(hobs: Seq<Hob>)
    ensures
        forall|i: int|
            0 <= i < v2_descriptors::<'a>(hobs).len() ==> !is_memory_type_info_spec(
                *#[trigger] v2_descriptors::<'a>(hobs)[i],
            ),
{
    let f = |h: Hob| v2_item::<'a>(h);
    let q = |d: &'a ResourceDescriptor| !is_memory_type_info_spec(*d);
    assert forall|k: int, j: int| 0 <= k < hobs.len() && 0 <= j < f(hobs[k]).len() implies q(
        #[trigger] f(hobs[k])[j],
    ) by {}
    lemma_gather_forall(hobs, f, hobs.len() as int, q);
}

/// Merging spans (each with `lo <= hi`) gives spans in increasing order, each apart from
/// the next (neither overlapping nor adjacent), that hold exactly the addresses that the
/// given spans hold.
pub proof fn law_merged_spans_hold_the_same_addresses(s: Seq<(u64, u64)>)
    requires
        forall|i: int| 0 <= i < s.len() ==> (#[trigger] s[i]).0 <= s[i].1,
    ensures
        spans_separated(merged_spans(s)),
        forall|p: int| span_holds(merged_spans(s), p) <==> #[trigger] span_holds(s, p),
{
    broadcast use vstd::seq_lib::group_to_multiset_ensures;

    let sorted = sort_spans(s);
    lemma_sort_spans(s);
    assert forall|i: int| 0 <= i < sorted.len() implies (#[trigger] sorted[i]).0 <= sorted[i].1 by {
        assert(sorted.to_multiset().contains(sorted[i]));
        assert(s.to_multiset().contains(sorted[i]));
        let j = choose|j: int| 0 <= j < s.len() && s[j] == sorted[i];
        assert(s[j].0 <= s[j].1);
    }
    lemma_merge_sorted_shape(sorted);
    lemma_merge_sorted_points(sorted);
    let m = merge_sorted(sorted);
    assert forall|p: int| span_holds(m, p) <==> #[trigger] span_holds(s, p) by {
        if span_holds(m, p) {
            let k = choose|k: int| 0 <= k < m.len() && in_span(#[trigger] m[k], p);
            let i = choose|i: int| 0 <= i < sorted.len() && in_span(#[trigger] sorted[i], p);
            assert(sorted.to_multiset().contains(sorted[i]));
            assert(s.to_multiset().contains(sorted[i]));
            let j = choose|j: int| 0 <= j < s.len() && s[j] == sorted[i];
            assert(in_span(s[j], p));
        }
        if span_holds(s, p) {
            let j = choose|j: int| 0 <= j < s.len() && in_span(#[trigger] s[j], p);
            assert(s.to_multiset().contains(s[j]));
            assert(sorted.to_multiset().contains(s[j]));
            let i = choose|i: int| 0 <= i < sorted.len() && sorted[i] == s[j];
            assert(in_span(sorted[i], p));
        }
    }
}

/// The HOB summary lists every HOB once: the counts of the kinds add up to the total.
pub proof fn law_hob_summary_counts_add_up(hobs: Seq<Hob>)
    ensures
        hob_kind_count(hobs, 0, hobs.len() as int) + hob_kind_count(hobs, 1, hobs.len() as int)
            + hob_kind_count(hobs, 2, hobs.len() as int) + hob_kind_count(hobs, 3, hobs.len() as int)
            + hob_kind_count(hobs, 4, hobs.len() as int) + hob_kind_count(hobs, 5, hobs.len() as int)
            + hob_kind_count(hobs, 6, hobs.len() as int) + hob_kind_count(hobs, 7, hobs.len() as int)
            + hob_kind_count(hobs, 8, hobs.len() as int) == hobs.len(),
{
    lemma_counts_add_up(hobs, hobs.len() as int);
}

proof fn lemma_counts_add_up(hobs: Seq<Hob>, n: int)
    requires
        0 <= n <= hobs.len(),
    ensures
        hob_kind_count(hobs, 0, n) + hob_kind_count(hobs, 1, n) + hob_kind_count(hobs, 2, n)
            + hob_kind_count(hobs, 3, n) + hob_kind_count(hobs, 4, n) + hob_kind_count(hobs, 5, n)
            + hob_kind_count(hobs, 6, n) + hob_kind_count(hobs, 7, n) + hob_kind_count(hobs, 8, n)
            == n,
    decreases n,
{
    if n > 0 {
        lemma_counts_add_up(hobs, n - 1);
        let r = hob_kind_rank(hobs[n - 1]);
        assert(0 <= r < 9);
    }
}


// ---------------------------------------------------------------------------------------
// Number format laws.
// ---------------------------------------------------------------------------------------
proof fn lemma_hex_digits_read_back(n: nat)
    ensures
        all_hex_digits(hex(n, false)),
        hex_value(hex(n, false)) == n,
        hex(n, false).len() > 0,
    decreases n,
{
    if n >= 16 {
        lemma_hex_digits_read_back(n / 16);
        let h = hex(n / 16, false);
        let c = digit_char((n % 16) as int, false);
        assert(hex(n, false) == h.push(c));
        assert(hex(n, false).drop_last() =~= h);
        assert(hex_digit_value(c) == n % 16);
        assert(hex(n, false).last() == c);
        assert(hex_value(hex(n, false)) == hex_value(h) * 16 + hex_digit_value(c));
        assert(hex_value(h) == n / 16);
        assert((n / 16) * 16 + n % 16 == n);
        assert forall|i: int| 0 <= i < h.push(c).len() implies is_hex_digit(#[trigger] h.push(c)[i]) by {
            if i < h.len() {
                assert(h.push(c)[i] == h[i]);
            }
        }
    } else {
        assert(hex(n, false) == seq![digit_char(n as int, false)]);
        assert(seq![digit_char(n as int, false)].drop_last() =~= Seq::<char>::empty());
        assert(hex_digit_value(digit_char(n as int, false)) == n);
        assert(hex_value(Seq::<char>::empty()) == 0);
        assert(hex_value(hex(n, false)) == hex_value(Seq::<char>::empty()) * 16 + n);
    }
}

/// A number written in the capture format (`0x` and lower-case hex digits) reads back as
/// the same number.
pub proof fn law_hex_format_round_trip(n: u64, max: u64)
    requires
        n <= max,
    ensures
        hex_number(hex_prefixed(n as nat), max as nat) == Some(n as nat),
{
    reveal_strlit("0x");
    lemma_hex_digits_read_back(n as nat);
    let s = hex_prefixed(n as nat);
    assert(s.subrange(0, 2) =~= "0x"@);
    assert(s.subrange(2, s.len() as int) =~= hex(n as nat, false));
    let h = hex(n as nat, false);
    assert(is_hex_digit(h[0]));
    assert(hex_number_digits(s) == h);
}

// ---------------------------------------------------------------------------------------
// Firmware volume laws.
// ---------------------------------------------------------------------------------------
/// Combined drivers are traditional SMM modules too: there are never more combined-driver
/// violations than traditional SMM violations.
pub proof fn law_combined_drivers_are_traditional_smm<'a>(fvs: Seq<FirmwareVolume>)
    ensures
        combined_violations::<'a>(fvs).len() <= smm_violations::<'a>(fvs).len(),
{
    let f = |fv: FirmwareVolume| combined_fv(&fv);
    let g = |fv: FirmwareVolume| smm_fv(&fv);
    assert forall|k: int| 0 <= k < fvs.len() implies #[trigger] f(fvs[k]).len() <= g(fvs[k]).len() by {
        let fv = fvs[k];
        let ff = |file: FirmwareFile| combined_item(&fv, &file);
        let gg = |file: FirmwareFile| smm_item(&fv, &file);
        assert forall|j: int| 0 <= j < fv.files@.len() implies #[trigger] ff(fv.files@[j]).len() <= gg(
            fv.files@[j],
        ).len() by {}
        lemma_gather_len_le(fv.files@, ff, gg, fv.files@.len() as int);
    }
    lemma_gather_len_le(fvs, f, g, fvs.len() as int);
}

/// A hex digit in lower case (other characters unchanged).
pub open spec fn lower_hex(c: char) -> char {
    if 'A' <= c && c <= 'F' {
        (c as int + 32) as char
    } else {
        c
    }
}

/// GUID texts are read without regard to the case of their hex digits or to where dashes
/// and white space stand: two texts whose remaining characters agree up to case name the
/// same GUID, or are both rejected.
pub proof fn law_guid_text_ignores_case_and_dashes(s: Seq<char>, t: Seq<char>)
    requires
        guid_digits(s).len() == guid_digits(t).len(),
        forall|i: int|
            0 <= i < guid_digits(s).len() ==> lower_hex(#[trigger] guid_digits(s)[i]) == lower_hex(
                guid_digits(t)[i],
            ),
    ensures
        guid_from_text(s) == guid_from_text(t),
{
    let ds = guid_digits(s);
    let dt = guid_digits(t);
    assert forall|i: int| 0 <= i < ds.len() implies (is_hex_digit(#[trigger] ds[i]) == is_hex_digit(
        dt[i],
    ) && hex_digit_value(ds[i]) == hex_digit_value(dt[i])) by {
        assert(lower_hex(ds[i]) == lower_hex(dt[i]));
    }
    if ds.len() == 32 && all_hex_digits(ds) {
        assert(all_hex_digits(dt)) by {
            assert forall|i: int| 0 <= i < dt.len() implies is_hex_digit(#[trigger] dt[i]) by {
                assert(is_hex_digit(ds[i]));
            }
        }
        assert(guid_from_text(s)->0 =~= guid_from_text(t)->0) by {
            assert forall|k: int| 0 <= k < 16 implies #[trigger] guid_from_text(s)->0[k]
                == guid_from_text(t)->0[k] by {
                let p = guid_byte_pair(k);
                assert(hex_digit_value(ds[2 * p]) == hex_digit_value(dt[2 * p]));
                assert(hex_digit_value(ds[2 * p + 1]) == hex_digit_value(dt[2 * p + 1]));
            }
        }
    } else if ds.len() == 32 {
        assert(!all_hex_digits(dt)) by {
            let i = choose|i: int| 0 <= i < ds.len() && !is_hex_digit(#[trigger] ds[i]);
            assert(!is_hex_digit(dt[i]));
        }
    }
}


/// The header, the guidance, the name and the table header of a violation depend on its
/// kind alone, never on the values of its fields.
pub proof fn law_kind_texts_depend_on_kind_only<'a>(k1: ValidationKind<'a>, k2: ValidationKind<'a>)
    requires
        variant_index(k1) == variant_index(k2),
    ensures
        header_text(k1) == header_text(k2),
        guidance_text(k1) == guidance_text(k2),
        name_text(k1) == name_text(k2),
        table_header_text(k1) == table_header_text(k2),
{
}

/// The table header of a violation starts with `#`, ends with `Violation/Resolution`, and
/// has four columns where the violation names two descriptors, three otherwise.
pub proof fn law_table_header_shape<'a>(k: ValidationKind<'a>)
    ensures
        table_header_text(k).len() == (if two_descriptor_columns(k) {
            4int
        } else {
            3int
        }),
        table_header_text(k)[0] == "#"@,
        table_header_text(k)[table_header_text(k).len() - 1] == "Violation/Resolution"@,
{
}

/// The header of a violation is `HOB: ...` for a HOB violation and `FV: ...` for a firmware
/// volume violation, and two violations share a header exactly when they are of one kind.
pub proof fn law_header_names_kind<'a>(k1: ValidationKind<'a>, k2: ValidationKind<'a>)
    ensures
        header_text(k1).len() > 0,
        k1 is Hob ==> has_prefix(header_text(k1), "HOB: "@),
        k1 is Fv ==> has_prefix(header_text(k1), "FV: "@),
        header_text(k1) == header_text(k2) <==> variant_index(k1) == variant_index(k2),
{
    reveal_strlit("HOB: ");
    reveal_strlit("FV: ");
    reveal_strlit("HOB: Inconsistent Memory Attributes");
    reveal_strlit("HOB: Overlapping Memory Ranges");
    reveal_strlit("HOB: Page Zero Memory Described");
    reveal_strlit("HOB: V1 Memory Range Not Contained in V2");
    reveal_strlit("HOB: V2 Range Contains UCE Attribute");
    reveal_strlit("HOB: V2 Missing Valid Cacheability Attribute");
    reveal_strlit("HOB: V2 Invalid IO Cacheability Attributes");
    reveal_strlit("HOB: Multiple Memory Type Info Resource Descriptor HOBs");
    reveal_strlit("HOB: Memory Type Info Resource Descriptor HOB Length Too Small");
    reveal_strlit("HOB: Memory Allocation Ranges Overlap");
    reveal_strlit("HOB: Memory Allocation Range Not Page Aligned");
    reveal_strlit("HOB: Resource Descriptor Range Not Page Aligned");
    reveal_strlit("HOB: Firmware Volume Not Within Memory Allocation");
    reveal_strlit("FV: Combined Drivers Present");
    reveal_strlit("FV: LZMA Compressed Sections Present");
    reveal_strlit("FV: Prohibited Apriori File Present");
    reveal_strlit("FV: Uses Traditional SMM Driver");
    reveal_strlit("FV: PE Image Invalid Section Alignment");
    if k1 is Hob {
        assert(header_text(k1).subrange(0, 5) =~= "HOB: "@);
    } else {
        assert(header_text(k1).subrange(0, 4) =~= "FV: "@);
    }
    if header_text(k1) == header_text(k2) {
        assert(header_text(k1).len() == header_text(k2).len());
        assert(header_text(k1)[5] == header_text(k2)[5]);
    }
}

/// The name of a violation is the name of its kind: never empty, and two violations share a
/// name exactly when they are of one kind.
pub proof fn law_name_names_kind<'a>(k1: ValidationKind<'a>, k2: ValidationKind<'a>)
    ensures
        name_text(k1).len() > 0,
        name_text(k1) == name_text(k2) <==> variant_index(k1) == variant_index(k2),
{
    reveal_strlit("InconsistentMemoryAttributes");
    reveal_strlit("OverlappingMemoryRanges");
    reveal_strlit("PageZeroMemoryDescribed");
    reveal_strlit("V1MemoryRangeNotContainedInV2");
    reveal_strlit("V2ContainsUceAttribute");
    reveal_strlit("V2MissingValidCacheabilityAttribute");
    reveal_strlit("V2InvalidIoCacheabilityAttributes");
    reveal_strlit("MemoryTypeInfoMultipleResourceHobs");
    reveal_strlit("MemoryTypeInfoResourceLengthTooSmall");
    reveal_strlit("MemoryAllocationOverlap");
    reveal_strlit("MemoryAllocationNotPageAligned");
    reveal_strlit("ResourceDescriptorNotPageAligned");
    reveal_strlit("FvNotWithinMemoryAllocation");
    reveal_strlit("CombinedDriversPresent");
    reveal_strlit("LzmaCompressedSections");
    reveal_strlit("ProhibitedAprioriFile");
    reveal_strlit("UsesTraditionalSmm");
    reveal_strlit("InvalidSectionAlignment");
    if name_text(k1) == name_text(k2) {
        assert(name_text(k1).len() == name_text(k2).len());
        assert(name_text(k1)[0] == name_text(k2)[0]);
    }
}

/// The guidance of a violation is never empty and is indented by three spaces.
pub proof fn law_guidance_indented<'a>(k: ValidationKind<'a>)
    ensures
        guidance_text(k).len() > 0,
        has_prefix(guidance_text(k), "   "@),
{
    reveal_strlit("   ");
    reveal_strlit("   Platforms must producing V1 and V2 HOBs for describing the same range(s) should have consistent memory attributes.\n   \
                                                                              Ref: https://opendevicepartnership.github.io/patina/integrate/patina_dxe_core_requirements_checklist.html");
    reveal_strlit("   Platforms must produce non-overlapping HOBs by splitting up overlapping HOBs\n   \
                                                                         into multiple HOBs and eliminating duplicates.\n   \
                                                                         Ref: https://opendevicepartnership.github.io/patina/integrate/patina_dxe_core_requirements_checklist.html");
    reveal_strlit("   Platforms must not allocate page 0.\n   \
                                                                         Ref: https://opendevicepartnership.github.io/patina/integrate/patina_dxe_core_requirements_checklist.html");
    reveal_strlit("   All V1 HOB ranges should be described/covered by corresponding V2 HOBs.");
    reveal_strlit("   V2 HOB contains prohibited EFI_MEMORY_UCE attribute.");
    reveal_strlit("   Platforms must produce Resource Descriptor HOB v2s with a single valid\n   \
                                                                                     cacheability attribute set. These can be the existing Resource Descriptor HOB\n   \
                                                                                     fields with the cacheability attribute set as the only additional field in the\n   \
                                                                                     v2 HOB.\n   \
                                                                                     Ref: https://opendevicepartnership.github.io/patina/integrate/patina_dxe_core_requirements_checklist.html");
    reveal_strlit("   Platforms must produce Resource Descriptor HOB v2s with no cacheability or memory protection\n   \
                                                                                   attributes set for IO resource types.");
    reveal_strlit("   Only one Resource Descriptor HOB owned by the Memory Type Information GUID is allowed. ");
    reveal_strlit("   The Memory Type Info Resource Descriptor HOB's ResourceLength must be large enough\n   \
                                                                                    to hold the sum of bin sizes reported in the Memory Type Information GUID HOB.\n   \
                                                                                    Note: the check uses the raw page-count sum. Platforms may need additional space\n   \
                                                                                    for per-bin alignment padding.");
    reveal_strlit("   Memory Allocation HOB ranges must not overlap.");
    reveal_strlit("   Memory Allocation HOB base addresses and lengths must be page aligned.");
    reveal_strlit("   Resource Descriptor HOB base addresses and lengths must be page aligned.");
    reveal_strlit("   Firmware Volume HOB ranges must be contained within a Memory Allocation HOB range.");
    reveal_strlit("   Firmware volume contains prohibited combined drivers. \nBelow file types are prohibited\n- COMBINED_MM_DXE(0x0C)\n- COMBINED_PEIM_DRIVER(0x08).\n   \
                                                                       Ref: https://opendevicepartnership.github.io/patina/integrate/patina_dxe_core_requirements_checklist.html");
    reveal_strlit("   Temporarily, LZMA compressed sections that will be decompressed in DXE should use Brotli or TianoCompress.\n   \
                                                                       Tracking: https://github.com/OpenDevicePartnership/patina/issues/517\n   \
                                                                       Ref: https://opendevicepartnership.github.io/patina/integrate/patina_dxe_core_requirements_checklist.html");
    reveal_strlit("   A Priori sections must be removed and proper driver dispatch must be ensured\n   \
                                                                      using depex statements. Drivers may produce empty protocols solely to ensure\n   \
                                                                      that other drivers can use that protocol as a depex statement, if required.\n   \
                                                                      Platforms may also list drivers in FFSes in the order they should be dispatched,\n   \
                                                                      though it is recommended to rely on depex statements.\n   \
                                                                      Ref: https://opendevicepartnership.github.io/patina/integrate/patina_dxe_core_requirements_checklist.html\n   \
                                                                      Ref: https://github.com/OpenDevicePartnership/patina-qemu/pull/40");
    reveal_strlit("   Platforms must transition to Standalone MM (or not use MM at all, as applicable)\n   \
                                                                   using the provided guidance. All combined modules must be dropped in favor of\n   \
                                                                   single phase modules.\n   \
                                                                   Ref: https://opendevicepartnership.github.io/patina/integrate/patina_dxe_core_requirements_checklist.html");
    reveal_strlit("   All PE images must have section alignment that is a multiple of page size. \n   \
                                                                        This is not a PI spec requirement, but is a Patina requirement.\n    \
                                                                        Platforms should drop unaligned images or re-build images to ensure section alignment is page-aligned.    \n
                                                                        Ref: https://opendevicepartnership.github.io/patina/integrate/patina_dxe_core_requirements_checklist.html");
    assert(guidance_text(k).subrange(0, 3) =~= "   "@);
}


/// Where the items of two sequences give results of equal lengths, one by one, the gathered
/// results have equal lengths.
proof fn lemma_gather_len_eq<A, B, C, D>(
    s: Seq<A>,
    f: spec_fn(A) -> Seq<B>,
    t: Seq<C>,
    g: spec_fn(C) -> Seq<D>,
    n: int,
)
    requires
        n <= s.len(),
        n <= t.len(),
        forall|k: int| #![trigger s[k], t[k]] 0 <= k < n ==> f(s[k]).len() == g(t[k]).len(),
    ensures
        gather(s, f, n).len() == gather(t, g, n).len(),
    decreases n,
{
    if n > 0 {
        lemma_gather_len_eq(s, f, t, g, n - 1);
        assert(f(s[n - 1]).len() == g(t[n - 1]).len());
    }
}

/// Inserting an item whose result is empty leaves the length of the gathered results as it
/// was.
proof fn lemma_gather_insert_empty_len<A, B>(s: Seq<A>, f: spec_fn(A) -> Seq<B>, j: int, x: A, n: int)
    requires
        0 <= j <= n <= s.len(),
        f(x).len() == 0,
    ensures
        gather(s.insert(j, x), f, n + 1).len() == gather(s, f, n).len(),
    decreases n,
{
    let t = s.insert(j, x);
    if n == j {
        assert forall|k: int| #![trigger t[k], s[k]] 0 <= k < j implies f(t[k]).len() == f(s[k]).len() by {
            assert(t[k] == s[k]);
        }
        lemma_gather_len_eq(t, f, s, f, j);
        assert(t[j] == x);
    } else {
        lemma_gather_insert_empty_len(s, f, j, x, n - 1);
        assert(t[n] == s[n - 1]);
    }
}

/// Adding to a firmware volume a file whose sections are not checked (one that is not a
/// driver, an application or the DXE core), whatever its sections, leaves the number of
/// section violations as it was.
pub proof fn law_ineligible_file_adds_no_section_violation<'a>(
    fvs: Seq<FirmwareVolume>,
    i: int,
    fv2: FirmwareVolume,
    j: int,
    f: FirmwareFile,
)
    requires
        0 <= i < fvs.len(),
        0 <= j <= fvs[i].files@.len(),
        fv2.files@ == fvs[i].files@.insert(j, f),
        !is_eligible_module_type(f.file_type@),
    ensures
        section_violations::<'a>(fvs.update(i, fv2)).len() == section_violations::<'a>(fvs).len(),
{
    let fv = fvs[i];
    let u = fvs.update(i, fv2);
    let big = |v: FirmwareVolume| sections_fv(&v);
    let g1 = |file: FirmwareFile| file_sections_item(&fv, &file);
    let g2 = |file: FirmwareFile| file_sections_item(&fv2, &file);
    let files = fv.files@;
    lemma_gather_insert_empty_len(files, g2, j, f, files.len() as int);
    assert forall|k: int| #![trigger files[k]] 0 <= k < files.len() implies g2(files[k]).len() == g1(
        files[k],
    ).len() by {
        let file = files[k];
        if is_eligible_module_type(file.file_type@) {
            let h1 = |sct: FirmwareSection| section_item(&fv, &file, &sct);
            let h2 = |sct: FirmwareSection| section_item(&fv2, &file, &sct);
            let ss = file.sections@;
            assert forall|m: int| #![trigger ss[m]] 0 <= m < ss.len() implies h2(ss[m]).len() == h1(
                ss[m],
            ).len() by {}
            lemma_gather_len_eq(ss, h2, ss, h1, ss.len() as int);
        }
    }
    lemma_gather_len_eq(files, g2, files, g1, files.len() as int);
    assert(big(fv2).len() == big(fv).len());
    assert forall|k: int| #![trigger u[k], fvs[k]] 0 <= k < fvs.len() implies big(u[k]).len() == big(
        fvs[k],
    ).len() by {
        if k != i {
            assert(u[k] == fvs[k]);
        }
    }
    lemma_gather_len_eq(u, big, fvs, big, fvs.len() as int);
}

} // verus!
