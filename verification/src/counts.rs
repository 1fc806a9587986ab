//! How many violations each check reports, counted over the captured data: for each check,
//! the number of HOBs, descriptors, files or sections that break its rule, or the number of
//! pairs that do.
use crate::merge::{overlap_row, overlap_rows, overlapping_pairs};
use crate::model::{gather, spans_overlap, Interval};
use crate::fv::{
    apriori_fv, apriori_item, fv_violations, apriori_name, apriori_violations, combined_fv, combined_item,
    combined_violations, file_sections_item, is_combined_driver_type, is_eligible_module_type,
    is_traditional_smm_type, pei_apriori_name, section_item, section_violations, sections_fv, smm_fv,
    smm_item, smm_violations, FV_ARM64_RUNTIME_DRIVER_ALIGNMENT,
};
use crate::guid::is_memory_type_info_spec;
use crate::text::has_prefix;
use crate::hob::{
    alloc_alignment_item, allocation_holds_fv, allocation_overlap_violations, cacheability_item,
    cacheability_rejected, cacheability_violations, firmware_volumes, fv_within_item,
    fv_within_violations, io_cacheability_item, memory_overlap_violations, overlap_group, plain_v1_item,
    v1v2_attribute_violations, v1v2_item, v1v2_row, v1v2_rows, v1v2_superset_violations, v2_descriptors, io_cacheability_violations, is_io_spec,
    hob_violations, memory_type_info_length_violations, memory_allocations, memory_resources, memory_type_info_item, memory_type_info_resources,
    memory_type_info_single_violations, page0_item, page0_violations, page_alignment_violations,
    resource_alignment_item, uce_item, uce_violations, hob_kind_count, hob_kind_name, hob_kind_rank,
    PAGE_ZERO_END,
};
use crate::kind::{HobValidationKind, ValidationKind};
use crate::laws::{law_v1_reported_iff_outside_v2_union, range_holds};
use crate::model::{FirmwareFile, FirmwareSection, FirmwareVolume, COFF_MACHINE_ARM64, IMAGE_SUBSYSTEM_EFI_RUNTIME_DRIVER, gather_all, hob_list_ranges_fit, lemma_gather_forall, FvHob, Hob, MemAllocDescriptor, ResourceDescriptor, MEMORY_UCE, UEFI_PAGE_SIZE};
use vstd::prelude::*;

verus! {

/// The number of elements of `s` for which `p` holds.
pub open spec fn count_where<A>(s: Seq<A>, p: spec_fn(A) -> bool) -> nat
    decreases s.len(),
{
    if s.len() == 0 {
        0
    } else {
        count_where(s.drop_last(), p) + if p(s.last()) {
            1nat
        } else {
            0nat
        }
    }
}

/// The sum of `f` over the elements of `s`.
pub open spec fn sum_of<A>(s: Seq<A>, f: spec_fn(A) -> nat) -> nat
    decreases s.len(),
{
    if s.len() == 0 {
        0
    } else {
        sum_of(s.drop_last(), f) + f(s.last())
    }
}

/// `1` where `b` holds, else `0`.
pub open spec fn one_if(b: bool) -> nat {
    if b {
        1
    } else {
        0
    }
}

/// The number of index pairs `i < j` of `s` for which `r(s[i], s[j])` holds, counted for
/// each `i < n` over the elements behind it.
pub open spec fn count_pairs_below<A>(s: Seq<A>, r: spec_fn(A, A) -> bool, n: int) -> nat
    decreases n,
{
    if n <= 0 {
        0
    } else {
        count_pairs_below(s, r, n - 1) + count_where(
            s.subrange(n, s.len() as int),
            |y: A| r(s[n - 1], y),
        )
    }
}

/// The number of index pairs `i < j` of `s` for which `r(s[i], s[j])` holds.
pub open spec fn count_pairs<A>(s: Seq<A>, r: spec_fn(A, A) -> bool) -> nat {
    count_pairs_below(s, r, s.len() as int)
}

/// The length of what `f` gathers from the first `n` elements is the sum of the lengths of
/// the parts.
pub proof fn lemma_gather_len_sum<A, B>(s: Seq<A>, f: spec_fn(A) -> Seq<B>, n: int)
    requires
        0 <= n <= s.len(),
    ensures
        gather(s, f, n).len() == sum_of(s.take(n), |x: A| f(x).len()),
    decreases n,
{
    if n > 0 {
        lemma_gather_len_sum(s, f, n - 1);
        assert(s.take(n).drop_last() =~= s.take(n - 1));
        assert(s.take(n).last() == s[n - 1]);
    }
}

/// Where every part is one element or none, as `p` says, the gathered parts number as many
/// elements as `p` holds of.
pub proof fn lemma_gather_len_count<A, B>(s: Seq<A>, f: spec_fn(A) -> Seq<B>, p: spec_fn(A) -> bool, n: int)
    requires
        0 <= n <= s.len(),
        forall|k: int| 0 <= k < n ==> #[trigger] f(s[k]).len() == one_if(p(s[k])),
    ensures
        gather(s, f, n).len() == count_where(s.take(n), p),
    decreases n,
{
    if n > 0 {
        lemma_gather_len_count(s, f, p, n - 1);
        assert(s.take(n).drop_last() =~= s.take(n - 1));
        assert(s.take(n).last() == s[n - 1]);
        assert(f(s[n - 1]).len() == one_if(p(s[n - 1])));
    }
}

/// Sums of functions that agree on every element agree.
pub proof fn lemma_sum_of_ext<A>(s: Seq<A>, f: spec_fn(A) -> nat, g: spec_fn(A) -> nat)
    requires
        forall|k: int| 0 <= k < s.len() ==> #[trigger] f(s[k]) == g(s[k]),
    ensures
        sum_of(s, f) == sum_of(s, g),
    decreases s.len(),
{
    if s.len() > 0 {
        let d = s.drop_last();
        assert forall|k: int| 0 <= k < d.len() implies #[trigger] f(d[k]) == g(d[k]) by {
            assert(d[k] == s[k]);
        }
        lemma_sum_of_ext(d, f, g);
        assert(f(s.last()) == g(s[s.len() - 1]));
    }
}

/// Counts of predicates that agree on every element agree.
pub proof fn lemma_count_where_ext<A>(s: Seq<A>, p: spec_fn(A) -> bool, q: spec_fn(A) -> bool)
    requires
        forall|k: int| 0 <= k < s.len() ==> #[trigger] p(s[k]) == q(s[k]),
    ensures
        count_where(s, p) == count_where(s, q),
    decreases s.len(),
{
    if s.len() > 0 {
        let d = s.drop_last();
        assert forall|k: int| 0 <= k < d.len() implies #[trigger] p(d[k]) == q(d[k]) by {
            assert(d[k] == s[k]);
        }
        lemma_count_where_ext(d, p, q);
        assert(p(s.last()) == q(s[s.len() - 1]));
    }
}


/// The ranges of two intervals share an address.
pub open spec fn intervals_overlap<'b, T: Interval>(a: &'b T, b: &'b T) -> bool {
    spans_overlap(a.lo(), a.hi(), b.lo(), b.hi())
}

proof fn lemma_overlap_row_len<'b, T: Interval>(s: Seq<&'b T>, i: int, m: int)
    requires
        0 <= i < m <= s.len(),
    ensures
        overlap_row(s, i, m).len() == count_where(
            s.subrange(i + 1, m),
            |y: &'b T| (|a: &'b T, b: &'b T| intervals_overlap(a, b))(s[i], y),
        ),
    decreases m - i,
{
    let q = |y: &'b T| (|a: &'b T, b: &'b T| intervals_overlap(a, b))(s[i], y);
    if m <= i + 1 {
        assert(s.subrange(i + 1, m).len() == 0);
    } else {
        lemma_overlap_row_len(s, i, m - 1);
        assert(s.subrange(i + 1, m).drop_last() =~= s.subrange(i + 1, m - 1));
        assert(s.subrange(i + 1, m).last() == s[m - 1]);
    }
}

/// The overlapping pairs of a list, one for each pair of indices `i < j` whose intervals
/// overlap: as many as those pairs.
pub proof fn lemma_overlapping_pairs_count<'b, T: Interval>(s: Seq<&'b T>, n: int)
    requires
        0 <= n <= s.len(),
    ensures
        overlap_rows(s, n).len() == count_pairs_below(s, |a: &'b T, b: &'b T| intervals_overlap(a, b), n),
    decreases n,
{
    if n > 0 {
        lemma_overlapping_pairs_count(s, n - 1);
        lemma_overlap_row_len(s, n - 1, s.len() as int);
    }
}

/// The number of pairs of intervals `(s[i], s[j])`, `i < j`, that overlap.
pub open spec fn overlap_count<'b, T: Interval>(s: Seq<&'b T>) -> nat {
    count_pairs(s, |a: &'b T, b: &'b T| intervals_overlap(a, b))
}

/// `check_hob_overlap` reports each pair of indices `i < j` whose intervals overlap once.
pub proof fn law_overlapping_pairs_are_counted<'b, T: Interval>(s: Seq<&'b T>)
    ensures
        overlapping_pairs(s).len() == overlap_count(s),
{
    lemma_overlapping_pairs_count(s, s.len() as int);
}


/// A memory allocation HOB whose base address lies in page zero.
pub open spec fn allocates_page_zero(h: Hob) -> bool {
    match h {
        Hob::MemoryAllocation { alloc_descriptor } => alloc_descriptor.memory_base_address <= PAGE_ZERO_END,
        _ => false,
    }
}

/// A V2 resource descriptor HOB with the UCE attribute.
pub open spec fn v2_with_uce(h: Hob) -> bool {
    match h {
        Hob::ResourceDescriptorV2 { attributes, .. } => attributes & MEMORY_UCE != 0,
        _ => false,
    }
}

/// A V2 resource descriptor HOB of memory without exactly one cacheability attribute.
pub open spec fn v2_memory_without_single_cacheability(h: Hob) -> bool {
    match h {
        Hob::ResourceDescriptorV2 { v1, attributes } => !is_io_spec(v1.resource_type) && cacheability_rejected(
            attributes,
        ),
        _ => false,
    }
}

/// A V2 resource descriptor HOB of IO with some attribute set.
pub open spec fn v2_io_with_attributes(h: Hob) -> bool {
    match h {
        Hob::ResourceDescriptorV2 { v1, attributes } => is_io_spec(v1.resource_type) && attributes != 0,
        _ => false,
    }
}

/// A V1 or V2 resource descriptor HOB owned by the Memory Type Information GUID.
pub open spec fn owned_by_memory_type_info(h: Hob) -> bool {
    match h {
        Hob::ResourceDescriptor(r) => is_memory_type_info_spec(r),
        Hob::ResourceDescriptorV2 { v1, .. } => is_memory_type_info_spec(v1),
        _ => false,
    }
}

/// The checks that look at one HOB at a time report one violation for each HOB that
/// breaks their rule: page zero allocated, UCE in a V2 descriptor, a V2 descriptor of
/// memory without exactly one cacheability attribute, a V2 descriptor of IO with
/// attributes. The single-owner check reports each descriptor owned by the Memory Type
/// Information GUID when there are two or more of them, and nothing otherwise.
pub proof fn law_per_hob_violation_counts<'a>(hobs: Seq<Hob>)
    ensures
        page0_violations::<'a>(hobs).len() == count_where(hobs, |h: Hob| allocates_page_zero(h)),
        uce_violations::<'a>(hobs).len() == count_where(hobs, |h: Hob| v2_with_uce(h)),
        cacheability_violations::<'a>(hobs).len() == count_where(
            hobs,
            |h: Hob| v2_memory_without_single_cacheability(h),
        ),
        io_cacheability_violations::<'a>(hobs).len() == count_where(hobs, |h: Hob| v2_io_with_attributes(h)),
        memory_type_info_single_violations::<'a>(hobs).len() == ({
            let c = count_where(hobs, |h: Hob| owned_by_memory_type_info(h));
            if c > 1 {
                c
            } else {
                0
            }
        }),
{
    let n = hobs.len() as int;
    assert(hobs.take(n) =~= hobs);
    lemma_gather_len_count(hobs, |h: Hob| page0_item::<'a>(h), |h: Hob| allocates_page_zero(h), n);
    lemma_gather_len_count(hobs, |h: Hob| uce_item::<'a>(h), |h: Hob| v2_with_uce(h), n);
    lemma_gather_len_count(
        hobs,
        |h: Hob| cacheability_item::<'a>(h),
        |h: Hob| v2_memory_without_single_cacheability(h),
        n,
    );
    lemma_gather_len_count(hobs, |h: Hob| io_cacheability_item::<'a>(h), |h: Hob| v2_io_with_attributes(h), n);
    lemma_gather_len_count(
        hobs,
        |h: Hob| memory_type_info_item::<'a>(h),
        |h: Hob| owned_by_memory_type_info(h),
        n,
    );
    let mti = memory_type_info_resources::<'a>(hobs);
    let f = |r: &'a ResourceDescriptor|
        seq![ValidationKind::Hob(HobValidationKind::MemoryTypeInfoMultipleResourceHobs { hob1: r })];
    lemma_gather_len_count(mti, f, |r: &'a ResourceDescriptor| true, mti.len() as int);
    lemma_count_all(mti.take(mti.len() as int));
    assert(mti.take(mti.len() as int) =~= mti);
}

/// A count of an always-true predicate is the length.
pub proof fn lemma_count_all<A>(s: Seq<A>)
    ensures
        count_where(s, |x: A| true) == s.len(),
    decreases s.len(),
{
    if s.len() > 0 {
        lemma_count_all(s.drop_last());
    }
}

/// No allocation other than free memory contains the firmware volume's range.
pub open spec fn fv_outside_allocations<'a>(allocs: Seq<&'a MemAllocDescriptor>, fv: &'a FvHob) -> bool {
    !exists|j: int| 0 <= j < allocs.len() && allocation_holds_fv(#[trigger] allocs[j], fv)
}

/// The allocation and firmware volume checks count: one violation for each pair of
/// allocations `i < j` whose ranges overlap; one for an unaligned base and one more for an
/// unaligned length of each allocation and of each resource descriptor of memory; one for
/// each firmware volume that no allocation (other than free memory) contains.
pub proof fn law_allocation_violation_counts<'a>(hobs: Seq<Hob>)
    ensures
        allocation_overlap_violations::<'a>(hobs).len() == overlap_count(memory_allocations::<'a>(hobs)),
        page_alignment_violations::<'a>(hobs).len() == sum_of(
            memory_allocations::<'a>(hobs),
            |a: &'a MemAllocDescriptor|
                one_if(a.memory_base_address % UEFI_PAGE_SIZE != 0) + one_if(
                    a.memory_length % UEFI_PAGE_SIZE != 0,
                ),
        ) + sum_of(
            memory_resources::<'a>(hobs),
            |d: &'a ResourceDescriptor|
                one_if(d.physical_start % UEFI_PAGE_SIZE != 0) + one_if(
                    d.resource_length % UEFI_PAGE_SIZE != 0,
                ),
        ),
        fv_within_violations::<'a>(hobs).len() == count_where(
            firmware_volumes::<'a>(hobs),
            |fv: &'a FvHob| fv_outside_allocations(memory_allocations::<'a>(hobs), fv),
        ),
{
    let allocs = memory_allocations::<'a>(hobs);
    let res = memory_resources::<'a>(hobs);
    let fvs = firmware_volumes::<'a>(hobs);
    // overlapping allocations
    let pairs = crate::merge::overlapping_pairs(allocs);
    let fp = |p: (&'a MemAllocDescriptor, &'a MemAllocDescriptor)|
        seq![ValidationKind::Hob(HobValidationKind::MemoryAllocationOverlap { hob1: p.0, hob2: p.1 })];
    lemma_gather_len_count(pairs, fp, |p: (&'a MemAllocDescriptor, &'a MemAllocDescriptor)| true, pairs.len() as int);
    lemma_count_all(pairs.take(pairs.len() as int));
    assert(pairs.take(pairs.len() as int) =~= pairs);
    law_overlapping_pairs_are_counted(allocs);
    // alignment
    let fa = |d: &'a MemAllocDescriptor| alloc_alignment_item(d);
    let fr = |d: &'a ResourceDescriptor| resource_alignment_item(d);
    lemma_gather_len_sum(allocs, fa, allocs.len() as int);
    lemma_gather_len_sum(res, fr, res.len() as int);
    assert(allocs.take(allocs.len() as int) =~= allocs);
    assert(res.take(res.len() as int) =~= res);
    lemma_sum_of_ext(
        allocs,
        |x: &'a MemAllocDescriptor| fa(x).len(),
        |a: &'a MemAllocDescriptor|
            one_if(a.memory_base_address % UEFI_PAGE_SIZE != 0) + one_if(
                a.memory_length % UEFI_PAGE_SIZE != 0,
            ),
    );
    lemma_sum_of_ext(
        res,
        |x: &'a ResourceDescriptor| fr(x).len(),
        |d: &'a ResourceDescriptor|
            one_if(d.physical_start % UEFI_PAGE_SIZE != 0) + one_if(
                d.resource_length % UEFI_PAGE_SIZE != 0,
            ),
    );
    // firmware volumes
    lemma_gather_len_count(
        fvs,
        |fv: &'a FvHob| fv_within_item(memory_allocations::<'a>(hobs), fv),
        |fv: &'a FvHob| fv_outside_allocations(memory_allocations::<'a>(hobs), fv),
        fvs.len() as int,
    );
    assert(fvs.take(fvs.len() as int) =~= fvs);
}


/// The resource descriptor overlap check reports one violation for each pair of
/// descriptors `i < j` of one group whose ranges overlap, the groups being the V1
/// descriptors of memory, the V2 descriptors of memory, the V1 descriptors of IO and the V2
/// descriptors of IO, each in HOB list order and without those owned by the Memory Type
/// Information GUID.
pub proof fn law_memory_overlap_count<'a>(hobs: Seq<Hob>)
    ensures
        memory_overlap_violations::<'a>(hobs).len() == overlap_count(overlap_group::<'a>(hobs, false, false))
            + overlap_count(overlap_group::<'a>(hobs, true, false)) + overlap_count(
            overlap_group::<'a>(hobs, false, true),
        ) + overlap_count(overlap_group::<'a>(hobs, true, true)),
{
    let p1 = crate::merge::overlapping_pairs(overlap_group::<'a>(hobs, false, false));
    let p2 = crate::merge::overlapping_pairs(overlap_group::<'a>(hobs, true, false));
    let p3 = crate::merge::overlapping_pairs(overlap_group::<'a>(hobs, false, true));
    let p4 = crate::merge::overlapping_pairs(overlap_group::<'a>(hobs, true, true));
    let all = p1 + p2 + p3 + p4;
    let f = |p: (&'a ResourceDescriptor, &'a ResourceDescriptor)|
        seq![ValidationKind::Hob(HobValidationKind::OverlappingMemoryRanges { hob1: p.0, hob2: p.1 })];
    lemma_gather_len_count(all, f, |p: (&'a ResourceDescriptor, &'a ResourceDescriptor)| true, all.len() as int);
    lemma_count_all(all.take(all.len() as int));
    assert(all.take(all.len() as int) =~= all);
    law_overlapping_pairs_are_counted(overlap_group::<'a>(hobs, false, false));
    law_overlapping_pairs_are_counted(overlap_group::<'a>(hobs, true, false));
    law_overlapping_pairs_are_counted(overlap_group::<'a>(hobs, false, true));
    law_overlapping_pairs_are_counted(overlap_group::<'a>(hobs, true, true));
}

/// `h1` is a V1 and `h2` a V2 resource descriptor HOB, neither owned by the Memory Type
/// Information GUID, whose ranges overlap and whose resource types or attributes differ.
pub open spec fn inconsistent_v1_v2(h1: Hob, h2: Hob) -> bool {
    match (h1, h2) {
        (Hob::ResourceDescriptor(v1), Hob::ResourceDescriptorV2 { v1: v2, .. }) => !is_memory_type_info_spec(v1)
            && !is_memory_type_info_spec(v2) && spans_overlap(v1.lo(), v1.hi(), v2.lo(), v2.hi())
            && (v1.resource_type != v2.resource_type || v1.resource_attribute != v2.resource_attribute),
        _ => false,
    }
}

proof fn lemma_v1v2_row_len(hobs: Seq<Hob>, i: int, m: int)
    requires
        0 <= i < hobs.len(),
        0 <= m <= hobs.len(),
    ensures
        v1v2_row::<'static>(hobs, i, m).len() == count_where(
            hobs.take(m),
            |h2: Hob| (|a: Hob, b: Hob| inconsistent_v1_v2(a, b))(hobs[i], h2),
        ),
    decreases m,
{
    if m > 0 {
        lemma_v1v2_row_len(hobs, i, m - 1);
        assert(hobs.take(m).drop_last() =~= hobs.take(m - 1));
        assert(hobs.take(m).last() == hobs[m - 1]);
        assert(v1v2_item::<'static>(hobs[i], hobs[m - 1]).len() == one_if(
            inconsistent_v1_v2(hobs[i], hobs[m - 1]),
        ));
    }
}

proof fn lemma_v1v2_rows_len(hobs: Seq<Hob>, n: int)
    requires
        0 <= n <= hobs.len(),
    ensures
        v1v2_rows::<'static>(hobs, n).len() == sum_of(
            hobs.take(n),
            |h1: Hob| count_where(hobs, |h2: Hob| inconsistent_v1_v2(h1, h2)),
        ),
    decreases n,
{
    if n > 0 {
        lemma_v1v2_rows_len(hobs, n - 1);
        lemma_v1v2_row_len(hobs, n - 1, hobs.len() as int);
        assert(hobs.take(hobs.len() as int) =~= hobs);
        assert(hobs.take(n).drop_last() =~= hobs.take(n - 1));
        assert(hobs.take(n).last() == hobs[n - 1]);
        lemma_count_where_ext(
            hobs,
            |h2: Hob| (|a: Hob, b: Hob| inconsistent_v1_v2(a, b))(hobs[n - 1], h2),
            |h2: Hob| inconsistent_v1_v2(hobs[n - 1], h2),
        );
    }
}

/// The V1/V2 consistency check reports one violation for each ordered pair of HOBs
/// `(h1, h2)` where `h1` is a V1 and `h2` a V2 descriptor, neither owned by the Memory Type
/// Information GUID, whose ranges overlap and whose types or attributes differ.
pub proof fn law_v1v2_attribute_count<'a>(hobs: Seq<Hob>)
    ensures
        v1v2_attribute_violations::<'a>(hobs).len() == sum_of(
            hobs,
            |h1: Hob| count_where(hobs, |h2: Hob| inconsistent_v1_v2(h1, h2)),
        ),
{
    lemma_v1v2_rows_len(hobs, hobs.len() as int);
    assert(hobs.take(hobs.len() as int) =~= hobs);
}

/// Some address of the V1 range lies in the range of no V2 descriptor (other than those
/// owned by the Memory Type Information GUID).
pub open spec fn v1_outside_v2_union<'a>(hobs: Seq<Hob>, r: &'a ResourceDescriptor) -> bool {
    exists|p: int| r.lo() <= p < r.hi() && !#[trigger] range_holds(v2_descriptors::<'a>(hobs), p)
}

/// Where every V1 range is non-empty, the superset check reports one violation for each V1
/// descriptor (other than those owned by the Memory Type Information GUID) with an address
/// that the union of the V2 ranges (other than those owned by that GUID) leaves out;
/// several V2 ranges may cover one V1 range together.
pub proof fn law_v1v2_superset_count<'a>(hobs: Seq<Hob>)
    requires
        hob_list_ranges_fit(hobs),
        forall|i: int|
            0 <= i < hobs.len() ==> (#[trigger] hobs[i] matches Hob::ResourceDescriptor(r) ==> r.resource_length
                > 0),
    ensures
        v1v2_superset_violations::<'a>(hobs).len() == count_where(
            gather_all(hobs, |h: Hob| plain_v1_item::<'a>(h)),
            |r: &'a ResourceDescriptor| v1_outside_v2_union(hobs, r),
        ),
{
    let v1s = gather_all(hobs, |h: Hob| plain_v1_item::<'a>(h));
    let g = |h: Hob| plain_v1_item::<'a>(h);
    let q = |r: &'a ResourceDescriptor| r.lo() < r.hi();
    assert forall|k: int, j: int| 0 <= k < hobs.len() && 0 <= j < g(hobs[k]).len() implies q(
        #[trigger] g(hobs[k])[j],
    ) by {
        assert(hobs[k] matches Hob::ResourceDescriptor(r) ==> r.resource_length > 0);
    }
    lemma_gather_forall(hobs, g, hobs.len() as int, q);
    let f = |r: &'a ResourceDescriptor|
        if crate::hob::covered_by(crate::hob::merged_v2_spans(hobs), r) {
            seq![]
        } else {
            seq![ValidationKind::Hob(HobValidationKind::V1MemoryRangeNotContainedInV2 { hob1: r })]
        };
    assert forall|k: int| 0 <= k < v1s.len() implies #[trigger] f(v1s[k]).len() == one_if(
        v1_outside_v2_union(hobs, v1s[k]),
    ) by {
        assert(q(v1s[k]));
        law_v1_reported_iff_outside_v2_union(hobs, v1s[k]);
    }
    lemma_gather_len_count(v1s, f, |r: &'a ResourceDescriptor| v1_outside_v2_union(hobs, r), v1s.len() as int);
    assert(v1s.take(v1s.len() as int) =~= v1s);
}


/// The section is a PE32 image whose section alignment is not a positive multiple of what
/// it needs: 64 KiB for an ARM64 runtime driver, the page size for any other image.
pub open spec fn section_misaligned(s: FirmwareSection) -> bool {
    s.section_type@ == "Pe32"@ && match s.pe_info {
        Some(pe) => {
            let required: int = if pe.machine == COFF_MACHINE_ARM64 && pe.subsystem
                == IMAGE_SUBSYSTEM_EFI_RUNTIME_DRIVER {
                FV_ARM64_RUNTIME_DRIVER_ALIGNMENT as int
            } else {
                UEFI_PAGE_SIZE as int
            };
            pe.section_alignment == 0 || pe.section_alignment as int % required != 0
        },
        None => false,
    }
}

/// The violations that one section of a checked file gives: one for LZMA compression, one
/// for a misaligned PE image.
pub open spec fn section_violation_count(s: FirmwareSection) -> nat {
    one_if(has_prefix(s.compression_type@, "LZMA "@)) + one_if(section_misaligned(s))
}

/// The section violations of one file: those of its sections where the file is a driver,
/// an application or the DXE core, none otherwise.
pub open spec fn file_section_violation_count(f: FirmwareFile) -> nat {
    if is_eligible_module_type(f.file_type@) {
        sum_of(f.sections@, |s: FirmwareSection| section_violation_count(s))
    } else {
        0
    }
}

/// The file is of a traditional SMM type.
pub open spec fn is_smm_file(f: FirmwareFile) -> bool {
    is_traditional_smm_type(f.file_type@)
}

/// The file is a combined driver.
pub open spec fn is_combined_driver_file(f: FirmwareFile) -> bool {
    is_combined_driver_type(f.file_type@)
}

/// The file is named by the PEI or the DXE Apriori file GUID.
pub open spec fn is_apriori_file(f: FirmwareFile) -> bool {
    f.name@ == pei_apriori_name() || f.name@ == apriori_name()
}

/// The firmware volume checks count: one violation for each file of a traditional SMM
/// type, one for each combined driver, one for each file named by an Apriori file GUID
/// (whatever its type), and, in the files that are drivers, applications or the DXE core,
/// one for each LZMA-compressed section and one for each misaligned PE image.
pub proof fn law_fv_violation_counts<'a>(fvs: Seq<FirmwareVolume>)
    ensures
        smm_violations::<'a>(fvs).len() == sum_of(
            fvs,
            |fv: FirmwareVolume| count_where(fv.files@, |f: FirmwareFile| is_smm_file(f)),
        ),
        combined_violations::<'a>(fvs).len() == sum_of(
            fvs,
            |fv: FirmwareVolume| count_where(fv.files@, |f: FirmwareFile| is_combined_driver_file(f)),
        ),
        apriori_violations::<'a>(fvs).len() == sum_of(
            fvs,
            |fv: FirmwareVolume| count_where(fv.files@, |f: FirmwareFile| is_apriori_file(f)),
        ),
        section_violations::<'a>(fvs).len() == sum_of(
            fvs,
            |fv: FirmwareVolume| sum_of(fv.files@, |f: FirmwareFile| file_section_violation_count(f)),
        ),
{
    let n = fvs.len() as int;
    assert(fvs.take(n) =~= fvs);
    // traditional SMM
    let F_smm_fv = |fv: FirmwareVolume| smm_fv(&fv);
    lemma_gather_len_sum(fvs, F_smm_fv, n);
    assert forall|k: int| #![trigger fvs[k]] 0 <= k < fvs.len() implies smm_fv(&fvs[k]).len() == ({ let fv = fvs[k]; count_where(fv.files@, |f: FirmwareFile| is_smm_file(f)) }) by {
        let fv = fvs[k];
        let files = fv.files@;
        lemma_gather_len_count(
            files,
            |file: FirmwareFile| smm_item(&fv, &file),
            |f: FirmwareFile| is_smm_file(f),
            files.len() as int,
        );
        assert(files.take(files.len() as int) =~= files);
    }
    lemma_sum_of_ext(
        fvs,
        |x: FirmwareVolume| F_smm_fv(x).len(),
        |fv: FirmwareVolume| count_where(fv.files@, |f: FirmwareFile| is_smm_file(f)),
    );
    // combined drivers
    let F_combined_fv = |fv: FirmwareVolume| combined_fv(&fv);
    lemma_gather_len_sum(fvs, F_combined_fv, n);
    assert forall|k: int| #![trigger fvs[k]] 0 <= k < fvs.len() implies combined_fv(&fvs[k]).len() == ({ let fv = fvs[k]; count_where(fv.files@, |f: FirmwareFile| is_combined_driver_file(f)) }) by {
        let fv = fvs[k];
        let files = fv.files@;
        lemma_gather_len_count(
            files,
            |file: FirmwareFile| combined_item(&fv, &file),
            |f: FirmwareFile| is_combined_driver_file(f),
            files.len() as int,
        );
        assert(files.take(files.len() as int) =~= files);
    }
    lemma_sum_of_ext(
        fvs,
        |x: FirmwareVolume| F_combined_fv(x).len(),
        |fv: FirmwareVolume| count_where(fv.files@, |f: FirmwareFile| is_combined_driver_file(f)),
    );
    // Apriori files
    let F_apriori_fv = |fv: FirmwareVolume| apriori_fv(&fv);
    lemma_gather_len_sum(fvs, F_apriori_fv, n);
    assert forall|k: int| #![trigger fvs[k]] 0 <= k < fvs.len() implies apriori_fv(&fvs[k]).len() == ({ let fv = fvs[k]; count_where(fv.files@, |f: FirmwareFile| is_apriori_file(f)) }) by {
        let fv = fvs[k];
        let files = fv.files@;
        lemma_gather_len_count(
            files,
            |file: FirmwareFile| apriori_item(&fv, &file),
            |f: FirmwareFile| is_apriori_file(f),
            files.len() as int,
        );
        assert(files.take(files.len() as int) =~= files);
    }
    lemma_sum_of_ext(
        fvs,
        |x: FirmwareVolume| F_apriori_fv(x).len(),
        |fv: FirmwareVolume| count_where(fv.files@, |f: FirmwareFile| is_apriori_file(f)),
    );
    // sections
    let F_sections_fv = |fv: FirmwareVolume| sections_fv(&fv);
    lemma_gather_len_sum(fvs, F_sections_fv, n);
    assert forall|k: int| #![trigger fvs[k]] 0 <= k < fvs.len() implies sections_fv(&fvs[k]).len() == ({ let fv = fvs[k]; sum_of(fv.files@, |f: FirmwareFile| file_section_violation_count(f)) }) by {
        let fv = fvs[k];
        let files = fv.files@;
        let g = |file: FirmwareFile| file_sections_item(&fv, &file);
        lemma_gather_len_sum(files, g, files.len() as int);
        assert(files.take(files.len() as int) =~= files);
        assert forall|j: int| #![trigger files[j]] 0 <= j < files.len() implies g(files[j]).len()
            == file_section_violation_count(files[j]) by {
            let file = files[j];
            if is_eligible_module_type(file.file_type@) {
                let ss = file.sections@;
                let h = |sct: FirmwareSection| section_item(&fv, &file, &sct);
                lemma_gather_len_sum(ss, h, ss.len() as int);
                assert(ss.take(ss.len() as int) =~= ss);
                lemma_sum_of_ext(
                    ss,
                    |x: FirmwareSection| h(x).len(),
                    |sct: FirmwareSection| section_violation_count(sct),
                );
            }
        }
        lemma_sum_of_ext(
            files,
            |x: FirmwareFile| g(x).len(),
            |f: FirmwareFile| file_section_violation_count(f),
        );
    }
    lemma_sum_of_ext(
        fvs,
        |x: FirmwareVolume| F_sections_fv(x).len(),
        |fv: FirmwareVolume| sum_of(fv.files@, |f: FirmwareFile| file_section_violation_count(f)),
    );
}


/// `a` comes before `b` in the order of their characters' code points (a proper prefix
/// first).
pub open spec fn text_before(a: Seq<char>, b: Seq<char>) -> bool {
    exists|i: int|
        0 <= i <= a.len() && i <= b.len() && a.subrange(0, i) == b.subrange(0, i) && ((i == a.len()
            && i < b.len()) || (i < a.len() && i < b.len() && (a[i] as int) < (b[i] as int)))
}

proof fn lemma_text_before_at(a: Seq<char>, b: Seq<char>, i: int)
    requires
        0 <= i < a.len(),
        i < b.len(),
        a.subrange(0, i) =~= b.subrange(0, i),
        (a[i] as int) < (b[i] as int),
    ensures
        text_before(a, b),
{
}

/// The HOB summary counts each kind of HOB, and lists the kinds in the byte order of their
/// names: the count shown for a kind is the number of HOBs of that kind, and the name of
/// each kind comes before the name of the next.
pub proof fn law_hob_summary_counts_and_order(hobs: Seq<Hob>, rank: int)
    ensures
        hob_kind_count(hobs, rank, hobs.len() as int) == count_where(hobs, |h: Hob| hob_kind_rank(h) == rank),
        0 <= rank < 8 ==> text_before(hob_kind_name(rank), hob_kind_name(rank + 1)),
{
    lemma_kind_count(hobs, rank, hobs.len() as int);
    assert(hobs.take(hobs.len() as int) =~= hobs);
    reveal_strlit("Cpu");
    reveal_strlit("FirmwareVolume");
    reveal_strlit("GuidExtension");
    reveal_strlit("Handoff");
    reveal_strlit("MemoryAllocation");
    reveal_strlit("MemoryTypeInformation");
    reveal_strlit("ResourceDescriptor (V1)");
    reveal_strlit("ResourceDescriptorV2 (V2)");
    reveal_strlit("UnknownHob");
    let a = hob_kind_name(rank);
    let b = hob_kind_name(rank + 1);
    if rank == 4 {
        lemma_text_before_at(a, b, 6);
    } else if rank == 6 {
        lemma_text_before_at(a, b, 18);
    } else if 0 <= rank < 8 {
        lemma_text_before_at(a, b, 0);
    }
}

proof fn lemma_kind_count(hobs: Seq<Hob>, rank: int, n: int)
    requires
        0 <= n <= hobs.len(),
    ensures
        hob_kind_count(hobs, rank, n) == count_where(hobs.take(n), |h: Hob| hob_kind_rank(h) == rank),
    decreases n,
{
    if n > 0 {
        lemma_kind_count(hobs, rank, n - 1);
        assert(hobs.take(n).drop_last() =~= hobs.take(n - 1));
        assert(hobs.take(n).last() == hobs[n - 1]);
    }
}


/// A count is at most the length.
pub proof fn lemma_count_where_le<A>(s: Seq<A>, p: spec_fn(A) -> bool)
    ensures
        count_where(s, p) <= s.len(),
    decreases s.len(),
{
    if s.len() > 0 {
        lemma_count_where_le(s.drop_last(), p);
    }
}

proof fn lemma_count_pairs_below_bound<A>(s: Seq<A>, r: spec_fn(A, A) -> bool, n: int)
    requires
        0 <= n <= s.len(),
    ensures
        2 * count_pairs_below(s, r, n) <= n * (2 * s.len() - n - 1),
    decreases n,
{
    if n > 0 {
        lemma_count_pairs_below_bound(s, r, n - 1);
        lemma_count_where_le(s.subrange(n, s.len() as int), |y: A| r(s[n - 1], y));
        let l = s.len() as int;
        let c = count_pairs_below(s, r, n - 1) as int;
        let d = count_where(s.subrange(n, l), |y: A| r(s[n - 1], y)) as int;
        assert(2 * (c + d) <= n * (2 * l - n - 1)) by (nonlinear_arith)
            requires
                2 * c <= (n - 1) * (2 * l - (n - 1) - 1),
                d <= l - n,
        ;
    }
}

/// `check_hob_overlap` reports each overlapping pair `(s[i], s[j])`, `i < j`, once, by `i`
/// then by `j`: so at most one pair for each two elements of the list.
pub proof fn law_overlapping_pairs_bound<'b, T: Interval>(s: Seq<&'b T>)
    ensures
        2 * overlapping_pairs(s).len() <= s.len() * (s.len() - 1),
{
    law_overlapping_pairs_are_counted(s);
    lemma_count_pairs_below_bound(s, |a: &'b T, b: &'b T| intervals_overlap(a, b), s.len() as int);
}


proof fn lemma_overlap_row_members<'b, T: Interval>(s: Seq<&'b T>, i: int, m: int)
    requires
        0 <= i < s.len(),
        m <= s.len(),
    ensures
        forall|k: int| #![trigger overlap_row(s, i, m)[k]]
            0 <= k < overlap_row(s, i, m).len() ==> exists|j: int| #![trigger s[j]]
                i < j < m && overlap_row(s, i, m)[k] == (s[i], s[j]) && intervals_overlap(
                    s[i],
                    s[j],
                ),
    decreases m - i,
{
    if m > i + 1 {
        lemma_overlap_row_members(s, i, m - 1);
        let prev = overlap_row(s, i, m - 1);
        let row = overlap_row(s, i, m);
        assert forall|k: int| #![trigger row[k]] 0 <= k < row.len() implies exists|j: int| #![trigger s[j]]
            i < j < m && row[k] == (s[i], s[j]) && intervals_overlap(s[i], s[j]) by {
            if k < prev.len() {
                assert(row[k] == prev[k]);
                let j = choose|j: int| #![trigger s[j]]
                    i < j < m - 1 && prev[k] == (s[i], s[j]) && intervals_overlap(s[i], s[j]);
                assert(row[k] == (s[i], s[j]));
            } else {
                assert(row[k] == (s[i], s[m - 1]));
            }
        }
    }
}

proof fn lemma_overlap_rows_members<'b, T: Interval>(s: Seq<&'b T>, n: int)
    requires
        0 <= n <= s.len(),
    ensures
        forall|k: int| #![trigger overlap_rows(s, n)[k]]
            0 <= k < overlap_rows(s, n).len() ==> exists|i: int, j: int| #![trigger s[i], s[j]]
                0 <= i < j < s.len() && overlap_rows(s, n)[k] == (s[i], s[j])
                    && intervals_overlap(s[i], s[j]),
    decreases n,
{
    if n > 0 {
        lemma_overlap_rows_members(s, n - 1);
        lemma_overlap_row_members(s, n - 1, s.len() as int);
        let prev = overlap_rows(s, n - 1);
        let row = overlap_row(s, n - 1, s.len() as int);
        let all = overlap_rows(s, n);
        assert forall|k: int| #![trigger all[k]] 0 <= k < all.len() implies exists|i: int, j: int| #![trigger s[i], s[j]]
            0 <= i < j < s.len() && all[k] == (s[i], s[j]) && intervals_overlap(s[i], s[j]) by {
            if k < prev.len() {
                assert(all[k] == prev[k]);
                let (i, j) = choose|i: int, j: int| #![trigger s[i], s[j]]
                    0 <= i < j < s.len() && prev[k] == (s[i], s[j]) && intervals_overlap(
                        s[i],
                        s[j],
                    );
                assert(all[k] == (s[i], s[j]));
            } else {
                assert(all[k] == row[k - prev.len()]);
                let j = choose|j: int| #![trigger s[j]]
                    n - 1 < j < s.len() && row[k - prev.len()] == (s[n - 1], s[j])
                        && intervals_overlap(s[n - 1], s[j]);
                assert(all[k] == (s[n - 1], s[j]));
            }
        }
    }
}

/// Every pair that `check_hob_overlap` reports is a pair `(s[i], s[j])` of the list with
/// `i < j` whose ranges overlap.
pub proof fn law_overlapping_pairs_members<'b, T: Interval>(s: Seq<&'b T>, k: int)
    requires
        0 <= k < overlapping_pairs(s).len(),
    ensures
        exists|i: int, j: int| #![trigger s[i], s[j]]
            0 <= i < j < s.len() && overlapping_pairs(s)[k] == (s[i], s[j]) && intervals_overlap(s[i], s[j]),
{
    lemma_overlap_rows_members(s, s.len() as int);
    let rows = overlap_rows(s, s.len() as int);
    assert(rows[k] == overlapping_pairs(s)[k]);
    let (i, j) = choose|i: int, j: int| #![trigger s[i], s[j]]
        0 <= i < j < s.len() && rows[k] == (s[i], s[j]) && intervals_overlap(s[i], s[j]);
    assert(overlapping_pairs(s)[k] == (s[i], s[j]));
}


/// The number of violations in the report of a validation is the sum of what each check
/// reports: the HOB checks in the order in which they run, then the firmware volume checks.
pub proof fn law_report_counts_add_up<'a>(hobs: Seq<Hob>, fvs: Seq<FirmwareVolume>)
    ensures
        hob_violations::<'a>(hobs).len() == memory_overlap_violations::<'a>(hobs).len()
            + v1v2_attribute_violations::<'a>(hobs).len() + v1v2_superset_violations::<'a>(hobs).len()
            + page0_violations::<'a>(hobs).len() + uce_violations::<'a>(hobs).len()
            + cacheability_violations::<'a>(hobs).len() + io_cacheability_violations::<'a>(hobs).len()
            + memory_type_info_single_violations::<'a>(hobs).len()
            + memory_type_info_length_violations::<'a>(hobs).len()
            + allocation_overlap_violations::<'a>(hobs).len() + page_alignment_violations::<'a>(hobs).len()
            + fv_within_violations::<'a>(hobs).len(),
        fv_violations::<'a>(fvs).len() == smm_violations::<'a>(fvs).len() + combined_violations::<'a>(
            fvs,
        ).len() + section_violations::<'a>(fvs).len() + apriori_violations::<'a>(fvs).len(),
{
}

} // verus!
