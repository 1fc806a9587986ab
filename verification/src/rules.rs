//! The rules that the checks enforce, stated over the HOB list and the firmware volumes
//! themselves: which descriptors, bins and files each check looks at, and what it reports
//! of them.
use crate::counts::{
    fv_outside_allocations,
    is_apriori_file,
    allocates_page_zero, law_per_hob_violation_counts, v2_io_with_attributes, v2_memory_without_single_cacheability,
    v2_with_uce,
    intervals_overlap, law_overlapping_pairs_members, lemma_count_all,
    count_where, file_section_violation_count, is_combined_driver_file, is_smm_file,
    law_allocation_violation_counts, law_fv_violation_counts, lemma_count_where_ext, lemma_sum_of_ext, one_if, section_violation_count, sum_of,
};
use crate::fv::{apriori_violations, apriori_name, pei_apriori_name, combined_violations, section_violations, smm_violations};
use crate::guid::is_memory_type_info_spec;
use crate::text::hex_padded;
use crate::hob::{
    allocation_overlap_violations,
    allocation_holds_fv, firmware_volumes, fv_item, fv_within_violations, memory_allocations,
    covered_by, merged_v2_spans, plain_v1_item,
    cacheability_violations, counted_cache_mask, io_cacheability_violations, page0_violations, uce_violations,
    memory_overlap_violations, overlap_group, overlap_group_item,
    v1v2_superset_violations, v2_descriptors, v2_item,
    alloc_item, memory_resource_item, page_alignment_violations, first_bins, first_bins_in, memory_type_info_length_violations, memory_type_info_resources,
};
use crate::kind::{HobValidationKind, ValidationKind};
use crate::merge::{overlap_row, overlap_rows, overlapping_pairs};
use crate::laws::{law_v1_inside_a_v2_is_not_reported, law_v1_reported_iff_outside_v2_union, range_holds};
use crate::model::{
    FvHob, gather, gather_all, hob_list_ranges_fit, Interval, span_contains, MemAllocDescriptor, EFI_RESOURCE_IO, EFI_RESOURCE_IO_RESERVED, UEFI_PAGE_SIZE, FirmwareFile, FirmwareSection, FirmwareVolume, Hob, MemoryTypeInfoEntry, ResourceDescriptor};
use vstd::prelude::*;

verus! {

// ---------------------------------------------------------------------------------------
// The size of the Memory Type Information bins.
// ---------------------------------------------------------------------------------------
proof fn lemma_first_bins_none(hobs: Seq<Hob>, n: int)
    requires
        n <= hobs.len(),
        forall|j: int| 0 <= j < n ==> !(#[trigger] hobs[j] is MemoryTypeInformation),
    ensures
        first_bins_in(hobs, n) is None,
    decreases n,
{
    if n > 0 {
        lemma_first_bins_none(hobs, n - 1);
    }
}

proof fn lemma_first_bins_stays(hobs: Seq<Hob>, i: int, n: int)
    requires
        i <= n,
        first_bins_in(hobs, i) is Some,
    ensures
        first_bins_in(hobs, n) == first_bins_in(hobs, i),
    decreases n - i,
{
    if n > i {
        lemma_first_bins_stays(hobs, i, n - 1);
    }
}

/// The bins of the Memory Type Information GUID HOB at index `i`, the first one in the list,
/// are the bins that the length check sums.
proof fn lemma_first_bins_at(hobs: Seq<Hob>, i: int)
    requires
        0 <= i < hobs.len(),
        hobs[i] is MemoryTypeInformation,
        forall|j: int| 0 <= j < i ==> !(#[trigger] hobs[j] is MemoryTypeInformation),
    ensures
        first_bins(hobs) == Some(hobs[i]->entries@),
{
    lemma_first_bins_none(hobs, i);
    assert(first_bins_in(hobs, i + 1) == Some(hobs[i]->entries@));
    lemma_first_bins_stays(hobs, i + 1, hobs.len() as int);
}

proof fn lemma_bins_bytes_is_sum(e: Seq<MemoryTypeInfoEntry>)
    ensures
        crate::hob::bins_bytes(e) == sum_of(e, |b: MemoryTypeInfoEntry| b.number_of_pages as nat * 4096),
    decreases e.len(),
{
    if e.len() > 0 {
        lemma_bins_bytes_is_sum(e.drop_last());
    }
}

/// Where exactly one resource descriptor is owned by the Memory Type Information GUID and
/// the HOB at index `i` is the first Memory Type Information GUID HOB, the length check
/// reports one violation exactly when that descriptor is shorter than all the bins of that
/// GUID HOB together, each bin `number_of_pages` pages of 4096 bytes whatever its memory
/// type; the violation carries that total and the descriptor's length. Without a Memory
/// Type Information GUID HOB it reports nothing.
pub proof fn law_length_check_counts_every_bin<'a>(hobs: Seq<Hob>, i: int)
    requires
        0 <= i < hobs.len(),
        hobs[i] is MemoryTypeInformation,
        forall|j: int| 0 <= j < i ==> !(#[trigger] hobs[j] is MemoryTypeInformation),
        memory_type_info_resources::<'a>(hobs).len() == 1,
    ensures
        ({
            let total = sum_of(
                hobs[i]->entries@,
                |b: MemoryTypeInfoEntry| b.number_of_pages as nat * 4096,
            );
            let d = memory_type_info_resources::<'a>(hobs)[0];
            let v = memory_type_info_length_violations::<'a>(hobs);
            &&& v.len() <= 1
            &&& v.len() == 1 <==> (d.resource_length as nat) < total
            &&& v.len() == 1 ==> v[0] == ValidationKind::Hob(
                HobValidationKind::MemoryTypeInfoResourceLengthTooSmall {
                    hob1: d,
                    required_bytes: total as u64,
                    actual_bytes: d.resource_length,
                },
            )
        }),
{
    lemma_first_bins_at(hobs, i);
    lemma_bins_bytes_is_sum(hobs[i]->entries@);
}

/// Without a Memory Type Information GUID HOB the length check reports nothing.
pub proof fn law_length_check_needs_bins<'a>(hobs: Seq<Hob>)
    requires
        forall|j: int| 0 <= j < hobs.len() ==> !(#[trigger] hobs[j] is MemoryTypeInformation),
    ensures
        memory_type_info_length_violations::<'a>(hobs).len() == 0,
{
    lemma_first_bins_none(hobs, hobs.len() as int);
}


// ---------------------------------------------------------------------------------------
// The firmware volume file rules.
// ---------------------------------------------------------------------------------------
/// The file type is one of the traditional SMM types.
pub open spec fn smm_type_text(t: Seq<char>) -> bool {
    t == "CombinedPeimDriver"@ || t == "Mm"@ || t == "CombinedMmDxe"@ || t == "MmCore"@
}

/// The firmware volume checks look at the file types as written: one traditional SMM
/// violation for each file of type `CombinedPeimDriver`, `Mm`, `CombinedMmDxe` or `MmCore`;
/// one combined-driver violation for each file of type `CombinedPeimDriver` or
/// `CombinedMmDxe`; and section violations only in files of type `Driver`, `Application` or
/// `DxeCore`, one for each LZMA-compressed section and one for each misaligned PE image.
pub proof fn law_fv_file_types<'a>(fvs: Seq<FirmwareVolume>)
    ensures
        smm_violations::<'a>(fvs).len() == sum_of(
            fvs,
            |fv: FirmwareVolume| count_where(fv.files@, |f: FirmwareFile| smm_type_text(f.file_type@)),
        ),
        combined_violations::<'a>(fvs).len() == sum_of(
            fvs,
            |fv: FirmwareVolume|
                count_where(
                    fv.files@,
                    |f: FirmwareFile| f.file_type@ == "CombinedPeimDriver"@ || f.file_type@ == "CombinedMmDxe"@,
                ),
        ),
        section_violations::<'a>(fvs).len() == sum_of(
            fvs,
            |fv: FirmwareVolume|
                sum_of(
                    fv.files@,
                    |f: FirmwareFile|
                        if f.file_type@ == "Driver"@ || f.file_type@ == "Application"@ || f.file_type@
                            == "DxeCore"@ {
                            sum_of(f.sections@, |sct: FirmwareSection| section_violation_count(sct))
                        } else {
                            0
                        },
                ),
        ),
{
    law_fv_violation_counts(fvs);
    let a1 = |fv: FirmwareVolume| count_where(fv.files@, |f: FirmwareFile| is_smm_file(f));
    let a2 = |fv: FirmwareVolume| count_where(fv.files@, |f: FirmwareFile| smm_type_text(f.file_type@));
    assert forall|k: int| 0 <= k < fvs.len() implies #[trigger] a1(fvs[k]) == a2(fvs[k]) by {
        let files = fvs[k].files@;
        lemma_count_where_ext(files, |f: FirmwareFile| is_smm_file(f), |f: FirmwareFile| smm_type_text(f.file_type@));
    }
    lemma_sum_of_ext(fvs, a1, a2);
    let b1 = |fv: FirmwareVolume| count_where(fv.files@, |f: FirmwareFile| is_combined_driver_file(f));
    let b2 = |fv: FirmwareVolume|
        count_where(
            fv.files@,
            |f: FirmwareFile| f.file_type@ == "CombinedPeimDriver"@ || f.file_type@ == "CombinedMmDxe"@,
        );
    assert forall|k: int| 0 <= k < fvs.len() implies #[trigger] b1(fvs[k]) == b2(fvs[k]) by {
        let files = fvs[k].files@;
        lemma_count_where_ext(
            files,
            |f: FirmwareFile| is_combined_driver_file(f),
            |f: FirmwareFile| f.file_type@ == "CombinedPeimDriver"@ || f.file_type@ == "CombinedMmDxe"@,
        );
    }
    lemma_sum_of_ext(fvs, b1, b2);
    let g1 = |f: FirmwareFile| file_section_violation_count(f);
    let g2 = |f: FirmwareFile|
        if f.file_type@ == "Driver"@ || f.file_type@ == "Application"@ || f.file_type@ == "DxeCore"@ {
            sum_of(f.sections@, |sct: FirmwareSection| section_violation_count(sct))
        } else {
            0
        };
    let c1 = |fv: FirmwareVolume| sum_of(fv.files@, g1);
    let c2 = |fv: FirmwareVolume| sum_of(fv.files@, g2);
    assert forall|k: int| 0 <= k < fvs.len() implies #[trigger] c1(fvs[k]) == c2(fvs[k]) by {
        lemma_sum_of_ext(fvs[k].files@, g1, g2);
    }
    lemma_sum_of_ext(fvs, c1, c2);
    assert(sum_of(fvs, |fv: FirmwareVolume| sum_of(fv.files@, |f: FirmwareFile| file_section_violation_count(f)))
        == sum_of(fvs, c1)) by {
        lemma_sum_of_ext(
            fvs,
            |fv: FirmwareVolume| sum_of(fv.files@, |f: FirmwareFile| file_section_violation_count(f)),
            c1,
        );
    }
}


// ---------------------------------------------------------------------------------------
// Sums over gathered parts.
// ---------------------------------------------------------------------------------------
proof fn lemma_sum_of_concat<A>(a: Seq<A>, b: Seq<A>, g: spec_fn(A) -> nat)
    ensures
        sum_of(a + b, g) == sum_of(a, g) + sum_of(b, g),
    decreases b.len(),
{
    if b.len() > 0 {
        lemma_sum_of_concat(a, b.drop_last(), g);
        assert((a + b).drop_last() =~= a + b.drop_last());
        assert((a + b).last() == b.last());
    } else {
        assert(a + b =~= a);
    }
}

/// Summing over what `f` gathers from the first `n` elements is summing, element by
/// element, over the parts.
proof fn lemma_sum_of_gather<A, B>(s: Seq<A>, f: spec_fn(A) -> Seq<B>, g: spec_fn(B) -> nat, n: int)
    requires
        0 <= n <= s.len(),
    ensures
        sum_of(gather(s, f, n), g) == sum_of(s.take(n), |x: A| sum_of(f(x), g)),
    decreases n,
{
    if n > 0 {
        lemma_sum_of_gather(s, f, g, n - 1);
        lemma_sum_of_concat(gather(s, f, n - 1), f(s[n - 1]), g);
        assert(s.take(n).drop_last() =~= s.take(n - 1));
        assert(s.take(n).last() == s[n - 1]);
    }
}

proof fn lemma_sum_of_add<A>(s: Seq<A>, f: spec_fn(A) -> nat, g: spec_fn(A) -> nat)
    ensures
        sum_of(s, f) + sum_of(s, g) == sum_of(s, |x: A| f(x) + g(x)),
    decreases s.len(),
{
    if s.len() > 0 {
        lemma_sum_of_add(s.drop_last(), f, g);
    }
}

// ---------------------------------------------------------------------------------------
// Page alignment.
// ---------------------------------------------------------------------------------------
/// The page-alignment violations of one HOB: for a memory allocation, and for a V1 or V2
/// resource descriptor whose type is not IO, one for a start that is not a multiple of 4096
/// and one more for a length that is not; none for any other HOB.
pub open spec fn alignment_violations_of(h: Hob) -> nat {
    match h {
        Hob::MemoryAllocation { alloc_descriptor: a } => one_if(a.memory_base_address % 4096 != 0)
            + one_if(a.memory_length % 4096 != 0),
        Hob::ResourceDescriptor(r) => if r.resource_type != EFI_RESOURCE_IO && r.resource_type
            != EFI_RESOURCE_IO_RESERVED {
            one_if(r.physical_start % 4096 != 0) + one_if(r.resource_length % 4096 != 0)
        } else {
            0
        },
        Hob::ResourceDescriptorV2 { v1: r, .. } => if r.resource_type != EFI_RESOURCE_IO
            && r.resource_type != EFI_RESOURCE_IO_RESERVED {
            one_if(r.physical_start % 4096 != 0) + one_if(r.resource_length % 4096 != 0)
        } else {
            0
        },
        _ => 0,
    }
}

/// The page-alignment check looks at every memory allocation and at every V1 and every V2
/// resource descriptor that is not of IO type: the number of violations is the sum, over
/// the HOBs, of one for each start and one for each length that is not page aligned.
pub proof fn law_page_alignment_counts_every_descriptor<'a>(hobs: Seq<Hob>)
    ensures
        page_alignment_violations::<'a>(hobs).len() == sum_of(hobs, |h: Hob| alignment_violations_of(h)),
{
    law_allocation_violation_counts(hobs);
    let ga = |a: &'a MemAllocDescriptor|
        one_if(a.memory_base_address % UEFI_PAGE_SIZE != 0) + one_if(a.memory_length % UEFI_PAGE_SIZE != 0);
    let gr = |d: &'a ResourceDescriptor|
        one_if(d.physical_start % UEFI_PAGE_SIZE != 0) + one_if(d.resource_length % UEFI_PAGE_SIZE != 0);
    let n = hobs.len() as int;
    assert(hobs.take(n) =~= hobs);
    let fa = |h: Hob| alloc_item::<'a>(h);
    let fr = |h: Hob| memory_resource_item::<'a>(h);
    lemma_sum_of_gather(hobs, fa, ga, n);
    lemma_sum_of_gather(hobs, fr, gr, n);
    let pa = |x: Hob| sum_of(fa(x), ga);
    let pr = |x: Hob| sum_of(fr(x), gr);
    lemma_sum_of_add(hobs, pa, pr);
    assert forall|k: int| #![trigger hobs[k]] 0 <= k < hobs.len() implies pa(hobs[k]) + pr(hobs[k])
        == alignment_violations_of(hobs[k]) by {
        let h = hobs[k];
        let ea = Seq::<&'a MemAllocDescriptor>::empty();
        let er = Seq::<&'a ResourceDescriptor>::empty();
        assert(sum_of(ea, ga) == 0);
        assert(sum_of(er, gr) == 0);
        match h {
            Hob::MemoryAllocation { alloc_descriptor: a } => {
                assert(fa(h) =~= seq![&a]);
                assert(fr(h) =~= er);
                assert(seq![&a].drop_last() =~= ea);
                assert(sum_of(seq![&a], ga) == ga(&a));
            },
            Hob::ResourceDescriptor(r) => {
                assert(fa(h) =~= ea);
                assert(seq![&r].drop_last() =~= er);
                assert(sum_of(seq![&r], gr) == gr(&r));
                if r.resource_type == EFI_RESOURCE_IO || r.resource_type == EFI_RESOURCE_IO_RESERVED {
                    assert(fr(h) =~= er);
                } else {
                    assert(fr(h) =~= seq![&r]);
                }
            },
            Hob::ResourceDescriptorV2 { v1: r, .. } => {
                assert(fa(h) =~= ea);
                assert(seq![&r].drop_last() =~= er);
                assert(sum_of(seq![&r], gr) == gr(&r));
                if r.resource_type == EFI_RESOURCE_IO || r.resource_type == EFI_RESOURCE_IO_RESERVED {
                    assert(fr(h) =~= er);
                } else {
                    assert(fr(h) =~= seq![&r]);
                }
            },
            _ => {
                assert(fa(h) =~= ea);
                assert(fr(h) =~= er);
            },
        }
    }
    lemma_sum_of_ext(hobs, |x: Hob| pa(x) + pr(x), |h: Hob| alignment_violations_of(h));
}


// ---------------------------------------------------------------------------------------
// Where gathered elements come from.
// ---------------------------------------------------------------------------------------
/// Every element of a part gathered from one of the first `n` elements lies in the
/// gathered sequence.
proof fn lemma_gather_has_part<A, B>(s: Seq<A>, f: spec_fn(A) -> Seq<B>, n: int, j: int, t: int)
    requires
        0 <= j < n <= s.len(),
        0 <= t < f(s[j]).len(),
    ensures
        exists|idx: int| 0 <= idx < gather(s, f, n).len() && #[trigger] gather(s, f, n)[idx] == f(s[j])[t],
    decreases n,
{
    let g = gather(s, f, n - 1);
    if j < n - 1 {
        lemma_gather_has_part(s, f, n - 1, j, t);
        let idx = choose|idx: int| 0 <= idx < g.len() && #[trigger] g[idx] == f(s[j])[t];
        assert(gather(s, f, n)[idx] == g[idx]);
    } else {
        assert(gather(s, f, n)[g.len() + t] == f(s[j])[t]);
    }
}

/// Every element of the gathered sequence lies in the part of one of the first `n`
/// elements.
proof fn lemma_gather_from_part<A, B>(s: Seq<A>, f: spec_fn(A) -> Seq<B>, n: int, idx: int)
    requires
        0 <= n <= s.len(),
        0 <= idx < gather(s, f, n).len(),
    ensures
        exists|j: int, t: int|
            0 <= j < n && 0 <= t < f(s[j]).len() && #[trigger] f(s[j])[t] == gather(s, f, n)[idx],
    decreases n,
{
    let g = gather(s, f, n - 1);
    if idx < g.len() {
        lemma_gather_from_part(s, f, n - 1, idx);
        assert(gather(s, f, n)[idx] == g[idx]);
    } else {
        assert(gather(s, f, n)[idx] == f(s[n - 1])[idx - g.len()]);
    }
}

// ---------------------------------------------------------------------------------------
// The V1/V2 superset check.
// ---------------------------------------------------------------------------------------
/// A V1 range reported by the superset check lies within the range of no V2 resource
/// descriptor of the list that the Memory Type Information GUID does not own, whatever the
/// resource type of that V2 descriptor (IO included).
pub proof fn law_v1_inside_any_v2_is_not_reported<'a>(hobs: Seq<Hob>, k: int, j: int)
    requires
        hob_list_ranges_fit(hobs),
        0 <= k < v1v2_superset_violations::<'a>(hobs).len(),
        0 <= j < hobs.len(),
        hobs[j] is ResourceDescriptorV2,
        !is_memory_type_info_spec(hobs[j]->v1),
    ensures
        match v1v2_superset_violations::<'a>(hobs)[k] {
            ValidationKind::Hob(HobValidationKind::V1MemoryRangeNotContainedInV2 { hob1 }) => !span_contains(
                hobs[j]->v1.physical_start as int,
                hobs[j]->v1.physical_start + hobs[j]->v1.resource_length,
                hob1.physical_start as int,
                hob1.physical_start + hob1.resource_length,
            ),
            _ => false,
        },
{
    law_v1_inside_a_v2_is_not_reported(hobs);
    let f = |h: Hob| v2_item::<'a>(h);
    assert(f(hobs[j])[0] == hobs[j]->v1);
    lemma_gather_has_part(hobs, f, hobs.len() as int, j, 0);
    let v2s = v2_descriptors::<'a>(hobs);
    let idx = choose|idx: int| 0 <= idx < v2s.len() && #[trigger] v2s[idx] == f(hobs[j])[0];
    assert(v2s[idx] == hobs[j]->v1);
}


/// Counting over a longer prefix counts no fewer.
proof fn lemma_count_take_mono<A>(s: Seq<A>, q: spec_fn(A) -> bool, i: int, j: int)
    requires
        0 <= i <= j <= s.len(),
    ensures
        count_where(s.take(i), q) <= count_where(s.take(j), q),
    decreases j - i,
{
    if j > i {
        lemma_count_take_mono(s, q, i, j - 1);
        assert(s.take(j).drop_last() =~= s.take(j - 1));
    }
}

/// One more element in the prefix adds one to the count where `q` holds of it.
proof fn lemma_count_take_step<A>(s: Seq<A>, q: spec_fn(A) -> bool, i: int)
    requires
        0 <= i < s.len(),
    ensures
        count_where(s.take(i + 1), q) == count_where(s.take(i), q) + one_if(q(s[i])),
{
    assert(s.take(i + 1).drop_last() =~= s.take(i));
    assert(s.take(i + 1).last() == s[i]);
}

/// Where every part is one element for the elements that `q` holds of and none for the
/// others, the element gathered from `s[i]` stands at the position that counts the
/// elements before it that `q` holds of, and every gathered element stands so.
proof fn lemma_filter_gather<A, B>(s: Seq<A>, f: spec_fn(A) -> Seq<B>, q: spec_fn(A) -> bool, n: int)
    requires
        0 <= n <= s.len(),
        forall|x: A| #[trigger] f(x).len() == one_if(q(x)),
    ensures
        gather(s, f, n).len() == count_where(s.take(n), q),
        forall|i: int|
            #![trigger s[i]]
            0 <= i < n && q(s[i]) ==> gather(s, f, n)[count_where(s.take(i), q) as int] == f(s[i])[0],
    decreases n,
{
    if n > 0 {
        lemma_filter_gather(s, f, q, n - 1);
        let g0 = gather(s, f, n - 1);
        let g = gather(s, f, n);
        lemma_count_take_step(s, q, n - 1);
        assert(f(s[n - 1]).len() == one_if(q(s[n - 1])));
        assert forall|i: int| #![trigger s[i]] 0 <= i < n && q(s[i]) implies g[count_where(
            s.take(i),
            q,
        ) as int] == f(s[i])[0] by {
            if i < n - 1 {
                lemma_count_take_step(s, q, i);
                lemma_count_take_mono(s, q, i + 1, n - 1);
                assert(g[count_where(s.take(i), q) as int] == g0[count_where(s.take(i), q) as int]);
            }
        }
    } else {
        assert(gather(s, f, n).len() == 0);
        assert(s.take(0).len() == 0);
    }
}


/// Every element gathered as in `lemma_filter_gather` comes from an element that `q` holds
/// of, at the position that counts the elements before it that `q` holds of.
proof fn lemma_filter_gather_source<A, B>(
    s: Seq<A>,
    f: spec_fn(A) -> Seq<B>,
    q: spec_fn(A) -> bool,
    n: int,
    idx: int,
)
    requires
        0 <= n <= s.len(),
        forall|x: A| #[trigger] f(x).len() == one_if(q(x)),
        0 <= idx < gather(s, f, n).len(),
    ensures
        exists|i: int| #![trigger s[i]] 0 <= i < n && q(s[i]) && count_where(s.take(i), q) == idx,
    decreases n,
{
    lemma_filter_gather(s, f, q, n - 1);
    lemma_count_take_step(s, q, n - 1);
    let g0 = gather(s, f, n - 1);
    assert(f(s[n - 1]).len() == one_if(q(s[n - 1])));
    if idx < g0.len() {
        lemma_filter_gather_source(s, f, q, n - 1, idx);
    } else {
        assert(q(s[n - 1]));
        assert(count_where(s.take(n - 1), q) == idx);
    }
}


// ---------------------------------------------------------------------------------------
// The resource descriptor overlap check.
// ---------------------------------------------------------------------------------------
proof fn lemma_overlap_row_has<'b, T: Interval>(g: Seq<&'b T>, a: int, b: int, m: int)
    requires
        0 <= a < b < m <= g.len(),
        intervals_overlap(g[a], g[b]),
    ensures
        exists|k: int| 0 <= k < overlap_row(g, a, m).len() && #[trigger] overlap_row(g, a, m)[k] == (g[a], g[b]),
    decreases m,
{
    let prev = overlap_row(g, a, m - 1);
    if m - 1 == b {
        assert(overlap_row(g, a, m)[prev.len() as int] == (g[a], g[b]));
    } else {
        lemma_overlap_row_has(g, a, b, m - 1);
        let k = choose|k: int| 0 <= k < prev.len() && #[trigger] prev[k] == (g[a], g[b]);
        assert(overlap_row(g, a, m)[k] == prev[k]);
    }
}

proof fn lemma_overlap_rows_has<'b, T: Interval>(g: Seq<&'b T>, a: int, b: int, n: int)
    requires
        0 <= a < b < g.len(),
        a < n <= g.len(),
        intervals_overlap(g[a], g[b]),
    ensures
        exists|k: int| 0 <= k < overlap_rows(g, n).len() && #[trigger] overlap_rows(g, n)[k] == (g[a], g[b]),
    decreases n,
{
    let prev = overlap_rows(g, n - 1);
    if n - 1 == a {
        lemma_overlap_row_has(g, a, b, g.len() as int);
        let row = overlap_row(g, a, g.len() as int);
        let k = choose|k: int| 0 <= k < row.len() && #[trigger] row[k] == (g[a], g[b]);
        assert(overlap_rows(g, n)[prev.len() + k] == row[k]);
    } else {
        lemma_overlap_rows_has(g, a, b, n - 1);
        let k = choose|k: int| 0 <= k < prev.len() && #[trigger] prev[k] == (g[a], g[b]);
        assert(overlap_rows(g, n)[k] == prev[k]);
    }
}

/// The resource descriptor, V1 or V2, that a HOB carries, if any.
pub open spec fn carried_descriptor(h: Hob) -> Option<ResourceDescriptor> {
    match h {
        Hob::ResourceDescriptor(r) => Some(r),
        Hob::ResourceDescriptorV2 { v1, .. } => Some(v1),
        _ => None,
    }
}

/// The HOB belongs to the overlap group `(v2, io)`.
spec fn in_group(h: Hob, v2: bool, io: bool) -> bool {
    overlap_group_item::<'static>(h, v2, io).len() == 1
}

/// The facts behind one overlapping pair of the group `(v2, io)`: it comes from HOBs
/// `i < j` of that kind and class, neither owned by the Memory Type Information GUID, whose
/// ranges overlap.
proof fn lemma_group_pair(hobs: Seq<Hob>, v2: bool, io: bool, k: int)
    requires
        0 <= k < overlapping_pairs(overlap_group::<'static>(hobs, v2, io)).len(),
    ensures
        ({
            let p = overlapping_pairs(overlap_group::<'static>(hobs, v2, io))[k];
            &&& (p.0.resource_type == EFI_RESOURCE_IO || p.0.resource_type == EFI_RESOURCE_IO_RESERVED) == io
            &&& (p.1.resource_type == EFI_RESOURCE_IO || p.1.resource_type == EFI_RESOURCE_IO_RESERVED) == io
            &&& !is_memory_type_info_spec(*p.0) && !is_memory_type_info_spec(*p.1)
            &&& p.0.physical_start < p.1.physical_start + p.1.resource_length
            &&& p.1.physical_start < p.0.physical_start + p.0.resource_length
            &&& exists|i: int, j: int|
                #![trigger hobs[i], hobs[j]]
                0 <= i < j < hobs.len() && (hobs[i] is ResourceDescriptorV2) == v2 && (hobs[j] is ResourceDescriptorV2)
                    == v2 && carried_descriptor(hobs[i]) == Some(*p.0) && carried_descriptor(hobs[j])
                    == Some(*p.1)
        }),
{
    let g = overlap_group::<'static>(hobs, v2, io);
    let f = |h: Hob| overlap_group_item::<'static>(h, v2, io);
    let q = |h: Hob| in_group(h, v2, io);
    let n = hobs.len() as int;
    assert forall|x: Hob| #[trigger] f(x).len() == one_if(q(x)) by {}
    law_overlapping_pairs_members(g, k);
    let (a, b) = choose|a: int, b: int| #![trigger g[a], g[b]]
        0 <= a < b < g.len() && overlapping_pairs(g)[k] == (g[a], g[b]) && intervals_overlap(g[a], g[b]);
    lemma_filter_gather(hobs, f, q, n);
    lemma_filter_gather_source(hobs, f, q, n, a);
    lemma_filter_gather_source(hobs, f, q, n, b);
    let i = choose|i: int| #![trigger hobs[i]] 0 <= i < n && q(hobs[i]) && count_where(hobs.take(i), q) == a;
    let j = choose|j: int| #![trigger hobs[j]] 0 <= j < n && q(hobs[j]) && count_where(hobs.take(j), q) == b;
    assert(g[a] == f(hobs[i])[0]);
    assert(g[b] == f(hobs[j])[0]);
    if j <= i {
        lemma_count_take_mono(hobs, q, j, i);
    }
    assert(i < j);
    assert(0 <= i < j < hobs.len() && (hobs[i] is ResourceDescriptorV2) == v2 && (hobs[j] is ResourceDescriptorV2)
        == v2 && carried_descriptor(hobs[i]) == Some(*g[a]) && carried_descriptor(hobs[j]) == Some(*g[b]));
}


/// The pairs of the four overlap groups, in the order in which the check reports them.
spec fn all_group_pairs(hobs: Seq<Hob>) -> Seq<(&'static ResourceDescriptor, &'static ResourceDescriptor)> {
    overlapping_pairs(overlap_group::<'static>(hobs, false, false)) + overlapping_pairs(
        overlap_group::<'static>(hobs, true, false),
    ) + overlapping_pairs(overlap_group::<'static>(hobs, false, true)) + overlapping_pairs(
        overlap_group::<'static>(hobs, true, true),
    )
}

/// The violation at position `k` of the overlap check names the pair at position `k` of
/// the four groups' pairs.
proof fn lemma_overlap_report_at(hobs: Seq<Hob>, k: int)
    requires
        0 <= k < all_group_pairs(hobs).len(),
    ensures
        memory_overlap_violations::<'static>(hobs).len() == all_group_pairs(hobs).len(),
        memory_overlap_violations::<'static>(hobs)[k] == ValidationKind::Hob(
            HobValidationKind::OverlappingMemoryRanges {
                hob1: all_group_pairs(hobs)[k].0,
                hob2: all_group_pairs(hobs)[k].1,
            },
        ),
{
    let ps = all_group_pairs(hobs);
    let f = |p: (&'static ResourceDescriptor, &'static ResourceDescriptor)|
        seq![ValidationKind::Hob(HobValidationKind::OverlappingMemoryRanges { hob1: p.0, hob2: p.1 })];
    let q = |p: (&'static ResourceDescriptor, &'static ResourceDescriptor)| true;
    assert forall|x: (&'static ResourceDescriptor, &'static ResourceDescriptor)| #[trigger] f(x).len() == one_if(q(x)) by {}
    lemma_filter_gather(ps, f, q, ps.len() as int);
    lemma_count_all(ps.take(k));
    lemma_count_all(ps.take(ps.len() as int));
    assert(ps.take(ps.len() as int) =~= ps);
    assert(q(ps[k]));
}

/// Every pair that the resource descriptor overlap check reports is two descriptors, of
/// HOBs `i < j` of the list, that are both V1 or both V2, both of IO type
/// (`EFI_RESOURCE_IO` or `EFI_RESOURCE_IO_RESERVED`) or both of another type, neither owned
/// by the Memory Type Information GUID, and whose ranges share an address: a memory
/// descriptor and an IO descriptor are never reported together.
pub proof fn law_overlap_pairs_share_kind_and_class<'a>(hobs: Seq<Hob>, k: int)
    requires
        0 <= k < memory_overlap_violations::<'a>(hobs).len(),
    ensures
        match memory_overlap_violations::<'a>(hobs)[k] {
            ValidationKind::Hob(HobValidationKind::OverlappingMemoryRanges { hob1, hob2 }) => {
                &&& (hob1.resource_type == EFI_RESOURCE_IO || hob1.resource_type == EFI_RESOURCE_IO_RESERVED)
                    == (hob2.resource_type == EFI_RESOURCE_IO || hob2.resource_type == EFI_RESOURCE_IO_RESERVED)
                &&& !is_memory_type_info_spec(*hob1) && !is_memory_type_info_spec(*hob2)
                &&& hob1.physical_start < hob2.physical_start + hob2.resource_length
                &&& hob2.physical_start < hob1.physical_start + hob1.resource_length
                &&& exists|i: int, j: int|
                    #![trigger hobs[i], hobs[j]]
                    0 <= i < j < hobs.len() && (hobs[i] is ResourceDescriptorV2) == (hobs[j] is ResourceDescriptorV2)
                        && carried_descriptor(hobs[i]) == Some(*hob1) && carried_descriptor(hobs[j])
                        == Some(*hob2)
            },
            _ => false,
        },
{
    let p1 = overlapping_pairs(overlap_group::<'static>(hobs, false, false));
    let p2 = overlapping_pairs(overlap_group::<'static>(hobs, true, false));
    let p3 = overlapping_pairs(overlap_group::<'static>(hobs, false, true));
    let p4 = overlapping_pairs(overlap_group::<'static>(hobs, true, true));
    let ps = all_group_pairs(hobs);
    assert(memory_overlap_violations::<'static>(hobs).len() == ps.len()) by {
        if ps.len() > 0 {
            lemma_overlap_report_at(hobs, 0);
        }
    }
    lemma_overlap_report_at(hobs, k);
    if k < p1.len() {
        assert(ps[k] == p1[k]);
        lemma_group_pair(hobs, false, false, k);
    } else if k < p1.len() + p2.len() {
        assert(ps[k] == p2[k - p1.len()]);
        lemma_group_pair(hobs, true, false, k - p1.len());
    } else if k < p1.len() + p2.len() + p3.len() {
        assert(ps[k] == p3[k - p1.len() - p2.len()]);
        lemma_group_pair(hobs, false, true, k - p1.len() - p2.len());
    } else {
        assert(ps[k] == p4[k - p1.len() - p2.len() - p3.len()]);
        lemma_group_pair(hobs, true, true, k - p1.len() - p2.len() - p3.len());
    }
}


/// The pair of descriptors of HOBs `i < j` of the group `(v2, io)` appears among the
/// overlapping pairs of that group where their ranges overlap.
proof fn lemma_group_has_pair(hobs: Seq<Hob>, v2: bool, io: bool, i: int, j: int)
    requires
        0 <= i < j < hobs.len(),
        in_group(hobs[i], v2, io),
        in_group(hobs[j], v2, io),
        intervals_overlap(
            overlap_group_item::<'static>(hobs[i], v2, io)[0],
            overlap_group_item::<'static>(hobs[j], v2, io)[0],
        ),
    ensures
        exists|k: int|
            0 <= k < overlapping_pairs(overlap_group::<'static>(hobs, v2, io)).len()
                && #[trigger] overlapping_pairs(overlap_group::<'static>(hobs, v2, io))[k] == (
                overlap_group_item::<'static>(hobs[i], v2, io)[0],
                overlap_group_item::<'static>(hobs[j], v2, io)[0],
            ),
{
    let g = overlap_group::<'static>(hobs, v2, io);
    let f = |h: Hob| overlap_group_item::<'static>(h, v2, io);
    let q = |h: Hob| in_group(h, v2, io);
    let n = hobs.len() as int;
    assert forall|x: Hob| #[trigger] f(x).len() == one_if(q(x)) by {}
    lemma_filter_gather(hobs, f, q, n);
    assert(hobs.take(n) =~= hobs);
    let a = count_where(hobs.take(i), q) as int;
    let b = count_where(hobs.take(j), q) as int;
    lemma_count_take_step(hobs, q, i);
    lemma_count_take_mono(hobs, q, i + 1, j);
    lemma_count_take_step(hobs, q, j);
    lemma_count_take_mono(hobs, q, j + 1, n);
    assert(q(hobs[i]) && q(hobs[j]));
    assert(g[a] == f(hobs[i])[0]);
    assert(g[b] == f(hobs[j])[0]);
    assert(a < b < g.len());
    lemma_overlap_rows_has(g, a, b, g.len() as int);
    let rows = overlap_rows(g, g.len() as int);
    let k = choose|k: int| 0 <= k < rows.len() && #[trigger] rows[k] == (g[a], g[b]);
    assert(overlapping_pairs(g)[k] == rows[k]);
}

/// Two descriptors of HOBs `i < j` that are both V1 or both V2, both of IO type or both of
/// another type, neither owned by the Memory Type Information GUID, and whose ranges share
/// an address, are reported as an overlapping pair.
pub proof fn law_overlapping_descriptors_are_reported<'a>(hobs: Seq<Hob>, i: int, j: int)
    requires
        0 <= i < j < hobs.len(),
        carried_descriptor(hobs[i]) is Some,
        carried_descriptor(hobs[j]) is Some,
        (hobs[i] is ResourceDescriptorV2) == (hobs[j] is ResourceDescriptorV2),
        ({
            let d1 = carried_descriptor(hobs[i])->0;
            let d2 = carried_descriptor(hobs[j])->0;
            &&& (d1.resource_type == EFI_RESOURCE_IO || d1.resource_type == EFI_RESOURCE_IO_RESERVED)
                == (d2.resource_type == EFI_RESOURCE_IO || d2.resource_type == EFI_RESOURCE_IO_RESERVED)
            &&& !is_memory_type_info_spec(d1) && !is_memory_type_info_spec(d2)
            &&& d1.physical_start < d2.physical_start + d2.resource_length
            &&& d2.physical_start < d1.physical_start + d1.resource_length
        }),
    ensures
        exists|k: int|
            0 <= k < memory_overlap_violations::<'a>(hobs).len() && (#[trigger] memory_overlap_violations::<'a>(
                hobs,
            )[k] matches ValidationKind::Hob(HobValidationKind::OverlappingMemoryRanges { hob1, hob2 })
                && *hob1 == carried_descriptor(hobs[i])->0 && *hob2 == carried_descriptor(hobs[j])->0),
{
    let d1 = carried_descriptor(hobs[i])->0;
    let v2 = hobs[i] is ResourceDescriptorV2;
    let io = d1.resource_type == EFI_RESOURCE_IO || d1.resource_type == EFI_RESOURCE_IO_RESERVED;
    assert(in_group(hobs[i], v2, io));
    assert(in_group(hobs[j], v2, io));
    lemma_group_has_pair(hobs, v2, io, i, j);
    let p1 = overlapping_pairs(overlap_group::<'static>(hobs, false, false));
    let p2 = overlapping_pairs(overlap_group::<'static>(hobs, true, false));
    let p3 = overlapping_pairs(overlap_group::<'static>(hobs, false, true));
    let p4 = overlapping_pairs(overlap_group::<'static>(hobs, true, true));
    let ps = all_group_pairs(hobs);
    let pg = overlapping_pairs(overlap_group::<'static>(hobs, v2, io));
    let x = (overlap_group_item::<'static>(hobs[i], v2, io)[0], overlap_group_item::<'static>(hobs[j], v2, io)[0]);
    let k0 = choose|k: int| 0 <= k < pg.len() && #[trigger] pg[k] == x;
    let off: int = if !v2 && !io {
        0
    } else if v2 && !io {
        p1.len() as int
    } else if !v2 && io {
        (p1.len() + p2.len()) as int
    } else {
        (p1.len() + p2.len() + p3.len()) as int
    };
    assert(ps[off + k0] == x);
    lemma_overlap_report_at(hobs, off + k0);
}


// ---------------------------------------------------------------------------------------
// The checks that look at one HOB at a time.
// ---------------------------------------------------------------------------------------
/// The checks that look at one HOB at a time, stated over the HOBs: one page-zero
/// violation for each memory allocation whose base address is below 4096; one UCE
/// violation for each V2 descriptor with the UCE bit (0x10) set; one cacheability violation
/// for each V2 descriptor of a type other than IO (2) or reserved IO (6) whose attributes,
/// masked to UC, WC, WT, WB and WP (0x100f), are not exactly one of those bits; and one IO
/// violation for each V2 descriptor of IO or reserved IO type with any attribute set.
pub proof fn law_per_hob_rules<'a>(hobs: Seq<Hob>)
    ensures
        page0_violations::<'a>(hobs).len() == count_where(
            hobs,
            |h: Hob| h matches Hob::MemoryAllocation { alloc_descriptor } && alloc_descriptor.memory_base_address < 4096,
        ),
        uce_violations::<'a>(hobs).len() == count_where(
            hobs,
            |h: Hob| h matches Hob::ResourceDescriptorV2 { attributes, .. } && attributes & 0x10 != 0,
        ),
        cacheability_violations::<'a>(hobs).len() == count_where(
            hobs,
            |h: Hob|
                h matches Hob::ResourceDescriptorV2 { v1, attributes } && v1.resource_type != 2
                    && v1.resource_type != 6 && !(attributes & 0x100f == 0x1 || attributes & 0x100f == 0x2
                    || attributes & 0x100f == 0x4 || attributes & 0x100f == 0x8 || attributes & 0x100f
                    == 0x1000),
        ),
        io_cacheability_violations::<'a>(hobs).len() == count_where(
            hobs,
            |h: Hob|
                h matches Hob::ResourceDescriptorV2 { v1, attributes } && (v1.resource_type == 2
                    || v1.resource_type == 6) && attributes != 0,
        ),
{
    law_per_hob_violation_counts(hobs);
    lemma_count_where_ext(
        hobs,
        |h: Hob| allocates_page_zero(h),
        |h: Hob| h matches Hob::MemoryAllocation { alloc_descriptor } && alloc_descriptor.memory_base_address < 4096,
    );
    lemma_count_where_ext(
        hobs,
        |h: Hob| v2_with_uce(h),
        |h: Hob| h matches Hob::ResourceDescriptorV2 { attributes, .. } && attributes & 0x10 != 0,
    );
    assert(counted_cache_mask() == 0x100fu64) by (bit_vector);
    lemma_count_where_ext(
        hobs,
        |h: Hob| v2_memory_without_single_cacheability(h),
        |h: Hob|
            h matches Hob::ResourceDescriptorV2 { v1, attributes } && v1.resource_type != 2
                && v1.resource_type != 6 && !(attributes & 0x100f == 0x1 || attributes & 0x100f == 0x2
                || attributes & 0x100f == 0x4 || attributes & 0x100f == 0x8 || attributes & 0x100f
                == 0x1000),
    );
    lemma_count_where_ext(
        hobs,
        |h: Hob| v2_io_with_attributes(h),
        |h: Hob|
            h matches Hob::ResourceDescriptorV2 { v1, attributes } && (v1.resource_type == 2
                || v1.resource_type == 6) && attributes != 0,
    );
}


/// The address lies in the range of some V2 resource descriptor of the list that the
/// Memory Type Information GUID does not own.
pub open spec fn in_some_v2_range(hobs: Seq<Hob>, p: int) -> bool {
    exists|j: int|
        #![trigger hobs[j]]
        0 <= j < hobs.len() && hobs[j] is ResourceDescriptorV2 && !is_memory_type_info_spec(hobs[j]->v1)
            && hobs[j]->v1.physical_start <= p < hobs[j]->v1.physical_start + hobs[j]->v1.resource_length
}

/// An address of `v2_descriptors` lies in the range of a V2 HOB of the list, and back.
proof fn lemma_v2_ranges_are_the_v2_hobs(hobs: Seq<Hob>, p: int)
    ensures
        range_holds(v2_descriptors::<'static>(hobs), p) <==> in_some_v2_range(hobs, p),
{
    let f = |h: Hob| v2_item::<'static>(h);
    let v2s = v2_descriptors::<'static>(hobs);
    let n = hobs.len() as int;
    if range_holds(v2s, p) {
        let idx = choose|idx: int| 0 <= idx < v2s.len() && (#[trigger] v2s[idx]).lo() <= p < v2s[idx].hi();
        lemma_gather_from_part(hobs, f, n, idx);
        let (j, t) = choose|j: int, t: int| 0 <= j < n && 0 <= t < f(hobs[j]).len() && #[trigger] f(hobs[j])[t] == v2s[idx];
        assert(hobs[j] is ResourceDescriptorV2);
    }
    if in_some_v2_range(hobs, p) {
        let j = choose|j: int|
            #![trigger hobs[j]]
            0 <= j < hobs.len() && hobs[j] is ResourceDescriptorV2 && !is_memory_type_info_spec(hobs[j]->v1)
                && hobs[j]->v1.physical_start <= p < hobs[j]->v1.physical_start + hobs[j]->v1.resource_length;
        assert(f(hobs[j])[0] == hobs[j]->v1);
        lemma_gather_has_part(hobs, f, n, j, 0);
        let idx = choose|idx: int| 0 <= idx < v2s.len() && #[trigger] v2s[idx] == f(hobs[j])[0];
        assert(v2s[idx].lo() <= p < v2s[idx].hi());
    }
}

/// A V1 resource descriptor of the list, not owned by the Memory Type Information GUID,
/// with an address that no V2 descriptor of the list (other than those owned by that GUID)
/// covers, is reported by the superset check.
pub proof fn law_v1_outside_v2_ranges_is_reported<'a>(hobs: Seq<Hob>, i: int, p: int)
    requires
        hob_list_ranges_fit(hobs),
        0 <= i < hobs.len(),
        hobs[i] is ResourceDescriptor,
        !is_memory_type_info_spec(hobs[i]->0),
        hobs[i]->0.physical_start <= p < hobs[i]->0.physical_start + hobs[i]->0.resource_length,
        !in_some_v2_range(hobs, p),
    ensures
        exists|k: int|
            0 <= k < v1v2_superset_violations::<'a>(hobs).len() && (#[trigger] v1v2_superset_violations::<'a>(
                hobs,
            )[k] matches ValidationKind::Hob(HobValidationKind::V1MemoryRangeNotContainedInV2 { hob1 })
                && *hob1 == hobs[i]->0),
{
    let r = hobs[i]->0;
    let n = hobs.len() as int;
    let g = |h: Hob| plain_v1_item::<'static>(h);
    let v1s = gather_all(hobs, g);
    assert(g(hobs[i])[0] == r);
    lemma_gather_has_part(hobs, g, n, i, 0);
    let a = choose|a: int| 0 <= a < v1s.len() && #[trigger] v1s[a] == g(hobs[i])[0];
    lemma_v2_ranges_are_the_v2_hobs(hobs, p);
    law_v1_reported_iff_outside_v2_union(hobs, v1s[a]);
    assert(!covered_by(merged_v2_spans(hobs), v1s[a]));
    let f = |d: &'static ResourceDescriptor|
        if covered_by(merged_v2_spans(hobs), d) {
            seq![]
        } else {
            seq![ValidationKind::Hob(HobValidationKind::V1MemoryRangeNotContainedInV2 { hob1: d })]
        };
    lemma_gather_has_part(v1s, f, v1s.len() as int, a, 0);
    let rep = v1v2_superset_violations::<'static>(hobs);
    let k = choose|k: int| 0 <= k < rep.len() && #[trigger] rep[k] == f(v1s[a])[0];
    assert(rep[k] matches ValidationKind::Hob(HobValidationKind::V1MemoryRangeNotContainedInV2 { hob1 }) && *hob1 == r);
}

/// Every V1 range that the superset check reports is the descriptor of a V1 HOB of the
/// list that the Memory Type Information GUID does not own; where the range is not empty,
/// some address of it lies in the range of no V2 descriptor of the list that the GUID does
/// not own.
pub proof fn law_reported_v1_is_outside_v2_ranges<'a>(hobs: Seq<Hob>, k: int)
    requires
        hob_list_ranges_fit(hobs),
        0 <= k < v1v2_superset_violations::<'a>(hobs).len(),
    ensures
        match v1v2_superset_violations::<'a>(hobs)[k] {
            ValidationKind::Hob(HobValidationKind::V1MemoryRangeNotContainedInV2 { hob1 }) => {
                &&& exists|i: int| #![trigger hobs[i]] 0 <= i < hobs.len() && hobs[i] == Hob::ResourceDescriptor(*hob1)
                &&& !is_memory_type_info_spec(*hob1)
                &&& hob1.resource_length > 0 ==> exists|p: int|
                    hob1.physical_start <= p < hob1.physical_start + hob1.resource_length
                        && !#[trigger] in_some_v2_range(hobs, p)
            },
            _ => false,
        },
{
    let n = hobs.len() as int;
    let g = |h: Hob| plain_v1_item::<'static>(h);
    let v1s = gather_all(hobs, g);
    let f = |d: &'static ResourceDescriptor|
        if covered_by(merged_v2_spans(hobs), d) {
            seq![]
        } else {
            seq![ValidationKind::Hob(HobValidationKind::V1MemoryRangeNotContainedInV2 { hob1: d })]
        };
    let rep = v1v2_superset_violations::<'static>(hobs);
    lemma_gather_from_part(v1s, f, v1s.len() as int, k);
    let (a, t) = choose|a: int, t: int| 0 <= a < v1s.len() && 0 <= t < f(v1s[a]).len() && #[trigger] f(v1s[a])[t] == rep[k];
    let d = v1s[a];
    assert(!covered_by(merged_v2_spans(hobs), d));
    assert(rep[k] == ValidationKind::Hob(HobValidationKind::V1MemoryRangeNotContainedInV2 { hob1: d }));
    lemma_gather_from_part(hobs, g, n, a);
    let (i, u) = choose|i: int, u: int| 0 <= i < n && 0 <= u < g(hobs[i]).len() && #[trigger] g(hobs[i])[u] == v1s[a];
    assert(hobs[i] == Hob::ResourceDescriptor(*d));
    if d.resource_length > 0 {
        law_v1_reported_iff_outside_v2_union(hobs, d);
        let p = choose|p: int| d.lo() <= p < d.hi() && !#[trigger] range_holds(v2_descriptors::<'static>(hobs), p);
        lemma_v2_ranges_are_the_v2_hobs(hobs, p);
    }
}


// ---------------------------------------------------------------------------------------
// The Apriori file names.
// ---------------------------------------------------------------------------------------
/// The Apriori check looks for the files named `1b45cc0a-156a-428a-af62-49864da0e6e6` (the
/// PEI Apriori file) and `fc510ee7-ffdc-11d4-bd41-0080c73c8881` (the DXE Apriori file), as
/// written in the capture.
pub proof fn law_apriori_file_names()
    ensures
        pei_apriori_name() == "1b45cc0a-156a-428a-af62-49864da0e6e6"@,
        apriori_name() == "fc510ee7-ffdc-11d4-bd41-0080c73c8881"@,
{
    reveal_strlit("1b45cc0a-156a-428a-af62-49864da0e6e6");
    reveal_strlit("fc510ee7-ffdc-11d4-bd41-0080c73c8881");
    reveal_with_fuel(hex_padded, 9);
    assert(pei_apriori_name() =~= "1b45cc0a-156a-428a-af62-49864da0e6e6"@);
    assert(apriori_name() =~= "fc510ee7-ffdc-11d4-bd41-0080c73c8881"@);
}


/// The Apriori check reports one violation for each file, whatever its type, named
/// `1b45cc0a-156a-428a-af62-49864da0e6e6` or `fc510ee7-ffdc-11d4-bd41-0080c73c8881`.
pub proof fn law_apriori_files_counted<'a>(fvs: Seq<FirmwareVolume>)
    ensures
        apriori_violations::<'a>(fvs).len() == sum_of(
            fvs,
            |fv: FirmwareVolume|
                count_where(
                    fv.files@,
                    |f: FirmwareFile|
                        f.name@ == "1b45cc0a-156a-428a-af62-49864da0e6e6"@ || f.name@
                            == "fc510ee7-ffdc-11d4-bd41-0080c73c8881"@,
                ),
        ),
{
    law_fv_violation_counts(fvs);
    law_apriori_file_names();
    let a1 = |fv: FirmwareVolume| count_where(fv.files@, |f: FirmwareFile| is_apriori_file(f));
    let a2 = |fv: FirmwareVolume|
        count_where(
            fv.files@,
            |f: FirmwareFile|
                f.name@ == "1b45cc0a-156a-428a-af62-49864da0e6e6"@ || f.name@
                    == "fc510ee7-ffdc-11d4-bd41-0080c73c8881"@,
        );
    assert forall|k: int| 0 <= k < fvs.len() implies #[trigger] a1(fvs[k]) == a2(fvs[k]) by {
        lemma_count_where_ext(
            fvs[k].files@,
            |f: FirmwareFile| is_apriori_file(f),
            |f: FirmwareFile|
                f.name@ == "1b45cc0a-156a-428a-af62-49864da0e6e6"@ || f.name@
                    == "fc510ee7-ffdc-11d4-bd41-0080c73c8881"@,
        );
    }
    lemma_sum_of_ext(fvs, a1, a2);
}


// ---------------------------------------------------------------------------------------
// Firmware volumes within memory allocations.
// ---------------------------------------------------------------------------------------
proof fn lemma_count_where_concat<A>(a: Seq<A>, b: Seq<A>, p: spec_fn(A) -> bool)
    ensures
        count_where(a + b, p) == count_where(a, p) + count_where(b, p),
    decreases b.len(),
{
    if b.len() > 0 {
        lemma_count_where_concat(a, b.drop_last(), p);
        assert((a + b).drop_last() =~= a + b.drop_last());
        assert((a + b).last() == b.last());
    } else {
        assert(a + b =~= a);
    }
}

proof fn lemma_count_where_gather<A, B>(s: Seq<A>, f: spec_fn(A) -> Seq<B>, p: spec_fn(B) -> bool, n: int)
    requires
        0 <= n <= s.len(),
    ensures
        count_where(gather(s, f, n), p) == sum_of(s.take(n), |x: A| count_where(f(x), p)),
    decreases n,
{
    if n > 0 {
        lemma_count_where_gather(s, f, p, n - 1);
        lemma_count_where_concat(gather(s, f, n - 1), f(s[n - 1]), p);
        assert(s.take(n).drop_last() =~= s.take(n - 1));
        assert(s.take(n).last() == s[n - 1]);
    }
}

proof fn lemma_sum_one_if_is_count<A>(s: Seq<A>, p: spec_fn(A) -> bool)
    ensures
        sum_of(s, |x: A| one_if(p(x))) == count_where(s, p),
    decreases s.len(),
{
    if s.len() > 0 {
        lemma_sum_one_if_is_count(s.drop_last(), p);
    }
}

/// Some memory allocation HOB of the list, other than one of free memory
/// (`EfiConventionalMemory`, 7), contains the whole range of the firmware volume.
pub open spec fn allocation_in_list_holds(hobs: Seq<Hob>, fv: FvHob) -> bool {
    exists|j: int|
        #![trigger hobs[j]]
        0 <= j < hobs.len() && hobs[j] is MemoryAllocation && hobs[j]->alloc_descriptor.memory_type != 7
            && hobs[j]->alloc_descriptor.memory_base_address <= fv.base_address
            && hobs[j]->alloc_descriptor.memory_base_address + hobs[j]->alloc_descriptor.memory_length
            >= fv.base_address + fv.length
}

/// The firmware volume check reports one violation for each firmware volume HOB of the
/// list that no memory allocation HOB of the list, other than one of free memory, contains.
pub proof fn law_fv_within_allocation_rule<'a>(hobs: Seq<Hob>)
    ensures
        fv_within_violations::<'a>(hobs).len() == count_where(
            hobs,
            |h: Hob| h is FirmwareVolume && !allocation_in_list_holds(hobs, h->fv),
        ),
{
    law_allocation_violation_counts(hobs);
    let n = hobs.len() as int;
    let allocs = memory_allocations::<'static>(hobs);
    let fvs = firmware_volumes::<'static>(hobs);
    let p = |fv: &'static FvHob| fv_outside_allocations(allocs, fv);
    let fi = |h: Hob| fv_item::<'static>(h);
    let ai = |h: Hob| alloc_item::<'static>(h);
    let target = |h: Hob| h is FirmwareVolume && !allocation_in_list_holds(hobs, h->fv);
    lemma_count_where_gather(hobs, fi, p, n);
    assert(hobs.take(n) =~= hobs);
    assert forall|k: int| #![trigger hobs[k]] 0 <= k < hobs.len() implies count_where(fi(hobs[k]), p) == one_if(
        target(hobs[k]),
    ) by {
        let h = hobs[k];
        if h is FirmwareVolume {
            let fv = h->fv;
            assert(fi(h) =~= seq![&fv]);
            assert(seq![&fv].drop_last() =~= Seq::<&'static FvHob>::empty());
            assert(count_where(Seq::<&'static FvHob>::empty(), p) == 0);
            assert(seq![&fv].last() == &fv);
            assert(seq![&fv].len() == 1);
            assert(count_where(seq![&fv], p) == count_where(seq![&fv].drop_last(), p) + (if p(
                seq![&fv].last(),
            ) {
                1nat
            } else {
                0nat
            }));
            assert(count_where(seq![&fv], p) == one_if(p(&fv)));
            if allocation_in_list_holds(hobs, fv) {
                let j = choose|j: int|
                    #![trigger hobs[j]]
                    0 <= j < hobs.len() && hobs[j] is MemoryAllocation && hobs[j]->alloc_descriptor.memory_type != 7
                        && hobs[j]->alloc_descriptor.memory_base_address <= fv.base_address
                        && hobs[j]->alloc_descriptor.memory_base_address + hobs[j]->alloc_descriptor.memory_length
                        >= fv.base_address + fv.length;
                assert(ai(hobs[j])[0] == hobs[j]->alloc_descriptor);
                lemma_gather_has_part(hobs, ai, n, j, 0);
                let idx = choose|idx: int| 0 <= idx < allocs.len() && #[trigger] allocs[idx] == ai(hobs[j])[0];
                assert(allocation_holds_fv(allocs[idx], &fv));
                assert(!p(&fv));
            } else {
                assert forall|idx: int| 0 <= idx < allocs.len() implies !allocation_holds_fv(
                    #[trigger] allocs[idx],
                    &fv,
                ) by {
                    lemma_gather_from_part(hobs, ai, n, idx);
                    let (j, t) = choose|j: int, t: int|
                        0 <= j < n && 0 <= t < ai(hobs[j]).len() && #[trigger] ai(hobs[j])[t] == allocs[idx];
                    assert(hobs[j] is MemoryAllocation);
                }
                assert(p(&fv));
            }
        } else {
            assert(fi(h) =~= Seq::<&'static FvHob>::empty());
        }
    }
    lemma_sum_of_ext(hobs, |x: Hob| count_where(fi(x), p), |x: Hob| one_if(target(x)));
    lemma_sum_one_if_is_count(hobs, target);
}


// ---------------------------------------------------------------------------------------
// Overlapping memory allocations.
// ---------------------------------------------------------------------------------------
/// Every pair that the allocation overlap check reports is the descriptors of two memory
/// allocation HOBs `i < j` of the list whose ranges share an address.
pub proof fn law_allocation_overlap_pairs_come_from_the_list<'a>(hobs: Seq<Hob>, k: int)
    requires
        0 <= k < allocation_overlap_violations::<'a>(hobs).len(),
    ensures
        match allocation_overlap_violations::<'a>(hobs)[k] {
            ValidationKind::Hob(HobValidationKind::MemoryAllocationOverlap { hob1, hob2 }) => {
                &&& hob1.memory_base_address < hob2.memory_base_address + hob2.memory_length
                &&& hob2.memory_base_address < hob1.memory_base_address + hob1.memory_length
                &&& exists|i: int, j: int|
                    #![trigger hobs[i], hobs[j]]
                    0 <= i < j < hobs.len() && hobs[i] == Hob::MemoryAllocation { alloc_descriptor: *hob1 }
                        && hobs[j] == Hob::MemoryAllocation { alloc_descriptor: *hob2 }
            },
            _ => false,
        },
{
    let n = hobs.len() as int;
    let g = memory_allocations::<'static>(hobs);
    let ps = overlapping_pairs(g);
    let fa = |h: Hob| alloc_item::<'static>(h);
    let qa = |h: Hob| h is MemoryAllocation;
    assert forall|x: Hob| #[trigger] fa(x).len() == one_if(qa(x)) by {}
    let fp = |p: (&'static MemAllocDescriptor, &'static MemAllocDescriptor)|
        seq![ValidationKind::Hob(HobValidationKind::MemoryAllocationOverlap { hob1: p.0, hob2: p.1 })];
    let qt = |p: (&'static MemAllocDescriptor, &'static MemAllocDescriptor)| true;
    assert forall|x: (&'static MemAllocDescriptor, &'static MemAllocDescriptor)| #[trigger] fp(x).len() == one_if(qt(x)) by {}
    lemma_filter_gather(ps, fp, qt, ps.len() as int);
    lemma_count_all(ps.take(ps.len() as int));
    assert(ps.take(ps.len() as int) =~= ps);
    lemma_count_all(ps.take(k));
    assert(qt(ps[k]));
    let rep = allocation_overlap_violations::<'static>(hobs);
    assert(rep[k] == fp(ps[k])[0]);
    law_overlapping_pairs_members(g, k);
    let (a, b) = choose|a: int, b: int| #![trigger g[a], g[b]]
        0 <= a < b < g.len() && ps[k] == (g[a], g[b]) && intervals_overlap(g[a], g[b]);
    lemma_filter_gather(hobs, fa, qa, n);
    lemma_filter_gather_source(hobs, fa, qa, n, a);
    lemma_filter_gather_source(hobs, fa, qa, n, b);
    let i = choose|i: int| #![trigger hobs[i]] 0 <= i < n && qa(hobs[i]) && count_where(hobs.take(i), qa) == a;
    let j = choose|j: int| #![trigger hobs[j]] 0 <= j < n && qa(hobs[j]) && count_where(hobs.take(j), qa) == b;
    assert(g[a] == fa(hobs[i])[0]);
    assert(g[b] == fa(hobs[j])[0]);
    if j <= i {
        lemma_count_take_mono(hobs, qa, j, i);
    }
    assert(hobs[i] == Hob::MemoryAllocation { alloc_descriptor: *g[a] });
    assert(hobs[j] == Hob::MemoryAllocation { alloc_descriptor: *g[b] });
}

/// The descriptors of two memory allocation HOBs `i < j` of the list whose ranges share an
/// address are reported as an overlapping pair.
pub proof fn law_overlapping_allocations_are_reported<'a>(hobs: Seq<Hob>, i: int, j: int)
    requires
        0 <= i < j < hobs.len(),
        hobs[i] is MemoryAllocation,
        hobs[j] is MemoryAllocation,
        hobs[i]->alloc_descriptor.memory_base_address < hobs[j]->alloc_descriptor.memory_base_address
            + hobs[j]->alloc_descriptor.memory_length,
        hobs[j]->alloc_descriptor.memory_base_address < hobs[i]->alloc_descriptor.memory_base_address
            + hobs[i]->alloc_descriptor.memory_length,
    ensures
        exists|k: int|
            0 <= k < allocation_overlap_violations::<'a>(hobs).len() && (
            #[trigger] allocation_overlap_violations::<'a>(hobs)[k] matches ValidationKind::Hob(
                HobValidationKind::MemoryAllocationOverlap { hob1, hob2 },
            ) && *hob1 == hobs[i]->alloc_descriptor && *hob2 == hobs[j]->alloc_descriptor),
{
    let n = hobs.len() as int;
    let g = memory_allocations::<'static>(hobs);
    let ps = overlapping_pairs(g);
    let fa = |h: Hob| alloc_item::<'static>(h);
    let qa = |h: Hob| h is MemoryAllocation;
    assert forall|x: Hob| #[trigger] fa(x).len() == one_if(qa(x)) by {}
    lemma_filter_gather(hobs, fa, qa, n);
    assert(hobs.take(n) =~= hobs);
    let a = count_where(hobs.take(i), qa) as int;
    let b = count_where(hobs.take(j), qa) as int;
    lemma_count_take_step(hobs, qa, i);
    lemma_count_take_mono(hobs, qa, i + 1, j);
    lemma_count_take_step(hobs, qa, j);
    lemma_count_take_mono(hobs, qa, j + 1, n);
    assert(qa(hobs[i]) && qa(hobs[j]));
    assert(g[a] == fa(hobs[i])[0]);
    assert(g[b] == fa(hobs[j])[0]);
    assert(a < b < g.len());
    lemma_overlap_rows_has(g, a, b, g.len() as int);
    let rows = overlap_rows(g, g.len() as int);
    let k = choose|k: int| 0 <= k < rows.len() && #[trigger] rows[k] == (g[a], g[b]);
    assert(ps[k] == rows[k]);
    let fp = |p: (&'static MemAllocDescriptor, &'static MemAllocDescriptor)|
        seq![ValidationKind::Hob(HobValidationKind::MemoryAllocationOverlap { hob1: p.0, hob2: p.1 })];
    let qt = |p: (&'static MemAllocDescriptor, &'static MemAllocDescriptor)| true;
    assert forall|x: (&'static MemAllocDescriptor, &'static MemAllocDescriptor)| #[trigger] fp(x).len() == one_if(qt(x)) by {}
    lemma_filter_gather(ps, fp, qt, ps.len() as int);
    lemma_count_all(ps.take(ps.len() as int));
    assert(ps.take(ps.len() as int) =~= ps);
    lemma_count_all(ps.take(k));
    assert(qt(ps[k]));
    let rep = allocation_overlap_violations::<'static>(hobs);
    assert(rep[k] == fp(ps[k])[0]);
}

} // verus!
