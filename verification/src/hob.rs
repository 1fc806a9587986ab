//! Validation of the HOB list against the requirements of the Patina DXE core.
use crate::guid::{is_memory_type_info, is_memory_type_info_spec};
use crate::kind::{HobValidationKind, ValidationKind};
use crate::merge::{all_fit, check_hob_overlap, merge_intervals, merged_spans, overlapping_pairs};
use crate::text::{dec, push_dec, push_str};
use crate::model::{
    gather, gather_all, hob_list_ranges_fit, hob_ranges_fit, lemma_gather_forall, span_contains, spans_overlap, FvHob, Hob, Interval,
    MemAllocDescriptor, MemoryTypeInfoEntry, ResourceDescriptor, CACHE_ATTRIBUTE_MASK,
    CONVENTIONAL_MEMORY, EFI_RESOURCE_IO, EFI_RESOURCE_IO_RESERVED, MEMORY_UC, MEMORY_UCE, MEMORY_WB,
    MEMORY_WC, MEMORY_WP, MEMORY_WT, UEFI_PAGE_SIZE,
};
use crate::report::{ValidationAppError, ValidationReport, ValidationResult, Validator};
use vstd::prelude::*;

verus! {

/// Last address of page zero.
pub const PAGE_ZERO_END: u64 = 0xfff;

/// Performs validation on a list of HOBs to check for violations of Patina requirements.
pub struct HobValidator<'a> {
    hob_list: &'a Vec<Hob>,
}

/// The resource type is an IO (or reserved IO) resource.
pub open spec fn is_io_spec(resource_type: u32) -> bool {
    resource_type == EFI_RESOURCE_IO || resource_type == EFI_RESOURCE_IO_RESERVED
}

/// Cacheability bits that count for the "exactly one cacheability attribute" rule
/// (UCE is left out: it has a rule of its own).
pub open spec fn counted_cache_mask() -> u64 {
    CACHE_ATTRIBUTE_MASK & !MEMORY_UCE
}

/// The attributes carry exactly one counted cacheability attribute: one of UC, WC, WT, WB
/// and WP is set (UCE and every bit outside the cacheability attributes are ignored).
pub open spec fn single_cacheability_attribute(attributes: u64) -> bool {
    let m = attributes & counted_cache_mask();
    m == MEMORY_UC || m == MEMORY_WC || m == MEMORY_WT || m == MEMORY_WB || m == MEMORY_WP
}

/// The attributes of a V2 descriptor of memory are rejected: they carry no counted
/// cacheability attribute, or more than one.
pub open spec fn cacheability_rejected(attributes: u64) -> bool {
    !single_cacheability_attribute(attributes)
}

// ---------------------------------------------------------------------------------------
// What each check reports, one HOB at a time.
// ---------------------------------------------------------------------------------------
/// A memory allocation HOB that describes page zero.
pub open spec fn page0_item<'a>(h: Hob) -> Seq<ValidationKind<'a>> {
    match h {
        Hob::MemoryAllocation { alloc_descriptor } => if alloc_descriptor.memory_base_address
            <= PAGE_ZERO_END {
            seq![
                ValidationKind::Hob(
                    HobValidationKind::PageZeroMemoryDescribed { alloc_desc: &alloc_descriptor },
                ),
            ]
        } else {
            seq![]
        },
        _ => seq![],
    }
}

/// A V2 resource descriptor with the UCE attribute.
pub open spec fn uce_item<'a>(h: Hob) -> Seq<ValidationKind<'a>> {
    match h {
        Hob::ResourceDescriptorV2 { v1, attributes } => if attributes & MEMORY_UCE != 0 {
            seq![
                ValidationKind::Hob(
                    HobValidationKind::V2ContainsUceAttribute { hob1: &v1, attributes },
                ),
            ]
        } else {
            seq![]
        },
        _ => seq![],
    }
}

/// A V2 resource descriptor of memory whose cacheability attributes are rejected.
pub open spec fn cacheability_item<'a>(h: Hob) -> Seq<ValidationKind<'a>> {
    match h {
        Hob::ResourceDescriptorV2 { v1, attributes } => if !is_io_spec(v1.resource_type)
            && cacheability_rejected(attributes) {
            seq![
                ValidationKind::Hob(
                    HobValidationKind::V2MissingValidCacheabilityAttribute {
                        hob1: &v1,
                        attributes,
                    },
                ),
            ]
        } else {
            seq![]
        },
        _ => seq![],
    }
}

/// A V2 resource descriptor of IO with attributes set.
pub open spec fn io_cacheability_item<'a>(h: Hob) -> Seq<ValidationKind<'a>> {
    match h {
        Hob::ResourceDescriptorV2 { v1, attributes } => if is_io_spec(v1.resource_type)
            && attributes != 0 {
            seq![
                ValidationKind::Hob(
                    HobValidationKind::V2InvalidIoCacheabilityAttributes { hob1: &v1, attributes },
                ),
            ]
        } else {
            seq![]
        },
        _ => seq![],
    }
}

/// The descriptor of a memory allocation HOB.
pub open spec fn alloc_item<'a>(h: Hob) -> Seq<&'a MemAllocDescriptor> {
    match h {
        Hob::MemoryAllocation { alloc_descriptor } => seq![&alloc_descriptor],
        _ => seq![],
    }
}

/// The descriptor of a V1 or V2 resource descriptor HOB of memory (not IO).
pub open spec fn memory_resource_item<'a>(h: Hob) -> Seq<&'a ResourceDescriptor> {
    match h {
        Hob::ResourceDescriptor(r) => if is_io_spec(r.resource_type) {
            seq![]
        } else {
            seq![&r]
        },
        Hob::ResourceDescriptorV2 { v1, .. } => if is_io_spec(v1.resource_type) {
            seq![]
        } else {
            seq![&v1]
        },
        _ => seq![],
    }
}

/// The range of a firmware volume HOB.
pub open spec fn fv_item<'a>(h: Hob) -> Seq<&'a FvHob> {
    match h {
        Hob::FirmwareVolume { fv } => seq![&fv],
        _ => seq![],
    }
}

/// The descriptor of a V1 or V2 resource descriptor HOB owned by the Memory Type
/// Information GUID.
pub open spec fn memory_type_info_item<'a>(h: Hob) -> Seq<&'a ResourceDescriptor> {
    match h {
        Hob::ResourceDescriptor(r) => if is_memory_type_info_spec(r) {
            seq![&r]
        } else {
            seq![]
        },
        Hob::ResourceDescriptorV2 { v1, .. } => if is_memory_type_info_spec(v1) {
            seq![&v1]
        } else {
            seq![]
        },
        _ => seq![],
    }
}

/// Page-alignment violations of one memory allocation: one for an unaligned base, one
/// more for an unaligned length.
pub open spec fn alloc_alignment_item<'a>(d: &'a MemAllocDescriptor) -> Seq<ValidationKind<'a>> {
    let k = ValidationKind::Hob(HobValidationKind::MemoryAllocationNotPageAligned { hob: d });
    (if d.memory_base_address % UEFI_PAGE_SIZE != 0 {
        seq![k]
    } else {
        seq![]
    }) + (if d.memory_length % UEFI_PAGE_SIZE != 0 {
        seq![k]
    } else {
        seq![]
    })
}

/// Page-alignment violations of one resource descriptor: one for an unaligned start, one
/// more for an unaligned length.
pub open spec fn resource_alignment_item<'a>(d: &'a ResourceDescriptor) -> Seq<ValidationKind<'a>> {
    let k = ValidationKind::Hob(HobValidationKind::ResourceDescriptorNotPageAligned { hob: d });
    (if d.physical_start % UEFI_PAGE_SIZE != 0 {
        seq![k]
    } else {
        seq![]
    }) + (if d.resource_length % UEFI_PAGE_SIZE != 0 {
        seq![k]
    } else {
        seq![]
    })
}

// ---------------------------------------------------------------------------------------
// What each check reports for a whole HOB list.
// ---------------------------------------------------------------------------------------
/// Violations of "page zero must not be allocated".
pub open spec fn page0_violations<'a>(hobs: Seq<Hob>) -> Seq<ValidationKind<'a>> {
    gather_all(hobs, |h: Hob| page0_item::<'a>(h))
}

/// Violations of "V2 descriptors must not carry UCE".
pub open spec fn uce_violations<'a>(hobs: Seq<Hob>) -> Seq<ValidationKind<'a>> {
    gather_all(hobs, |h: Hob| uce_item::<'a>(h))
}

/// Violations of "V2 descriptors of memory carry exactly one cacheability attribute".
pub open spec fn cacheability_violations<'a>(hobs: Seq<Hob>) -> Seq<ValidationKind<'a>> {
    gather_all(hobs, |h: Hob| cacheability_item::<'a>(h))
}

/// Violations of "V2 descriptors of IO carry no attributes".
pub open spec fn io_cacheability_violations<'a>(hobs: Seq<Hob>) -> Seq<ValidationKind<'a>> {
    gather_all(hobs, |h: Hob| io_cacheability_item::<'a>(h))
}

/// Descriptors of all memory allocation HOBs, in order.
pub open spec fn memory_allocations<'a>(hobs: Seq<Hob>) -> Seq<&'a MemAllocDescriptor> {
    gather_all(hobs, |h: Hob| alloc_item::<'a>(h))
}

/// Descriptors of all V1 and V2 resource descriptor HOBs of memory, in order.
pub open spec fn memory_resources<'a>(hobs: Seq<Hob>) -> Seq<&'a ResourceDescriptor> {
    gather_all(hobs, |h: Hob| memory_resource_item::<'a>(h))
}

/// Ranges of all firmware volume HOBs, in order.
pub open spec fn firmware_volumes<'a>(hobs: Seq<Hob>) -> Seq<&'a FvHob> {
    gather_all(hobs, |h: Hob| fv_item::<'a>(h))
}

/// Descriptors of all resource descriptor HOBs owned by the Memory Type Information GUID.
pub open spec fn memory_type_info_resources<'a>(hobs: Seq<Hob>) -> Seq<&'a ResourceDescriptor> {
    gather_all(hobs, |h: Hob| memory_type_info_item::<'a>(h))
}

/// Violations of "memory allocations and resource descriptors are page aligned".
pub open spec fn page_alignment_violations<'a>(hobs: Seq<Hob>) -> Seq<ValidationKind<'a>> {
    gather_all(
        memory_allocations::<'a>(hobs),
        |d: &'a MemAllocDescriptor| alloc_alignment_item(d),
    ) + gather_all(
        memory_resources::<'a>(hobs),
        |d: &'a ResourceDescriptor| resource_alignment_item(d),
    )
}


/// Violations of "memory allocations do not overlap", one per overlapping pair.
pub open spec fn allocation_overlap_violations<'a>(hobs: Seq<Hob>) -> Seq<ValidationKind<'a>> {
    gather_all(
        overlapping_pairs(memory_allocations::<'a>(hobs)),
        |p: (&'a MemAllocDescriptor, &'a MemAllocDescriptor)|
            seq![ValidationKind::Hob(HobValidationKind::MemoryAllocationOverlap { hob1: p.0, hob2: p.1 })],
    )
}

/// The allocation is not free memory and contains the firmware volume's range.
pub open spec fn allocation_holds_fv(a: &MemAllocDescriptor, fv: &FvHob) -> bool {
    a.memory_type != CONVENTIONAL_MEMORY && span_contains(a.lo(), a.hi(), fv.lo(), fv.hi())
}

/// A firmware volume that no allocation (other than free memory) contains.
pub open spec fn fv_within_item<'a>(allocs: Seq<&'a MemAllocDescriptor>, fv: &'a FvHob) -> Seq<
    ValidationKind<'a>,
> {
    if exists|j: int| 0 <= j < allocs.len() && allocation_holds_fv(#[trigger] allocs[j], fv) {
        seq![]
    } else {
        seq![ValidationKind::Hob(HobValidationKind::FvNotWithinMemoryAllocation { fv })]
    }
}

/// Violations of "firmware volumes lie within memory allocations".
pub open spec fn fv_within_violations<'a>(hobs: Seq<Hob>) -> Seq<ValidationKind<'a>> {
    gather_all(
        firmware_volumes::<'a>(hobs),
        |fv: &'a FvHob| fv_within_item(memory_allocations::<'a>(hobs), fv),
    )
}

/// Resource descriptors of one overlap group: V1 or V2 descriptors, of IO or of memory,
/// leaving out those owned by the Memory Type Information GUID.
pub open spec fn overlap_group_item<'a>(h: Hob, v2: bool, io: bool) -> Seq<&'a ResourceDescriptor> {
    match h {
        Hob::ResourceDescriptor(r) => if !v2 && !is_memory_type_info_spec(r) && is_io_spec(
            r.resource_type,
        ) == io {
            seq![&r]
        } else {
            seq![]
        },
        Hob::ResourceDescriptorV2 { v1, .. } => if v2 && !is_memory_type_info_spec(v1) && is_io_spec(
            v1.resource_type,
        ) == io {
            seq![&v1]
        } else {
            seq![]
        },
        _ => seq![],
    }
}

/// The descriptors of one overlap group, in order.
pub open spec fn overlap_group<'a>(hobs: Seq<Hob>, v2: bool, io: bool) -> Seq<&'a ResourceDescriptor> {
    gather_all(hobs, |h: Hob| overlap_group_item::<'a>(h, v2, io))
}

/// One violation for each overlapping pair of descriptors.
pub open spec fn range_overlap_kinds<'a>(pairs: Seq<(&'a ResourceDescriptor, &'a ResourceDescriptor)>) -> Seq<
    ValidationKind<'a>,
> {
    gather_all(
        pairs,
        |p: (&'a ResourceDescriptor, &'a ResourceDescriptor)|
            seq![ValidationKind::Hob(HobValidationKind::OverlappingMemoryRanges { hob1: p.0, hob2: p.1 })],
    )
}

/// Violations of "resource descriptors do not overlap": overlapping pairs among V1 memory,
/// V2 memory, V1 IO and V2 IO descriptors (each group on its own), leaving out the
/// descriptors owned by the Memory Type Information GUID.
pub open spec fn memory_overlap_violations<'a>(hobs: Seq<Hob>) -> Seq<ValidationKind<'a>> {
    range_overlap_kinds(
        overlapping_pairs(overlap_group::<'a>(hobs, false, false)) + overlapping_pairs(
            overlap_group::<'a>(hobs, true, false),
        ) + overlapping_pairs(overlap_group::<'a>(hobs, false, true)) + overlapping_pairs(
            overlap_group::<'a>(hobs, true, true),
        ),
    )
}

/// An inconsistency between the V1 descriptor of `h1` and the V2 descriptor of `h2`:
/// neither is owned by the Memory Type Information GUID, their ranges overlap, and their
/// resource types or resource attributes differ.
pub open spec fn v1v2_item<'a>(h1: Hob, h2: Hob) -> Seq<ValidationKind<'a>> {
    match (h1, h2) {
        (Hob::ResourceDescriptor(v1), Hob::ResourceDescriptorV2 { v1: v2, .. }) => if !is_memory_type_info_spec(v1)
            && !is_memory_type_info_spec(v2) && spans_overlap(v1.lo(), v1.hi(), v2.lo(), v2.hi())
            && (v1.resource_type != v2.resource_type || v1.resource_attribute != v2.resource_attribute) {
            seq![
                ValidationKind::Hob(
                    HobValidationKind::InconsistentMemoryAttributes { hob1: &v1, hob2: &v2 },
                ),
            ]
        } else {
            seq![]
        },
        _ => seq![],
    }
}

/// Inconsistencies of `hobs[i]` with `hobs[j]` for `j < m`.
pub open spec fn v1v2_row<'a>(hobs: Seq<Hob>, i: int, m: int) -> Seq<ValidationKind<'a>>
    decreases m,
{
    if m <= 0 {
        seq![]
    } else {
        v1v2_row(hobs, i, m - 1) + v1v2_item(hobs[i], hobs[m - 1])
    }
}

/// Inconsistencies of `hobs[i]` with every HOB, for `i < n`.
pub open spec fn v1v2_rows<'a>(hobs: Seq<Hob>, n: int) -> Seq<ValidationKind<'a>>
    decreases n,
{
    if n <= 0 {
        seq![]
    } else {
        v1v2_rows(hobs, n - 1) + v1v2_row(hobs, n - 1, hobs.len() as int)
    }
}

/// Violations of "overlapping V1 and V2 descriptors agree on type and attributes", for
/// each V1 descriptor (in order) and each V2 descriptor (in order).
pub open spec fn v1v2_attribute_violations<'a>(hobs: Seq<Hob>) -> Seq<ValidationKind<'a>> {
    v1v2_rows(hobs, hobs.len() as int)
}

/// A V1 descriptor not owned by the Memory Type Information GUID.
pub open spec fn plain_v1_item<'a>(h: Hob) -> Seq<&'a ResourceDescriptor> {
    match h {
        Hob::ResourceDescriptor(r) => if is_memory_type_info_spec(r) {
            seq![]
        } else {
            seq![&r]
        },
        _ => seq![],
    }
}

/// The descriptor of a V2 resource descriptor HOB not owned by the Memory Type Information
/// GUID (the PEI memory bins cover no V1 range).
pub open spec fn v2_item<'a>(h: Hob) -> Seq<&'a ResourceDescriptor> {
    match h {
        Hob::ResourceDescriptorV2 { v1, .. } => if is_memory_type_info_spec(v1) {
            seq![]
        } else {
            seq![&v1]
        },
        _ => seq![],
    }
}

/// The descriptors of all V2 resource descriptor HOBs not owned by the Memory Type
/// Information GUID, in order.
pub open spec fn v2_descriptors<'a>(hobs: Seq<Hob>) -> Seq<&'a ResourceDescriptor> {
    gather_all(hobs, |h: Hob| v2_item::<'a>(h))
}

/// The span `(start, end)` of a descriptor whose range fits the address space.
pub open spec fn span_of(r: &ResourceDescriptor) -> (u64, u64) {
    (r.physical_start, (r.physical_start + r.resource_length) as u64)
}

/// The merged spans of all V2 descriptors not owned by the Memory Type Information GUID.
pub open spec fn merged_v2_spans(hobs: Seq<Hob>) -> Seq<(u64, u64)> {
    merged_spans(gather_all(hobs, |h: Hob| v2_item(h)).map_values(|r: &ResourceDescriptor| span_of(r)))
}

/// Some merged span contains the whole range of the descriptor.
pub open spec fn covered_by(merged: Seq<(u64, u64)>, r: &ResourceDescriptor) -> bool {
    exists|k: int|
        0 <= k < merged.len() && span_contains(
            (#[trigger] merged[k]).0 as int,
            merged[k].1 as int,
            r.lo(),
            r.hi(),
        )
}

/// Violations of "every V1 range is contained in a merged V2 range": one for each V1
/// descriptor that no single span of the merged V2 spans contains. Descriptors owned by the
/// Memory Type Information GUID take no part: such a V1 is never reported, and such a V2
/// covers nothing.
pub open spec fn v1v2_superset_violations<'a>(hobs: Seq<Hob>) -> Seq<ValidationKind<'a>> {
    gather_all(
        gather_all(hobs, |h: Hob| plain_v1_item::<'a>(h)),
        |r: &'a ResourceDescriptor|
            if covered_by(merged_v2_spans(hobs), r) {
                seq![]
            } else {
                seq![ValidationKind::Hob(HobValidationKind::V1MemoryRangeNotContainedInV2 { hob1: r })]
            },
    )
}

/// Violations of "at most one resource descriptor is owned by the Memory Type Information
/// GUID": one for each such descriptor when there are two or more, none otherwise.
pub open spec fn memory_type_info_single_violations<'a>(hobs: Seq<Hob>) -> Seq<ValidationKind<'a>> {
    let mti = memory_type_info_resources::<'a>(hobs);
    if mti.len() > 1 {
        gather_all(
            mti,
            |r: &'a ResourceDescriptor|
                seq![ValidationKind::Hob(HobValidationKind::MemoryTypeInfoMultipleResourceHobs { hob1: r })],
        )
    } else {
        seq![]
    }
}

/// The bins of the first Memory Type Information GUID HOB among the first `n` HOBs.
pub open spec fn first_bins_in(hobs: Seq<Hob>, n: int) -> Option<Seq<MemoryTypeInfoEntry>>
    decreases n,
{
    if n <= 0 {
        None
    } else {
        match first_bins_in(hobs, n - 1) {
            Some(e) => Some(e),
            None => match hobs[n - 1] {
                Hob::MemoryTypeInformation { entries } => Some(entries@),
                _ => None,
            },
        }
    }
}

/// The bins of the first Memory Type Information GUID HOB, if any.
pub open spec fn first_bins(hobs: Seq<Hob>) -> Option<Seq<MemoryTypeInfoEntry>> {
    first_bins_in(hobs, hobs.len() as int)
}

/// Total size in bytes of the bins: the sum of their page counts times the page size.
pub open spec fn bins_bytes(e: Seq<MemoryTypeInfoEntry>) -> nat
    decreases e.len(),
{
    if e.len() == 0 {
        0
    } else {
        bins_bytes(e.drop_last()) + e.last().number_of_pages as nat * UEFI_PAGE_SIZE as nat
    }
}

/// Violations of "the Memory Type Information resource descriptor holds all bins": only
/// when exactly one resource descriptor is owned by the Memory Type Information GUID and a
/// Memory Type Information GUID HOB is present; then one violation if its length is below
/// the total size of the bins of the first such GUID HOB.
pub open spec fn memory_type_info_length_violations<'a>(hobs: Seq<Hob>) -> Seq<ValidationKind<'a>> {
    let mti = memory_type_info_resources::<'a>(hobs);
    if mti.len() != 1 {
        seq![]
    } else {
        match first_bins(hobs) {
            None => seq![],
            Some(e) => if (mti[0].resource_length as nat) < bins_bytes(e) {
                seq![
                    ValidationKind::Hob(
                        HobValidationKind::MemoryTypeInfoResourceLengthTooSmall {
                            hob1: mti[0],
                            required_bytes: bins_bytes(e) as u64,
                            actual_bytes: mti[0].resource_length,
                        },
                    ),
                ]
            } else {
                seq![]
            },
        }
    }
}

/// The total of the bins that the length check sums fits in 64 bits (it is only summed
/// when exactly one Memory Type Information resource descriptor is present).
pub open spec fn bins_total_fits(hobs: Seq<Hob>) -> bool {
    memory_type_info_resources::<'static>(hobs).len() == 1 ==> match first_bins(hobs) {
        Some(e) => bins_bytes(e) <= u64::MAX,
        None => true,
    }
}

/// What every check needs of a HOB list: its ranges end inside the address space and the
/// bins that get summed fit in 64 bits.
pub open spec fn hob_list_wf(hobs: Seq<Hob>) -> bool {
    hob_list_ranges_fit(hobs) && bins_total_fits(hobs)
}

/// Every violation that the HOB checks report, in the order in which they run.
pub open spec fn hob_violations<'a>(hobs: Seq<Hob>) -> Seq<ValidationKind<'a>> {
    memory_overlap_violations::<'a>(hobs) + v1v2_attribute_violations::<'a>(hobs)
        + v1v2_superset_violations::<'a>(hobs) + page0_violations::<'a>(hobs) + uce_violations::<'a>(
        hobs,
    ) + cacheability_violations::<'a>(hobs) + io_cacheability_violations::<'a>(hobs)
        + memory_type_info_single_violations::<'a>(hobs) + memory_type_info_length_violations::<'a>(
        hobs,
    ) + allocation_overlap_violations::<'a>(hobs) + page_alignment_violations::<'a>(hobs)
        + fv_within_violations::<'a>(hobs)
}

/// Once some Memory Type Information GUID HOB has been seen, the first one stays the same.
proof fn lemma_first_bins_stable(hobs: Seq<Hob>, i: int, n: int)
    requires
        i <= n,
        first_bins_in(hobs, i) is Some,
    ensures
        first_bins_in(hobs, n) == first_bins_in(hobs, i),
    decreases n - i,
{
    if n > i {
        lemma_first_bins_stable(hobs, i, n - 1);
    }
}


/// Every memory allocation of a well-formed HOB list ends inside the address space.
pub proof fn lemma_allocations_fit<'a>(hobs: Seq<Hob>)
    requires
        hob_list_ranges_fit(hobs),
    ensures
        all_fit(memory_allocations::<'a>(hobs)),
{
    let f = |h: Hob| alloc_item::<'a>(h);
    let p = |d: &'a MemAllocDescriptor| d.hi() <= u64::MAX;
    assert forall|k: int, j: int| 0 <= k < hobs.len() && 0 <= j < f(hobs[k]).len() implies p(
        #[trigger] f(hobs[k])[j],
    ) by {
        assert(hob_ranges_fit(hobs[k]));
    }
    lemma_gather_forall(hobs, f, hobs.len() as int, p);
}

/// Every firmware volume of a well-formed HOB list ends inside the address space.
pub proof fn lemma_fvs_fit<'a>(hobs: Seq<Hob>)
    requires
        hob_list_ranges_fit(hobs),
    ensures
        all_fit(firmware_volumes::<'a>(hobs)),
{
    let f = |h: Hob| fv_item::<'a>(h);
    let p = |d: &'a FvHob| d.hi() <= u64::MAX;
    assert forall|k: int, j: int| 0 <= k < hobs.len() && 0 <= j < f(hobs[k]).len() implies p(
        #[trigger] f(hobs[k])[j],
    ) by {
        assert(hob_ranges_fit(hobs[k]));
    }
    lemma_gather_forall(hobs, f, hobs.len() as int, p);
}

/// Every descriptor of an overlap group of a well-formed HOB list ends inside the address
/// space.
pub proof fn lemma_group_fit<'a>(hobs: Seq<Hob>, v2: bool, io: bool)
    requires
        hob_list_ranges_fit(hobs),
    ensures
        all_fit(overlap_group::<'a>(hobs, v2, io)),
{
    let f = |h: Hob| overlap_group_item::<'a>(h, v2, io);
    let p = |d: &'a ResourceDescriptor| d.hi() <= u64::MAX;
    assert forall|k: int, j: int| 0 <= k < hobs.len() && 0 <= j < f(hobs[k]).len() implies p(
        #[trigger] f(hobs[k])[j],
    ) by {
        assert(hob_ranges_fit(hobs[k]));
    }
    lemma_gather_forall(hobs, f, hobs.len() as int, p);
}

/// Every V1 and every V2 descriptor of a well-formed HOB list ends inside the address
/// space.
pub proof fn lemma_v1_v2_fit<'a>(hobs: Seq<Hob>)
    requires
        hob_list_ranges_fit(hobs),
    ensures
        all_fit(gather_all(hobs, |h: Hob| v2_item::<'a>(h))),
        all_fit(gather_all(hobs, |h: Hob| plain_v1_item::<'a>(h))),
{
    let f = |h: Hob| v2_item::<'a>(h);
    let g = |h: Hob| plain_v1_item::<'a>(h);
    let p = |d: &'a ResourceDescriptor| d.hi() <= u64::MAX;
    assert forall|k: int, j: int| 0 <= k < hobs.len() && 0 <= j < f(hobs[k]).len() implies p(
        #[trigger] f(hobs[k])[j],
    ) by {
        assert(hob_ranges_fit(hobs[k]));
    }
    assert forall|k: int, j: int| 0 <= k < hobs.len() && 0 <= j < g(hobs[k]).len() implies p(
        #[trigger] g(hobs[k])[j],
    ) by {
        assert(hob_ranges_fit(hobs[k]));
    }
    lemma_gather_forall(hobs, f, hobs.len() as int, p);
    lemma_gather_forall(hobs, g, hobs.len() as int, p);
}

/// The bins of a prefix never weigh more than all the bins.
proof fn lemma_bins_bytes_prefix(e: Seq<MemoryTypeInfoEntry>, k: int)
    requires
        0 <= k <= e.len(),
    ensures
        bins_bytes(e.take(k)) <= bins_bytes(e),
    decreases e.len() - k,
{
    if k < e.len() {
        lemma_bins_bytes_prefix(e, k + 1);
        assert(e.take(k + 1).drop_last() =~= e.take(k));
    } else {
        assert(e.take(k) =~= e);
    }
}


/// Position of a HOB's kind in the alphabetical order of the kind names.
pub open spec fn hob_kind_rank(h: Hob) -> int {
    match h {
        Hob::Cpu { .. } => 0,
        Hob::FirmwareVolume { .. } => 1,
        Hob::GuidExtension { .. } => 2,
        Hob::Handoff { .. } => 3,
        Hob::MemoryAllocation { .. } => 4,
        Hob::MemoryTypeInformation { .. } => 5,
        Hob::ResourceDescriptor(..) => 6,
        Hob::ResourceDescriptorV2 { .. } => 7,
        Hob::UnknownHob => 8,
    }
}

/// Name of the HOB kind of the given rank, as the summary shows it.
pub open spec fn hob_kind_name(rank: int) -> Seq<char> {
    if rank == 0 {
        "Cpu"@
    } else if rank == 1 {
        "FirmwareVolume"@
    } else if rank == 2 {
        "GuidExtension"@
    } else if rank == 3 {
        "Handoff"@
    } else if rank == 4 {
        "MemoryAllocation"@
    } else if rank == 5 {
        "MemoryTypeInformation"@
    } else if rank == 6 {
        "ResourceDescriptor (V1)"@
    } else if rank == 7 {
        "ResourceDescriptorV2 (V2)"@
    } else {
        "UnknownHob"@
    }
}

/// Number of HOBs of the given rank among the first `n`.
pub open spec fn hob_kind_count(hobs: Seq<Hob>, rank: int, n: int) -> nat
    decreases n,
{
    if n <= 0 {
        0
    } else {
        hob_kind_count(hobs, rank, n - 1) + (if hob_kind_rank(hobs[n - 1]) == rank {
            1nat
        } else {
            0nat
        })
    }
}

/// Summary lines of the kinds of rank below `r` that occur, in rank order.
pub open spec fn hob_summary_lines(hobs: Seq<Hob>, r: int) -> Seq<char>
    decreases r,
{
    if r <= 0 {
        seq![]
    } else {
        let c = hob_kind_count(hobs, r - 1, hobs.len() as int);
        hob_summary_lines(hobs, r - 1) + (if c > 0 {
            "\n    "@ + hob_kind_name(r - 1) + ": "@ + dec(c)
        } else {
            seq![]
        })
    }
}

/// The HOB summary: the total, then a line for each kind present with its count, kinds
/// in alphabetical order; or a note that there is nothing to validate.
pub open spec fn hob_summary(hobs: Seq<Hob>) -> Seq<char> {
    if hobs.len() == 0 {
        "No HOBs to validate."@
    } else {
        "HOB Summary:\n  Total HOBs: "@ + dec(hobs.len()) + hob_summary_lines(hobs, 9)
    }
}

fn hob_kind_rank_of(h: &Hob) -> (r: usize)
    ensures
        r == hob_kind_rank(*h),
{
    match h {
        Hob::Cpu { .. } => 0,
        Hob::FirmwareVolume { .. } => 1,
        Hob::GuidExtension { .. } => 2,
        Hob::Handoff { .. } => 3,
        Hob::MemoryAllocation { .. } => 4,
        Hob::MemoryTypeInformation { .. } => 5,
        Hob::ResourceDescriptor(..) => 6,
        Hob::ResourceDescriptorV2 { .. } => 7,
        Hob::UnknownHob => 8,
    }
}

fn hob_kind_name_of(rank: usize) -> (r: &'static str)
    ensures
        r@ == hob_kind_name(rank as int),
{
    if rank == 0 {
        "Cpu"
    } else if rank == 1 {
        "FirmwareVolume"
    } else if rank == 2 {
        "GuidExtension"
    } else if rank == 3 {
        "Handoff"
    } else if rank == 4 {
        "MemoryAllocation"
    } else if rank == 5 {
        "MemoryTypeInformation"
    } else if rank == 6 {
        "ResourceDescriptor (V1)"
    } else if rank == 7 {
        "ResourceDescriptorV2 (V2)"
    } else {
        "UnknownHob"
    }
}

proof fn lemma_hob_kind_count_bound(hobs: Seq<Hob>, rank: int, n: int)
    requires
        0 <= n,
    ensures
        hob_kind_count(hobs, rank, n) <= n,
    decreases n,
{
    if n > 0 {
        lemma_hob_kind_count_bound(hobs, rank, n - 1);
    }
}

impl<'a> HobValidator<'a> {
    /// The HOB list being validated.
    pub closed spec fn hobs(&self) -> Seq<Hob> {
        self.hob_list@
    }

    /// A validator of `hob_list`.
    pub fn new(hob_list: &'a Vec<Hob>) -> (r: Self)
        ensures
            r.hobs() == hob_list@,
    {
        HobValidator { hob_list }
    }

    /// Whether a resource type describes IO.
    pub fn is_io(resource_type: u32) -> (r: bool)
        ensures
            r == is_io_spec(resource_type),
    {
        resource_type == EFI_RESOURCE_IO || resource_type == EFI_RESOURCE_IO_RESERVED
    }

    /// Validates that no memory allocation describes page zero (addresses below
    /// `UEFI_PAGE_SIZE`); one violation for each allocation that starts there.
    pub fn validate_page0_memory_allocation(&self) -> (r: ValidationResult<'a>)
        ensures
            r matches Ok(rep) && rep@ == page0_violations::<'a>(self.hobs()) && rep.summaries_view().len() == 0,
    {
        let hobs: &'a Vec<Hob> = self.hob_list;
        let mut report = ValidationReport::new();
        let mut i: usize = 0;
        while i < hobs.len()
            invariant
                report.summaries_view().len() == 0,
                i <= hobs@.len(),
                report@ == gather(hobs@, |h: Hob| page0_item::<'a>(h), i as int),
            decreases hobs@.len() - i,
        {
            if let Hob::MemoryAllocation { alloc_descriptor } = &hobs[i] {
                if alloc_descriptor.memory_base_address <= PAGE_ZERO_END {
                    report.add_violation(
                        ValidationKind::Hob(
                            HobValidationKind::PageZeroMemoryDescribed {
                                alloc_desc: alloc_descriptor,
                            },
                        ),
                    );
                }
            }
            i += 1;
        }
        Ok(report)
    }

    /// Reports every V2 resource descriptor that carries the `MEMORY_UCE` attribute.
    pub fn validate_memory_uce_attribute(&self) -> (r: ValidationResult<'a>)
        ensures
            r matches Ok(rep) && rep@ == uce_violations::<'a>(self.hobs()) && rep.summaries_view().len() == 0,
    {
        let hobs: &'a Vec<Hob> = self.hob_list;
        let mut report = ValidationReport::new();
        let mut i: usize = 0;
        while i < hobs.len()
            invariant
                report.summaries_view().len() == 0,
                i <= hobs@.len(),
                report@ == gather(hobs@, |h: Hob| uce_item::<'a>(h), i as int),
            decreases hobs@.len() - i,
        {
            if let Hob::ResourceDescriptorV2 { v1, attributes } = &hobs[i] {
                if *attributes & MEMORY_UCE != 0 {
                    report.add_violation(
                        ValidationKind::Hob(
                            HobValidationKind::V2ContainsUceAttribute {
                                hob1: v1,
                                attributes: *attributes,
                            },
                        ),
                    );
                }
            }
            i += 1;
        }
        Ok(report)
    }

    /// Validates that each V2 resource descriptor of memory has exactly one valid
    /// cacheability attribute set (UCE ignored); a violation where none or several of them
    /// are present.
    pub fn validate_memory_cacheability_attribute(&self) -> (r: ValidationResult<'a>)
        ensures
            r matches Ok(rep) && rep@ == cacheability_violations::<'a>(self.hobs()) && rep.summaries_view().len() == 0,
    {
        let hobs: &'a Vec<Hob> = self.hob_list;
        let mut report = ValidationReport::new();
        let mask: u64 = CACHE_ATTRIBUTE_MASK & !MEMORY_UCE;
        let mut i: usize = 0;
        while i < hobs.len()
            invariant
                report.summaries_view().len() == 0,
                i <= hobs@.len(),
                mask == counted_cache_mask(),
                report@ == gather(hobs@, |h: Hob| cacheability_item::<'a>(h), i as int),
            decreases hobs@.len() - i,
        {
            if let Hob::ResourceDescriptorV2 { v1, attributes } = &hobs[i] {
                let a: u64 = *attributes;
                let m: u64 = a & mask;
                let rejected = if m == 0 {
                    true
                } else {
                    (m & (m - 1)) != 0
                };
                assert(rejected == cacheability_rejected(a)) by {
                    assert(m == a & 0x100fu64 ==> (rejected <==> !(m == 0x1u64 || m == 0x2u64
                        || m == 0x4u64 || m == 0x8u64 || m == 0x1000u64))) by (bit_vector)
                        requires
                            rejected == (m == 0 || (m & ((m - 1) as u64)) != 0),
                    ;
                    assert(mask == 0x100fu64) by (bit_vector)
                        requires
                            mask == counted_cache_mask(),
                    ;
                }
                if !Self::is_io(v1.resource_type) && rejected {
                    report.add_violation(
                        ValidationKind::Hob(
                            HobValidationKind::V2MissingValidCacheabilityAttribute {
                                hob1: v1,
                                attributes: a,
                            },
                        ),
                    );
                }
            }
            i += 1;
        }
        Ok(report)
    }

    /// Validates that each V2 resource descriptor of IO has no attribute set.
    pub fn validate_memory_cacheability_attribute_io_resource_hob(&self) -> (r: ValidationResult<
        'a,
    >)
        ensures
            r matches Ok(rep) && rep@ == io_cacheability_violations::<'a>(self.hobs()) && rep.summaries_view().len() == 0,
    {
        let hobs: &'a Vec<Hob> = self.hob_list;
        let mut report = ValidationReport::new();
        let mut i: usize = 0;
        while i < hobs.len()
            invariant
                report.summaries_view().len() == 0,
                i <= hobs@.len(),
                report@ == gather(hobs@, |h: Hob| io_cacheability_item::<'a>(h), i as int),
            decreases hobs@.len() - i,
        {
            if let Hob::ResourceDescriptorV2 { v1, attributes } = &hobs[i] {
                if Self::is_io(v1.resource_type) && *attributes != 0 {
                    report.add_violation(
                        ValidationKind::Hob(
                            HobValidationKind::V2InvalidIoCacheabilityAttributes {
                                hob1: v1,
                                attributes: *attributes,
                            },
                        ),
                    );
                }
            }
            i += 1;
        }
        Ok(report)
    }

    /// Descriptors of all memory allocation HOBs, in order.
    pub fn memory_allocation_hobs(&self) -> (r: Vec<&'a MemAllocDescriptor>)
        ensures
            r@ == memory_allocations::<'a>(self.hobs()),
    {
        let hobs: &'a Vec<Hob> = self.hob_list;
        let mut out: Vec<&'a MemAllocDescriptor> = Vec::new();
        let mut i: usize = 0;
        while i < hobs.len()
            invariant
                i <= hobs@.len(),
                out@ == gather(hobs@, |h: Hob| alloc_item::<'a>(h), i as int),
            decreases hobs@.len() - i,
        {
            if let Hob::MemoryAllocation { alloc_descriptor } = &hobs[i] {
                out.push(alloc_descriptor);
            }
            i += 1;
        }
        out
    }

    /// Descriptors of all V1 and V2 resource descriptor HOBs, leaving out those of IO.
    pub fn resource_descriptor_hobs(&self) -> (r: Vec<&'a ResourceDescriptor>)
        ensures
            r@ == memory_resources::<'a>(self.hobs()),
    {
        let hobs: &'a Vec<Hob> = self.hob_list;
        let mut out: Vec<&'a ResourceDescriptor> = Vec::new();
        let mut i: usize = 0;
        while i < hobs.len()
            invariant
                i <= hobs@.len(),
                out@ == gather(hobs@, |h: Hob| memory_resource_item::<'a>(h), i as int),
            decreases hobs@.len() - i,
        {
            match &hobs[i] {
                Hob::ResourceDescriptor(resource) => {
                    if !Self::is_io(resource.resource_type) {
                        out.push(resource);
                    }
                },
                Hob::ResourceDescriptorV2 { v1, .. } => {
                    if !Self::is_io(v1.resource_type) {
                        out.push(v1);
                    }
                },
                _ => {},
            }
            i += 1;
        }
        out
    }

    /// Ranges of all firmware volume HOBs, in order.
    pub fn fv_hobs(&self) -> (r: Vec<&'a FvHob>)
        ensures
            r@ == firmware_volumes::<'a>(self.hobs()),
    {
        let hobs: &'a Vec<Hob> = self.hob_list;
        let mut out: Vec<&'a FvHob> = Vec::new();
        let mut i: usize = 0;
        while i < hobs.len()
            invariant
                i <= hobs@.len(),
                out@ == gather(hobs@, |h: Hob| fv_item::<'a>(h), i as int),
            decreases hobs@.len() - i,
        {
            if let Hob::FirmwareVolume { fv } = &hobs[i] {
                out.push(fv);
            }
            i += 1;
        }
        out
    }

    /// All resource descriptors (V1 or V2) owned by the Memory Type Information GUID.
    pub fn memory_type_info_resource_hobs(&self) -> (r: Vec<&'a ResourceDescriptor>)
        ensures
            r@ == memory_type_info_resources::<'a>(self.hobs()),
    {
        let hobs: &'a Vec<Hob> = self.hob_list;
        let mut out: Vec<&'a ResourceDescriptor> = Vec::new();
        let mut i: usize = 0;
        while i < hobs.len()
            invariant
                i <= hobs@.len(),
                out@ == gather(hobs@, |h: Hob| memory_type_info_item::<'a>(h), i as int),
            decreases hobs@.len() - i,
        {
            match &hobs[i] {
                Hob::ResourceDescriptor(resource) => {
                    if is_memory_type_info(resource) {
                        out.push(resource);
                    }
                },
                Hob::ResourceDescriptorV2 { v1, .. } => {
                    if is_memory_type_info(v1) {
                        out.push(v1);
                    }
                },
                _ => {},
            }
            i += 1;
        }
        out
    }

    /// The bins of the first Memory Type Information GUID HOB, if there is one.
    pub fn memory_type_info_entries(&self) -> (r: Option<&'a Vec<MemoryTypeInfoEntry>>)
        ensures
            match r {
                Some(e) => first_bins(self.hobs()) == Some(e@),
                None => first_bins(self.hobs()) is None,
            },
    {
        let hobs: &'a Vec<Hob> = self.hob_list;
        let mut i: usize = 0;
        while i < hobs.len()
            invariant
                i <= hobs@.len(),
                hobs@ == self.hobs(),
                first_bins_in(hobs@, i as int) is None,
            decreases hobs@.len() - i,
        {
            if let Hob::MemoryTypeInformation { entries } = &hobs[i] {
                proof {
                    assert(first_bins_in(hobs@, i + 1) == Some(entries@));
                    lemma_first_bins_stable(hobs@, i + 1, hobs@.len() as int);
                }
                return Some(entries);
            }
            i += 1;
        }
        None
    }

    /// Validates that no two memory allocation HOBs overlap; one violation per overlapping
    /// pair.
    pub fn validate_allocation_overlap(&self) -> (r: ValidationResult<'a>)
        requires
            hob_list_ranges_fit(self.hobs()),
        ensures
            r matches Ok(rep) && rep@ == allocation_overlap_violations::<'a>(self.hobs()) && rep.summaries_view().len() == 0,
    {
        let mut report = ValidationReport::new();
        let allocations = self.memory_allocation_hobs();
        proof {
            lemma_allocations_fit(self.hobs());
        }
        let pairs = check_hob_overlap(&allocations);
        let mut i: usize = 0;
        while i < pairs.len()
            invariant
                report.summaries_view().len() == 0,
                i <= pairs@.len(),
                report@ == gather(
                    pairs@,
                    |p: (&'a MemAllocDescriptor, &'a MemAllocDescriptor)|
                        seq![ValidationKind::Hob(HobValidationKind::MemoryAllocationOverlap { hob1: p.0, hob2: p.1 })],
                    i as int,
                ),
            decreases pairs@.len() - i,
        {
            let (hob1, hob2) = pairs[i];
            report.add_violation(
                ValidationKind::Hob(HobValidationKind::MemoryAllocationOverlap { hob1, hob2 }),
            );
            i += 1;
        }
        Ok(report)
    }

    /// Validates that memory allocation HOBs and resource descriptor HOBs of memory have
    /// page-aligned base addresses and lengths; a violation for each unaligned base and one
    /// for each unaligned length.
    pub fn validate_page_alignment(&self) -> (r: ValidationResult<'a>)
        ensures
            r matches Ok(rep) && rep@ == page_alignment_violations::<'a>(self.hobs()) && rep.summaries_view().len() == 0,
    {
        let mut report = ValidationReport::new();
        let allocations = self.memory_allocation_hobs();
        let mut i: usize = 0;
        while i < allocations.len()
            invariant
                report.summaries_view().len() == 0,
                i <= allocations@.len(),
                report@ == gather(
                    allocations@,
                    |d: &'a MemAllocDescriptor| alloc_alignment_item(d),
                    i as int,
                ),
            decreases allocations@.len() - i,
        {
            let hob: &'a MemAllocDescriptor = allocations[i];
            if hob.memory_base_address % UEFI_PAGE_SIZE != 0 {
                report.add_violation(
                    ValidationKind::Hob(HobValidationKind::MemoryAllocationNotPageAligned { hob }),
                );
            }
            if hob.memory_length % UEFI_PAGE_SIZE != 0 {
                report.add_violation(
                    ValidationKind::Hob(HobValidationKind::MemoryAllocationNotPageAligned { hob }),
                );
            }
            assert(report@ =~= gather(
                allocations@,
                |d: &'a MemAllocDescriptor| alloc_alignment_item(d),
                i + 1,
            ));
            i += 1;
        }
        let ghost first = report@;
        let resources = self.resource_descriptor_hobs();
        let mut i: usize = 0;
        while i < resources.len()
            invariant
                report.summaries_view().len() == 0,
                i <= resources@.len(),
                report@ == first + gather(
                    resources@,
                    |d: &'a ResourceDescriptor| resource_alignment_item(d),
                    i as int,
                ),
            decreases resources@.len() - i,
        {
            let hob: &'a ResourceDescriptor = resources[i];
            if hob.physical_start % UEFI_PAGE_SIZE != 0 {
                report.add_violation(
                    ValidationKind::Hob(HobValidationKind::ResourceDescriptorNotPageAligned { hob }),
                );
            }
            if hob.resource_length % UEFI_PAGE_SIZE != 0 {
                report.add_violation(
                    ValidationKind::Hob(HobValidationKind::ResourceDescriptorNotPageAligned { hob }),
                );
            }
            assert(report@ =~= first + gather(
                resources@,
                |d: &'a ResourceDescriptor| resource_alignment_item(d),
                i + 1,
            ));
            i += 1;
        }
        Ok(report)
    }

    /// Validates that every firmware volume HOB lies within a memory allocation HOB that is
    /// not free memory; one violation for each firmware volume that does not.
    pub fn validate_fv_within_memory_allocation(&self) -> (r: ValidationResult<'a>)
        requires
            hob_list_ranges_fit(self.hobs()),
        ensures
            r matches Ok(rep) && rep@ == fv_within_violations::<'a>(self.hobs()) && rep.summaries_view().len() == 0,
    {
        let mut report = ValidationReport::new();
        let allocations = self.memory_allocation_hobs();
        let fvs = self.fv_hobs();
        proof {
            lemma_allocations_fit(self.hobs());
            lemma_fvs_fit(self.hobs());
        }
        let mut i: usize = 0;
        while i < fvs.len()
            invariant
                report.summaries_view().len() == 0,
                i <= fvs@.len(),
                all_fit(allocations@),
                all_fit(fvs@),
                report@ == gather(
                    fvs@,
                    |fv: &'a FvHob| fv_within_item(allocations@, fv),
                    i as int,
                ),
            decreases fvs@.len() - i,
        {
            let fv: &'a FvHob = fvs[i];
            assert(fv.hi() <= u64::MAX);
            let mut contained = false;
            let mut k: usize = 0;
            while k < allocations.len() && !contained
                invariant
                    k <= allocations@.len(),
                    all_fit(allocations@),
                    fv.hi() <= u64::MAX,
                    contained ==> exists|j: int|
                        0 <= j < allocations@.len() && allocation_holds_fv(
                            #[trigger] allocations@[j],
                            fv,
                        ),
                    !contained ==> forall|j: int|
                        0 <= j < k ==> !allocation_holds_fv(#[trigger] allocations@[j], fv),
                decreases allocations@.len() - k,
            {
                let mem_hob: &'a MemAllocDescriptor = allocations[k];
                assert(mem_hob.hi() <= u64::MAX);
                // free memory does not count: the firmware volume must be allocated
                if mem_hob.memory_type != CONVENTIONAL_MEMORY {
                    if crate::model::contains(mem_hob, fv) {
                        contained = true;
                    }
                }
                k += 1;
            }
            if !contained {
                report.add_violation(
                    ValidationKind::Hob(HobValidationKind::FvNotWithinMemoryAllocation { fv }),
                );
            }
            i += 1;
        }
        Ok(report)
    }

    /// Checks for overlapping address ranges among memory and IO resource descriptor HOBs
    /// (V1 and V2 separately); one violation per overlapping pair. Descriptors owned by the
    /// Memory Type Information GUID are left out: the PEI memory bins are expected to
    /// overlap the system memory that backs them.
    pub fn validate_memory_overlap(&self) -> (r: ValidationResult<'a>)
        requires
            hob_list_ranges_fit(self.hobs()),
        ensures
            r matches Ok(rep) && rep@ == memory_overlap_violations::<'a>(self.hobs()) && rep.summaries_view().len() == 0,
    {
        let hobs: &'a Vec<Hob> = self.hob_list;
        let mut report = ValidationReport::new();
        let mut v1_memory_hobs: Vec<&'a ResourceDescriptor> = Vec::new();
        let mut v2_memory_hobs: Vec<&'a ResourceDescriptor> = Vec::new();
        let mut v1_io_hobs: Vec<&'a ResourceDescriptor> = Vec::new();
        let mut v2_io_hobs: Vec<&'a ResourceDescriptor> = Vec::new();
        let mut i: usize = 0;
        while i < hobs.len()
            invariant
                i <= hobs@.len(),
                v1_memory_hobs@ == gather(
                    hobs@,
                    |h: Hob| overlap_group_item::<'a>(h, false, false),
                    i as int,
                ),
                v2_memory_hobs@ == gather(
                    hobs@,
                    |h: Hob| overlap_group_item::<'a>(h, true, false),
                    i as int,
                ),
                v1_io_hobs@ == gather(hobs@, |h: Hob| overlap_group_item::<'a>(h, false, true), i as int),
                v2_io_hobs@ == gather(hobs@, |h: Hob| overlap_group_item::<'a>(h, true, true), i as int),
            decreases hobs@.len() - i,
        {
            match &hobs[i] {
                Hob::ResourceDescriptor(resource) => {
                    if !is_memory_type_info(resource) {
                        if !Self::is_io(resource.resource_type) {
                            v1_memory_hobs.push(resource);
                        } else {
                            v1_io_hobs.push(resource);
                        }
                    }
                },
                Hob::ResourceDescriptorV2 { v1: resource, .. } => {
                    if !is_memory_type_info(resource) {
                        if !Self::is_io(resource.resource_type) {
                            v2_memory_hobs.push(resource);
                        } else {
                            v2_io_hobs.push(resource);
                        }
                    }
                },
                _ => {},
            }
            i += 1;
        }
        proof {
            lemma_group_fit(self.hobs(), false, false);
            lemma_group_fit(self.hobs(), true, false);
            lemma_group_fit(self.hobs(), false, true);
            lemma_group_fit(self.hobs(), true, true);
        }
        let mut overlaps = check_hob_overlap(&v1_memory_hobs);
        let mut more = check_hob_overlap(&v2_memory_hobs);
        overlaps.append(&mut more);
        let mut more = check_hob_overlap(&v1_io_hobs);
        overlaps.append(&mut more);
        let mut more = check_hob_overlap(&v2_io_hobs);
        overlaps.append(&mut more);
        let mut k: usize = 0;
        while k < overlaps.len()
            invariant
                report.summaries_view().len() == 0,
                k <= overlaps@.len(),
                report@ == gather(
                    overlaps@,
                    |p: (&'a ResourceDescriptor, &'a ResourceDescriptor)|
                        seq![ValidationKind::Hob(HobValidationKind::OverlappingMemoryRanges { hob1: p.0, hob2: p.1 })],
                    k as int,
                ),
            decreases overlaps@.len() - k,
        {
            let (hob1, hob2) = overlaps[k];
            report.add_violation(
                ValidationKind::Hob(HobValidationKind::OverlappingMemoryRanges { hob1, hob2 }),
            );
            k += 1;
        }
        Ok(report)
    }

    /// Checks overlapping V1 and V2 resource descriptors for consistency; a violation for
    /// each pair (V1 in list order, then V2 in list order) whose ranges overlap and whose
    /// resource types or resource attributes differ. Descriptors owned by the Memory Type
    /// Information GUID are left out.
    pub fn validate_overlapping_v1v2_attributes(&self) -> (r: ValidationResult<'a>)
        requires
            hob_list_ranges_fit(self.hobs()),
        ensures
            r matches Ok(rep) && rep@ == v1v2_attribute_violations::<'a>(self.hobs()) && rep.summaries_view().len() == 0,
    {
        let hobs: &'a Vec<Hob> = self.hob_list;
        let mut report = ValidationReport::new();
        let n = hobs.len();
        let mut i: usize = 0;
        while i < n
            invariant
                report.summaries_view().len() == 0,
                n == hobs@.len(),
                i <= n,
                hob_list_ranges_fit(hobs@),
                report@ == v1v2_rows::<'a>(hobs@, i as int),
            decreases n - i,
        {
            let mut j: usize = 0;
            while j < n
                invariant
                    report.summaries_view().len() == 0,
                    n == hobs@.len(),
                    i < n,
                    j <= n,
                    hob_list_ranges_fit(hobs@),
                    report@ == v1v2_rows::<'a>(hobs@, i as int) + v1v2_row::<'a>(
                        hobs@,
                        i as int,
                        j as int,
                    ),
                decreases n - j,
            {
                if let Hob::ResourceDescriptor(v1) = &hobs[i] {
                    if let Hob::ResourceDescriptorV2 { v1: v2, .. } = &hobs[j] {
                        assert(hob_ranges_fit(hobs@[i as int]) && hob_ranges_fit(hobs@[j as int]));
                        if !is_memory_type_info(v1) && !is_memory_type_info(v2) {
                            if crate::model::overlaps(v1, v2) && (v1.resource_type
                                != v2.resource_type || v1.resource_attribute
                                != v2.resource_attribute) {
                                report.add_violation(
                                    ValidationKind::Hob(
                                        HobValidationKind::InconsistentMemoryAttributes {
                                            hob1: v1,
                                            hob2: v2,
                                        },
                                    ),
                                );
                            }
                        }
                    }
                }
                assert(report@ =~= v1v2_rows::<'a>(hobs@, i as int) + v1v2_row::<'a>(
                    hobs@,
                    i as int,
                    j + 1,
                ));
                j += 1;
            }
            i += 1;
        }
        Ok(report)
    }

    /// Checks that every V1 resource descriptor lies within one span of the merged V2
    /// descriptors; a violation for each V1 range that does not. Descriptors owned by the
    /// Memory Type Information GUID, V1 or V2, are skipped.
    pub fn validate_v1v2_superset(&self) -> (r: ValidationResult<'a>)
        requires
            hob_list_ranges_fit(self.hobs()),
        ensures
            r matches Ok(rep) && rep@ == v1v2_superset_violations::<'a>(self.hobs()) && rep.summaries_view().len() == 0,
    {
        let hobs: &'a Vec<Hob> = self.hob_list;
        let mut report = ValidationReport::new();
        let mut v1_resources: Vec<&'a ResourceDescriptor> = Vec::new();
        let mut v2_resources: Vec<&'a ResourceDescriptor> = Vec::new();
        let mut i: usize = 0;
        while i < hobs.len()
            invariant
                i <= hobs@.len(),
                v1_resources@ == gather(hobs@, |h: Hob| plain_v1_item::<'a>(h), i as int),
                v2_resources@ == gather(hobs@, |h: Hob| v2_item::<'a>(h), i as int),
            decreases hobs@.len() - i,
        {
            match &hobs[i] {
                Hob::ResourceDescriptor(v1) => {
                    if !is_memory_type_info(v1) {
                        v1_resources.push(v1);
                    }
                },
                Hob::ResourceDescriptorV2 { v1: v2, .. } => {
                    if !is_memory_type_info(v2) {
                        v2_resources.push(v2);
                    }
                },
                _ => {},
            }
            i += 1;
        }
        proof {
            lemma_v1_v2_fit(self.hobs());
        }
        // the spans of the V2 descriptors, merged
        let mut spans: Vec<(u64, u64)> = Vec::new();
        let mut i: usize = 0;
        while i < v2_resources.len()
            invariant
                i <= v2_resources@.len(),
                all_fit(v2_resources@),
                spans@ == v2_resources@.take(i as int).map_values(
                    |r: &ResourceDescriptor| span_of(r),
                ),
            decreases v2_resources@.len() - i,
        {
            let v2: &'a ResourceDescriptor = v2_resources[i];
            assert(v2.hi() <= u64::MAX);
            spans.push((v2.start(), v2.end()));
            assert(spans@ =~= v2_resources@.take(i + 1).map_values(
                |r: &ResourceDescriptor| span_of(r),
            ));
            i += 1;
        }
        assert(v2_resources@.take(v2_resources@.len() as int) =~= v2_resources@);
        let merged_v2 = merge_intervals(&spans);
        let mut i: usize = 0;
        while i < v1_resources.len()
            invariant
                report.summaries_view().len() == 0,
                i <= v1_resources@.len(),
                all_fit(v1_resources@),
                merged_v2@ == merged_v2_spans(hobs@),
                report@ == gather(
                    v1_resources@,
                    |r: &'a ResourceDescriptor|
                        if covered_by(merged_v2_spans(hobs@), r) {
                            seq![]
                        } else {
                            seq![ValidationKind::Hob(HobValidationKind::V1MemoryRangeNotContainedInV2 { hob1: r })]
                        },
                    i as int,
                ),
            decreases v1_resources@.len() - i,
        {
            let v1: &'a ResourceDescriptor = v1_resources[i];
            assert(v1.hi() <= u64::MAX);
            let mut is_v1_migrated = false;
            let mut k: usize = 0;
            while k < merged_v2.len() && !is_v1_migrated
                invariant
                    k <= merged_v2@.len(),
                    v1.hi() <= u64::MAX,
                    is_v1_migrated ==> covered_by(merged_v2@, v1),
                    !is_v1_migrated ==> forall|j: int|
                        0 <= j < k ==> !span_contains(
                            (#[trigger] merged_v2@[j]).0 as int,
                            merged_v2@[j].1 as int,
                            v1.lo(),
                            v1.hi(),
                        ),
                decreases merged_v2@.len() - k,
            {
                let (lo, hi) = merged_v2[k];
                if lo <= v1.start() && hi >= v1.end() {
                    is_v1_migrated = true;
                }
                k += 1;
            }
            if !is_v1_migrated {
                report.add_violation(
                    ValidationKind::Hob(HobValidationKind::V1MemoryRangeNotContainedInV2 { hob1: v1 }),
                );
            }
            i += 1;
        }
        Ok(report)
    }

    /// Validates that at most one resource descriptor HOB is owned by the Memory Type
    /// Information GUID: when several are, one violation for each of them.
    pub fn validate_memory_type_info_single_resource_hob(&self) -> (r: ValidationResult<'a>)
        ensures
            r matches Ok(rep) && rep@ == memory_type_info_single_violations::<'a>(self.hobs()) && rep.summaries_view().len() == 0,
    {
        let mut report = ValidationReport::new();
        let hobs = self.memory_type_info_resource_hobs();
        if hobs.len() > 1 {
            let mut i: usize = 0;
            while i < hobs.len()
                invariant
                    report.summaries_view().len() == 0,
                    i <= hobs@.len(),
                    report@ == gather(
                        hobs@,
                        |r: &'a ResourceDescriptor|
                            seq![ValidationKind::Hob(HobValidationKind::MemoryTypeInfoMultipleResourceHobs { hob1: r })],
                        i as int,
                    ),
                decreases hobs@.len() - i,
            {
                let hob1: &'a ResourceDescriptor = hobs[i];
                report.add_violation(
                    ValidationKind::Hob(HobValidationKind::MemoryTypeInfoMultipleResourceHobs { hob1 }),
                );
                i += 1;
            }
        }
        Ok(report)
    }

    /// Validates that the length of the Memory Type Information resource descriptor holds
    /// all the bins of the Memory Type Information GUID HOB. It checks only when exactly one
    /// such resource descriptor and a GUID HOB are present.
    pub fn validate_memory_type_info_resource_length(&self) -> (r: ValidationResult<'a>)
        requires
            bins_total_fits(self.hobs()),
        ensures
            r matches Ok(rep) && rep@ == memory_type_info_length_violations::<'a>(self.hobs()) && rep.summaries_view().len() == 0,
    {
        let mut report = ValidationReport::new();
        let hobs = self.memory_type_info_resource_hobs();
        if hobs.len() != 1 {
            return Ok(report);
        }
        let resource: &'a ResourceDescriptor = hobs[0];
        let entries = match self.memory_type_info_entries() {
            Some(entries) => entries,
            None => {
                return Ok(report);
            },
        };
        let ghost e = entries@;
        assert(bins_bytes(e) <= u64::MAX);
        let mut required_bytes: u64 = 0;
        let mut k: usize = 0;
        while k < entries.len()
            invariant
                e == entries@,
                k <= e.len(),
                bins_bytes(e) <= u64::MAX,
                required_bytes == bins_bytes(e.take(k as int)),
            decreases e.len() - k,
        {
            proof {
                lemma_bins_bytes_prefix(e, k + 1);
                assert(e.take(k + 1).drop_last() =~= e.take(k as int));
            }
            required_bytes = required_bytes + entries[k].number_of_pages as u64 * UEFI_PAGE_SIZE;
            k += 1;
        }
        assert(e.take(e.len() as int) =~= e);
        if resource.resource_length < required_bytes {
            report.add_violation(
                ValidationKind::Hob(
                    HobValidationKind::MemoryTypeInfoResourceLengthTooSmall {
                        hob1: resource,
                        required_bytes,
                        actual_bytes: resource.resource_length,
                    },
                ),
            );
        }
        Ok(report)
    }

    /// Runs every HOB check, in order, and gathers their violations in one report.
    pub fn validate_all(&self) -> (r: ValidationResult<'a>)
        requires
            hob_list_wf(self.hobs()),
        ensures
            self.hobs().len() == 0 ==> r == Err::<ValidationReport<'a>, ValidationAppError>(
                ValidationAppError::EmptyHobList,
            ),
            self.hobs().len() != 0 ==> (r matches Ok(rep) && rep@ == hob_violations::<'a>(self.hobs()) && rep.summaries_view().len() == 0),
    {
        let mut report = ValidationReport::new();
        if self.hob_list.len() == 0 {
            return Err(ValidationAppError::EmptyHobList);
        }
        report.append_report(self.validate_memory_overlap()?);
        report.append_report(self.validate_overlapping_v1v2_attributes()?);
        report.append_report(self.validate_v1v2_superset()?);
        report.append_report(self.validate_page0_memory_allocation()?);
        report.append_report(self.validate_memory_uce_attribute()?);
        report.append_report(self.validate_memory_cacheability_attribute()?);
        report.append_report(self.validate_memory_cacheability_attribute_io_resource_hob()?);
        report.append_report(self.validate_memory_type_info_single_resource_hob()?);
        report.append_report(self.validate_memory_type_info_resource_length()?);
        report.append_report(self.validate_allocation_overlap()?);
        report.append_report(self.validate_page_alignment()?);
        report.append_report(self.validate_fv_within_memory_allocation()?);
        Ok(report)
    }
}

} // verus!

verus! {

impl<'a> Validator for HobValidator<'a> {
    open spec fn can_validate(&self) -> bool {
        hob_list_wf(self.hobs())
    }

    /// Runs every HOB check (see `validate_all`).
    fn validate(&self) -> (r: ValidationResult<'_>)
        ensures
            self.hobs().len() == 0 ==> r == Err::<ValidationReport<'_>, ValidationAppError>(
                ValidationAppError::EmptyHobList,
            ),
            self.hobs().len() != 0 ==> (r matches Ok(rep) && rep@ == hob_violations::<'a>(self.hobs()) && rep.summaries_view().len() == 0),
    {
        self.validate_all()
    }

    /// Counts the HOBs by kind.
    fn summary(&self) -> (r: String)
        ensures
            r@ == hob_summary(self.hobs()),
    {
        let hobs = self.hob_list;
        if hobs.len() == 0 {
            return String::from_str("No HOBs to validate.");
        }
        let mut counts: Vec<usize> = vec![0, 0, 0, 0, 0, 0, 0, 0, 0];
        let mut i: usize = 0;
        while i < hobs.len()
            invariant
                i <= hobs@.len(),
                counts@.len() == 9,
                forall|r: int| 0 <= r < 9 ==> #[trigger] counts@[r] == hob_kind_count(hobs@, r, i as int),
            decreases hobs@.len() - i,
        {
            let rank = hob_kind_rank_of(&hobs[i]);
            proof {
                lemma_hob_kind_count_bound(hobs@, rank as int, i as int);
            }
            let c = counts[rank];
            counts.set(rank, c + 1);
            i += 1;
        }
        let mut summary = String::from_str("HOB Summary:\n  Total HOBs: ");
        push_dec(&mut summary, hobs.len() as u64);
        let mut r: usize = 0;
        while r < 9
            invariant
                r <= 9,
                counts@.len() == 9,
                forall|k: int| 0 <= k < 9 ==> #[trigger] counts@[k] == hob_kind_count(hobs@, k, hobs@.len() as int),
                summary@ == "HOB Summary:\n  Total HOBs: "@ + dec(hobs@.len()) + hob_summary_lines(hobs@, r as int),
            decreases 9 - r,
        {
            let count = counts[r];
            if count > 0 {
                push_str(&mut summary, "\n    ");
                push_str(&mut summary, hob_kind_name_of(r));
                push_str(&mut summary, ": ");
                push_dec(&mut summary, count as u64);
            }
            assert(summary@ =~= "HOB Summary:\n  Total HOBs: "@ + dec(hobs@.len()) + hob_summary_lines(hobs@, r + 1));
            r += 1;
        }
        summary
    }
}

} // verus!
