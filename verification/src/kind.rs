//! The kinds of requirement violations that the validators report.
use crate::model::{
    FirmwareFile, FirmwareSection, FirmwareVolume, FvHob, MemAllocDescriptor, ResourceDescriptor,
};
use crate::json::{
    allocation_json, allocation_members, fv_hob_json, fv_hob_members, json_or, resource_json,
    resource_members, section_json, section_members,
};
use crate::model::Interval;
use crate::text::{dec, has_prefix, hex, hex_prefixed, push_dec, push_hex, push_hex_prefixed, push_str};
use vstd::prelude::*;

verus! {

/// A violation found in the HOB list; it refers to the offending descriptors.
#[derive(Debug, PartialEq, Eq)]
pub enum HobValidationKind<'a> {
    /// HOBs must define consistent memory attributes.
    InconsistentMemoryAttributes { hob1: &'a ResourceDescriptor, hob2: &'a ResourceDescriptor },
    /// HOBs must not define overlapping memory ranges.
    OverlappingMemoryRanges { hob1: &'a ResourceDescriptor, hob2: &'a ResourceDescriptor },
    /// Page zero must not be described in memory HOBs.
    PageZeroMemoryDescribed { alloc_desc: &'a MemAllocDescriptor },
    /// All V1 ranges must be covered by V2.
    V1MemoryRangeNotContainedInV2 { hob1: &'a ResourceDescriptor },
    /// V2 ranges must not have the UCE attribute.
    V2ContainsUceAttribute { hob1: &'a ResourceDescriptor, attributes: u64 },
    /// V2 resource descriptors must have exactly one valid cacheability attribute set.
    V2MissingValidCacheabilityAttribute { hob1: &'a ResourceDescriptor, attributes: u64 },
    /// V2 resource descriptors for IO must have no cacheability or protection attributes set.
    V2InvalidIoCacheabilityAttributes { hob1: &'a ResourceDescriptor, attributes: u64 },
    /// More than one Resource Descriptor HOB is owned by the Memory Type Information GUID.
    MemoryTypeInfoMultipleResourceHobs { hob1: &'a ResourceDescriptor },
    /// The Memory Type Information resource descriptor is smaller than the sum of the bins.
    MemoryTypeInfoResourceLengthTooSmall {
        hob1: &'a ResourceDescriptor,
        required_bytes: u64,
        actual_bytes: u64,
    },
    /// Memory allocation HOBs must not overlap.
    MemoryAllocationOverlap { hob1: &'a MemAllocDescriptor, hob2: &'a MemAllocDescriptor },
    /// Memory allocation HOBs must be page aligned.
    MemoryAllocationNotPageAligned { hob: &'a MemAllocDescriptor },
    /// Resource descriptor HOBs must be page aligned.
    ResourceDescriptorNotPageAligned { hob: &'a ResourceDescriptor },
    /// FV HOBs must fall within memory allocation HOBs.
    FvNotWithinMemoryAllocation { fv: &'a FvHob },
}

/// A violation found in the firmware volumes; it refers to the offending volume, file and
/// section.
#[derive(Debug, PartialEq, Eq)]
pub enum FvValidationKind<'a> {
    /// A firmware volume must not contain combined drivers.
    CombinedDriversPresent { fv: &'a FirmwareVolume, file: &'a FirmwareFile },
    /// A firmware volume must not contain LZMA-compressed sections.
    LzmaCompressedSections {
        fv: &'a FirmwareVolume,
        file: &'a FirmwareFile,
        section: &'a FirmwareSection,
    },
    /// A firmware volume must not contain an Apriori file.
    ProhibitedAprioriFile { fv: &'a FirmwareVolume, file: &'a FirmwareFile },
    /// A firmware volume must not contain traditional SMM drivers.
    UsesTraditionalSmm { fv: &'a FirmwareVolume, file: &'a FirmwareFile },
    /// PE images must have page-aligned section alignments.
    InvalidSectionAlignment {
        fv: &'a FirmwareVolume,
        file: &'a FirmwareFile,
        section: &'a FirmwareSection,
        required_alignment: usize,
    },
}

/// Any violation of a platform requirement.
#[derive(Debug, PartialEq, Eq)]
pub enum ValidationKind<'a> {
    Hob(HobValidationKind<'a>),
    Fv(FvValidationKind<'a>),
}

/// The one-line title of the violation kind.
pub open spec fn header_text(k: ValidationKind) -> Seq<char> {
    match k {
        ValidationKind::Hob(HobValidationKind::InconsistentMemoryAttributes { .. }) => "HOB: Inconsistent Memory Attributes"@,
        ValidationKind::Hob(HobValidationKind::OverlappingMemoryRanges { .. }) => "HOB: Overlapping Memory Ranges"@,
        ValidationKind::Hob(HobValidationKind::PageZeroMemoryDescribed { .. }) => "HOB: Page Zero Memory Described"@,
        ValidationKind::Hob(HobValidationKind::V1MemoryRangeNotContainedInV2 { .. }) => "HOB: V1 Memory Range Not Contained in V2"@,
        ValidationKind::Hob(HobValidationKind::V2ContainsUceAttribute { .. }) => "HOB: V2 Range Contains UCE Attribute"@,
        ValidationKind::Hob(HobValidationKind::V2MissingValidCacheabilityAttribute { .. }) => "HOB: V2 Missing Valid Cacheability Attribute"@,
        ValidationKind::Hob(HobValidationKind::V2InvalidIoCacheabilityAttributes { .. }) => "HOB: V2 Invalid IO Cacheability Attributes"@,
        ValidationKind::Hob(HobValidationKind::MemoryTypeInfoMultipleResourceHobs { .. }) => "HOB: Multiple Memory Type Info Resource Descriptor HOBs"@,
        ValidationKind::Hob(HobValidationKind::MemoryTypeInfoResourceLengthTooSmall { .. }) => "HOB: Memory Type Info Resource Descriptor HOB Length Too Small"@,
        ValidationKind::Hob(HobValidationKind::MemoryAllocationOverlap { .. }) => "HOB: Memory Allocation Ranges Overlap"@,
        ValidationKind::Hob(HobValidationKind::MemoryAllocationNotPageAligned { .. }) => "HOB: Memory Allocation Range Not Page Aligned"@,
        ValidationKind::Hob(HobValidationKind::ResourceDescriptorNotPageAligned { .. }) => "HOB: Resource Descriptor Range Not Page Aligned"@,
        ValidationKind::Hob(HobValidationKind::FvNotWithinMemoryAllocation { .. }) => "HOB: Firmware Volume Not Within Memory Allocation"@,
        ValidationKind::Fv(FvValidationKind::CombinedDriversPresent { .. }) => "FV: Combined Drivers Present"@,
        ValidationKind::Fv(FvValidationKind::LzmaCompressedSections { .. }) => "FV: LZMA Compressed Sections Present"@,
        ValidationKind::Fv(FvValidationKind::ProhibitedAprioriFile { .. }) => "FV: Prohibited Apriori File Present"@,
        ValidationKind::Fv(FvValidationKind::UsesTraditionalSmm { .. }) => "FV: Uses Traditional SMM Driver"@,
        ValidationKind::Fv(FvValidationKind::InvalidSectionAlignment { .. }) => "FV: PE Image Invalid Section Alignment"@,
    }
}

/// How a platform resolves violations of the kind.
pub open spec fn guidance_text(k: ValidationKind) -> Seq<char> {
    match k {
        ValidationKind::Hob(HobValidationKind::InconsistentMemoryAttributes { .. }) => "   Platforms must producing V1 and V2 HOBs for describing the same range(s) should have consistent memory attributes.\n   \
                                                                              Ref: https://opendevicepartnership.github.io/patina/integrate/patina_dxe_core_requirements_checklist.html"@,
        ValidationKind::Hob(HobValidationKind::OverlappingMemoryRanges { .. }) => "   Platforms must produce non-overlapping HOBs by splitting up overlapping HOBs\n   \
                                                                         into multiple HOBs and eliminating duplicates.\n   \
                                                                         Ref: https://opendevicepartnership.github.io/patina/integrate/patina_dxe_core_requirements_checklist.html"@,
        ValidationKind::Hob(HobValidationKind::PageZeroMemoryDescribed { .. }) => "   Platforms must not allocate page 0.\n   \
                                                                         Ref: https://opendevicepartnership.github.io/patina/integrate/patina_dxe_core_requirements_checklist.html"@,
        ValidationKind::Hob(HobValidationKind::V1MemoryRangeNotContainedInV2 { .. }) => "   All V1 HOB ranges should be described/covered by corresponding V2 HOBs."@,
        ValidationKind::Hob(HobValidationKind::V2ContainsUceAttribute { .. }) => "   V2 HOB contains prohibited EFI_MEMORY_UCE attribute."@,
        ValidationKind::Hob(HobValidationKind::V2MissingValidCacheabilityAttribute { .. }) => "   Platforms must produce Resource Descriptor HOB v2s with a single valid\n   \
                                                                                     cacheability attribute set. These can be the existing Resource Descriptor HOB\n   \
                                                                                     fields with the cacheability attribute set as the only additional field in the\n   \
                                                                                     v2 HOB.\n   \
                                                                                     Ref: https://opendevicepartnership.github.io/patina/integrate/patina_dxe_core_requirements_checklist.html"@,
        ValidationKind::Hob(HobValidationKind::V2InvalidIoCacheabilityAttributes { .. }) => "   Platforms must produce Resource Descriptor HOB v2s with no cacheability or memory protection\n   \
                                                                                   attributes set for IO resource types."@,
        ValidationKind::Hob(HobValidationKind::MemoryTypeInfoMultipleResourceHobs { .. }) => "   Only one Resource Descriptor HOB owned by the Memory Type Information GUID is allowed. "@,
        ValidationKind::Hob(HobValidationKind::MemoryTypeInfoResourceLengthTooSmall { .. }) => "   The Memory Type Info Resource Descriptor HOB's ResourceLength must be large enough\n   \
                                                                                    to hold the sum of bin sizes reported in the Memory Type Information GUID HOB.\n   \
                                                                                    Note: the check uses the raw page-count sum. Platforms may need additional space\n   \
                                                                                    for per-bin alignment padding."@,
        ValidationKind::Hob(HobValidationKind::MemoryAllocationOverlap { .. }) => "   Memory Allocation HOB ranges must not overlap."@,
        ValidationKind::Hob(HobValidationKind::MemoryAllocationNotPageAligned { .. }) => "   Memory Allocation HOB base addresses and lengths must be page aligned."@,
        ValidationKind::Hob(HobValidationKind::ResourceDescriptorNotPageAligned { .. }) => "   Resource Descriptor HOB base addresses and lengths must be page aligned."@,
        ValidationKind::Hob(HobValidationKind::FvNotWithinMemoryAllocation { .. }) => "   Firmware Volume HOB ranges must be contained within a Memory Allocation HOB range."@,
        ValidationKind::Fv(FvValidationKind::CombinedDriversPresent { .. }) => "   Firmware volume contains prohibited combined drivers. \nBelow file types are prohibited\n- COMBINED_MM_DXE(0x0C)\n- COMBINED_PEIM_DRIVER(0x08).\n   \
                                                                       Ref: https://opendevicepartnership.github.io/patina/integrate/patina_dxe_core_requirements_checklist.html"@,
        ValidationKind::Fv(FvValidationKind::LzmaCompressedSections { .. }) => "   Temporarily, LZMA compressed sections that will be decompressed in DXE should use Brotli or TianoCompress.\n   \
                                                                       Tracking: https://github.com/OpenDevicePartnership/patina/issues/517\n   \
                                                                       Ref: https://opendevicepartnership.github.io/patina/integrate/patina_dxe_core_requirements_checklist.html"@,
        ValidationKind::Fv(FvValidationKind::ProhibitedAprioriFile { .. }) => "   A Priori sections must be removed and proper driver dispatch must be ensured\n   \
                                                                      using depex statements. Drivers may produce empty protocols solely to ensure\n   \
                                                                      that other drivers can use that protocol as a depex statement, if required.\n   \
                                                                      Platforms may also list drivers in FFSes in the order they should be dispatched,\n   \
                                                                      though it is recommended to rely on depex statements.\n   \
                                                                      Ref: https://opendevicepartnership.github.io/patina/integrate/patina_dxe_core_requirements_checklist.html\n   \
                                                                      Ref: https://github.com/OpenDevicePartnership/patina-qemu/pull/40"@,
        ValidationKind::Fv(FvValidationKind::UsesTraditionalSmm { .. }) => "   Platforms must transition to Standalone MM (or not use MM at all, as applicable)\n   \
                                                                   using the provided guidance. All combined modules must be dropped in favor of\n   \
                                                                   single phase modules.\n   \
                                                                   Ref: https://opendevicepartnership.github.io/patina/integrate/patina_dxe_core_requirements_checklist.html"@,
        ValidationKind::Fv(FvValidationKind::InvalidSectionAlignment { .. }) => "   All PE images must have section alignment that is a multiple of page size. \n   \
                                                                        This is not a PI spec requirement, but is a Patina requirement.\n    \
                                                                        Platforms should drop unaligned images or re-build images to ensure section alignment is page-aligned.    \n
                                                                        Ref: https://opendevicepartnership.github.io/patina/integrate/patina_dxe_core_requirements_checklist.html"@,
    }
}

/// The position of the kind of a violation among all kinds (the HOB kinds first, each list
/// in declaration order); the fields play no part.
pub open spec fn variant_index(k: ValidationKind) -> nat {
    match k {
        ValidationKind::Hob(HobValidationKind::InconsistentMemoryAttributes { .. }) => 0,
        ValidationKind::Hob(HobValidationKind::OverlappingMemoryRanges { .. }) => 1,
        ValidationKind::Hob(HobValidationKind::PageZeroMemoryDescribed { .. }) => 2,
        ValidationKind::Hob(HobValidationKind::V1MemoryRangeNotContainedInV2 { .. }) => 3,
        ValidationKind::Hob(HobValidationKind::V2ContainsUceAttribute { .. }) => 4,
        ValidationKind::Hob(HobValidationKind::V2MissingValidCacheabilityAttribute { .. }) => 5,
        ValidationKind::Hob(HobValidationKind::V2InvalidIoCacheabilityAttributes { .. }) => 6,
        ValidationKind::Hob(HobValidationKind::MemoryTypeInfoMultipleResourceHobs { .. }) => 7,
        ValidationKind::Hob(HobValidationKind::MemoryTypeInfoResourceLengthTooSmall { .. }) => 8,
        ValidationKind::Hob(HobValidationKind::MemoryAllocationOverlap { .. }) => 9,
        ValidationKind::Hob(HobValidationKind::MemoryAllocationNotPageAligned { .. }) => 10,
        ValidationKind::Hob(HobValidationKind::ResourceDescriptorNotPageAligned { .. }) => 11,
        ValidationKind::Hob(HobValidationKind::FvNotWithinMemoryAllocation { .. }) => 12,
        ValidationKind::Fv(FvValidationKind::CombinedDriversPresent { .. }) => 13,
        ValidationKind::Fv(FvValidationKind::LzmaCompressedSections { .. }) => 14,
        ValidationKind::Fv(FvValidationKind::ProhibitedAprioriFile { .. }) => 15,
        ValidationKind::Fv(FvValidationKind::UsesTraditionalSmm { .. }) => 16,
        ValidationKind::Fv(FvValidationKind::InvalidSectionAlignment { .. }) => 17,
    }
}

/// The violation names two descriptors, so its table has two descriptor columns.
pub open spec fn two_descriptor_columns(k: ValidationKind) -> bool {
    match k {
        ValidationKind::Hob(HobValidationKind::InconsistentMemoryAttributes { .. }) => true,
        ValidationKind::Hob(HobValidationKind::OverlappingMemoryRanges { .. }) => true,
        ValidationKind::Hob(HobValidationKind::MemoryAllocationOverlap { .. }) => true,
        _ => false,
    }
}

/// The name of the violation kind.
pub open spec fn name_text(k: ValidationKind) -> Seq<char> {
    match k {
        ValidationKind::Hob(HobValidationKind::InconsistentMemoryAttributes { .. }) => "InconsistentMemoryAttributes"@,
        ValidationKind::Hob(HobValidationKind::OverlappingMemoryRanges { .. }) => "OverlappingMemoryRanges"@,
        ValidationKind::Hob(HobValidationKind::PageZeroMemoryDescribed { .. }) => "PageZeroMemoryDescribed"@,
        ValidationKind::Hob(HobValidationKind::V1MemoryRangeNotContainedInV2 { .. }) => "V1MemoryRangeNotContainedInV2"@,
        ValidationKind::Hob(HobValidationKind::V2ContainsUceAttribute { .. }) => "V2ContainsUceAttribute"@,
        ValidationKind::Hob(HobValidationKind::V2MissingValidCacheabilityAttribute { .. }) => "V2MissingValidCacheabilityAttribute"@,
        ValidationKind::Hob(HobValidationKind::V2InvalidIoCacheabilityAttributes { .. }) => "V2InvalidIoCacheabilityAttributes"@,
        ValidationKind::Hob(HobValidationKind::MemoryTypeInfoMultipleResourceHobs { .. }) => "MemoryTypeInfoMultipleResourceHobs"@,
        ValidationKind::Hob(HobValidationKind::MemoryTypeInfoResourceLengthTooSmall { .. }) => "MemoryTypeInfoResourceLengthTooSmall"@,
        ValidationKind::Hob(HobValidationKind::MemoryAllocationOverlap { .. }) => "MemoryAllocationOverlap"@,
        ValidationKind::Hob(HobValidationKind::MemoryAllocationNotPageAligned { .. }) => "MemoryAllocationNotPageAligned"@,
        ValidationKind::Hob(HobValidationKind::ResourceDescriptorNotPageAligned { .. }) => "ResourceDescriptorNotPageAligned"@,
        ValidationKind::Hob(HobValidationKind::FvNotWithinMemoryAllocation { .. }) => "FvNotWithinMemoryAllocation"@,
        ValidationKind::Fv(FvValidationKind::CombinedDriversPresent { .. }) => "CombinedDriversPresent"@,
        ValidationKind::Fv(FvValidationKind::LzmaCompressedSections { .. }) => "LzmaCompressedSections"@,
        ValidationKind::Fv(FvValidationKind::ProhibitedAprioriFile { .. }) => "ProhibitedAprioriFile"@,
        ValidationKind::Fv(FvValidationKind::UsesTraditionalSmm { .. }) => "UsesTraditionalSmm"@,
        ValidationKind::Fv(FvValidationKind::InvalidSectionAlignment { .. }) => "InvalidSectionAlignment"@,
    }
}

/// The column titles of the violation kind's table.
pub open spec fn table_header_text(k: ValidationKind) -> Seq<Seq<char>> {
    match k {
        ValidationKind::Hob(HobValidationKind::InconsistentMemoryAttributes { .. }) => seq!["#"@, "V1 Hob"@, "V2 Hob"@, "Violation/Resolution"@],
        ValidationKind::Hob(HobValidationKind::OverlappingMemoryRanges { .. }) => seq!["#"@, "Hob 1"@, "Hob 2"@, "Violation/Resolution"@],
        ValidationKind::Hob(HobValidationKind::PageZeroMemoryDescribed { .. }) => seq!["#"@, "Memory Allocation Descriptor"@, "Violation/Resolution"@],
        ValidationKind::Hob(HobValidationKind::V1MemoryRangeNotContainedInV2 { .. }) => seq!["#"@, "V1 Hob"@, "Violation/Resolution"@],
        ValidationKind::Hob(HobValidationKind::V2ContainsUceAttribute { .. }) => seq!["#"@, "V2 Hob"@, "Violation/Resolution"@],
        ValidationKind::Hob(HobValidationKind::V2MissingValidCacheabilityAttribute { .. }) => seq!["#"@, "V2 Hob"@, "Violation/Resolution"@],
        ValidationKind::Hob(HobValidationKind::V2InvalidIoCacheabilityAttributes { .. }) => seq!["#"@, "V2 Hob"@, "Violation/Resolution"@],
        ValidationKind::Hob(HobValidationKind::MemoryTypeInfoMultipleResourceHobs { .. }) => seq!["#"@, "Resource Descriptor Hob"@, "Violation/Resolution"@],
        ValidationKind::Hob(HobValidationKind::MemoryTypeInfoResourceLengthTooSmall { .. }) => seq!["#"@, "Resource Descriptor Hob"@, "Violation/Resolution"@],
        ValidationKind::Hob(HobValidationKind::MemoryAllocationOverlap { .. }) => seq!["#"@, "Memory Allocation HOB 1"@, "Memory Allocation HOB 2"@, "Violation/Resolution"@],
        ValidationKind::Hob(HobValidationKind::MemoryAllocationNotPageAligned { .. }) => seq!["#"@, "Memory Allocation HOB"@, "Violation/Resolution"@],
        ValidationKind::Hob(HobValidationKind::ResourceDescriptorNotPageAligned { .. }) => seq!["#"@, "Resource Descriptor HOB"@, "Violation/Resolution"@],
        ValidationKind::Hob(HobValidationKind::FvNotWithinMemoryAllocation { .. }) => seq!["#"@, "Firmware Volume HOB"@, "Violation/Resolution"@],
        ValidationKind::Fv(FvValidationKind::CombinedDriversPresent { .. }) => seq!["#"@, "File"@, "Violation/Resolution"@],
        ValidationKind::Fv(FvValidationKind::LzmaCompressedSections { .. }) => seq!["#"@, "LZMA Section"@, "Violation/Resolution"@],
        ValidationKind::Fv(FvValidationKind::ProhibitedAprioriFile { .. }) => seq!["#"@, "A Priori File"@, "Violation/Resolution"@],
        ValidationKind::Fv(FvValidationKind::UsesTraditionalSmm { .. }) => seq!["#"@, "Traditional SMM Driver"@, "Violation/Resolution"@],
        ValidationKind::Fv(FvValidationKind::InvalidSectionAlignment { .. }) => seq!["#"@, "PE Image Section Alignment"@, "Violation/Resolution"@],
    }
}

impl<'a> ValidationKind<'a> {
    /// The one-line title of the violation kind, `HOB: ...` or `FV: ...`; two violations
    /// share a title exactly when they are of one kind (`law_header_names_kind`).
    pub fn header(&self) -> (r: &str)
        ensures
            r@ == header_text(*self),
            r@.len() > 0,
            *self is Hob ==> has_prefix(r@, "HOB: "@),
            *self is Fv ==> has_prefix(r@, "FV: "@),
    {
        proof {
            crate::laws::law_header_names_kind(*self, *self);
        }
        match self {
            ValidationKind::Hob(k) => match k {
                HobValidationKind::InconsistentMemoryAttributes { .. } => "HOB: Inconsistent Memory Attributes",
                HobValidationKind::OverlappingMemoryRanges { .. } => "HOB: Overlapping Memory Ranges",
                HobValidationKind::PageZeroMemoryDescribed { .. } => "HOB: Page Zero Memory Described",
                HobValidationKind::V1MemoryRangeNotContainedInV2 { .. } => "HOB: V1 Memory Range Not Contained in V2",
                HobValidationKind::V2ContainsUceAttribute { .. } => "HOB: V2 Range Contains UCE Attribute",
                HobValidationKind::V2MissingValidCacheabilityAttribute { .. } => "HOB: V2 Missing Valid Cacheability Attribute",
                HobValidationKind::V2InvalidIoCacheabilityAttributes { .. } => "HOB: V2 Invalid IO Cacheability Attributes",
                HobValidationKind::MemoryTypeInfoMultipleResourceHobs { .. } => "HOB: Multiple Memory Type Info Resource Descriptor HOBs",
                HobValidationKind::MemoryTypeInfoResourceLengthTooSmall { .. } => "HOB: Memory Type Info Resource Descriptor HOB Length Too Small",
                HobValidationKind::MemoryAllocationOverlap { .. } => "HOB: Memory Allocation Ranges Overlap",
                HobValidationKind::MemoryAllocationNotPageAligned { .. } => "HOB: Memory Allocation Range Not Page Aligned",
                HobValidationKind::ResourceDescriptorNotPageAligned { .. } => "HOB: Resource Descriptor Range Not Page Aligned",
                HobValidationKind::FvNotWithinMemoryAllocation { .. } => "HOB: Firmware Volume Not Within Memory Allocation",
            },
            ValidationKind::Fv(k) => match k {
                FvValidationKind::CombinedDriversPresent { .. } => "FV: Combined Drivers Present",
                FvValidationKind::LzmaCompressedSections { .. } => "FV: LZMA Compressed Sections Present",
                FvValidationKind::ProhibitedAprioriFile { .. } => "FV: Prohibited Apriori File Present",
                FvValidationKind::UsesTraditionalSmm { .. } => "FV: Uses Traditional SMM Driver",
                FvValidationKind::InvalidSectionAlignment { .. } => "FV: PE Image Invalid Section Alignment",
            },
        }
    }

    /// How a platform resolves violations of the kind, indented by three spaces; it
    /// depends on the kind alone (`law_kind_texts_depend_on_kind_only`).
    pub fn guidance(&self) -> (r: &str)
        ensures
            r@ == guidance_text(*self),
            r@.len() > 0,
            has_prefix(r@, "   "@),
    {
        proof {
            crate::laws::law_guidance_indented(*self);
        }
        match self {
            ValidationKind::Hob(k) => match k {
                HobValidationKind::InconsistentMemoryAttributes { .. } => "   Platforms must producing V1 and V2 HOBs for describing the same range(s) should have consistent memory attributes.\n   \
                                                                              Ref: https://opendevicepartnership.github.io/patina/integrate/patina_dxe_core_requirements_checklist.html",
                HobValidationKind::OverlappingMemoryRanges { .. } => "   Platforms must produce non-overlapping HOBs by splitting up overlapping HOBs\n   \
                                                                         into multiple HOBs and eliminating duplicates.\n   \
                                                                         Ref: https://opendevicepartnership.github.io/patina/integrate/patina_dxe_core_requirements_checklist.html",
                HobValidationKind::PageZeroMemoryDescribed { .. } => "   Platforms must not allocate page 0.\n   \
                                                                         Ref: https://opendevicepartnership.github.io/patina/integrate/patina_dxe_core_requirements_checklist.html",
                HobValidationKind::V1MemoryRangeNotContainedInV2 { .. } => "   All V1 HOB ranges should be described/covered by corresponding V2 HOBs.",
                HobValidationKind::V2ContainsUceAttribute { .. } => "   V2 HOB contains prohibited EFI_MEMORY_UCE attribute.",
                HobValidationKind::V2MissingValidCacheabilityAttribute { .. } => "   Platforms must produce Resource Descriptor HOB v2s with a single valid\n   \
                                                                                     cacheability attribute set. These can be the existing Resource Descriptor HOB\n   \
                                                                                     fields with the cacheability attribute set as the only additional field in the\n   \
                                                                                     v2 HOB.\n   \
                                                                                     Ref: https://opendevicepartnership.github.io/patina/integrate/patina_dxe_core_requirements_checklist.html",
                HobValidationKind::V2InvalidIoCacheabilityAttributes { .. } => "   Platforms must produce Resource Descriptor HOB v2s with no cacheability or memory protection\n   \
                                                                                   attributes set for IO resource types.",
                HobValidationKind::MemoryTypeInfoMultipleResourceHobs { .. } => "   Only one Resource Descriptor HOB owned by the Memory Type Information GUID is allowed. ",
                HobValidationKind::MemoryTypeInfoResourceLengthTooSmall { .. } => "   The Memory Type Info Resource Descriptor HOB's ResourceLength must be large enough\n   \
                                                                                    to hold the sum of bin sizes reported in the Memory Type Information GUID HOB.\n   \
                                                                                    Note: the check uses the raw page-count sum. Platforms may need additional space\n   \
                                                                                    for per-bin alignment padding.",
                HobValidationKind::MemoryAllocationOverlap { .. } => "   Memory Allocation HOB ranges must not overlap.",
                HobValidationKind::MemoryAllocationNotPageAligned { .. } => "   Memory Allocation HOB base addresses and lengths must be page aligned.",
                HobValidationKind::ResourceDescriptorNotPageAligned { .. } => "   Resource Descriptor HOB base addresses and lengths must be page aligned.",
                HobValidationKind::FvNotWithinMemoryAllocation { .. } => "   Firmware Volume HOB ranges must be contained within a Memory Allocation HOB range.",
            },
            ValidationKind::Fv(k) => match k {
                FvValidationKind::CombinedDriversPresent { .. } => "   Firmware volume contains prohibited combined drivers. \nBelow file types are prohibited\n- COMBINED_MM_DXE(0x0C)\n- COMBINED_PEIM_DRIVER(0x08).\n   \
                                                                       Ref: https://opendevicepartnership.github.io/patina/integrate/patina_dxe_core_requirements_checklist.html",
                FvValidationKind::LzmaCompressedSections { .. } => "   Temporarily, LZMA compressed sections that will be decompressed in DXE should use Brotli or TianoCompress.\n   \
                                                                       Tracking: https://github.com/OpenDevicePartnership/patina/issues/517\n   \
                                                                       Ref: https://opendevicepartnership.github.io/patina/integrate/patina_dxe_core_requirements_checklist.html",
                FvValidationKind::ProhibitedAprioriFile { .. } => "   A Priori sections must be removed and proper driver dispatch must be ensured\n   \
                                                                      using depex statements. Drivers may produce empty protocols solely to ensure\n   \
                                                                      that other drivers can use that protocol as a depex statement, if required.\n   \
                                                                      Platforms may also list drivers in FFSes in the order they should be dispatched,\n   \
                                                                      though it is recommended to rely on depex statements.\n   \
                                                                      Ref: https://opendevicepartnership.github.io/patina/integrate/patina_dxe_core_requirements_checklist.html\n   \
                                                                      Ref: https://github.com/OpenDevicePartnership/patina-qemu/pull/40",
                FvValidationKind::UsesTraditionalSmm { .. } => "   Platforms must transition to Standalone MM (or not use MM at all, as applicable)\n   \
                                                                   using the provided guidance. All combined modules must be dropped in favor of\n   \
                                                                   single phase modules.\n   \
                                                                   Ref: https://opendevicepartnership.github.io/patina/integrate/patina_dxe_core_requirements_checklist.html",
                FvValidationKind::InvalidSectionAlignment { .. } => "   All PE images must have section alignment that is a multiple of page size. \n   \
                                                                        This is not a PI spec requirement, but is a Patina requirement.\n    \
                                                                        Platforms should drop unaligned images or re-build images to ensure section alignment is page-aligned.    \n
                                                                        Ref: https://opendevicepartnership.github.io/patina/integrate/patina_dxe_core_requirements_checklist.html",
            },
        }
    }

    /// The name of the violation kind; two violations share a name exactly when they are
    /// of one kind (`law_name_names_kind`).
    pub fn name(&self) -> (r: String)
        ensures
            r@ == name_text(*self),
            r@.len() > 0,
    {
        proof {
            crate::laws::law_name_names_kind(*self, *self);
        }
        match self {
            ValidationKind::Hob(k) => match k {
                HobValidationKind::InconsistentMemoryAttributes { .. } => String::from_str("InconsistentMemoryAttributes"),
                HobValidationKind::OverlappingMemoryRanges { .. } => String::from_str("OverlappingMemoryRanges"),
                HobValidationKind::PageZeroMemoryDescribed { .. } => String::from_str("PageZeroMemoryDescribed"),
                HobValidationKind::V1MemoryRangeNotContainedInV2 { .. } => String::from_str("V1MemoryRangeNotContainedInV2"),
                HobValidationKind::V2ContainsUceAttribute { .. } => String::from_str("V2ContainsUceAttribute"),
                HobValidationKind::V2MissingValidCacheabilityAttribute { .. } => String::from_str("V2MissingValidCacheabilityAttribute"),
                HobValidationKind::V2InvalidIoCacheabilityAttributes { .. } => String::from_str("V2InvalidIoCacheabilityAttributes"),
                HobValidationKind::MemoryTypeInfoMultipleResourceHobs { .. } => String::from_str("MemoryTypeInfoMultipleResourceHobs"),
                HobValidationKind::MemoryTypeInfoResourceLengthTooSmall { .. } => String::from_str("MemoryTypeInfoResourceLengthTooSmall"),
                HobValidationKind::MemoryAllocationOverlap { .. } => String::from_str("MemoryAllocationOverlap"),
                HobValidationKind::MemoryAllocationNotPageAligned { .. } => String::from_str("MemoryAllocationNotPageAligned"),
                HobValidationKind::ResourceDescriptorNotPageAligned { .. } => String::from_str("ResourceDescriptorNotPageAligned"),
                HobValidationKind::FvNotWithinMemoryAllocation { .. } => String::from_str("FvNotWithinMemoryAllocation"),
            },
            ValidationKind::Fv(k) => match k {
                FvValidationKind::CombinedDriversPresent { .. } => String::from_str("CombinedDriversPresent"),
                FvValidationKind::LzmaCompressedSections { .. } => String::from_str("LzmaCompressedSections"),
                FvValidationKind::ProhibitedAprioriFile { .. } => String::from_str("ProhibitedAprioriFile"),
                FvValidationKind::UsesTraditionalSmm { .. } => String::from_str("UsesTraditionalSmm"),
                FvValidationKind::InvalidSectionAlignment { .. } => String::from_str("InvalidSectionAlignment"),
            },
        }
    }

}

/// The rows of a violation table need the ranges that they print to end inside the address
/// space, and an alignment violation to name a section with PE header fields.
pub open spec fn row_renderable(k: ValidationKind) -> bool {
    match k {
        ValidationKind::Hob(HobValidationKind::OverlappingMemoryRanges { hob1, hob2 }) => hob1.hi()
            <= u64::MAX && hob2.hi() <= u64::MAX,
        ValidationKind::Hob(HobValidationKind::PageZeroMemoryDescribed { alloc_desc }) => alloc_desc.hi()
            <= u64::MAX,
        ValidationKind::Hob(HobValidationKind::MemoryAllocationOverlap { hob1, hob2 }) => hob1.hi()
            <= u64::MAX && hob2.hi() <= u64::MAX,
        ValidationKind::Fv(FvValidationKind::InvalidSectionAlignment { section, .. }) => section.pe_info is Some,
        _ => true,
    }
}

/// `prefix` followed by the two ranges as `(0x.., 0x..) | (0x.., 0x..)` pairs.
pub open spec fn two_ranges_text(
    first: Seq<char>,
    lo1: int,
    hi1: int,
    second: Seq<char>,
    lo2: int,
    hi2: int,
) -> Seq<char> {
    first + hex_prefixed(lo1 as nat) + ", "@ + hex_prefixed(hi1 as nat) + second + hex_prefixed(lo2 as nat)
        + ", "@ + hex_prefixed(hi2 as nat) + ")"@
}

/// The row of the violation in its table: the row number, the offending descriptors, and
/// what to resolve.
pub open spec fn table_row_text(k: ValidationKind, row_num: Seq<char>) -> Seq<Seq<char>> {
    match k {
        ValidationKind::Hob(h) => match h {
            HobValidationKind::InconsistentMemoryAttributes { hob1, hob2 } => seq![
                row_num,
                json_or(resource_members(*hob1), "hob 1 serialization failed!"@),
                json_or(resource_members(*hob2), "hob 2 serialization failed!"@),
                if hob1.resource_attribute != hob2.resource_attribute {
                    "hob 1 resource_attribute("@ + dec(hob1.resource_attribute as nat)
                        + ") do not match with hob 2 resource_attribute("@ + dec(
                        hob2.resource_attribute as nat,
                    ) + ")"@
                } else if hob1.resource_type != hob2.resource_type {
                    "hob 1 resource_type("@ + dec(hob1.resource_type as nat)
                        + ") do not match with hob 2 resource_type("@ + dec(hob2.resource_type as nat)
                        + ")"@
                } else {
                    "invalid hob 1 and hob 2"@
                },
            ],
            HobValidationKind::OverlappingMemoryRanges { hob1, hob2 } => seq![
                row_num,
                json_or(resource_members(*hob1), "hob 1 serialization failed!"@),
                json_or(resource_members(*hob2), "hob 2 serialization failed!"@),
                two_ranges_text(
                    "Hob 1 range should not overlap with Hob 2 range\nHob 1 range("@,
                    hob1.lo(),
                    hob1.hi(),
                    ") | Hob 2 range("@,
                    hob2.lo(),
                    hob2.hi(),
                ),
            ],
            HobValidationKind::PageZeroMemoryDescribed { alloc_desc } => seq![
                row_num,
                json_or(
                    allocation_members(*alloc_desc),
                    "Memory Allocation Descriptor\nserialization failed!"@,
                ),
                "memory_base_address, memory_length\nshould not describe Page 0\nMemory allocation range("@
                    + hex_prefixed(alloc_desc.lo() as nat) + ", "@ + hex_prefixed(alloc_desc.hi() as nat)
                    + ")"@,
            ],
            HobValidationKind::V1MemoryRangeNotContainedInV2 { hob1 } => seq![
                row_num,
                json_or(resource_members(*hob1), "hob 1 serialization failed!"@),
                "V1 Resource Descriptor Hob should have\ncorresponding V2 Resource Descriptor Hob"@,
            ],
            HobValidationKind::V2ContainsUceAttribute { hob1, attributes } => seq![
                row_num,
                json_or(resource_members(*hob1), "hob 1 serialization failed!"@),
                "Attributes(0x"@ + hex(attributes as nat, true)
                    + ") should not contain\nMEMORY_UCE(0x10) attribute"@,
            ],
            HobValidationKind::V2MissingValidCacheabilityAttribute { hob1, attributes } => seq![
                row_num,
                json_or(resource_members(*hob1), "hob 1 serialization failed!"@),
                "V2 Hob should contain exactly\none valid cacheability attributes(0x"@ + hex(
                    attributes as nat,
                    true,
                )
                    + ")\n - MEMORY_UC(0x1)\n - MEMORY_WC(0x2)\n - MEMORY_WT(0x4)\n - MEMORY_WB(0x8)\n - MEMORY_UCE(0x10)\n - MEMORY_WP(0x1000)"@,
            ],
            HobValidationKind::V2InvalidIoCacheabilityAttributes { hob1, attributes } => seq![
                row_num,
                json_or(resource_members(*hob1), "hob 1 serialization failed!"@),
                "V2 Hob should not contain cacheability or memory protection attributes(0x"@ + hex(
                    attributes as nat,
                    true,
                ) + ") for IO ranges"@,
            ],
            HobValidationKind::MemoryTypeInfoMultipleResourceHobs { hob1 } => seq![
                row_num,
                json_or(resource_members(*hob1), "hob serialization failed!"@),
                "Only one Resource Descriptor HOB owned by\ngEfiMemoryTypeInformationGuid is allowed"@,
            ],
            HobValidationKind::MemoryTypeInfoResourceLengthTooSmall {
                hob1,
                required_bytes,
                actual_bytes,
            } => seq![
                row_num,
                json_or(resource_members(*hob1), "hob serialization failed!"@),
                "ResourceLength(0x"@ + hex(actual_bytes as nat, true)
                    + ") is smaller than the\nraw sum of bin sizes(0x"@ + hex(required_bytes as nat, true)
                    + ") reported in\nthe Memory Type Information GUID HOB"@,
            ],
            HobValidationKind::MemoryAllocationOverlap { hob1, hob2 } => seq![
                row_num,
                json_or(allocation_members(*hob1), "HOB 1 serialization failed!"@),
                json_or(allocation_members(*hob2), "HOB 2 serialization failed!"@),
                two_ranges_text(
                    "Memory allocation ranges must not overlap\nHOB 1 range("@,
                    hob1.lo(),
                    hob1.hi(),
                    ") | HOB 2 range("@,
                    hob2.lo(),
                    hob2.hi(),
                ),
            ],
            HobValidationKind::MemoryAllocationNotPageAligned { hob } => seq![
                row_num,
                json_or(allocation_members(*hob), "HOB serialization failed!"@),
                "Memory allocation base address and length must be page aligned."@,
            ],
            HobValidationKind::ResourceDescriptorNotPageAligned { hob } => seq![
                row_num,
                json_or(resource_members(*hob), "HOB serialization failed!"@),
                "Resource descriptor base address and length must be page aligned."@,
            ],
            HobValidationKind::FvNotWithinMemoryAllocation { fv } => seq![
                row_num,
                json_or(fv_hob_members(*fv), "FV HOB serialization failed!"@),
                "Firmware volume range must be contained within a memory allocation HOB range."@,
            ],
        },
        ValidationKind::Fv(f) => match f {
            FvValidationKind::CombinedDriversPresent { fv, file } => seq![
                row_num,
                "FV: "@ + fv.fv_name@ + "\nFile: "@ + file.name@ + "\nFile Type: "@ + file.file_type@,
                "File types should not be\n - COMBINED_MM_DXE(0x0C)\n - COMBINED_PEIM_DRIVER(0x08)."@,
            ],
            FvValidationKind::LzmaCompressedSections { fv, file, section } => seq![
                row_num,
                "FV: "@ + fv.fv_name@ + "\nFile: "@ + file.name@ + "\nSection: "@ + json_or(
                    section_members(*section),
                    "section serialization failed!"@,
                ),
                "File section should not be compressed with LZMA."@,
            ],
            FvValidationKind::ProhibitedAprioriFile { fv, file } => seq![
                row_num,
                "FV: "@ + fv.fv_name@ + "\nFile: "@ + file.name@,
                "Following Apriori Files are not supported\n - PeiAprioriFileNameGuid(1b45cc0a-156a-428a-af62-49864da0e6e6)\n - AprioriGuid(fc510ee7-ffdc-11d4-bd41-0080c73c8881)."@,
            ],
            FvValidationKind::UsesTraditionalSmm { fv, file } => seq![
                row_num,
                "FV: "@ + fv.fv_name@ + "\nSMM Driver File: "@ + file.name@ + "\nSMM Driver Type: "@
                    + file.file_type@,
                "File types should not be\n - COMBINED_MM_DXE(0x0C)\n - COMBINED_PEIM_DRIVER(0x08)\n - MM(0x0A)\n - MM_CORE(0x0D)."@,
            ],
            FvValidationKind::InvalidSectionAlignment { fv, file, section, required_alignment } => seq![
                row_num,
                "FV: "@ + fv.fv_name@ + "\nFile: "@ + file.name@ + "\nSection Alignment: "@ + dec(
                    section.pe_info->0.section_alignment as nat,
                ) + "\nRequired Alignment:"@ + dec(required_alignment as nat) + "\n"@,
                "PE images must have section alignment that is a positive multiple of UEFI_PAGE_SIZE (4k). \n ARM64 DXE_RUNTIME_DRIVERs must have section alignment that is a positive multiple of 64k."@,
            ],
        },
    }
}

/// Prints a violation as a row of a table.
pub trait PrettyPrintTable {
    /// The contract the rows need of the value printed.
    spec fn renderable(&self) -> bool;

    /// The column titles of the table.
    fn table_header(&self) -> Vec<&str>;

    /// The row of the value, headed by `row_num`.
    fn table_row(&self, row_num: String) -> Vec<String>
        requires
            self.renderable(),
    ;
}

fn push_two_ranges(s: &mut String, lo1: u64, hi1: u64, second: &str, lo2: u64, hi2: u64)
    ensures
        final(s)@ == two_ranges_text(old(s)@, lo1 as int, hi1 as int, second@, lo2 as int, hi2 as int),
{
    push_hex_prefixed(s, lo1);
    push_str(s, ", ");
    push_hex_prefixed(s, hi1);
    push_str(s, second);
    push_hex_prefixed(s, lo2);
    push_str(s, ", ");
    push_hex_prefixed(s, hi2);
    push_str(s, ")");
}

fn text_of(t: &str) -> (r: String)
    ensures
        r@ == t@,
{
    String::from_str(t)
}

impl<'a> PrettyPrintTable for ValidationKind<'a> {
    open spec fn renderable(&self) -> bool {
        row_renderable(*self)
    }

    fn table_header(&self) -> (r: Vec<&str>)
        ensures
            r@.map_values(|s: &str| s@) == table_header_text(*self),
    {
        let r = match self {
            ValidationKind::Hob(k) => match k {
                HobValidationKind::InconsistentMemoryAttributes { .. } => vec!["#", "V1 Hob", "V2 Hob", "Violation/Resolution"],
                HobValidationKind::OverlappingMemoryRanges { .. } => vec!["#", "Hob 1", "Hob 2", "Violation/Resolution"],
                HobValidationKind::PageZeroMemoryDescribed { .. } => vec!["#", "Memory Allocation Descriptor", "Violation/Resolution"],
                HobValidationKind::V1MemoryRangeNotContainedInV2 { .. } => vec!["#", "V1 Hob", "Violation/Resolution"],
                HobValidationKind::V2ContainsUceAttribute { .. } => vec!["#", "V2 Hob", "Violation/Resolution"],
                HobValidationKind::V2MissingValidCacheabilityAttribute { .. } => vec!["#", "V2 Hob", "Violation/Resolution"],
                HobValidationKind::V2InvalidIoCacheabilityAttributes { .. } => vec!["#", "V2 Hob", "Violation/Resolution"],
                HobValidationKind::MemoryTypeInfoMultipleResourceHobs { .. } => vec!["#", "Resource Descriptor Hob", "Violation/Resolution"],
                HobValidationKind::MemoryTypeInfoResourceLengthTooSmall { .. } => vec!["#", "Resource Descriptor Hob", "Violation/Resolution"],
                HobValidationKind::MemoryAllocationOverlap { .. } => vec!["#", "Memory Allocation HOB 1", "Memory Allocation HOB 2", "Violation/Resolution"],
                HobValidationKind::MemoryAllocationNotPageAligned { .. } => vec!["#", "Memory Allocation HOB", "Violation/Resolution"],
                HobValidationKind::ResourceDescriptorNotPageAligned { .. } => vec!["#", "Resource Descriptor HOB", "Violation/Resolution"],
                HobValidationKind::FvNotWithinMemoryAllocation { .. } => vec!["#", "Firmware Volume HOB", "Violation/Resolution"],
            },
            ValidationKind::Fv(k) => match k {
                FvValidationKind::CombinedDriversPresent { .. } => vec!["#", "File", "Violation/Resolution"],
                FvValidationKind::LzmaCompressedSections { .. } => vec!["#", "LZMA Section", "Violation/Resolution"],
                FvValidationKind::ProhibitedAprioriFile { .. } => vec!["#", "A Priori File", "Violation/Resolution"],
                FvValidationKind::UsesTraditionalSmm { .. } => vec!["#", "Traditional SMM Driver", "Violation/Resolution"],
                FvValidationKind::InvalidSectionAlignment { .. } => vec!["#", "PE Image Section Alignment", "Violation/Resolution"],
            },
        };
        assert(r@.map_values(|s: &str| s@) =~= table_header_text(*self));
        r
    }

    fn table_row(&self, row_num: String) -> (r: Vec<String>)
        ensures
            r@.map_values(|s: String| s@) == table_row_text(*self, row_num@),
            r@.len() == table_header_text(*self).len(),
            r@[0] == row_num,
            r@.len() >= 3,
            forall|i: int| 1 <= i < r@.len() ==> (#[trigger] r@[i])@.len() > 0,
    {
        let ghost row = row_num@;
        proof {
            reveal_strlit("Attributes(0x");
            reveal_strlit("FV HOB serialization failed!");
            reveal_strlit("FV: ");
            reveal_strlit("File section should not be compressed with LZMA.");
            reveal_strlit("File types should not be\n - COMBINED_MM_DXE(0x0C)\n - COMBINED_PEIM_DRIVER(0x08).");
            reveal_strlit("File types should not be\n - COMBINED_MM_DXE(0x0C)\n - COMBINED_PEIM_DRIVER(0x08)\n - MM(0x0A)\n - MM_CORE(0x0D).");
            reveal_strlit("Firmware volume range must be contained within a memory allocation HOB range.");
            reveal_strlit("Following Apriori Files are not supported\n - PeiAprioriFileNameGuid(1b45cc0a-156a-428a-af62-49864da0e6e6)\n - AprioriGuid(fc510ee7-ffdc-11d4-bd41-0080c73c8881).");
            reveal_strlit("HOB 1 serialization failed!");
            reveal_strlit("HOB 2 serialization failed!");
            reveal_strlit("HOB serialization failed!");
            reveal_strlit("Hob 1 range should not overlap with Hob 2 range\nHob 1 range(");
            reveal_strlit("Memory Allocation Descriptor\nserialization failed!");
            reveal_strlit("Memory allocation base address and length must be page aligned.");
            reveal_strlit("Memory allocation ranges must not overlap\nHOB 1 range(");
            reveal_strlit("Only one Resource Descriptor HOB owned by\ngEfiMemoryTypeInformationGuid is allowed");
            reveal_strlit("PE images must have section alignment that is a positive multiple of UEFI_PAGE_SIZE (4k). \n ARM64 DXE_RUNTIME_DRIVERs must have section alignment that is a positive multiple of 64k.");
            reveal_strlit("Resource descriptor base address and length must be page aligned.");
            reveal_strlit("ResourceLength(0x");
            reveal_strlit("V1 Resource Descriptor Hob should have\ncorresponding V2 Resource Descriptor Hob");
            reveal_strlit("V2 Hob should contain exactly\none valid cacheability attributes(0x");
            reveal_strlit("V2 Hob should not contain cacheability or memory protection attributes(0x");
            reveal_strlit("hob 1 resource_attribute(");
            reveal_strlit("hob 1 resource_type(");
            reveal_strlit("hob 1 serialization failed!");
            reveal_strlit("hob 2 serialization failed!");
            reveal_strlit("hob serialization failed!");
            reveal_strlit("invalid hob 1 and hob 2");
            reveal_strlit("memory_base_address, memory_length\nshould not describe Page 0\nMemory allocation range(");
            reveal_strlit("section serialization failed!");
        }
        let r = match self {
            ValidationKind::Hob(h) => match h {
                HobValidationKind::InconsistentMemoryAttributes { hob1, hob2 } => {
                    let v1_hob_column = resource_json(hob1, "hob 1 serialization failed!");
                    let v2_hob_column = resource_json(hob2, "hob 2 serialization failed!");
                    let mut resolution = String::new();
                    if hob1.resource_attribute != hob2.resource_attribute {
                        push_str(&mut resolution, "hob 1 resource_attribute(");
                        push_dec(&mut resolution, hob1.resource_attribute as u64);
                        push_str(&mut resolution, ") do not match with hob 2 resource_attribute(");
                        push_dec(&mut resolution, hob2.resource_attribute as u64);
                        push_str(&mut resolution, ")");
                    } else if hob1.resource_type != hob2.resource_type {
                        push_str(&mut resolution, "hob 1 resource_type(");
                        push_dec(&mut resolution, hob1.resource_type as u64);
                        push_str(&mut resolution, ") do not match with hob 2 resource_type(");
                        push_dec(&mut resolution, hob2.resource_type as u64);
                        push_str(&mut resolution, ")");
                    } else {
                        push_str(&mut resolution, "invalid hob 1 and hob 2");
                    }
                    vec![row_num, v1_hob_column, v2_hob_column, resolution]
                },
                HobValidationKind::OverlappingMemoryRanges { hob1, hob2 } => {
                    let hob1_column = resource_json(hob1, "hob 1 serialization failed!");
                    let hob2_column = resource_json(hob2, "hob 2 serialization failed!");
                    let mut resolution = text_of(
                        "Hob 1 range should not overlap with Hob 2 range\nHob 1 range(",
                    );
                    push_two_ranges(
                        &mut resolution,
                        hob1.start(),
                        hob1.end(),
                        ") | Hob 2 range(",
                        hob2.start(),
                        hob2.end(),
                    );
                    vec![row_num, hob1_column, hob2_column, resolution]
                },
                HobValidationKind::PageZeroMemoryDescribed { alloc_desc } => {
                    let column = allocation_json(
                        alloc_desc,
                        "Memory Allocation Descriptor\nserialization failed!",
                    );
                    let mut resolution = text_of(
                        "memory_base_address, memory_length\nshould not describe Page 0\nMemory allocation range(",
                    );
                    push_hex_prefixed(&mut resolution, alloc_desc.start());
                    push_str(&mut resolution, ", ");
                    push_hex_prefixed(&mut resolution, alloc_desc.end());
                    push_str(&mut resolution, ")");
                    vec![row_num, column, resolution]
                },
                HobValidationKind::V1MemoryRangeNotContainedInV2 { hob1 } => {
                    let column = resource_json(hob1, "hob 1 serialization failed!");
                    let resolution = text_of(
                        "V1 Resource Descriptor Hob should have\ncorresponding V2 Resource Descriptor Hob",
                    );
                    vec![row_num, column, resolution]
                },
                HobValidationKind::V2ContainsUceAttribute { hob1, attributes } => {
                    let column = resource_json(hob1, "hob 1 serialization failed!");
                    let mut resolution = text_of("Attributes(0x");
                    push_hex(&mut resolution, *attributes, true);
                    push_str(&mut resolution, ") should not contain\nMEMORY_UCE(0x10) attribute");
                    vec![row_num, column, resolution]
                },
                HobValidationKind::V2MissingValidCacheabilityAttribute { hob1, attributes } => {
                    let column = resource_json(hob1, "hob 1 serialization failed!");
                    let mut resolution = text_of(
                        "V2 Hob should contain exactly\none valid cacheability attributes(0x",
                    );
                    push_hex(&mut resolution, *attributes, true);
                    push_str(
                        &mut resolution,
                        ")\n - MEMORY_UC(0x1)\n - MEMORY_WC(0x2)\n - MEMORY_WT(0x4)\n - MEMORY_WB(0x8)\n - MEMORY_UCE(0x10)\n - MEMORY_WP(0x1000)",
                    );
                    vec![row_num, column, resolution]
                },
                HobValidationKind::V2InvalidIoCacheabilityAttributes { hob1, attributes } => {
                    let column = resource_json(hob1, "hob 1 serialization failed!");
                    let mut resolution = text_of(
                        "V2 Hob should not contain cacheability or memory protection attributes(0x",
                    );
                    push_hex(&mut resolution, *attributes, true);
                    push_str(&mut resolution, ") for IO ranges");
                    vec![row_num, column, resolution]
                },
                HobValidationKind::MemoryTypeInfoMultipleResourceHobs { hob1 } => {
                    let column = resource_json(hob1, "hob serialization failed!");
                    let resolution = text_of(
                        "Only one Resource Descriptor HOB owned by\ngEfiMemoryTypeInformationGuid is allowed",
                    );
                    vec![row_num, column, resolution]
                },
                HobValidationKind::MemoryTypeInfoResourceLengthTooSmall {
                    hob1,
                    required_bytes,
                    actual_bytes,
                } => {
                    let column = resource_json(hob1, "hob serialization failed!");
                    let mut resolution = text_of("ResourceLength(0x");
                    push_hex(&mut resolution, *actual_bytes, true);
                    push_str(&mut resolution, ") is smaller than the\nraw sum of bin sizes(0x");
                    push_hex(&mut resolution, *required_bytes, true);
                    push_str(&mut resolution, ") reported in\nthe Memory Type Information GUID HOB");
                    vec![row_num, column, resolution]
                },
                HobValidationKind::MemoryAllocationOverlap { hob1, hob2 } => {
                    let hob1_column = allocation_json(hob1, "HOB 1 serialization failed!");
                    let hob2_column = allocation_json(hob2, "HOB 2 serialization failed!");
                    let mut resolution = text_of(
                        "Memory allocation ranges must not overlap\nHOB 1 range(",
                    );
                    push_two_ranges(
                        &mut resolution,
                        hob1.start(),
                        hob1.end(),
                        ") | HOB 2 range(",
                        hob2.start(),
                        hob2.end(),
                    );
                    vec![row_num, hob1_column, hob2_column, resolution]
                },
                HobValidationKind::MemoryAllocationNotPageAligned { hob } => {
                    let column = allocation_json(hob, "HOB serialization failed!");
                    let resolution = text_of(
                        "Memory allocation base address and length must be page aligned.",
                    );
                    vec![row_num, column, resolution]
                },
                HobValidationKind::ResourceDescriptorNotPageAligned { hob } => {
                    let column = resource_json(hob, "HOB serialization failed!");
                    let resolution = text_of(
                        "Resource descriptor base address and length must be page aligned.",
                    );
                    vec![row_num, column, resolution]
                },
                HobValidationKind::FvNotWithinMemoryAllocation { fv } => {
                    let column = fv_hob_json(fv, "FV HOB serialization failed!");
                    let resolution = text_of(
                        "Firmware volume range must be contained within a memory allocation HOB range.",
                    );
                    vec![row_num, column, resolution]
                },
            },
            ValidationKind::Fv(f) => match f {
                FvValidationKind::CombinedDriversPresent { fv, file } => {
                    let mut column = text_of("FV: ");
                    push_str(&mut column, fv.fv_name.as_str());
                    push_str(&mut column, "\nFile: ");
                    push_str(&mut column, file.name.as_str());
                    push_str(&mut column, "\nFile Type: ");
                    push_str(&mut column, file.file_type.as_str());
                    let resolution = text_of(
                        "File types should not be\n - COMBINED_MM_DXE(0x0C)\n - COMBINED_PEIM_DRIVER(0x08).",
                    );
                    vec![row_num, column, resolution]
                },
                FvValidationKind::LzmaCompressedSections { fv, file, section } => {
                    let section_json_text = section_json(section, "section serialization failed!");
                    let mut column = text_of("FV: ");
                    push_str(&mut column, fv.fv_name.as_str());
                    push_str(&mut column, "\nFile: ");
                    push_str(&mut column, file.name.as_str());
                    push_str(&mut column, "\nSection: ");
                    push_str(&mut column, section_json_text.as_str());
                    let resolution = text_of("File section should not be compressed with LZMA.");
                    vec![row_num, column, resolution]
                },
                FvValidationKind::ProhibitedAprioriFile { fv, file } => {
                    let mut column = text_of("FV: ");
                    push_str(&mut column, fv.fv_name.as_str());
                    push_str(&mut column, "\nFile: ");
                    push_str(&mut column, file.name.as_str());
                    let resolution = text_of(
                        "Following Apriori Files are not supported\n - PeiAprioriFileNameGuid(1b45cc0a-156a-428a-af62-49864da0e6e6)\n - AprioriGuid(fc510ee7-ffdc-11d4-bd41-0080c73c8881).",
                    );
                    vec![row_num, column, resolution]
                },
                FvValidationKind::UsesTraditionalSmm { fv, file } => {
                    let mut column = text_of("FV: ");
                    push_str(&mut column, fv.fv_name.as_str());
                    push_str(&mut column, "\nSMM Driver File: ");
                    push_str(&mut column, file.name.as_str());
                    push_str(&mut column, "\nSMM Driver Type: ");
                    push_str(&mut column, file.file_type.as_str());
                    let resolution = text_of(
                        "File types should not be\n - COMBINED_MM_DXE(0x0C)\n - COMBINED_PEIM_DRIVER(0x08)\n - MM(0x0A)\n - MM_CORE(0x0D).",
                    );
                    vec![row_num, column, resolution]
                },
                FvValidationKind::InvalidSectionAlignment { fv, file, section, required_alignment } => {
                    let Some(pe) = &section.pe_info else {
                        proof {
                            assert(false);
                        }
                        return Vec::new();
                    };
                    let mut column = text_of("FV: ");
                    push_str(&mut column, fv.fv_name.as_str());
                    push_str(&mut column, "\nFile: ");
                    push_str(&mut column, file.name.as_str());
                    push_str(&mut column, "\nSection Alignment: ");
                    push_dec(&mut column, pe.section_alignment as u64);
                    push_str(&mut column, "\nRequired Alignment:");
                    push_dec(&mut column, *required_alignment as u64);
                    push_str(&mut column, "\n");
                    let resolution = text_of(
                        "PE images must have section alignment that is a positive multiple of UEFI_PAGE_SIZE (4k). \n ARM64 DXE_RUNTIME_DRIVERs must have section alignment that is a positive multiple of 64k.",
                    );
                    vec![row_num, column, resolution]
                },
            },
        };
        assert(r@.map_values(|s: String| s@) =~= table_row_text(*self, row));
        r
    }
}

} // verus!
