//! The captured platform state: hand-off blocks (HOBs) and firmware volumes,
//! held as plain values, together with the address intervals they describe.
use vstd::prelude::*;

verus! {

/// Size of a UEFI page in bytes.
pub const UEFI_PAGE_SIZE: u64 = 0x1000;

/// `EFI_RESOURCE_IO` resource type.
pub const EFI_RESOURCE_IO: u32 = 0x2;

/// `EFI_RESOURCE_IO_RESERVED` resource type.
pub const EFI_RESOURCE_IO_RESERVED: u32 = 0x6;

/// `EfiConventionalMemory` memory type (free memory).
pub const CONVENTIONAL_MEMORY: u32 = 0x7;

/// Cacheability attribute: uncacheable.
pub const MEMORY_UC: u64 = 0x1;

/// Cacheability attribute: write combining.
pub const MEMORY_WC: u64 = 0x2;

/// Cacheability attribute: write through.
pub const MEMORY_WT: u64 = 0x4;

/// Cacheability attribute: write back.
pub const MEMORY_WB: u64 = 0x8;

/// Cacheability attribute: uncacheable, exported (prohibited in V2 descriptors).
pub const MEMORY_UCE: u64 = 0x10;

/// Cacheability attribute: write protected.
pub const MEMORY_WP: u64 = 0x1000;

/// Mask of every cacheability attribute (UC, WC, WT, WB, UCE and WP).
pub const CACHE_ATTRIBUTE_MASK: u64 = 0x101f;

/// COFF machine type of ARM64 images.
pub const COFF_MACHINE_ARM64: u16 = 0xaa64;

/// PE subsystem of EFI runtime drivers.
pub const IMAGE_SUBSYSTEM_EFI_RUNTIME_DRIVER: u16 = 12;

/// Resource descriptor carried by a V1 Resource Descriptor HOB (and inside a V2 one).
#[derive(Clone, Debug, PartialEq, Eq)]
pub struct ResourceDescriptor {
    /// Owner GUID, as text.
    pub owner: String,
    /// `EFI_RESOURCE_TYPE`.
    pub resource_type: u32,
    /// `EFI_RESOURCE_ATTRIBUTE_TYPE` bits.
    pub resource_attribute: u32,
    /// First byte of the range.
    pub physical_start: u64,
    /// Length of the range in bytes.
    pub resource_length: u64,
}

/// Memory allocation descriptor carried by a Memory Allocation HOB.
#[derive(Clone, Debug, PartialEq, Eq)]
pub struct MemAllocDescriptor {
    /// Name GUID, as text.
    pub name: String,
    /// First byte of the allocation.
    pub memory_base_address: u64,
    /// Length of the allocation in bytes.
    pub memory_length: u64,
    /// `EFI_MEMORY_TYPE` of the allocation.
    pub memory_type: u32,
}

/// Range described by a firmware volume HOB.
#[derive(Clone, Copy, Debug, PartialEq, Eq)]
pub struct FvHob {
    /// First byte of the firmware volume.
    pub base_address: u64,
    /// Length of the firmware volume in bytes.
    pub length: u64,
}

/// One bin of the Memory Type Information GUID HOB.
#[derive(Clone, Copy, Debug, PartialEq, Eq)]
pub struct MemoryTypeInfoEntry {
    /// `EFI_MEMORY_TYPE` of the bin.
    pub memory_type: u32,
    /// Number of 4 KiB pages reserved for the bin.
    pub number_of_pages: u32,
}

/// One hand-off block of the captured HOB list.
#[derive(Clone, Debug, PartialEq, Eq)]
pub enum Hob {
    Handoff {
        version: u32,
        memory_top: u64,
        memory_bottom: u64,
        free_memory_top: u64,
        free_memory_bottom: u64,
        end_of_hob_list: u64,
    },
    MemoryAllocation { alloc_descriptor: MemAllocDescriptor },
    ResourceDescriptor(ResourceDescriptor),
    ResourceDescriptorV2 { v1: ResourceDescriptor, attributes: u64 },
    GuidExtension { name: String },
    MemoryTypeInformation { entries: Vec<MemoryTypeInfoEntry> },
    FirmwareVolume { fv: FvHob },
    Cpu { size_of_memory_space: u8, size_of_io_space: u8 },
    UnknownHob,
}

/// PE header fields of a PE32 section.
#[derive(Clone, Copy, Debug, PartialEq, Eq)]
pub struct PeHeaderInfo {
    pub section_alignment: u32,
    pub machine: u16,
    pub subsystem: u16,
}

/// A section of a firmware file.
#[derive(Clone, Debug, PartialEq, Eq)]
pub struct FirmwareSection {
    pub section_type: String,
    pub length: usize,
    pub compression_type: String,
    pub pe_info: Option<PeHeaderInfo>,
}

/// A file of a firmware volume.
#[derive(Clone, Debug, PartialEq, Eq)]
pub struct FirmwareFile {
    /// File name GUID, as text.
    pub name: String,
    pub file_type: String,
    pub length: usize,
    pub attributes: u32,
    pub sections: Vec<FirmwareSection>,
}

/// A firmware volume with its files.
#[derive(Clone, Debug, PartialEq, Eq)]
pub struct FirmwareVolume {
    pub fv_name: String,
    pub fv_length: usize,
    pub fv_base_address: u64,
    pub fv_attributes: u32,
    pub files: Vec<FirmwareFile>,
}

/// Everything captured from a platform: its HOB list and its firmware volumes.
#[derive(Clone, Debug, PartialEq, Eq)]
pub struct CaptureData {
    pub hob_list: Vec<Hob>,
    pub fv_list: Vec<FirmwareVolume>,
}

/// A half-open address interval `[start, end)`.
pub trait Interval {
    /// First address of the interval.
    spec fn lo(&self) -> int;

    /// One past the last address of the interval (may exceed `u64::MAX`).
    spec fn hi(&self) -> int;

    /// First address of the interval.
    fn start(&self) -> (r: u64)
        ensures
            r == self.lo(),
    ;

    /// One past the last address; the interval must end inside the address space.
    fn end(&self) -> (r: u64)
        requires
            self.hi() <= u64::MAX,
        ensures
            r == self.hi(),
    ;
}

impl Interval for ResourceDescriptor {
    open spec fn lo(&self) -> int {
        self.physical_start as int
    }

    open spec fn hi(&self) -> int {
        self.physical_start + self.resource_length
    }

    fn start(&self) -> (r: u64) {
        self.physical_start
    }

    fn end(&self) -> (r: u64) {
        self.physical_start + self.resource_length
    }
}

impl Interval for MemAllocDescriptor {
    open spec fn lo(&self) -> int {
        self.memory_base_address as int
    }

    open spec fn hi(&self) -> int {
        self.memory_base_address + self.memory_length
    }

    fn start(&self) -> (r: u64) {
        self.memory_base_address
    }

    fn end(&self) -> (r: u64) {
        self.memory_base_address + self.memory_length
    }
}

impl Interval for FvHob {
    open spec fn lo(&self) -> int {
        self.base_address as int
    }

    open spec fn hi(&self) -> int {
        self.base_address + self.length
    }

    fn start(&self) -> (r: u64) {
        self.base_address
    }

    fn end(&self) -> (r: u64) {
        self.base_address + self.length
    }
}

/// `[a_lo, a_hi)` and `[b_lo, b_hi)` share at least one address.
pub open spec fn spans_overlap(a_lo: int, a_hi: int, b_lo: int, b_hi: int) -> bool {
    a_lo < b_hi && b_lo < a_hi
}

/// `[a_lo, a_hi)` contains all of `[b_lo, b_hi)` (bounds compared as written).
pub open spec fn span_contains(a_lo: int, a_hi: int, b_lo: int, b_hi: int) -> bool {
    a_lo <= b_lo && a_hi >= b_hi
}

/// Whether two intervals overlap.
pub fn overlaps<A: Interval, B: Interval>(a: &A, b: &B) -> (r: bool)
    requires
        a.hi() <= u64::MAX,
        b.hi() <= u64::MAX,
    ensures
        r == spans_overlap(a.lo(), a.hi(), b.lo(), b.hi()),
{
    a.start() < b.end() && b.start() < a.end()
}

/// Whether the interval `a` fully contains the interval `b`.
pub fn contains<A: Interval, B: Interval>(a: &A, b: &B) -> (r: bool)
    requires
        a.hi() <= u64::MAX,
        b.hi() <= u64::MAX,
    ensures
        r == span_contains(a.lo(), a.hi(), b.lo(), b.hi()),
{
    a.start() <= b.start() && a.end() >= b.end()
}

/// The range of every descriptor that a HOB carries ends inside the 64-bit address space.
pub open spec fn hob_ranges_fit(hob: Hob) -> bool {
    match hob {
        Hob::MemoryAllocation { alloc_descriptor } => alloc_descriptor.hi() <= u64::MAX,
        Hob::ResourceDescriptor(r) => r.hi() <= u64::MAX,
        Hob::ResourceDescriptorV2 { v1, .. } => v1.hi() <= u64::MAX,
        Hob::FirmwareVolume { fv } => fv.hi() <= u64::MAX,
        _ => true,
    }
}

/// Every range described by the HOB list ends inside the 64-bit address space.
pub open spec fn hob_list_ranges_fit(hobs: Seq<Hob>) -> bool {
    forall|i: int| 0 <= i < hobs.len() ==> #[trigger] hob_ranges_fit(hobs[i])
}

/// `f` applied to each of the first `n` elements of `s`, the results concatenated in order.
pub open spec fn gather<A, B>(s: Seq<A>, f: spec_fn(A) -> Seq<B>, n: int) -> Seq<B>
    decreases n,
{
    if n <= 0 {
        seq![]
    } else {
        gather(s, f, n - 1) + f(s[n - 1])
    }
}

/// Where `p` holds of every element of every `f(s[k])` with `k < n`, it holds of every
/// element of `gather(s, f, n)`.
pub proof fn lemma_gather_forall<A, B>(
    s: Seq<A>,
    f: spec_fn(A) -> Seq<B>,
    n: int,
    p: spec_fn(B) -> bool,
)
    requires
        n <= s.len(),
        forall|k: int, j: int| 0 <= k < n && 0 <= j < f(s[k]).len() ==> p(#[trigger] f(s[k])[j]),
    ensures
        forall|i: int| 0 <= i < gather(s, f, n).len() ==> p(#[trigger] gather(s, f, n)[i]),
    decreases n,
{
    if n > 0 {
        lemma_gather_forall(s, f, n - 1, p);
        let g = gather(s, f, n - 1);
        let last = f(s[n - 1]);
        assert forall|i: int| 0 <= i < gather(s, f, n).len() implies p(
            #[trigger] gather(s, f, n)[i],
        ) by {
            if i < g.len() {
                assert(gather(s, f, n)[i] == g[i]);
            } else {
                assert(gather(s, f, n)[i] == last[i - g.len()]);
            }
        }
    }
}

/// `f` applied to every element of `s`, the results concatenated in order.
pub open spec fn gather_all<A, B>(s: Seq<A>, f: spec_fn(A) -> Seq<B>) -> Seq<B> {
    gather(s, f, s.len() as int)
}

} // verus!
