use dxe_readiness_validator::kind::{FvValidationKind, HobValidationKind, PrettyPrintTable, ValidationKind};
use dxe_readiness_validator::model::{
    FirmwareFile, FirmwareSection, FirmwareVolume, FvHob, MemAllocDescriptor, PeHeaderInfo, ResourceDescriptor,
};

fn resource(start: u64, length: u64, resource_type: u32, resource_attribute: u32) -> ResourceDescriptor {
    ResourceDescriptor {
        owner: "owner".to_string(),
        resource_type,
        resource_attribute,
        physical_start: start,
        resource_length: length,
    }
}

fn mem_alloc(start: u64, length: u64) -> MemAllocDescriptor {
    MemAllocDescriptor {
        name: "name".to_string(),
        memory_base_address: start,
        memory_length: length,
        memory_type: 1,
    }
}

fn section() -> FirmwareSection {
    FirmwareSection {
        section_type: "Pe32".to_string(),
        length: 256,
        compression_type: "LZMA ".to_string(),
        pe_info: Some(PeHeaderInfo { section_alignment: 0x1000, machine: 0, subsystem: 0 }),
    }
}

fn file() -> FirmwareFile {
    FirmwareFile {
        name: "File".to_string(),
        file_type: "Driver".to_string(),
        length: 512,
        attributes: 0,
        sections: vec![],
    }
}

fn fv() -> FirmwareVolume {
    FirmwareVolume {
        fv_name: "Fv".to_string(),
        fv_length: 1024,
        fv_base_address: 0x1000,
        fv_attributes: 0,
        files: vec![],
    }
}

#[test]
fn test_all_validation_kinds_render_non_empty() {
    let r1 = resource(0x1000, 0x1000, 0, 0);
    let r_attr = resource(0x1000, 0x1000, 0, 1);
    let r_type = resource(0x1000, 0x1000, 5, 0);
    let ma = mem_alloc(0x2000, 0x1000);
    let ma2 = mem_alloc(0x2800, 0x1000);
    let fv_hob = FvHob { base_address: 0x8000, length: 0x1000 };
    let fv = fv();
    let file = file();
    let section = section();

    let kinds = vec![
        // Attribute-mismatch branch of the resolution string.
        ValidationKind::Hob(HobValidationKind::InconsistentMemoryAttributes { hob1: &r1, hob2: &r_attr }),
        // Resource-type-mismatch branch of the resolution string.
        ValidationKind::Hob(HobValidationKind::InconsistentMemoryAttributes { hob1: &r1, hob2: &r_type }),
        ValidationKind::Hob(HobValidationKind::OverlappingMemoryRanges { hob1: &r1, hob2: &r_attr }),
        ValidationKind::Hob(HobValidationKind::PageZeroMemoryDescribed { alloc_desc: &ma }),
        ValidationKind::Hob(HobValidationKind::V1MemoryRangeNotContainedInV2 { hob1: &r1 }),
        ValidationKind::Hob(HobValidationKind::V2ContainsUceAttribute { hob1: &r1, attributes: 0x10 }),
        ValidationKind::Hob(HobValidationKind::V2MissingValidCacheabilityAttribute { hob1: &r1, attributes: 0 }),
        ValidationKind::Hob(HobValidationKind::V2InvalidIoCacheabilityAttributes { hob1: &r1, attributes: 0x1 }),
        ValidationKind::Hob(HobValidationKind::MemoryTypeInfoMultipleResourceHobs { hob1: &r1 }),
        ValidationKind::Hob(HobValidationKind::MemoryTypeInfoResourceLengthTooSmall {
            hob1: &r1,
            required_bytes: 0x2000,
            actual_bytes: 0x1000,
        }),
        ValidationKind::Hob(HobValidationKind::MemoryAllocationOverlap { hob1: &ma, hob2: &ma2 }),
        ValidationKind::Hob(HobValidationKind::MemoryAllocationNotPageAligned { hob: &ma }),
        ValidationKind::Hob(HobValidationKind::ResourceDescriptorNotPageAligned { hob: &r1 }),
        ValidationKind::Hob(HobValidationKind::FvNotWithinMemoryAllocation { fv: &fv_hob }),
        ValidationKind::Fv(FvValidationKind::CombinedDriversPresent { fv: &fv, file: &file }),
        ValidationKind::Fv(FvValidationKind::LzmaCompressedSections { fv: &fv, file: &file, section: &section }),
        ValidationKind::Fv(FvValidationKind::ProhibitedAprioriFile { fv: &fv, file: &file }),
        ValidationKind::Fv(FvValidationKind::UsesTraditionalSmm { fv: &fv, file: &file }),
        ValidationKind::Fv(FvValidationKind::InvalidSectionAlignment {
            fv: &fv,
            file: &file,
            section: &section,
            required_alignment: 0x1000,
        }),
    ];

    for kind in &kinds {
        assert!(!kind.header().is_empty(), "header empty for {:?}", kind);
        assert!(!kind.name().is_empty(), "name empty for {:?}", kind);
        assert!(!kind.guidance().is_empty(), "guidance empty for {:?}", kind);
        assert!(!kind.table_header().is_empty(), "table_header empty for {:?}", kind);

        let row = kind.table_row("1".to_string());
        assert_eq!(row[0], "1");
        assert!(row.len() >= 3, "row too short for {:?}", kind);
    }
}

#[test]
fn test_overlapping_memory_ranges_resolution_uses_hex() {
    let hob1 = resource(0x1000, 0x2000, 0, 0);
    let hob2 = resource(0x2000, 0x2000, 0, 0);
    let kind = ValidationKind::Hob(HobValidationKind::OverlappingMemoryRanges { hob1: &hob1, hob2: &hob2 });

    let row = kind.table_row("1".to_string());
    let resolution = row.last().unwrap();
    assert!(resolution.contains("Hob 1 range(0x1000, 0x3000)"), "got: {resolution}");
    assert!(resolution.contains("Hob 2 range(0x2000, 0x4000)"), "got: {resolution}");
}

#[test]
fn test_page_zero_memory_resolution_uses_hex() {
    let alloc = mem_alloc(0x0, 0x1000);
    let kind = ValidationKind::Hob(HobValidationKind::PageZeroMemoryDescribed { alloc_desc: &alloc });

    let row = kind.table_row("1".to_string());
    let resolution = row.last().unwrap();
    assert!(resolution.contains("Memory allocation range(0x0, 0x1000)"), "got: {resolution}");
}
