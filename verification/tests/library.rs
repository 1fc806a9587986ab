use dxe_readiness_validator::fv::FvValidator;
use dxe_readiness_validator::guid::{format_guid, is_memory_type_info_text};
use dxe_readiness_validator::hob::HobValidator;
use dxe_readiness_validator::json::resource_json;
use dxe_readiness_validator::kind::{FvValidationKind, HobValidationKind, PrettyPrintTable, ValidationKind};
use dxe_readiness_validator::merge::{check_hob_overlap, merge_intervals, sort_span_list};
use dxe_readiness_validator::model::{
    CaptureData, FirmwareFile, FirmwareSection, FirmwareVolume, FvHob, Hob, MemAllocDescriptor,
    MemoryTypeInfoEntry, PeHeaderInfo, ResourceDescriptor, CACHE_ATTRIBUTE_MASK, COFF_MACHINE_ARM64,
    CONVENTIONAL_MEMORY, EFI_RESOURCE_IO, EFI_RESOURCE_IO_RESERVED, IMAGE_SUBSYSTEM_EFI_RUNTIME_DRIVER,
    MEMORY_UC, MEMORY_UCE, MEMORY_WB, MEMORY_WC, MEMORY_WP, MEMORY_WT, UEFI_PAGE_SIZE,
};
use dxe_readiness_validator::report::{report_outcome, ValidationAppError, ValidationReport, Validator};
use dxe_readiness_validator::text::parse_hex_prefixed;
use dxe_readiness_validator::validate::{hob_list_is_well_formed, CommandLine, ValidationApp};
use patina::pi::hob::MEMORY_TYPE_INFO_HOB_GUID;
use patina::standard::efi;

fn resource(start: u64, length: u64, resource_type: u32, owner: &str) -> ResourceDescriptor {
    ResourceDescriptor {
        owner: owner.to_string(),
        resource_type,
        resource_attribute: 0,
        physical_start: start,
        resource_length: length,
    }
}

fn v2(start: u64, length: u64, attributes: u64) -> Hob {
    Hob::ResourceDescriptorV2 { v1: resource(start, length, 3, "owner"), attributes }
}

fn allocation(base: u64, length: u64, memory_type: u32) -> Hob {
    Hob::MemoryAllocation {
        alloc_descriptor: MemAllocDescriptor {
            name: "alloc".to_string(),
            memory_base_address: base,
            memory_length: length,
            memory_type,
        },
    }
}

fn file(name: &str, file_type: &str, sections: Vec<FirmwareSection>) -> FirmwareFile {
    FirmwareFile { name: name.to_string(), file_type: file_type.to_string(), length: 1, attributes: 0, sections }
}

fn volume(name: &str, files: Vec<FirmwareFile>) -> FirmwareVolume {
    FirmwareVolume { fv_name: name.to_string(), fv_length: 0, fv_base_address: 0, fv_attributes: 0, files }
}

#[test]
fn constants_match_the_platform_definitions() {
    assert_eq!(UEFI_PAGE_SIZE, patina::UEFI_PAGE_SIZE as u64);
    assert_eq!(EFI_RESOURCE_IO, patina::pi::hob::EFI_RESOURCE_IO);
    assert_eq!(EFI_RESOURCE_IO_RESERVED, patina::pi::hob::EFI_RESOURCE_IO_RESERVED);
    assert_eq!(CONVENTIONAL_MEMORY, efi::CONVENTIONAL_MEMORY);
    assert_eq!(MEMORY_UC, efi::MEMORY_UC);
    assert_eq!(MEMORY_WC, efi::MEMORY_WC);
    assert_eq!(MEMORY_WT, efi::MEMORY_WT);
    assert_eq!(MEMORY_WB, efi::MEMORY_WB);
    assert_eq!(MEMORY_UCE, efi::MEMORY_UCE);
    assert_eq!(MEMORY_WP, efi::MEMORY_WP);
    assert_eq!(CACHE_ATTRIBUTE_MASK, efi::CACHE_ATTRIBUTE_MASK);
    assert_eq!(COFF_MACHINE_ARM64, goblin::pe::header::COFF_MACHINE_ARM64);
    assert_eq!(IMAGE_SUBSYSTEM_EFI_RUNTIME_DRIVER, goblin::pe::subsystem::IMAGE_SUBSYSTEM_EFI_RUNTIME_DRIVER);
}

#[test]
fn guid_formatting_is_canonical_lower_case() {
    let pei = format_guid(0x1B45CC0A, 0x156A, 0x428A, 0xAF, 0x62, &[0x49, 0x86, 0x4D, 0xA0, 0xE6, 0xE6]);
    assert_eq!(pei, "1b45cc0a-156a-428a-af62-49864da0e6e6");
    let dxe = format_guid(0xFC510EE7, 0xFFDC, 0x11D4, 0xBD, 0x41, &[0x00, 0x80, 0xC7, 0x3C, 0x88, 0x81]);
    assert_eq!(dxe, "fc510ee7-ffdc-11d4-bd41-0080c73c8881");
    assert_eq!(format_guid(1, 2, 3, 4, 5, &[0, 0, 0, 0, 0, 6]), "00000001-0002-0003-0405-000000000006");
    assert_eq!(dxe.len(), 36);
}

#[test]
fn memory_type_info_owner_is_recognised_in_every_spelling() {
    assert!(is_memory_type_info_text(&MEMORY_TYPE_INFO_HOB_GUID.as_guid().to_string()));
    assert!(is_memory_type_info_text("4C19049F-4137-4DD3-9C10-8B97A83FFDFA"));
    assert!(is_memory_type_info_text("4c19049f-4137-4dd3-9c10-8b97a83ffdfa"));
    assert!(is_memory_type_info_text("4c19049f41374dd39c108b97a83ffdfa"));
    // dashes and ASCII white space may stand anywhere; the 32 digits may mix case
    assert!(is_memory_type_info_text(" 4C19 049f\t-4137-4dD3-9c10-8B97A83F\nFDFA\r"));
    assert!(is_memory_type_info_text("--4C19049F41374DD39C108B97A83FFDFA--"));
    // one digit short, one digit too many, a non-ASCII space
    assert!(!is_memory_type_info_text("4C19049F-4137-4DD3-9C10-8B97A83FFDF"));
    assert!(!is_memory_type_info_text("4C19049F-4137-4DD3-9C10-8B97A83FFDFA0"));
    assert!(!is_memory_type_info_text("4C19049F-4137-4DD3-9C10-8B97A83FFDFA\u{a0}"));
    assert!(!is_memory_type_info_text("not-a-guid"));
    assert!(!is_memory_type_info_text("00000000-0000-0000-0000-000000000000"));
    assert!(!is_memory_type_info_text("4C19049F-4137-4DD3-9C10-8B97A83FFDFB"));
}

#[test]
fn hex_numbers_of_the_capture_format_parse() {
    assert_eq!(parse_hex_prefixed("0x1a2b3c", u64::MAX), Some(0x1a2b3c));
    assert_eq!(parse_hex_prefixed("0xDEADBEEF", u32::MAX as u64), Some(0xDEADBEEF));
    assert_eq!(parse_hex_prefixed("0x+ff", u64::MAX), Some(0xff));
    assert_eq!(parse_hex_prefixed("0xffffffffffffffff", u64::MAX), Some(u64::MAX));
    assert_eq!(parse_hex_prefixed("1a2b3c", u64::MAX), None);
    assert_eq!(parse_hex_prefixed("0x", u64::MAX), None);
    assert_eq!(parse_hex_prefixed("0x1g", u64::MAX), None);
    assert_eq!(parse_hex_prefixed("0x100", 0xff), None);
    assert_eq!(parse_hex_prefixed("0x10000000000000000", u64::MAX), None);
}

#[test]
fn hex_format_round_trip_on_values() {
    for n in [0u64, 1, 0xf, 0x10, 0x1000, 0xdeadbeef, u64::MAX] {
        let text = format!("0x{n:x}");
        assert_eq!(parse_hex_prefixed(&text, u64::MAX), Some(n));
    }
}

#[test]
fn spans_are_sorted_then_merged() {
    assert_eq!(sort_span_list(&vec![(5, 9), (1, 2), (5, 7), (0, 10)]), vec![(0, 10), (1, 2), (5, 7), (5, 9)]);
    assert_eq!(merge_intervals(&vec![(220, 300), (100, 220)]), vec![(100, 300)]);
    assert_eq!(merge_intervals(&vec![(100, 150), (180, 190)]), vec![(100, 150), (180, 190)]);
    assert_eq!(merge_intervals(&vec![(10, 20), (5, 5)]), vec![(5, 5), (10, 20)]);
    assert_eq!(merge_intervals(&vec![(0, 10), (2, 3), (9, 15)]), vec![(0, 15)]);
    assert_eq!(merge_intervals(&vec![]), Vec::<(u64, u64)>::new());
}

#[test]
fn overlapping_pairs_come_in_list_order() {
    let a = resource(0, 0x100, 0, "a");
    let b = resource(0x80, 0x100, 0, "b");
    let c = resource(0x100, 0x10, 0, "c");
    let d = resource(0x400, 0x10, 0, "d");
    let list = vec![&a, &b, &c, &d];
    let pairs = check_hob_overlap(&list);
    assert_eq!(pairs.len(), 2);
    assert_eq!(pairs[0].0.owner, "a");
    assert_eq!(pairs[0].1.owner, "b");
    assert_eq!(pairs[1].0.owner, "b");
    assert_eq!(pairs[1].1.owner, "c");
}

#[test]
fn cacheability_test_rejects_none_and_several_bits() {
    let check = |attributes: u64| {
        let hob_list = vec![v2(0, 0x1000, attributes)];
        HobValidator::new(&hob_list).validate_memory_cacheability_attribute().unwrap().violation_count()
    };
    assert_eq!(check(0), 1);
    assert_eq!(check(MEMORY_WT | MEMORY_WC), 1);
    assert_eq!(check(MEMORY_UC | MEMORY_WP), 1);
    assert_eq!(check(MEMORY_WB), 0);
    assert_eq!(check(MEMORY_WB | MEMORY_UCE), 0);
    // UCE and bits outside the cacheability attributes are ignored
    assert_eq!(check(MEMORY_WP | MEMORY_UCE), 0);
    assert_eq!(check(MEMORY_WP), 0);
    assert_eq!(check(MEMORY_UCE), 1);
    assert_eq!(check(MEMORY_UC | 0x20000 | 0x4000), 0);
}

#[test]
fn page_alignment_reports_base_and_length_separately() {
    let hob_list = vec![allocation(0x1001, 0x1001, 4), v2(0x2000, 0x10, MEMORY_UC)];
    let report = HobValidator::new(&hob_list).validate_page_alignment().unwrap();
    assert_eq!(report.violation_count(), 3);
    assert!(matches!(
        report.violations()[0],
        ValidationKind::Hob(HobValidationKind::MemoryAllocationNotPageAligned { .. })
    ));
    assert!(matches!(
        report.violations()[2],
        ValidationKind::Hob(HobValidationKind::ResourceDescriptorNotPageAligned { .. })
    ));
}

#[test]
fn io_resources_are_not_checked_for_alignment() {
    let hob_list = vec![Hob::ResourceDescriptor(resource(0x1001, 0x1, EFI_RESOURCE_IO, "io"))];
    assert_eq!(HobValidator::new(&hob_list).validate_page_alignment().unwrap().violation_count(), 0);
}

#[test]
fn free_memory_does_not_hold_a_firmware_volume() {
    let hob_list = vec![
        allocation(0x1000, 0x4000, CONVENTIONAL_MEMORY),
        Hob::FirmwareVolume { fv: FvHob { base_address: 0x2000, length: 0x1000 } },
    ];
    assert_eq!(HobValidator::new(&hob_list).validate_fv_within_memory_allocation().unwrap().violation_count(), 1);
}

#[test]
fn allocations_that_overlap_are_reported_once_per_pair() {
    let hob_list = vec![allocation(0x1000, 0x2000, 4), allocation(0x2000, 0x2000, 4), allocation(0x8000, 0x1000, 4)];
    assert_eq!(HobValidator::new(&hob_list).validate_allocation_overlap().unwrap().violation_count(), 1);
}

#[test]
fn memory_type_info_checks_do_not_both_report() {
    let owner = MEMORY_TYPE_INFO_HOB_GUID.as_guid().to_string();
    let single = vec![
        Hob::ResourceDescriptor(resource(0x7e000000, 0x1000, 0, &owner)),
        Hob::MemoryTypeInformation { entries: vec![MemoryTypeInfoEntry { memory_type: 6, number_of_pages: 5 }] },
    ];
    let validator = HobValidator::new(&single);
    assert_eq!(validator.validate_memory_type_info_resource_length().unwrap().violation_count(), 1);
    assert_eq!(validator.validate_memory_type_info_single_resource_hob().unwrap().violation_count(), 0);
    let report = validator.validate_memory_type_info_resource_length().unwrap();
    match &report.violations()[0] {
        ValidationKind::Hob(HobValidationKind::MemoryTypeInfoResourceLengthTooSmall {
            required_bytes, actual_bytes, ..
        }) => {
            assert_eq!(*required_bytes, 5 * 0x1000);
            assert_eq!(*actual_bytes, 0x1000);
        }
        _ => panic!("unexpected violation"),
    }
}

#[test]
fn only_the_first_bins_are_summed() {
    let owner = MEMORY_TYPE_INFO_HOB_GUID.as_guid().to_string();
    let hob_list = vec![
        Hob::ResourceDescriptor(resource(0x7e000000, 0x2000, 0, &owner)),
        Hob::MemoryTypeInformation { entries: vec![MemoryTypeInfoEntry { memory_type: 6, number_of_pages: 2 }] },
        Hob::MemoryTypeInformation { entries: vec![MemoryTypeInfoEntry { memory_type: 6, number_of_pages: 9 }] },
    ];
    assert_eq!(HobValidator::new(&hob_list).validate_memory_type_info_resource_length().unwrap().violation_count(), 0);
}

#[test]
fn hob_summary_lists_kinds_in_alphabetical_order() {
    let hob_list = vec![
        Hob::UnknownHob,
        Hob::Cpu { size_of_memory_space: 48, size_of_io_space: 16 },
        v2(0, 0x1000, MEMORY_UC),
        Hob::Cpu { size_of_memory_space: 48, size_of_io_space: 16 },
    ];
    let summary = HobValidator::new(&hob_list).summary();
    assert_eq!(
        summary,
        "HOB Summary:\n  Total HOBs: 4\n    Cpu: 2\n    ResourceDescriptorV2 (V2): 1\n    UnknownHob: 1"
    );
}

#[test]
fn fv_summary_is_exact() {
    let fv_list = vec![volume("FvMain", vec![]), volume("FvBoot", vec![])];
    assert_eq!(FvValidator::new(&fv_list).summary(), "FV Summary:\n  Total FVs: 2\n    FvMain\n    FvBoot");
}

#[test]
fn combined_drivers_are_also_traditional_smm() {
    let fv_list = vec![volume(
        "Fv",
        vec![file("a", "CombinedPeimDriver", vec![]), file("b", "Mm", vec![]), file("c", "Driver", vec![])],
    )];
    let validator = FvValidator::new(&fv_list);
    assert_eq!(validator.validate_fv_for_combined_drivers().unwrap().violation_count(), 1);
    assert_eq!(validator.validate_fv_for_traditional_smm().unwrap().violation_count(), 2);
}

#[test]
fn fv_validation_runs_checks_in_order() {
    let lzma = FirmwareSection {
        section_type: "Pe32".to_string(),
        length: 0x100,
        compression_type: "LZMA Compressed".to_string(),
        pe_info: Some(PeHeaderInfo { section_alignment: 0x20, machine: 0x8664, subsystem: 11 }),
    };
    let fv_list = vec![volume(
        "Fv",
        vec![file("fc510ee7-ffdc-11d4-bd41-0080c73c8881", "MmCore", vec![]), file("d", "Driver", vec![lzma])],
    )];
    let validator = FvValidator::new(&fv_list);
    let report = validator.validate().unwrap();
    assert_eq!(report.violation_count(), 4);
    assert!(matches!(report.violations()[0], ValidationKind::Fv(FvValidationKind::UsesTraditionalSmm { .. })));
    assert!(matches!(report.violations()[1], ValidationKind::Fv(FvValidationKind::LzmaCompressedSections { .. })));
    assert!(matches!(
        report.violations()[2],
        ValidationKind::Fv(FvValidationKind::InvalidSectionAlignment { required_alignment: 0x1000, .. })
    ));
    assert!(matches!(report.violations()[3], ValidationKind::Fv(FvValidationKind::ProhibitedAprioriFile { .. })));
}

#[test]
fn arm64_runtime_driver_with_zero_alignment_needs_a_page() {
    let section = FirmwareSection {
        section_type: "Pe32".to_string(),
        length: 0x100,
        compression_type: "uncompressed".to_string(),
        pe_info: Some(PeHeaderInfo {
            section_alignment: 0,
            machine: COFF_MACHINE_ARM64,
            subsystem: IMAGE_SUBSYSTEM_EFI_RUNTIME_DRIVER,
        }),
    };
    let fv_list = vec![volume("Fv", vec![file("f", "Driver", vec![section])])];
    let report = FvValidator::new(&fv_list).validate_fv_file_sections().unwrap();
    assert_eq!(report.violation_count(), 1);
    assert!(matches!(
        report.violations()[0],
        ValidationKind::Fv(FvValidationKind::InvalidSectionAlignment { required_alignment: 0x1000, .. })
    ));
}

#[test]
fn empty_lists_are_errors_of_their_validators() {
    let hob_list: Vec<Hob> = vec![];
    assert_eq!(HobValidator::new(&hob_list).validate().unwrap_err(), ValidationAppError::EmptyHobList);
    assert_eq!(HobValidator::new(&hob_list).summary(), "No HOBs to validate.");
    let fv_list: Vec<FirmwareVolume> = vec![];
    assert_eq!(FvValidator::new(&fv_list).validate().unwrap_err(), ValidationAppError::EmptyFvList);
}

#[test]
fn resource_json_is_pretty_and_keeps_member_order() {
    let r = ResourceDescriptor {
        owner: "owner".to_string(),
        resource_type: 3,
        resource_attribute: 0x3c07,
        physical_start: 0x100000,
        resource_length: 0x1000,
    };
    let text = resource_json(&r, "failed");
    assert_eq!(
        text,
        "{\n  \"owner\": \"owner\",\n  \"resource_type\": 3,\n  \"resource_attribute\": \"0x3c07\",\n  \"physical_start\": \"0x100000\",\n  \"resource_length\": \"0x1000\"\n}"
    );
}

#[test]
fn table_rows_render_exact_text() {
    let h1 = resource(0x1000, 0x2000, 3, "a");
    let mut h2 = resource(0x1000, 0x2000, 3, "b");
    h2.resource_attribute = 7;
    let kind = ValidationKind::Hob(HobValidationKind::InconsistentMemoryAttributes { hob1: &h1, hob2: &h2 });
    let row = kind.table_row("3".to_string());
    assert_eq!(row.len(), 4);
    assert_eq!(row[0], "3");
    assert!(row[1].contains("\"owner\": \"a\""));
    assert_eq!(row[3], "hob 1 resource_attribute(0) do not match with hob 2 resource_attribute(7)");
    assert_eq!(kind.table_header(), vec!["#", "V1 Hob", "V2 Hob", "Violation/Resolution"]);

    let kind = ValidationKind::Hob(HobValidationKind::V2ContainsUceAttribute { hob1: &h1, attributes: 0x1fab });
    assert_eq!(kind.table_row("1".to_string())[2], "Attributes(0x1FAB) should not contain\nMEMORY_UCE(0x10) attribute");

    let fv = volume("Fv", vec![]);
    let f = file("File", "Driver", vec![]);
    let section = FirmwareSection {
        section_type: "Pe32".to_string(),
        length: 0x100,
        compression_type: "uncompressed".to_string(),
        pe_info: Some(PeHeaderInfo { section_alignment: 12345, machine: 0, subsystem: 0 }),
    };
    let kind = ValidationKind::Fv(FvValidationKind::InvalidSectionAlignment {
        fv: &fv,
        file: &f,
        section: &section,
        required_alignment: 4096,
    });
    assert_eq!(kind.table_row("2".to_string())[1], "FV: Fv\nFile: File\nSection Alignment: 12345\nRequired Alignment:4096\n");
    assert_eq!(kind.name(), "InvalidSectionAlignment");
    assert_eq!(kind.header(), "FV: PE Image Invalid Section Alignment");
}

#[test]
fn section_json_leaves_out_missing_pe_fields() {
    let fv = volume("Fv", vec![]);
    let f = file("File", "Driver", vec![]);
    let section = FirmwareSection {
        section_type: "Raw".to_string(),
        length: 0x10,
        compression_type: "LZMA ".to_string(),
        pe_info: None,
    };
    let kind = ValidationKind::Fv(FvValidationKind::LzmaCompressedSections { fv: &fv, file: &f, section: &section });
    assert_eq!(
        kind.table_row("1".to_string())[1],
        "FV: Fv\nFile: File\nSection: {\n  \"section_type\": \"Raw\",\n  \"length\": \"0x10\",\n  \"compression_type\": \"LZMA \"\n}"
    );
}

#[test]
fn well_formedness_detects_ranges_past_the_address_space() {
    assert!(hob_list_is_well_formed(&vec![v2(0x1000, 0x1000, MEMORY_UC)]));
    assert!(!hob_list_is_well_formed(&vec![v2(u64::MAX, 2, MEMORY_UC)]));
    assert!(!hob_list_is_well_formed(&vec![Hob::FirmwareVolume { fv: FvHob { base_address: u64::MAX, length: 1 } }]));
    let owner = MEMORY_TYPE_INFO_HOB_GUID.as_guid().to_string();
    let huge = vec![MemoryTypeInfoEntry { memory_type: 1, number_of_pages: u32::MAX }; 1_100_000];
    assert!(!hob_list_is_well_formed(&vec![
        Hob::ResourceDescriptor(resource(0, 0x1000, 0, &owner)),
        Hob::MemoryTypeInformation { entries: huge.clone() },
    ]));
    assert!(hob_list_is_well_formed(&vec![Hob::MemoryTypeInformation { entries: huge }]));
}

#[test]
fn report_outcome_counts_violations() {
    let empty = ValidationReport::new();
    assert_eq!(report_outcome(&empty), Ok(()));
    let hob_list = vec![allocation(0, 0x1000, 4), allocation(0x10, 0x1000, 4)];
    let validator = HobValidator::new(&hob_list);
    let report = validator.validate().unwrap();
    assert_eq!(report_outcome(&report), Err(ValidationAppError::ValidationErrors(report.violation_count() as u32)));
}

#[test]
fn application_errors_carry_their_reasons() {
    let app = ValidationApp::new(CommandLine { filename: Some("capture.json".to_string()) });
    assert_eq!(app.filename(), Ok("capture.json".to_string()));
    assert!(!app.has_data());
    let app = ValidationApp::new(CommandLine { filename: None });
    assert_eq!(app.filename(), Err(ValidationAppError::InvalidCommandLine("'filename'".to_string())));
    assert_eq!(
        ValidationApp::file_read_error("f".to_string(), true, "gone".to_string()),
        ValidationAppError::JSONFileNotFound("f".to_string())
    );
    assert_eq!(
        ValidationApp::file_read_error("f".to_string(), false, "denied".to_string()),
        ValidationAppError::JSONFileContentError("f".to_string(), "denied".to_string())
    );
    assert_eq!(
        ValidationApp::json_parse_error("f".to_string(), "bad".to_string()),
        ValidationAppError::JSONSerializationFailed("f".to_string(), "bad".to_string())
    );
}

#[test]
fn application_report_holds_both_summaries() {
    let data = CaptureData { hob_list: vec![v2(0x100000, 0x1000, MEMORY_UC)], fv_list: vec![] };
    let mut app = ValidationApp::new(CommandLine { filename: None });
    app.set_data(data);
    let report = app.validation_report().unwrap();
    assert_eq!(report.summaries().len(), 2);
    assert_eq!(report.summaries()[1], "No FVs to validate.");
    assert_eq!(report.violation_count(), 0);
}
