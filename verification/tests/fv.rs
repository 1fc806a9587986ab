use dxe_readiness_validator::fv::FvValidator;
use dxe_readiness_validator::model::{FirmwareFile, FirmwareSection, FirmwareVolume, PeHeaderInfo};
use dxe_readiness_validator::report::{ValidationAppError, Validator};
use goblin::pe::header::{COFF_MACHINE_ARM64, COFF_MACHINE_X86_64};
use goblin::pe::subsystem::{IMAGE_SUBSYSTEM_EFI_BOOT_SERVICE_DRIVER, IMAGE_SUBSYSTEM_EFI_RUNTIME_DRIVER};
use patina::UEFI_PAGE_SIZE;

#[test]
fn test_validate_fv_for_traditional_smm() {
    let fv_list = vec![FirmwareVolume {
        fv_name: "FV1".to_string(),
        fv_length: 1024,
        fv_base_address: 0x1000,
        fv_attributes: 0,
        files: vec![
            FirmwareFile {
                name: "File1".to_string(),
                file_type: "CombinedPeimDriver".to_string(),
                length: 512,
                attributes: 0,
                sections: vec![],
            },
            FirmwareFile {
                name: "File2".to_string(),
                file_type: "Mm".to_string(),
                length: 256,
                attributes: 0,
                sections: vec![],
            },
            FirmwareFile {
                name: "File3".to_string(),
                file_type: "CombinedMmDxe".to_string(),
                length: 256,
                attributes: 0,
                sections: vec![],
            },
            FirmwareFile {
                name: "File4".to_string(),
                file_type: "MmCore".to_string(),
                length: 256,
                attributes: 0,
                sections: vec![],
            },
        ],
    }];

    let validator = FvValidator::new(&fv_list);
    let result = validator.validate();
    assert!(result.is_ok());
    let validation_report = result.unwrap();
    assert_ne!(validation_report.violation_count(), 0);
}

#[test]
fn test_validate_fv_combined_drivers() {
    let fv_list = vec![FirmwareVolume {
        fv_name: "FV1".to_string(),
        fv_length: 1024,
        fv_base_address: 0x1000,
        fv_attributes: 0,
        files: vec![
            FirmwareFile {
                name: "File1".to_string(),
                file_type: "CombinedPeimDriver".to_string(),
                length: 512,
                attributes: 0,
                sections: vec![],
            },
            FirmwareFile {
                name: "File2".to_string(),
                file_type: "CombinedMmDxe".to_string(),
                length: 256,
                attributes: 0,
                sections: vec![],
            },
        ],
    }];

    let validator = FvValidator::new(&fv_list);
    let result = validator.validate_fv_for_combined_drivers();
    assert!(result.is_ok());
    let validation_report = result.unwrap();
    assert_ne!(validation_report.violation_count(), 0);

    let fv_list = vec![FirmwareVolume {
        fv_name: "FV2".to_string(),
        fv_length: 2048,
        fv_base_address: 0x2000,
        fv_attributes: 0,
        files: vec![
            FirmwareFile {
                name: "File3".to_string(),
                file_type: "Dxe".to_string(),
                length: 128,
                attributes: 0,
                sections: vec![],
            },
            FirmwareFile {
                name: "File4".to_string(),
                file_type: "MmCore".to_string(),
                length: 64,
                attributes: 0,
                sections: vec![],
            },
        ],
    }];

    let validator = FvValidator::new(&fv_list);
    let result = validator.validate_fv_for_combined_drivers();
    assert!(result.is_ok());
    let validation_report = result.unwrap();
    assert_eq!(validation_report.violation_count(), 0);
}

#[test]
fn test_validate_fv_for_apriori_file() {
    // the lower-case 8-4-4-4-12 renderings of the PEI and DXE Apriori file GUIDs
    let pei_apriori_file_name_guid = "1b45cc0a-156a-428a-af62-49864da0e6e6".to_string();
    let apriori_file_name_guid = "fc510ee7-ffdc-11d4-bd41-0080c73c8881".to_string();

    let fv_list = vec![FirmwareVolume {
        fv_name: "FV1".to_string(),
        fv_length: 1024,
        fv_base_address: 0x1000,
        fv_attributes: 0,
        files: vec![FirmwareFile {
            name: pei_apriori_file_name_guid,
            file_type: "Dxe".to_string(),
            length: 512,
            attributes: 0,
            sections: vec![],
        }],
    }];

    let validator = FvValidator::new(&fv_list);
    let result = validator.validate_fv_for_apriori_file();
    assert!(result.is_ok());
    let validation_report = result.unwrap();
    assert_ne!(validation_report.violation_count(), 0);

    let fv_list = vec![FirmwareVolume {
        fv_name: "FV1".to_string(),
        fv_length: 1024,
        fv_base_address: 0x1000,
        fv_attributes: 0,
        files: vec![FirmwareFile {
            name: apriori_file_name_guid,
            file_type: "Dxe".to_string(),
            length: 512,
            attributes: 0,
            sections: vec![],
        }],
    }];

    let validator = FvValidator::new(&fv_list);
    let result = validator.validate_fv_for_apriori_file();
    assert!(result.is_ok());
    let validation_report = result.unwrap();
    assert_ne!(validation_report.violation_count(), 0);
}

#[test]
fn test_validate_fv_for_lzma_sections() {
    let fv_list = vec![FirmwareVolume {
        fv_name: "FV1".to_string(),
        fv_length: 1024,
        fv_base_address: 0x1000,
        fv_attributes: 0,
        files: vec![FirmwareFile {
            name: "File1".to_string(),
            file_type: "Driver".to_string(),
            length: 512,
            attributes: 0,
            sections: vec![FirmwareSection {
                section_type: "LZMA".to_string(),
                length: 256,
                compression_type: "LZMA ".to_string(),
                pe_info: None,
            }],
        }],
    }];

    let validator = FvValidator::new(&fv_list);
    let result = validator.validate_fv_file_sections();
    assert!(result.is_ok());
    let validation_report = result.unwrap();
    assert_ne!(validation_report.violation_count(), 0);

    let fv_list = vec![FirmwareVolume {
        fv_name: "FV2".to_string(),
        fv_length: 2048,
        fv_base_address: 0x2000,
        fv_attributes: 0,
        files: vec![FirmwareFile {
            name: "File3".to_string(),
            file_type: "MmCoreStandalone".to_string(),
            length: 128,
            attributes: 0,
            sections: vec![FirmwareSection {
                section_type: "LZMA".to_string(),
                length: 128,
                compression_type: "uncompressed".to_string(),
                pe_info: None,
            }],
        }],
    }];

    let validator = FvValidator::new(&fv_list);
    let result = validator.validate_fv_file_sections();
    assert!(result.is_ok());
    let validation_report = result.unwrap();
    assert_eq!(validation_report.violation_count(), 0);
}

// Helper function to run alignment validation and return violation count
fn run_alignment_test(
    fv_name: &str,
    file_name: &str,
    file_type: &str,
    section_alignment: u32,
    machine: u16,
    subsystem: u16,
) -> usize {
    let fv_list = vec![FirmwareVolume {
        fv_name: fv_name.to_string(),
        fv_length: 1024,
        fv_base_address: 0x1000,
        fv_attributes: 0,
        files: vec![FirmwareFile {
            name: file_name.to_string(),
            file_type: file_type.to_string(),
            length: 512,
            attributes: 0,
            sections: vec![FirmwareSection {
                section_type: "Pe32".to_string(),
                length: 256,
                compression_type: "uncompressed ".to_string(),
                pe_info: Some(PeHeaderInfo { section_alignment, machine, subsystem }),
            }],
        }],
    }];

    let validator = FvValidator::new(&fv_list);
    let result = validator.validate_fv_file_sections();
    assert!(result.is_ok());
    let validation_report = result.unwrap();
    validation_report.violation_count()
}

#[test]
fn test_invalid_alignment_not_multiple_of_page_size() {
    let violation_count = run_alignment_test(
        "FV1",
        "File1",
        "Driver",
        12345, // Not a valid multiple of page size
        COFF_MACHINE_X86_64,
        IMAGE_SUBSYSTEM_EFI_RUNTIME_DRIVER,
    );
    assert_eq!(violation_count, 1);
}

#[test]
fn test_invalid_alignment_zero() {
    let violation_count = run_alignment_test(
        "FV1",
        "File1",
        "Driver",
        0, // Zero alignment not allowed
        COFF_MACHINE_X86_64,
        IMAGE_SUBSYSTEM_EFI_BOOT_SERVICE_DRIVER,
    );
    assert_eq!(violation_count, 1);
}

#[test]
fn test_valid_alignment_multiple_of_page_size() {
    let violation_count = run_alignment_test(
        "FV2",
        "File3",
        "MmCore",
        (UEFI_PAGE_SIZE * 2) as u32, // Valid multiple of page size
        COFF_MACHINE_X86_64,
        IMAGE_SUBSYSTEM_EFI_BOOT_SERVICE_DRIVER,
    );
    assert_eq!(violation_count, 0);
}

#[test]
fn test_invalid_alignment_arm64_runtime_driver() {
    let violation_count = run_alignment_test(
        "FV2",
        "File3",
        "Driver",
        (UEFI_PAGE_SIZE * 2) as u32, // Valid multiple of page size but NOT valid for ARM64 DXE_RUNTIME_DRIVER
        COFF_MACHINE_ARM64,
        IMAGE_SUBSYSTEM_EFI_RUNTIME_DRIVER,
    );
    assert_eq!(violation_count, 1);
}

#[test]
fn test_ineligible_modules_types_do_not_fail() {
    const ALL_MODULE_TYPES: &[&str] = &[
        "Raw",
        "FreeForm",
        "SecurityCore",
        "PeiCore",
        "DxeCore",
        "Peim",
        "Driver",
        "CombinedPeimDriver",
        "Application",
        "Mm",
        "FirmwareVolumeImage",
        "CombinedMmDxe",
        "MmCore",
        "MmStandalone",
        "MmCoreStandalone",
        "FfsPad",
        "FfsUnknown",
    ];
    const ELIGIBLE_MODULE_TYPES: &[&str] = &["Driver", "Application", "DxeCore"];

    for &module_type in ALL_MODULE_TYPES {
        let expected_violation = ELIGIBLE_MODULE_TYPES.contains(&module_type);
        let violation_count = run_alignment_test(
            "TestFv",
            "TestFile",
            module_type,
            UEFI_PAGE_SIZE as u32, // 4k aligned
            COFF_MACHINE_X86_64,
            IMAGE_SUBSYSTEM_EFI_BOOT_SERVICE_DRIVER,
        );
        if expected_violation {
            assert_eq!(violation_count, 0, "Eligible type '{}' should not violate", module_type);
        } else {
            assert_eq!(violation_count, 0, "Ineligible type '{}' should not violate", module_type);
        }
    }
}

#[test]
fn test_validate_empty_list() {
    let fv_list = vec![];
    let validator = FvValidator::new(&fv_list);
    let result = validator.validate();
    assert!(result.is_err());
    assert_eq!(result.unwrap_err(), ValidationAppError::EmptyFvList);
}

#[test]
fn test_fv_summary_lists_count_and_names() {
    let fv_list = vec![
        FirmwareVolume {
            fv_name: "FvMain".to_string(),
            fv_length: 1024,
            fv_base_address: 0x1000,
            fv_attributes: 0,
            files: vec![],
        },
        FirmwareVolume {
            fv_name: "FvBoot".to_string(),
            fv_length: 2048,
            fv_base_address: 0x2000,
            fv_attributes: 0,
            files: vec![],
        },
    ];

    let validator = FvValidator::new(&fv_list);
    let summary = validator.summary();
    assert!(summary.contains("Total FVs: 2"), "got: {summary}");
    assert!(summary.contains("FvMain"), "got: {summary}");
    assert!(summary.contains("FvBoot"), "got: {summary}");
}

#[test]
fn test_fv_summary_empty_list() {
    let fv_list = vec![];
    let validator = FvValidator::new(&fv_list);

    assert_eq!(validator.summary(), "No FVs to validate.");
}
