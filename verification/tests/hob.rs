use dxe_readiness_validator::hob::HobValidator;
use dxe_readiness_validator::model::{FvHob, Hob, MemAllocDescriptor, MemoryTypeInfoEntry, ResourceDescriptor};
use dxe_readiness_validator::report::Validator;
use patina::pi::hob::{EFI_RESOURCE_IO, EFI_RESOURCE_IO_RESERVED, MEMORY_TYPE_INFO_HOB_GUID};
use patina::standard::efi;
use patina::{OwnedGuid, UEFI_PAGE_SIZE};

fn create_v1_hob(
    start: u64,
    length: u64,
    resource_type: u32,
    resource_attribute: u32,
    owner: &str,
) -> Hob {
    Hob::ResourceDescriptor(ResourceDescriptor {
        physical_start: start,
        resource_length: length,
        resource_type,
        resource_attribute,
        owner: owner.to_string(),
    })
}

fn create_v2_hob(
    start: u64,
    length: u64,
    resource_type: u32,
    resource_attribute: u32,
    owner: &str,
    attributes: u64,
) -> Hob {
    Hob::ResourceDescriptorV2 {
        v1: ResourceDescriptor {
            physical_start: start,
            resource_length: length,
            resource_type,
            resource_attribute,
            owner: owner.to_string(),
        },
        attributes,
    }
}

fn create_memory_hob(name: String, memory_base_address: u64, memory_length: u64, memory_type: u32) -> Hob {
    Hob::MemoryAllocation {
        alloc_descriptor: MemAllocDescriptor { name, memory_base_address, memory_length, memory_type },
    }
}

fn create_fv_hob(base_address: u64, length: u64) -> Hob {
    Hob::FirmwareVolume { fv: FvHob { base_address, length } }
}

#[test]
fn test_fv_within_memory_allocation_is_valid() {
    let allocation = create_memory_hob("allocation".to_string(), 0x1000, 0x4000, 1);
    let fv = create_fv_hob(0x2000, 0x2000);
    let hob_list = vec![allocation, fv];

    let validator = HobValidator::new(&hob_list);
    let result = validator.validate_fv_within_memory_allocation();

    assert!(result.is_ok());
    assert_eq!(result.unwrap().violation_count(), 0);
}

#[test]
fn test_fv_outside_memory_allocation_is_flagged() {
    let allocation = create_memory_hob("allocation".to_string(), 0x1000, 0x2000, 1);
    let fv = create_fv_hob(0x2000, 0x2000);
    let hob_list = vec![allocation, fv];

    let validator = HobValidator::new(&hob_list);
    let result = validator.validate_fv_within_memory_allocation();

    assert!(result.is_ok());
    assert_eq!(result.unwrap().violation_count(), 1);
}

#[test]
fn test_validate_memory_overlap() {
    // it is OKAY if v1 v2 hobs overlap -- it should not be flagged
    let hob1 = create_v1_hob(100, 50, 3, 0, "owner1");
    let hob2 = create_v2_hob(100, 50, 3, 0, "owner1", 123);
    let hob_list = vec![hob1, hob2];

    let validator = HobValidator::new(&hob_list);
    let result = validator.validate_memory_overlap();
    assert!(result.is_ok());
    let validation_report = result.unwrap();
    assert_eq!(validation_report.violation_count(), 0);
}

#[test]
fn test_memory_type_info_v1_overlap_within_system_memory_is_not_flagged() {
    // The Memory Type Information bin HOB is carved out of the system memory
    // resource descriptor, so its range is contained within it. This overlap
    // is expected and must not be flagged.
    let system_memory = create_v1_hob(0x5b23c000, 0x14dc4000, 0, 0x3c07, &zero_owner());
    let mem_type_info = create_v1_hob(0x6e439000, 0xdc4000, 0, 0x7, &mem_info_owner());
    let hob_list = vec![system_memory, mem_type_info];

    let validator = HobValidator::new(&hob_list);
    let result = validator.validate_memory_overlap();
    assert!(result.is_ok());
    assert_eq!(result.unwrap().violation_count(), 0);
}

#[test]
fn test_memory_type_info_v2_overlap_within_system_memory_is_not_flagged() {
    let system_memory = create_v2_hob(0x5b23c000, 0x14dc4000, 0, 0x3c07, &zero_owner(), 0);
    let mem_type_info = create_v2_hob(0x6e439000, 0xdc4000, 0, 0x7, &mem_info_owner(), 0);
    let hob_list = vec![system_memory, mem_type_info];

    let validator = HobValidator::new(&hob_list);
    let result = validator.validate_memory_overlap();
    assert!(result.is_ok());
    assert_eq!(result.unwrap().violation_count(), 0);
}

#[test]
fn test_non_memory_type_info_overlap_is_still_flagged() {
    // Two overlapping system-memory HOBs that are not the Memory Type
    // Information bin HOB must still be reported.
    let hob1 = create_v1_hob(0x5b23c000, 0x14dc4000, 0, 0x3c07, &zero_owner());
    let hob2 = create_v1_hob(0x6e439000, 0xdc4000, 0, 0x3c07, "owner-x");
    let hob_list = vec![hob1, hob2];

    let validator = HobValidator::new(&hob_list);
    let result = validator.validate_memory_overlap();
    assert!(result.is_ok());
    assert_eq!(result.unwrap().violation_count(), 1);
}

#[test]
fn test_validate_v1v2_superset_ok() {
    // V1 hob fully covered by single V2
    let v1_hob = create_v1_hob(200, 30, 3, 0, "owner1");
    let v2_hob = create_v2_hob(100, 200, 3, 0, "owner1", 123);
    let hob_list = vec![v1_hob, v2_hob];

    let validator = HobValidator::new(&hob_list);
    let result = validator.validate_v1v2_superset();
    assert!(result.is_ok());
    let validation_report = result.unwrap();
    assert_eq!(validation_report.violation_count(), 0);
}

#[test]
fn test_check_v1v2_multiple_superset_ok() {
    // V1 hob fully covered by multiple V2's
    // [200, 250] is covered by [100, 220] and [220, 300]
    let v1_hob = create_v1_hob(200, 50, 3, 0, "owner1");
    let v2_hob1 = create_v2_hob(100, 120, 3, 0, "owner1", 123);
    let v2_hob2 = create_v2_hob(220, 80, 3, 0, "owner1", 123);
    let hob_list = vec![v1_hob, v2_hob1, v2_hob2];

    let validator = HobValidator::new(&hob_list);
    let result = validator.validate_v1v2_superset();
    assert!(result.is_ok());
    let validation_report = result.unwrap();
    assert_eq!(validation_report.violation_count(), 0);
}

#[test]
fn test_validate_v1v2_superset_fail() {
    // V1 not fully covered (gap)
    let v1_hob = create_v1_hob(200, 100, 3, 0, "owner1");
    let v2_hob1 = create_v2_hob(100, 50, 3, 0, "owner1", 123);
    let v2_hob2 = create_v2_hob(180, 10, 3, 0, "owner1", 123);
    let hob_list = vec![v1_hob, v2_hob1, v2_hob2];

    let validator = HobValidator::new(&hob_list);
    let result = validator.validate_v1v2_superset();
    assert!(result.is_ok());
    let validation_report = result.unwrap();
    assert_ne!(validation_report.violation_count(), 0);
}

#[test]
fn test_check_overlapping_v1v2_consistency_ok() {
    // Consistent v1 and v2
    let v1_hob = create_v1_hob(100, 100, 3, 0, "owner1");
    let v2_hob = create_v2_hob(150, 100, 3, 0, "owner1", 123);
    let hob_list = vec![v1_hob, v2_hob];

    let validator = HobValidator::new(&hob_list);
    let result = validator.validate_overlapping_v1v2_attributes();
    assert!(result.is_ok());
    let validation_report = result.unwrap();
    assert_eq!(validation_report.violation_count(), 0);
}

#[test]
fn test_check_non_overlapping_v1v2_different_attributes_no_violation() {
    // Non-overlapping v1 and v2 with different resource attributes and owners should not produce a violation
    let v1_hob = create_v1_hob(100, 50, 3, 1, "owner1");
    let v2_hob = create_v2_hob(200, 50, 4, 2, "owner2", 123);
    let hob_list = vec![v1_hob, v2_hob];

    let validator = HobValidator::new(&hob_list);
    let result = validator.validate_overlapping_v1v2_attributes();
    assert!(result.is_ok());
    let validation_report = result.unwrap();
    assert_eq!(validation_report.violation_count(), 0);
}

#[test]
fn test_check_overlapping_v1v2_consistency_fail() {
    // Overlapping and inconsistent v1/v2 (diff resource type)
    let v1_hob = create_v1_hob(100, 100, 3, 0, "owner1");
    let v2_hob = create_v2_hob(150, 100, 4, 0, "owner1", 123);
    let hob_list = vec![v1_hob, v2_hob];

    let validator = HobValidator::new(&hob_list);
    let result = validator.validate_overlapping_v1v2_attributes();
    assert!(result.is_ok());
    let validation_report = result.unwrap();
    assert_ne!(validation_report.violation_count(), 0);
}

#[test]
fn test_page0_memory_allocation() {
    let page_zero_mem_hob = create_memory_hob("test".to_string(), 0, 0x10, 1);
    let mem_hob = create_memory_hob("test2".to_string(), UEFI_PAGE_SIZE as u64 + 1, 0x100, 1);
    let hob_list = vec![mem_hob.clone()];
    let validator = HobValidator::new(&hob_list);
    let result = validator.validate_page0_memory_allocation();
    assert!(result.is_ok());
    let validation_report = result.unwrap();
    assert_eq!(validation_report.violation_count(), 0);

    let hob_list = vec![mem_hob.clone(), page_zero_mem_hob];
    let validator = HobValidator::new(&hob_list);
    let result = validator.validate_page0_memory_allocation();
    assert!(result.is_ok());
    let validation_report = result.unwrap();
    assert_ne!(validation_report.violation_count(), 0);
}

#[test]
fn test_memory_uce_attribute() {
    let v2_hob = create_v2_hob(100, 100, 3, 0, "owner1", efi::MEMORY_UCE);
    let hob_list = vec![v2_hob];

    let validator = HobValidator::new(&hob_list);
    let result = validator.validate_memory_uce_attribute();
    assert!(result.is_ok());
    let validation_report = result.unwrap();
    assert_ne!(validation_report.violation_count(), 0);
}

#[test]
fn test_memory_v2_cacheability_attributes() {
    // +ve test - valid cacheability attribute specified
    let v2_hob = create_v2_hob(100, 100, 3, 0, "owner1", efi::MEMORY_UC);
    let hob_list = vec![v2_hob];
    let validator = HobValidator::new(&hob_list);
    let result = validator.validate_memory_cacheability_attribute();
    assert!(result.is_ok());
    let validation_report = result.unwrap();
    assert_eq!(validation_report.violation_count(), 0);

    // -ve test - supported cacheability attribute specified
    let v2_hob = create_v2_hob(100, 100, 3, 0, "owner1", efi::MEMORY_UCE);
    let hob_list = vec![v2_hob];
    let validator = HobValidator::new(&hob_list);
    let result = validator.validate_memory_cacheability_attribute();
    assert!(result.is_ok());
    let validation_report = result.unwrap();
    assert_ne!(validation_report.violation_count(), 0);

    // -ve test - invalid cacheability attribute specified
    let v2_hob = create_v2_hob(100, 100, 3, 0, "owner1", efi::MEMORY_RO);
    let hob_list = vec![v2_hob];
    let validator = HobValidator::new(&hob_list);
    let result = validator.validate_memory_cacheability_attribute();
    assert!(result.is_ok());
    let validation_report = result.unwrap();
    assert_ne!(validation_report.violation_count(), 0);

    // -ve test - multiple cacheability attributes specified
    let v2_hob = create_v2_hob(100, 100, 3, 0, "owner1", efi::MEMORY_WT | efi::MEMORY_WC);
    let hob_list = vec![v2_hob];
    let validator = HobValidator::new(&hob_list);
    let result = validator.validate_memory_cacheability_attribute();
    assert!(result.is_ok());
    let validation_report = result.unwrap();
    assert_ne!(validation_report.violation_count(), 0);

    // +ve test - valid cacheability attributes specified
    let v2_hob = create_v2_hob(100, 100, 3, 0, "owner1", efi::MEMORY_WC);
    let hob_list = vec![v2_hob];
    let validator = HobValidator::new(&hob_list);
    let result = validator.validate_memory_cacheability_attribute();
    assert!(result.is_ok());
    let validation_report = result.unwrap();
    assert_eq!(validation_report.violation_count(), 0);

    // -ve test - invalid cacheability attributes value(0) specified
    let v2_hob = create_v2_hob(100, 100, 3, 0, "owner1", 0);
    let hob_list = vec![v2_hob];
    let validator = HobValidator::new(&hob_list);
    let result = validator.validate_memory_cacheability_attribute();
    assert!(result.is_ok());
    let validation_report = result.unwrap();
    assert_ne!(validation_report.violation_count(), 0);
}

#[test]
fn test_memory_v2_access_protection_attributes() {
    // +ve test - valid cacheability attribute specified with a single access protection attribute
    let v2_hob = create_v2_hob(100, 100, 3, 0, "owner1", efi::MEMORY_UC | efi::MEMORY_RO);
    let hob_list = vec![v2_hob];
    let validator = HobValidator::new(&hob_list);
    let result = validator.validate_memory_cacheability_attribute();
    assert!(result.is_ok());
    let validation_report = result.unwrap();
    assert_eq!(validation_report.violation_count(), 0);

    // +ve test - valid cacheability attribute specified with multiple access protection attributes
    let v2_hob = create_v2_hob(100, 100, 3, 0, "owner1", efi::MEMORY_UC | efi::MEMORY_RO | efi::MEMORY_XP);
    let hob_list = vec![v2_hob];
    let validator = HobValidator::new(&hob_list);
    let result = validator.validate_memory_cacheability_attribute();
    assert!(result.is_ok());
    let validation_report = result.unwrap();
    assert_eq!(validation_report.violation_count(), 0);
}

#[test]
fn test_memory_v2_io_cacheability_attributes() {
    // -ve test - an io resource descriptor should not have any cacheability attributes
    let v2_hob = create_v2_hob(100, 100, EFI_RESOURCE_IO, 0, "owner1", efi::MEMORY_UC);
    let hob_list = vec![v2_hob];
    let validator = HobValidator::new(&hob_list);
    let result = validator.validate_memory_cacheability_attribute_io_resource_hob();
    assert!(result.is_ok());
    let validation_report = result.unwrap();
    assert_ne!(validation_report.violation_count(), 0);

    // -ve test - an io reserved resource descriptor should not have any cacheability attributes
    let v2_hob = create_v2_hob(100, 100, EFI_RESOURCE_IO_RESERVED, 0, "owner1", efi::MEMORY_UC);
    let hob_list = vec![v2_hob];
    let validator = HobValidator::new(&hob_list);
    let result = validator.validate_memory_cacheability_attribute_io_resource_hob();
    assert!(result.is_ok());
    let validation_report = result.unwrap();
    assert_ne!(validation_report.violation_count(), 0);
}

/// String form of `MEMORY_TYPE_INFO_HOB_GUID` used for tests.
fn mem_info_owner() -> String {
    MEMORY_TYPE_INFO_HOB_GUID.as_guid().to_string()
}

/// String form of `OwnedGuid::ZERO` used for tests.
fn zero_owner() -> String {
    OwnedGuid::ZERO.to_string()
}

/// Test that a V1 resource descriptor HOB owned by `MEMORY_TYPE_INFO_HOB_GUID`
/// that overlaps a V2 system memory range with different `resource_attribute`
/// does not get flagged.
#[test]
fn test_memory_type_info_v1_overlap_with_v2_is_not_flagged() {
    let v1 = create_v1_hob(0x7e233000, 0xdbb000, 0, 0x7, &mem_info_owner());
    let v2 = create_v2_hob(0x100000, 0x7ef00000, 0, 0x3c07, &zero_owner(), 0);
    let hob_list = vec![v1, v2];

    let validator = HobValidator::new(&hob_list);
    let result = validator.validate_overlapping_v1v2_attributes();
    assert!(result.is_ok());
    assert_eq!(result.unwrap().violation_count(), 0);
}

/// Test that the `MEMORY_TYPE_INFO_HOB_GUID` skip is case-insensitive. A
/// captured owner string in uppercase (or mixed case) should match the same
/// well-known GUID and be skipped.
///
/// Note: This test deliberately uses a hard-coded uppercase string (rather than
/// the SDK constant).
#[test]
fn test_memory_type_info_skip_is_case_insensitive() {
    const MEM_INFO_OWNER_UPPER: &str = "4C19049F-4137-4DD3-9C10-8B97A83FFDFA";
    let v1 = create_v1_hob(0x7e233000, 0xdbb000, 0, 0x7, MEM_INFO_OWNER_UPPER);
    let v2 = create_v2_hob(0x100000, 0x7ef00000, 0, 0x3c07, &zero_owner(), 0);
    let hob_list = vec![v1, v2];

    let validator = HobValidator::new(&hob_list);
    let result = validator.validate_overlapping_v1v2_attributes();
    assert!(result.is_ok());
    assert_eq!(result.unwrap().violation_count(), 0);
}

/// Test that the skip relies on `OwnedGuid::try_from_string`, which tolerates
/// the no-dashes hex form. The same captured GUID without dashes should still
/// be recognized as `MEMORY_TYPE_INFO_HOB_GUID`.
#[test]
fn test_memory_type_info_skip_accepts_no_dashes() {
    const MEM_INFO_OWNER_NO_DASHES: &str = "4c19049f41374dd39c108b97a83ffdfa";
    let v1 = create_v1_hob(0x7e233000, 0xdbb000, 0, 0x7, MEM_INFO_OWNER_NO_DASHES);
    let v2 = create_v2_hob(0x100000, 0x7ef00000, 0, 0x3c07, &zero_owner(), 0);
    let hob_list = vec![v1, v2];

    let validator = HobValidator::new(&hob_list);
    let result = validator.validate_overlapping_v1v2_attributes();
    assert!(result.is_ok());
    assert_eq!(result.unwrap().violation_count(), 0);
}

/// Test that a malformed owner string does not silently match `MEMORY_TYPE_INFO_HOB_GUID`.
#[test]
fn test_malformed_owner_does_not_match_memory_type_info() {
    let v1 = create_v1_hob(0x100000, 0x10000, 0, 0x7, "not-a-guid");
    let v2 = create_v2_hob(0x100000, 0x10000, 0, 0x3c07, &zero_owner(), 0);
    let hob_list = vec![v1, v2];

    let validator = HobValidator::new(&hob_list);
    let result = validator.validate_overlapping_v1v2_attributes();
    assert!(result.is_ok());
    assert_eq!(result.unwrap().violation_count(), 1);
}

/// An owner-only mismatch between overlapping V1 and V2 descriptors (with
/// identical `resource_type` and `resource_attribute`) is not a memory
/// attribute inconsistency and should not produce a violation.
#[test]
fn test_owner_only_mismatch_is_not_flagged() {
    let v1 = create_v1_hob(0x100000, 0x10000, 0, 0x3c07, "owner-a");
    let v2 = create_v2_hob(0x100000, 0x10000, 0, 0x3c07, "owner-b", 0);
    let hob_list = vec![v1, v2];

    let validator = HobValidator::new(&hob_list);
    let result = validator.validate_overlapping_v1v2_attributes();
    assert!(result.is_ok());
    assert_eq!(result.unwrap().violation_count(), 0);
}

/// Test that the V1/V2 attribute consistency check detects mismatches for
/// different attributes with a non-`MEMORY_TYPE_INFO_HOB_GUID` owner.
#[test]
fn test_non_memory_type_info_attribute_mismatch_is_still_flagged() {
    // Same range, same owner, mismatched resource_attribute.
    let v1 = create_v1_hob(0x100000, 0x10000, 0, 0x7, "owner-x");
    let v2 = create_v2_hob(0x100000, 0x10000, 0, 0x3c07, "owner-x", 0);
    let hob_list = vec![v1, v2];

    let validator = HobValidator::new(&hob_list);
    let result = validator.validate_overlapping_v1v2_attributes();
    assert!(result.is_ok());
    assert_eq!(result.unwrap().violation_count(), 1);
}

fn mem_type_info_hob(entries: Vec<MemoryTypeInfoEntry>) -> Hob {
    Hob::MemoryTypeInformation { entries }
}

/// Exactly one Resource Descriptor HOB owned by `MEMORY_TYPE_INFO_HOB_GUID`
/// is the expected configuration and must not be flagged.
#[test]
fn test_single_memory_type_info_resource_hob_is_ok() {
    let v1 = create_v1_hob(0x7e233000, 0xdbb000, 0, 0x7, &mem_info_owner());
    let hob_list = vec![v1];

    let validator = HobValidator::new(&hob_list);
    let result = validator.validate_memory_type_info_single_resource_hob();
    assert!(result.is_ok());
    assert_eq!(result.unwrap().violation_count(), 0);
}

/// A Memory Type Info HOB reported as a V2 Resource Descriptor HOB should be accepted
/// the same as a V1 Resource Descriptor HOB.
#[test]
fn test_single_memory_type_info_v2_resource_hob_is_ok() {
    let v2 = create_v2_hob(0x7e233000, 0xdbb000, 0, 0x7, &mem_info_owner(), 0);
    let hob_list = vec![v2];

    let validator = HobValidator::new(&hob_list);
    let result = validator.validate_memory_type_info_single_resource_hob();
    assert!(result.is_ok());
    assert_eq!(result.unwrap().violation_count(), 0);
}

/// Zero Resource Descriptor HOBs owned by `MEMORY_TYPE_INFO_HOB_GUID` is
/// out of scope for this check.
#[test]
fn test_zero_memory_type_info_resource_hobs_is_ok() {
    let v2 = create_v2_hob(0x100000, 0x1000, 0, 0x3c07, &zero_owner(), 0);
    let hob_list = vec![v2];

    let validator = HobValidator::new(&hob_list);
    let result = validator.validate_memory_type_info_single_resource_hob();
    assert!(result.is_ok());
    assert_eq!(result.unwrap().violation_count(), 0);
}

/// Multiple Resource Descriptor HOBs owned by `MEMORY_TYPE_INFO_HOB_GUID`
/// must each be reported as a violation.
#[test]
fn test_multiple_memory_type_info_resource_hobs_are_flagged() {
    let v1a = create_v1_hob(0x7e233000, 0xdbb000, 0, 0x7, &mem_info_owner());
    let v1b = create_v1_hob(0x90000000, 0x10000, 0, 0x7, &mem_info_owner());
    let v1c = create_v1_hob(0xa0000000, 0x10000, 0, 0x7, &mem_info_owner());
    let hob_list = vec![v1a, v1b, v1c];

    let validator = HobValidator::new(&hob_list);
    let result = validator.validate_memory_type_info_single_resource_hob();
    assert!(result.is_ok());
    assert_eq!(result.unwrap().violation_count(), 3);
}

/// Multiple Memory Type Info Resource Descriptor HOBs are flagged regardless
/// of whether they are reported as V1 or V2 Resource Descriptor HOBs. A mix of the two
/// will report one violation per HOB.
#[test]
fn test_multiple_memory_type_info_mixed_v1_v2_resource_hobs_are_flagged() {
    let v1 = create_v1_hob(0x7e233000, 0xdbb000, 0, 0x7, &mem_info_owner());
    let v2 = create_v2_hob(0x90000000, 0x10000, 0, 0x7, &mem_info_owner(), 0);
    let hob_list = vec![v1, v2];

    let validator = HobValidator::new(&hob_list);
    let result = validator.validate_memory_type_info_single_resource_hob();
    assert!(result.is_ok());
    assert_eq!(result.unwrap().violation_count(), 2);
}

/// `ResourceLength` greater than the raw bin total must not be flagged.
#[test]
fn test_memory_type_info_resource_length_sufficient_is_ok() {
    let v1 = create_v1_hob(0x7e000000, 0x100000, 0, 0x7, &mem_info_owner());
    let mti = mem_type_info_hob(vec![
        MemoryTypeInfoEntry { memory_type: 6, number_of_pages: 2 },
        MemoryTypeInfoEntry { memory_type: 5, number_of_pages: 2 },
    ]);
    let hob_list = vec![v1, mti];

    let validator = HobValidator::new(&hob_list);
    let result = validator.validate_memory_type_info_resource_length();
    assert!(result.is_ok());
    assert_eq!(result.unwrap().violation_count(), 0);
}

/// `ResourceLength` exactly equal to the raw bin total must not be flagged.
#[test]
fn test_memory_type_info_resource_length_exact_is_ok() {
    let required = 4 * UEFI_PAGE_SIZE as u64;
    let v1 = create_v1_hob(0x7e000000, required, 0, 0x7, &mem_info_owner());
    let mti = mem_type_info_hob(vec![
        MemoryTypeInfoEntry { memory_type: 6, number_of_pages: 2 },
        MemoryTypeInfoEntry { memory_type: 5, number_of_pages: 2 },
    ]);
    let hob_list = vec![v1, mti];

    let validator = HobValidator::new(&hob_list);
    let result = validator.validate_memory_type_info_resource_length();
    assert!(result.is_ok());
    assert_eq!(result.unwrap().violation_count(), 0);
}

/// `ResourceLength` smaller than the raw bin total must be flagged.
#[test]
fn test_memory_type_info_resource_length_too_small_is_flagged() {
    let v1 = create_v1_hob(0x7e000000, 0x1000, 0, 0x7, &mem_info_owner());
    let mti = mem_type_info_hob(vec![
        MemoryTypeInfoEntry { memory_type: 6, number_of_pages: 5 },
        MemoryTypeInfoEntry { memory_type: 5, number_of_pages: 5 },
    ]);
    let hob_list = vec![v1, mti];

    let validator = HobValidator::new(&hob_list);
    let result = validator.validate_memory_type_info_resource_length();
    assert!(result.is_ok());
    assert_eq!(result.unwrap().violation_count(), 1);
}

/// The `ResourceLength` check applies to a Memory Type Info HOB reported as a
/// V2 Resource Descriptor HOB as well.
#[test]
fn test_memory_type_info_v2_resource_length_too_small_is_flagged() {
    let v2 = create_v2_hob(0x7e000000, 0x1000, 0, 0x7, &mem_info_owner(), 0);
    let mti = mem_type_info_hob(vec![
        MemoryTypeInfoEntry { memory_type: 6, number_of_pages: 5 },
        MemoryTypeInfoEntry { memory_type: 5, number_of_pages: 5 },
    ]);
    let hob_list = vec![v2, mti];

    let validator = HobValidator::new(&hob_list);
    let result = validator.validate_memory_type_info_resource_length();
    assert!(result.is_ok());
    assert_eq!(result.unwrap().violation_count(), 1);
}

/// When no Memory Type Information GUID HOB is captured, the length check
/// is  skipped (since the required size cannot be determined).
#[test]
fn test_memory_type_info_resource_length_without_guid_hob_is_skipped() {
    let v1 = create_v1_hob(0x7e000000, 0x1000, 0, 0x7, &mem_info_owner());
    let hob_list = vec![v1];

    let validator = HobValidator::new(&hob_list);
    let result = validator.validate_memory_type_info_resource_length();
    assert!(result.is_ok());
    assert_eq!(result.unwrap().violation_count(), 0);
}

/// When more than one Memory Type Info Resource Descriptor HOB is present,
/// the length check defers to the single instance check so a second violation
/// is not reported.
#[test]
fn test_memory_type_info_resource_length_with_multiple_hobs_is_skipped() {
    let v1a = create_v1_hob(0x7e000000, 0x1000, 0, 0x7, &mem_info_owner());
    let v1b = create_v1_hob(0x90000000, 0x1000, 0, 0x7, &mem_info_owner());
    let mti = mem_type_info_hob(vec![MemoryTypeInfoEntry { memory_type: 6, number_of_pages: 100 }]);
    let hob_list = vec![v1a, v1b, mti];

    let validator = HobValidator::new(&hob_list);
    let result = validator.validate_memory_type_info_resource_length();
    assert!(result.is_ok());
    assert_eq!(result.unwrap().violation_count(), 0);
}

#[test]
fn test_hob_summary_counts_each_type() {
    let hob_list = vec![
        create_v1_hob(0x1000, 0x1000, 3, 0, "owner1"),
        create_v1_hob(0x3000, 0x1000, 3, 0, "owner1"),
        create_v2_hob(0x5000, 0x1000, 3, 0, "owner1", 123),
        create_memory_hob("mem".to_string(), 0x10000, 0x1000, 1),
        mem_type_info_hob(vec![MemoryTypeInfoEntry { memory_type: 6, number_of_pages: 1 }]),
    ];

    let validator = HobValidator::new(&hob_list);
    let summary = validator.summary();
    assert!(summary.contains("Total HOBs: 5"), "got: {summary}");
    assert!(summary.contains("ResourceDescriptor (V1): 2"), "got: {summary}");
    assert!(summary.contains("ResourceDescriptorV2 (V2): 1"), "got: {summary}");
    assert!(summary.contains("MemoryAllocation: 1"), "got: {summary}");
    assert!(summary.contains("MemoryTypeInformation: 1"), "got: {summary}");
}

#[test]
fn test_hob_summary_omits_absent_types() {
    let hob_list = vec![create_v1_hob(0x1000, 0x1000, 3, 0, "owner1")];

    let validator = HobValidator::new(&hob_list);
    let summary = validator.summary();
    assert!(summary.contains("Total HOBs: 1"), "got: {summary}");
    assert!(summary.contains("ResourceDescriptor (V1): 1"), "got: {summary}");
    assert!(!summary.contains("MemoryAllocation"), "got: {summary}");
}

#[test]
fn test_hob_summary_empty_list() {
    let hob_list = vec![];
    let validator = HobValidator::new(&hob_list);

    assert_eq!(validator.summary(), "No HOBs to validate.");
}

/// A V2 descriptor owned by the Memory Type Information GUID (the PEI memory bins) covers
/// no V1 range in the superset check.
#[test]
fn test_memory_type_info_v2_does_not_cover_v1() {
    let hob_list = vec![
        create_v1_hob(0x100000, 0x1000, 0, 0x7, "owner-x"),
        create_v2_hob(0x100000, 0x1000, 0, 0x7, &mem_info_owner(), 0),
    ];
    let validator = HobValidator::new(&hob_list);
    let result = validator.validate_v1v2_superset();
    assert!(result.is_ok());
    assert_eq!(result.unwrap().violation_count(), 1);

    // the same V2 with another owner covers it
    let hob_list = vec![
        create_v1_hob(0x100000, 0x1000, 0, 0x7, "owner-x"),
        create_v2_hob(0x100000, 0x1000, 0, 0x7, "owner-y", 0),
    ];
    let validator = HobValidator::new(&hob_list);
    assert_eq!(validator.validate_v1v2_superset().unwrap().violation_count(), 0);
}
