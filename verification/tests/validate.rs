use dxe_readiness_validator::model::{CaptureData, FirmwareVolume, Hob, ResourceDescriptor};
use dxe_readiness_validator::report::ValidationAppError;
use dxe_readiness_validator::validate::{CommandLine, ValidationApp};
use patina::standard::efi;

fn app_with_data(data: Option<CaptureData>) -> ValidationApp {
    ValidationApp::new_with_data(data)
}

/// A V2 resource descriptor with a valid single cacheability attribute that
/// passes all HOB checks.
fn clean_v2_hob() -> Hob {
    Hob::ResourceDescriptorV2 {
        v1: ResourceDescriptor {
            owner: "owner".to_string(),
            resource_type: 3,
            resource_attribute: 0,
            physical_start: 0x100000,
            resource_length: 0x1000,
        },
        attributes: efi::MEMORY_UC,
    }
}

/// A lone V1 resource descriptor with no covering V2, which triggers exactly
/// one violation.
fn lone_v1_hob() -> Hob {
    Hob::ResourceDescriptor(ResourceDescriptor {
        owner: "owner".to_string(),
        resource_type: 3,
        resource_attribute: 0,
        physical_start: 0x100000,
        resource_length: 0x1000,
    })
}

fn clean_fv() -> FirmwareVolume {
    FirmwareVolume {
        fv_name: "FvMain".to_string(),
        fv_length: 1024,
        fv_base_address: 0x1000,
        fv_attributes: 0,
        files: vec![],
    }
}

#[test]
fn test_validate_none_data_errors() {
    let app = app_with_data(None);
    assert_eq!(app.validate().unwrap_err(), ValidationAppError::EmptyHobList);
}

#[test]
fn test_validate_clean_data_ok() {
    let data = CaptureData { hob_list: vec![clean_v2_hob()], fv_list: vec![clean_fv()] };
    let app = app_with_data(Some(data));
    assert!(app.validate().is_ok());
}

#[test]
fn test_validate_reports_violations() {
    let data = CaptureData { hob_list: vec![lone_v1_hob()], fv_list: vec![clean_fv()] };
    let app = app_with_data(Some(data));
    assert_eq!(app.validate().unwrap_err(), ValidationAppError::ValidationErrors(1));
}

#[test]
fn test_validate_empty_hob_list_is_ok() {
    let data = CaptureData { hob_list: vec![], fv_list: vec![clean_fv()] };
    let app = app_with_data(Some(data));
    assert!(app.validate().is_ok());
}

#[test]
fn test_validate_empty_fv_list_is_ok() {
    let data = CaptureData { hob_list: vec![clean_v2_hob()], fv_list: vec![] };
    let app = app_with_data(Some(data));
    assert!(app.validate().is_ok());
}

#[test]
fn test_validate_empty_hob_and_fv_lists_is_ok() {
    let data = CaptureData { hob_list: vec![], fv_list: vec![] };
    let app = app_with_data(Some(data));
    assert!(app.validate().is_ok());
}

#[test]
fn test_parse_json_missing_filename_errors() {
    let app = ValidationApp::new(CommandLine { filename: None });
    assert!(matches!(app.filename(), Err(ValidationAppError::InvalidCommandLine(_))));
}
