//! Validation of the firmware volumes against the requirements of the Patina DXE core.
use crate::guid::{format_guid, guid_text};
use crate::kind::{FvValidationKind, ValidationKind};
use crate::model::{
    gather, gather_all, FirmwareFile, FirmwareSection, FirmwareVolume, COFF_MACHINE_ARM64,
    IMAGE_SUBSYSTEM_EFI_RUNTIME_DRIVER, UEFI_PAGE_SIZE,
};
use crate::report::{ValidationAppError, ValidationReport, ValidationResult, Validator};
use crate::text::{dec, has_prefix, push_dec, push_str, starts_with, str_eq};
use vstd::prelude::*;

verus! {

/// Section alignment that ARM64 runtime drivers need.
pub const FV_ARM64_RUNTIME_DRIVER_ALIGNMENT: usize = 0x10000;

/// Performs validation on a list of firmware volumes to check for violations of Patina
/// requirements.
pub struct FvValidator<'a> {
    fv_list: &'a Vec<FirmwareVolume>,
}

/// File types of traditional SMM modules.
pub open spec fn is_traditional_smm_type(t: Seq<char>) -> bool {
    t == "CombinedPeimDriver"@ || t == "Mm"@ || t == "CombinedMmDxe"@ || t == "MmCore"@
}

/// File types of combined drivers.
pub open spec fn is_combined_driver_type(t: Seq<char>) -> bool {
    t == "CombinedPeimDriver"@ || t == "CombinedMmDxe"@
}

/// File types whose sections are checked.
pub open spec fn is_eligible_module_type(t: Seq<char>) -> bool {
    t == "Driver"@ || t == "Application"@ || t == "DxeCore"@
}

/// Name of the PEI Apriori file: `1b45cc0a-156a-428a-af62-49864da0e6e6`.
pub open spec fn pei_apriori_name() -> Seq<char> {
    guid_text(0x1B45CC0A, 0x156A, 0x428A, 0xAF, 0x62, seq![0x49u8, 0x86u8, 0x4Du8, 0xA0u8, 0xE6u8, 0xE6u8])
}

/// Name of the DXE Apriori file: `fc510ee7-ffdc-11d4-bd41-0080c73c8881`.
pub open spec fn apriori_name() -> Seq<char> {
    guid_text(0xFC510EE7, 0xFFDC, 0x11D4, 0xBD, 0x41, seq![0x00u8, 0x80u8, 0xC7u8, 0x3Cu8, 0x88u8, 0x81u8])
}

/// The file of `fv` as a traditional SMM violation, where it is one.
pub open spec fn smm_item<'a>(fv: &'a FirmwareVolume, file: &'a FirmwareFile) -> Seq<ValidationKind<'a>> {
    if is_traditional_smm_type(file.file_type@) {
        seq![ValidationKind::Fv(FvValidationKind::UsesTraditionalSmm { file, fv })]
    } else {
        seq![]
    }
}

/// The file of `fv` as a combined-driver violation, where it is one.
pub open spec fn combined_item<'a>(fv: &'a FirmwareVolume, file: &'a FirmwareFile) -> Seq<ValidationKind<'a>> {
    if is_combined_driver_type(file.file_type@) {
        seq![ValidationKind::Fv(FvValidationKind::CombinedDriversPresent { file, fv })]
    } else {
        seq![]
    }
}

/// The file of `fv` as an Apriori-file violation, where it is one.
pub open spec fn apriori_item<'a>(fv: &'a FirmwareVolume, file: &'a FirmwareFile) -> Seq<ValidationKind<'a>> {
    if file.name@ == pei_apriori_name() || file.name@ == apriori_name() {
        seq![ValidationKind::Fv(FvValidationKind::ProhibitedAprioriFile { file, fv })]
    } else {
        seq![]
    }
}

/// The violations of a section of an eligible file: LZMA compression first, then the
/// alignment of a PE32 image (64 KiB for ARM64 runtime drivers, else a non-zero multiple
/// of the page size).
pub open spec fn section_item<'a>(
    fv: &'a FirmwareVolume,
    file: &'a FirmwareFile,
    section: &'a FirmwareSection,
) -> Seq<ValidationKind<'a>> {
    let lzma = if has_prefix(section.compression_type@, "LZMA "@) {
        seq![ValidationKind::Fv(FvValidationKind::LzmaCompressedSections { fv, file, section })]
    } else {
        seq![]
    };
    let alignment = if section.section_type@ == "Pe32"@ {
        match section.pe_info {
            Some(pe) => if pe.machine == COFF_MACHINE_ARM64 && pe.subsystem
                == IMAGE_SUBSYSTEM_EFI_RUNTIME_DRIVER && (pe.section_alignment as usize)
                % FV_ARM64_RUNTIME_DRIVER_ALIGNMENT != 0 {
                seq![
                    ValidationKind::Fv(
                        FvValidationKind::InvalidSectionAlignment {
                            fv,
                            file,
                            section,
                            required_alignment: FV_ARM64_RUNTIME_DRIVER_ALIGNMENT,
                        },
                    ),
                ]
            } else if pe.section_alignment == 0 || (pe.section_alignment as usize) % (
            UEFI_PAGE_SIZE as usize) != 0 {
                seq![
                    ValidationKind::Fv(
                        FvValidationKind::InvalidSectionAlignment {
                            fv,
                            file,
                            section,
                            required_alignment: UEFI_PAGE_SIZE as usize,
                        },
                    ),
                ]
            } else {
                seq![]
            },
            None => seq![],
        }
    } else {
        seq![]
    };
    lzma + alignment
}

/// The section violations of one file: those of each section, for eligible module types.
pub open spec fn file_sections_item<'a>(fv: &'a FirmwareVolume, file: &'a FirmwareFile) -> Seq<
    ValidationKind<'a>,
> {
    if is_eligible_module_type(file.file_type@) {
        gather_all(file.sections@, |s: FirmwareSection| section_item(fv, file, &s))
    } else {
        seq![]
    }
}

/// Traditional SMM violations of one firmware volume.
pub open spec fn smm_fv<'a>(fv: &'a FirmwareVolume) -> Seq<ValidationKind<'a>> {
    gather_all(fv.files@, |file: FirmwareFile| smm_item(fv, &file))
}

/// Combined-driver violations of one firmware volume.
pub open spec fn combined_fv<'a>(fv: &'a FirmwareVolume) -> Seq<ValidationKind<'a>> {
    gather_all(fv.files@, |file: FirmwareFile| combined_item(fv, &file))
}

/// Apriori-file violations of one firmware volume.
pub open spec fn apriori_fv<'a>(fv: &'a FirmwareVolume) -> Seq<ValidationKind<'a>> {
    gather_all(fv.files@, |file: FirmwareFile| apriori_item(fv, &file))
}

/// Section violations of one firmware volume.
pub open spec fn sections_fv<'a>(fv: &'a FirmwareVolume) -> Seq<ValidationKind<'a>> {
    gather_all(fv.files@, |file: FirmwareFile| file_sections_item(fv, &file))
}

/// Violations of "no traditional SMM modules".
pub open spec fn smm_violations<'a>(fvs: Seq<FirmwareVolume>) -> Seq<ValidationKind<'a>> {
    gather_all(fvs, |fv: FirmwareVolume| smm_fv(&fv))
}

/// Violations of "no combined drivers".
pub open spec fn combined_violations<'a>(fvs: Seq<FirmwareVolume>) -> Seq<ValidationKind<'a>> {
    gather_all(fvs, |fv: FirmwareVolume| combined_fv(&fv))
}

/// Violations of "no Apriori file".
pub open spec fn apriori_violations<'a>(fvs: Seq<FirmwareVolume>) -> Seq<ValidationKind<'a>> {
    gather_all(fvs, |fv: FirmwareVolume| apriori_fv(&fv))
}

/// Violations of the section rules (no LZMA, aligned PE images).
pub open spec fn section_violations<'a>(fvs: Seq<FirmwareVolume>) -> Seq<ValidationKind<'a>> {
    gather_all(fvs, |fv: FirmwareVolume| sections_fv(&fv))
}

/// Every violation that the firmware volume checks report, in the order in which they run.
pub open spec fn fv_violations<'a>(fvs: Seq<FirmwareVolume>) -> Seq<ValidationKind<'a>> {
    smm_violations::<'a>(fvs) + combined_violations::<'a>(fvs) + section_violations::<'a>(fvs)
        + apriori_violations::<'a>(fvs)
}

/// Summary lines naming the first `n` firmware volumes.
pub open spec fn fv_summary_lines(fvs: Seq<FirmwareVolume>, n: int) -> Seq<char>
    decreases n,
{
    if n <= 0 {
        seq![]
    } else {
        fv_summary_lines(fvs, n - 1) + "\n    "@ + fvs[n - 1].fv_name@
    }
}

/// The firmware volume summary: the total and the name of each volume; or a note that
/// there is nothing to validate.
pub open spec fn fv_summary(fvs: Seq<FirmwareVolume>) -> Seq<char> {
    if fvs.len() == 0 {
        "No FVs to validate."@
    } else {
        "FV Summary:\n  Total FVs: "@ + dec(fvs.len()) + fv_summary_lines(fvs, fvs.len() as int)
    }
}

fn is_traditional_smm_file_type(t: &str) -> (r: bool)
    ensures
        r == is_traditional_smm_type(t@),
{
    str_eq(t, "CombinedPeimDriver") || str_eq(t, "Mm") || str_eq(t, "CombinedMmDxe") || str_eq(
        t,
        "MmCore",
    )
}

fn is_combined_driver_file_type(t: &str) -> (r: bool)
    ensures
        r == is_combined_driver_type(t@),
{
    str_eq(t, "CombinedPeimDriver") || str_eq(t, "CombinedMmDxe")
}

fn is_eligible_module_file_type(t: &str) -> (r: bool)
    ensures
        r == is_eligible_module_type(t@),
{
    str_eq(t, "Driver") || str_eq(t, "Application") || str_eq(t, "DxeCore")
}

impl<'a> FvValidator<'a> {
    /// The firmware volumes being validated.
    pub closed spec fn fvs(&self) -> Seq<FirmwareVolume> {
        self.fv_list@
    }

    /// A validator of `fv_list`.
    pub fn new(fv_list: &'a Vec<FirmwareVolume>) -> (r: Self)
        ensures
            r.fvs() == fv_list@,
    {
        FvValidator { fv_list }
    }

    /// Reports every file whose type is a traditional SMM type (`CombinedPeimDriver`, `Mm`,
    /// `CombinedMmDxe` or `MmCore`).
    pub fn validate_fv_for_traditional_smm(&self) -> (r: ValidationResult<'a>)
        ensures
            r matches Ok(rep) && rep@ == smm_violations::<'a>(self.fvs()) && rep.summaries_view().len() == 0,
    {
        let fvs: &'a Vec<FirmwareVolume> = self.fv_list;
        let mut report = ValidationReport::new();
        let mut i: usize = 0;
        while i < fvs.len()
            invariant
                report.summaries_view().len() == 0,
                i <= fvs@.len(),
                report@ == gather(fvs@, |fv: FirmwareVolume| smm_fv(&fv), i as int),
            decreases fvs@.len() - i,
        {
            let fv: &'a FirmwareVolume = &fvs[i];
            let ghost before = report@;
            let mut j: usize = 0;
            while j < fv.files.len()
                invariant
                    report.summaries_view().len() == 0,
                    j <= fv.files@.len(),
                    report@ == before + gather(fv.files@, |file: FirmwareFile| smm_item(fv, &file), j as int),
                decreases fv.files@.len() - j,
            {
                let file: &'a FirmwareFile = &fv.files[j];
                if is_traditional_smm_file_type(file.file_type.as_str()) {
                    report.add_violation(ValidationKind::Fv(FvValidationKind::UsesTraditionalSmm { file, fv }));
                }
                assert(report@ =~= before + gather(fv.files@, |file: FirmwareFile| smm_item(fv, &file), j + 1));
                j += 1;
            }
            i += 1;
        }
        Ok(report)
    }

    /// Reports every file whose type is a combined driver type (`CombinedPeimDriver` or
    /// `CombinedMmDxe`).
    pub fn validate_fv_for_combined_drivers(&self) -> (r: ValidationResult<'a>)
        ensures
            r matches Ok(rep) && rep@ == combined_violations::<'a>(self.fvs()) && rep.summaries_view().len() == 0,
    {
        let fvs: &'a Vec<FirmwareVolume> = self.fv_list;
        let mut report = ValidationReport::new();
        let mut i: usize = 0;
        while i < fvs.len()
            invariant
                report.summaries_view().len() == 0,
                i <= fvs@.len(),
                report@ == gather(fvs@, |fv: FirmwareVolume| combined_fv(&fv), i as int),
            decreases fvs@.len() - i,
        {
            let fv: &'a FirmwareVolume = &fvs[i];
            let ghost before = report@;
            let mut j: usize = 0;
            while j < fv.files.len()
                invariant
                    report.summaries_view().len() == 0,
                    j <= fv.files@.len(),
                    report@ == before + gather(fv.files@, |file: FirmwareFile| combined_item(fv, &file), j as int),
                decreases fv.files@.len() - j,
            {
                let file: &'a FirmwareFile = &fv.files[j];
                if is_combined_driver_file_type(file.file_type.as_str()) {
                    report.add_violation(ValidationKind::Fv(FvValidationKind::CombinedDriversPresent { file, fv }));
                }
                assert(report@ =~= before + gather(fv.files@, |file: FirmwareFile| combined_item(fv, &file), j + 1));
                j += 1;
            }
            i += 1;
        }
        Ok(report)
    }

    /// Reports every file named by an Apriori GUID (the PEI Apriori file
    /// `1b45cc0a-156a-428a-af62-49864da0e6e6` or the DXE Apriori file
    /// `fc510ee7-ffdc-11d4-bd41-0080c73c8881`).
    pub fn validate_fv_for_apriori_file(&self) -> (r: ValidationResult<'a>)
        ensures
            r matches Ok(rep) && rep@ == apriori_violations::<'a>(self.fvs()) && rep.summaries_view().len() == 0,
    {
        let fvs: &'a Vec<FirmwareVolume> = self.fv_list;
        let mut report = ValidationReport::new();
        let pei_node: [u8; 6] = [0x49, 0x86, 0x4D, 0xA0, 0xE6, 0xE6];
        let node: [u8; 6] = [0x00, 0x80, 0xC7, 0x3C, 0x88, 0x81];
        assert(pei_node@ =~= seq![0x49u8, 0x86u8, 0x4Du8, 0xA0u8, 0xE6u8, 0xE6u8]);
        assert(node@ =~= seq![0x00u8, 0x80u8, 0xC7u8, 0x3Cu8, 0x88u8, 0x81u8]);
        let pei_apriori_file_name_guid = format_guid(0x1B45CC0A, 0x156A, 0x428A, 0xAF, 0x62, &pei_node);
        let apriori_file_name_guid = format_guid(0xFC510EE7, 0xFFDC, 0x11D4, 0xBD, 0x41, &node);
        let mut i: usize = 0;
        while i < fvs.len()
            invariant
                report.summaries_view().len() == 0,
                i <= fvs@.len(),
                pei_apriori_file_name_guid@ == pei_apriori_name(),
                apriori_file_name_guid@ == apriori_name(),
                report@ == gather(fvs@, |fv: FirmwareVolume| apriori_fv(&fv), i as int),
            decreases fvs@.len() - i,
        {
            let fv: &'a FirmwareVolume = &fvs[i];
            let ghost before = report@;
            let mut j: usize = 0;
            while j < fv.files.len()
                invariant
                    report.summaries_view().len() == 0,
                    j <= fv.files@.len(),
                    pei_apriori_file_name_guid@ == pei_apriori_name(),
                    apriori_file_name_guid@ == apriori_name(),
                    report@ == before + gather(fv.files@, |file: FirmwareFile| apriori_item(fv, &file), j as int),
                decreases fv.files@.len() - j,
            {
                let file: &'a FirmwareFile = &fv.files[j];
                if file.name == pei_apriori_file_name_guid || file.name == apriori_file_name_guid {
                    report.add_violation(ValidationKind::Fv(FvValidationKind::ProhibitedAprioriFile { file, fv }));
                }
                assert(report@ =~= before + gather(fv.files@, |file: FirmwareFile| apriori_item(fv, &file), j + 1));
                j += 1;
            }
            i += 1;
        }
        Ok(report)
    }

    /// Validates the sections of files of eligible module types (`Driver`, `Application`,
    /// `DxeCore`): a violation for each LZMA-compressed section, and for each PE32 image
    /// whose section alignment is not a multiple of 64 KiB (ARM64 runtime drivers) or not a
    /// non-zero multiple of the page size (all others).
    pub fn validate_fv_file_sections(&self) -> (r: ValidationResult<'a>)
        ensures
            r matches Ok(rep) && rep@ == section_violations::<'a>(self.fvs()) && rep.summaries_view().len() == 0,
    {
        let fvs: &'a Vec<FirmwareVolume> = self.fv_list;
        let mut report = ValidationReport::new();
        let mut i: usize = 0;
        while i < fvs.len()
            invariant
                report.summaries_view().len() == 0,
                i <= fvs@.len(),
                report@ == gather(fvs@, |fv: FirmwareVolume| sections_fv(&fv), i as int),
            decreases fvs@.len() - i,
        {
            let fv: &'a FirmwareVolume = &fvs[i];
            let ghost before = report@;
            let mut j: usize = 0;
            while j < fv.files.len()
                invariant
                    report.summaries_view().len() == 0,
                    j <= fv.files@.len(),
                    report@ == before + gather(fv.files@, |file: FirmwareFile| file_sections_item(fv, &file), j as int),
                decreases fv.files@.len() - j,
            {
                let file: &'a FirmwareFile = &fv.files[j];
                let ghost before_file = report@;
                // only the sections of eligible module types are checked
                if is_eligible_module_file_type(file.file_type.as_str()) {
                    let mut k: usize = 0;
                    while k < file.sections.len()
                        invariant
                            report.summaries_view().len() == 0,
                            k <= file.sections@.len(),
                            report@ == before_file + gather(
                                file.sections@,
                                |s: FirmwareSection| section_item(fv, file, &s),
                                k as int,
                            ),
                        decreases file.sections@.len() - k,
                    {
                        let section: &'a FirmwareSection = &file.sections[k];
                        let ghost before_section = report@;
                        if starts_with(section.compression_type.as_str(), "LZMA ") {
                            report.add_violation(
                                ValidationKind::Fv(
                                    FvValidationKind::LzmaCompressedSections { fv, file, section },
                                ),
                            );
                        }
                        if str_eq(section.section_type.as_str(), "Pe32") {
                            if let Some(pe_header_info) = &section.pe_info {
                                // ARM64 runtime drivers need 64 KiB alignment
                                if pe_header_info.machine == COFF_MACHINE_ARM64
                                    && pe_header_info.subsystem == IMAGE_SUBSYSTEM_EFI_RUNTIME_DRIVER
                                    && (pe_header_info.section_alignment as usize)
                                    % FV_ARM64_RUNTIME_DRIVER_ALIGNMENT != 0 {
                                    report.add_violation(
                                        ValidationKind::Fv(
                                            FvValidationKind::InvalidSectionAlignment {
                                                fv,
                                                file,
                                                section,
                                                required_alignment: FV_ARM64_RUNTIME_DRIVER_ALIGNMENT,
                                            },
                                        ),
                                    );
                                } else if pe_header_info.section_alignment == 0 || (
                                pe_header_info.section_alignment as usize) % (UEFI_PAGE_SIZE as usize)
                                    != 0 {
                                    // other images only need page alignment
                                    report.add_violation(
                                        ValidationKind::Fv(
                                            FvValidationKind::InvalidSectionAlignment {
                                                fv,
                                                file,
                                                section,
                                                required_alignment: UEFI_PAGE_SIZE as usize,
                                            },
                                        ),
                                    );
                                }
                            }
                        }
                        assert(report@ =~= before_section + section_item(fv, file, section));
                        assert(report@ =~= before_file + gather(
                            file.sections@,
                            |s: FirmwareSection| section_item(fv, file, &s),
                            k + 1,
                        ));
                        k += 1;
                    }
                    assert(file.sections@.take(file.sections@.len() as int) =~= file.sections@);
                }
                assert(report@ =~= before + gather(fv.files@, |file: FirmwareFile| file_sections_item(fv, &file), j + 1));
                j += 1;
            }
            i += 1;
        }
        Ok(report)
    }

    /// Runs every firmware volume check, in order, and gathers their violations in one
    /// report.
    pub fn validate_all(&self) -> (r: ValidationResult<'a>)
        ensures
            self.fvs().len() == 0 ==> r == Err::<ValidationReport<'a>, ValidationAppError>(
                ValidationAppError::EmptyFvList,
            ),
            self.fvs().len() != 0 ==> (r matches Ok(rep) && rep@ == fv_violations::<'a>(self.fvs()) && rep.summaries_view().len() == 0),
    {
        let mut report = ValidationReport::new();
        if self.fv_list.len() == 0 {
            return Err(ValidationAppError::EmptyFvList);
        }
        report.append_report(self.validate_fv_for_traditional_smm()?);
        report.append_report(self.validate_fv_for_combined_drivers()?);
        report.append_report(self.validate_fv_file_sections()?);
        report.append_report(self.validate_fv_for_apriori_file()?);
        Ok(report)
    }
}

} // verus!

verus! {

impl<'a> Validator for FvValidator<'a> {
    open spec fn can_validate(&self) -> bool {
        true
    }

    /// Runs every firmware volume check (see `validate_all`).
    fn validate(&self) -> (r: ValidationResult<'_>)
        ensures
            self.fvs().len() == 0 ==> r == Err::<ValidationReport<'_>, ValidationAppError>(
                ValidationAppError::EmptyFvList,
            ),
            self.fvs().len() != 0 ==> (r matches Ok(rep) && rep@ == fv_violations::<'a>(self.fvs()) && rep.summaries_view().len() == 0),
    {
        self.validate_all()
    }

    /// Counts and names the firmware volumes.
    fn summary(&self) -> (r: String)
        ensures
            r@ == fv_summary(self.fvs()),
    {
        let fvs = self.fv_list;
        if fvs.len() == 0 {
            return String::from_str("No FVs to validate.");
        }
        let mut summary = String::from_str("FV Summary:\n  Total FVs: ");
        push_dec(&mut summary, fvs.len() as u64);
        let mut i: usize = 0;
        while i < fvs.len()
            invariant
                i <= fvs@.len(),
                summary@ == "FV Summary:\n  Total FVs: "@ + dec(fvs@.len()) + fv_summary_lines(fvs@, i as int),
            decreases fvs@.len() - i,
        {
            push_str(&mut summary, "\n    ");
            push_str(&mut summary, fvs[i].fv_name.as_str());
            assert(summary@ =~= "FV Summary:\n  Total FVs: "@ + dec(fvs@.len()) + fv_summary_lines(fvs@, i + 1));
            i += 1;
        }
        summary
    }
}

} // verus!
