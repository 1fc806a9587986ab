//! The validation application: it holds the command line and the captured data, and runs
//! the HOB and firmware volume validators over the data.
use crate::fv::{fv_summary, fv_violations, FvValidator};
use crate::hob::{
    bins_bytes, first_bins, hob_list_wf, hob_summary, hob_violations,
    memory_type_info_resources, HobValidator,
};
use crate::kind::ValidationKind;
use crate::model::{hob_list_ranges_fit, hob_ranges_fit, CaptureData, Hob, UEFI_PAGE_SIZE};
use crate::report::{report_outcome, ValidationAppError, ValidationReport, Validator};
use vstd::prelude::*;

verus! {

/// The command line of the validator.
#[derive(Clone, Debug, PartialEq, Eq)]
pub struct CommandLine {
    /// The capture file to validate.
    pub filename: Option<String>,
}

/// The validator application.
pub struct ValidationApp {
    args: CommandLine,
    data: Option<CaptureData>,
}

/// The HOB violations that end up in the application's report: none when the HOB list is
/// empty (that validator then has nothing to report).
pub open spec fn app_hob_violations<'a>(data: CaptureData) -> Seq<ValidationKind<'a>> {
    if data.hob_list@.len() == 0 {
        seq![]
    } else {
        hob_violations::<'a>(data.hob_list@)
    }
}

/// The firmware volume violations that end up in the application's report: none when there
/// is no firmware volume.
pub open spec fn app_fv_violations<'a>(data: CaptureData) -> Seq<ValidationKind<'a>> {
    if data.fv_list@.len() == 0 {
        seq![]
    } else {
        fv_violations::<'a>(data.fv_list@)
    }
}

impl ValidationApp {
    /// The command line held.
    pub closed spec fn spec_args(&self) -> CommandLine {
        self.args
    }

    /// The captured data held, if any.
    pub closed spec fn spec_data(&self) -> Option<CaptureData> {
        self.data
    }

    /// What the validation needs of the data held.
    pub open spec fn data_wf(&self) -> bool {
        match self.spec_data() {
            Some(d) => hob_list_wf(d.hob_list@),
            None => true,
        }
    }

    /// An application for the given command line, with no data yet.
    pub fn new(args: CommandLine) -> (r: Self)
        ensures
            r.spec_args() == args,
            r.spec_data() is None,
    {
        ValidationApp { args, data: None }
    }

    /// An application that holds the given data (and no file name).
    pub fn new_with_data(data: Option<CaptureData>) -> (r: Self)
        ensures
            r.spec_args().filename is None,
            r.spec_data() == data,
    {
        ValidationApp { args: CommandLine { filename: None }, data }
    }

    /// The capture file named on the command line; an error naming the missing argument
    /// where there is none.
    pub fn filename(&self) -> (r: Result<String, ValidationAppError>)
        ensures
            match self.spec_args().filename {
                Some(f) => r == Ok::<String, ValidationAppError>(f),
                None => (r matches Err(ValidationAppError::InvalidCommandLine(arg)) && arg@
                    == "'filename'"@),
            },
    {
        match &self.args.filename {
            Some(f) => Ok(f.clone()),
            None => Err(ValidationAppError::InvalidCommandLine(String::from_str("'filename'"))),
        }
    }

    /// The error for a capture file that could not be read: not found, or another reason.
    pub fn file_read_error(filename: String, not_found: bool, reason: String) -> (r:
        ValidationAppError)
        ensures
            not_found ==> r == ValidationAppError::JSONFileNotFound(filename),
            !not_found ==> r == ValidationAppError::JSONFileContentError(filename, reason),
    {
        if not_found {
            ValidationAppError::JSONFileNotFound(filename)
        } else {
            ValidationAppError::JSONFileContentError(filename, reason)
        }
    }

    /// The error for a capture file whose content is not a capture.
    pub fn json_parse_error(filename: String, reason: String) -> (r: ValidationAppError)
        ensures
            r == ValidationAppError::JSONSerializationFailed(filename, reason),
    {
        ValidationAppError::JSONSerializationFailed(filename, reason)
    }

    /// Stores the captured data to validate.
    pub fn set_data(&mut self, data: CaptureData)
        ensures
            final(self).spec_args() == old(self).spec_args(),
            final(self).spec_data() == Some(data),
    {
        self.data = Some(data);
    }

    /// The HOB list of the data held, if any.
    pub fn hob_list(&self) -> (r: Option<&Vec<Hob>>)
        ensures
            match self.spec_data() {
                Some(d) => r == Some(&d.hob_list),
                None => r is None,
            },
    {
        match &self.data {
            Some(data) => Some(&data.hob_list),
            None => None,
        }
    }

    /// Whether captured data is held.
    pub fn has_data(&self) -> (r: bool)
        ensures
            r == self.spec_data() is Some,
    {
        self.data.is_some()
    }

    /// The report of a validation: an error where no data is held; else the summaries of
    /// the HOB list and of the firmware volumes, and the violations that their validators
    /// found (a validator with nothing to validate contributes none).
    pub fn validation_report(&self) -> (r: Result<ValidationReport<'_>, ValidationAppError>)
        requires
            self.data_wf(),
        ensures
            self.spec_data() is None ==> r == Err::<ValidationReport<'_>, ValidationAppError>(
                ValidationAppError::EmptyHobList,
            ),
            self.spec_data() matches Some(d) ==> (r matches Ok(rep) && rep@ == app_hob_violations(d)
                + app_fv_violations(d) && rep.summaries_view() == seq![
                hob_summary(d.hob_list@),
                fv_summary(d.fv_list@),
            ]),
    {
        let Some(data) = &self.data else {
            return Err(ValidationAppError::EmptyHobList);
        };
        let mut validation_report = ValidationReport::new();
        let hob_validator = HobValidator::new(&data.hob_list);
        validation_report.add_summary(hob_validator.summary());
        if let Ok(report) = hob_validator.validate_all() {
            validation_report.append_report(report);
        }
        let fv_validator = FvValidator::new(&data.fv_list);
        validation_report.add_summary(fv_validator.summary());
        if let Ok(report) = fv_validator.validate_all() {
            validation_report.append_report(report);
        }
        assert(validation_report.summaries_view() =~= seq![
            hob_summary(data.hob_list@),
            fv_summary(data.fv_list@),
        ]);
        Ok(validation_report)
    }

    /// Validates the captured data: an error where no data is held; else the number of
    /// violations, taken as a `u32`: success where it is zero, else an error carrying it.
    pub fn validate(&self) -> (r: Result<(), ValidationAppError>)
        requires
            self.data_wf(),
        ensures
            self.spec_data() is None ==> r == Err::<(), ValidationAppError>(
                ValidationAppError::EmptyHobList,
            ),
            self.spec_data() matches Some(d) ==> ({
                let n = (app_hob_violations(d) + app_fv_violations(d)).len();
                &&& n as u32 == 0 ==> r == Ok::<(), ValidationAppError>(())
                &&& n as u32 != 0 ==> r == Err::<(), ValidationAppError>(
                    ValidationAppError::ValidationErrors(n as u32),
                )
            }),
    {
        let report = self.validation_report()?;
        report_outcome(&report)
    }
}

/// Whether a HOB list meets what the checks need of it: every range ends inside the address
/// space, and the bins of the first Memory Type Information GUID HOB fit in 64 bits where
/// they get summed.
pub fn hob_list_is_well_formed(hobs: &Vec<Hob>) -> (r: bool)
    ensures
        r == hob_list_wf(hobs@),
{
    let mut i: usize = 0;
    while i < hobs.len()
        invariant
            i <= hobs@.len(),
            forall|j: int| 0 <= j < i ==> #[trigger] hob_ranges_fit(hobs@[j]),
        decreases hobs@.len() - i,
    {
        let fits = match &hobs[i] {
            Hob::MemoryAllocation { alloc_descriptor } => alloc_descriptor.memory_base_address.checked_add(
                alloc_descriptor.memory_length,
            ).is_some(),
            Hob::ResourceDescriptor(r) => r.physical_start.checked_add(r.resource_length).is_some(),
            Hob::ResourceDescriptorV2 { v1, .. } => v1.physical_start.checked_add(
                v1.resource_length,
            ).is_some(),
            Hob::FirmwareVolume { fv } => fv.base_address.checked_add(fv.length).is_some(),
            _ => true,
        };
        if !fits {
            assert(!hob_ranges_fit(hobs@[i as int]));
            return false;
        }
        i += 1;
    }
    assert(hob_list_ranges_fit(hobs@));
    let validator = HobValidator::new(hobs);
    let mti = validator.memory_type_info_resource_hobs();
    if mti.len() != 1 {
        return true;
    }
    let entries = match validator.memory_type_info_entries() {
        Some(e) => e,
        None => {
            return true;
        },
    };
    let ghost e = entries@;
    let mut total: u64 = 0;
    let mut k: usize = 0;
    while k < entries.len()
        invariant
            e == entries@,
            k <= e.len(),
            total == bins_bytes(e.take(k as int)),
            memory_type_info_resources::<'static>(hobs@).len() == 1,
            first_bins(hobs@) == Some(e),
        decreases e.len() - k,
    {
        assert(e.take(k + 1).drop_last() =~= e.take(k as int));
        let bin: u64 = entries[k].number_of_pages as u64 * UEFI_PAGE_SIZE;
        assert(bins_bytes(e.take(k + 1)) == total + bin);
        match total.checked_add(bin) {
            Some(t) => {
                total = t;
            },
            None => {
                proof {
                    lemma_bins_bytes_prefix_le(e, k + 1);
                }
                return false;
            },
        }
        k += 1;
    }
    assert(e.take(e.len() as int) =~= e);
    true
}

/// The bins of a prefix never weigh more than all the bins.
proof fn lemma_bins_bytes_prefix_le(e: Seq<crate::model::MemoryTypeInfoEntry>, k: int)
    requires
        0 <= k <= e.len(),
    ensures
        bins_bytes(e.take(k)) <= bins_bytes(e),
    decreases e.len() - k,
{
    if k < e.len() {
        lemma_bins_bytes_prefix_le(e, k + 1);
        assert(e.take(k + 1).drop_last() =~= e.take(k));
    } else {
        assert(e.take(k) =~= e);
    }
}

} // verus!
