//! Validation reports, the application's errors, and the interface that every
//! validator offers.
use crate::kind::ValidationKind;
use vstd::prelude::*;

verus! {

/// Errors of the validation application.
#[derive(Debug, Clone, PartialEq, Eq)]
pub enum ValidationAppError {
    /// A required command-line argument is missing; it names the argument.
    InvalidCommandLine(String),
    /// The capture file does not exist; it names the file.
    JSONFileNotFound(String),
    /// The capture file could not be read; file name and reason.
    JSONFileContentError(String, String),
    /// The capture file does not hold a capture; file name and reason.
    JSONSerializationFailed(String, String),
    /// There is no HOB list to validate.
    EmptyHobList,
    /// There is no firmware volume to validate.
    EmptyFvList,
    /// The capture violates this many requirements.
    ValidationErrors(u32),
}

/// The violations found by a validation, in the order in which they were found, and the
/// summaries of what was validated.
#[derive(Debug)]
pub struct ValidationReport<'a> {
    violations: Vec<ValidationKind<'a>>,
    summaries: Vec<String>,
}

/// The outcome of a validator: a report, or the reason why nothing could be validated.
pub type ValidationResult<'a> = Result<ValidationReport<'a>, ValidationAppError>;

impl<'a> View for ValidationReport<'a> {
    type V = Seq<ValidationKind<'a>>;

    /// The violations of the report, in order.
    closed spec fn view(&self) -> Seq<ValidationKind<'a>> {
        self.violations@
    }
}

impl<'a> ValidationReport<'a> {
    /// The summaries of the report, in order.
    pub closed spec fn summaries_view(&self) -> Seq<Seq<char>> {
        self.summaries@.map_values(|s: String| s@)
    }

    /// An empty report.
    pub fn new() -> (r: Self)
        ensures
            r@ == Seq::<ValidationKind<'a>>::empty(),
            r.summaries_view() == Seq::<Seq<char>>::empty(),
    {
        let r = ValidationReport { violations: Vec::new(), summaries: Vec::new() };
        assert(r.summaries_view() =~= Seq::<Seq<char>>::empty());
        r
    }

    /// Records one more violation.
    pub fn add_violation(&mut self, kind: ValidationKind<'a>)
        ensures
            final(self)@ == old(self)@.push(kind),
            final(self).summaries_view() == old(self).summaries_view(),
    {
        self.violations.push(kind);
    }

    /// Records a summary of what was validated.
    pub fn add_summary(&mut self, summary: String)
        ensures
            final(self)@ == old(self)@,
            final(self).summaries_view() == old(self).summaries_view().push(summary@),
    {
        let ghost before = self.summaries@;
        self.summaries.push(summary);
        assert(self.summaries@.map_values(|s: String| s@) =~= before.map_values(|s: String| s@).push(
            summary@,
        ));
    }

    /// Moves the violations and summaries of `other` behind those of this report.
    pub fn append_report(&mut self, other: ValidationReport<'a>)
        ensures
            final(self)@ == old(self)@ + other@,
            final(self).summaries_view() == old(self).summaries_view() + other.summaries_view(),
    {
        let ghost before = self.summaries@;
        let ghost other_summaries = other.summaries@;
        let mut other = other;
        self.violations.append(&mut other.violations);
        self.summaries.append(&mut other.summaries);
        assert(self.summaries@.map_values(|s: String| s@) =~= before.map_values(|s: String| s@)
            + other_summaries.map_values(|s: String| s@));
    }

    /// Number of violations recorded.
    pub fn violation_count(&self) -> (r: usize)
        ensures
            r == self@.len(),
    {
        self.violations.len()
    }

    /// The violations recorded, in order.
    pub fn violations(&self) -> (r: &Vec<ValidationKind<'a>>)
        ensures
            r@ == self@,
    {
        &self.violations
    }

    /// The summaries recorded, in order.
    pub fn summaries(&self) -> (r: &Vec<String>)
        ensures
            r@.map_values(|s: String| s@) == self.summaries_view(),
    {
        &self.summaries
    }
}

/// The verdict of a finished report: the number of violations is taken as a `u32`
/// (truncated as `as` does); success where that number is zero, else an error carrying it.
pub fn report_outcome(report: &ValidationReport) -> (r: Result<(), ValidationAppError>)
    ensures
        report@.len() as u32 == 0 ==> r == Ok::<(), ValidationAppError>(()),
        report@.len() as u32 != 0 ==> r == Err::<(), ValidationAppError>(
            ValidationAppError::ValidationErrors(report@.len() as u32),
        ),
{
    let count = report.violation_count() as u32;
    if count != 0 {
        return Err(ValidationAppError::ValidationErrors(count));
    }
    Ok(())
}

/// What every validator offers: the validation of what it holds, and a summary of it.
pub trait Validator {
    /// What the checks need of the data held (such as ranges that fit the address space).
    spec fn can_validate(&self) -> bool;

    /// Runs every check; an error where there is nothing to validate.
    fn validate(&self) -> ValidationResult<'_>
        requires
            self.can_validate(),
    ;

    /// A text that says what is being validated.
    fn summary(&self) -> String;
}

} // verus!
