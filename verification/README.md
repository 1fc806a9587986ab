# dxe_readiness_validator

Checks a JSON capture of a platform's pre-DXE state (its HOB list and its
firmware volumes) against the requirements of the Patina DXE core, and reports
each violation found.

The checks are written in Verus: every check states in its contract exactly
which violations it reports, as a function of the captured data, and Verus
proves the code against it.

## Layout

- `src/model.rs` – the captured data as plain values, and address intervals.
- `src/text.rs`, `src/guid.rs`, `src/json.rs` – text building, GUID rendering and
  recognition, JSON rendering of descriptors.
- `src/kind.rs` – the kinds of violation, their headers, guidance and table rows.
- `src/report.rs` – the validation report, the error type and the `Validator` trait.
- `src/merge.rs` – pairwise overlap search, sorting and merging of address spans.
- `src/hob.rs`, `src/fv.rs` – the HOB list and firmware volume checks.
- `src/validate.rs` – the application state and the decision of the overall outcome.
- `src/laws.rs` – properties of the checks that span several functions.
- `src/counts.rs` – how many violations each check reports, counted over the captured data.
- `app/` – the command line, file reading, JSON parsing and printing.
- `tests/` – the test suite.
