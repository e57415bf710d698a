//! Error taxonomy for probes and field extraction.

use vstd::prelude::*;

verus! {

/// Outcome of extracting one typed field from a heterogeneous record.
/// Never fatal to a probe: callers substitute a default.
#[derive(Clone, Copy, Debug, PartialEq, Eq, Structural)]
pub enum ExtractError {
    /// The key is absent from the record.
    KeyMissing,
    /// The key is present but its tagged value is not convertible to the
    /// requested type.
    TypeMismatch,
}

/// A probe-fatal error: the primary backing source could not be opened or
/// queried at all, or it returned no data where one row is required.
#[derive(Clone, Copy, Debug, PartialEq, Eq, Structural)]
pub enum ProbeError {
    /// The backing session, required key, or subprocess could not be opened.
    SourceUnavailable,
    /// The source was queried but held no row for a single-row probe.
    NoData,
    /// A field the probe requires outright was absent or mistyped.
    MissingField,
}

/// An abrupt termination of one probe's unit of work, as observed by the
/// orchestrator when joining it. Carries no payload: the only policy is to
/// downgrade the category to absence.
#[derive(Clone, Copy, Debug, PartialEq, Eq, Structural)]
pub struct JoinFault {
    /// Marks the fault as observed; a unit either completed or faulted.
    pub faulted: bool,
}

} // verus!
