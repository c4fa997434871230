//! Error taxonomy of the worker protocol, outcome classification, and the
//! process exit codes that report each outcome to the parent.

use vstd::prelude::*;

verus! {

/// Everything that can go wrong in one worker invocation, as the parent
/// sees it. Every variant but `CrashFault` is a typed error recovered up to
/// the top-level handler; `CrashFault` stands for an uncontrolled runtime
/// fault intercepted at the process boundary.
#[derive(Clone, Copy, Debug, PartialEq, Eq, Structural)]
pub enum WorkerError {
    /// A launch argument is missing or malformed.
    ArgumentError,
    /// The required base-directory environment configuration is absent.
    ConfigError,
    /// Opening, reading or writing the work item's file failed.
    IoError,
    /// The parameter record does not match the expected, shape-resolved schema.
    DeserializationError,
    /// The sector size is outside the supported enumeration.
    UnrecognizedShapeError,
    /// The proving engine reported a typed computation failure.
    ProvingError,
    /// An uncontrolled runtime fault, not a typed error.
    CrashFault,
}

/// How one invocation ended, as classified by the top-level handler.
#[derive(Clone, Copy, Debug, PartialEq, Eq, Structural)]
pub enum Outcome {
    /// The phase ran and its result was persisted.
    Success,
    /// A typed error was recovered and reported.
    ReportedError { error: WorkerError },
    /// An uncontrolled fault ended the process.
    Crashed,
}

/// Exit code of a clean success.
pub const EXIT_CLEAN: u8 = 0;

/// Exit code of a reported, typed error.
pub const EXIT_REPORTED: u8 = 255;

/// Exit code of an uncontrolled crash.
pub const EXIT_CRASHED: u8 = 254;

/// The outcome that reporting a given error kind produces: a crash fault
/// ends in the crash outcome, every typed error in the reported one.
pub open spec fn outcome_of_error(e: WorkerError) -> Outcome {
    if e == WorkerError::CrashFault {
        Outcome::Crashed
    } else {
        Outcome::ReportedError { error: e }
    }
}

/// The exit code reporting each outcome.
pub open spec fn spec_exit_code(o: Outcome) -> u8 {
    match o {
        Outcome::Success => EXIT_CLEAN,
        Outcome::ReportedError { .. } => EXIT_REPORTED,
        Outcome::Crashed => EXIT_CRASHED,
    }
}

/// Select the process exit code for an outcome: `0` for clean success, one
/// distinct non-zero code for a reported error, a second distinct non-zero
/// code for a crash.
pub fn exit_code(o: &Outcome) -> (c: u8)
    ensures
        c == spec_exit_code(*o),
{
    match o {
        Outcome::Success => EXIT_CLEAN,
        Outcome::ReportedError { .. } => EXIT_REPORTED,
        Outcome::Crashed => EXIT_CRASHED,
    }
}

/// A short, fixed description of each error kind, used when composing the
/// diagnostic written to the work item's file.
pub open spec fn spec_describe(e: WorkerError) -> Seq<char> {
    match e {
        WorkerError::ArgumentError => "malformed or missing launch arguments"@,
        WorkerError::ConfigError => "missing base-directory configuration"@,
        WorkerError::IoError => "cannot read or write the work item file"@,
        WorkerError::DeserializationError => "parameter record does not match the expected schema"@,
        WorkerError::UnrecognizedShapeError => "unrecognized sector shape"@,
        WorkerError::ProvingError => "proving engine reported a failure"@,
        WorkerError::CrashFault => "uncontrolled fault during computation"@,
    }
}

/// Render the fixed description of an error kind.
pub fn describe(e: &WorkerError) -> (r: String)
    ensures
        r@ == spec_describe(*e),
{
    match e {
        WorkerError::ArgumentError => String::from_str("malformed or missing launch arguments"),
        WorkerError::ConfigError => String::from_str("missing base-directory configuration"),
        WorkerError::IoError => String::from_str("cannot read or write the work item file"),
        WorkerError::DeserializationError => String::from_str(
            "parameter record does not match the expected schema",
        ),
        WorkerError::UnrecognizedShapeError => String::from_str("unrecognized sector shape"),
        WorkerError::ProvingError => String::from_str("proving engine reported a failure"),
        WorkerError::CrashFault => String::from_str("uncontrolled fault during computation"),
    }
}

/// One concrete failure at the process boundary: its kind in the error
/// taxonomy, free detail text from whatever reported it, and a symbolized
/// call-stack snapshot where one was captured (empty otherwise).
#[derive(Debug)]
pub struct Failure {
    pub kind: WorkerError,
    pub detail: String,
    pub backtrace: String,
}

/// The mathematical content of a `Failure`: its texts as character
/// sequences.
pub struct FailureModel {
    pub kind: WorkerError,
    pub detail: Seq<char>,
    pub backtrace: Seq<char>,
}

impl View for Failure {
    type V = FailureModel;

    open spec fn view(&self) -> FailureModel {
        FailureModel { kind: self.kind, detail: self.detail@, backtrace: self.backtrace@ }
    }
}

/// The diagnostic written to the work item's file on a failure: one
/// self-contained text naming the error, its detail, and the call-stack
/// snapshot, so the parent can tell a reported failure from a missing
/// answer.
pub open spec fn spec_diagnostic_text(kind: WorkerError, detail: Seq<char>, backtrace: Seq<char>) -> Seq<char> {
    "error: "@ + spec_describe(kind) + ": "@ + detail + "\nbacktrace: "@ + backtrace
}

/// Compose the diagnostic text for a failure.
pub fn diagnostic_text(f: &Failure) -> (r: String)
    ensures
        r@ == spec_diagnostic_text(f.kind, f.detail@, f.backtrace@),
{
    let mut t = String::from_str("error: ");
    let desc = describe(&f.kind);
    t.append(desc.as_str());
    t.append(": ");
    t.append(f.detail.as_str());
    t.append("\nbacktrace: ");
    t.append(f.backtrace.as_str());
    t
}

/// A failure with a given kind and no captured detail, for errors the
/// worker itself raises.
pub fn bare_failure(kind: WorkerError) -> (f: Failure)
    ensures
        f.kind == kind,
        f.detail@ == Seq::<char>::empty(),
        f.backtrace@ == Seq::<char>::empty(),
{
    Failure { kind, detail: String::new(), backtrace: String::new() }
}

} // verus!
