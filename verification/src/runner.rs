//! The outcome model of the external command runner, and the wizard's error
//! kinds.  The runner itself is a subprocess call made by the surrounding
//! application; the application reports back one of these outcomes, and
//! every caller decides on it explicitly — no failure is silent, and a
//! missing program is never confused with a program that ran and failed.

use vstd::prelude::*;

verus! {

/// What one external command invocation came to.
#[derive(Clone, Copy, Debug, PartialEq, Eq, Structural)]
pub enum RunOutcome {
    /// The program ran and exited with success.
    Success,
    /// The program ran and exited with the given non-zero code, or was
    /// terminated without one (then the code is reported as -1).
    Failed(i32),
    /// The program could not be started because it is not present.
    NotFound,
}

/// The wizard's error kinds, by how they are handled: the first four are
/// surfaced and control returns to the enclosing menu; only `FatalIo` ends
/// the process.
#[derive(Clone, Copy, Debug, PartialEq, Eq, Structural)]
pub enum ErrorKind {
    /// A required external program is absent; installation may recover it.
    MissingDependency,
    /// An external program ran and reported failure.
    CommandFailure,
    /// No persisted configuration exists where one was needed.
    ConfigAbsent,
    /// The configuration file exists but cannot be read as a record.
    ConfigCorrupt,
    /// Terminal or essential file input/output failed.
    FatalIo,
}

/// The error a command outcome stands for, or `None` on success.
pub open spec fn spec_outcome_error(o: RunOutcome) -> Option<ErrorKind> {
    match o {
        RunOutcome::Success => None,
        RunOutcome::Failed(_) => Some(ErrorKind::CommandFailure),
        RunOutcome::NotFound => Some(ErrorKind::MissingDependency),
    }
}

/// Classifies a command outcome as an error kind, or `None` on success.
pub fn outcome_error(o: &RunOutcome) -> (r: Option<ErrorKind>)
    ensures
        r == spec_outcome_error(*o),
{
    match o {
        RunOutcome::Success => None,
        RunOutcome::Failed(_) => Some(ErrorKind::CommandFailure),
        RunOutcome::NotFound => Some(ErrorKind::MissingDependency),
    }
}

/// True exactly for the one error kind that terminates the process.
pub fn is_fatal(k: ErrorKind) -> (r: bool)
    ensures
        r == (k is FatalIo),
{
    match k {
        ErrorKind::FatalIo => true,
        _ => false,
    }
}

/// Command distinguishability: a missing program and a program that ran but
/// failed are distinct outcomes and classify as distinct error kinds, for
/// every exit code.
pub proof fn lemma_outcomes_distinguishable(code: i32)
    ensures
        RunOutcome::NotFound != RunOutcome::Failed(code),
        spec_outcome_error(RunOutcome::NotFound) != spec_outcome_error(RunOutcome::Failed(code)),
        spec_outcome_error(RunOutcome::Success) is None,
{
}

/// The plain-language notice for each error kind, shown to the user in
/// place of any raw fault representation.
pub fn kind_message(k: ErrorKind) -> (r: String)
    ensures
        k is MissingDependency ==> r@ == "required program is not installed"@,
        k is CommandFailure ==> r@ == "external command failed"@,
        k is ConfigAbsent ==> r@ == "configuration not found, please run the configuration step first"@,
        k is ConfigCorrupt ==> r@ == "configuration file is unreadable, please reconfigure"@,
        k is FatalIo ==> r@ == "input/output failed, cannot continue"@,
{
    match k {
        ErrorKind::MissingDependency => String::from_str("required program is not installed"),
        ErrorKind::CommandFailure => String::from_str("external command failed"),
        ErrorKind::ConfigAbsent => String::from_str(
            "configuration not found, please run the configuration step first",
        ),
        ErrorKind::ConfigCorrupt => String::from_str(
            "configuration file is unreadable, please reconfigure",
        ),
        ErrorKind::FatalIo => String::from_str("input/output failed, cannot continue"),
    }
}

} // verus!
