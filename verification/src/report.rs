//! What the host and the user are told at the end of an invocation.
//!
//! Entering the namespaces cannot be undone. Where a later stage fails, the
//! shell is inside the container with the environment it had outside, and
//! the user must hear of it.

use vstd::prelude::*;
use crate::error::Error;
use crate::inject::{Applied, NOT_QUEUED_WARNING};

verus! {

/// The status that the host receives: zero for success, one for any failure.
pub open spec fn status_of<T>(outcome: Result<T, Error>) -> i32 {
    if outcome is Ok {
        0
    } else {
        1
    }
}

/// Computes the status that the host receives for `outcome`.
pub fn status<T>(outcome: &Result<T, Error>) -> (r: i32)
    ensures
        r == status_of(*outcome),
        (r == 0) == (*outcome is Ok),
{
    match outcome {
        Ok(_) => 0,
        Err(_) => 1,
    }
}

/// The four stages of an invocation, in their order.
#[derive(Debug, Clone, Copy, PartialEq, Eq, Structural)]
pub enum Phase {
    /// Decoding the arguments.
    Decoding,
    /// Entering the namespaces.
    Entry,
    /// Finding out the session.
    Discovery,
    /// Making the shell adopt the session.
    Injection,
}

/// What the user is told where the shell is left inside the container with
/// the environment from outside.
pub const STRANDED_NOTICE: &'static str =
    "the shell is now inside the container, but its environment is still that of the outside";

/// What goes in front of a warning.
pub const WARNING_PREFIX: &'static str = "warning: ";

impl Phase {
    /// A failure in this stage comes after the namespaces were entered.
    pub open spec fn spec_after_entry(self) -> bool {
        self == Phase::Discovery || self == Phase::Injection
    }

    /// Tells whether a failure in this stage comes after the namespaces were
    /// entered.
    pub fn after_entry(self) -> (r: bool)
        ensures
            r == self.spec_after_entry(),
    {
        match self {
            Phase::Decoding => false,
            Phase::Entry => false,
            Phase::Discovery => true,
            Phase::Injection => true,
        }
    }
}

/// The lines for standard error at the end of an invocation that stopped in
/// `phase` with `outcome`.
///
/// Success says nothing, unless it calls for a warning. A failure says what
/// went wrong; where it came after the namespaces were entered, a second
/// line says where that leaves the shell.
pub open spec fn report_of(phase: Phase, outcome: Result<Applied, Error>) -> Seq<Seq<char>> {
    match outcome {
        Ok(applied) => match applied.spec_warning() {
            Some(warning) => seq![WARNING_PREFIX@ + warning],
            None => seq![],
        },
        Err(error) => if phase.spec_after_entry() {
            seq![error.spec_message(), STRANDED_NOTICE@]
        } else {
            seq![error.spec_message()]
        },
    }
}

/// What each of `lines` holds.
pub open spec fn lines_view(lines: Vec<String>) -> Seq<Seq<char>> {
    Seq::new(lines@.len(), |i: int| lines@[i]@)
}

/// Composes the lines for standard error at the end of an invocation that
/// stopped in `phase` with `outcome`.
pub fn report(phase: Phase, outcome: &Result<Applied, Error>) -> (r: Vec<String>)
    ensures
        lines_view(r) == report_of(phase, *outcome),
{
    let mut lines: Vec<String> = Vec::new();
    match outcome {
        Ok(applied) => match applied.warning() {
            Some(warning) => {
                let mut line = WARNING_PREFIX.to_owned();
                line.append(warning);
                lines.push(line);
            },
            None => {},
        },
        Err(error) => {
            lines.push(error.message());
            if phase.after_entry() {
                lines.push(STRANDED_NOTICE.to_owned());
            }
        },
    }
    assert(lines_view(lines) =~= report_of(phase, *outcome));
    lines
}

/// A failure is never passed over in silence, and one that leaves the shell
/// inside the container always says so; a success that is complete says
/// nothing.
pub proof fn lemma_failures_are_reported(phase: Phase, outcome: Result<Applied, Error>)
    ensures
        outcome is Err ==> report_of(phase, outcome).len() >= 1 && report_of(phase, outcome)[0]
            == outcome->Err_0.spec_message(),
        outcome is Err && phase.spec_after_entry() ==> report_of(phase, outcome).last()
            == STRANDED_NOTICE@,
        outcome == Ok::<Applied, Error>(Applied::Complete) ==> report_of(phase, outcome).len()
            == 0,
{
}

} // verus!
