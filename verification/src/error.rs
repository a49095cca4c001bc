//! What can go wrong.

use vstd::prelude::*;

verus! {

/// The two halves of entering a container's namespaces.
#[derive(Debug, Clone, Copy, PartialEq, Eq, Structural)]
pub enum EntryHalf {
    /// Obtaining a handle to the target process.
    Open,
    /// Joining the namespaces through that handle.
    Join,
}

/// Every way in which an invocation can fail.
#[derive(Debug, Clone, Copy, PartialEq, Eq, Structural)]
pub enum Error {
    /// The argument array, or one of its two elements, is absent.
    MissingArgument,
    /// The first argument does not write a positive process id.
    InvalidPid,
    /// The second argument is not text.
    InvalidPath,
    /// A file could not be read, written or flushed.
    IoError,
    /// The kernel knows no process of the given id.
    ProcessNotFound { half: EntryHalf },
    /// The kernel denied access.
    PermissionDenied { half: EntryHalf },
    /// The caller lacks the privilege for the operation.
    OperationNotPermitted { half: EntryHalf },
    /// The kernel refused for another reason, given by its error number.
    EntryFailed { half: EntryHalf, errno: i32 },
    /// The kernel reported success with a handle that no descriptor can be.
    InvalidHandle,
    /// The session inside the container could not be determined.
    DiscoveryFailed,
}

impl EntryHalf {
    /// What this half was trying to do, as a phrase.
    pub open spec fn spec_describe(self) -> Seq<char> {
        match self {
            EntryHalf::Open => "opening a handle to the process"@,
            EntryHalf::Join => "joining the namespaces"@,
        }
    }

    /// What this half was trying to do, as a phrase.
    pub fn describe(self) -> (r: &'static str)
        ensures
            r@ == self.spec_describe(),
    {
        match self {
            EntryHalf::Open => "opening a handle to the process",
            EntryHalf::Join => "joining the namespaces",
        }
    }
}

impl Error {
    /// The half of namespace entry that failed, for the errors that it raises.
    pub open spec fn spec_half(self) -> Option<EntryHalf> {
        match self {
            Error::ProcessNotFound { half } => Some(half),
            Error::PermissionDenied { half } => Some(half),
            Error::OperationNotPermitted { half } => Some(half),
            Error::EntryFailed { half, .. } => Some(half),
            Error::InvalidHandle => Some(EntryHalf::Open),
            _ => None,
        }
    }

    /// The half of namespace entry that failed, for the errors that it raises.
    pub fn half(&self) -> (r: Option<EntryHalf>)
        ensures
            r == self.spec_half(),
    {
        match self {
            Error::ProcessNotFound { half } => Some(*half),
            Error::PermissionDenied { half } => Some(*half),
            Error::OperationNotPermitted { half } => Some(*half),
            Error::EntryFailed { half, .. } => Some(*half),
            Error::InvalidHandle => Some(EntryHalf::Open),
            _ => None,
        }
    }

    /// What went wrong, in a few words.
    pub open spec fn spec_summary(self) -> Seq<char> {
        match self {
            Error::MissingArgument => "Null pointer received"@,
            Error::InvalidPid => "the process id is not a positive number"@,
            Error::InvalidPath => "the cache path is not valid text"@,
            Error::IoError => "a file could not be read or written"@,
            Error::ProcessNotFound { .. } => "no such process"@,
            Error::PermissionDenied { .. } => "permission denied"@,
            Error::OperationNotPermitted { .. } => "operation not permitted"@,
            Error::EntryFailed { .. } => "the kernel refused"@,
            Error::InvalidHandle => "the kernel returned an unusable handle"@,
            Error::DiscoveryFailed => "the session in the container could not be determined"@,
        }
    }

    /// The line written to standard error: the summary, and for a failure of
    /// namespace entry the half that failed.
    pub open spec fn spec_message(self) -> Seq<char> {
        match self.spec_half() {
            Some(half) => self.spec_summary() + " while "@ + half.spec_describe(),
            None => self.spec_summary(),
        }
    }

    /// What went wrong, in a few words.
    pub fn summary(&self) -> (r: &'static str)
        ensures
            r@ == self.spec_summary(),
    {
        match self {
            Error::MissingArgument => "Null pointer received",
            Error::InvalidPid => "the process id is not a positive number",
            Error::InvalidPath => "the cache path is not valid text",
            Error::IoError => "a file could not be read or written",
            Error::ProcessNotFound { .. } => "no such process",
            Error::PermissionDenied { .. } => "permission denied",
            Error::OperationNotPermitted { .. } => "operation not permitted",
            Error::EntryFailed { .. } => "the kernel refused",
            Error::InvalidHandle => "the kernel returned an unusable handle",
            Error::DiscoveryFailed => "the session in the container could not be determined",
        }
    }

    /// Composes the line written to standard error.
    pub fn message(&self) -> (r: String)
        ensures
            r@ == self.spec_message(),
    {
        let mut line = self.summary().to_owned();
        match self.half() {
            Some(half) => {
                line.append(" while ");
                line.append(half.describe());
            },
            None => {},
        }
        line
    }
}

} // verus!
