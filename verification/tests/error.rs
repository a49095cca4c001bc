use setns_shell::error::{EntryHalf, Error};

#[test]
fn message_of_a_missing_argument() {
    assert_eq!(Error::MissingArgument.message(), "Null pointer received");
    assert_eq!(Error::MissingArgument.summary(), "Null pointer received");
}

#[test]
fn message_names_the_half_that_failed() {
    assert_eq!(
        Error::ProcessNotFound { half: EntryHalf::Open }.message(),
        "no such process while opening a handle to the process"
    );
    assert_eq!(
        Error::PermissionDenied { half: EntryHalf::Join }.message(),
        "permission denied while joining the namespaces"
    );
    assert_eq!(
        Error::OperationNotPermitted { half: EntryHalf::Join }.message(),
        "operation not permitted while joining the namespaces"
    );
    assert_eq!(
        Error::EntryFailed { half: EntryHalf::Open, errno: 22 }.message(),
        "the kernel refused while opening a handle to the process"
    );
    assert_eq!(
        Error::InvalidHandle.message(),
        "the kernel returned an unusable handle while opening a handle to the process"
    );
}

#[test]
fn message_of_the_other_errors_is_the_summary() {
    for error in [Error::InvalidPid, Error::InvalidPath, Error::IoError, Error::DiscoveryFailed] {
        assert_eq!(error.message(), error.summary());
        assert_eq!(error.half(), None);
        assert!(!error.message().is_empty());
    }
    assert_eq!(Error::InvalidPid.message(), "the process id is not a positive number");
    assert_eq!(Error::InvalidPath.message(), "the cache path is not valid text");
    assert_eq!(Error::IoError.message(), "a file could not be read or written");
    assert_eq!(
        Error::DiscoveryFailed.message(),
        "the session in the container could not be determined"
    );
}

#[test]
fn halves_are_described() {
    assert_eq!(EntryHalf::Open.describe(), "opening a handle to the process");
    assert_eq!(EntryHalf::Join.describe(), "joining the namespaces");
    assert_eq!(Error::InvalidHandle.half(), Some(EntryHalf::Open));
    assert_eq!(
        Error::EntryFailed { half: EntryHalf::Join, errno: 5 }.half(),
        Some(EntryHalf::Join)
    );
}
