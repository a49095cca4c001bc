use setns_shell::enter_container;
use setns_shell::error::{EntryHalf, Error};
use setns_shell::setns::{classify, join_flags, os_error, Entry, Namespace, Reply};

const ALL: [Namespace; 7] = [
    Namespace::Cgroup,
    Namespace::Ipc,
    Namespace::Net,
    Namespace::Mount,
    Namespace::Pid,
    Namespace::User,
    Namespace::Uts,
];

fn ok(ret: i64) -> Reply {
    Reply { ret, errno: 0 }
}

fn failed(errno: i32) -> Reply {
    Reply { ret: -1, errno }
}

#[test]
fn namespace_flags_are_the_kernel_bits() {
    assert_eq!(Namespace::Cgroup.flag(), libc::CLONE_NEWCGROUP);
    assert_eq!(Namespace::Ipc.flag(), libc::CLONE_NEWIPC);
    assert_eq!(Namespace::Net.flag(), libc::CLONE_NEWNET);
    assert_eq!(Namespace::Mount.flag(), libc::CLONE_NEWNS);
    assert_eq!(Namespace::Pid.flag(), libc::CLONE_NEWPID);
    assert_eq!(Namespace::User.flag(), libc::CLONE_NEWUSER);
    assert_eq!(Namespace::Uts.flag(), libc::CLONE_NEWUTS);
}

#[test]
fn namespace_flags_have_their_documented_values() {
    assert_eq!(Namespace::Mount.flag(), 0x0002_0000);
    assert_eq!(Namespace::Cgroup.flag(), 0x0200_0000);
    assert_eq!(Namespace::Uts.flag(), 0x0400_0000);
    assert_eq!(Namespace::Ipc.flag(), 0x0800_0000);
    assert_eq!(Namespace::User.flag(), 0x1000_0000);
    assert_eq!(Namespace::Pid.flag(), 0x2000_0000);
    assert_eq!(Namespace::Net.flag(), 0x4000_0000);
}

#[test]
fn join_flags_name_all_seven_namespaces() {
    let flags = join_flags();
    assert_eq!(flags, 0x7e02_0000);
    assert_eq!(
        flags,
        libc::CLONE_NEWCGROUP
            | libc::CLONE_NEWIPC
            | libc::CLONE_NEWNET
            | libc::CLONE_NEWNS
            | libc::CLONE_NEWPID
            | libc::CLONE_NEWUSER
            | libc::CLONE_NEWUTS
    );
    let mut union = 0;
    for ns in ALL {
        assert_eq!(flags & ns.flag(), ns.flag());
        assert_eq!(ns.flag().count_ones(), 1);
        union |= ns.flag();
    }
    assert_eq!(union, flags);
    assert_eq!(flags.count_ones(), 7);
}

#[test]
fn error_numbers_are_classified() {
    assert_eq!(
        classify(EntryHalf::Open, libc::ESRCH),
        Error::ProcessNotFound { half: EntryHalf::Open }
    );
    assert_eq!(
        classify(EntryHalf::Join, libc::EACCES),
        Error::PermissionDenied { half: EntryHalf::Join }
    );
    assert_eq!(
        classify(EntryHalf::Join, libc::EPERM),
        Error::OperationNotPermitted { half: EntryHalf::Join }
    );
    assert_eq!(
        classify(EntryHalf::Open, libc::EINVAL),
        Error::EntryFailed { half: EntryHalf::Open, errno: libc::EINVAL }
    );
    assert_eq!(classify(EntryHalf::Open, 3), Error::ProcessNotFound { half: EntryHalf::Open });
    assert_eq!(classify(EntryHalf::Open, 13), Error::PermissionDenied { half: EntryHalf::Open });
    assert_eq!(
        classify(EntryHalf::Open, 1),
        Error::OperationNotPermitted { half: EntryHalf::Open }
    );
    assert_eq!(
        classify(EntryHalf::Join, 0),
        Error::EntryFailed { half: EntryHalf::Join, errno: 0 }
    );
}

#[test]
fn error_numbers_survive_classification() {
    for errno in -2..200 {
        for half in [EntryHalf::Open, EntryHalf::Join] {
            let error = classify(half, errno);
            assert_eq!(os_error(&error), Some(errno));
            assert_eq!(error.half(), Some(half));
        }
    }
    assert_eq!(os_error(&Error::InvalidPid), None);
    assert_eq!(os_error(&Error::InvalidHandle), None);
    assert_eq!(os_error(&Error::ProcessNotFound { half: EntryHalf::Open }), Some(libc::ESRCH));
}

#[test]
fn entry_starts_by_opening_the_process() {
    assert_eq!(enter_container(4242, &[]), Entry::Open { pid: 4242 });
    assert_eq!(enter_container(4242, &[]).outcome(), None);
}

#[test]
fn entry_of_a_missing_process_fails_and_touches_nothing() {
    let end = Entry::Done { outcome: Err(Error::ProcessNotFound { half: EntryHalf::Open }) };
    assert_eq!(enter_container(4242, &[failed(libc::ESRCH)]), end);
    // Whatever is replied afterwards, no join and no release becomes due.
    assert_eq!(enter_container(4242, &[failed(libc::ESRCH), ok(0)]), end);
    assert_eq!(enter_container(4242, &[failed(libc::ESRCH), ok(0), ok(0)]), end);
    assert_eq!(enter_container(4242, &[failed(libc::ESRCH), failed(1), ok(0), ok(7)]), end);
    assert_eq!(
        end.outcome(),
        Some(Err(Error::ProcessNotFound { half: EntryHalf::Open }))
    );
}

#[test]
fn entry_joins_through_the_handle_and_releases_it() {
    assert_eq!(
        enter_container(4242, &[ok(5)]),
        Entry::Join { handle: 5, flags: 0x7e02_0000 }
    );
    assert_eq!(
        enter_container(4242, &[ok(5), ok(0)]),
        Entry::Release { handle: 5, outcome: Ok(()) }
    );
    assert_eq!(enter_container(4242, &[ok(5), ok(0), ok(0)]), Entry::Done { outcome: Ok(()) });
    assert_eq!(enter_container(4242, &[ok(5), ok(0), ok(0)]).outcome(), Some(Ok(())));
    // The descriptor zero is a handle like any other.
    assert_eq!(enter_container(1, &[ok(0)]), Entry::Join { handle: 0, flags: join_flags() });
}

#[test]
fn entry_releases_the_handle_when_the_join_fails() {
    let error = Error::OperationNotPermitted { half: EntryHalf::Join };
    assert_eq!(
        enter_container(4242, &[ok(5), failed(libc::EPERM)]),
        Entry::Release { handle: 5, outcome: Err(error) }
    );
    assert_eq!(
        enter_container(4242, &[ok(5), failed(libc::EPERM), ok(0)]),
        Entry::Done { outcome: Err(error) }
    );
    // Any value but zero is a failed join.
    assert_eq!(
        enter_container(4242, &[ok(5), Reply { ret: 1, errno: libc::EINVAL }]),
        Entry::Release {
            handle: 5,
            outcome: Err(Error::EntryFailed { half: EntryHalf::Join, errno: libc::EINVAL })
        }
    );
}

#[test]
fn entry_ignores_how_the_release_went() {
    assert_eq!(
        enter_container(4242, &[ok(5), ok(0), failed(libc::EBADF)]),
        Entry::Done { outcome: Ok(()) }
    );
    assert_eq!(
        enter_container(4242, &[ok(5), ok(0), failed(libc::EBADF), ok(0), ok(0)]),
        Entry::Done { outcome: Ok(()) }
    );
}

#[test]
fn entry_tells_the_two_halves_apart() {
    let open = enter_container(1, &[failed(libc::EACCES)]);
    let join = enter_container(1, &[ok(3), failed(libc::EACCES), ok(0)]);
    assert_eq!(open, Entry::Done { outcome: Err(Error::PermissionDenied { half: EntryHalf::Open }) });
    assert_eq!(join, Entry::Done { outcome: Err(Error::PermissionDenied { half: EntryHalf::Join }) });
    assert_ne!(open, join);
}

#[test]
fn entry_refuses_a_handle_that_is_no_descriptor() {
    assert_eq!(
        enter_container(1, &[ok(i32::MAX as i64 + 1)]),
        Entry::Done { outcome: Err(Error::InvalidHandle) }
    );
    assert_eq!(
        enter_container(1, &[ok(i32::MAX as i64)]),
        Entry::Join { handle: i32::MAX, flags: join_flags() }
    );
    assert_eq!(
        enter_container(1, &[Reply { ret: i64::MIN, errno: libc::ESRCH }]),
        Entry::Done { outcome: Err(Error::ProcessNotFound { half: EntryHalf::Open }) }
    );
}

#[test]
fn entry_replayed_is_entry_advanced() {
    let replies = [ok(9), failed(libc::EPERM), ok(0), ok(0)];
    let mut state = enter_container(77, &[]);
    for n in 0..replies.len() {
        assert_eq!(state, enter_container(77, &replies[..n]));
        state = state.advance(replies[n]);
    }
    assert_eq!(state, enter_container(77, &replies));
    assert_eq!(state.advance(ok(0)), state);
}
