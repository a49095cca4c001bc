//! Entering the namespaces of a running process.
//!
//! Entry is three kernel requests: open a handle to the process, join its
//! namespaces through the handle, release the handle. The caller makes the
//! requests; [`Entry`] says which one is due and what the answers mean.

use vstd::prelude::*;
use crate::error::{EntryHalf, Error};

verus! {

/// The namespaces that entry joins.
#[derive(Debug, Clone, Copy, PartialEq, Eq, Structural)]
pub enum Namespace {
    Cgroup,
    Ipc,
    Net,
    Mount,
    Pid,
    User,
    Uts,
}

impl Namespace {
    /// The bit by which the kernel names this namespace.
    pub open spec fn spec_flag(self) -> i32 {
        match self {
            Namespace::Mount => 0x0002_0000,
            Namespace::Cgroup => 0x0200_0000,
            Namespace::Uts => 0x0400_0000,
            Namespace::Ipc => 0x0800_0000,
            Namespace::User => 0x1000_0000,
            Namespace::Pid => 0x2000_0000,
            Namespace::Net => 0x4000_0000,
        }
    }

    /// The bit by which the kernel names this namespace.
    pub fn flag(self) -> (r: i32)
        ensures
            r == self.spec_flag(),
    {
        match self {
            Namespace::Mount => clone_newns(),
            Namespace::Cgroup => clone_newcgroup(),
            Namespace::Uts => clone_newuts(),
            Namespace::Ipc => clone_newipc(),
            Namespace::User => clone_newuser(),
            Namespace::Pid => clone_newpid(),
            Namespace::Net => clone_newnet(),
        }
    }
}

/// The flag set that names all seven namespaces.
pub open spec fn all_namespaces() -> i32 {
    0x7e02_0000
}

/// `all_namespaces()` holds the bit of every namespace and no other bit.
pub proof fn lemma_all_namespaces()
    ensures
        forall|ns: Namespace| all_namespaces() & #[trigger] ns.spec_flag() == ns.spec_flag(),
        all_namespaces() == Namespace::Cgroup.spec_flag() | Namespace::Ipc.spec_flag()
            | Namespace::Net.spec_flag() | Namespace::Mount.spec_flag()
            | Namespace::Pid.spec_flag() | Namespace::User.spec_flag()
            | Namespace::Uts.spec_flag(),
{
    assert(0x7e02_0000i32 & 0x0002_0000i32 == 0x0002_0000i32) by (bit_vector);
    assert(0x7e02_0000i32 & 0x0200_0000i32 == 0x0200_0000i32) by (bit_vector);
    assert(0x7e02_0000i32 & 0x0400_0000i32 == 0x0400_0000i32) by (bit_vector);
    assert(0x7e02_0000i32 & 0x0800_0000i32 == 0x0800_0000i32) by (bit_vector);
    assert(0x7e02_0000i32 & 0x1000_0000i32 == 0x1000_0000i32) by (bit_vector);
    assert(0x7e02_0000i32 & 0x2000_0000i32 == 0x2000_0000i32) by (bit_vector);
    assert(0x7e02_0000i32 & 0x4000_0000i32 == 0x4000_0000i32) by (bit_vector);
    assert(0x7e02_0000i32 == 0x0200_0000i32 | 0x0800_0000i32 | 0x4000_0000i32 | 0x0002_0000i32
        | 0x2000_0000i32 | 0x1000_0000i32 | 0x0400_0000i32) by (bit_vector);
}

/// Computes the flag set that names all seven namespaces.
pub fn join_flags() -> (r: i32)
    ensures
        r == all_namespaces(),
{
    proof {
        lemma_all_namespaces();
    }
    Namespace::Cgroup.flag() | Namespace::Ipc.flag() | Namespace::Net.flag()
        | Namespace::Mount.flag() | Namespace::Pid.flag() | Namespace::User.flag()
        | Namespace::Uts.flag()
}

/// The error number for "no such process".
pub open spec fn no_such_process() -> i32 {
    3
}

/// The error number for "permission denied".
pub open spec fn access_denied() -> i32 {
    13
}

/// The error number for "operation not permitted".
pub open spec fn not_permitted() -> i32 {
    1
}

/// The error that the kernel's error number `errno` stands for, raised in
/// `half`.
pub open spec fn failure(half: EntryHalf, errno: i32) -> Error {
    if errno == no_such_process() {
        Error::ProcessNotFound { half }
    } else if errno == access_denied() {
        Error::PermissionDenied { half }
    } else if errno == not_permitted() {
        Error::OperationNotPermitted { half }
    } else {
        Error::EntryFailed { half, errno }
    }
}

/// The kernel's error number behind an error of namespace entry.
pub open spec fn errno_of(error: Error) -> Option<i32> {
    match error {
        Error::ProcessNotFound { .. } => Some(no_such_process()),
        Error::PermissionDenied { .. } => Some(access_denied()),
        Error::OperationNotPermitted { .. } => Some(not_permitted()),
        Error::EntryFailed { errno, .. } => Some(errno),
        _ => None,
    }
}

/// An error number survives being turned into an error: the error names the
/// half it was raised in and gives the same number back.
pub proof fn lemma_failure_keeps_errno(half: EntryHalf, errno: i32)
    ensures
        errno_of(failure(half, errno)) == Some(errno),
        failure(half, errno).spec_half() == Some(half),
{
}

/// Turns the kernel's error number `errno`, raised in `half`, into an error.
pub fn classify(half: EntryHalf, errno: i32) -> (r: Error)
    ensures
        r == failure(half, errno),
{
    if errno == esrch() {
        Error::ProcessNotFound { half }
    } else if errno == eacces() {
        Error::PermissionDenied { half }
    } else if errno == eperm() {
        Error::OperationNotPermitted { half }
    } else {
        Error::EntryFailed { half, errno }
    }
}

/// Gives the kernel's error number behind an error of namespace entry.
pub fn os_error(error: &Error) -> (r: Option<i32>)
    ensures
        r == errno_of(*error),
{
    match error {
        Error::ProcessNotFound { .. } => Some(esrch()),
        Error::PermissionDenied { .. } => Some(eacces()),
        Error::OperationNotPermitted { .. } => Some(eperm()),
        Error::EntryFailed { errno, .. } => Some(*errno),
        _ => None,
    }
}

/// What the kernel answered to one request: the value it returned, and the
/// error number it left, which counts only where the value reports failure.
#[derive(Debug, Clone, Copy, PartialEq, Eq, Structural)]
pub struct Reply {
    pub ret: i64,
    pub errno: i32,
}

/// Where entry stands: the request that is due, or the end.
#[derive(Debug, Clone, Copy, PartialEq, Eq)]
pub enum Entry {
    /// Due: open a handle to the process `pid`.
    Open { pid: i32 },
    /// Due: join, through `handle`, the namespaces that `flags` names.
    Join { handle: i32, flags: i32 },
    /// Due: release `handle`. Entry then ends with `outcome`.
    Release { handle: i32, outcome: Result<(), Error> },
    /// Entry has ended with `outcome`; no request is due.
    Done { outcome: Result<(), Error> },
}

/// What the answer to the open request means: the handle, or the error.
pub open spec fn opened(reply: Reply) -> Result<i32, Error> {
    if reply.ret < 0 {
        Err(failure(EntryHalf::Open, reply.errno))
    } else if reply.ret > i32::MAX {
        Err(Error::InvalidHandle)
    } else {
        Ok(reply.ret as i32)
    }
}

/// What the answer to the join request means.
pub open spec fn joined(reply: Reply) -> Result<(), Error> {
    if reply.ret != 0 {
        Err(failure(EntryHalf::Join, reply.errno))
    } else {
        Ok(())
    }
}

/// Where entry into the namespaces of process `pid` stands once the kernel
/// has given `replies`, one for each request made so far.
///
/// A failed open ends entry at once. A handle that was opened is used to
/// join and is then released, whether or not the join succeeded; the outcome
/// is that of the join. Replies beyond the end change nothing.
pub open spec fn entry_after(pid: i32, replies: Seq<Reply>) -> Entry {
    if replies.len() == 0 {
        Entry::Open { pid }
    } else {
        match opened(replies[0]) {
            Err(error) => Entry::Done { outcome: Err(error) },
            Ok(handle) => if replies.len() == 1 {
                Entry::Join { handle, flags: all_namespaces() }
            } else if replies.len() == 2 {
                Entry::Release { handle, outcome: joined(replies[1]) }
            } else {
                Entry::Done { outcome: joined(replies[1]) }
            },
        }
    }
}

impl Entry {
    /// Where entry stands after the request that was due got `reply`.
    pub open spec fn spec_advance(self, reply: Reply) -> Entry {
        match self {
            Entry::Open { .. } => match opened(reply) {
                Ok(handle) => Entry::Join { handle, flags: all_namespaces() },
                Err(error) => Entry::Done { outcome: Err(error) },
            },
            Entry::Join { handle, .. } => Entry::Release { handle, outcome: joined(reply) },
            Entry::Release { outcome, .. } => Entry::Done { outcome },
            Entry::Done { .. } => self,
        }
    }

    /// The outcome of entry, once it has ended.
    pub open spec fn spec_outcome(self) -> Option<Result<(), Error>> {
        match self {
            Entry::Done { outcome } => Some(outcome),
            _ => None,
        }
    }

    /// Takes the kernel's `reply` to the request that was due, and says
    /// where entry stands then.
    pub fn advance(self, reply: Reply) -> (next: Entry)
        ensures
            next == self.spec_advance(reply),
    {
        match self {
            Entry::Open { .. } => {
                if reply.ret < 0 {
                    Entry::Done { outcome: Err(classify(EntryHalf::Open, reply.errno)) }
                } else if reply.ret > 0x7fff_ffff {
                    Entry::Done { outcome: Err(Error::InvalidHandle) }
                } else {
                    Entry::Join { handle: reply.ret as i32, flags: join_flags() }
                }
            },
            Entry::Join { handle, .. } => {
                let outcome = if reply.ret != 0 {
                    Err(classify(EntryHalf::Join, reply.errno))
                } else {
                    Ok(())
                };
                Entry::Release { handle, outcome }
            },
            Entry::Release { outcome, .. } => Entry::Done { outcome },
            Entry::Done { outcome } => Entry::Done { outcome },
        }
    }

    /// Gives the outcome of entry, once it has ended.
    pub fn outcome(&self) -> (r: Option<Result<(), Error>>)
        ensures
            r == self.spec_outcome(),
    {
        match self {
            Entry::Done { outcome } => Some(*outcome),
            _ => None,
        }
    }
}

/// Replaying the replies one by one gives the same as looking at them all:
/// each reply advances entry by one step.
pub proof fn lemma_entry_step(pid: i32, replies: Seq<Reply>, reply: Reply)
    ensures
        entry_after(pid, replies.push(reply)) == entry_after(pid, replies).spec_advance(reply),
{
    let longer = replies.push(reply);
    if replies.len() > 0 {
        assert(longer[0] == replies[0]);
    }
    if replies.len() > 1 {
        assert(longer[1] == replies[1]);
    }
}

/// Where the open request fails, no other request ever becomes due: entry
/// has ended after the first reply, with an error of the open half, and
/// stays so. The namespaces of the caller are never touched. Where the
/// kernel knew no such process, the error says so.
pub proof fn lemma_failed_open_ends_entry(pid: i32, replies: Seq<Reply>)
    requires
        replies.len() > 0,
        replies[0].ret < 0,
    ensures
        entry_after(pid, replies) == (Entry::Done {
            outcome: Err(failure(EntryHalf::Open, replies[0].errno)),
        }),
        failure(EntryHalf::Open, replies[0].errno).spec_half() == Some(EntryHalf::Open),
        replies[0].errno == no_such_process() ==> entry_after(pid, replies) == (Entry::Done {
            outcome: Err(Error::ProcessNotFound { half: EntryHalf::Open }),
        }),
{
}

/// A handle that was opened is joined through after exactly one reply,
/// released after exactly two, and never named by a request again: it is
/// released once, whether or not the join succeeded, and not used after.
pub proof fn lemma_handle_released_once(pid: i32, replies: Seq<Reply>, k: int)
    requires
        0 <= k <= replies.len(),
        replies.len() > 0,
        opened(replies[0]) is Ok,
    ensures
        entry_after(pid, replies.take(k)) is Join <==> k == 1,
        entry_after(pid, replies.take(k)) is Release <==> k == 2,
        k == 1 ==> entry_after(pid, replies.take(k)) == (Entry::Join {
            handle: opened(replies[0])->Ok_0,
            flags: all_namespaces(),
        }),
        k == 2 ==> entry_after(pid, replies.take(k)) == (Entry::Release {
            handle: opened(replies[0])->Ok_0,
            outcome: joined(replies[1]),
        }),
        k >= 3 ==> entry_after(pid, replies.take(k)) == (Entry::Done {
            outcome: joined(replies[1]),
        }),
{
    let seen = replies.take(k);
    if k >= 1 {
        assert(seen[0] == replies[0]);
    }
    if k >= 2 {
        assert(seen[1] == replies[1]);
    }
}

/// Says where entry into the namespaces of the process `container_pid`
/// stands, given the kernel's replies to the requests made so far. With no
/// reply yet, the first request is due.
pub fn enter_container(container_pid: i32, replies: &[Reply]) -> (r: Entry)
    ensures
        r == entry_after(container_pid, replies@),
{
    let mut state = Entry::Open { pid: container_pid };
    let mut i: usize = 0;
    assert(replies@.take(0) =~= Seq::<Reply>::empty());
    while i < replies.len()
        invariant
            0 <= i <= replies.len(),
            state == entry_after(container_pid, replies@.take(i as int)),
        decreases replies.len() - i,
    {
        proof {
            lemma_entry_step(container_pid, replies@.take(i as int), replies@[i as int]);
            assert(replies@.take(i as int).push(replies@[i as int]) =~= replies@.take(i + 1));
        }
        state = state.advance(replies[i]);
        i = i + 1;
    }
    assert(replies@.take(i as int) =~= replies@);
    state
}

/// Reads `libc::ESRCH`. Not proved: that libc gives it the value 3, the
/// kernel's error number for "no such process".
#[verifier::external_body]
fn esrch() -> (r: i32)
    ensures
        r == 3i32,
{
    libc::ESRCH
}

/// Reads `libc::EACCES`. Not proved: that libc gives it the value 13, the
/// kernel's error number for "permission denied".
#[verifier::external_body]
fn eacces() -> (r: i32)
    ensures
        r == 13i32,
{
    libc::EACCES
}

/// Reads `libc::EPERM`. Not proved: that libc gives it the value 1, the
/// kernel's error number for "operation not permitted".
#[verifier::external_body]
fn eperm() -> (r: i32)
    ensures
        r == 1i32,
{
    libc::EPERM
}

/// Reads `libc::CLONE_NEWNS`. Not proved: that libc gives it the value
/// 0x0002_0000, the kernel's bit for the mount namespace.
#[verifier::external_body]
fn clone_newns() -> (r: i32)
    ensures
        r == 0x0002_0000i32,
{
    libc::CLONE_NEWNS
}

/// Reads `libc::CLONE_NEWCGROUP`. Not proved: that libc gives it the value
/// 0x0200_0000, the kernel's bit for the control-group namespace.
#[verifier::external_body]
fn clone_newcgroup() -> (r: i32)
    ensures
        r == 0x0200_0000i32,
{
    libc::CLONE_NEWCGROUP
}

/// Reads `libc::CLONE_NEWUTS`. Not proved: that libc gives it the value
/// 0x0400_0000, the kernel's bit for the host-name namespace.
#[verifier::external_body]
fn clone_newuts() -> (r: i32)
    ensures
        r == 0x0400_0000i32,
{
    libc::CLONE_NEWUTS
}

/// Reads `libc::CLONE_NEWIPC`. Not proved: that libc gives it the value
/// 0x0800_0000, the kernel's bit for the interprocess-communication
/// namespace.
#[verifier::external_body]
fn clone_newipc() -> (r: i32)
    ensures
        r == 0x0800_0000i32,
{
    libc::CLONE_NEWIPC
}

/// Reads `libc::CLONE_NEWUSER`. Not proved: that libc gives it the value
/// 0x1000_0000, the kernel's bit for the user namespace.
#[verifier::external_body]
fn clone_newuser() -> (r: i32)
    ensures
        r == 0x1000_0000i32,
{
    libc::CLONE_NEWUSER
}

/// Reads `libc::CLONE_NEWPID`. Not proved: that libc gives it the value
/// 0x2000_0000, the kernel's bit for the process-id namespace.
#[verifier::external_body]
fn clone_newpid() -> (r: i32)
    ensures
        r == 0x2000_0000i32,
{
    libc::CLONE_NEWPID
}

/// Reads `libc::CLONE_NEWNET`. Not proved: that libc gives it the value
/// 0x4000_0000, the kernel's bit for the network namespace.
#[verifier::external_body]
fn clone_newnet() -> (r: i32)
    ensures
        r == 0x4000_0000i32,
{
    libc::CLONE_NEWNET
}

} // verus!
