//! Decoding the two command arguments: the id of the target process and the
//! path of the compiled completion cache.
//!
//! The arguments come from outside and nothing is taken for granted of
//! them: the array or either element may be absent, a string may lack its
//! terminator, and its bytes need not be text.

use vstd::prelude::*;
use vstd::slice::slice_to_vec;
use vstd::utf8::valid_utf8;
use crate::error::Error;
use crate::pid::{is_pid_text, lemma_not_pid_text, parse_pid, pid_of};
use crate::text::{
    bytes_of, c_len, c_string, lemma_c_len, lemma_c_len_unique, string_from_utf8, text_of,
    until_nul,
};

verus! {

/// The two arguments as the host handed them over. Each is absent, or the
/// bytes found where it points: a C string with its terminator, or, where
/// no terminator came within `ARGUMENT_LIMIT` bytes, that many bytes.
#[derive(Debug, PartialEq, Eq)]
pub struct RawArgs {
    pub pid: Option<Vec<u8>>,
    pub path: Option<Vec<u8>>,
}

/// What a `RawArgs` holds.
pub struct RawArgsView {
    pub pid: Option<Seq<u8>>,
    pub path: Option<Seq<u8>>,
}

impl View for RawArgs {
    type V = RawArgsView;

    open spec fn view(&self) -> RawArgsView {
        RawArgsView { pid: bytes_of(self.pid), path: bytes_of(self.path) }
    }
}

/// What an argument array that may be absent holds.
pub open spec fn raw_view(args: Option<&RawArgs>) -> Option<RawArgsView> {
    match args {
        Some(raw) => Some(raw@),
        None => None,
    }
}

/// A decoded invocation: the process whose namespaces to enter, and the
/// contents of the completion cache.
#[derive(Debug, PartialEq)]
pub struct Args {
    pub pid: i32,
    pub zwc_data: Vec<u8>,
}

/// What an `Args` holds.
pub struct ArgsView {
    pub pid: i32,
    pub zwc_data: Seq<u8>,
}

impl View for Args {
    type V = ArgsView;

    open spec fn view(&self) -> ArgsView {
        ArgsView { pid: self.pid, zwc_data: self.zwc_data@ }
    }
}

/// The most bytes that an argument may hold before its terminator; also the
/// most that are ever read of one. No path that can be opened is longer.
pub const ARGUMENT_LIMIT: usize = 4096;

/// The string in the buffer of one argument: the bytes before the
/// terminator, where there is one and fewer than `ARGUMENT_LIMIT` bytes come
/// before it.
pub open spec fn argument(buffer: Seq<u8>) -> Option<Seq<u8>> {
    if c_len(buffer) < buffer.len() && c_len(buffer) < ARGUMENT_LIMIT {
        Some(c_string(buffer))
    } else {
        None
    }
}

/// The path that the buffer of the second argument holds: a terminated
/// string that is text.
pub open spec fn path_in(buffer: Seq<u8>) -> Option<Seq<char>> {
    match argument(buffer) {
        Some(bytes) => text_of(bytes),
        None => None,
    }
}

/// The process id that the buffer of the first argument holds: a terminated
/// string that writes one.
pub open spec fn pid_in(buffer: Seq<u8>) -> Option<i32> {
    match argument(buffer) {
        Some(bytes) => pid_of(bytes),
        None => None,
    }
}

/// The path of the cache file that `args` name: both arguments must be
/// there, and the second must hold a path.
pub open spec fn cache_path_of(args: Option<RawArgsView>) -> Result<Seq<char>, Error> {
    match args {
        Some(RawArgsView { pid: Some(_), path: Some(path) }) => match path_in(path) {
            Some(text) => Ok(text),
            None => Err(Error::InvalidPath),
        },
        _ => Err(Error::MissingArgument),
    }
}

/// What `args` decode to, where reading the file that they name gave
/// `contents`, or failed (`None`).
///
/// The arguments are looked at in this order: are both there, does the
/// second hold a path, could the file be read, does the first hold a
/// process id. The first thing found wrong decides the error. Nothing else
/// enters: decoding the same input twice gives equal results.
pub open spec fn decoded(args: Option<RawArgsView>, contents: Option<Seq<u8>>) -> Result<
    ArgsView,
    Error,
> {
    match args {
        Some(RawArgsView { pid: Some(pid), path: Some(path) }) => if path_in(path) is None {
            Err(Error::InvalidPath)
        } else {
            match (contents, pid_in(pid)) {
                (None, _) => Err(Error::IoError),
                (Some(_), None) => Err(Error::InvalidPid),
                (Some(data), Some(pid)) => Ok(ArgsView { pid, zwc_data: data }),
            }
        },
        _ => Err(Error::MissingArgument),
    }
}

/// Copies the string out of the buffer of one argument.
pub fn read_argument(buffer: &[u8]) -> (r: Option<Vec<u8>>)
    ensures
        bytes_of(r) == argument(buffer@),
{
    proof {
        lemma_c_len(buffer@);
    }
    let string = until_nul(buffer);
    if string.len() < buffer.len() && string.len() < ARGUMENT_LIMIT {
        Some(string)
    } else {
        None
    }
}

impl Args {
    /// A decoded invocation names a process: its id is positive.
    pub open spec fn wf(&self) -> bool {
        self.pid > 0
    }

    /// Finds the path of the cache file in `args`, for the caller to read.
    pub fn cache_path(args: Option<&RawArgs>) -> (r: Result<String, Error>)
        ensures
            match r {
                Ok(path) => cache_path_of(raw_view(args)) == Ok::<Seq<char>, Error>(path@),
                Err(error) => cache_path_of(raw_view(args)) == Err::<Seq<char>, Error>(error),
            },
    {
        let path = match args {
            Some(RawArgs { pid: Some(_), path: Some(path) }) => path,
            _ => { return Err(Error::MissingArgument); },
        };
        let text = match read_argument(path.as_slice()) {
            Some(bytes) => string_from_utf8(bytes),
            None => None,
        };
        match text {
            Some(text) => Ok(text),
            None => Err(Error::InvalidPath),
        }
    }

    /// Decodes `args`, given what reading the file at `cache_path(args)`
    /// gave: its contents, or `None` where it could not be read (or where
    /// there was no path to read from).
    pub fn parse(args: Option<&RawArgs>, contents: Option<Vec<u8>>) -> (r: Result<Args, Error>)
        ensures
            match r {
                Ok(decoded_args) => decoded(raw_view(args), bytes_of(contents)) == Ok::<
                    ArgsView,
                    Error,
                >(decoded_args@) && decoded_args.wf(),
                Err(error) => decoded(raw_view(args), bytes_of(contents)) == Err::<
                    ArgsView,
                    Error,
                >(error),
            },
    {
        let pid = match args {
            Some(RawArgs { pid: Some(pid), path: Some(_) }) => pid,
            _ => { return Err(Error::MissingArgument); },
        };
        match Args::cache_path(args) {
            Ok(_) => {},
            Err(error) => { return Err(error); },
        }
        let zwc_data = match contents {
            Some(zwc_data) => zwc_data,
            None => { return Err(Error::IoError); },
        };
        let pid = match read_argument(pid.as_slice()) {
            Some(text) => parse_pid(text.as_slice()),
            None => None,
        };
        match pid {
            Some(pid) => Ok(Args { pid, zwc_data }),
            None => Err(Error::InvalidPid),
        }
    }
}

/// A string that is followed by its terminator, and is shorter than the
/// limit, is the argument in its buffer, whatever comes behind.
pub proof fn lemma_terminated_argument(string: Seq<u8>, behind: Seq<u8>)
    requires
        string.len() < ARGUMENT_LIMIT,
        forall|i: int| 0 <= i < string.len() ==> #[trigger] string[i] != 0,
    ensures
        argument(string + seq![0u8] + behind) == Some(string),
        argument(string) is None,
{
    let buffer = string + seq![0u8] + behind;
    assert(buffer[string.len() as int] == 0);
    assert forall|i: int| 0 <= i < string.len() implies #[trigger] buffer[i] != 0 by {
        assert(buffer[i] == string[i]);
    }
    lemma_c_len_unique(buffer, string.len() as int);
    assert(buffer.take(string.len() as int) =~= string);
    lemma_c_len_unique(string, string.len() as int);
}

/// Decoding succeeds on every well-formed input: where both arguments are
/// there, the first holds a process id, the second holds a path and the file
/// could be read, the result holds that process id and exactly the bytes
/// that were read.
pub proof fn lemma_well_formed_decodes(pid: Seq<u8>, path: Seq<u8>, data: Seq<u8>)
    requires
        pid_in(pid) is Some,
        path_in(path) is Some,
    ensures
        decoded(Some(RawArgsView { pid: Some(pid), path: Some(path) }), Some(data)) == Ok::<
            ArgsView,
            Error,
        >(ArgsView { pid: pid_in(pid)->Some_0, zwc_data: data }),
        pid_in(pid)->Some_0 > 0,
        cache_path_of(Some(RawArgsView { pid: Some(pid), path: Some(path) })) == Ok::<
            Seq<char>,
            Error,
        >(path_in(path)->Some_0),
{
}

/// Decoding fails on every malformed input, with the error that names the
/// first thing found wrong: an absent array or element; a second argument
/// that holds no path; a file that could not be read; a first argument that
/// holds no process id. It succeeds on no other input.
pub proof fn lemma_malformed_fails(args: Option<RawArgsView>, contents: Option<Seq<u8>>)
    ensures
        args is None || args->Some_0.pid is None || args->Some_0.path is None ==> decoded(
            args,
            contents,
        ) == Err::<ArgsView, Error>(Error::MissingArgument),
        args matches Some(RawArgsView { pid: Some(_), path: Some(path) }) && path_in(path)
            is None ==> decoded(args, contents) == Err::<ArgsView, Error>(Error::InvalidPath),
        args matches Some(RawArgsView { pid: Some(_), path: Some(path) }) && path_in(path)
            is Some && contents is None ==> decoded(args, contents) == Err::<ArgsView, Error>(
            Error::IoError,
        ),
        args matches Some(RawArgsView { pid: Some(pid), path: Some(path) }) && path_in(path)
            is Some && contents is Some && pid_in(pid) is None ==> decoded(args, contents)
            == Err::<ArgsView, Error>(Error::InvalidPid),
        decoded(args, contents) is Ok ==> {
            &&& args matches Some(RawArgsView { pid: Some(pid), path: Some(path) })
            &&& pid_in(pid) is Some
            &&& path_in(path) is Some
            &&& contents is Some
        },
{
}

/// What holds no path, and what holds no process id: a buffer without a
/// terminator within the limit; a string that is not UTF-8; and, for the
/// process id, a string that is empty or has a byte that is neither a digit
/// nor a plus sign in front.
pub proof fn lemma_malformed_arguments(buffer: Seq<u8>)
    ensures
        argument(buffer) is None ==> path_in(buffer) is None && pid_in(buffer) is None,
        argument(buffer) matches Some(string) && !valid_utf8(string) ==> path_in(buffer) is None
            && pid_in(buffer) is None,
        argument(buffer) matches Some(string) && !is_pid_text(string) ==> pid_in(buffer) is None,
        argument(buffer) matches Some(string) && valid_utf8(string) ==> path_in(buffer) is Some,
{
    if argument(buffer) is Some {
        lemma_not_pid_text(argument(buffer)->Some_0);
    }
}

/// Where no path can be found in the arguments, decoding fails with the
/// same error whatever the caller passes for the file's contents.
pub proof fn lemma_no_path_no_read(args: Option<RawArgsView>, contents: Option<Seq<u8>>)
    requires
        cache_path_of(args) is Err,
    ensures
        decoded(args, contents) == Err::<ArgsView, Error>(cache_path_of(args)->Err_0),
{
}

} // verus!
