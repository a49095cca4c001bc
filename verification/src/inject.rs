//! Making the running shell adopt a session: what is written where, in
//! which order, and what a failure means.
//!
//! Changing the environment of the process does not reach a shell that is
//! already running. So the session is written down as a script, and the
//! shell is made to read it: the command to do so is queued in the input
//! buffer of its terminal, as if the user had typed it.

use vstd::prelude::*;
use vstd::slice::slice_to_vec;
use vstd::utf8::encode_utf8;
use crate::env::{NSEnv, NSEnvView};
use crate::error::Error;

verus! {

/// The variable that names a directory for temporary files. Its value is
/// from outside the container.
pub const STALE_VARIABLE: &'static str = "TMPDIR";

/// Where the copy of the completion cache is written.
pub const CACHE_FILE: &'static str = "/tmp/full.zwc";

/// Where the script is written that the shell is made to read.
pub const SCRIPT_FILE: &'static str = "/tmp/init.zsh";

/// One command of the script: `prefix`, then `value`, then a semicolon and
/// a line feed.
pub open spec fn script_line(prefix: Seq<char>, value: Seq<char>) -> Seq<char> {
    prefix + value + ";\n"@
}

/// The script that makes a shell adopt the session `env`: it forgets the
/// history file, exports the home directory, the user, the host name twice
/// over, the search path and the place of the completion cache, and changes
/// to the home directory.
pub open spec fn init_script(env: NSEnvView) -> Seq<char> {
    script_line("unset HISTFILE"@, Seq::empty())
        + script_line("export HOME="@, env.home)
        + script_line("export USER="@, env.username)
        + script_line("export HOST="@, env.hostname)
        + script_line("export HOSTNAME="@, env.hostname)
        + script_line("export PATH="@, env.path)
        + script_line("export FPATH="@, CACHE_FILE@)
        + script_line("cd "@, env.home)
}

/// The line typed into the terminal: it makes the shell read the script.
pub open spec fn source_line() -> Seq<char> {
    "source "@ + SCRIPT_FILE@ + "\n"@
}

/// How injection ended where it did not fail.
#[derive(Debug, Clone, Copy, PartialEq, Eq, Structural)]
pub enum Applied {
    /// Both files are written and the shell has been told to read the script.
    Complete,
    /// Both files are written, but the line could not be typed into the
    /// terminal: the shell has not been told. This calls for a warning.
    NotQueued,
}

/// What the user is told where the line could not be typed.
pub const NOT_QUEUED_WARNING: &'static str =
    "the terminal took no input; the shell has yet to read the script";

impl Applied {
    /// The warning that this end of injection calls for, if it calls for
    /// one.
    pub open spec fn spec_warning(self) -> Option<Seq<char>> {
        match self {
            Applied::Complete => None,
            Applied::NotQueued => Some(NOT_QUEUED_WARNING@),
        }
    }

    /// Gives the warning that this end of injection calls for, if it calls
    /// for one.
    pub fn warning(self) -> (r: Option<&'static str>)
        ensures
            match r {
                Some(text) => self.spec_warning() == Some(text@),
                None => self.spec_warning() is None,
            },
    {
        match self {
            Applied::Complete => None,
            Applied::NotQueued => Some(NOT_QUEUED_WARNING),
        }
    }
}

/// Where injection stands.
#[derive(Debug, Clone, Copy, PartialEq, Eq)]
pub enum Stage {
    /// Due: remove the variable that overrides the temporary directory.
    Unset,
    /// Due: write the completion cache and flush it to stable storage.
    WriteCache,
    /// Due: write the script and flush it to stable storage.
    WriteScript,
    /// Due: type the line into the terminal.
    QueueInput,
    /// Injection has ended; no request is due.
    Done { outcome: Result<Applied, Error> },
}

impl Stage {
    /// The stage after this one, where the request that was due succeeded
    /// (`ok`) or failed.
    ///
    /// Removing the variable cannot fail. A file that cannot be written or
    /// flushed ends injection with an error. A line that cannot be typed
    /// ends it without one: the files are in place by then.
    pub open spec fn next(self, ok: bool) -> Stage {
        match self {
            Stage::Unset => Stage::WriteCache,
            Stage::WriteCache => if ok {
                Stage::WriteScript
            } else {
                Stage::Done { outcome: Err(Error::IoError) }
            },
            Stage::WriteScript => if ok {
                Stage::QueueInput
            } else {
                Stage::Done { outcome: Err(Error::IoError) }
            },
            Stage::QueueInput => Stage::Done {
                outcome: Ok(
                    if ok {
                        Applied::Complete
                    } else {
                        Applied::NotQueued
                    },
                ),
            },
            Stage::Done { .. } => self,
        }
    }
}

/// The stage that injection has reached once the requests made so far had
/// the `results` given, one for each, `true` for success.
pub open spec fn stage_after(results: Seq<bool>) -> Stage {
    if results.len() == 0 {
        Stage::Unset
    } else if results.len() == 1 {
        Stage::WriteCache
    } else if !results[1] {
        Stage::Done { outcome: Err(Error::IoError) }
    } else if results.len() == 2 {
        Stage::WriteScript
    } else if !results[2] {
        Stage::Done { outcome: Err(Error::IoError) }
    } else if results.len() == 3 {
        Stage::QueueInput
    } else {
        Stage::Done {
            outcome: Ok(
                if results[3] {
                    Applied::Complete
                } else {
                    Applied::NotQueued
                },
            ),
        }
    }
}

/// A request to the caller on behalf of injection.
#[derive(Debug, Clone, Copy, PartialEq, Eq)]
pub enum Request<'a> {
    /// Remove the variable `name` from the environment of the process.
    UnsetVariable { name: &'a str },
    /// Replace the file at `path` by `contents` and flush it to stable
    /// storage.
    WriteFile { path: &'a str, contents: &'a [u8] },
    /// Queue `bytes` in the input buffer of the controlling terminal, as if
    /// the user had typed them.
    QueueInput { bytes: &'a [u8] },
    /// Nothing: injection has ended with `outcome`.
    Finished { outcome: Result<Applied, Error> },
}

/// What a `Request` holds.
pub enum RequestView {
    UnsetVariable { name: Seq<char> },
    WriteFile { path: Seq<char>, contents: Seq<u8> },
    QueueInput { bytes: Seq<u8> },
    Finished { outcome: Result<Applied, Error> },
}

impl<'a> View for Request<'a> {
    type V = RequestView;

    open spec fn view(&self) -> RequestView {
        match *self {
            Request::UnsetVariable { name } => RequestView::UnsetVariable { name: name@ },
            Request::WriteFile { path, contents } => RequestView::WriteFile {
                path: path@,
                contents: contents@,
            },
            Request::QueueInput { bytes } => RequestView::QueueInput { bytes: bytes@ },
            Request::Finished { outcome } => RequestView::Finished { outcome },
        }
    }
}

/// Making a shell adopt a session: what is to be written, and how far the
/// writing has come.
#[derive(Debug, PartialEq, Eq)]
pub struct Injection {
    stage: Stage,
    cache: Vec<u8>,
    script: String,
    line: String,
}

/// What an `Injection` holds: the stage, the bytes of the completion cache,
/// the script, and the line for the terminal.
pub struct InjectionView {
    pub stage: Stage,
    pub cache: Seq<u8>,
    pub script: Seq<char>,
    pub line: Seq<char>,
}

impl View for Injection {
    type V = InjectionView;

    closed spec fn view(&self) -> InjectionView {
        InjectionView {
            stage: self.stage,
            cache: self.cache@,
            script: self.script@,
            line: self.line@,
        }
    }
}

/// The injection of the session `env` with the completion cache `cache`,
/// before any request has been made.
pub open spec fn injection_of(env: NSEnvView, cache: Seq<u8>) -> InjectionView {
    InjectionView { stage: Stage::Unset, cache, script: init_script(env), line: source_line() }
}

impl InjectionView {
    /// The request that is due.
    pub open spec fn request(self) -> RequestView {
        match self.stage {
            Stage::Unset => RequestView::UnsetVariable { name: STALE_VARIABLE@ },
            Stage::WriteCache => RequestView::WriteFile {
                path: CACHE_FILE@,
                contents: self.cache,
            },
            Stage::WriteScript => RequestView::WriteFile {
                path: SCRIPT_FILE@,
                contents: encode_utf8(self.script),
            },
            Stage::QueueInput => RequestView::QueueInput { bytes: encode_utf8(self.line) },
            Stage::Done { outcome } => RequestView::Finished { outcome },
        }
    }

    /// This injection after the request that was due succeeded (`ok`) or
    /// failed.
    pub open spec fn advance(self, ok: bool) -> InjectionView {
        InjectionView { stage: self.stage.next(ok), ..self }
    }

    /// This injection, taken from its start, after the requests made so far
    /// had the `results` given.
    pub open spec fn after(self, results: Seq<bool>) -> InjectionView {
        InjectionView { stage: stage_after(results), ..self }
    }
}

/// Each result advances injection by one stage.
pub proof fn lemma_stage_step(results: Seq<bool>, ok: bool)
    ensures
        stage_after(results.push(ok)) == stage_after(results).next(ok),
{
    let longer = results.push(ok);
    assert forall|i: int| 0 <= i < results.len() implies longer[i] == results[i] by {}
    if results.len() > 1 {
        assert(longer[1] == results[1]);
    }
    if results.len() > 2 {
        assert(longer[2] == results[2]);
    }
    if results.len() > 3 {
        assert(longer[3] == results[3]);
    }
}

/// The order of injection: the variable is removed first; the script is
/// written only once the cache is written and flushed; the line is typed
/// only once both files are; a file that cannot be written ends injection
/// with an error before anything later is asked for; and a line that cannot
/// be typed leaves a success that calls for a warning.
pub proof fn lemma_injection_order(results: Seq<bool>)
    ensures
        stage_after(results) is Unset <==> results.len() == 0,
        stage_after(results) is WriteCache <==> results.len() == 1,
        stage_after(results) is WriteScript <==> results.len() == 2 && results[1],
        stage_after(results) is QueueInput <==> results.len() == 3 && results[1] && results[2],
        stage_after(results) == (Stage::Done { outcome: Err(Error::IoError) }) <==> results.len()
            >= 2 && (!results[1] || (results.len() >= 3 && !results[2])),
        stage_after(results) == (Stage::Done { outcome: Ok(Applied::Complete) })
            <==> results.len() >= 4 && results[1] && results[2] && results[3],
        stage_after(results) == (Stage::Done { outcome: Ok(Applied::NotQueued) })
            <==> results.len() >= 4 && results[1] && results[2] && !results[3],
{
}

/// The files on a disk: what each path holds.
pub type Disk = Map<Seq<char>, Seq<u8>>;

impl InjectionView {
    /// The disk after an injection in which both files could be written,
    /// where it was `disk` before.
    pub open spec fn written(self, disk: Disk) -> Disk {
        disk.insert(CACHE_FILE@, self.cache).insert(SCRIPT_FILE@, encode_utf8(self.script))
    }
}

/// What an injection asks to be written: after one result the cache, to its
/// fixed place; after two, where the cache was written, the script, to its
/// own; and never anything else.
pub proof fn lemma_injection_writes(injection: InjectionView, results: Seq<bool>)
    ensures
        injection.after(results).request() is WriteFile <==> results.len() == 1 || (results.len()
            == 2 && results[1]),
        results.len() == 1 ==> injection.after(results).request() == (RequestView::WriteFile {
            path: CACHE_FILE@,
            contents: injection.cache,
        }),
        results.len() == 2 && results[1] ==> injection.after(results).request() == (
        RequestView::WriteFile { path: SCRIPT_FILE@, contents: encode_utf8(injection.script) }),
{
}

/// The two files have different places.
pub proof fn lemma_files_are_apart()
    ensures
        CACHE_FILE@ != SCRIPT_FILE@,
{
    reveal_strlit("/tmp/full.zwc");
    reveal_strlit("/tmp/init.zsh");
    assert(CACHE_FILE@[5] == 'f');
    assert(SCRIPT_FILE@[5] == 'i');
}

/// Injection is idempotent on the disk: writing the same cache and the same
/// session a second time leaves every file as the first time left it. After
/// either, the copy of the cache holds the cache byte for byte and the
/// script file holds the script of the session, whatever was there before.
pub proof fn lemma_injection_is_idempotent(env: NSEnvView, cache: Seq<u8>, disk: Disk)
    ensures
        injection_of(env, cache).written(injection_of(env, cache).written(disk)) == injection_of(
            env,
            cache,
        ).written(disk),
        injection_of(env, cache).written(disk)[CACHE_FILE@] == cache,
        injection_of(env, cache).written(disk)[SCRIPT_FILE@] == encode_utf8(init_script(env)),
        forall|path: Seq<char>|
            path != CACHE_FILE@ && path != SCRIPT_FILE@ && disk.dom().contains(path)
                ==> #[trigger] injection_of(env, cache).written(disk)[path] == disk[path],
{
    lemma_files_are_apart();
    let injection = injection_of(env, cache);
    assert(injection.written(injection.written(disk)) =~= injection.written(disk));
}

impl NSEnv {
    /// Composes the script that makes a shell adopt this session.
    pub fn script(&self) -> (r: String)
        ensures
            r@ == init_script(self@),
    {
        let mut text = String::new();
        push_line(&mut text, "unset HISTFILE", "");
        push_line(&mut text, "export HOME=", self.home());
        push_line(&mut text, "export USER=", self.username());
        push_line(&mut text, "export HOST=", self.hostname());
        push_line(&mut text, "export HOSTNAME=", self.hostname());
        push_line(&mut text, "export PATH=", self.path());
        push_line(&mut text, "export FPATH=", CACHE_FILE);
        push_line(&mut text, "cd ", self.home());
        proof {
            reveal_strlit("");
            assert(""@ =~= Seq::<char>::empty());
            assert(Seq::<char>::empty() + script_line("unset HISTFILE"@, ""@) =~= script_line(
                "unset HISTFILE"@,
                Seq::empty(),
            ));
        }
        text
    }

    /// Starts making the running shell adopt this session, with `zwc_data`
    /// as the completion cache. Nothing has been asked of the caller yet.
    pub fn write(self, zwc_data: &[u8]) -> (r: Injection)
        ensures
            r@ == injection_of(self@, zwc_data@),
    {
        let script = self.script();
        let mut line = "source ".to_owned();
        line.append(SCRIPT_FILE);
        line.append("\n");
        Injection { stage: Stage::Unset, cache: slice_to_vec(zwc_data), script, line }
    }
}

/// Appends one command to a script.
fn push_line(text: &mut String, prefix: &str, value: &str)
    ensures
        final(text)@ == old(text)@ + script_line(prefix@, value@),
{
    text.append(prefix);
    text.append(value);
    text.append(";\n");
    assert(text@ =~= old(text)@ + script_line(prefix@, value@));
}

impl Injection {
    /// The request that is due.
    pub fn request(&self) -> (r: Request<'_>)
        ensures
            r@ == self@.request(),
    {
        match self.stage {
            Stage::Unset => Request::UnsetVariable { name: STALE_VARIABLE },
            Stage::WriteCache => Request::WriteFile {
                path: CACHE_FILE,
                contents: self.cache.as_slice(),
            },
            Stage::WriteScript => Request::WriteFile {
                path: SCRIPT_FILE,
                contents: self.script.as_str().as_bytes(),
            },
            Stage::QueueInput => Request::QueueInput { bytes: self.line.as_str().as_bytes() },
            Stage::Done { outcome } => Request::Finished { outcome },
        }
    }

    /// Takes the result of the request that was due, `true` for success,
    /// and moves on.
    pub fn advance(self, ok: bool) -> (r: Injection)
        ensures
            r@ == self@.advance(ok),
    {
        let stage = match self.stage {
            Stage::Unset => Stage::WriteCache,
            Stage::WriteCache => if ok {
                Stage::WriteScript
            } else {
                Stage::Done { outcome: Err(Error::IoError) }
            },
            Stage::WriteScript => if ok {
                Stage::QueueInput
            } else {
                Stage::Done { outcome: Err(Error::IoError) }
            },
            Stage::QueueInput => Stage::Done {
                outcome: Ok(
                    if ok {
                        Applied::Complete
                    } else {
                        Applied::NotQueued
                    },
                ),
            },
            Stage::Done { outcome } => Stage::Done { outcome },
        };
        Injection { stage, cache: self.cache, script: self.script, line: self.line }
    }

    /// The outcome of injection, once it has ended.
    pub fn outcome(&self) -> (r: Option<Result<Applied, Error>>)
        ensures
            r == match self@.stage {
                Stage::Done { outcome } => Some(outcome),
                _ => None,
            },
    {
        match self.stage {
            Stage::Done { outcome } => Some(outcome),
            _ => None,
        }
    }
}

} // verus!
