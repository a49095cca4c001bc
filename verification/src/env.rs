//! The session as it is inside the container, and how it is found out.

use vstd::prelude::*;
use vstd::utf8::{decode_utf8_encode_utf8, encode_utf8};
use crate::error::Error;
use crate::text::{
    bytes_of, c_string, slice_bytes_of, string_from_utf8, text_of, trim, trimmed, until_nul,
};

verus! {

/// An entry of the account directory as the lookup gave it. Each field is
/// absent, or the bytes found where it points: a C string, with or without
/// its terminator.
#[derive(Debug, PartialEq, Eq)]
pub struct RawAccount {
    pub name: Option<Vec<u8>>,
    pub dir: Option<Vec<u8>>,
    pub shell: Option<Vec<u8>>,
}

/// What a `RawAccount` holds.
pub struct RawAccountView {
    pub name: Option<Seq<u8>>,
    pub dir: Option<Seq<u8>>,
    pub shell: Option<Seq<u8>>,
}

impl View for RawAccount {
    type V = RawAccountView;

    open spec fn view(&self) -> RawAccountView {
        RawAccountView {
            name: bytes_of(self.name),
            dir: bytes_of(self.dir),
            shell: bytes_of(self.shell),
        }
    }
}

/// What a directory entry that may be absent holds.
pub open spec fn entry_view(entry: Option<&RawAccount>) -> Option<RawAccountView> {
    match entry {
        Some(raw) => Some(raw@),
        None => None,
    }
}

/// The account of the user inside the container.
#[derive(Debug, PartialEq, Eq)]
pub struct Account {
    pub username: String,
    pub home: String,
    pub shell: String,
}

/// What an `Account` holds.
pub struct AccountView {
    pub username: Seq<char>,
    pub home: Seq<char>,
    pub shell: Seq<char>,
}

impl View for Account {
    type V = AccountView;

    open spec fn view(&self) -> AccountView {
        AccountView { username: self.username@, home: self.home@, shell: self.shell@ }
    }
}

/// The account that a directory entry describes: the entry and its three
/// fields must be there, and the C string in each field must be text.
pub open spec fn account_of(entry: Option<RawAccountView>) -> Option<AccountView> {
    match entry {
        Some(RawAccountView { name: Some(name), dir: Some(dir), shell: Some(shell) }) => match (
            text_of(c_string(name)),
            text_of(c_string(dir)),
            text_of(c_string(shell)),
        ) {
            (Some(username), Some(home), Some(shell)) => Some(
                AccountView { username, home, shell },
            ),
            _ => None,
        },
        _ => None,
    }
}

/// A program to run, with its arguments, and whether it starts with an
/// empty environment.
#[derive(Debug, PartialEq, Eq)]
pub struct ShellCommand {
    pub program: String,
    pub args: Vec<String>,
    pub clear_env: bool,
}

/// The argument that makes a shell a login shell.
pub const LOGIN_FLAG: &'static str = "-l";

/// The argument that makes a shell run the next argument and exit.
pub const COMMAND_FLAG: &'static str = "-c";

/// The command that prints the search path and nothing else.
pub const PRINT_PATH: &'static str = "echo -n $PATH";

impl ShellCommand {
    /// This command runs `shell` as a login shell that is not interactive,
    /// in an empty environment, to print its search path.
    pub open spec fn asks_path_of(&self, shell: Seq<char>) -> bool {
        &&& self.program@ == shell
        &&& self.args@.len() == 3
        &&& self.args@[0]@ == LOGIN_FLAG@
        &&& self.args@[1]@ == COMMAND_FLAG@
        &&& self.args@[2]@ == PRINT_PATH@
        &&& self.clear_env
    }
}

impl Account {
    /// Reads the account from the directory entry of the effective user,
    /// where the lookup found one.
    pub fn resolve(entry: Option<&RawAccount>) -> (r: Result<Account, Error>)
        ensures
            match r {
                Ok(account) => account_of(entry_view(entry)) == Some(account@),
                Err(error) => error == Error::DiscoveryFailed && account_of(entry_view(entry))
                    is None,
            },
    {
        let raw = match entry {
            Some(raw) => raw,
            None => { return Err(Error::DiscoveryFailed); },
        };
        let (name, dir, shell) = match (&raw.name, &raw.dir, &raw.shell) {
            (Some(name), Some(dir), Some(shell)) => (name, dir, shell),
            _ => { return Err(Error::DiscoveryFailed); },
        };
        let username = string_from_utf8(until_nul(name.as_slice()));
        let home = string_from_utf8(until_nul(dir.as_slice()));
        let shell = string_from_utf8(until_nul(shell.as_slice()));
        match (username, home, shell) {
            (Some(username), Some(home), Some(shell)) => Ok(Account { username, home, shell }),
            _ => Err(Error::DiscoveryFailed),
        }
    }

    /// The command whose output is the search path inside the container:
    /// the account's login shell, as a login shell, in an empty environment.
    pub fn login_command(&self) -> (r: ShellCommand)
        ensures
            r.asks_path_of(self@.shell),
    {
        let mut args: Vec<String> = Vec::new();
        args.push(LOGIN_FLAG.to_owned());
        args.push(COMMAND_FLAG.to_owned());
        args.push(PRINT_PATH.to_owned());
        ShellCommand { program: self.shell.clone(), args, clear_env: true }
    }
}

/// The session inside the container. It is put together once, and used up
/// by the one injection that makes the shell adopt it.
#[derive(Debug, PartialEq, Eq)]
pub struct NSEnv {
    username: String,
    home: String,
    hostname: String,
    path: String,
}

/// What an `NSEnv` holds.
pub struct NSEnvView {
    pub username: Seq<char>,
    pub home: Seq<char>,
    pub hostname: Seq<char>,
    pub path: Seq<char>,
}

impl View for NSEnv {
    type V = NSEnvView;

    closed spec fn view(&self) -> NSEnvView {
        NSEnvView {
            username: self.username@,
            home: self.home@,
            hostname: self.hostname@,
            path: self.path@,
        }
    }
}

/// The session that was found, where the kernel filled `hostname` (a buffer
/// that holds a C string) and the login shell printed `output`; `None` for
/// either says that the request failed.
///
/// The user and the home directory are the account's. The host name is the
/// C string in the buffer. The search path is the shell's output without
/// the white space around it. Both must be text.
pub open spec fn discovered(
    account: AccountView,
    hostname: Option<Seq<u8>>,
    output: Option<Seq<u8>>,
) -> Option<NSEnvView> {
    match (hostname, output) {
        (Some(buffer), Some(printed)) => match (
            text_of(c_string(buffer)),
            text_of(trimmed(printed)),
        ) {
            (Some(hostname), Some(path)) => Some(
                NSEnvView { username: account.username, home: account.home, hostname, path },
            ),
            _ => None,
        },
        _ => None,
    }
}

/// A session that was found carries the kernel's host name and the shell's
/// search path byte for byte: encoding them gives the C string in the
/// buffer and the trimmed output back.
pub proof fn lemma_discovery_is_exact(
    account: AccountView,
    hostname: Seq<u8>,
    output: Seq<u8>,
)
    requires
        discovered(account, Some(hostname), Some(output)) is Some,
    ensures
        encode_utf8(discovered(account, Some(hostname), Some(output))->Some_0.hostname)
            == c_string(hostname),
        encode_utf8(discovered(account, Some(hostname), Some(output))->Some_0.path) == trimmed(
            output,
        ),
        discovered(account, Some(hostname), Some(output))->Some_0.username == account.username,
        discovered(account, Some(hostname), Some(output))->Some_0.home == account.home,
{
    decode_utf8_encode_utf8(c_string(hostname));
    decode_utf8_encode_utf8(trimmed(output));
}

impl NSEnv {
    /// Puts a session together from its four parts.
    pub fn new(username: String, home: String, hostname: String, path: String) -> (r: NSEnv)
        ensures
            r@ == (NSEnvView {
                username: username@,
                home: home@,
                hostname: hostname@,
                path: path@,
            }),
    {
        NSEnv { username, home, hostname, path }
    }

    /// The name of the user.
    pub fn username(&self) -> (r: &str)
        ensures
            r@ == self@.username,
    {
        self.username.as_str()
    }

    /// The home directory of the user.
    pub fn home(&self) -> (r: &str)
        ensures
            r@ == self@.home,
    {
        self.home.as_str()
    }

    /// The name of the host.
    pub fn hostname(&self) -> (r: &str)
        ensures
            r@ == self@.hostname,
    {
        self.hostname.as_str()
    }

    /// The search path of the login shell.
    pub fn path(&self) -> (r: &str)
        ensures
            r@ == self@.path,
    {
        self.path.as_str()
    }

    /// Puts together the session inside the container from the account of
    /// the effective user, the buffer that the kernel filled with the host
    /// name, and what the command `account.login_command()` printed. `None`
    /// for either of the two says that the request failed. There is no
    /// session unless every part is there.
    pub fn discover(account: Account, hostname: Option<&[u8]>, shell_output: Option<&[u8]>) -> (r:
        Result<NSEnv, Error>)
        ensures
            match r {
                Ok(env) => discovered(
                    account@,
                    slice_bytes_of(hostname),
                    slice_bytes_of(shell_output),
                ) == Some(env@),
                Err(error) => error == Error::DiscoveryFailed && discovered(
                    account@,
                    slice_bytes_of(hostname),
                    slice_bytes_of(shell_output),
                ) is None,
            },
    {
        let (buffer, printed) = match (hostname, shell_output) {
            (Some(buffer), Some(printed)) => (buffer, printed),
            _ => { return Err(Error::DiscoveryFailed); },
        };
        let hostname = string_from_utf8(until_nul(buffer));
        let path = string_from_utf8(trim(printed));
        match (hostname, path) {
            (Some(hostname), Some(path)) => Ok(
                NSEnv { username: account.username, home: account.home, hostname, path },
            ),
            _ => Err(Error::DiscoveryFailed),
        }
    }
}

} // verus!
