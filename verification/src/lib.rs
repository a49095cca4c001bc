//! Attaching an interactive login shell to the namespaces of a running
//! container process, and repairing the shell's environment afterwards.
//!
//! The crate holds the decisions of that procedure; the caller performs the
//! requests that they lead to and hands the answers back as plain values.
//! One invocation has four stages, and the first that fails ends it:
//!
//! 1. *Decoding* ([`parse`]). [`Args::cache_path`] finds the path of the
//!    completion cache in the two arguments; the caller reads that file;
//!    [`Args::parse`] gives the process id and the cache.
//! 2. *Entry* ([`setns`]). [`enter_container`] says which kernel request is
//!    due: open a handle to the process, join its namespaces, release the
//!    handle. [`setns::Entry::advance`] takes each answer.
//! 3. *Discovery* ([`env`]). [`env::Account::resolve`] reads the directory
//!    entry of the user, [`env::Account::login_command`] says how to ask the
//!    login shell for its search path, and [`NSEnv::discover`] puts the
//!    session together.
//! 4. *Injection* ([`inject`]). [`NSEnv::write`] starts it;
//!    [`inject::Injection::request`] says what to write or type next, and
//!    [`inject::Injection::advance`] takes each result.
//!
//! At the end, [`report::status`] gives the status for the host and
//! [`report::report`] the lines for standard error. [`host`] describes the
//! builtin command that the host registers.

pub mod env;
pub mod error;
pub mod host;
pub mod inject;
pub mod parse;
pub mod pid;
pub mod report;
pub mod setns;
pub mod text;

pub use env::NSEnv;
pub use error::Error;
pub use host::CSharedStruct;
pub use parse::Args;
pub use setns::enter_container;
