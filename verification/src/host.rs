//! What the host shell is told about this module: the one builtin command
//! that it offers, and how many features of each kind.

use vstd::prelude::*;

verus! {

/// A value that is laid out once and then lent to the host for as long as
/// the module is loaded.
#[derive(Debug)]
pub struct CSharedStruct<T>(T);

impl<T> View for CSharedStruct<T> {
    type V = T;

    closed spec fn view(&self) -> T {
        self.0
    }
}

impl<T> CSharedStruct<T> {
    /// Lays `value` out for sharing.
    pub fn new(value: T) -> (r: Self)
        ensures
            r@ == value,
    {
        CSharedStruct(value)
    }

    /// Lends the shared value.
    pub fn get(&self) -> (r: &T)
        ensures
            *r == self@,
    {
        &self.0
    }
}

/// The entry of a builtin command in the host's table.
#[derive(Debug, Clone, Copy, PartialEq, Eq)]
pub struct Builtin {
    /// The name under which the command is called.
    pub name: &'static str,
    /// The host's flags for the command.
    pub flags: i32,
    /// The smallest number of arguments that the host lets through.
    pub min_args: i32,
    /// The largest number of arguments that the host lets through.
    pub max_args: i32,
    /// The number by which the host tells apart commands that share a
    /// function.
    pub func_no: i32,
}

/// How many features of each kind the module offers.
#[derive(Debug, Clone, Copy, PartialEq, Eq, Structural)]
pub struct Features {
    pub builtins: usize,
    pub conditions: usize,
    pub parameters: usize,
    pub math_functions: usize,
    pub abstracts: usize,
}

/// The name of the builtin command.
pub const BUILTIN_NAME: &'static str = "setns_shell";

/// The number of arguments that the command takes: the process id and the
/// path of the completion cache.
pub const ARGUMENT_COUNT: i32 = 2;

/// The table entry of the builtin command: its name, no flags, and exactly
/// two arguments.
pub fn builtin() -> (r: CSharedStruct<Builtin>)
    ensures
        r@.name@ == BUILTIN_NAME@,
        r@.flags == 0,
        r@.min_args == ARGUMENT_COUNT,
        r@.max_args == ARGUMENT_COUNT,
        r@.func_no == 0,
{
    CSharedStruct::new(
        Builtin {
            name: BUILTIN_NAME,
            flags: 0,
            min_args: ARGUMENT_COUNT,
            max_args: ARGUMENT_COUNT,
            func_no: 0,
        },
    )
}

/// The features of the module: one builtin command and nothing else.
pub fn features() -> (r: CSharedStruct<Features>)
    ensures
        r@ == (Features {
            builtins: 1,
            conditions: 0,
            parameters: 0,
            math_functions: 0,
            abstracts: 0,
        }),
{
    CSharedStruct::new(
        Features { builtins: 1, conditions: 0, parameters: 0, math_functions: 0, abstracts: 0 },
    )
}

} // verus!
