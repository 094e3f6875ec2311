use vstd::prelude::*;

use crate::error::{Error, ErrorKind};

verus! {

/// A subcommand that is not known.
#[derive(Debug)]
pub struct Unknown {
    command: String,
}

impl Unknown {
    pub fn new(command: String) -> (r: Self)
        ensures
            r.command_spec() == command@,
    {
        Unknown { command }
    }

    pub closed spec fn command_spec(&self) -> Seq<char> {
        self.command@
    }

    /// The command as it was given.
    pub fn command(&self) -> (r: &String)
        ensures
            r@ == self.command_spec(),
    {
        &self.command
    }

    /// Running an unknown command always fails with `UnknownCommand`.
    pub fn execute(&self) -> (r: Result<(), Error>)
        ensures
            r == Err::<(), Error>(Error { kind: ErrorKind::UnknownCommand }),
    {
        Err(Error::from(ErrorKind::UnknownCommand))
    }
}

/// The version subcommand.
#[derive(Debug, Default)]
pub struct Version;

impl Version {
    pub fn new() -> (r: Self) {
        Version
    }
}

} // verus!
