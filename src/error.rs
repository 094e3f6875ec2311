use vstd::prelude::*;

verus! {

/// The kinds of failure that the process manager reports.
#[derive(Clone, Copy, Debug, PartialEq, Eq, Structural)]
pub enum ErrorKind {
    BadHostParameter,
    DbOpen,
    DbLoad,
    DbInsert,
    DbFlush,
    DbRetrieve,
    DbLock,
    InitializeTokio,
    ForkFailed,
    FileOpen,
    UnknownCommand,
}

/// An error of the process manager: one kind of failure.
#[derive(Clone, Copy, Debug, PartialEq, Eq, Structural)]
pub struct Error {
    pub kind: ErrorKind,
}

impl Error {
    pub open spec fn kind_spec(&self) -> ErrorKind {
        self.kind
    }

    pub fn kind(&self) -> (r: ErrorKind)
        ensures
            r == self.kind_spec(),
    {
        self.kind
    }
}

impl From<ErrorKind> for Error {
    fn from(kind: ErrorKind) -> (r: Error) {
        Error { kind }
    }
}

impl vstd::std_specs::convert::FromSpecImpl<ErrorKind> for Error {
    open spec fn obeys_from_spec() -> bool {
        true
    }

    open spec fn from_spec(kind: ErrorKind) -> Error {
        Error { kind }
    }
}

/// The message shown to a user for a kind of failure.
pub open spec fn message_of(k: ErrorKind) -> Seq<char> {
    match k {
        ErrorKind::BadHostParameter => "Invalid value for --host parameter"@,
        ErrorKind::DbOpen => "Could not open database file"@,
        ErrorKind::DbLoad => "Could not load database"@,
        ErrorKind::DbInsert => "Could not insert new item to database"@,
        ErrorKind::DbFlush => "Could not write database"@,
        ErrorKind::DbRetrieve => "Could not read database"@,
        ErrorKind::DbLock => "Could not lock database"@,
        ErrorKind::InitializeTokio => "Could not initialize tokio runtime"@,
        ErrorKind::ForkFailed => "Could not Fork"@,
        ErrorKind::FileOpen => "Could not open log file"@,
        ErrorKind::UnknownCommand => "Unknown command"@,
    }
}

impl ErrorKind {
    /// The message shown to a user for this kind of failure.
    pub fn message(&self) -> (r: &'static str)
        ensures
            r@ == message_of(*self),
    {
        match self {
            ErrorKind::BadHostParameter => "Invalid value for --host parameter",
            ErrorKind::DbOpen => "Could not open database file",
            ErrorKind::DbLoad => "Could not load database",
            ErrorKind::DbInsert => "Could not insert new item to database",
            ErrorKind::DbFlush => "Could not write database",
            ErrorKind::DbRetrieve => "Could not read database",
            ErrorKind::DbLock => "Could not lock database",
            ErrorKind::InitializeTokio => "Could not initialize tokio runtime",
            ErrorKind::ForkFailed => "Could not Fork",
            ErrorKind::FileOpen => "Could not open log file",
            ErrorKind::UnknownCommand => "Unknown command",
        }
    }
}

impl Error {
    /// The message shown to a user for this error.
    pub fn message(&self) -> (r: &'static str)
        ensures
            r@ == message_of(self.kind),
    {
        self.kind.message()
    }
}

} // verus!
