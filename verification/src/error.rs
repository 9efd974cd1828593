use vstd::prelude::*;

verus! {

/// What went wrong, by the place where it went wrong.
#[derive(Clone, Copy, Debug, PartialEq, Eq, Structural)]
pub enum ErrorKind {
    /// A path-spec that is neither `<path>` nor `<target>:<path>`.
    Parse,
    /// A service client could not be set up.
    Config,
    /// A local file could not be read or written.
    Io,
    /// The relay store refused a put or a get.
    Relay,
    /// A remote command could not be submitted, ended without success, or
    /// reported a status that is not known.
    RemoteCommand,
}

/// A failed transfer: the kind of failure and the text that goes with it.
#[derive(Debug, PartialEq, Eq)]
pub struct TransferError {
    pub kind: ErrorKind,
    pub message: String,
}

/// The mathematical content of a `TransferError`.
pub ghost struct ErrorView {
    pub kind: ErrorKind,
    pub message: Seq<char>,
}

impl View for TransferError {
    type V = ErrorView;

    open spec fn view(&self) -> ErrorView {
        ErrorView { kind: self.kind, message: self.message@ }
    }
}

impl TransferError {
    pub fn new(kind: ErrorKind, message: String) -> (error: Self)
        ensures
            error@ == (ErrorView { kind, message: message@ }),
    {
        TransferError { kind, message }
    }

    pub fn kind(&self) -> (kind: ErrorKind)
        ensures
            kind == self@.kind,
    {
        self.kind
    }

    pub fn message(&self) -> (message: &str)
        ensures
            message@ == self@.message,
    {
        self.message.as_str()
    }
}

} // verus!
