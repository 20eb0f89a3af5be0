//! The single failure value of the facade, and how an engine error becomes
//! one.
use vstd::prelude::*;

verus! {

/// Why a call on the index handle failed.
#[derive(Clone, Copy, Debug, PartialEq, Eq, Structural)]
pub enum ErrorKind {
    /// The engine rejected the options or could not initialize.
    Construction,
    /// A document or directory could not be processed, or the built index
    /// could not be read back.
    Indexing,
    /// The index could not be serialized to disk.
    Write,
    /// A produced filename is not representable as text.
    Encoding,
}

/// The operations of the handle that reach the engine.
#[derive(Clone, Copy, Debug, PartialEq, Eq, Structural)]
pub enum Operation {
    Construct,
    AddHtmlFile,
    AddDirectory,
    WriteFiles,
    GetFiles,
}

/// The context that opens the message of a failure of `op`.
pub open spec fn error_prefix(op: Operation) -> Seq<char> {
    match op {
        Operation::Construct => "Failed to create PagefindIndex: "@,
        Operation::AddHtmlFile => "Error adding HTML file: "@,
        Operation::AddDirectory => "Error adding directory: "@,
        Operation::WriteFiles => "Error writing files: "@,
        Operation::GetFiles => "Error getting files: "@,
    }
}

/// The kind of failure that an engine error during `op` stands for.
pub open spec fn error_kind(op: Operation) -> ErrorKind {
    match op {
        Operation::Construct => ErrorKind::Construction,
        Operation::AddHtmlFile => ErrorKind::Indexing,
        Operation::AddDirectory => ErrorKind::Indexing,
        Operation::WriteFiles => ErrorKind::Write,
        Operation::GetFiles => ErrorKind::Indexing,
    }
}

/// What a [`PagefindException`] holds.
pub struct ExceptionView {
    pub kind: ErrorKind,
    pub message: Seq<char>,
}

/// The failure that the engine error with text `engine_error` becomes when it
/// is met during `op`: the operation's context, then the engine's own words.
pub open spec fn engine_failure(op: Operation, engine_error: Seq<char>) -> ExceptionView {
    ExceptionView { kind: error_kind(op), message: error_prefix(op) + engine_error }
}

/// The failure raised for a produced filename that is not valid UTF-8.
pub open spec fn invalid_filename() -> ExceptionView {
    ExceptionView { kind: ErrorKind::Encoding, message: "Invalid UTF-8 in filename"@ }
}

/// The one failure value of the facade: a human-readable message, which is
/// all that the host is meant to read, and the kind of failure it stands for.
#[derive(Debug)]
pub struct PagefindException {
    kind: ErrorKind,
    message: String,
}

impl View for PagefindException {
    type V = ExceptionView;

    closed spec fn view(&self) -> ExceptionView {
        ExceptionView { kind: self.kind, message: self.message@ }
    }
}

fn error_prefix_text(op: Operation) -> (prefix: &'static str)
    ensures
        prefix@ == error_prefix(op),
{
    match op {
        Operation::Construct => "Failed to create PagefindIndex: ",
        Operation::AddHtmlFile => "Error adding HTML file: ",
        Operation::AddDirectory => "Error adding directory: ",
        Operation::WriteFiles => "Error writing files: ",
        Operation::GetFiles => "Error getting files: ",
    }
}

fn kind_of(op: Operation) -> (kind: ErrorKind)
    ensures
        kind == error_kind(op),
{
    match op {
        Operation::Construct => ErrorKind::Construction,
        Operation::AddHtmlFile => ErrorKind::Indexing,
        Operation::AddDirectory => ErrorKind::Indexing,
        Operation::WriteFiles => ErrorKind::Write,
        Operation::GetFiles => ErrorKind::Indexing,
    }
}

impl PagefindException {
    /// A failure of the given kind with the given message.
    pub fn new(kind: ErrorKind, message: String) -> (e: Self)
        ensures
            e@ == (ExceptionView { kind, message: message@ }),
    {
        PagefindException { kind, message }
    }

    /// The failure for an engine error met during `op`.
    pub fn from_engine_error(op: Operation, engine_error: &str) -> (e: Self)
        ensures
            e@ == engine_failure(op, engine_error@),
    {
        let mut message = String::from_str(error_prefix_text(op));
        message.append(engine_error);
        PagefindException { kind: kind_of(op), message }
    }

    /// The failure for a produced filename that is not valid UTF-8.
    pub fn invalid_filename() -> (e: Self)
        ensures
            e@ == invalid_filename(),
    {
        PagefindException {
            kind: ErrorKind::Encoding,
            message: String::from_str("Invalid UTF-8 in filename"),
        }
    }

    pub fn kind(&self) -> (kind: ErrorKind)
        ensures
            kind == self@.kind,
    {
        self.kind
    }

    pub fn get_message(&self) -> (message: String)
        ensures
            message@ == self@.message,
    {
        self.message.clone()
    }
}

} // verus!
