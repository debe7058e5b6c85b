//! The single error representation of the service: a kind and a readable message.

use vstd::prelude::*;

verus! {

/// Why an operation of the store failed.
#[derive(Debug, Clone, Copy, PartialEq, Eq, Structural)]
pub enum ErrorKind {
    /// The content of an upload matches no known file type.
    UnknownFileType,
    /// A key is not written in the identifier format of the blob store.
    InvalidKey,
    /// A well-formed key names no stored blob.
    NotFound,
    /// An upload form cannot be decoded: a text field of it is not UTF-8.
    DecodeError,
    /// The blob store or the document store reported a failure.
    BackendError,
}

/// An error of the service.
#[derive(Debug, Clone)]
pub struct Error {
    kind: ErrorKind,
    message: String,
}

impl Error {
    /// The kind of this error, in contracts.
    pub closed spec fn spec_kind(&self) -> ErrorKind {
        self.kind
    }

    /// The message of this error, in contracts.
    pub closed spec fn spec_message(&self) -> Seq<char> {
        self.message@
    }

    /// An error of the given kind with the given message.
    pub fn new(kind: ErrorKind, message: String) -> (e: Error)
        ensures
            e.spec_kind() == kind,
            e.spec_message() == message@,
    {
        Error { kind, message }
    }

    /// The error of an upload whose content no file type matches.
    pub fn unknown_file_type() -> (e: Error)
        ensures
            e.spec_kind() == ErrorKind::UnknownFileType,
            e.spec_message() == "unknown file type"@,
    {
        Error { kind: ErrorKind::UnknownFileType, message: "unknown file type".to_owned() }
    }

    #[verifier::when_used_as_spec(spec_kind)]
    pub fn kind(&self) -> (k: ErrorKind)
        ensures
            k == self.spec_kind(),
    {
        self.kind
    }

    /// The message, as the response body carries it.
    pub fn message(&self) -> (m: &str)
        ensures
            m@ == self.spec_message(),
    {
        self.message.as_str()
    }

    /// The text of the error: its message.
    pub fn to_text(&self) -> (text: String)
        ensures
            text@ == self.spec_message(),
    {
        self.message.clone()
    }

    /// The HTTP status under which the error is reported: a server error, whatever the kind.
    pub fn status_code(&self) -> (status: u16)
        ensures
            status == 500,
    {
        500
    }
}

} // verus!
