//! The two error kinds raised for invalid data and for unsupported requests.
//!
//! An error is a kind and a message. The kind is data, so a caller branches
//! on it without inspecting the message.

use vstd::prelude::*;

verus! {

/// What went wrong with a request.
#[derive(Clone, Copy, Debug, PartialEq, Eq, Hash, Structural)]
pub enum ErrorKind {
    /// The supplied data is malformed or does not fit the requested operation.
    DataError,
    /// The request is understood, but this engine does not implement it.
    NotSupportedError,
}

impl ErrorKind {
    /// The class name under which the binding layer raises this kind.
    pub open spec fn class_name_spec(self) -> Seq<char> {
        match self {
            ErrorKind::DataError => "DOMExceptionDataError"@,
            ErrorKind::NotSupportedError => "DOMExceptionNotSupportedError"@,
        }
    }

    /// The class name under which the binding layer raises this kind.
    pub fn class_name(self) -> (name: &'static str)
        ensures
            name@ == self.class_name_spec(),
    {
        match self {
            ErrorKind::DataError => "DOMExceptionDataError",
            ErrorKind::NotSupportedError => "DOMExceptionNotSupportedError",
        }
    }

    /// The two kinds are raised under different class names.
    pub proof fn lemma_class_names_are_distinct(a: ErrorKind, b: ErrorKind)
        requires
            a.class_name_spec() == b.class_name_spec(),
        ensures
            a == b,
    {
        reveal_strlit("DOMExceptionDataError");
        reveal_strlit("DOMExceptionNotSupportedError");
        assert("DOMExceptionDataError"@.len() == 21);
        assert("DOMExceptionNotSupportedError"@.len() == 29);
    }
}

/// An error of the engine: its kind, and a message for the reader.
#[derive(Clone, Debug, PartialEq, Eq)]
pub struct CryptoError {
    /// Which of the two kinds this error is.
    pub kind: ErrorKind,
    /// The human-readable message.
    pub message: String,
}

impl CryptoError {
    /// The kind of this error.
    pub fn kind(&self) -> (kind: ErrorKind)
        ensures
            kind == self.kind,
    {
        self.kind
    }

    /// The message of this error.
    pub fn message(&self) -> (message: &str)
        ensures
            message@ == self.message@,
    {
        self.message.as_str()
    }

    /// The class name under which the binding layer raises this error.
    pub fn class_name(&self) -> (name: &'static str)
        ensures
            name@ == self.kind.class_name_spec(),
    {
        self.kind.class_name()
    }

    /// Errors of different kinds are different errors, whatever their
    /// messages: a data error is never taken for a not-supported error.
    pub proof fn lemma_kinds_are_distinguishable(data: CryptoError, not_supported: CryptoError)
        requires
            data.kind == ErrorKind::DataError,
            not_supported.kind == ErrorKind::NotSupportedError,
        ensures
            data.kind != not_supported.kind,
            data != not_supported,
            data.kind.class_name_spec() != not_supported.kind.class_name_spec(),
    {
        if data.kind.class_name_spec() == not_supported.kind.class_name_spec() {
            ErrorKind::lemma_class_names_are_distinct(data.kind, not_supported.kind);
        }
    }
}

/// An error that says the data supplied is invalid for the operation asked
/// for, with the message given.
pub fn data_error(msg: &str) -> (error: CryptoError)
    ensures
        error.kind == ErrorKind::DataError,
        error.message@ == msg@,
{
    CryptoError { kind: ErrorKind::DataError, message: msg.to_owned() }
}

/// An error that says the request is understood but not implemented, with
/// the message given.
pub fn not_supported_error(msg: &str) -> (error: CryptoError)
    ensures
        error.kind == ErrorKind::NotSupportedError,
        error.message@ == msg@,
{
    CryptoError { kind: ErrorKind::NotSupportedError, message: msg.to_owned() }
}

/// The error for an import or export format that the engine does not
/// implement: a not-supported error whose message is `unsupported format`.
pub fn unsupported_format() -> (error: CryptoError)
    ensures
        error.kind == ErrorKind::NotSupportedError,
        error.message@ == "unsupported format"@,
{
    not_supported_error("unsupported format")
}

} // verus!
