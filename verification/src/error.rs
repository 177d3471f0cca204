//! The failure conditions of buffer operations.

use vstd::prelude::*;

verus! {

/// Why a buffer operation was refused.
#[derive(Debug, PartialEq, Eq)]
pub enum BufferError {
    /// A position lies beyond the valid length, or a length beyond the capacity.
    PositionOutOfBounds,
    /// A single increment exceeds the safety ceiling.
    IncrementTooLarge,
    /// A requested size exceeds the absolute maximum.
    SizeTooBig,
    /// A read or write would cross the end of the data or of the capacity.
    BufferOverflow,
    /// The operation cannot be served in the buffer's present state.
    InvalidState(String),
    /// The circular buffer is full.
    BufferFull,
    /// The circular buffer is empty.
    BufferEmpty,
    /// The circular buffer has less free space than the write needs.
    InsufficientSpace,
    /// A length-prefixed string is longer than the protocol allows.
    InvalidString,
    /// A request carries a value outside its sane range.
    InvalidData(String),
    /// An error reported by an I/O layer.
    Io(String),
}

/// The kinds of I/O error that other layers are told of a buffer error as.
#[derive(Debug, Clone, Copy, PartialEq, Eq)]
pub enum IoErrorKind {
    /// A write could not take all its bytes.
    WriteZero,
    /// The data ended before the read was served.
    UnexpectedEof,
    /// Any other failure.
    Other,
}

/// Joins two pieces of text with `format!`: the result is `head` followed by `tail`.
#[verifier::external_body]
pub(crate) fn joined(head: &str, tail: &str) -> (text: String)
    ensures
        text@ == head@ + tail@,
{
    format!("{}{}", head, tail)
}

impl Clone for BufferError {
    /// A copy of the error: the same condition with the same text.
    fn clone(&self) -> (e: BufferError)
        ensures
            e.text() == self.text(),
    {
        match self {
            BufferError::PositionOutOfBounds => BufferError::PositionOutOfBounds,
            BufferError::IncrementTooLarge => BufferError::IncrementTooLarge,
            BufferError::SizeTooBig => BufferError::SizeTooBig,
            BufferError::BufferOverflow => BufferError::BufferOverflow,
            BufferError::InvalidState(msg) => BufferError::InvalidState(msg.clone()),
            BufferError::BufferFull => BufferError::BufferFull,
            BufferError::BufferEmpty => BufferError::BufferEmpty,
            BufferError::InsufficientSpace => BufferError::InsufficientSpace,
            BufferError::InvalidString => BufferError::InvalidString,
            BufferError::InvalidData(msg) => BufferError::InvalidData(msg.clone()),
            BufferError::Io(msg) => BufferError::Io(msg.clone()),
        }
    }
}

impl BufferError {
    /// The human-readable description of the error.
    pub open spec fn text(self) -> Seq<char> {
        match self {
            BufferError::PositionOutOfBounds => "Position out of bounds"@,
            BufferError::IncrementTooLarge => "Increment too large"@,
            BufferError::SizeTooBig => "Buffer size too big"@,
            BufferError::BufferOverflow => "Buffer overflow"@,
            BufferError::InvalidState(msg) => "Invalid state: "@ + msg@,
            BufferError::BufferFull => "Circular buffer is full"@,
            BufferError::BufferEmpty => "Circular buffer is empty"@,
            BufferError::InsufficientSpace => "Insufficient space in buffer"@,
            BufferError::InvalidString => "Invalid string encoding"@,
            BufferError::InvalidData(msg) => "Invalid data: "@ + msg@,
            BufferError::Io(msg) => "I/O error: "@ + msg@,
        }
    }

    /// Renders the error as text.
    pub fn message(&self) -> (s: String)
        ensures
            s@ == self.text(),
    {
        match self {
            BufferError::PositionOutOfBounds => "Position out of bounds".to_owned(),
            BufferError::IncrementTooLarge => "Increment too large".to_owned(),
            BufferError::SizeTooBig => "Buffer size too big".to_owned(),
            BufferError::BufferOverflow => "Buffer overflow".to_owned(),
            BufferError::InvalidState(msg) => joined("Invalid state: ", msg.as_str()),
            BufferError::BufferFull => "Circular buffer is full".to_owned(),
            BufferError::BufferEmpty => "Circular buffer is empty".to_owned(),
            BufferError::InsufficientSpace => "Insufficient space in buffer".to_owned(),
            BufferError::InvalidString => "Invalid string encoding".to_owned(),
            BufferError::InvalidData(msg) => joined("Invalid data: ", msg.as_str()),
            BufferError::Io(msg) => joined("I/O error: ", msg.as_str()),
        }
    }

    /// The kind of I/O error that stands for this error: a write beyond the
    /// room there is counts as `WriteZero`, an empty circular buffer as
    /// `UnexpectedEof`, everything else as `Other`.
    pub open spec fn io_class(self) -> IoErrorKind {
        match self {
            BufferError::BufferOverflow => IoErrorKind::WriteZero,
            BufferError::InsufficientSpace => IoErrorKind::WriteZero,
            BufferError::BufferEmpty => IoErrorKind::UnexpectedEof,
            _ => IoErrorKind::Other,
        }
    }

    /// The text that an I/O error for this error carries: the text of the I/O
    /// layer itself for `Io`, the description of the error otherwise.
    pub open spec fn io_note(self) -> Seq<char> {
        match self {
            BufferError::Io(msg) => msg@,
            _ => self.text(),
        }
    }

    /// The kind of I/O error that stands for this error.
    pub fn io_kind(&self) -> (k: IoErrorKind)
        ensures
            k == self.io_class(),
    {
        match self {
            BufferError::BufferOverflow => IoErrorKind::WriteZero,
            BufferError::InsufficientSpace => IoErrorKind::WriteZero,
            BufferError::BufferEmpty => IoErrorKind::UnexpectedEof,
            _ => IoErrorKind::Other,
        }
    }

    /// The text that an I/O error for this error carries.
    pub fn io_text(&self) -> (s: String)
        ensures
            s@ == self.io_note(),
    {
        match self {
            BufferError::Io(msg) => msg.clone(),
            _ => self.message(),
        }
    }
}

/// `std::io::Error`, the error of the I/O layer of std. Nothing of what is
/// inside it is visible here.
#[verifier::external_type_specification]
#[verifier::external_body]
pub struct ExIoError(std::io::Error);

/// Makes an I/O error of the given kind that carries `text`, with
/// `std::io::Error::new`. Nothing is stated of the result, which is opaque
/// here; its kind is the `std::io::ErrorKind` of the same name as `kind`.
#[verifier::external_body]
fn io_error(kind: IoErrorKind, text: String) -> std::io::Error {
    let kind = match kind {
        IoErrorKind::WriteZero => std::io::ErrorKind::WriteZero,
        IoErrorKind::UnexpectedEof => std::io::ErrorKind::UnexpectedEof,
        IoErrorKind::Other => std::io::ErrorKind::Other,
    };
    std::io::Error::new(kind, text)
}

/// The text of `err`, as its `Display` writes it. Nothing is stated of it.
#[verifier::external_body]
fn io_error_text(err: &std::io::Error) -> String {
    err.to_string()
}

impl From<BufferError> for std::io::Error {
    /// The I/O error of kind [`BufferError::io_kind`] that carries the text
    /// [`BufferError::io_text`].
    fn from(err: BufferError) -> std::io::Error {
        io_error(err.io_kind(), err.io_text())
    }
}

impl vstd::std_specs::convert::FromSpecImpl<BufferError> for std::io::Error {
    open spec fn obeys_from_spec() -> bool {
        false
    }

    open spec fn from_spec(v: BufferError) -> std::io::Error {
        arbitrary()
    }
}

impl From<std::io::Error> for BufferError {
    /// The error `Io` with the text of `err`.
    fn from(err: std::io::Error) -> (e: BufferError)
        ensures
            e is Io,
    {
        BufferError::Io(io_error_text(&err))
    }
}

impl vstd::std_specs::convert::FromSpecImpl<std::io::Error> for BufferError {
    open spec fn obeys_from_spec() -> bool {
        false
    }

    open spec fn from_spec(v: std::io::Error) -> BufferError {
        arbitrary()
    }
}

/// Turns the result of a buffer operation into the result of another layer.
pub trait ResultExt<T> {
    /// The result with the error as an `std::io::Error`.
    fn into_io(self) -> Result<T, std::io::Error>;
}

impl<T> ResultExt<T> for Result<T, BufferError> {
    fn into_io(self) -> (r: Result<T, std::io::Error>)
        ensures
            match self {
                Ok(v) => r == Ok::<T, std::io::Error>(v),
                Err(_) => r is Err,
            },
    {
        match self {
            Ok(v) => Ok(v),
            Err(e) => Err(std::io::Error::from(e)),
        }
    }
}

} // verus!
