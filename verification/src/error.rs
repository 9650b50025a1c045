//! The error taxonomy: decode, transport and remote failures, classified
//! so that callers can tell recoverable outcomes from fatal ones.

use crate::codec::NsqValue;
use crate::codec::ValueView;
use vstd::prelude::*;
use vstd::string::StringExecFns;

verus! {

/// A decode, transport or remote failure.
///
/// `RemoteError` is recoverable at the application level: the caller may
/// retry with a corrected command. `InvalidEncoding`, `UnknownFrameType`
/// and `MalformedFrame` mean the byte stream is desynchronized; the codec
/// performs no resynchronization, and the owning connection must be closed
/// and reestablished. `TransportIo` passes through unchanged, and
/// `Unexpected` marks a defect in the caller, not a runtime condition to
/// recover from.
#[derive(Clone, Debug, PartialEq)]
pub enum Error {
    /// A payload was not valid UTF-8 where text is required.
    InvalidEncoding,
    /// A frame carried a frame-type discriminant other than the known
    /// ones; the raw value of the 4-byte field is carried along.
    UnknownFrameType(u32),
    /// The frame header and the data around it are inconsistent.
    MalformedFrame,
    /// The server rejected a command; the verbatim server message.
    RemoteError(String),
    /// An error of the underlying byte stream, passed through.
    TransportIo(String),
    /// A programmer-error misuse of the API, such as handing the encoder
    /// a decode-only value; carries the offending value when there is one.
    Unexpected(String, Option<NsqValue>),
}

/// The mathematical shape of an [`Error`].
pub enum ErrorView {
    InvalidEncoding,
    UnknownFrameType(u32),
    MalformedFrame,
    RemoteError(Seq<char>),
    TransportIo(Seq<char>),
    Unexpected(Seq<char>, Option<ValueView>),
}

impl View for Error {
    type V = ErrorView;

    open spec fn view(&self) -> ErrorView {
        match self {
            Error::InvalidEncoding => ErrorView::InvalidEncoding,
            Error::UnknownFrameType(t) => ErrorView::UnknownFrameType(*t),
            Error::MalformedFrame => ErrorView::MalformedFrame,
            Error::RemoteError(t) => ErrorView::RemoteError(t@),
            Error::TransportIo(t) => ErrorView::TransportIo(t@),
            Error::Unexpected(t, v) => ErrorView::Unexpected(
                t@,
                match v {
                    Some(x) => Some(x@),
                    None => None,
                },
            ),
        }
    }
}

/// An [`Error::Unexpected`] with no offending value attached.
pub fn internal(msg: String) -> (e: Error)
    ensures
        e@ == ErrorView::Unexpected(msg@, None::<ValueView>),
{
    Error::Unexpected(msg, None)
}

/// An [`Error::Unexpected`] carrying the protocol value it is about.
pub fn value(msg: String, val: NsqValue) -> (e: Error)
    ensures
        e@ == ErrorView::Unexpected(msg@, Some(val@)),
{
    Error::Unexpected(msg, Some(val))
}

impl Error {
    /// A short description: the carried message where there is one, a
    /// fixed text for the fixed kinds.
    pub fn message(&self) -> (s: String)
        ensures
            match self {
                Error::InvalidEncoding => s@ == "invalid UTF-8 data"@,
                Error::UnknownFrameType(_) => s@ == "unknown frame type"@,
                Error::MalformedFrame => s@ == "malformed frame"@,
                Error::RemoteError(t) => s@ == t@,
                Error::TransportIo(t) => s@ == t@,
                Error::Unexpected(t, _) => s@ == t@,
            },
    {
        match self {
            Error::InvalidEncoding => String::from_str("invalid UTF-8 data"),
            Error::UnknownFrameType(_) => String::from_str("unknown frame type"),
            Error::MalformedFrame => String::from_str("malformed frame"),
            Error::RemoteError(t) => t.clone(),
            Error::TransportIo(t) => t.clone(),
            Error::Unexpected(t, _) => t.clone(),
        }
    }
}

} // verus!
