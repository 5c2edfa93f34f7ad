//! Error vocabulary of the session, framing and emulator layers.

use vstd::prelude::*;

verus! {

/// What can go wrong while framing, decoding or talking to a device.
#[derive(Clone, Copy, Debug, PartialEq, Eq, Structural)]
pub enum ErrorKind {
    /// A read ran out of time or input; the caller may retry.
    IoTimeOut,
    /// The transport failed; the session is considered closed.
    IoError,
    /// A buffer could not be decoded into a frame or a protocol value.
    DeserializationError,
    /// A protocol value could not be encoded.
    SerializationError,
    /// A frame carried a tag byte other than the known marker.
    UnknownTypePack,
    /// A request was sent on a device whose connection was never opened.
    NotOpenedConnection,
}

impl ErrorKind {
    /// A short human-readable description of the error.
    pub fn message(&self) -> (r: &'static str)
        ensures
            r@.len() > 0,
    {
        let r: &'static str = match self {
            ErrorKind::IoTimeOut => "Time out",
            ErrorKind::IoError => "Io error",
            ErrorKind::DeserializationError => "Deserialization error",
            ErrorKind::SerializationError => "Serialization error",
            ErrorKind::UnknownTypePack => "Unknown type packet",
            ErrorKind::NotOpenedConnection => "Try connect to closed connection",
        };
        proof {
            reveal_strlit("Time out");
            reveal_strlit("Io error");
            reveal_strlit("Deserialization error");
            reveal_strlit("Serialization error");
            reveal_strlit("Unknown type packet");
            reveal_strlit("Try connect to closed connection");
        }
        r
    }
}

} // verus!
