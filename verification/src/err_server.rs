//! Error vocabulary of the central servers and the console clients.

use vstd::prelude::*;

verus! {

/// What can go wrong while serving or relaying console commands.
#[derive(Clone, Copy, Debug, PartialEq, Eq, Structural)]
pub enum ErrorKind {
    /// A read ran out of time; the serving loop keeps polling.
    IoTimeOut,
    /// The transport failed; the affected session is torn down.
    IoError,
    /// A document or a frame could not be parsed.
    ParsingError,
    /// A connected service stopped answering its channel.
    ServiceNotRespond,
    /// A command was aimed at a service that was never connected.
    UnknownService,
    /// A protocol value could not be encoded or decoded.
    SerializationError,
    /// A frame carried a tag byte other than the known marker.
    UnknownTypePack,
    /// A device configuration entry named an unknown device kind.
    WrongDevType,
}

/// A server-side error wrapping its kind.
#[derive(Clone, Copy, Debug)]
pub struct ServerErr {
    pub err_kind: ErrorKind,
}

impl ServerErr {
    /// An error of the given kind.
    pub fn new(err_kind: ErrorKind) -> (r: ServerErr)
        ensures
            r.err_kind == err_kind,
    {
        ServerErr { err_kind }
    }

    /// The kind of this error.
    pub fn kind(&self) -> (r: ErrorKind)
        ensures
            r == self.err_kind,
    {
        self.err_kind
    }
}

} // verus!
