//! The session side of one device: its identity, the bounded-retry connect
//! policy, the framing of outgoing requests, and the decisions of the
//! background handler that consumes the receive path. The sockets themselves
//! and every await live outside the verified library; what is here is every
//! decision those loops take.

use crate::err_house::ErrorKind;
use crate::protocol;
use crate::protocol::{Request, Response};
use crate::transport;
use crate::transport::{TranportPack, SIMPLE_PACK};
use vstd::prelude::*;

verus! {

broadcast use vstd::seq_lib::group_seq_lib_default, vstd::seq::group_seq_axioms;

/// The transport kind of a device: a stream socket or a datagram
/// thermometer.
#[derive(Clone, Copy, Debug, PartialEq, Eq, Structural)]
pub enum DevType {
    Sock,
    Therm,
}

/// The connection lifecycle of one device session.
#[derive(Clone, Copy, Debug, PartialEq, Eq, Structural)]
pub enum SessionState {
    Disconnected,
    Connecting,
    Connected,
    Closed,
}

/// What the connect loop should do next.
#[derive(Clone, Copy, Debug, PartialEq, Eq, Structural)]
pub enum ConnectAction {
    /// Try one transport connect; on failure, wait the fixed delay first.
    TryConnect,
    /// Every allowed attempt is spent: surface a timeout to the caller.
    GiveUp,
}

/// The bounded-retry connect policy: a fixed number of attempts with a fixed
/// delay between them, held as explicit state rather than loop constants.
#[derive(Clone, Copy, Debug, PartialEq, Eq, Structural)]
pub struct ConnectPolicy {
    pub cnt_connect_attempts: usize,
    pub attempts_made: usize,
}

impl ConnectPolicy {
    /// A fresh policy allowing the given number of attempts.
    pub fn new(cnt_connect_attempts: usize) -> (r: ConnectPolicy)
        ensures
            r.cnt_connect_attempts == cnt_connect_attempts,
            r.attempts_made == 0,
    {
        ConnectPolicy { cnt_connect_attempts, attempts_made: 0 }
    }

    /// Whether to try once more: exactly while attempts remain.
    pub fn next_action(&self) -> (r: ConnectAction)
        ensures
            r == ConnectAction::TryConnect <==> self.attempts_made < self.cnt_connect_attempts,
            r == ConnectAction::GiveUp <==> self.attempts_made >= self.cnt_connect_attempts,
    {
        if self.attempts_made < self.cnt_connect_attempts {
            ConnectAction::TryConnect
        } else {
            ConnectAction::GiveUp
        }
    }

    /// Records one failed attempt.
    pub fn record_failure(&mut self)
        requires
            old(self).attempts_made < old(self).cnt_connect_attempts,
        ensures
            final(self).attempts_made == old(self).attempts_made + 1,
            final(self).cnt_connect_attempts == old(self).cnt_connect_attempts,
    {
        self.attempts_made = self.attempts_made + 1;
    }

    /// The error a session surfaces when every attempt failed.
    pub fn give_up_error(&self) -> (r: ErrorKind)
        ensures
            r == ErrorKind::IoTimeOut,
    {
        ErrorKind::IoTimeOut
    }
}

/// One device as the session controller sees it: identity, transport kind,
/// lifecycle state. The live socket halves and task handles belong to the
/// runtime outside.
#[derive(Debug)]
pub struct Device {
    pub name: String,
    pub ip_addr: String,
    pub dev_type: DevType,
    pub state: SessionState,
}

impl Device {
    /// A device known by identity only, not yet connected.
    pub fn new(name: &str, ip_addr: &str, dev_type: DevType) -> (r: Device)
        ensures
            r.name@ == name@,
            r.ip_addr@ == ip_addr@,
            r.dev_type == dev_type,
            r.state == SessionState::Disconnected,
    {
        Device {
            name: name.to_owned(),
            ip_addr: ip_addr.to_owned(),
            dev_type,
            state: SessionState::Disconnected,
        }
    }

    /// The device's name.
    pub fn get_name(&self) -> (r: &str)
        ensures
            r@ == self.name@,
    {
        self.name.as_str()
    }

    /// The device's address.
    pub fn get_addr(&self) -> (r: &str)
        ensures
            r@ == self.ip_addr@,
    {
        self.ip_addr.as_str()
    }

    /// Enters the connecting state.
    pub fn begin_connect(&mut self)
        ensures
            final(self).state == SessionState::Connecting,
            final(self).name == old(self).name,
            final(self).ip_addr == old(self).ip_addr,
            final(self).dev_type == old(self).dev_type,
    {
        self.state = SessionState::Connecting;
    }

    /// Leaves the connecting state: connected on success, back to
    /// disconnected when every attempt failed.
    pub fn finish_connect(&mut self, ok: bool)
        ensures
            final(self).state == if ok {
                SessionState::Connected
            } else {
                SessionState::Disconnected
            },
            final(self).name == old(self).name,
            final(self).ip_addr == old(self).ip_addr,
            final(self).dev_type == old(self).dev_type,
    {
        if ok {
            self.state = SessionState::Connected;
        } else {
            self.state = SessionState::Disconnected;
        }
    }

    /// Closes the session.
    pub fn close(&mut self)
        ensures
            final(self).state == SessionState::Closed,
            final(self).name == old(self).name,
            final(self).ip_addr == old(self).ip_addr,
            final(self).dev_type == old(self).dev_type,
    {
        self.state = SessionState::Closed;
    }

    /// The frame to write for one request on this device's send path: the
    /// request payload under a simple-pack header. Fails with a distinct
    /// error — and nothing is written — when the session is not connected,
    /// or when the request does not fit the wire.
    pub fn send_req(&self, req: &Request) -> (r: Result<Vec<u8>, ErrorKind>)
        ensures
            match r {
                Ok(v) => {
                    &&& self.state == SessionState::Connected
                    &&& protocol::spec_request_encodable(req@)
                    &&& v@ == transport::frame_bytes(
                        SIMPLE_PACK,
                        protocol::spec_encode_request(req@),
                    )
                },
                Err(e) => if self.state != SessionState::Connected {
                    e == ErrorKind::NotOpenedConnection
                } else {
                    &&& !protocol::spec_request_encodable(req@)
                    &&& e == ErrorKind::SerializationError
                },
            },
    {
        match self.state {
            SessionState::Connected => request_frame(req),
            _ => Err(ErrorKind::NotOpenedConnection),
        }
    }
}

/// The frame carrying one encoded request: what a view writes to its send
/// path. Fails exactly when the request does not fit the wire.
pub fn request_frame(req: &Request) -> (r: Result<Vec<u8>, ErrorKind>)
    ensures
        match r {
            Ok(v) => protocol::spec_request_encodable(req@) && v@ == transport::frame_bytes(
                SIMPLE_PACK,
                protocol::spec_encode_request(req@),
            ),
            Err(e) => !protocol::spec_request_encodable(req@) && e
                == ErrorKind::SerializationError,
        },
{
    let payload = match protocol::encode_request(req) {
        Ok(v) => v,
        Err(e) => {
            return Err(e);
        },
    };
    let pack = TranportPack::new(crate::transport::TypePack::Simple, payload);
    Ok(pack.serialize())
}

/// What the background handler does after one read: deliver a decoded
/// response, skip a malformed payload, or stop on a dead transport.
#[derive(Debug)]
pub enum HandlerAction {
    /// A response arrived whole: hand it to the display sink.
    Deliver(Response),
    /// The frame arrived but its payload is malformed: log and read on.
    Skip,
    /// The transport or the framing failed: the handler loop ends.
    Stop,
}

/// One turn of the stream handler loop, deciding on the outcome of one
/// frame read from the receive half: a transport or framing failure stops
/// the loop, a malformed payload is skipped, a well-formed one is delivered.
pub fn sock_handler_step(read_result: Result<TranportPack, ErrorKind>) -> (r: HandlerAction)
    ensures
        match read_result {
            Err(_) => r is Stop,
            Ok(pack) => match protocol::spec_decode_response(pack.payload@) {
                Some(resp) => r matches HandlerAction::Deliver(out) && out@ == resp,
                None => r is Skip,
            },
        },
{
    match read_result {
        Err(_) => HandlerAction::Stop,
        Ok(pack) => match protocol::decode_response(pack.get_payload()) {
            Ok(resp) => HandlerAction::Deliver(resp),
            Err(_) => HandlerAction::Skip,
        },
    }
}

/// One turn of the datagram handler loop, deciding on one received
/// datagram: an undecodable frame or payload is skipped — the next datagram
/// may still be fine — and a well-formed response is delivered.
pub fn therm_handler_step(datagram: &[u8]) -> (r: HandlerAction)
    ensures
        if !transport::frame_complete(datagram@) {
            r is Skip
        } else {
            match protocol::spec_decode_response(transport::frame_payload(datagram@)) {
                Some(resp) => r matches HandlerAction::Deliver(out) && out@ == resp,
                None => r is Skip,
            }
        },
{
    let pack = match TranportPack::deserialize(datagram) {
        Ok(p) => p,
        Err(_) => {
            return HandlerAction::Skip;
        },
    };
    match protocol::decode_response(pack.get_payload()) {
        Ok(resp) => HandlerAction::Deliver(resp),
        Err(_) => HandlerAction::Skip,
    }
}

} // verus!
