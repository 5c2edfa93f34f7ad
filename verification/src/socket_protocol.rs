//! The raw byte protocol spoken by the standalone socket emulator: one-byte
//! request commands and two-byte response headers, each followed by an
//! opaque payload.

use crate::err_house::ErrorKind;
use vstd::prelude::*;

verus! {

broadcast use vstd::seq_lib::group_seq_lib_default, vstd::seq::group_seq_axioms;

/// The byte of a successful response.
pub const SUCCESS_RESP: u8 = 0x7C;

/// The byte of a failed response.
pub const ERR_RESP: u8 = 0xB5;

/// The byte of the turn-on command.
pub const TURN_ON_CMD: u8 = 0x01;

/// The byte of the turn-off command.
pub const TURN_OFF_CMD: u8 = 0x04;

/// The byte of the power-reading command.
pub const POWER_CMD: u8 = 0x07;

/// The byte of the is-it-on query.
pub const CHECK_TURNED: u8 = 0x0A;

/// What a raw request asks of the socket.
#[derive(Clone, Copy, Debug, PartialEq, Eq, Structural)]
pub enum ReqType {
    TurnOn,
    TurnOff,
    Power,
    CheckTurned,
    Unknown(u8),
}

impl ReqType {
    /// The request type a command byte names.
    pub open spec fn spec_from_byte(value: u8) -> ReqType {
        if value == TURN_ON_CMD {
            ReqType::TurnOn
        } else if value == TURN_OFF_CMD {
            ReqType::TurnOff
        } else if value == POWER_CMD {
            ReqType::Power
        } else if value == CHECK_TURNED {
            ReqType::CheckTurned
        } else {
            ReqType::Unknown(value)
        }
    }

    /// The command byte of a request type.
    pub open spec fn spec_to_byte(self) -> u8 {
        match self {
            ReqType::TurnOn => TURN_ON_CMD,
            ReqType::TurnOff => TURN_OFF_CMD,
            ReqType::Power => POWER_CMD,
            ReqType::CheckTurned => CHECK_TURNED,
            ReqType::Unknown(value) => value,
        }
    }

    /// Classifies a command byte.
    pub fn from_byte(value: u8) -> (r: ReqType)
        ensures
            r == ReqType::spec_from_byte(value),
    {
        if value == TURN_ON_CMD {
            ReqType::TurnOn
        } else if value == TURN_OFF_CMD {
            ReqType::TurnOff
        } else if value == POWER_CMD {
            ReqType::Power
        } else if value == CHECK_TURNED {
            ReqType::CheckTurned
        } else {
            ReqType::Unknown(value)
        }
    }

    /// The command byte this request type is written as.
    pub fn to_byte(self) -> (r: u8)
        ensures
            r == self.spec_to_byte(),
    {
        match self {
            ReqType::TurnOn => TURN_ON_CMD,
            ReqType::TurnOff => TURN_OFF_CMD,
            ReqType::Power => POWER_CMD,
            ReqType::CheckTurned => CHECK_TURNED,
            ReqType::Unknown(value) => value,
        }
    }
}

/// One raw request: a command and an opaque payload.
pub struct SockRequest {
    pub req_type: ReqType,
    pub payload: Vec<u8>,
}

impl SockRequest {
    /// A request of the given type and payload.
    pub fn new(req_type: ReqType, payload: Vec<u8>) -> (r: SockRequest)
        ensures
            r.req_type == req_type,
            r.payload == payload,
    {
        SockRequest { req_type, payload }
    }

    /// The turn-on request.
    pub fn new_turn_on() -> (r: SockRequest)
        ensures
            r.req_type == ReqType::TurnOn,
            r.payload@ == Seq::<u8>::empty(),
    {
        SockRequest::new(ReqType::TurnOn, Vec::new())
    }

    /// The turn-off request.
    pub fn new_turn_off() -> (r: SockRequest)
        ensures
            r.req_type == ReqType::TurnOff,
            r.payload@ == Seq::<u8>::empty(),
    {
        SockRequest::new(ReqType::TurnOff, Vec::new())
    }

    /// The is-it-on query.
    pub fn new_check_turned() -> (r: SockRequest)
        ensures
            r.req_type == ReqType::CheckTurned,
            r.payload@ == Seq::<u8>::empty(),
    {
        SockRequest::new(ReqType::CheckTurned, Vec::new())
    }

    /// The power-reading request.
    pub fn new_get_power() -> (r: SockRequest)
        ensures
            r.req_type == ReqType::Power,
            r.payload@ == Seq::<u8>::empty(),
    {
        SockRequest::new(ReqType::Power, Vec::new())
    }

    /// The request type this request carries.
    pub fn get_req_type(&self) -> (r: ReqType)
        ensures
            r == self.req_type,
    {
        self.req_type
    }

    /// Writes the request out: its command byte, then its payload.
    pub fn serialize(&self) -> (r: Vec<u8>)
        ensures
            r@ == seq![self.req_type.spec_to_byte()] + self.payload@,
    {
        let mut res: Vec<u8> = Vec::new();
        res.push(self.req_type.to_byte());
        crate::wire::push_all(&mut res, self.payload.as_slice());
        proof {
            assert(res@ =~= seq![self.req_type.spec_to_byte()] + self.payload@);
        }
        res
    }

    /// Reads a request back: the first byte is the command, everything after
    /// it the payload. Only an empty buffer is refused.
    pub fn deserialize(pack: &[u8]) -> (r: Result<SockRequest, ErrorKind>)
        ensures
            match r {
                Ok(req) => {
                    &&& pack@.len() >= 1
                    &&& req.req_type == ReqType::spec_from_byte(pack@[0])
                    &&& req.payload@ == pack@.skip(1)
                },
                Err(e) => pack@.len() == 0 && e == ErrorKind::DeserializationError,
            },
    {
        if pack.len() < 1 {
            return Err(ErrorKind::DeserializationError);
        }
        let req_type = ReqType::from_byte(pack[0]);
        let payload = vstd::slice::slice_to_vec(vstd::slice::slice_subrange(pack, 1, pack.len()));
        proof {
            assert(payload@ =~= pack@.skip(1));
        }
        Ok(SockRequest { req_type, payload })
    }
}

/// Whether a raw response succeeded or failed.
#[derive(Clone, Copy, Debug, PartialEq, Eq, Structural)]
pub enum RespType {
    Success,
    Error,
    Unknown(u8),
}

impl RespType {
    /// The response type a status byte names.
    pub open spec fn spec_from_byte(value: u8) -> RespType {
        if value == SUCCESS_RESP {
            RespType::Success
        } else if value == ERR_RESP {
            RespType::Error
        } else {
            RespType::Unknown(value)
        }
    }

    /// The status byte of a response type.
    pub open spec fn spec_to_byte(self) -> u8 {
        match self {
            RespType::Success => SUCCESS_RESP,
            RespType::Error => ERR_RESP,
            RespType::Unknown(value) => value,
        }
    }

    /// Classifies a status byte.
    pub fn from_byte(value: u8) -> (r: RespType)
        ensures
            r == RespType::spec_from_byte(value),
    {
        if value == SUCCESS_RESP {
            RespType::Success
        } else if value == ERR_RESP {
            RespType::Error
        } else {
            RespType::Unknown(value)
        }
    }

    /// The status byte this response type is written as.
    pub fn to_byte(self) -> (r: u8)
        ensures
            r == self.spec_to_byte(),
    {
        match self {
            RespType::Success => SUCCESS_RESP,
            RespType::Error => ERR_RESP,
            RespType::Unknown(value) => value,
        }
    }
}

/// One raw response: a status, the command it answers, and a payload.
pub struct SockResponse {
    pub resp_type: RespType,
    pub req_type: ReqType,
    pub payload: Vec<u8>,
}

impl SockResponse {
    /// A response with the given status, answered command and payload.
    pub fn new(resp_type: RespType, req_type: ReqType, payload: Vec<u8>) -> (r: SockResponse)
        ensures
            r.resp_type == resp_type,
            r.req_type == req_type,
            r.payload == payload,
    {
        SockResponse { resp_type, req_type, payload }
    }

    /// The status of the response.
    pub fn get_resp_type(&self) -> (r: RespType)
        ensures
            r == self.resp_type,
    {
        self.resp_type
    }

    /// A borrowed view of the payload.
    pub fn get_payload(&self) -> (r: &[u8])
        ensures
            r@ == self.payload@,
    {
        self.payload.as_slice()
    }

    /// Writes the response out: its status byte, the answered command byte,
    /// then its payload.
    pub fn serialize(&self) -> (r: Vec<u8>)
        ensures
            r@ == seq![self.resp_type.spec_to_byte(), self.req_type.spec_to_byte()]
                + self.payload@,
    {
        let mut res: Vec<u8> = Vec::new();
        res.push(self.resp_type.to_byte());
        res.push(self.req_type.to_byte());
        crate::wire::push_all(&mut res, self.payload.as_slice());
        proof {
            assert(res@ =~= seq![self.resp_type.spec_to_byte(), self.req_type.spec_to_byte()]
                + self.payload@);
        }
        res
    }

    /// Reads a response back: refused when shorter than its two-byte header
    /// or when either header byte is unknown; everything after the header is
    /// the payload.
    pub fn deserialize(pack: &[u8]) -> (r: Result<SockResponse, ErrorKind>)
        ensures
            match r {
                Ok(resp) => {
                    &&& pack@.len() >= 2
                    &&& resp.resp_type == RespType::spec_from_byte(pack@[0])
                    &&& !(resp.resp_type is Unknown)
                    &&& resp.req_type == ReqType::spec_from_byte(pack@[1])
                    &&& !(resp.req_type is Unknown)
                    &&& resp.payload@ == pack@.skip(2)
                },
                Err(e) => {
                    &&& e == ErrorKind::DeserializationError
                    &&& (pack@.len() < 2 || RespType::spec_from_byte(pack@[0]) is Unknown
                        || ReqType::spec_from_byte(pack@[1]) is Unknown)
                },
            },
    {
        if pack.len() < 2 {
            return Err(ErrorKind::DeserializationError);
        }
        let resp_type = RespType::from_byte(pack[0]);
        if let RespType::Unknown(_) = resp_type {
            return Err(ErrorKind::DeserializationError);
        }
        let req_type = ReqType::from_byte(pack[1]);
        if let ReqType::Unknown(_) = req_type {
            return Err(ErrorKind::DeserializationError);
        }
        let payload = vstd::slice::slice_to_vec(vstd::slice::slice_subrange(pack, 2, pack.len()));
        proof {
            assert(payload@ =~= pack@.skip(2));
        }
        Ok(SockResponse { resp_type, req_type, payload })
    }
}

} // verus!
