//! The command protocol of the device sessions: requests addressed to a
//! device, responses echoing the request, and their lossless binary payload
//! codec. Power and temperature readings travel as signed fixed-point
//! thousandths (milliwatts, millidegrees).

use crate::err_house;
use crate::wire;
use vstd::prelude::*;
use vstd::string::StringSliceAdditionalSpecFns;
use vstd::utf8::{decode_utf8, encode_utf8, valid_utf8};

verus! {

broadcast use vstd::seq_lib::group_seq_lib_default, vstd::seq::group_seq_axioms;

/// What a request asks the device to do.
#[derive(Clone, Copy, Debug, PartialEq, Eq, Structural)]
pub enum Cmd {
    TurnOn,
    TurnOff,
    Power,
    Temperature,
}

impl Cmd {
    /// The wire byte of each command.
    pub open spec fn spec_to_byte(self) -> u8 {
        match self {
            Cmd::TurnOn => 1,
            Cmd::TurnOff => 2,
            Cmd::Power => 3,
            Cmd::Temperature => 4,
        }
    }

    /// The command a wire byte names, if any.
    pub open spec fn spec_from_byte(b: u8) -> Option<Cmd> {
        if b == 1 {
            Some(Cmd::TurnOn)
        } else if b == 2 {
            Some(Cmd::TurnOff)
        } else if b == 3 {
            Some(Cmd::Power)
        } else if b == 4 {
            Some(Cmd::Temperature)
        } else {
            None
        }
    }

    /// Writes the command as its wire byte.
    pub fn to_byte(self) -> (r: u8)
        ensures
            r == self.spec_to_byte(),
            Cmd::spec_from_byte(r) == Some(self),
    {
        match self {
            Cmd::TurnOn => 1,
            Cmd::TurnOff => 2,
            Cmd::Power => 3,
            Cmd::Temperature => 4,
        }
    }

    /// Reads a command back from its wire byte.
    pub fn from_byte(b: u8) -> (r: Option<Cmd>)
        ensures
            r == Cmd::spec_from_byte(b),
    {
        if b == 1 {
            Some(Cmd::TurnOn)
        } else if b == 2 {
            Some(Cmd::TurnOff)
        } else if b == 3 {
            Some(Cmd::Power)
        } else if b == 4 {
            Some(Cmd::Temperature)
        } else {
            None
        }
    }
}

/// One command aimed at the device living at an address.
#[derive(Debug, Clone)]
pub struct Request {
    pub addr: String,
    pub cmd: Cmd,
}

/// The mathematical shape of a request: its address text and its command.
pub struct ReqView {
    pub addr: Seq<char>,
    pub cmd: Cmd,
}

impl View for Request {
    type V = ReqView;

    open spec fn view(&self) -> ReqView {
        ReqView { addr: self.addr@, cmd: self.cmd }
    }
}

impl Request {
    /// A request carrying the given address and command.
    pub fn new(addr: &str, cmd: Cmd) -> (r: Request)
        ensures
            r@.addr == addr@,
            r@.cmd == cmd,
    {
        Request { addr: addr.to_owned(), cmd }
    }
}

/// The payload a success carries back.
#[derive(Clone, Copy, Debug, PartialEq, Eq, Structural)]
pub enum SuccessKind {
    /// The command was applied; nothing to report.
    Ack,
    /// A power reading, in milliwatts.
    Power(i64),
    /// A temperature reading, in millidegrees.
    Temp(i64),
}

/// Why the device refused a request.
#[derive(Clone, Copy, Debug, PartialEq, Eq, Structural)]
pub enum ErrorKind {
    WrongCmd,
    DevNotFound,
    UnknownCmd,
}

impl ErrorKind {
    /// The wire byte of each refusal.
    pub open spec fn spec_to_byte(self) -> u8 {
        match self {
            ErrorKind::WrongCmd => 1,
            ErrorKind::DevNotFound => 2,
            ErrorKind::UnknownCmd => 3,
        }
    }

    /// The refusal a wire byte names, if any.
    pub open spec fn spec_from_byte(b: u8) -> Option<ErrorKind> {
        if b == 1 {
            Some(ErrorKind::WrongCmd)
        } else if b == 2 {
            Some(ErrorKind::DevNotFound)
        } else if b == 3 {
            Some(ErrorKind::UnknownCmd)
        } else {
            None
        }
    }

    /// Writes the refusal as its wire byte.
    pub fn to_byte(self) -> (r: u8)
        ensures
            r == self.spec_to_byte(),
            ErrorKind::spec_from_byte(r) == Some(self),
    {
        match self {
            ErrorKind::WrongCmd => 1,
            ErrorKind::DevNotFound => 2,
            ErrorKind::UnknownCmd => 3,
        }
    }

    /// Reads a refusal back from its wire byte.
    pub fn from_byte(b: u8) -> (r: Option<ErrorKind>)
        ensures
            r == ErrorKind::spec_from_byte(b),
    {
        if b == 1 {
            Some(ErrorKind::WrongCmd)
        } else if b == 2 {
            Some(ErrorKind::DevNotFound)
        } else if b == 3 {
            Some(ErrorKind::UnknownCmd)
        } else {
            None
        }
    }
}

/// Either a success payload or a structured refusal.
#[derive(Clone, Copy, Debug, PartialEq, Eq, Structural)]
pub enum ResponseKind {
    Success(SuccessKind),
    Failure(ErrorKind),
}

/// A response: the request it answers, echoed back, and its outcome.
#[derive(Debug, Clone)]
pub struct Response {
    pub to_req: Request,
    pub resp_kind: ResponseKind,
}

/// The mathematical shape of a response.
pub struct RespView {
    pub to_req: ReqView,
    pub resp_kind: ResponseKind,
}

impl View for Response {
    type V = RespView;

    open spec fn view(&self) -> RespView {
        RespView { to_req: self.to_req@, resp_kind: self.resp_kind }
    }
}

impl Response {
    /// Acknowledges a request.
    pub fn success_response(req: Request) -> (r: Response)
        ensures
            r@.to_req == req@,
            r@.resp_kind == ResponseKind::Success(SuccessKind::Ack),
    {
        Response { to_req: req, resp_kind: ResponseKind::Success(SuccessKind::Ack) }
    }

    /// Answers with a power reading in milliwatts.
    pub fn current_power(req: Request, power_mw: i64) -> (r: Response)
        ensures
            r@.to_req == req@,
            r@.resp_kind == ResponseKind::Success(SuccessKind::Power(power_mw)),
    {
        Response { to_req: req, resp_kind: ResponseKind::Success(SuccessKind::Power(power_mw)) }
    }

    /// Answers with a temperature reading in millidegrees.
    pub fn current_temp(req: Request, temp_milli: i64) -> (r: Response)
        ensures
            r@.to_req == req@,
            r@.resp_kind == ResponseKind::Success(SuccessKind::Temp(temp_milli)),
    {
        Response { to_req: req, resp_kind: ResponseKind::Success(SuccessKind::Temp(temp_milli)) }
    }

    /// Refuses a request.
    pub fn err_response(req: Request, err_kind: ErrorKind) -> (r: Response)
        ensures
            r@.to_req == req@,
            r@.resp_kind == ResponseKind::Failure(err_kind),
    {
        Response { to_req: req, resp_kind: ResponseKind::Failure(err_kind) }
    }
}

/// Whether a request fits the wire: its address, as UTF-8, must fit the
/// two-byte length field.
pub open spec fn spec_request_encodable(r: ReqView) -> bool {
    encode_utf8(r.addr).len() <= u16::MAX
}

/// The payload bytes of a request: the command byte, the address byte
/// length as two little-endian bytes, then the address in UTF-8.
pub open spec fn spec_encode_request(r: ReqView) -> Seq<u8>
    recommends
        spec_request_encodable(r),
{
    seq![r.cmd.spec_to_byte()] + vstd::bytes::spec_u16_to_le_bytes(
        encode_utf8(r.addr).len() as u16,
    ) + encode_utf8(r.addr)
}

/// The request a payload spells, if it is well formed: a known command
/// byte, a length that matches the remainder, and a valid UTF-8 address.
pub open spec fn spec_decode_request(b: Seq<u8>) -> Option<ReqView> {
    if b.len() < 3 {
        None
    } else if Cmd::spec_from_byte(b[0]) is None {
        None
    } else if b.len() != 3 + vstd::bytes::spec_u16_from_le_bytes(b.subrange(1, 3)) as int {
        None
    } else if !valid_utf8(b.skip(3)) {
        None
    } else {
        Some(ReqView { addr: decode_utf8(b.skip(3)), cmd: Cmd::spec_from_byte(b[0])->Some_0 })
    }
}

/// Writes a request as payload bytes; refuses an address too long for the
/// two-byte length field.
pub fn encode_request(req: &Request) -> (r: Result<Vec<u8>, err_house::ErrorKind>)
    ensures
        match r {
            Ok(v) => spec_request_encodable(req@) && v@ == spec_encode_request(req@),
            Err(e) => !spec_request_encodable(req@) && e == err_house::ErrorKind::SerializationError,
        },
{
    let addr_bytes = req.addr.as_str().as_bytes_vec();
    if addr_bytes.len() > 65535 {
        return Err(err_house::ErrorKind::SerializationError);
    }
    let mut out: Vec<u8> = Vec::new();
    out.push(req.cmd.to_byte());
    let len_bytes = vstd::bytes::u16_to_le_bytes(addr_bytes.len() as u16);
    wire::push_all(&mut out, len_bytes.as_slice());
    wire::push_all(&mut out, addr_bytes.as_slice());
    proof {
        assert(out@ =~= spec_encode_request(req@));
    }
    Ok(out)
}

/// Reads a request back from payload bytes; any malformation is a
/// deserialization error.
pub fn decode_request(b: &[u8]) -> (r: Result<Request, err_house::ErrorKind>)
    ensures
        match r {
            Ok(req) => spec_decode_request(b@) == Some(req@),
            Err(e) => spec_decode_request(b@) is None && e
                == err_house::ErrorKind::DeserializationError,
        },
{
    if b.len() < 3 {
        return Err(err_house::ErrorKind::DeserializationError);
    }
    let cmd = match Cmd::from_byte(b[0]) {
        Some(c) => c,
        None => {
            return Err(err_house::ErrorKind::DeserializationError);
        },
    };
    let n = vstd::bytes::u16_from_le_bytes(vstd::slice::slice_subrange(b, 1, 3)) as usize;
    if b.len() != 3 + n {
        return Err(err_house::ErrorKind::DeserializationError);
    }
    let tail = vstd::slice::slice_to_vec(vstd::slice::slice_subrange(b, 3, b.len()));
    proof {
        assert(tail@ =~= b@.skip(3));
    }
    match wire::string_from_utf8(tail) {
        Some(addr) => Ok(Request { addr, cmd }),
        None => Err(err_house::ErrorKind::DeserializationError),
    }
}

/// The wire tag of each outcome.
pub open spec fn spec_kind_tag(k: ResponseKind) -> u8 {
    match k {
        ResponseKind::Success(SuccessKind::Ack) => 0,
        ResponseKind::Success(SuccessKind::Power(_)) => 1,
        ResponseKind::Success(SuccessKind::Temp(_)) => 2,
        ResponseKind::Failure(_) => 3,
    }
}

/// The detail bytes of each outcome: nothing for an acknowledgement, a
/// nine-byte reading for a measurement, one byte for a refusal.
pub open spec fn spec_kind_detail(k: ResponseKind) -> Seq<u8> {
    match k {
        ResponseKind::Success(SuccessKind::Ack) => Seq::empty(),
        ResponseKind::Success(SuccessKind::Power(x)) => wire::spec_encode_reading(x),
        ResponseKind::Success(SuccessKind::Temp(x)) => wire::spec_encode_reading(x),
        ResponseKind::Failure(e) => seq![e.spec_to_byte()],
    }
}

/// Whether a response fits the wire: its echoed request must.
pub open spec fn spec_response_encodable(r: RespView) -> bool {
    spec_request_encodable(r.to_req)
}

/// The payload bytes of a response: the outcome tag, its detail bytes, then
/// the echoed request.
pub open spec fn spec_encode_response(r: RespView) -> Seq<u8>
    recommends
        spec_response_encodable(r),
{
    seq![spec_kind_tag(r.resp_kind)] + spec_kind_detail(r.resp_kind) + spec_encode_request(r.to_req)
}

/// How many detail bytes follow each outcome tag.
pub open spec fn spec_tag_detail_len(tag: u8) -> int {
    if tag == 0 {
        0
    } else if tag == 1 || tag == 2 {
        9
    } else {
        1
    }
}

/// The outcome a tag and its detail bytes spell, if well formed.
pub open spec fn spec_decode_kind(tag: u8, detail: Seq<u8>) -> Option<ResponseKind> {
    if tag == 0 {
        Some(ResponseKind::Success(SuccessKind::Ack))
    } else if tag == 1 {
        match wire::spec_decode_reading(detail) {
            Some(x) => Some(ResponseKind::Success(SuccessKind::Power(x))),
            None => None,
        }
    } else if tag == 2 {
        match wire::spec_decode_reading(detail) {
            Some(x) => Some(ResponseKind::Success(SuccessKind::Temp(x))),
            None => None,
        }
    } else if tag == 3 {
        match ErrorKind::spec_from_byte(detail[0]) {
            Some(e) => Some(ResponseKind::Failure(e)),
            None => None,
        }
    } else {
        None
    }
}

/// The response a payload spells, if it is well formed.
pub open spec fn spec_decode_response(b: Seq<u8>) -> Option<RespView> {
    if b.len() < 1 {
        None
    } else if !(b[0] == 0 || b[0] == 1 || b[0] == 2 || b[0] == 3) {
        None
    } else {
        let dlen = spec_tag_detail_len(b[0]);
        if b.len() < 1 + dlen {
            None
        } else {
            match spec_decode_kind(b[0], b.subrange(1, 1 + dlen)) {
                Some(kind) => match spec_decode_request(b.skip(1 + dlen)) {
                    Some(req) => Some(RespView { to_req: req, resp_kind: kind }),
                    None => None,
                },
                None => None,
            }
        }
    }
}

/// Writes a response as payload bytes; refuses one whose echoed request
/// does not fit the wire.
pub fn encode_response(resp: &Response) -> (r: Result<Vec<u8>, err_house::ErrorKind>)
    ensures
        match r {
            Ok(v) => spec_response_encodable(resp@) && v@ == spec_encode_response(resp@),
            Err(e) => !spec_response_encodable(resp@) && e
                == err_house::ErrorKind::SerializationError,
        },
{
    let req_bytes = match encode_request(&resp.to_req) {
        Ok(v) => v,
        Err(e) => {
            return Err(e);
        },
    };
    let mut out: Vec<u8> = Vec::new();
    match &resp.resp_kind {
        ResponseKind::Success(SuccessKind::Ack) => {
            out.push(0);
        },
        ResponseKind::Success(SuccessKind::Power(x)) => {
            out.push(1);
            let d = wire::encode_reading(*x);
            wire::push_all(&mut out, d.as_slice());
        },
        ResponseKind::Success(SuccessKind::Temp(x)) => {
            out.push(2);
            let d = wire::encode_reading(*x);
            wire::push_all(&mut out, d.as_slice());
        },
        ResponseKind::Failure(e) => {
            out.push(3);
            out.push(e.to_byte());
        },
    }
    wire::push_all(&mut out, req_bytes.as_slice());
    proof {
        assert(out@ =~= spec_encode_response(resp@));
    }
    Ok(out)
}

/// Reads a response back from payload bytes; any malformation is a
/// deserialization error.
pub fn decode_response(b: &[u8]) -> (r: Result<Response, err_house::ErrorKind>)
    ensures
        match r {
            Ok(resp) => spec_decode_response(b@) == Some(resp@),
            Err(e) => spec_decode_response(b@) is None && e
                == err_house::ErrorKind::DeserializationError,
        },
{
    if b.len() < 1 {
        return Err(err_house::ErrorKind::DeserializationError);
    }
    let tag = b[0];
    if !(tag == 0 || tag == 1 || tag == 2 || tag == 3) {
        return Err(err_house::ErrorKind::DeserializationError);
    }
    let dlen: usize = if tag == 0 {
        0
    } else if tag == 1 || tag == 2 {
        9
    } else {
        1
    };
    if b.len() < 1 + dlen {
        return Err(err_house::ErrorKind::DeserializationError);
    }
    let detail = vstd::slice::slice_subrange(b, 1, 1 + dlen);
    let kind: ResponseKind = if tag == 0 {
        ResponseKind::Success(SuccessKind::Ack)
    } else if tag == 1 || tag == 2 {
        let x = match wire::decode_reading(detail) {
            Some(x) => x,
            None => {
                return Err(err_house::ErrorKind::DeserializationError);
            },
        };
        if tag == 1 {
            ResponseKind::Success(SuccessKind::Power(x))
        } else {
            ResponseKind::Success(SuccessKind::Temp(x))
        }
    } else {
        let e = match ErrorKind::from_byte(detail[0]) {
            Some(e) => e,
            None => {
                return Err(err_house::ErrorKind::DeserializationError);
            },
        };
        ResponseKind::Failure(e)
    };
    let rest = vstd::slice::slice_subrange(b, 1 + dlen, b.len());
    proof {
        assert(rest@ =~= b@.skip(1 + dlen as int));
    }
    match decode_request(rest) {
        Ok(req) => Ok(Response { to_req: req, resp_kind: kind }),
        Err(_) => Err(err_house::ErrorKind::DeserializationError),
    }
}

/// Request round trip: every request that fits the wire decodes back from
/// its own payload bytes.
pub proof fn lemma_request_codec_round_trip(r: ReqView)
    requires
        spec_request_encodable(r),
    ensures
        spec_decode_request(spec_encode_request(r)) == Some(r),
{
    vstd::bytes::lemma_auto_spec_u16_to_from_le_bytes();
    vstd::utf8::encode_utf8_valid_utf8(r.addr);
    vstd::utf8::encode_utf8_decode_utf8(r.addr);
    let b = spec_encode_request(r);
    let ab = encode_utf8(r.addr);
    assert(b.subrange(1, 3) =~= vstd::bytes::spec_u16_to_le_bytes(ab.len() as u16));
    assert(b.skip(3) =~= ab);
}

/// Response round trip: every response that fits the wire decodes back from
/// its own payload bytes.
pub proof fn lemma_response_codec_round_trip(r: RespView)
    requires
        spec_response_encodable(r),
    ensures
        spec_decode_response(spec_encode_response(r)) == Some(r),
{
    lemma_request_codec_round_trip(r.to_req);
    vstd::bytes::lemma_auto_spec_u64_to_from_le_bytes();
    let b = spec_encode_response(r);
    let tag = spec_kind_tag(r.resp_kind);
    let detail = spec_kind_detail(r.resp_kind);
    let dlen = spec_tag_detail_len(tag);
    assert(detail.len() == dlen);
    assert(b.subrange(1, 1 + dlen) =~= detail);
    assert(b.skip(1 + dlen) =~= spec_encode_request(r.to_req));
    match r.resp_kind {
        ResponseKind::Success(SuccessKind::Ack) => {},
        ResponseKind::Success(SuccessKind::Power(x)) => {
            wire::lemma_reading_round_trip(x);
        },
        ResponseKind::Success(SuccessKind::Temp(x)) => {
            wire::lemma_reading_round_trip(x);
        },
        ResponseKind::Failure(e) => {},
    }
}

} // verus!
