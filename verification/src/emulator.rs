//! Device emulators: synthetic remote peers that apply requests to a single
//! on/off state and answer with acknowledgements or readings. The random
//! spread around each reading's mean enters as a plain noise argument, so
//! every decision here is verified for every value the sampler may produce.

use crate::err_house::ErrorKind;
use crate::protocol;
use crate::protocol::{Cmd, ReqView, Request, RespView, Response, ResponseKind, SuccessKind};
use crate::socket_protocol;
use crate::socket_protocol::{ReqType, RespType, SockRequest, SockResponse};
use crate::stream::ByteChannel;
use crate::transport;
use crate::transport::{TranportPack, TypePack, SIMPLE_PACK};
use crate::wire;
use vstd::prelude::*;

verus! {

broadcast use vstd::seq_lib::group_seq_lib_default, vstd::seq::group_seq_axioms;

/// The mean of the socket emulator's power readings, in milliwatts.
pub const AVG_POWER_MW: i64 = 4_000_000;

/// The spread of the socket emulator's power readings, in milliwatts.
pub const POWER_SPREAD_MW: i64 = 100_000;

/// The mean of the thermometer emulator's readings, in millidegrees.
pub const AVG_TEMP_MILLI: i64 = 25_000;

/// The spread of the thermometer emulator's readings, in millidegrees.
pub const TEMP_SPREAD_MILLI: i64 = 5_000;

/// Whether a mean plus a noise sample stays within the reading type.
pub open spec fn reading_fits(avg: i64, noise: i64) -> bool {
    i64::MIN <= avg + noise <= i64::MAX
}

/// A reading around a mean: exactly 0 while the device is off, otherwise
/// the mean shifted by the sampled noise.
pub open spec fn spec_reading(on: bool, avg: i64, noise: i64) -> i64 {
    if on {
        (avg + noise) as i64
    } else {
        0
    }
}

/// How the socket emulator answers one request: turning on or off is
/// acknowledged, a power request is answered with a reading, and any other
/// command is refused as unknown.
pub open spec fn spec_sock_reply(on: bool, req: ReqView, noise_mw: i64) -> (bool, RespView) {
    match req.cmd {
        Cmd::TurnOn => (
            true,
            RespView { to_req: req, resp_kind: ResponseKind::Success(SuccessKind::Ack) },
        ),
        Cmd::TurnOff => (
            false,
            RespView { to_req: req, resp_kind: ResponseKind::Success(SuccessKind::Ack) },
        ),
        Cmd::Power => (
            on,
            RespView {
                to_req: req,
                resp_kind: ResponseKind::Success(
                    SuccessKind::Power(spec_reading(on, AVG_POWER_MW, noise_mw)),
                ),
            },
        ),
        Cmd::Temperature => (
            on,
            RespView {
                to_req: req,
                resp_kind: ResponseKind::Failure(protocol::ErrorKind::UnknownCmd),
            },
        ),
    }
}

/// How the thermometer emulator answers one request: it, too, answers the
/// power request — with a temperature reading — and refuses the rest.
pub open spec fn spec_therm_reply(on: bool, req: ReqView, noise_milli: i64) -> (bool, RespView) {
    match req.cmd {
        Cmd::TurnOn => (
            true,
            RespView { to_req: req, resp_kind: ResponseKind::Success(SuccessKind::Ack) },
        ),
        Cmd::TurnOff => (
            false,
            RespView { to_req: req, resp_kind: ResponseKind::Success(SuccessKind::Ack) },
        ),
        Cmd::Power => (
            on,
            RespView {
                to_req: req,
                resp_kind: ResponseKind::Success(
                    SuccessKind::Temp(spec_reading(on, AVG_TEMP_MILLI, noise_milli)),
                ),
            },
        ),
        Cmd::Temperature => (
            on,
            RespView {
                to_req: req,
                resp_kind: ResponseKind::Failure(protocol::ErrorKind::UnknownCmd),
            },
        ),
    }
}

/// A request decoded off the wire always fits back onto it: its address came
/// out of one frame payload, so it is short enough to re-encode.
proof fn lemma_decoded_request_encodable(payload: Seq<u8>)
    requires
        protocol::spec_decode_request(payload) is Some,
        payload.len() <= 65535,
    ensures
        protocol::spec_request_encodable(protocol::spec_decode_request(payload)->Some_0),
{
    vstd::utf8::decode_utf8_encode_utf8(payload.skip(3));
}

/// The emulator of a socket device: one on/off flag behind a stream
/// transport bound to one address.
pub struct SockEmulator {
    pub ip_addr: String,
    pub is_turned_on: bool,
}

impl SockEmulator {
    /// An emulator bound to an address, initially turned on.
    pub fn new(ip_addr: &str) -> (r: SockEmulator)
        ensures
            r.ip_addr@ == ip_addr@,
            r.is_turned_on == true,
    {
        SockEmulator { ip_addr: ip_addr.to_owned(), is_turned_on: true }
    }

    /// Turns the emulated socket on.
    pub fn turn_on(&mut self)
        ensures
            final(self).is_turned_on == true,
            final(self).ip_addr == old(self).ip_addr,
    {
        self.is_turned_on = true;
    }

    /// Turns the emulated socket off.
    pub fn turn_off(&mut self)
        ensures
            final(self).is_turned_on == false,
            final(self).ip_addr == old(self).ip_addr,
    {
        self.is_turned_on = false;
    }

    /// The power reading, in milliwatts: exactly 0 while off, the mean plus
    /// the sampled noise while on.
    pub fn get_power(&self, noise_mw: i64) -> (r: i64)
        requires
            reading_fits(AVG_POWER_MW, noise_mw),
        ensures
            r == spec_reading(self.is_turned_on, AVG_POWER_MW, noise_mw),
    {
        if !self.is_turned_on {
            return 0;
        }
        AVG_POWER_MW + noise_mw
    }

    /// Applies one decoded request. A request whose embedded target address
    /// differs from the emulator's own bound address is dropped without a
    /// response and without touching the state; any other is answered as
    /// `spec_sock_reply` says.
    pub fn handle_request(&mut self, req: Request, noise_mw: i64) -> (r: Option<Response>)
        requires
            reading_fits(AVG_POWER_MW, noise_mw),
        ensures
            final(self).ip_addr == old(self).ip_addr,
            req@.addr != old(self).ip_addr@ ==> r is None && final(self).is_turned_on == old(
                self,
            ).is_turned_on,
            req@.addr == old(self).ip_addr@ ==> {
                let (new_on, resp) = spec_sock_reply(old(self).is_turned_on, req@, noise_mw);
                &&& r matches Some(out) && out@ == resp
                &&& final(self).is_turned_on == new_on
            },
    {
        if !wire::str_eq(req.addr.as_str(), self.ip_addr.as_str()) {
            return None;
        }
        match req.cmd {
            Cmd::TurnOn => {
                self.turn_on();
                Some(Response::success_response(req))
            },
            Cmd::TurnOff => {
                self.turn_off();
                Some(Response::success_response(req))
            },
            Cmd::Power => {
                let power = self.get_power(noise_mw);
                Some(Response::current_power(req, power))
            },
            Cmd::Temperature => Some(
                Response::err_response(req, protocol::ErrorKind::UnknownCmd),
            ),
        }
    }

    /// Handles one frame already read whole off the connection: decodes the
    /// request in it and answers with the bytes of one framed response —
    /// `None` when the request targeted a foreign address and is silently
    /// dropped. An undecodable frame leaves the state alone and reports why
    /// it was refused.
    pub fn handle_datagram(&mut self, bin_pack: &[u8], noise_mw: i64) -> (r: Result<
        Option<Vec<u8>>,
        ErrorKind,
    >)
        requires
            reading_fits(AVG_POWER_MW, noise_mw),
        ensures
            final(self).ip_addr == old(self).ip_addr,
            match r {
                Ok(out) => {
                    let payload = transport::frame_payload(bin_pack@);
                    &&& transport::frame_complete(bin_pack@)
                    &&& protocol::spec_decode_request(payload) is Some
                    &&& {
                        let req = protocol::spec_decode_request(payload)->Some_0;
                        if req.addr == old(self).ip_addr@ {
                            let (new_on, resp) = spec_sock_reply(
                                old(self).is_turned_on,
                                req,
                                noise_mw,
                            );
                            &&& final(self).is_turned_on == new_on
                            &&& out matches Some(v) && v@ == transport::frame_bytes(
                                SIMPLE_PACK,
                                protocol::spec_encode_response(resp),
                            )
                        } else {
                            &&& final(self).is_turned_on == old(self).is_turned_on
                            &&& out is None
                        }
                    }
                },
                Err(e) => {
                    &&& final(self).is_turned_on == old(self).is_turned_on
                    &&& if !transport::frame_complete(bin_pack@) {
                        e == transport::frame_decode_err(bin_pack@)
                    } else {
                        &&& protocol::spec_decode_request(transport::frame_payload(bin_pack@))
                            is None
                        &&& e == ErrorKind::DeserializationError
                    }
                },
            },
    {
        let pack = match TranportPack::deserialize(bin_pack) {
            Ok(p) => p,
            Err(e) => {
                return Err(e);
            },
        };
        let req = match protocol::decode_request(pack.get_payload()) {
            Ok(r) => r,
            Err(e) => {
                return Err(e);
            },
        };
        proof {
            lemma_decoded_request_encodable(transport::frame_payload(bin_pack@));
        }
        match self.handle_request(req, noise_mw) {
            None => Ok(None),
            Some(resp) => {
                let resp_bytes = match protocol::encode_response(&resp) {
                    Ok(v) => v,
                    Err(e) => {
                        proof {
                            assert(false);
                        }
                        return Err(e);
                    },
                };
                let out_frame = TranportPack::new(TypePack::Simple, resp_bytes).serialize();
                Ok(Some(out_frame))
            },
        }
    }

    /// One turn of the emulator's connection loop: reads one frame, decodes
    /// the request, and — unless the request targets a foreign address —
    /// writes back one framed response while updating the on/off state. A
    /// frame, payload or transport failure surfaces as the error that ends
    /// the connection.
    pub fn serve_step<T: ByteChannel>(&mut self, conn: &mut T, noise_mw: i64) -> (r:
        Result<(), ErrorKind>)
        requires
            reading_fits(AVG_POWER_MW, noise_mw),
        ensures
            final(self).ip_addr == old(self).ip_addr,
            match r {
                Ok(()) => {
                    let pre = old(conn).incoming();
                    let payload = transport::frame_payload(pre);
                    &&& transport::frame_complete(pre)
                    &&& protocol::spec_decode_request(payload) is Some
                    &&& final(conn).incoming() == pre.skip(2 + payload.len() as int)
                    &&& {
                        let req = protocol::spec_decode_request(payload)->Some_0;
                        if req.addr == old(self).ip_addr@ {
                            let (new_on, resp) = spec_sock_reply(
                                old(self).is_turned_on,
                                req,
                                noise_mw,
                            );
                            &&& final(self).is_turned_on == new_on
                            &&& final(conn).outgoing() == old(conn).outgoing()
                                + transport::frame_bytes(
                                SIMPLE_PACK,
                                protocol::spec_encode_response(resp),
                            )
                        } else {
                            &&& final(self).is_turned_on == old(self).is_turned_on
                            &&& final(conn).outgoing() == old(conn).outgoing()
                        }
                    }
                },
                Err(e) => e == ErrorKind::IoTimeOut || e == ErrorKind::IoError || e
                    == ErrorKind::UnknownTypePack || e == ErrorKind::DeserializationError,
            },
    {
        let pack = match TranportPack::from_reader(conn) {
            Ok(p) => p,
            Err(e) => {
                return Err(e);
            },
        };
        let req = match protocol::decode_request(pack.get_payload()) {
            Ok(r) => r,
            Err(e) => {
                return Err(e);
            },
        };
        let ghost payload = transport::frame_payload(old(conn).incoming());
        proof {
            lemma_decoded_request_encodable(payload);
        }
        match self.handle_request(req, noise_mw) {
            None => Ok(()),
            Some(resp) => {
                let resp_bytes = match protocol::encode_response(&resp) {
                    Ok(v) => v,
                    Err(e) => {
                        proof {
                            assert(false);
                        }
                        return Err(e);
                    },
                };
                let out_frame = TranportPack::new(TypePack::Simple, resp_bytes).serialize();
                match conn.write_bytes(out_frame.as_slice()) {
                    Ok(()) => Ok(()),
                    Err(e) => Err(e),
                }
            },
        }
    }
}

/// The emulator of a thermometer device: one on/off flag behind a datagram
/// transport bound to one address.
pub struct ThermEmulator {
    pub ip_addr: String,
    pub is_turned_on: bool,
}

impl ThermEmulator {
    /// An emulator bound to an address, initially turned on.
    pub fn new(ip_addr: &str) -> (r: ThermEmulator)
        ensures
            r.ip_addr@ == ip_addr@,
            r.is_turned_on == true,
    {
        ThermEmulator { ip_addr: ip_addr.to_owned(), is_turned_on: true }
    }

    /// Turns the emulated thermometer on.
    pub fn turn_on(&mut self)
        ensures
            final(self).is_turned_on == true,
            final(self).ip_addr == old(self).ip_addr,
    {
        self.is_turned_on = true;
    }

    /// Turns the emulated thermometer off.
    pub fn turn_off(&mut self)
        ensures
            final(self).is_turned_on == false,
            final(self).ip_addr == old(self).ip_addr,
    {
        self.is_turned_on = false;
    }

    /// The temperature reading, in millidegrees: exactly 0 while off, the
    /// mean plus the sampled noise while on.
    pub fn get_temperature(&self, noise_milli: i64) -> (r: i64)
        requires
            reading_fits(AVG_TEMP_MILLI, noise_milli),
        ensures
            r == spec_reading(self.is_turned_on, AVG_TEMP_MILLI, noise_milli),
    {
        if !self.is_turned_on {
            return 0;
        }
        AVG_TEMP_MILLI + noise_milli
    }

    /// Applies one decoded request, as the socket emulator does, but a
    /// power request is answered with a temperature reading.
    pub fn handle_request(&mut self, req: Request, noise_milli: i64) -> (r: Option<Response>)
        requires
            reading_fits(AVG_TEMP_MILLI, noise_milli),
        ensures
            final(self).ip_addr == old(self).ip_addr,
            req@.addr != old(self).ip_addr@ ==> r is None && final(self).is_turned_on == old(
                self,
            ).is_turned_on,
            req@.addr == old(self).ip_addr@ ==> {
                let (new_on, resp) = spec_therm_reply(old(self).is_turned_on, req@, noise_milli);
                &&& r matches Some(out) && out@ == resp
                &&& final(self).is_turned_on == new_on
            },
    {
        if !wire::str_eq(req.addr.as_str(), self.ip_addr.as_str()) {
            return None;
        }
        match req.cmd {
            Cmd::TurnOn => {
                self.turn_on();
                Some(Response::success_response(req))
            },
            Cmd::TurnOff => {
                self.turn_off();
                Some(Response::success_response(req))
            },
            Cmd::Power => {
                let temp = self.get_temperature(noise_milli);
                Some(Response::current_temp(req, temp))
            },
            Cmd::Temperature => Some(
                Response::err_response(req, protocol::ErrorKind::UnknownCmd),
            ),
        }
    }

    /// Handles one received datagram: decodes the frame and the request in
    /// it, and answers with the bytes of one framed response datagram —
    /// `None` when the request targeted a foreign address and is silently
    /// dropped. An undecodable datagram leaves the state alone and reports
    /// why it was refused.
    pub fn handle_datagram(&mut self, bin_pack: &[u8], noise_milli: i64) -> (r: Result<
        Option<Vec<u8>>,
        ErrorKind,
    >)
        requires
            reading_fits(AVG_TEMP_MILLI, noise_milli),
        ensures
            final(self).ip_addr == old(self).ip_addr,
            match r {
                Ok(out) => {
                    let payload = transport::frame_payload(bin_pack@);
                    &&& transport::frame_complete(bin_pack@)
                    &&& protocol::spec_decode_request(payload) is Some
                    &&& {
                        let req = protocol::spec_decode_request(payload)->Some_0;
                        if req.addr == old(self).ip_addr@ {
                            let (new_on, resp) = spec_therm_reply(
                                old(self).is_turned_on,
                                req,
                                noise_milli,
                            );
                            &&& final(self).is_turned_on == new_on
                            &&& out matches Some(v) && v@ == transport::frame_bytes(
                                SIMPLE_PACK,
                                protocol::spec_encode_response(resp),
                            )
                        } else {
                            &&& final(self).is_turned_on == old(self).is_turned_on
                            &&& out is None
                        }
                    }
                },
                Err(e) => {
                    &&& final(self).is_turned_on == old(self).is_turned_on
                    &&& if !transport::frame_complete(bin_pack@) {
                        e == transport::frame_decode_err(bin_pack@)
                    } else {
                        &&& protocol::spec_decode_request(transport::frame_payload(bin_pack@))
                            is None
                        &&& e == ErrorKind::DeserializationError
                    }
                },
            },
    {
        let pack = match TranportPack::deserialize(bin_pack) {
            Ok(p) => p,
            Err(e) => {
                return Err(e);
            },
        };
        let req = match protocol::decode_request(pack.get_payload()) {
            Ok(r) => r,
            Err(e) => {
                return Err(e);
            },
        };
        proof {
            lemma_decoded_request_encodable(transport::frame_payload(bin_pack@));
        }
        match self.handle_request(req, noise_milli) {
            None => Ok(None),
            Some(resp) => {
                let resp_bytes = match protocol::encode_response(&resp) {
                    Ok(v) => v,
                    Err(e) => {
                        proof {
                            assert(false);
                        }
                        return Err(e);
                    },
                };
                let out_frame = TranportPack::new(TypePack::Simple, resp_bytes).serialize();
                Ok(Some(out_frame))
            },
        }
    }
}

/// The mean of the raw socket emulator's power readings, in milliwatts.
pub const RAW_AVG_POWER_MW: i32 = 4_000_000;

/// The spread of the raw socket emulator's power readings, in milliwatts.
pub const RAW_POWER_SPREAD_MW: i32 = 100_000;

/// The raw emulator's power reading: 0 while off, the mean plus the noise
/// while on.
pub open spec fn spec_raw_power(on: bool, noise_mw: i32) -> u32 {
    if on {
        (RAW_AVG_POWER_MW + noise_mw) as u32
    } else {
        0
    }
}

/// How the raw socket emulator answers one request: the new on/off state
/// and the response payload written back, or `None` for an unknown command,
/// which is dropped without a response.
pub open spec fn spec_raw_reply(on: bool, rt: ReqType, noise_mw: i32) -> Option<(bool, Seq<u8>)> {
    match rt {
        ReqType::TurnOn => Some(
            (true, seq![socket_protocol::SUCCESS_RESP, socket_protocol::TURN_ON_CMD]),
        ),
        ReqType::TurnOff => Some(
            (false, seq![socket_protocol::SUCCESS_RESP, socket_protocol::TURN_OFF_CMD]),
        ),
        ReqType::CheckTurned => Some(
            (
                on,
                seq![
                    socket_protocol::SUCCESS_RESP,
                    socket_protocol::CHECK_TURNED,
                    if on {
                        1u8
                    } else {
                        0u8
                    },
                ],
            ),
        ),
        ReqType::Power => Some(
            (
                on,
                seq![socket_protocol::SUCCESS_RESP, socket_protocol::POWER_CMD]
                    + wire::spec_u32_to_be_bytes(spec_raw_power(on, noise_mw)),
            ),
        ),
        ReqType::Unknown(_) => None,
    }
}

/// The standalone socket emulator speaking the raw byte protocol: one
/// on/off flag, power reported in whole milliwatts.
pub struct SocketEmulator {
    pub is_turn_on: bool,
}

impl Default for SocketEmulator {
    /// A raw emulator that starts turned off.
    fn default() -> (r: SocketEmulator)
        ensures
            r.is_turn_on == false,
    {
        SocketEmulator { is_turn_on: false }
    }
}

impl SocketEmulator {
    /// Turns the emulated socket on.
    pub fn turn_on(&mut self)
        ensures
            final(self).is_turn_on == true,
    {
        self.is_turn_on = true;
    }

    /// Turns the emulated socket off.
    pub fn turn_off(&mut self)
        ensures
            final(self).is_turn_on == false,
    {
        self.is_turn_on = false;
    }

    /// The power reading in milliwatts: 0 while off, the mean plus the
    /// sampled noise while on.
    pub fn get_power_mw(&self, noise_mw: i32) -> (r: u32)
        requires
            0 <= RAW_AVG_POWER_MW + noise_mw <= u32::MAX,
        ensures
            r == spec_raw_power(self.is_turn_on, noise_mw),
    {
        if !self.is_turn_on {
            return 0;
        }
        ((RAW_AVG_POWER_MW as i64) + (noise_mw as i64)) as u32
    }

    /// One turn of the raw emulator's connection loop: reads one request
    /// frame and, for a known command, updates the state and writes back
    /// one framed response; an unknown command is dropped without a reply.
    pub fn handle_request<T: ByteChannel>(&mut self, connection: &mut T, noise_mw: i32)
        -> (r: Result<(), ErrorKind>)
        requires
            0 <= RAW_AVG_POWER_MW + noise_mw <= u32::MAX,
        ensures
            match r {
                Ok(()) => {
                    let pre = old(connection).incoming();
                    let payload = transport::frame_payload(pre);
                    &&& transport::frame_complete(pre)
                    &&& payload.len() >= 1
                    &&& final(connection).incoming() == pre.skip(2 + payload.len() as int)
                    &&& match spec_raw_reply(
                        old(self).is_turn_on,
                        ReqType::spec_from_byte(payload[0]),
                        noise_mw,
                    ) {
                        Some((new_on, resp_payload)) => {
                            &&& final(self).is_turn_on == new_on
                            &&& final(connection).outgoing() == old(connection).outgoing()
                                + transport::frame_bytes(SIMPLE_PACK, resp_payload)
                        },
                        None => {
                            &&& final(self).is_turn_on == old(self).is_turn_on
                            &&& final(connection).outgoing() == old(connection).outgoing()
                        },
                    }
                },
                Err(e) => e == ErrorKind::IoTimeOut || e == ErrorKind::IoError || e
                    == ErrorKind::UnknownTypePack || e == ErrorKind::DeserializationError,
            },
    {
        let pack = match TranportPack::from_reader(connection) {
            Ok(p) => p,
            Err(e) => {
                return Err(e);
            },
        };
        let req = match SockRequest::deserialize(pack.get_payload()) {
            Ok(r) => r,
            Err(e) => {
                return Err(e);
            },
        };
        let resp: SockResponse = match req.get_req_type() {
            ReqType::TurnOn => {
                self.turn_on();
                SockResponse::new(RespType::Success, ReqType::TurnOn, Vec::new())
            },
            ReqType::TurnOff => {
                self.turn_off();
                SockResponse::new(RespType::Success, ReqType::TurnOff, Vec::new())
            },
            ReqType::CheckTurned => {
                let flag: u8 = if self.is_turn_on {
                    1
                } else {
                    0
                };
                let mut payload: Vec<u8> = Vec::new();
                payload.push(flag);
                SockResponse::new(RespType::Success, ReqType::CheckTurned, payload)
            },
            ReqType::Power => {
                let cur_pow = self.get_power_mw(noise_mw);
                let serialized_pow = wire::u32_to_be_bytes(cur_pow);
                SockResponse::new(RespType::Success, ReqType::Power, serialized_pow)
            },
            ReqType::Unknown(_) => {
                return Ok(());
            },
        };
        let resp_bytes = resp.serialize();
        proof {
            let payload = transport::frame_payload(old(connection).incoming());
            let reply = spec_raw_reply(
                old(self).is_turn_on,
                ReqType::spec_from_byte(payload[0]),
                noise_mw,
            );
            assert(resp_bytes@ =~= reply->Some_0.1);
        }
        let out_frame = TranportPack::new(TypePack::Simple, resp_bytes).serialize();
        match connection.write_bytes(out_frame.as_slice()) {
            Ok(()) => Ok(()),
            Err(e) => Err(e),
        }
    }
}

} // verus!
