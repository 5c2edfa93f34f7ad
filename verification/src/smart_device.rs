//! The client-side device handles of the house library: a socket driven over
//! an abstract byte stream with the raw byte protocol, and a stub
//! thermometer, both behind one closed device trait.

use crate::err_house::ErrorKind;
use crate::socket_protocol::{ReqType, RespType, SockRequest, SockResponse};
use crate::stream::ByteChannel;
use crate::transport;
use crate::transport::{TranportPack, TypePack, SIMPLE_PACK};
use crate::wire;
use vstd::prelude::*;

verus! {

broadcast use
    vstd::seq_lib::group_seq_lib_default,
    vstd::seq::group_seq_axioms,
    vstd::string::group_string_axioms;

/// The char spelling one decimal digit.
pub open spec fn digit_char(d: int) -> char {
    if d == 0 {
        '0'
    } else if d == 1 {
        '1'
    } else if d == 2 {
        '2'
    } else if d == 3 {
        '3'
    } else if d == 4 {
        '4'
    } else if d == 5 {
        '5'
    } else if d == 6 {
        '6'
    } else if d == 7 {
        '7'
    } else if d == 8 {
        '8'
    } else {
        '9'
    }
}

/// The decimal spelling of a natural number, most significant digit first.
pub open spec fn spec_decimal(x: nat) -> Seq<char>
    decreases x,
{
    if x < 10 {
        seq![digit_char(x as int)]
    } else {
        spec_decimal(x / 10) + seq![digit_char((x % 10) as int)]
    }
}

/// The decimal spelling of an integer: a minus sign before the magnitude of
/// a negative one.
pub open spec fn spec_decimal_int(x: int) -> Seq<char> {
    if x < 0 {
        seq!['-'] + spec_decimal((-x) as nat)
    } else {
        spec_decimal(x as nat)
    }
}

/// The string of one decimal digit.
fn digit_str(d: u64) -> (r: &'static str)
    requires
        d < 10,
    ensures
        r@ == seq![digit_char(d as int)],
{
    let r: &'static str = if d == 0 {
        "0"
    } else if d == 1 {
        "1"
    } else if d == 2 {
        "2"
    } else if d == 3 {
        "3"
    } else if d == 4 {
        "4"
    } else if d == 5 {
        "5"
    } else if d == 6 {
        "6"
    } else if d == 7 {
        "7"
    } else if d == 8 {
        "8"
    } else {
        "9"
    };
    proof {
        reveal_strlit("0");
        reveal_strlit("1");
        reveal_strlit("2");
        reveal_strlit("3");
        reveal_strlit("4");
        reveal_strlit("5");
        reveal_strlit("6");
        reveal_strlit("7");
        reveal_strlit("8");
        reveal_strlit("9");
        assert(r@ =~= seq![digit_char(d as int)]);
    }
    r
}

/// Writes a natural number in decimal.
pub fn u64_dec_string(x: u64) -> (r: String)
    ensures
        r@ == spec_decimal(x as nat),
    decreases x,
{
    if x < 10 {
        digit_str(x).to_owned()
    } else {
        let mut s = u64_dec_string(x / 10);
        s.append(digit_str(x % 10));
        s
    }
}

/// Writes an integer in decimal, with a minus sign when negative.
pub fn i64_dec_string(x: i64) -> (r: String)
    ensures
        r@ == spec_decimal_int(x as int),
{
    if x >= 0 {
        u64_dec_string(x as u64)
    } else {
        let m: u64 = if x == i64::MIN {
            0x8000_0000_0000_0000u64
        } else {
            (-x) as u64
        };
        let mut s = {
            proof {
                reveal_strlit("-");
            }
            let s: String = "-".to_owned();
            proof {
                assert(s@ =~= seq!['-']);
            }
            s
        };
        let digits = u64_dec_string(m);
        s.append(digits.as_str());
        s
    }
}

/// The kind of a client-side device.
#[derive(Clone, Copy, Debug, PartialEq, Eq, Structural)]
pub enum DeviceType {
    SmartSocket,
    SmartThermometer,
}

/// The one-line report of a socket reading `p` milliwatts with its switch
/// in state `on`.
pub open spec fn spec_socket_report(p: u32, on: bool) -> Seq<char> {
    "Smart socket"@ + ", current power mWt: "@ + spec_decimal(p as nat) + ", turned on: "@ + (
    if on {
        "true"@
    } else {
        "false"@
    })
}

/// A device the house library can query for its kind and a state report.
pub trait SmartDevice {
    /// The kind of the device.
    fn get_type(&self) -> DeviceType;

    /// A short human-readable name of the device kind.
    fn description(&self) -> String;

    /// A one-line report of the device's current state.
    fn get_state(&mut self) -> Result<String, ErrorKind>;
}

/// A client-side smart socket: issues raw byte-protocol commands over an
/// owned stream, once one is set.
pub struct SmartSocket<T: ByteChannel> {
    pub stream: Option<T>,
}

impl<T: ByteChannel> Default for SmartSocket<T> {
    /// A socket with no stream yet.
    fn default() -> (r: SmartSocket<T>)
        ensures
            r.stream is None,
    {
        SmartSocket { stream: None }
    }
}

impl<T: ByteChannel> SmartSocket<T> {
    /// Hands the socket the stream it will talk over.
    pub fn set_stream(&mut self, stream: T)
        ensures
            final(self).stream == Some(stream),
    {
        self.stream = Some(stream);
    }

    /// Writes one framed request down the stream and reads one framed
    /// response back. On success the response came whole off the head of
    /// the incoming stream, with known status and command bytes; without a
    /// stream nothing is touched.
    fn issue_cmd(&mut self, req: SockRequest) -> (r: Result<SockResponse, ErrorKind>)
        ensures
            match r {
                Ok(resp) => {
                    &&& old(self).stream is Some
                    &&& final(self).stream is Some
                    &&& {
                        let pre = old(self).stream->Some_0;
                        let post = final(self).stream->Some_0;
                        let pl = transport::frame_payload(pre.incoming());
                        &&& post.outgoing() == pre.outgoing() + transport::frame_bytes(
                            SIMPLE_PACK,
                            seq![req.req_type.spec_to_byte()] + req.payload@,
                        )
                        &&& transport::frame_complete(pre.incoming())
                        &&& pl.len() >= 2
                        &&& !(RespType::spec_from_byte(pl[0]) is Unknown)
                        &&& !(ReqType::spec_from_byte(pl[1]) is Unknown)
                        &&& resp.resp_type == RespType::spec_from_byte(pl[0])
                        &&& resp.req_type == ReqType::spec_from_byte(pl[1])
                        &&& resp.payload@ == pl.skip(2)
                        &&& post.incoming() == pre.incoming().skip(2 + pl.len() as int)
                    }
                },
                Err(e) => if old(self).stream is None {
                    e == ErrorKind::NotOpenedConnection && final(self).stream is None
                } else {
                    e == ErrorKind::IoTimeOut || e == ErrorKind::IoError || e
                        == ErrorKind::UnknownTypePack || e == ErrorKind::DeserializationError
                },
            },
    {
        match &mut self.stream {
            None => Err(ErrorKind::NotOpenedConnection),
            Some(stream) => {
                let frame = TranportPack::new(TypePack::Simple, req.serialize()).serialize();
                match stream.write_bytes(frame.as_slice()) {
                    Ok(()) => (),
                    Err(e) => {
                        return Err(e);
                    },
                }
                let pack = match TranportPack::from_reader(stream) {
                    Ok(p) => p,
                    Err(e) => {
                        return Err(e);
                    },
                };
                match SockResponse::deserialize(pack.get_payload()) {
                    Ok(resp) => Ok(resp),
                    Err(e) => Err(e),
                }
            },
        }
    }

    /// Asks the device to turn on; succeeds exactly when the device answers
    /// the exchanged frames with a success status.
    pub fn turn_on(&mut self) -> (r: Result<(), ErrorKind>)
        ensures
            match r {
                Ok(()) => {
                    &&& old(self).stream is Some
                    &&& {
                        let pre = old(self).stream->Some_0;
                        &&& transport::frame_complete(pre.incoming())
                        &&& RespType::spec_from_byte(
                            transport::frame_payload(pre.incoming())[0],
                        ) == RespType::Success
                    }
                },
                Err(e) => if old(self).stream is None {
                    e == ErrorKind::NotOpenedConnection
                } else {
                    e == ErrorKind::IoTimeOut || e == ErrorKind::IoError || e
                        == ErrorKind::UnknownTypePack || e == ErrorKind::DeserializationError
                },
            },
    {
        let resp = match self.issue_cmd(SockRequest::new_turn_on()) {
            Ok(resp) => resp,
            Err(e) => {
                return Err(e);
            },
        };
        match resp.get_resp_type() {
            RespType::Success => Ok(()),
            _ => Err(ErrorKind::IoError),
        }
    }

    /// Asks the device to turn off; succeeds exactly when the device
    /// answers the exchanged frames with a success status.
    pub fn turn_off(&mut self) -> (r: Result<(), ErrorKind>)
        ensures
            match r {
                Ok(()) => {
                    &&& old(self).stream is Some
                    &&& {
                        let pre = old(self).stream->Some_0;
                        &&& transport::frame_complete(pre.incoming())
                        &&& RespType::spec_from_byte(
                            transport::frame_payload(pre.incoming())[0],
                        ) == RespType::Success
                    }
                },
                Err(e) => if old(self).stream is None {
                    e == ErrorKind::NotOpenedConnection
                } else {
                    e == ErrorKind::IoTimeOut || e == ErrorKind::IoError || e
                        == ErrorKind::UnknownTypePack || e == ErrorKind::DeserializationError
                },
            },
    {
        let resp = match self.issue_cmd(SockRequest::new_turn_off()) {
            Ok(resp) => resp,
            Err(e) => {
                return Err(e);
            },
        };
        match resp.get_resp_type() {
            RespType::Success => Ok(()),
            _ => Err(ErrorKind::IoError),
        }
    }

    /// Asks whether the device is on: the answer is the first payload byte
    /// of a successful response, nonzero meaning on.
    pub fn is_turned_on(&mut self) -> (r: Result<bool, ErrorKind>)
        ensures
            match r {
                Ok(b) => {
                    &&& old(self).stream is Some
                    &&& {
                        let pl = transport::frame_payload(
                            old(self).stream->Some_0.incoming(),
                        );
                        &&& transport::frame_complete(old(self).stream->Some_0.incoming())
                        &&& RespType::spec_from_byte(pl[0]) == RespType::Success
                        &&& pl.len() >= 3
                        &&& b == (pl[2] != 0)
                    }
                },
                Err(e) => if old(self).stream is None {
                    e == ErrorKind::NotOpenedConnection
                } else {
                    e == ErrorKind::IoTimeOut || e == ErrorKind::IoError || e
                        == ErrorKind::UnknownTypePack || e == ErrorKind::DeserializationError
                },
            },
    {
        let resp = match self.issue_cmd(SockRequest::new_check_turned()) {
            Ok(resp) => resp,
            Err(e) => {
                return Err(e);
            },
        };
        match resp.get_resp_type() {
            RespType::Success => {
                let payload = resp.get_payload();
                if payload.len() == 0 {
                    return Err(ErrorKind::DeserializationError);
                }
                Ok(payload[0] != 0)
            },
            _ => Err(ErrorKind::IoError),
        }
    }

    /// Asks for the current power draw, in milliwatts: the answer is the
    /// big-endian 32-bit integer opening the payload of a successful
    /// response.
    pub fn get_current_power(&mut self) -> (r: Result<u32, ErrorKind>)
        ensures
            match r {
                Ok(p) => {
                    &&& old(self).stream is Some
                    &&& {
                        let pl = transport::frame_payload(
                            old(self).stream->Some_0.incoming(),
                        );
                        &&& transport::frame_complete(old(self).stream->Some_0.incoming())
                        &&& RespType::spec_from_byte(pl[0]) == RespType::Success
                        &&& pl.len() >= 6
                        &&& p == wire::be_u32_of(pl.subrange(2, 6))
                    }
                },
                Err(e) => if old(self).stream is None {
                    e == ErrorKind::NotOpenedConnection
                } else {
                    e == ErrorKind::IoTimeOut || e == ErrorKind::IoError || e
                        == ErrorKind::UnknownTypePack || e == ErrorKind::DeserializationError
                },
            },
    {
        let resp = match self.issue_cmd(SockRequest::new_get_power()) {
            Ok(resp) => resp,
            Err(e) => {
                return Err(e);
            },
        };
        match resp.get_resp_type() {
            RespType::Success => {
                let payload = resp.get_payload();
                if payload.len() < 4 {
                    return Err(ErrorKind::DeserializationError);
                }
                let p = wire::read_be_u32(payload);
                proof {
                    let pl = transport::frame_payload(old(self).stream->Some_0.incoming());
                    assert(pl.skip(2).take(4) =~= pl.subrange(2, 6));
                }
                Ok(p)
            },
            _ => Err(ErrorKind::IoError),
        }
    }
}

impl<T: ByteChannel> SmartDevice for SmartSocket<T> {
    fn get_type(&self) -> (r: DeviceType)
        ensures
            r == DeviceType::SmartSocket,
    {
        DeviceType::SmartSocket
    }

    fn description(&self) -> (r: String)
        ensures
            r@ == "Smart socket"@,
    {
        "Smart socket".to_owned()
    }

    fn get_state(&mut self) -> (r: Result<String, ErrorKind>)
        ensures
            r matches Ok(s) ==> exists|p: u32, on: bool|
                s@ == #[trigger] spec_socket_report(p, on),
    {
        let is_on = match self.is_turned_on() {
            Ok(b) => b,
            Err(e) => {
                return Err(e);
            },
        };
        let power_mw = match self.get_current_power() {
            Ok(p) => p,
            Err(e) => {
                return Err(e);
            },
        };
        let mut report = self.description();
        report.append(", current power mWt: ");
        report.append(u64_dec_string(power_mw as u64).as_str());
        report.append(", turned on: ");
        if is_on {
            report.append("true");
        } else {
            report.append("false");
        }
        proof {
            assert(report@ == spec_socket_report(power_mw, is_on));
        }
        Ok(report)
    }
}

/// A client-side thermometer stub: it has no transport yet and reports a
/// fixed reading.
#[derive(Debug)]
pub struct SmartThermometer {
}

impl Default for SmartThermometer {
    /// The stub thermometer.
    fn default() -> (r: SmartThermometer)
        ensures
            true,
    {
        SmartThermometer {  }
    }
}

impl SmartThermometer {
    /// The current temperature, in millidegrees: the stub always reads 0.
    pub fn get_current_temp(&self) -> (r: Result<i64, ErrorKind>)
        ensures
            r == Ok::<i64, ErrorKind>(0),
    {
        Ok(0)
    }
}

impl SmartDevice for SmartThermometer {
    fn get_type(&self) -> (r: DeviceType)
        ensures
            r == DeviceType::SmartThermometer,
    {
        DeviceType::SmartThermometer
    }

    fn description(&self) -> (r: String)
        ensures
            r@ == "Smart thermometer"@,
    {
        "Smart thermometer".to_owned()
    }

    fn get_state(&mut self) -> (r: Result<String, ErrorKind>)
        ensures
            r matches Ok(s) && s@ == "Smart thermometer"@ + ", current temperature: "@
                + spec_decimal_int(0),
    {
        let temp = match self.get_current_temp() {
            Ok(t) => t,
            Err(e) => {
                return Err(e);
            },
        };
        let mut report = self.description();
        report.append(", current temperature: ");
        report.append(i64_dec_string(temp).as_str());
        Ok(report)
    }
}

} // verus!
