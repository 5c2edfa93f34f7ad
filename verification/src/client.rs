//! The decisions of the console clients: turning a parsed console command
//! into the server request it stands for, and decoding a server's answer off
//! a datagram. The console line parsing, the channels and the sockets around
//! these live outside the verified library.

use crate::err_house;
use crate::server_protocol as sp;
use crate::transport;
use crate::transport::TranportPack;
use vstd::prelude::*;

verus! {

broadcast use vstd::seq_lib::group_seq_lib_default, vstd::seq::group_seq_axioms;

/// One command read off the console, aimed at every connected service.
#[derive(Debug, Clone)]
pub enum ConsoleCmd {
    /// List every device of every server.
    GetDevs,
    /// Turn the named device on.
    TurnOn(String),
    /// Turn the named device off.
    TurnOff(String),
    /// Read the named socket's power.
    GetPower(String),
    /// Read the named thermometer's temperature.
    GetTemp(String),
    /// Stop every service and leave.
    Exit,
}

/// The server request a console command stands for; leaving the console is
/// no request at all.
pub fn request_of_cmd(cmd: &ConsoleCmd) -> (r: Option<sp::Request>)
    ensures
        match cmd {
            ConsoleCmd::GetDevs => r matches Some(q) && q@.cmd == sp::Cmd::GetListDevices && q@.dev_name
                == Seq::<char>::empty(),
            ConsoleCmd::TurnOn(name) => r matches Some(q) && q@.cmd == sp::Cmd::TurnOn && q@.dev_name
                == name@,
            ConsoleCmd::TurnOff(name) => r matches Some(q) && q@.cmd == sp::Cmd::TurnOff && q@.dev_name
                == name@,
            ConsoleCmd::GetPower(name) => r matches Some(q) && q@.cmd == sp::Cmd::Power && q@.dev_name
                == name@,
            ConsoleCmd::GetTemp(name) => r matches Some(q) && q@.cmd == sp::Cmd::Temperature
                && q@.dev_name == name@,
            ConsoleCmd::Exit => r is None,
        },
{
    match cmd {
        ConsoleCmd::GetDevs => Some(sp::Request::new(sp::Cmd::GetListDevices, String::new())),
        ConsoleCmd::TurnOn(name) => Some(sp::Request::new(sp::Cmd::TurnOn, name.clone())),
        ConsoleCmd::TurnOff(name) => Some(sp::Request::new(sp::Cmd::TurnOff, name.clone())),
        ConsoleCmd::GetPower(name) => Some(sp::Request::new(sp::Cmd::Power, name.clone())),
        ConsoleCmd::GetTemp(name) => Some(sp::Request::new(sp::Cmd::Temperature, name.clone())),
        ConsoleCmd::Exit => None,
    }
}

/// Decodes one server answer off a whole received datagram: the frame is
/// peeled, its payload read back as a response. Any malformation is a
/// deserialization error.
pub fn decode_response_datagram(bytes: &[u8]) -> (r: Result<sp::Response, err_house::ErrorKind>)
    ensures
        match r {
            Ok(resp) => {
                &&& transport::frame_complete(bytes@)
                &&& sp::spec_decode_response(transport::frame_payload(bytes@)) == Some(resp@)
            },
            Err(e) => if !transport::frame_complete(bytes@) {
                e == transport::frame_decode_err(bytes@)
            } else {
                &&& sp::spec_decode_response(transport::frame_payload(bytes@)) is None
                &&& e == err_house::ErrorKind::DeserializationError
            },
        },
{
    let pack = match TranportPack::deserialize(bytes) {
        Ok(p) => p,
        Err(e) => {
            return Err(e);
        },
    };
    sp::decode_response(pack.get_payload())
}

} // verus!
