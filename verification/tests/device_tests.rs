use smart_house::client::{decode_response_datagram, request_of_cmd, ConsoleCmd};
use smart_house::device::{
    sock_handler_step, therm_handler_step, ConnectAction, ConnectPolicy, Device, DevType,
    HandlerAction, SessionState,
};
use smart_house::err_house::ErrorKind;
use smart_house::protocol;
use smart_house::server_protocol as sp;
use smart_house::smart_device::{
    i64_dec_string, u64_dec_string, DeviceType, SmartDevice, SmartSocket, SmartThermometer,
};
use smart_house::socket_protocol::{
    ReqType, RespType, SockRequest, SockResponse, CHECK_TURNED, POWER_CMD, SUCCESS_RESP,
    TURN_ON_CMD,
};
use smart_house::stream::MemChannel;
use smart_house::transport::{TranportPack, TypePack, SIMPLE_PACK};

#[test]
fn test_smart_thermometer_dev_type() {
    let mut smart_device: Box<dyn SmartDevice> = Box::new(SmartThermometer::default());
    let dev_type = smart_device.get_type();
    match dev_type {
        DeviceType::SmartThermometer => assert!(true),
        _ => assert!(false),
    }
    assert!(smart_device.get_state().is_ok());
}

#[test]
fn connect_policy_spends_its_attempts() {
    let mut policy = ConnectPolicy::new(3);
    for _ in 0..3 {
        assert!(matches!(policy.next_action(), ConnectAction::TryConnect));
        policy.record_failure();
    }
    assert!(matches!(policy.next_action(), ConnectAction::GiveUp));
    assert!(matches!(policy.give_up_error(), ErrorKind::IoTimeOut));
}

#[test]
fn device_lifecycle_and_send_req() {
    let mut dev = Device::new("Smart Sock", "127.0.0.1:444", DevType::Sock);
    assert_eq!(dev.get_name(), "Smart Sock");
    assert_eq!(dev.get_addr(), "127.0.0.1:444");
    assert!(matches!(dev.state, SessionState::Disconnected));

    // Sending before connecting is refused without writing anything.
    let req = protocol::Request::new("127.0.0.1:444", protocol::Cmd::Power);
    assert!(matches!(
        dev.send_req(&req),
        Err(ErrorKind::NotOpenedConnection)
    ));

    dev.begin_connect();
    assert!(matches!(dev.state, SessionState::Connecting));
    dev.finish_connect(true);
    assert!(matches!(dev.state, SessionState::Connected));

    // Once connected the frame for the request comes back for the runtime
    // to write: tag, length, then the encoded request.
    let frame = dev.send_req(&req).unwrap();
    assert_eq!(frame[0], SIMPLE_PACK);
    assert_eq!(frame[1] as usize, frame.len() - 2);
    let pack = TranportPack::deserialize(&frame).unwrap();
    let back = protocol::decode_request(pack.get_payload()).unwrap();
    assert_eq!(back.addr, "127.0.0.1:444");

    dev.close();
    assert!(matches!(dev.state, SessionState::Closed));
    assert!(dev.send_req(&req).is_err());
}

#[test]
fn handler_steps_decide_like_the_loops() {
    // A transport failure stops the stream handler.
    assert!(matches!(
        sock_handler_step(Err(ErrorKind::IoError)),
        HandlerAction::Stop
    ));
    // A frame with a malformed payload is skipped.
    let bad = TranportPack::new(TypePack::Simple, vec![0xEE]);
    assert!(matches!(sock_handler_step(Ok(bad)), HandlerAction::Skip));
    // A well-formed response is delivered.
    let req = protocol::Request::new("dev1", protocol::Cmd::TurnOn);
    let resp = protocol::Response::success_response(req);
    let payload = protocol::encode_response(&resp).unwrap();
    let good = TranportPack::new(TypePack::Simple, payload.clone());
    match sock_handler_step(Ok(good)) {
        HandlerAction::Deliver(out) => assert_eq!(out.to_req.addr, "dev1"),
        _ => panic!(),
    }

    // The datagram handler skips garbage and delivers whole responses.
    assert!(matches!(therm_handler_step(&[9, 9]), HandlerAction::Skip));
    let datagram = TranportPack::new(TypePack::Simple, payload).serialize();
    match therm_handler_step(&datagram) {
        HandlerAction::Deliver(out) => assert_eq!(out.to_req.addr, "dev1"),
        _ => panic!(),
    }
}

fn framed_sock_response(resp_type: RespType, req_type: ReqType, payload: Vec<u8>) -> Vec<u8> {
    let resp = SockResponse::new(resp_type, req_type, payload);
    TranportPack::new(TypePack::Simple, resp.serialize()).serialize()
}

#[test]
fn smart_socket_drives_the_byte_protocol() {
    // Queue up the responses the device will answer with: an ack for the
    // turn-on, a flag for the query, and a reading for the power request.
    let mut incoming = framed_sock_response(RespType::Success, ReqType::TurnOn, vec![]);
    incoming.extend_from_slice(&framed_sock_response(
        RespType::Success,
        ReqType::CheckTurned,
        vec![1],
    ));
    incoming.extend_from_slice(&framed_sock_response(
        RespType::Success,
        ReqType::Power,
        4_002_500u32.to_be_bytes().to_vec(),
    ));

    let mut sock: SmartSocket<MemChannel> = SmartSocket::default();
    assert!(matches!(
        sock.turn_on(),
        Err(ErrorKind::NotOpenedConnection)
    ));
    sock.set_stream(MemChannel::new(incoming));

    sock.turn_on().unwrap();
    assert!(sock.is_turned_on().unwrap());
    assert_eq!(sock.get_current_power().unwrap(), 4_002_500);

    // The requests went down the stream as framed command bytes.
    let sent = sock.stream.as_ref().unwrap().sent_bytes().clone();
    assert_eq!(
        sent,
        vec![
            SIMPLE_PACK,
            1,
            TURN_ON_CMD,
            SIMPLE_PACK,
            1,
            CHECK_TURNED,
            SIMPLE_PACK,
            1,
            POWER_CMD
        ]
    );
}

#[test]
fn smart_socket_surfaces_refusals_and_short_answers() {
    let mut incoming = framed_sock_response(RespType::Error, ReqType::TurnOn, vec![]);
    incoming.extend_from_slice(&framed_sock_response(
        RespType::Success,
        ReqType::CheckTurned,
        vec![],
    ));
    let mut sock: SmartSocket<MemChannel> = SmartSocket::default();
    sock.set_stream(MemChannel::new(incoming));
    assert!(sock.turn_off().is_err());
    // A success without the flag byte is a malformed answer.
    assert!(matches!(
        sock.is_turned_on(),
        Err(ErrorKind::DeserializationError)
    ));
}

#[test]
fn smart_socket_state_report() {
    let mut incoming = framed_sock_response(RespType::Success, ReqType::CheckTurned, vec![1]);
    incoming.extend_from_slice(&framed_sock_response(
        RespType::Success,
        ReqType::Power,
        4_000_000u32.to_be_bytes().to_vec(),
    ));
    let mut sock: SmartSocket<MemChannel> = SmartSocket::default();
    sock.set_stream(MemChannel::new(incoming));
    assert_eq!(sock.description(), "Smart socket");
    let report = sock.get_state().unwrap();
    assert_eq!(
        report,
        "Smart socket, current power mWt: 4000000, turned on: true"
    );
}

#[test]
fn thermometer_reports_its_fixed_reading() {
    let therm = SmartThermometer::default();
    assert_eq!(therm.get_current_temp().unwrap(), 0);
    let mut therm = SmartThermometer::default();
    assert_eq!(therm.description(), "Smart thermometer");
    assert_eq!(
        therm.get_state().unwrap(),
        "Smart thermometer, current temperature: 0"
    );
}

#[test]
fn decimal_strings_spell_numbers() {
    assert_eq!(u64_dec_string(0), "0");
    assert_eq!(u64_dec_string(7), "7");
    assert_eq!(u64_dec_string(4002500), "4002500");
    assert_eq!(u64_dec_string(u64::MAX), "18446744073709551615");
    assert_eq!(i64_dec_string(-25), "-25");
    assert_eq!(i64_dec_string(0), "0");
    assert_eq!(i64_dec_string(i64::MIN), "-9223372036854775808");
}

#[test]
fn console_commands_become_server_requests() {
    match request_of_cmd(&ConsoleCmd::GetDevs) {
        Some(q) => {
            assert!(matches!(q.cmd, sp::Cmd::GetListDevices));
            assert_eq!(q.dev_name, "");
        }
        None => panic!(),
    }
    match request_of_cmd(&ConsoleCmd::TurnOn("lamp".to_string())) {
        Some(q) => {
            assert!(matches!(q.cmd, sp::Cmd::TurnOn));
            assert_eq!(q.dev_name, "lamp");
        }
        None => panic!(),
    }
    match request_of_cmd(&ConsoleCmd::GetTemp("t1".to_string())) {
        Some(q) => assert!(matches!(q.cmd, sp::Cmd::Temperature)),
        None => panic!(),
    }
    assert!(request_of_cmd(&ConsoleCmd::Exit).is_none());
}

#[test]
fn response_datagrams_decode_whole() {
    let req = sp::Request::new(sp::Cmd::Power, "s1".to_string());
    let resp = sp::Response::new_success_response(req, sp::SuccessKind::Power(500));
    let payload = sp::encode_response(&resp).unwrap();
    let datagram = TranportPack::new(TypePack::Simple, payload).serialize();
    let back = decode_response_datagram(&datagram).unwrap();
    assert_eq!(back.to_req.dev_name, "s1");
    assert!(matches!(
        back.resp_kind,
        sp::ResponseKind::Success(sp::SuccessKind::Power(500))
    ));
    assert!(matches!(
        decode_response_datagram(&[0x99, 0]),
        Err(ErrorKind::UnknownTypePack)
    ));
}

#[test]
fn sock_request_and_response_byte_forms() {
    let req = SockRequest::new_get_power();
    assert_eq!(req.serialize(), vec![POWER_CMD]);
    let parsed = SockRequest::deserialize(&[TURN_ON_CMD, 9, 9]).unwrap();
    assert!(matches!(parsed.get_req_type(), ReqType::TurnOn));
    assert_eq!(parsed.payload, vec![9, 9]);
    assert!(SockRequest::deserialize(&[]).is_err());

    let resp = SockResponse::new(RespType::Success, ReqType::Power, vec![1, 2, 3, 4]);
    let bytes = resp.serialize();
    assert_eq!(bytes, vec![SUCCESS_RESP, POWER_CMD, 1, 2, 3, 4]);
    let back = SockResponse::deserialize(&bytes).unwrap();
    assert!(matches!(back.get_resp_type(), RespType::Success));
    assert_eq!(back.get_payload(), &[1, 2, 3, 4]);
    // Unknown header bytes are refused.
    assert!(SockResponse::deserialize(&[0x11, TURN_ON_CMD]).is_err());
    assert!(SockResponse::deserialize(&[SUCCESS_RESP, 0x66]).is_err());
}

#[test]
fn error_kinds_have_messages() {
    for e in [
        ErrorKind::IoTimeOut,
        ErrorKind::IoError,
        ErrorKind::DeserializationError,
        ErrorKind::SerializationError,
        ErrorKind::UnknownTypePack,
        ErrorKind::NotOpenedConnection,
    ] {
        assert!(!e.message().is_empty());
    }
}
