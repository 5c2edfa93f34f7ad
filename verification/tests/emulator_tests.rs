use smart_house::emulator::{
    SockEmulator, SocketEmulator, ThermEmulator, AVG_POWER_MW, AVG_TEMP_MILLI, POWER_SPREAD_MW,
};
use smart_house::protocol;
use smart_house::socket_protocol::{CHECK_TURNED, POWER_CMD, SUCCESS_RESP, TURN_ON_CMD};
use smart_house::stream::MemChannel;
use smart_house::transport::{TranportPack, TypePack, SIMPLE_PACK};

fn framed_request(addr: &str, cmd: protocol::Cmd) -> Vec<u8> {
    let req = protocol::Request::new(addr, cmd);
    let payload = protocol::encode_request(&req).unwrap();
    TranportPack::new(TypePack::Simple, payload).serialize()
}

#[test]
fn emulator_turn_on_acks_then_power_tracks_mean_and_off_reads_zero() {
    let mut emu = SockEmulator::new("dev1");
    // TurnOn at the bound address is acknowledged.
    let req = protocol::Request::new("dev1", protocol::Cmd::TurnOn);
    let resp = emu.handle_request(req, 0).unwrap();
    assert!(matches!(
        resp.resp_kind,
        protocol::ResponseKind::Success(protocol::SuccessKind::Ack)
    ));
    assert!(emu.is_turned_on);

    // While on, the reading sits within the mean plus the sampled noise;
    // for a noise of half a spread it stays within three spreads of the mean.
    let noise_mw = POWER_SPREAD_MW / 2;
    let req = protocol::Request::new("dev1", protocol::Cmd::Power);
    let resp = emu.handle_request(req, noise_mw).unwrap();
    match resp.resp_kind {
        protocol::ResponseKind::Success(protocol::SuccessKind::Power(p)) => {
            assert_eq!(p, AVG_POWER_MW + noise_mw);
            let watts = p as f64 / 1000.0;
            assert!((watts - 4000.0).abs() <= 3.0 * 100.0);
        }
        _ => panic!("power request while on must answer a reading"),
    }

    // After TurnOff the reading is exactly zero, whatever the noise.
    let req = protocol::Request::new("dev1", protocol::Cmd::TurnOff);
    let resp = emu.handle_request(req, 0).unwrap();
    assert!(matches!(
        resp.resp_kind,
        protocol::ResponseKind::Success(protocol::SuccessKind::Ack)
    ));
    let req = protocol::Request::new("dev1", protocol::Cmd::Power);
    let resp = emu.handle_request(req, 99_999).unwrap();
    match resp.resp_kind {
        protocol::ResponseKind::Success(protocol::SuccessKind::Power(p)) => {
            assert_eq!(p, 0);
            assert_eq!(p as f64 / 1000.0, 0.0);
        }
        _ => panic!(),
    }
}

#[test]
fn emulator_drops_requests_for_foreign_addresses() {
    let mut emu = SockEmulator::new("dev1");
    emu.turn_off();
    let req = protocol::Request::new("other", protocol::Cmd::TurnOn);
    assert!(emu.handle_request(req, 0).is_none());
    // The silent drop left the state alone.
    assert!(!emu.is_turned_on);
}

#[test]
fn emulator_refuses_temperature_as_unknown_command() {
    let mut emu = SockEmulator::new("dev1");
    let req = protocol::Request::new("dev1", protocol::Cmd::Temperature);
    let resp = emu.handle_request(req, 0).unwrap();
    assert!(matches!(
        resp.resp_kind,
        protocol::ResponseKind::Failure(protocol::ErrorKind::UnknownCmd)
    ));
}

#[test]
fn emulator_serve_step_answers_over_the_stream() {
    let mut emu = SockEmulator::new("dev1");
    let mut conn = MemChannel::new(framed_request("dev1", protocol::Cmd::TurnOff));
    emu.serve_step(&mut conn, 0).unwrap();
    assert!(!emu.is_turned_on);
    // One framed acknowledgement went back.
    let sent = conn.sent_bytes().clone();
    let pack = TranportPack::deserialize(&sent).unwrap();
    let resp = protocol::decode_response(pack.get_payload()).unwrap();
    assert!(matches!(
        resp.resp_kind,
        protocol::ResponseKind::Success(protocol::SuccessKind::Ack)
    ));
    assert_eq!(resp.to_req.addr, "dev1");
}

#[test]
fn emulator_serve_step_fails_on_bad_frames() {
    let mut emu = SockEmulator::new("dev1");
    let mut conn = MemChannel::new(vec![0x13, 2, 0, 0]);
    assert!(emu.serve_step(&mut conn, 0).is_err());
    assert!(conn.sent_bytes().is_empty());
}

#[test]
fn therm_emulator_answers_power_with_temperature() {
    let mut emu = ThermEmulator::new("t1");
    let datagram = framed_request("t1", protocol::Cmd::Power);
    let out = emu.handle_datagram(&datagram, 500).unwrap().unwrap();
    let pack = TranportPack::deserialize(&out).unwrap();
    let resp = protocol::decode_response(pack.get_payload()).unwrap();
    match resp.resp_kind {
        protocol::ResponseKind::Success(protocol::SuccessKind::Temp(t)) => {
            assert_eq!(t, AVG_TEMP_MILLI + 500);
        }
        _ => panic!("the thermometer answers the power request with a temperature"),
    }
}

#[test]
fn therm_emulator_drops_foreign_datagrams_and_rejects_garbage() {
    let mut emu = ThermEmulator::new("t1");
    let datagram = framed_request("elsewhere", protocol::Cmd::TurnOn);
    assert!(emu.handle_datagram(&datagram, 0).unwrap().is_none());
    assert!(emu.handle_datagram(&[1, 2, 3], 0).is_err());
    assert!(emu.is_turned_on);
}

#[test]
fn raw_emulator_serves_the_byte_protocol() {
    let mut emu = SocketEmulator::default();

    // Turn on, then ask whether it is on: the flag byte answers 1.
    let turn_on = TranportPack::new(TypePack::Simple, vec![TURN_ON_CMD]).serialize();
    let check = TranportPack::new(TypePack::Simple, vec![CHECK_TURNED]).serialize();
    let mut incoming = turn_on;
    incoming.extend_from_slice(&check);
    let mut conn = MemChannel::new(incoming);

    emu.handle_request(&mut conn, 0).unwrap();
    assert!(emu.is_turn_on);
    emu.handle_request(&mut conn, 0).unwrap();

    let sent = conn.sent_bytes().clone();
    // Two framed responses: [A2, 2, SUCCESS, TURN_ON] then [A2, 3, SUCCESS, CHECK, 1].
    assert_eq!(
        sent,
        vec![
            SIMPLE_PACK,
            2,
            SUCCESS_RESP,
            TURN_ON_CMD,
            SIMPLE_PACK,
            3,
            SUCCESS_RESP,
            CHECK_TURNED,
            1
        ]
    );
}

#[test]
fn raw_emulator_reports_power_in_big_endian_milliwatts() {
    let mut emu = SocketEmulator::default();
    let turn_on = TranportPack::new(TypePack::Simple, vec![TURN_ON_CMD]).serialize();
    let power = TranportPack::new(TypePack::Simple, vec![POWER_CMD]).serialize();
    let mut incoming = turn_on;
    incoming.extend_from_slice(&power);
    let mut conn = MemChannel::new(incoming);
    emu.handle_request(&mut conn, 0).unwrap();
    emu.handle_request(&mut conn, 2500).unwrap();
    let sent = conn.sent_bytes().clone();
    // Skip the first response frame (4 bytes), then read the power frame.
    let frame = &sent[4..];
    assert_eq!(frame[0], SIMPLE_PACK);
    assert_eq!(frame[1], 6);
    assert_eq!(frame[2], SUCCESS_RESP);
    assert_eq!(frame[3], POWER_CMD);
    let mw = u32::from_be_bytes([frame[4], frame[5], frame[6], frame[7]]);
    assert_eq!(mw, 4_002_500);
}

#[test]
fn raw_emulator_drops_unknown_commands_without_a_reply() {
    let mut emu = SocketEmulator::default();
    let unknown = TranportPack::new(TypePack::Simple, vec![0x42]).serialize();
    let mut conn = MemChannel::new(unknown);
    emu.handle_request(&mut conn, 0).unwrap();
    assert!(conn.sent_bytes().is_empty());
}
