use smart_house::emulator::{AVG_POWER_MW, AVG_TEMP_MILLI};
use smart_house::err_server::ErrorKind;
use smart_house::server::{generate_device_emulator, Device, DeviceServer};
use smart_house::server_protocol as sp;
use smart_house::transport::{TranportPack, TypePack};

fn entries(list: &[(&str, &str)]) -> Vec<(String, String)> {
    list.iter()
        .map(|(n, k)| (n.to_string(), k.to_string()))
        .collect()
}

fn request_payload(cmd: sp::Cmd, name: &str) -> Vec<u8> {
    let req = sp::Request::new(cmd, name.to_string());
    sp::encode_request(&req).unwrap()
}

#[test]
fn generate_device_emulator_knows_both_kinds() {
    assert!(matches!(
        generate_device_emulator("socket"),
        Ok(Device::Socket(_))
    ));
    assert!(matches!(
        generate_device_emulator("therm"),
        Ok(Device::Therm(_))
    ));
    match generate_device_emulator("fridge") {
        Err(e) => assert_eq!(e.kind(), ErrorKind::WrongDevType),
        Ok(_) => panic!("an unknown kind must be a configuration error"),
    }
}

#[test]
fn server_new_rejects_malformed_entries() {
    match DeviceServer::new(&entries(&[("a", "socket"), ("b", "toaster")])) {
        Err(e) => assert_eq!(e.kind(), ErrorKind::WrongDevType),
        Ok(_) => panic!(),
    }
}

#[test]
fn server_lists_devices_in_insertion_order() {
    let mut srv = DeviceServer::new(&entries(&[("s1", "socket"), ("t1", "therm")])).unwrap();
    let out = srv
        .handle_request(&request_payload(sp::Cmd::GetListDevices, ""), 0)
        .unwrap();
    let resp = sp::decode_response(&out).unwrap();
    match resp.resp_kind {
        sp::ResponseKind::Success(sp::SuccessKind::ListDev(l)) => {
            assert_eq!(l.len(), 2);
            assert_eq!(l[0].name, "s1");
            assert_eq!(l[0].type_dev, sp::TypeDev::SmartSocket);
            assert_eq!(l[1].name, "t1");
            assert_eq!(l[1].type_dev, sp::TypeDev::SmartTherm);
        }
        _ => panic!("listing must succeed"),
    }
}

#[test]
fn duplicate_config_names_keep_one_entry() {
    let mut srv =
        DeviceServer::new(&entries(&[("d", "socket"), ("d", "therm")])).unwrap();
    let out = srv
        .handle_request(&request_payload(sp::Cmd::GetListDevices, ""), 0)
        .unwrap();
    let resp = sp::decode_response(&out).unwrap();
    match resp.resp_kind {
        sp::ResponseKind::Success(sp::SuccessKind::ListDev(l)) => {
            assert_eq!(l.len(), 1);
            assert_eq!(l[0].name, "d");
            assert_eq!(l[0].type_dev, sp::TypeDev::SmartTherm);
        }
        _ => panic!(),
    }
}

#[test]
fn absent_device_is_not_found_for_every_directed_command() {
    let mut srv = DeviceServer::new(&entries(&[("s1", "socket")])).unwrap();
    for cmd in [
        sp::Cmd::TurnOn,
        sp::Cmd::TurnOff,
        sp::Cmd::Power,
        sp::Cmd::Temperature,
    ] {
        let out = srv
            .handle_request(&request_payload(cmd, "ghost"), 0)
            .unwrap();
        let resp = sp::decode_response(&out).unwrap();
        assert!(matches!(
            resp.resp_kind,
            sp::ResponseKind::Failure(sp::ErrorKind::DevNotFound)
        ));
    }
    // Listing still succeeds, whatever target name the request carries.
    let out = srv
        .handle_request(&request_payload(sp::Cmd::GetListDevices, "ghost"), 0)
        .unwrap();
    let resp = sp::decode_response(&out).unwrap();
    assert!(matches!(
        resp.resp_kind,
        sp::ResponseKind::Success(sp::SuccessKind::ListDev(_))
    ));
}

#[test]
fn empty_configuration_lists_no_devices_without_error() {
    let mut srv = DeviceServer::new(&entries(&[])).unwrap();
    let out = srv
        .handle_request(&request_payload(sp::Cmd::GetListDevices, ""), 0)
        .unwrap();
    let resp = sp::decode_response(&out).unwrap();
    match resp.resp_kind {
        sp::ResponseKind::Success(sp::SuccessKind::ListDev(l)) => assert!(l.is_empty()),
        _ => panic!("an empty table must still list successfully"),
    }
}

#[test]
fn server_switches_and_reads_devices() {
    let mut srv = DeviceServer::new(&entries(&[("s1", "socket"), ("t1", "therm")])).unwrap();

    let out = srv
        .handle_request(&request_payload(sp::Cmd::TurnOn, "s1"), 0)
        .unwrap();
    let resp = sp::decode_response(&out).unwrap();
    assert!(matches!(
        resp.resp_kind,
        sp::ResponseKind::Success(sp::SuccessKind::Ack)
    ));

    let out = srv
        .handle_request(&request_payload(sp::Cmd::Power, "s1"), 1500)
        .unwrap();
    let resp = sp::decode_response(&out).unwrap();
    match resp.resp_kind {
        sp::ResponseKind::Success(sp::SuccessKind::Power(p)) => {
            assert_eq!(p, AVG_POWER_MW + 1500)
        }
        _ => panic!(),
    }

    let out = srv
        .handle_request(&request_payload(sp::Cmd::TurnOff, "s1"), 0)
        .unwrap();
    let resp = sp::decode_response(&out).unwrap();
    assert!(matches!(
        resp.resp_kind,
        sp::ResponseKind::Success(sp::SuccessKind::Ack)
    ));
    let out = srv
        .handle_request(&request_payload(sp::Cmd::Power, "s1"), 1500)
        .unwrap();
    let resp = sp::decode_response(&out).unwrap();
    match resp.resp_kind {
        sp::ResponseKind::Success(sp::SuccessKind::Power(p)) => assert_eq!(p, 0),
        _ => panic!(),
    }

    let out = srv
        .handle_request(&request_payload(sp::Cmd::TurnOn, "t1"), 0)
        .unwrap();
    assert!(sp::decode_response(&out).is_ok());
    let out = srv
        .handle_request(&request_payload(sp::Cmd::Temperature, "t1"), -250)
        .unwrap();
    let resp = sp::decode_response(&out).unwrap();
    match resp.resp_kind {
        sp::ResponseKind::Success(sp::SuccessKind::Temp(t)) => {
            assert_eq!(t, AVG_TEMP_MILLI - 250)
        }
        _ => panic!(),
    }
}

#[test]
fn wrong_kind_of_reading_is_refused() {
    let mut srv = DeviceServer::new(&entries(&[("s1", "socket"), ("t1", "therm")])).unwrap();
    let out = srv
        .handle_request(&request_payload(sp::Cmd::Temperature, "s1"), 0)
        .unwrap();
    let resp = sp::decode_response(&out).unwrap();
    assert!(matches!(
        resp.resp_kind,
        sp::ResponseKind::Failure(sp::ErrorKind::WrongCmd)
    ));
    let out = srv
        .handle_request(&request_payload(sp::Cmd::Power, "t1"), 0)
        .unwrap();
    let resp = sp::decode_response(&out).unwrap();
    assert!(matches!(
        resp.resp_kind,
        sp::ResponseKind::Failure(sp::ErrorKind::WrongCmd)
    ));
}

#[test]
fn server_refuses_undecodable_requests() {
    let mut srv = DeviceServer::new(&entries(&[("s1", "socket")])).unwrap();
    match srv.handle_request(&[0xEE, 0, 0], 0) {
        Err(e) => assert_eq!(e.kind(), ErrorKind::SerializationError),
        Ok(_) => panic!(),
    }
}

#[test]
fn udp_server_peels_the_frame_first() {
    let mut srv = DeviceServer::new(&entries(&[("s1", "socket")])).unwrap();
    let payload = request_payload(sp::Cmd::TurnOn, "s1");
    let datagram = TranportPack::new(TypePack::Simple, payload).serialize();
    let out = srv.handle_datagram(&datagram, 0).unwrap();
    let resp = sp::decode_response(&out).unwrap();
    assert!(matches!(
        resp.resp_kind,
        sp::ResponseKind::Success(sp::SuccessKind::Ack)
    ));

    // A datagram under an alien tag is refused as such.
    match srv.handle_datagram(&[0x31, 1, 0], 0) {
        Err(e) => assert_eq!(e.kind(), ErrorKind::UnknownTypePack),
        Ok(_) => panic!(),
    }
    // A truncated datagram is a parsing error.
    match srv.handle_datagram(&[], 0) {
        Err(e) => assert_eq!(e.kind(), ErrorKind::ParsingError),
        Ok(_) => panic!(),
    }
}
