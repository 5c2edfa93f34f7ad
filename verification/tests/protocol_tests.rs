use smart_house::err_house::ErrorKind as HouseErrorKind;
use smart_house::protocol;
use smart_house::server_protocol as sp;

#[test]
fn request_codec_round_trip() {
    let req = protocol::Request::new("127.0.0.1:444", protocol::Cmd::Power);
    let bytes = protocol::encode_request(&req).unwrap();
    let back = protocol::decode_request(&bytes).unwrap();
    assert_eq!(back.addr, "127.0.0.1:444");
    assert!(matches!(back.cmd, protocol::Cmd::Power));
}

#[test]
fn request_codec_keeps_unicode_addresses() {
    let req = protocol::Request::new("bücher:80", protocol::Cmd::TurnOff);
    let bytes = protocol::encode_request(&req).unwrap();
    let back = protocol::decode_request(&bytes).unwrap();
    assert_eq!(back.addr, "bücher:80");
    assert!(matches!(back.cmd, protocol::Cmd::TurnOff));
}

#[test]
fn request_decode_rejects_malformed_payloads() {
    // Too short.
    assert!(matches!(
        protocol::decode_request(&[1, 0]),
        Err(HouseErrorKind::DeserializationError)
    ));
    // Unknown command byte.
    assert!(matches!(
        protocol::decode_request(&[99, 0, 0]),
        Err(HouseErrorKind::DeserializationError)
    ));
    // Length field disagrees with the remainder.
    assert!(matches!(
        protocol::decode_request(&[1, 2, 0, b'a']),
        Err(HouseErrorKind::DeserializationError)
    ));
    // Invalid UTF-8 address.
    assert!(matches!(
        protocol::decode_request(&[1, 1, 0, 0xFF]),
        Err(HouseErrorKind::DeserializationError)
    ));
}

#[test]
fn request_encode_rejects_oversized_address() {
    let long = "a".repeat(70_000);
    let req = protocol::Request::new(&long, protocol::Cmd::TurnOn);
    assert!(matches!(
        protocol::encode_request(&req),
        Err(HouseErrorKind::SerializationError)
    ));
}

#[test]
fn response_codec_round_trip_each_kind() {
    let mk_req = || protocol::Request::new("dev1", protocol::Cmd::TurnOn);
    let cases = vec![
        protocol::Response::success_response(mk_req()),
        protocol::Response::current_power(mk_req(), 4_050_000),
        protocol::Response::current_temp(mk_req(), -12_345),
        protocol::Response::err_response(mk_req(), protocol::ErrorKind::DevNotFound),
    ];
    for resp in cases {
        let kind = resp.resp_kind;
        let bytes = protocol::encode_response(&resp).unwrap();
        let back = protocol::decode_response(&bytes).unwrap();
        assert_eq!(back.to_req.addr, "dev1");
        assert!(matches!(back.to_req.cmd, protocol::Cmd::TurnOn));
        assert_eq!(back.resp_kind, kind);
    }
}

#[test]
fn response_decode_rejects_malformed_payloads() {
    assert!(matches!(
        protocol::decode_response(&[]),
        Err(HouseErrorKind::DeserializationError)
    ));
    // Unknown outcome tag.
    assert!(matches!(
        protocol::decode_response(&[9, 1, 0, 0]),
        Err(HouseErrorKind::DeserializationError)
    ));
    // Refusal with an unknown reason byte.
    assert!(matches!(
        protocol::decode_response(&[3, 77, 1, 0, 0, b'x']),
        Err(HouseErrorKind::DeserializationError)
    ));
}

#[test]
fn server_request_codec_round_trip() {
    let req = sp::Request::new(sp::Cmd::GetListDevices, String::new());
    let bytes = sp::encode_request(&req).unwrap();
    let back = sp::decode_request(&bytes).unwrap();
    assert_eq!(back.dev_name, "");
    assert!(matches!(back.cmd, sp::Cmd::GetListDevices));

    let req = sp::Request::new(sp::Cmd::Temperature, "therm one".to_string());
    let bytes = sp::encode_request(&req).unwrap();
    let back = sp::decode_request(&bytes).unwrap();
    assert_eq!(back.dev_name, "therm one");
    assert!(matches!(back.cmd, sp::Cmd::Temperature));
}

#[test]
fn server_response_codec_round_trip_each_kind() {
    let mk_req = || sp::Request::new(sp::Cmd::Power, "dev1".to_string());
    let list = vec![
        sp::Device::new("sock".to_string(), sp::TypeDev::SmartSocket),
        sp::Device::new("therm".to_string(), sp::TypeDev::SmartTherm),
    ];
    let cases = vec![
        sp::Response::new_success_response(mk_req(), sp::SuccessKind::Ack),
        sp::Response::new_success_response(mk_req(), sp::SuccessKind::ListDev(list)),
        sp::Response::new_success_response(mk_req(), sp::SuccessKind::Power(3_999_000)),
        sp::Response::new_success_response(mk_req(), sp::SuccessKind::Temp(-5)),
        sp::Response::new_err_response(mk_req(), sp::ErrorKind::WrongCmd),
    ];
    for resp in cases {
        let bytes = sp::encode_response(&resp).unwrap();
        let back = sp::decode_response(&bytes).unwrap();
        assert_eq!(back.to_req.dev_name, "dev1");
        assert!(matches!(back.to_req.cmd, sp::Cmd::Power));
        match (&resp.resp_kind, &back.resp_kind) {
            (
                sp::ResponseKind::Success(sp::SuccessKind::Ack),
                sp::ResponseKind::Success(sp::SuccessKind::Ack),
            ) => {}
            (
                sp::ResponseKind::Success(sp::SuccessKind::Power(a)),
                sp::ResponseKind::Success(sp::SuccessKind::Power(b)),
            ) => assert_eq!(a, b),
            (
                sp::ResponseKind::Success(sp::SuccessKind::Temp(a)),
                sp::ResponseKind::Success(sp::SuccessKind::Temp(b)),
            ) => assert_eq!(a, b),
            (
                sp::ResponseKind::Success(sp::SuccessKind::ListDev(a)),
                sp::ResponseKind::Success(sp::SuccessKind::ListDev(b)),
            ) => {
                assert_eq!(a.len(), b.len());
                for (x, y) in a.iter().zip(b.iter()) {
                    assert_eq!(x.name, y.name);
                    assert_eq!(x.type_dev, y.type_dev);
                }
            }
            (sp::ResponseKind::Failure(a), sp::ResponseKind::Failure(b)) => assert_eq!(a, b),
            _ => panic!("outcome kind changed across the round trip"),
        }
    }
}

#[test]
fn server_response_with_empty_device_list_round_trips() {
    let req = sp::Request::new(sp::Cmd::GetListDevices, String::new());
    let resp = sp::Response::new_success_response(req, sp::SuccessKind::ListDev(vec![]));
    let bytes = sp::encode_response(&resp).unwrap();
    let back = sp::decode_response(&bytes).unwrap();
    match back.resp_kind {
        sp::ResponseKind::Success(sp::SuccessKind::ListDev(l)) => assert!(l.is_empty()),
        _ => panic!(),
    }
}

#[test]
fn reading_wire_form_keeps_extremes() {
    for x in [0i64, 1, -1, i64::MAX, i64::MIN, 4_000_000, -25] {
        let req = protocol::Request::new("d", protocol::Cmd::Power);
        let resp = protocol::Response::current_power(req, x);
        let bytes = protocol::encode_response(&resp).unwrap();
        let back = protocol::decode_response(&bytes).unwrap();
        match back.resp_kind {
            protocol::ResponseKind::Success(protocol::SuccessKind::Power(y)) => assert_eq!(x, y),
            _ => panic!(),
        }
    }
}
