use smart_house::err_house::ErrorKind;
use smart_house::stream::{ByteChannel, MemChannel};
use smart_house::transport::{TranportPack, TypePack, SIMPLE_PACK};

#[test]
fn test_pack_to_bytes() {
    let pack = TranportPack::new(TypePack::Simple, vec![0, 0, 0]);
    let bytes: Vec<u8> = pack.serialize();
    let expected = vec![SIMPLE_PACK, 3, 0, 0, 0];
    assert_eq!(bytes, expected);
}

#[test]
fn transport_layer_test_pack_to_bytes() {
    let pack = TranportPack::new(TypePack::Simple, vec![0, 0, 0]);
    let bytes: Vec<u8> = pack.serialize();
    let expected = vec![SIMPLE_PACK, 3, 0, 0, 0];
    assert_eq!(bytes, expected);
}

#[test]
fn test_pack_from_reader() {
    let bytes = vec![SIMPLE_PACK, 3, 1, 2, 3];
    let mut stream = MemChannel::new(bytes);
    let pack = TranportPack::from_reader(&mut stream).unwrap();
    if let TypePack::Unknown(_) = pack.type_pack {
        panic!();
    }
    assert_eq!(pack.payload.len(), 3);
    assert_eq!(pack.payload, vec![1, 2, 3]);

    let bytes = vec![SIMPLE_PACK, 3, 1, 2];
    let mut stream = MemChannel::new(bytes);

    let pack = TranportPack::from_reader(&mut stream);
    assert!(pack.is_err());

    let bytes = vec![SIMPLE_PACK, 3, 3, 4, 5, 47];
    let mut stream = MemChannel::new(bytes);

    let pack = TranportPack::from_reader(&mut stream).unwrap();
    if let TypePack::Unknown(_) = pack.type_pack {
        panic!();
    }
    assert_eq!(pack.payload.len(), 3);
    assert_eq!(pack.payload, vec![3, 4, 5]);

    let bytes = vec![];
    let mut stream = MemChannel::new(bytes);

    let pack = TranportPack::from_reader(&mut stream);
    assert!(pack.is_err());
}

#[test]
fn frame_round_trip_all_lengths() {
    for len in [0usize, 1, 7, 128, 255] {
        let payload: Vec<u8> = (0..len).map(|i| (i % 251) as u8).collect();
        let frame = TranportPack::new(TypePack::Simple, payload.clone()).serialize();
        assert_eq!(frame.len(), len + 2);
        let back = TranportPack::deserialize(&frame).unwrap();
        assert_eq!(back.into_payload(), payload);
    }
}

#[test]
fn oversized_payload_truncates_length_byte_only() {
    // 256 bytes exceed the one-byte length field: every payload byte is
    // still written, and the declared length is exactly 256 % 256 == 0.
    let payload = vec![7u8; 256];
    let frame = TranportPack::new(TypePack::Simple, payload).serialize();
    assert_eq!(frame.len(), 258);
    assert_eq!(frame[0], SIMPLE_PACK);
    assert_eq!(frame[1], 0);
    assert_eq!(&frame[2..], &[7u8; 256][..]);
}

#[test]
fn short_frame_is_an_error_not_a_truncated_payload() {
    // Header declares 5 payload bytes but only 2 follow.
    let bytes = vec![SIMPLE_PACK, 5, 1, 2];
    match TranportPack::deserialize(&bytes) {
        Err(ErrorKind::DeserializationError) => {}
        _ => panic!("a short frame must be a deserialization error"),
    }
    let mut stream = MemChannel::new(vec![SIMPLE_PACK, 5, 1, 2]);
    match TranportPack::from_reader(&mut stream) {
        Err(ErrorKind::IoTimeOut) | Err(ErrorKind::IoError) => {}
        _ => panic!("a short stream must fail with an I/O-class error"),
    }
}

#[test]
fn unknown_tag_consumes_only_the_tag() {
    let bytes = vec![0x55u8, 3, 1, 2, 3];
    let mut stream = MemChannel::new(bytes);
    match TranportPack::from_reader(&mut stream) {
        Err(ErrorKind::UnknownTypePack) => {}
        _ => panic!("an alien tag must be UnknownTypePack"),
    }
    // Exactly one byte, the tag, was consumed.
    assert_eq!(stream.rx_pos, 1);

    match TranportPack::deserialize(&[0x55u8, 3, 1, 2, 3]) {
        Err(ErrorKind::UnknownTypePack) => {}
        _ => panic!("an alien tag must be UnknownTypePack"),
    }
}

#[test]
fn empty_buffer_is_a_deserialization_error() {
    match TranportPack::deserialize(&[]) {
        Err(ErrorKind::DeserializationError) => {}
        _ => panic!(),
    }
}

#[test]
fn mem_channel_records_writes() {
    let mut ch = MemChannel::new(vec![]);
    ch.write_bytes(&[1, 2]).unwrap();
    ch.write_bytes(&[3]).unwrap();
    assert_eq!(ch.sent_bytes(), &vec![1, 2, 3]);
}

#[test]
fn type_pack_byte_round_trip() {
    assert!(matches!(TypePack::from_byte(SIMPLE_PACK), TypePack::Simple));
    assert!(matches!(TypePack::from_byte(0x13), TypePack::Unknown(0x13)));
    assert_eq!(TypePack::Simple.to_byte(), SIMPLE_PACK);
    assert_eq!(TypePack::Unknown(9).to_byte(), 9);
}
