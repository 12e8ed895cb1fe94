use oath2::ds::{Header, OfMsg, OfPayload, Type, Version};
use oath2::err::Error;

#[test]
fn seven_byte_header_is_refused() {
    assert_eq!(
        Header::try_from(&[4u8, 0, 0, 8, 0, 0, 0][..]),
        Err(Error::InvalidSliceLength(8, 7, "Header"))
    );
    assert_eq!(
        Header::try_from(&[4u8, 0, 0, 8, 0, 0, 0, 0, 0][..]),
        Err(Error::InvalidSliceLength(8, 9, "Header"))
    );
}

#[test]
fn header_length_below_eight_is_refused() {
    assert_eq!(
        Header::try_from(&[4u8, 0, 0, 7, 0, 0, 0, 1][..]),
        Err(Error::IllegalValue(7, "Header"))
    );
    assert_eq!(
        Header::try_from(&[4u8, 0, 0, 0, 0, 0, 0, 1][..]),
        Err(Error::IllegalValue(0, "Header"))
    );
}

#[test]
fn header_fields_are_big_endian() {
    let h = Header::try_from(&[4u8, 10, 0x01, 0x02, 0xde, 0xad, 0xbe, 0xef][..]).unwrap();
    assert_eq!(h.version(), Version::V1_3);
    assert_eq!(h.ttype(), Type::PacketIn);
    assert_eq!(h.length(), 0x0102);
    assert_eq!(h.xid(), 0xdeadbeef);
    assert_eq!(h.payload_length(), 0x0102 - 8);
    assert_eq!(h.into_bytes(), vec![4u8, 10, 0x01, 0x02, 0xde, 0xad, 0xbe, 0xef]);
}

#[test]
fn unknown_version_and_type_are_refused() {
    assert_eq!(
        Header::try_from(&[9u8, 0, 0, 8, 0, 0, 0, 1][..]),
        Err(Error::UnknownEnum(9, "Version"))
    );
    assert_eq!(
        Header::try_from(&[1u8, 0, 0, 8, 0, 0, 0, 1][..]),
        Err(Error::UnsupportedType(1, "Version"))
    );
    assert_eq!(
        Header::try_from(&[4u8, 0x7f, 0, 8, 0, 0, 0, 1][..]),
        Err(Error::UnknownEnum(0x7f, "Type"))
    );
}

#[test]
fn zero_body_messages_are_eight_bytes() {
    for (bytes, ttype, payload) in [
        ([4u8, 0, 0, 8, 0, 0, 0, 0x2a], Type::Hello, OfPayload::Hello),
        ([4u8, 20, 0, 8, 0, 0, 0, 0x2b], Type::BarrierRequest, OfPayload::BarrierRequest),
        ([4u8, 5, 0, 8, 1, 2, 3, 4], Type::FeaturesRequest, OfPayload::FeaturesRequest),
    ] {
        let msg = OfMsg::try_from(&bytes[..]).unwrap();
        assert_eq!(msg.header().ttype(), ttype);
        assert_eq!(*msg.payload(), payload);
        assert_eq!(msg.payload().into_bytes(), Vec::<u8>::new());
        assert_eq!(msg.into_bytes(), bytes.to_vec());
    }
}

#[test]
fn body_must_be_as_long_as_the_header_says() {
    let header = Header::try_from(&[4u8, 0, 0, 8, 0, 0, 0, 1][..]).unwrap();
    assert_eq!(
        OfMsg::decode_payload(&header, &[0u8][..]),
        Err(Error::InvalidSliceLength(0, 1, "OfPayload"))
    );
    let header = Header::try_from(&[4u8, 2, 0, 10, 0, 0, 0, 1][..]).unwrap();
    assert_eq!(
        OfMsg::decode_payload(&header, &[7u8][..]),
        Err(Error::InvalidSliceLength(2, 1, "OfPayload"))
    );
    assert_eq!(
        OfMsg::decode_payload(&header, &[7u8, 8][..]),
        Ok(OfPayload::EchoRequest(vec![7, 8]))
    );
}

#[test]
fn generated_header_counts_the_body() {
    let payload = OfPayload::EchoRequest(vec![1, 2, 3]);
    let h = payload.generate_header(0x01020304);
    assert_eq!(h, Header { version: Version::V1_3, ttype: Type::EchoRequest, length: 11, xid: 0x01020304 });
    let msg = OfMsg::generate(0x01020304, payload);
    assert_eq!(msg.into_bytes(), vec![4, 2, 0, 11, 1, 2, 3, 4, 1, 2, 3]);
    assert_eq!(OfPayload::GetConfigReply(oath2::ds::switch_config::SwitchConfig {
        flags: oath2::ds::switch_config::ConfigFlags::empty(),
        miss_send_len: 128,
    }).generate_header(1).ttype(), Type::GetConfigReply);
}

#[test]
fn too_long_a_body_has_no_header() {
    let payload = OfPayload::Experimenter(vec![0u8; 0xffff - 7]);
    assert_eq!(payload.try_generate_header(1), None);
    assert!(OfMsg::try_generate(1, payload).is_none());
    let payload = OfPayload::Experimenter(vec![0u8; 0xffff - 8]);
    assert_eq!(payload.try_generate_header(1).map(|h| h.length()), Some(0xffff));
}

#[test]
fn reencoding_keeps_the_length_and_the_value() {
    // a packet-in whose padding bytes are not zero
    let mut bytes = vec![0x04u8, 10, 0, 37, 0, 0, 0, 0x10];
    bytes.extend_from_slice(&[0, 0, 0, 1, 0, 3, 1, 0, 0, 0, 0, 0, 0, 0, 0, 5]);
    bytes.extend_from_slice(&[0, 0, 0, 8, 0xde, 0xad, 0xbe, 0xef]);
    bytes.extend_from_slice(&[0xaa, 0xbb]);
    bytes.extend_from_slice(&[1, 2, 3]);
    let msg = OfMsg::try_from(&bytes[..]).unwrap();
    let again = msg.into_bytes();
    assert_eq!(again.len(), bytes.len());
    assert_ne!(again, bytes);
    assert_eq!(&again[24..34], &[0, 0, 0, 8, 0, 0, 0, 0, 0, 0]);
    assert_eq!(OfMsg::try_from(&again[..]), Ok(msg.clone()));
    assert_eq!(OfMsg::try_from(&again[..]).unwrap().into_bytes(), again);
    assert_eq!(msg.header().length() as usize, again.len());
}

#[test]
fn every_header_is_eight_bytes_and_its_body_eight_less_than_the_message() {
    for (ttype, length, xid) in [
        (Type::Hello, 8u16, 0u32),
        (Type::MeterMod, 0xffff, 0xffff_ffff),
        (Type::FlowMod, 0x0100, 0x0102_0304),
    ] {
        let h = Header { version: Version::V1_3, ttype, length, xid };
        let bytes = h.into_bytes();
        assert_eq!(bytes.len(), 8);
        assert_eq!(h.payload_length(), length - 8);
        assert_eq!(Header::try_from(&bytes[..]), Ok(h));
    }
}

#[test]
fn message_of_a_known_type_with_a_bad_body_is_refused() {
    assert_eq!(
        OfMsg::try_from(&[4u8, 0, 0, 9, 0, 0, 0, 1, 0][..]),
        Err(Error::InvalidSliceLength(0, 1, "Hello"))
    );
    assert_eq!(
        OfMsg::try_from(&[4u8, 0, 0, 9, 0, 0, 0, 1][..]),
        Err(Error::InvalidSliceLength(1, 0, "OfPayload"))
    );
    assert_eq!(
        OfMsg::try_from(&[4u8, 0, 0][..]),
        Err(Error::InvalidSliceLength(8, 3, "OfMsg"))
    );
    assert_eq!(
        OfMsg::try_from(&[4u8, 9, 0, 12, 0, 0, 0, 1, 0, 8, 0, 0][..]),
        Err(Error::UnknownBits(8, "ConfigFlags"))
    );
}
