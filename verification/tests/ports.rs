use oath2::ds::hw_addr::{from_slice_eth, from_slice_v4, from_slice_v6};
use oath2::ds::ports::{
    Port, PortConfig, PortFeatures, PortNo, PortNumber, PortState, PORT_FEATURES_MB10_HD,
    PORT_LENGTH,
};
use oath2::err::Error;

fn sample_port() -> Port {
    Port {
        port_no: PortNumber::NormalPort(1),
        hw_addr: from_slice_eth(&[0u8; 6]).expect("could not parse test hw_addr"),
        name: *b"exactly15bytesa\0",
        config: PortConfig::empty(),
        state: PortState::empty(),
        curr: PortFeatures::from_bits(PORT_FEATURES_MB10_HD).unwrap(),
        advertised: PortFeatures::from_bits(PORT_FEATURES_MB10_HD).unwrap(),
        supported: PortFeatures::from_bits(PORT_FEATURES_MB10_HD).unwrap(),
        peer: PortFeatures::from_bits(PORT_FEATURES_MB10_HD).unwrap(),
        curr_speed: 7,
        max_speed: 8,
    }
}

#[test]
fn tryfrom_smallslice() {
    assert!(Port::try_from(&[0u8; PORT_LENGTH - 1][..]).is_err());
}

#[test]
fn tryfrom_bigslice() {
    assert!(Port::try_from(&[0u8; PORT_LENGTH + 1][..]).is_err());
}

#[test]
fn ports_into_length() {
    let p = sample_port();
    let vec: Vec<u8> = p.into_bytes();
    assert_eq!(PORT_LENGTH, vec.len());
}

#[test]
fn ports_into_tryfrom() {
    let testee = sample_port();
    let bytes = testee.clone().into_bytes();
    let from = Port::try_from(&bytes[..]).expect("Error while decoding Port from bytes.");
    let bytes2 = from.clone().into_bytes();
    let from2 = Port::try_from(&bytes2[..]).expect("Error while decoding Port from bytes.");
    assert_eq!(from2, from);
    assert_eq!(PORT_LENGTH, bytes.len());
    assert_eq!(PORT_LENGTH, bytes2.len());
}

#[test]
fn port_bytes_are_laid_out_as_documented() {
    let mut p = sample_port();
    p.port_no = PortNumber::NormalPort(0x01020304);
    p.hw_addr = [1, 2, 3, 4, 5, 6];
    p.config = PortConfig::from_bits(0x41).unwrap();
    p.curr_speed = 0x0a0b0c0d;
    let bytes = p.into_bytes();
    assert_eq!(&bytes[0..4], &[1, 2, 3, 4]);
    assert_eq!(&bytes[4..8], &[0, 0, 0, 0]);
    assert_eq!(&bytes[8..14], &[1, 2, 3, 4, 5, 6]);
    assert_eq!(&bytes[14..16], &[0, 0]);
    assert_eq!(&bytes[16..32], b"exactly15bytesa\0");
    assert_eq!(&bytes[32..36], &[0, 0, 0, 0x41]);
    assert_eq!(&bytes[56..60], &[0x0a, 0x0b, 0x0c, 0x0d]);
    assert_eq!(&bytes[60..64], &[0, 0, 0, 8]);
    assert_eq!(Port::try_from(&bytes[..]), Ok(p));
}

#[test]
fn port_with_unknown_bits_is_refused() {
    let mut bytes = sample_port().into_bytes();
    bytes[35] = 0x02;
    assert_eq!(Port::try_from(&bytes[..]), Err(Error::UnknownBits(2, "PortConfig")));
    let mut bytes = sample_port().into_bytes();
    bytes[36] = 0x80;
    assert_eq!(Port::try_from(&bytes[..]), Err(Error::UnknownBits(0x8000_0000, "PortState")));
}

#[test]
fn normal_ports_decode_to_themselves() {
    for p in [1u32, 2, 0x1234_5678, 0xffff_feff, 0xffff_ff01, 0xffff_fff7] {
        assert_eq!(PortNumber::try_from(p), Ok(PortNumber::NormalPort(p)));
        assert_eq!(PortNumber::NormalPort(p).to_u32(), p);
    }
}

#[test]
fn port_zero_is_illegal() {
    assert_eq!(PortNumber::try_from(0), Err(Error::IllegalValue(0, "PortNumber")));
}

#[test]
fn reserved_ports_decode_to_their_names() {
    assert_eq!(PortNumber::try_from(0xffff_ff00), Ok(PortNumber::Reserved(PortNo::Max)));
    assert_eq!(PortNumber::try_from(0xffff_fff8), Ok(PortNumber::Reserved(PortNo::InPort)));
    assert_eq!(PortNumber::try_from(0xffff_fffb), Ok(PortNumber::Reserved(PortNo::Flood)));
    assert_eq!(PortNumber::try_from(0xffff_fffd), Ok(PortNumber::Reserved(PortNo::Controller)));
    assert_eq!(PortNumber::try_from(0xffff_ffff), Ok(PortNumber::Reserved(PortNo::Any)));
    assert_eq!(PortNo::Local.into_port_number().to_u32(), 0xffff_fffe);
    assert_eq!(PortNo::from_u32(5), None);
}

#[test]
fn addresses_want_their_exact_length() {
    assert_eq!(from_slice_eth(&[1, 2, 3, 4, 5, 6]), Ok([1, 2, 3, 4, 5, 6]));
    assert_eq!(
        from_slice_eth(&[1, 2, 3, 4, 5]),
        Err(Error::InvalidSliceLength(6, 5, "EthernetAddress"))
    );
    assert_eq!(from_slice_v4(&[10, 0, 0, 1]), Ok([10, 0, 0, 1]));
    assert_eq!(
        from_slice_v4(&[1, 2, 3, 4, 5, 6]),
        Err(Error::InvalidSliceLength(4, 6, "IPv4Address"))
    );
    assert_eq!(from_slice_v6(&[1, 2, 3, 4, 5, 6, 7, 8]), Ok([1, 2, 3, 4, 5, 6, 7, 8]));
    assert_eq!(from_slice_v6(&[]), Err(Error::InvalidSliceLength(8, 0, "IPv6Address")));
}

#[test]
fn flag_sets_know_their_bits() {
    let f = PortFeatures::from_bits(0x8001).unwrap();
    assert!(f.contains(PORT_FEATURES_MB10_HD));
    assert!(!f.contains(0x2));
    assert_eq!(f.bits(), 0x8001);
    assert_eq!(PortFeatures::from_bits(0x1_0000), None);
    assert_eq!(PortFeatures::decode(0x1_0000), Err(Error::UnknownBits(0x1_0000, "PortFeatures")));
    assert_eq!(PortConfig::empty().bits(), 0);
}
