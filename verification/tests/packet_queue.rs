use oath2::ds::packet_queue::{
    PacketQueue, QueuePropExperimenter, QueuePropHeader, QueuePropMaxRate, QueuePropMessage,
    QueuePropMinRate, QueuePropPayload, QueueProperties, PACKET_QUEUE_LENGTH,
    QUEUE_PROP_HEADER_LENGTH,
};
use oath2::ds::ports::PortNumber;
use oath2::err::Error;

#[test]
fn packet_queue_into_length() {
    let testee = PacketQueue {
        queue_id: 1,
        port: PortNumber::NormalPort(2),
        len: PACKET_QUEUE_LENGTH as u16,
        properties: Vec::new(),
    };
    let vec: Vec<u8> = testee.into_bytes();
    assert_eq!(PACKET_QUEUE_LENGTH, vec.len());
}

#[test]
fn packet_queue_into_tryfrom() {
    let testee = PacketQueue {
        queue_id: 1,
        port: PortNumber::NormalPort(2),
        len: PACKET_QUEUE_LENGTH as u16,
        properties: Vec::new(),
    };
    let bytes = testee.clone().into_bytes();
    let from = PacketQueue::try_from(&bytes[..]).expect("Error while decoding Port from bytes.");
    assert_eq!(testee, from);
}

#[test]
fn into_length_qpe() {
    let testee = QueuePropExperimenter { experimenter: 0, data: Vec::new() };
    let vec: Vec<u8> = testee.into_bytes();
    assert_eq!(8, vec.len());
}

#[test]
fn into_tryfrom_qpe() {
    let testee = QueuePropExperimenter { experimenter: 0, data: Vec::new() };
    let bytes = testee.clone().into_bytes();
    let from =
        QueuePropExperimenter::try_from(&bytes[..]).expect("Error while decoding Port from bytes.");
    assert_eq!(testee, from);
}

#[test]
fn into_length_qpmin() {
    let testee = QueuePropMinRate { rate: 0 };
    let vec: Vec<u8> = testee.into_bytes();
    assert_eq!(8, vec.len());
}

#[test]
fn into_tryfrom_qpmin() {
    let testee = QueuePropMinRate { rate: 0 };
    let bytes = testee.clone().into_bytes();
    let from =
        QueuePropMinRate::try_from(&bytes[..]).expect("Error while decoding Port from bytes.");
    assert_eq!(testee, from);
}

#[test]
fn into_length_qpmax() {
    let testee = QueuePropMaxRate { rate: 0 };
    let vec: Vec<u8> = testee.into_bytes();
    assert_eq!(8, vec.len());
}

#[test]
fn into_tryfrom_qpmax() {
    let testee = QueuePropMaxRate { rate: 0 };
    let bytes = testee.clone().into_bytes();
    let from =
        QueuePropMaxRate::try_from(&bytes[..]).expect("Error while decoding Port from bytes.");
    assert_eq!(testee, from);
}

#[test]
fn into_length_qph() {
    let testee = QueuePropHeader {
        property: QueueProperties::MinRate,
        len: QUEUE_PROP_HEADER_LENGTH as u16,
    };
    let vec: Vec<u8> = testee.into_bytes();
    assert_eq!(QUEUE_PROP_HEADER_LENGTH, vec.len());
}

#[test]
fn into_tryfrom_qph() {
    let testee = QueuePropHeader {
        property: QueueProperties::MinRate,
        len: QUEUE_PROP_HEADER_LENGTH as u16,
    };
    let bytes = testee.clone().into_bytes();
    let from =
        QueuePropHeader::try_from(&bytes[..]).expect("Error while decoding Port from bytes.");
    assert_eq!(testee, from);
}

#[test]
fn queue_with_properties_round_trips() {
    let min = QueuePropMessage {
        header: QueuePropHeader { property: QueueProperties::MinRate, len: 8 },
        payload: QueuePropPayload::Min(QueuePropMinRate { rate: 0x0123 }),
    };
    let exp = QueuePropMessage {
        header: QueuePropHeader { property: QueueProperties::Experimenter, len: 11 },
        payload: QueuePropPayload::Experimenter(QueuePropExperimenter {
            experimenter: 0x01020304,
            data: vec![9, 8, 7],
        }),
    };
    let testee = PacketQueue {
        queue_id: 0x0a0b0c0d,
        port: PortNumber::NormalPort(0x11223344),
        len: 16 + 16 + 19,
        properties: vec![min, exp],
    };
    let bytes = testee.into_bytes();
    assert_eq!(
        bytes,
        vec![
            0x0a, 0x0b, 0x0c, 0x0d, 0x11, 0x22, 0x33, 0x44, 0, 51, 0, 0, 0, 0, 0, 0, // queue
            0, 1, 0, 8, 0, 0, 0, 0, 0x01, 0x23, 0, 0, 0, 0, 0, 0, // min rate
            0xff, 0xff, 0, 11, 0, 0, 0, 0, 1, 2, 3, 4, 0, 0, 0, 0, 9, 8, 7, // experimenter
        ]
    );
    assert_eq!(PacketQueue::try_from(&bytes[..]), Ok(testee));
    assert_eq!(PacketQueue::read_len(&bytes[..], 0), Ok(51));
}

#[test]
fn queue_length_field_must_fit_the_slice() {
    let mut bytes = PacketQueue {
        queue_id: 1,
        port: PortNumber::NormalPort(2),
        len: 16,
        properties: Vec::new(),
    }
    .into_bytes();
    bytes.push(0);
    assert_eq!(
        PacketQueue::try_from(&bytes[..]),
        Err(Error::InvalidSliceLength(16, 17, "PacketQueue"))
    );
    assert_eq!(
        PacketQueue::try_from(&bytes[..9]),
        Err(Error::InvalidSliceLength(16, 9, "PacketQueue"))
    );
    assert_eq!(
        PacketQueue::read_len(&bytes[..9], 0),
        Err(Error::CouldNotReadLength(8, "PacketQueue"))
    );
}

#[test]
fn unknown_queue_property_is_refused() {
    let bytes = [0u8, 3, 0, 0, 0, 0, 0, 0];
    assert_eq!(
        QueuePropHeader::try_from(&bytes[..]),
        Err(Error::UnknownEnum(3, "QueueProperties"))
    );
}
