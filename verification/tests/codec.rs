use oath2::ds::actions::{
    calc_actions_len, checked_actions_len, try_from_action_payload, ActionHeader, ActionPayload,
    ActionType, PayloadGroup, PayloadOutput, PayloadPopVlan, PayloadPushVlan, PayloadSetField,
    PayloadSetMplsTtl,
};
use oath2::ds::async_config::Async;
use oath2::ds::features::{Capabilities, SwitchFeatures};
use oath2::ds::flow_instructions::{
    get_instruction_slice_len, InstructionHeader, InstructionPayload, InstructionType,
    PayloadApplyActions, PayloadGotoTable, PayloadWriteMetaData,
};
use oath2::ds::flow_match::{
    ArpOp, EtherType, IPv6ExtHdrFlags, IcmpType, IpProto, Match, MatchPayload, MatchType,
    OfbMatchFields, OxmTlvHeader, PayloadArpOp, PayloadEthDst, PayloadEthType, PayloadIPv4Src,
    PayloadIPv6ExtHdr, PayloadIcmpV4Type, PayloadInPort, PayloadIpProto, PayloadMetadata,
    PayloadTcpDst, PayloadVlanPcp, TlvMatch, IPV6_EXT_HDR_FRAG,
};
use oath2::ds::flow_mod::{FlowMod, FlowModCommand, FlowModFlags};
use oath2::ds::flow_removed::{FlowRemoved, FlowRemovedReason};
use oath2::ds::group_mod::{Bucket, GroupMod, GroupModCommand, GroupType};
use oath2::ds::meter_mod::{
    MeterBandHeader, MeterBandPayload, MeterBandRemark, MeterBandType, MeterFlags, MeterMod,
    MeterModCommand,
};
use oath2::ds::packet_in::{InReason, PacketIn};
use oath2::ds::packet_out::PacketOut;
use oath2::ds::port_mod::PortMod;
use oath2::ds::port_status::{PortReason, PortStatus};
use oath2::ds::ports::{Port, PortConfig, PortFeatures, PortNo, PortNumber, PortState};
use oath2::ds::queue_config::{QueueGetConfigReply, QueueGetConfigRequest};
use oath2::ds::role::{ControllerRole, Role};
use oath2::ds::switch_config::{ConfigFlags, SwitchConfig};
use oath2::ds::table_mod::TableMod;
use oath2::ds::{OfMsg, OfPayload};
use oath2::err::Error;
use oath2::wire::{get_u16, get_u32, get_u64, pad_len, put_zeros};

fn in_port_tlv(port: u32) -> TlvMatch {
    TlvMatch::new(MatchPayload::InPort(PayloadInPort { ingress_port: PortNumber::NormalPort(port) }))
}

fn output_to(port: u32) -> ActionHeader {
    PayloadOutput { port: PortNumber::NormalPort(port), max_len: 0 }.into_action()
}

#[test]
fn integers_are_read_most_significant_byte_first() {
    let b = [0x01u8, 0x02, 0x03, 0x04, 0x05, 0x06, 0x07, 0x08, 0x09];
    assert_eq!(get_u16(&b, 0), 0x0102);
    assert_eq!(get_u16(&b, 7), 0x0809);
    assert_eq!(get_u32(&b, 1), 0x02030405);
    assert_eq!(get_u64(&b, 1), 0x0203040506070809);
}

#[test]
fn padding_brings_a_block_to_a_multiple_of_eight() {
    assert_eq!(pad_len(0), 0);
    assert_eq!(pad_len(4), 4);
    assert_eq!(pad_len(8), 0);
    assert_eq!(pad_len(12), 4);
    assert_eq!(pad_len(13), 3);
    assert_eq!(pad_len(15), 1);
    let mut v = vec![7u8];
    put_zeros(&mut v, 3);
    assert_eq!(v, vec![7, 0, 0, 0]);
}

#[test]
fn oxm_header_word_is_cut_into_its_fields() {
    let h = OxmTlvHeader(0x8000_0a04);
    assert_eq!(h.get_oxm_class(), 0x8000);
    assert_eq!(h.get_oxm_field(), 5);
    assert_eq!(h.get_hasmask(), 0);
    assert_eq!(h.get_length(), 4);
    let h = OxmTlvHeader(0xffff_4f10);
    assert_eq!(h.get_oxm_class(), 0xffff);
    assert_eq!(h.get_oxm_field(), 39);
    assert_eq!(h.get_hasmask(), 1);
    assert_eq!(h.get_length(), 16);
    assert_eq!(OxmTlvHeader::basic(OfbMatchFields::EthType, 2), OxmTlvHeader(0x8000_0a02));
    assert_eq!(OxmTlvHeader::basic(OfbMatchFields::IPv6ExtHdr, 2), OxmTlvHeader(0x8000_4e02));
}

#[test]
fn tlv_of_an_input_port_round_trips() {
    let tlv = in_port_tlv(1);
    assert_eq!(tlv.tlv_header, OxmTlvHeader(0x8000_0004));
    let bytes = tlv.into_bytes();
    assert_eq!(bytes, vec![0x80, 0, 0, 4, 0, 0, 0, 1]);
    assert_eq!(TlvMatch::try_from(OxmTlvHeader(0x8000_0004), &bytes[4..]), Ok(tlv));
    assert_eq!(TlvMatch::from_block(&bytes[..]), Ok(tlv));
    assert_eq!(TlvMatch::read_len(&bytes[..], 0), Ok(8));
}

#[test]
fn tlv_values_round_trip_by_field() {
    let payloads = vec![
        MatchPayload::Metadata(PayloadMetadata { metadata: 0x0102030405060708 }),
        MatchPayload::EthDst(PayloadEthDst { eth_dst: [1, 2, 3, 4, 5, 6] }),
        MatchPayload::EthType(PayloadEthType { ttype: EtherType::Arp }),
        MatchPayload::VlanPcp(PayloadVlanPcp { vlan_pcp: 5 }),
        MatchPayload::IpProto(PayloadIpProto { ip_proto: IpProto::Udp }),
        MatchPayload::IPv4Src(PayloadIPv4Src { ipv4_src: [10, 0, 0, 1] }),
        MatchPayload::TcpDst(PayloadTcpDst { dst_port: 6653 }),
        MatchPayload::IcmpV4TYype(PayloadIcmpV4Type { ttype: IcmpType::EchoRequest }),
        MatchPayload::ArpOp(PayloadArpOp { arp_op: ArpOp::Reply }),
        MatchPayload::IPv6ExtHdr(PayloadIPv6ExtHdr { ext_hdr_flags: IPv6ExtHdrFlags(0x0110) }),
    ];
    for p in payloads {
        let tlv = TlvMatch::new(p);
        let bytes = tlv.into_bytes();
        assert_eq!(bytes.len(), 4 + p.wire_len() as usize);
        assert_eq!(tlv.tlv_header.get_oxm_field(), p.field().to_u32());
        assert_eq!(TlvMatch::from_block(&bytes[..]), Ok(tlv));
    }
    assert!(IPv6ExtHdrFlags(0x0110).contains(IPV6_EXT_HDR_FRAG));
    assert_eq!(
        MatchPayload::EthType(PayloadEthType { ttype: EtherType::Arp }).into_bytes(),
        vec![0x08, 0x06]
    );
    assert_eq!(
        MatchPayload::IpProto(PayloadIpProto { ip_proto: IpProto::Udp }).into_bytes(),
        vec![17]
    );
}

#[test]
fn tlv_of_another_class_is_refused() {
    assert_eq!(
        TlvMatch::try_from(OxmTlvHeader(0xffff_0004), &[0, 0, 0, 1]),
        Err(Error::UnsupportedType(0xffff, "OxmClass"))
    );
    assert_eq!(
        TlvMatch::try_from(OxmTlvHeader(0x0001_0004), &[0, 0, 0, 1]),
        Err(Error::UnsupportedType(1, "OxmClass"))
    );
    assert_eq!(
        TlvMatch::try_from(OxmTlvHeader(0x1234_0004), &[0, 0, 0, 1]),
        Err(Error::UnknownEnum(0x1234, "OxmClass"))
    );
}

#[test]
fn tlv_with_a_wrong_field_length_or_value_is_refused() {
    assert_eq!(
        TlvMatch::try_from(OxmTlvHeader(0x8000_5004), &[0, 0, 0, 1]),
        Err(Error::UnknownEnum(40, "OfbMatchFields"))
    );
    assert_eq!(
        TlvMatch::try_from(OxmTlvHeader(0x8000_0004), &[0, 0, 1]),
        Err(Error::InvalidSliceLength(4, 3, "TlvMatch"))
    );
    assert_eq!(
        TlvMatch::try_from(OxmTlvHeader(0x8000_0002), &[0, 1]),
        Err(Error::InvalidSliceLength(4, 2, "PayloadInPort"))
    );
    assert_eq!(
        TlvMatch::try_from(OxmTlvHeader(0x8000_0004), &[0, 0, 0, 0]),
        Err(Error::IllegalValue(0, "PortNumber"))
    );
    assert_eq!(
        TlvMatch::try_from(OxmTlvHeader(0x8000_0a02), &[0x12, 0x34]),
        Err(Error::UnknownEnum(0x1234, "EtherType"))
    );
    assert_eq!(TlvMatch::read_len(&[0x80, 0, 0], 0), Err(Error::CouldNotReadLength(0, "TlvMatch")));
}

#[test]
fn empty_match_is_eight_bytes() {
    let m = Match::new(Vec::new()).unwrap();
    assert_eq!(m.length, 8);
    let bytes = m.into_bytes();
    assert_eq!(bytes, vec![0, 0, 0, 8, 0, 0, 0, 0]);
    assert_eq!(Match::try_from(&bytes[..]), Ok(m));
    assert_eq!(Match::read_len(&bytes[..], 0), Ok(8));
    let decoded = Match::try_from(&[0, 0, 0, 8, 0, 0, 0, 0]).unwrap();
    assert_eq!(decoded.ttype, MatchType::Standard);
    assert_eq!(decoded.length, 8);
    assert_eq!(decoded.matches, Vec::new());
}

#[test]
fn match_is_padded_to_a_multiple_of_eight() {
    let m = Match::new(vec![in_port_tlv(1)]).unwrap();
    assert_eq!(m.length, 16);
    let bytes = m.into_bytes();
    assert_eq!(bytes, vec![0, 0, 0, 16, 0, 0, 0, 0, 0x80, 0, 0, 4, 0, 0, 0, 1]);
    assert_eq!(bytes.len() % 8, 0);
    assert_eq!(Match::read_len(&bytes[..], 0), Ok(16));
    assert_eq!(Match::try_from(&bytes[..]), Ok(m.clone()));
    // the four bytes after the length are ignored on read and zero on write
    let mut dirty = bytes.clone();
    dirty[5] = 0xee;
    let again = Match::try_from(&dirty[..]).unwrap();
    assert_eq!(again, m);
    assert_eq!(again.into_bytes(), bytes);

    let m = Match::new(vec![
        in_port_tlv(1),
        TlvMatch::new(MatchPayload::EthType(PayloadEthType { ttype: EtherType::IPv4 })),
        TlvMatch::new(MatchPayload::VlanPcp(PayloadVlanPcp { vlan_pcp: 3 })),
    ])
    .unwrap();
    assert_eq!(m.length, 8 + 8 + 6 + 5);
    let bytes = m.into_bytes();
    assert_eq!(bytes.len(), 32);
    assert_eq!(&bytes[27..], &[0, 0, 0, 0, 0]);
    assert_eq!(Match::read_len(&bytes[..], 0), Ok(32));
    assert_eq!(Match::try_from(&bytes[..]), Ok(m.clone()));
    // the final padding is ignored on read and zero on write as well
    let mut dirty = bytes.clone();
    dirty[29] = 0x77;
    let again = Match::try_from(&dirty[..]).unwrap();
    assert_eq!(again, m);
    assert_eq!(again.into_bytes(), bytes);
}

#[test]
fn match_of_another_type_or_length_is_refused() {
    assert_eq!(
        Match::try_from(&[0, 1, 0, 8, 0, 0, 0, 0]),
        Err(Error::UnsupportedType(1, "MatchType"))
    );
    assert_eq!(
        Match::try_from(&[0, 2, 0, 8, 0, 0, 0, 0]),
        Err(Error::UnknownEnum(2, "MatchType"))
    );
    assert_eq!(Match::try_from(&[0, 0, 0]), Err(Error::InvalidSliceLength(8, 3, "Match")));
    assert_eq!(
        Match::try_from(&[0, 0, 0, 4, 0, 0, 0]),
        Err(Error::InvalidSliceLength(8, 7, "Match"))
    );
    assert_eq!(
        Match::try_from(&[0, 0, 0, 12, 0, 0, 0, 0]),
        Err(Error::InvalidSliceLength(16, 8, "Match"))
    );
    // a declared length that does not cover the head
    assert_eq!(
        Match::try_from(&[0, 0, 0, 7, 0, 0, 0, 0]),
        Err(Error::InvalidSliceLength(8, 8, "Match"))
    );
    assert_eq!(
        Match::try_from(&[0, 0, 0, 4, 0, 0, 0, 0]),
        Err(Error::InvalidSliceLength(8, 8, "Match"))
    );
    // a TLV that says it is longer than the match
    assert_eq!(
        Match::try_from(&[0, 0, 0, 14, 0, 0, 0, 0, 0x80, 0, 0, 4, 0, 0, 0, 0]),
        Err(Error::InvalidSliceLength(8, 6, "TlvMatch"))
    );
    // a TLV of another class after the head
    assert_eq!(
        Match::try_from(&[0, 0, 0, 16, 0, 0, 0, 0, 0, 0, 0, 4, 0, 0, 0, 1]),
        Err(Error::UnsupportedType(0, "OxmClass"))
    );
    assert_eq!(Match::read_len(&[0, 0, 0], 0), Err(Error::CouldNotReadLength(2, "Match")));
    assert_eq!(MatchType::from_u16(1), Some(MatchType::OXM));
}

#[test]
fn decoded_tlvs_encode_to_the_bytes_they_came_from() {
    let blocks: Vec<Vec<u8>> = vec![
        vec![0x80, 0, 0x00, 4, 0x01, 0x02, 0x03, 0x04],
        vec![0x80, 0, 0x04, 8, 1, 2, 3, 4, 5, 6, 7, 8],
        vec![0x80, 0, 0x06, 6, 0xa1, 0xa2, 0xa3, 0xa4, 0xa5, 0xa6],
        vec![0x80, 0, 0x0a, 2, 0x86, 0xdd],
        vec![0x80, 0, 0x14, 1, 17],
        vec![0x80, 0, 0x16, 4, 192, 168, 0, 1],
        vec![0x80, 0, 0x26, 1, 8],
        vec![0x80, 0, 0x2a, 2, 0, 2],
        vec![0x80, 0, 0x34, 8, 9, 8, 7, 6, 5, 4, 3, 2],
        vec![0x80, 0, 0x3a, 1, 135],
        vec![0x80, 0, 0x4c, 8, 0xff, 0, 0xff, 0, 0xff, 0, 0xff, 1],
        vec![0x80, 0, 0x4e, 2, 0x01, 0x10],
        // the mask bit is kept in the header word
        vec![0x80, 0, 0x01, 4, 0, 0, 0, 9],
    ];
    for block in blocks {
        let tlv = TlvMatch::from_block(&block[..]).unwrap();
        assert_eq!(tlv.into_bytes(), block);
    }
}

#[test]
fn output_action_is_sixteen_bytes() {
    let a = PayloadOutput { port: PortNumber::Reserved(PortNo::Flood), max_len: 0x0102 }
        .into_action();
    assert_eq!(a.ttype, ActionType::Output);
    assert_eq!(a.len(), 16);
    let bytes = a.into_bytes();
    assert_eq!(bytes, vec![0, 0, 0, 16, 0xff, 0xff, 0xff, 0xfb, 1, 2, 0, 0, 0, 0, 0, 0]);
    assert_eq!(ActionHeader::try_from(&bytes[..]), Ok(a));
    assert_eq!(ActionHeader::read_len(&bytes[..], 0), Ok(16));
    assert_eq!(
        try_from_action_payload(&bytes[4..], &ActionType::Output),
        Ok(ActionPayload::Output(PayloadOutput {
            port: PortNumber::Reserved(PortNo::Flood),
            max_len: 0x0102
        }))
    );
}

#[test]
fn actions_round_trip() {
    let actions = vec![
        ActionHeader::new(ActionPayload::Group(PayloadGroup { group_id: 0x01020304 })),
        ActionHeader::new(ActionPayload::SetMplsTtl(PayloadSetMplsTtl { mpls_ttl: 64 })),
        ActionHeader::new(ActionPayload::PushVlan(PayloadPushVlan {
            ethertype: EtherType::VlanTaggedFrameShortestPathBridging,
        })),
        ActionHeader::new(ActionPayload::PopVlan(PayloadPopVlan {})),
    ];
    for a in &actions {
        assert_eq!(a.len, 8);
        let bytes = a.into_bytes();
        assert_eq!(bytes.len(), 8);
        assert_eq!(ActionHeader::try_from(&bytes[..]), Ok(*a));
    }
    assert_eq!(actions[0].into_bytes(), vec![0, 22, 0, 8, 1, 2, 3, 4]);
    assert_eq!(actions[2].into_bytes(), vec![0, 17, 0, 8, 0x81, 0, 0, 0]);
    let mut all = Vec::new();
    ActionHeader::encode_list(&actions, &mut all);
    assert_eq!(all.len(), 32);
    assert_eq!(ActionHeader::parse_list(&all[..]), Ok(actions.clone()));
    assert_eq!(calc_actions_len(&actions), 32);
    assert_eq!(checked_actions_len(&actions), Some(32));
    assert_eq!(checked_actions_len(&Vec::new()), Some(0));
    let many = vec![output_to(1); 4096];
    assert_eq!(checked_actions_len(&many), None);
    let most = vec![output_to(1); 4095];
    assert_eq!(checked_actions_len(&most), Some(0xfff0));
}

#[test]
fn set_field_action_is_padded_to_a_multiple_of_eight() {
    let tlv = TlvMatch::new(MatchPayload::EthType(PayloadEthType { ttype: EtherType::IPv6 }));
    let a = ActionHeader::new(ActionPayload::SetField(PayloadSetField { field: tlv }));
    assert_eq!(a.ttype, ActionType::SetField);
    assert_eq!(a.len, 10);
    let bytes = a.into_bytes();
    assert_eq!(bytes, vec![0, 25, 0, 10, 0x80, 0, 0x0a, 2, 0x86, 0xdd, 0, 0, 0, 0, 0, 0]);
    assert_eq!(bytes.len() % 8, 0);
    assert_eq!(ActionHeader::read_len(&bytes[..], 0), Ok(16));
    assert_eq!(ActionHeader::try_from(&bytes[..]), Ok(a));

    let tlv = TlvMatch::new(MatchPayload::EthDst(PayloadEthDst { eth_dst: [1, 2, 3, 4, 5, 6] }));
    let a = ActionHeader::new(ActionPayload::SetField(PayloadSetField { field: tlv }));
    assert_eq!(a.len, 14);
    assert_eq!(a.into_bytes().len(), 16);
    let a = ActionHeader::new(ActionPayload::SetField(PayloadSetField { field: in_port_tlv(7) }));
    assert_eq!(a.len, 12);
    assert_eq!(a.into_bytes().len(), 16);
}

#[test]
fn malformed_actions_are_refused() {
    assert_eq!(
        ActionHeader::try_from(&[0, 1, 0, 8, 0, 0, 0, 0]),
        Err(Error::UnknownEnum(1, "ActionType"))
    );
    assert_eq!(
        ActionHeader::try_from(&[0, 0, 0]),
        Err(Error::InvalidSliceLength(4, 3, "ActionHeader"))
    );
    assert_eq!(
        ActionHeader::try_from(&[0, 0, 0, 16, 0, 0, 0, 1]),
        Err(Error::InvalidSliceLength(16, 8, "ActionHeader"))
    );
    assert_eq!(
        ActionHeader::try_from(&[0, 0, 0, 8, 0, 0, 0, 1]),
        Err(Error::InvalidSliceLength(12, 4, "PayloadOutput"))
    );
    assert_eq!(
        ActionHeader::parse_list(&[0, 22, 0, 16, 0, 0, 0, 1]),
        Err(Error::InvalidSliceLength(16, 8, "ActionHeader"))
    );
    assert_eq!(
        ActionHeader::parse_list(&[0, 22, 0, 0, 0, 0, 0, 1]),
        Err(Error::InvalidSliceLength(0, 8, "ActionHeader"))
    );
    assert_eq!(
        ActionHeader::read_len(&[0, 22, 0], 0),
        Err(Error::CouldNotReadLength(2, "ActionHeader"))
    );
}

#[test]
fn flow_mod_round_trips() {
    let apply = InstructionHeader {
        ttype: InstructionType::ApplyActions,
        len: 24,
        payload: InstructionPayload::ApplyActions(PayloadApplyActions {
            actions: vec![output_to(2)],
        }),
    };
    let flow_mod = FlowMod {
        cookie: 0xDEADBEEF,
        cookie_mask: 0,
        table_id: 0,
        command: FlowModCommand::Add,
        idle_timeout: 0,
        hard_timeout: 0,
        priority: 100,
        buffer_id: 0xffff_ffff,
        out_port: PortNumber::NormalPort(2),
        out_group: 0,
        flags: FlowModFlags::empty(),
        mmatch: Match::new(vec![in_port_tlv(1)]).unwrap(),
        instructions: vec![apply.clone()],
    };
    let bytes = flow_mod.into_bytes();
    assert_eq!(bytes.len(), 40 + 16 + 24);
    assert_eq!(&bytes[0..8], &[0, 0, 0, 0, 0xde, 0xad, 0xbe, 0xef]);
    assert_eq!(&bytes[16..18], &[0, 0]);
    assert_eq!(&bytes[22..24], &[0, 100]);
    assert_eq!(&bytes[28..32], &[0, 0, 0, 2]);
    assert_eq!(&bytes[40..56], &[0, 0, 0, 16, 0, 0, 0, 0, 0x80, 0, 0, 4, 0, 0, 0, 1]);
    assert_eq!(&bytes[56..64], &[0, 4, 0, 24, 0, 0, 0, 0]);
    assert_eq!(&bytes[64..80], &[0, 0, 0, 16, 0, 0, 0, 2, 0, 0, 0, 0, 0, 0, 0, 0]);
    assert_eq!(flow_mod.mmatch.into_bytes().len() % 8, 0);
    assert_eq!(apply.into_bytes().len() % 8, 0);
    assert_eq!(output_to(2).into_bytes().len() % 8, 0);
    let decoded = FlowMod::try_from(&bytes[..]).unwrap();
    assert_eq!(decoded, flow_mod);
    assert_eq!(decoded.into_bytes(), bytes);

    let msg = OfMsg::generate(5, OfPayload::FlowMod(flow_mod));
    let frame = msg.into_bytes();
    assert_eq!(frame.len(), 88);
    assert_eq!(&frame[..8], &[4, 14, 0, 88, 0, 0, 0, 5]);
    assert_eq!(OfMsg::try_from(&frame[..]), Ok(msg));
}

#[test]
fn flow_mod_with_bad_parts_is_refused() {
    let good = FlowMod {
        cookie: 1,
        cookie_mask: 2,
        table_id: 3,
        command: FlowModCommand::DeleteStrict,
        idle_timeout: 4,
        hard_timeout: 5,
        priority: 6,
        buffer_id: 7,
        out_port: PortNumber::Reserved(PortNo::Any),
        out_group: 8,
        flags: FlowModFlags::from_bits(0x1f).unwrap(),
        mmatch: Match::new(Vec::new()).unwrap(),
        instructions: Vec::new(),
    };
    let bytes = good.into_bytes();
    assert_eq!(FlowMod::try_from(&bytes[..]), Ok(good));
    let mut b = bytes.clone();
    b[17] = 5;
    assert_eq!(FlowMod::try_from(&b[..]), Err(Error::UnknownEnum(5, "FlowModCommand")));
    let mut b = bytes.clone();
    b[37] = 0x20;
    assert_eq!(FlowMod::try_from(&b[..]), Err(Error::UnknownBits(0x20, "FlowModFlags")));
    assert_eq!(FlowMod::try_from(&bytes[..39]), Err(Error::InvalidSliceLength(40, 39, "FlowMod")));
    assert_eq!(FlowMod::try_from(&bytes[..42]), Err(Error::CouldNotReadLength(2, "Match")));
    assert_eq!(FlowMod::try_from(&bytes[..44]), Err(Error::InvalidSliceLength(8, 4, "Match")));
    let mut b = bytes.clone();
    b.extend_from_slice(&[0xff, 0xff, 0, 8, 0, 0, 0, 0]);
    assert_eq!(FlowMod::try_from(&b[..]), Err(Error::UnsupportedType(0xffff, "InstructionType")));
}

#[test]
fn instructions_round_trip() {
    let goto = InstructionHeader {
        ttype: InstructionType::GotoTable,
        len: 8,
        payload: InstructionPayload::GotoTable(PayloadGotoTable { table_id: 3 }),
    };
    assert_eq!(goto.into_bytes(), vec![0, 1, 0, 8, 3, 0, 0, 0]);
    let meta = InstructionHeader {
        ttype: InstructionType::WriteMetadata,
        len: 24,
        payload: InstructionPayload::WriteMetaData(PayloadWriteMetaData {
            metadata: 0x0102030405060708,
            metadata_mask: 0xff,
        }),
    };
    let bytes = meta.into_bytes();
    assert_eq!(bytes.len(), 24);
    assert_eq!(&bytes[8..16], &[1, 2, 3, 4, 5, 6, 7, 8]);
    assert_eq!(InstructionHeader::try_from(&bytes[..]), Ok(meta.clone()));
    assert_eq!(get_instruction_slice_len(&bytes[..], 0), Ok(24));
    assert_eq!(
        get_instruction_slice_len(&bytes[..3], 0),
        Err(Error::CouldNotReadLength(2, "InstructionHeader"))
    );
    let mut all = Vec::new();
    InstructionHeader::encode_list(&vec![goto.clone(), meta.clone()], &mut all);
    assert_eq!(InstructionHeader::parse_list(&all[..]), Ok(vec![goto, meta]));
    assert_eq!(
        InstructionHeader::try_from(&[0, 9, 0, 8, 0, 0, 0, 0]),
        Err(Error::UnknownEnum(9, "InstructionType"))
    );
    assert_eq!(
        InstructionHeader::try_from(&[0, 1, 0, 9, 0, 0, 0, 0]),
        Err(Error::InvalidSliceLength(9, 8, "InstructionHeader"))
    );
}

#[test]
fn packet_in_round_trips() {
    let p = PacketIn {
        buffer_id: 0x01020304,
        total_len: 3,
        reason: InReason::Action,
        table_id: 9,
        cookie: 0x1122334455667788,
        mmatch: Match::new(vec![in_port_tlv(3)]).unwrap(),
        ethernet_frame: vec![0xaa, 0xbb, 0xcc],
    };
    let bytes = p.into_bytes();
    assert_eq!(bytes.len(), 16 + 16 + 2 + 3);
    assert_eq!(&bytes[..8], &[1, 2, 3, 4, 0, 3, 1, 9]);
    assert_eq!(&bytes[32..], &[0, 0, 0xaa, 0xbb, 0xcc]);
    assert_eq!(PacketIn::try_from(&bytes[..]), Ok(p));
    let mut b = bytes.clone();
    b[6] = 3;
    assert_eq!(PacketIn::try_from(&b[..]), Err(Error::UnknownEnum(3, "InReason")));
    assert_eq!(PacketIn::try_from(&bytes[..33]), Err(Error::InvalidSliceLength(34, 33, "PacketIn")));
}

#[test]
fn packet_out_round_trips() {
    let p = PacketOut::new(
        0xffff_ffff,
        PortNo::Controller.into_port_number(),
        vec![output_to(1), output_to(2)],
        vec![1, 2, 3],
    );
    assert_eq!(p.actions_len, 32);
    let bytes = p.into_bytes();
    assert_eq!(bytes.len(), 16 + 32 + 3);
    assert_eq!(PacketOut::try_from(&bytes[..]), Ok(p.clone()));
    assert_eq!(PacketOut::try_new(0xffff_ffff, p.in_port, p.actions.clone(), vec![1, 2, 3]), Some(p));
    assert_eq!(
        PacketOut::try_new(1, PortNumber::NormalPort(1), vec![output_to(1); 4096], Vec::new()),
        None
    );
    assert_eq!(
        PacketOut::try_from(&bytes[..40]),
        Err(Error::InvalidSliceLength(48, 40, "PacketOut"))
    );
}

#[test]
fn flow_removed_round_trips() {
    let f = FlowRemoved {
        cookie: 1,
        priority: 2,
        reason: FlowRemovedReason::GroupDelete,
        table_id: 4,
        duration_sec: 5,
        duration_nsec: 6,
        idle_timeout: 7,
        hard_timeout: 8,
        packet_count: 9,
        byte_count: 10,
        mmatch: Match::new(vec![in_port_tlv(3)]).unwrap(),
    };
    let bytes = f.into_bytes();
    assert_eq!(bytes.len(), 56);
    assert_eq!(bytes[10], 3);
    assert_eq!(FlowRemoved::try_from(&bytes[..]), Ok(f));
    let mut b = bytes.clone();
    b.push(0);
    assert_eq!(FlowRemoved::try_from(&b[..]), Err(Error::InvalidSliceLength(56, 57, "FlowRemoved")));
}

#[test]
fn group_mod_round_trips() {
    let bucket = Bucket {
        len: 32,
        weight: 0x0102,
        watch_port: PortNumber::Reserved(PortNo::Any),
        watch_group: 0xffff_ffff,
        actions: vec![output_to(5)],
    };
    let bytes = bucket.into_bytes();
    assert_eq!(bytes.len(), 32);
    assert_eq!(&bytes[..4], &[0, 32, 1, 2]);
    assert_eq!(Bucket::try_from(&bytes[..]), Ok(bucket.clone()));
    assert_eq!(Bucket::read_len(&bytes[..], 0), Ok(32));
    assert_eq!(Bucket::read_len(&bytes[..1], 0), Err(Error::CouldNotReadLength(0, "Bucket")));
    let g = GroupMod {
        command: GroupModCommand::Modify,
        ttype: GroupType::Ff,
        group_id: 0x0a0b0c0d,
        buckets: vec![bucket.clone(), bucket],
    };
    let bytes = g.into_bytes();
    assert_eq!(bytes.len(), 8 + 64);
    assert_eq!(&bytes[..8], &[0, 1, 3, 0, 0x0a, 0x0b, 0x0c, 0x0d]);
    assert_eq!(GroupMod::try_from(&bytes[..]), Ok(g));
    let mut b = bytes.clone();
    b[2] = 4;
    assert_eq!(GroupMod::try_from(&b[..]), Err(Error::UnknownEnum(4, "GroupType")));
    assert_eq!(
        GroupMod::try_from(&bytes[..70]),
        Err(Error::InvalidSliceLength(32, 30, "Bucket"))
    );
}

#[test]
fn meter_mod_round_trips() {
    let band = MeterBandHeader {
        ttype: MeterBandType::DscpRemark,
        len: 16,
        rate: 0x01020304,
        burst_size: 0x05060708,
        payload: MeterBandPayload::Remark(MeterBandRemark { prec_level: 2 }),
    };
    assert_eq!(band.into_bytes(), vec![0, 2, 0, 16, 1, 2, 3, 4, 5, 6, 7, 8, 2, 0, 0, 0]);
    let m = MeterMod {
        command: MeterModCommand::Add,
        flags: MeterFlags::from_bits(0x5).unwrap(),
        meter_id: 9,
        bands: vec![band],
    };
    let bytes = m.into_bytes();
    assert_eq!(&bytes[..8], &[0, 1, 0, 5, 0, 0, 0, 9]);
    assert_eq!(MeterMod::try_from(&bytes[..]), Ok(m));
    let mut b = bytes.clone();
    b[1] = 0;
    assert_eq!(MeterMod::try_from(&b[..]), Err(Error::UnknownEnum(0, "MeterModCommand")));
    let mut b = bytes.clone();
    b[3] = 0x10;
    assert_eq!(MeterMod::try_from(&b[..]), Err(Error::UnknownBits(0x10, "MeterFlags")));
}

#[test]
fn fixed_records_round_trip() {
    let f = SwitchFeatures {
        datapath_id: 0x0102030405060708,
        n_buffers: 256,
        n_tables: 254,
        auxiliary_id: 1,
        capabilities: Capabilities::from_bits(0x14f).unwrap(),
        reserved: 0,
    };
    let bytes = f.into_bytes();
    assert_eq!(
        bytes,
        vec![1, 2, 3, 4, 5, 6, 7, 8, 0, 0, 1, 0, 254, 1, 0, 0, 0, 0, 1, 0x4f, 0, 0, 0, 0]
    );
    assert_eq!(SwitchFeatures::try_from(&bytes[..]), Ok(f));
    let mut b = bytes.clone();
    b[19] = 0x5f;
    assert_eq!(SwitchFeatures::try_from(&b[..]), Err(Error::UnknownBits(0x15f, "Capabilities")));

    let c = SwitchConfig { flags: ConfigFlags::from_bits(2).unwrap(), miss_send_len: 0x0180 };
    assert_eq!(c.into_bytes(), vec![0, 2, 1, 0x80]);
    assert_eq!(SwitchConfig::try_from(&[0, 2, 1, 0x80]), Ok(c));
    assert_eq!(SwitchConfig::try_from(&[0, 4, 0, 0]), Err(Error::UnknownBits(4, "ConfigFlags")));

    let r = Role { role: ControllerRole::Master, generation_id: 0x0102030405060708 };
    assert_eq!(r.into_bytes(), vec![0, 0, 0, 2, 0, 0, 0, 0, 1, 2, 3, 4, 5, 6, 7, 8]);
    assert_eq!(Role::try_from(&r.into_bytes()[..]), Ok(r));
    assert_eq!(
        Role::try_from(&[0, 0, 0, 4, 0, 0, 0, 0, 0, 0, 0, 0, 0, 0, 0, 0]),
        Err(Error::UnknownEnum(4, "ControllerRole"))
    );

    let a = Async {
        packet_in_mask_1: 1,
        packet_in_mask_2: 2,
        port_status_mask_1: 3,
        port_status_mask_2: 4,
        flow_removed_mask_1: 5,
        flow_removed_mask_2: 0x01020304,
    };
    let bytes = a.into_bytes();
    assert_eq!(bytes.len(), 24);
    assert_eq!(&bytes[20..], &[1, 2, 3, 4]);
    assert_eq!(Async::try_from(&bytes[..]), Ok(a));

    let t = TableMod { table_id: 0xff, config: 3 };
    assert_eq!(t.into_bytes(), vec![0xff, 0, 0, 0, 0, 0, 0, 3]);
    assert_eq!(TableMod::try_from(&[0xff, 0, 0, 0, 0, 0, 0, 3]), Ok(t));
    assert_eq!(TableMod::try_from(&[0xff, 0, 0]), Err(Error::InvalidSliceLength(8, 3, "TableMod")));

    let q = QueueGetConfigRequest { port: PortNumber::Reserved(PortNo::Any) };
    assert_eq!(q.into_bytes(), vec![0xff, 0xff, 0xff, 0xff, 0, 0, 0, 0]);
    assert_eq!(QueueGetConfigRequest::try_from(&q.into_bytes()[..]), Ok(q));
    let reply = QueueGetConfigReply { port: PortNumber::NormalPort(4), queues: Vec::new() };
    assert_eq!(QueueGetConfigReply::try_from(&reply.into_bytes()[..]), Ok(reply));
}

#[test]
fn port_messages_round_trip() {
    let port = Port {
        port_no: PortNumber::NormalPort(3),
        hw_addr: [1, 2, 3, 4, 5, 6],
        name: *b"eth0\0\0\0\0\0\0\0\0\0\0\0\0",
        config: PortConfig::empty(),
        state: PortState::from_bits(4).unwrap(),
        curr: PortFeatures::from_bits(0x2820).unwrap(),
        advertised: PortFeatures::empty(),
        supported: PortFeatures::empty(),
        peer: PortFeatures::empty(),
        curr_speed: 1_000_000,
        max_speed: 1_000_000,
    };
    let s = PortStatus { reason: PortReason::Modifiy, desc: port };
    let bytes = s.into_bytes();
    assert_eq!(bytes.len(), 72);
    assert_eq!(&bytes[..8], &[2, 0, 0, 0, 0, 0, 0, 0]);
    assert_eq!(PortStatus::try_from(&bytes[..]), Ok(s));
    let mut b = bytes.clone();
    b[0] = 3;
    assert_eq!(PortStatus::try_from(&b[..]), Err(Error::UnknownEnum(3, "PortReason")));

    let m = PortMod {
        port_no: PortNumber::NormalPort(3),
        hw_addr: [1, 2, 3, 4, 5, 6],
        config: PortConfig::from_bits(1).unwrap(),
        mask: PortConfig::from_bits(0x65).unwrap(),
        advertise: PortFeatures::empty(),
    };
    let bytes = m.into_bytes();
    assert_eq!(bytes.len(), 32);
    assert_eq!(&bytes[16..24], &[0, 0, 0, 1, 0, 0, 0, 0x65]);
    assert_eq!(PortMod::try_from(&bytes[..]), Ok(m));
}
