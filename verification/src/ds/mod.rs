//! The data structures of OpenFlow 1.3 and their wire codec: the message
//! header, the bodies by type, and the message made of both.

pub mod actions;
pub mod async_config;
pub mod features;
pub mod flow_instructions;
pub mod flow_match;
pub mod flow_mod;
pub mod flow_removed;
pub mod group_mod;
pub mod hw_addr;
pub mod meter_mod;
pub mod multipart;
pub mod packet_in;
pub mod packet_out;
pub mod packet_queue;
pub mod port_mod;
pub mod port_status;
pub mod ports;
pub mod queue_config;
pub mod role;
pub mod switch_config;
pub mod table_mod;

use crate::err::Error;
use crate::ds::async_config::Async;
use crate::ds::features::SwitchFeatures;
use crate::ds::flow_mod::{FlowMod, FlowModView};
use crate::ds::flow_removed::{FlowRemoved, FlowRemovedView};
use crate::ds::group_mod::{GroupMod, GroupModView};
use crate::ds::meter_mod::{MeterMod, MeterModView};
use crate::ds::packet_in::{PacketIn, PacketInView};
use crate::ds::packet_out::{PacketOut, PacketOutView};
use crate::ds::port_mod::PortMod;
use crate::ds::port_status::PortStatus;
use crate::ds::queue_config::{QueueGetConfigReply, QueueGetConfigReplyView, QueueGetConfigRequest};
use crate::ds::role::Role;
use crate::ds::switch_config::SwitchConfig;
use crate::ds::table_mod::TableMod;
use crate::wire::{
    get_u16, get_u32, lemma_u16_at_bytes, lemma_u32_at_bytes, put_bytes, put_u16, put_u32,
    spec_u16_at, spec_u16_bytes, spec_u32_at, spec_u32_bytes, lemma_u16_bytes_at,
    lemma_u32_bytes_at,
};
use vstd::prelude::*;
use vstd::slice::{slice_subrange, slice_to_vec};

verus! {

/// The versions of OpenFlow.
#[derive(Debug, PartialEq, Eq, Clone, Copy)]
pub enum Version {
    /// OpenFlow 1.0.
    V1_0,
    /// OpenFlow 1.1.
    V1_1,
    /// OpenFlow 1.2.
    V1_2,
    /// OpenFlow 1.3, the version that this codec speaks.
    V1_3,
    /// OpenFlow 1.4.
    V1_4,
}

impl Version {
    /// The variant whose wire value is `raw`, if there is one.
    pub open spec fn spec_from_u8(raw: u8) -> Option<Version> {
        match raw {
            0x01 => Some(Version::V1_0),
            0x02 => Some(Version::V1_1),
            0x03 => Some(Version::V1_2),
            0x04 => Some(Version::V1_3),
            0x05 => Some(Version::V1_4),
            _ => None,
        }
    }

    /// The variant whose wire value is `raw`, if there is one.
    pub fn from_u8(raw: u8) -> (res: Option<Version>)
        ensures
            res == Self::spec_from_u8(raw),
    {
        match raw {
            0x01 => Some(Version::V1_0),
            0x02 => Some(Version::V1_1),
            0x03 => Some(Version::V1_2),
            0x04 => Some(Version::V1_3),
            0x05 => Some(Version::V1_4),
            _ => None,
        }
    }

    /// The wire value of the variant.
    pub open spec fn spec_to_u8(self) -> u8 {
        match self {
            Version::V1_0 => 0x01,
            Version::V1_1 => 0x02,
            Version::V1_2 => 0x03,
            Version::V1_3 => 0x04,
            Version::V1_4 => 0x05,
        }
    }

    /// The wire value of the variant.
    pub fn to_u8(&self) -> (r: u8)
        ensures
            r == self.spec_to_u8(),
    {
        match self {
            Version::V1_0 => 0x01,
            Version::V1_1 => 0x02,
            Version::V1_2 => 0x03,
            Version::V1_3 => 0x04,
            Version::V1_4 => 0x05,
        }
    }

    /// What decoding `raw` gives: its variant, or `UnknownEnum` with the value.
    pub open spec fn spec_decode(raw: u8) -> Result<Version, Error> {
        match Self::spec_from_u8(raw) {
            Some(v) => Ok(v),
            None => Err(Error::UnknownEnum(raw as u64, "Version")),
        }
    }

    /// Decodes a wire value; an unknown one is an `UnknownEnum` error.
    pub fn decode(raw: u8) -> (res: Result<Version, Error>)
        ensures
            res == Self::spec_decode(raw),
    {
        match Self::from_u8(raw) {
            Some(v) => Ok(v),
            None => Err(Error::UnknownEnum(raw as u64, "Version")),
        }
    }

    /// Every variant is what its own wire value decodes to, and only that
    /// value decodes to it.
    pub proof fn lemma_wire_value(self)
        ensures
            Self::spec_decode(self.spec_to_u8()) == Ok::<Version, Error>(self),
            forall|raw: u8| Self::spec_from_u8(raw) == Some(self) ==> raw == self.spec_to_u8(),
    {
    }
}

/// The types of OpenFlow message.
#[derive(Debug, PartialEq, Eq, Clone, Copy)]
pub enum Type {
    /// Hello message, sent by switch and controller right after the connection is up.
    Hello,
    /// Error message.
    Error,
    /// Echo request.
    EchoRequest,
    /// Echo reply.
    EchoReply,
    /// Experimenter message.
    Experimenter,
    /// The controller asks for the features of the switch.
    FeaturesRequest,
    /// The features of the switch.
    FeaturesReply,
    /// The controller asks for the configuration of the switch.
    GetConfigRequest,
    /// The configuration of the switch.
    GetConfigReply,
    /// The controller sets the configuration of the switch.
    SetConfig,
    /// A packet handed to the controller.
    PacketIn,
    /// A flow entry was removed.
    FlowRemoved,
    /// A port changed.
    PortStatus,
    /// A packet sent through the switch.
    PacketOut,
    /// A change of the flow table.
    FlowMod,
    /// A change of the group table.
    GroupMod,
    /// A change of a port.
    PortMod,
    /// A change of a table.
    TableMod,
    /// A multipart request.
    MultipartRequest,
    /// A multipart reply.
    MultipartReply,
    /// A barrier request.
    BarrierRequest,
    /// A barrier reply.
    BarrierReply,
    /// A query for the queues of a port.
    QueueGetConfigRequest,
    /// The queues of a port.
    QueueGetConfigReply,
    /// A role request.
    RoleRequest,
    /// A role reply.
    RoleReply,
    /// A query for the asynchronous message configuration.
    GetAsyncRequest,
    /// The asynchronous message configuration.
    GetAsyncReply,
    /// Sets the asynchronous message configuration.
    SetAsync,
    /// A change of a meter.
    MeterMod,
}

impl Type {
    /// The variant whose wire value is `raw`, if there is one.
    pub open spec fn spec_from_u8(raw: u8) -> Option<Type> {
        match raw {
            0 => Some(Type::Hello),
            1 => Some(Type::Error),
            2 => Some(Type::EchoRequest),
            3 => Some(Type::EchoReply),
            4 => Some(Type::Experimenter),
            5 => Some(Type::FeaturesRequest),
            6 => Some(Type::FeaturesReply),
            7 => Some(Type::GetConfigRequest),
            8 => Some(Type::GetConfigReply),
            9 => Some(Type::SetConfig),
            10 => Some(Type::PacketIn),
            11 => Some(Type::FlowRemoved),
            12 => Some(Type::PortStatus),
            13 => Some(Type::PacketOut),
            14 => Some(Type::FlowMod),
            15 => Some(Type::GroupMod),
            16 => Some(Type::PortMod),
            17 => Some(Type::TableMod),
            18 => Some(Type::MultipartRequest),
            19 => Some(Type::MultipartReply),
            20 => Some(Type::BarrierRequest),
            21 => Some(Type::BarrierReply),
            22 => Some(Type::QueueGetConfigRequest),
            23 => Some(Type::QueueGetConfigReply),
            24 => Some(Type::RoleRequest),
            25 => Some(Type::RoleReply),
            26 => Some(Type::GetAsyncRequest),
            27 => Some(Type::GetAsyncReply),
            28 => Some(Type::SetAsync),
            29 => Some(Type::MeterMod),
            _ => None,
        }
    }

    /// The variant whose wire value is `raw`, if there is one.
    pub fn from_u8(raw: u8) -> (res: Option<Type>)
        ensures
            res == Self::spec_from_u8(raw),
    {
        match raw {
            0 => Some(Type::Hello),
            1 => Some(Type::Error),
            2 => Some(Type::EchoRequest),
            3 => Some(Type::EchoReply),
            4 => Some(Type::Experimenter),
            5 => Some(Type::FeaturesRequest),
            6 => Some(Type::FeaturesReply),
            7 => Some(Type::GetConfigRequest),
            8 => Some(Type::GetConfigReply),
            9 => Some(Type::SetConfig),
            10 => Some(Type::PacketIn),
            11 => Some(Type::FlowRemoved),
            12 => Some(Type::PortStatus),
            13 => Some(Type::PacketOut),
            14 => Some(Type::FlowMod),
            15 => Some(Type::GroupMod),
            16 => Some(Type::PortMod),
            17 => Some(Type::TableMod),
            18 => Some(Type::MultipartRequest),
            19 => Some(Type::MultipartReply),
            20 => Some(Type::BarrierRequest),
            21 => Some(Type::BarrierReply),
            22 => Some(Type::QueueGetConfigRequest),
            23 => Some(Type::QueueGetConfigReply),
            24 => Some(Type::RoleRequest),
            25 => Some(Type::RoleReply),
            26 => Some(Type::GetAsyncRequest),
            27 => Some(Type::GetAsyncReply),
            28 => Some(Type::SetAsync),
            29 => Some(Type::MeterMod),
            _ => None,
        }
    }

    /// The wire value of the variant.
    pub open spec fn spec_to_u8(self) -> u8 {
        match self {
            Type::Hello => 0,
            Type::Error => 1,
            Type::EchoRequest => 2,
            Type::EchoReply => 3,
            Type::Experimenter => 4,
            Type::FeaturesRequest => 5,
            Type::FeaturesReply => 6,
            Type::GetConfigRequest => 7,
            Type::GetConfigReply => 8,
            Type::SetConfig => 9,
            Type::PacketIn => 10,
            Type::FlowRemoved => 11,
            Type::PortStatus => 12,
            Type::PacketOut => 13,
            Type::FlowMod => 14,
            Type::GroupMod => 15,
            Type::PortMod => 16,
            Type::TableMod => 17,
            Type::MultipartRequest => 18,
            Type::MultipartReply => 19,
            Type::BarrierRequest => 20,
            Type::BarrierReply => 21,
            Type::QueueGetConfigRequest => 22,
            Type::QueueGetConfigReply => 23,
            Type::RoleRequest => 24,
            Type::RoleReply => 25,
            Type::GetAsyncRequest => 26,
            Type::GetAsyncReply => 27,
            Type::SetAsync => 28,
            Type::MeterMod => 29,
        }
    }

    /// The wire value of the variant.
    pub fn to_u8(&self) -> (r: u8)
        ensures
            r == self.spec_to_u8(),
    {
        match self {
            Type::Hello => 0,
            Type::Error => 1,
            Type::EchoRequest => 2,
            Type::EchoReply => 3,
            Type::Experimenter => 4,
            Type::FeaturesRequest => 5,
            Type::FeaturesReply => 6,
            Type::GetConfigRequest => 7,
            Type::GetConfigReply => 8,
            Type::SetConfig => 9,
            Type::PacketIn => 10,
            Type::FlowRemoved => 11,
            Type::PortStatus => 12,
            Type::PacketOut => 13,
            Type::FlowMod => 14,
            Type::GroupMod => 15,
            Type::PortMod => 16,
            Type::TableMod => 17,
            Type::MultipartRequest => 18,
            Type::MultipartReply => 19,
            Type::BarrierRequest => 20,
            Type::BarrierReply => 21,
            Type::QueueGetConfigRequest => 22,
            Type::QueueGetConfigReply => 23,
            Type::RoleRequest => 24,
            Type::RoleReply => 25,
            Type::GetAsyncRequest => 26,
            Type::GetAsyncReply => 27,
            Type::SetAsync => 28,
            Type::MeterMod => 29,
        }
    }

    /// What decoding `raw` gives: its variant, or `UnknownEnum` with the value.
    pub open spec fn spec_decode(raw: u8) -> Result<Type, Error> {
        match Self::spec_from_u8(raw) {
            Some(v) => Ok(v),
            None => Err(Error::UnknownEnum(raw as u64, "Type")),
        }
    }

    /// Decodes a wire value; an unknown one is an `UnknownEnum` error.
    pub fn decode(raw: u8) -> (res: Result<Type, Error>)
        ensures
            res == Self::spec_decode(raw),
    {
        match Self::from_u8(raw) {
            Some(v) => Ok(v),
            None => Err(Error::UnknownEnum(raw as u64, "Type")),
        }
    }

    /// Every variant is what its own wire value decodes to, and only that
    /// value decodes to it.
    pub proof fn lemma_wire_value(self)
        ensures
            Self::spec_decode(self.spec_to_u8()) == Ok::<Type, Error>(self),
            forall|raw: u8| Self::spec_from_u8(raw) == Some(self) ==> raw == self.spec_to_u8(),
    {
    }
}

/// Length of the header of an OpenFlow message.
pub const HEADER_LENGTH: usize = 8;

/// The header of an OpenFlow message.
#[derive(Debug, PartialEq, Eq, Clone, Copy)]
pub struct Header {
    /// The version of the protocol.
    pub version: Version,
    /// The type of the message.
    pub ttype: Type,
    /// The length of the message in bytes, this header included.
    pub length: u16,
    /// The transaction id. A reply carries the id of its request.
    pub xid: u32,
}

impl Header {
    /// The version is 1.3 and the length covers the header itself.
    pub open spec fn wf(self) -> bool {
        &&& self.version == Version::V1_3
        &&& self.length >= 8
    }

    /// The version of the protocol.
    pub fn version(&self) -> (r: Version)
        ensures
            r == self.version,
    {
        self.version
    }

    /// The type of the message.
    pub fn ttype(&self) -> (r: Type)
        ensures
            r == self.ttype,
    {
        self.ttype
    }

    /// The length of the message in bytes, this header included.
    pub fn length(&self) -> (r: u16)
        ensures
            r == self.length,
    {
        self.length
    }

    /// The transaction id.
    pub fn xid(&self) -> (r: u32)
        ensures
            r == self.xid,
    {
        self.xid
    }

    /// The length of the body: the length of the message without the eight
    /// bytes of the header.
    pub open spec fn spec_payload_length(self) -> int {
        self.length - 8
    }

    /// The length of the body in bytes.
    pub fn payload_length(&self) -> (r: u16)
        requires
            self.length >= 8,
        ensures
            r == self.spec_payload_length(),
            r == self.length - 8,
    {
        self.length - (HEADER_LENGTH as u16)
    }

    /// What `b` decodes to. A slice of another length than eight is refused
    /// with `InvalidSliceLength`; an unknown version or type is an
    /// `UnknownEnum`, a known version other than 1.3 an `UnsupportedType`; a
    /// length below eight is an `IllegalValue`.
    pub open spec fn spec_try_from(b: Seq<u8>) -> Result<Header, Error> {
        if b.len() != 8 {
            Err(Error::InvalidSliceLength(8, b.len() as usize, "Header"))
        } else {
            match Version::spec_decode(b[0]) {
                Err(e) => Err(e),
                Ok(version) => if version != Version::V1_3 {
                    Err(Error::UnsupportedType(b[0] as u64, "Version"))
                } else {
                    match Type::spec_decode(b[1]) {
                        Err(e) => Err(e),
                        Ok(ttype) => if spec_u16_at(b, 2) < 8 {
                            Err(Error::IllegalValue(spec_u16_at(b, 2) as u64, "Header"))
                        } else {
                            Ok(
                                Header {
                                    version,
                                    ttype,
                                    length: spec_u16_at(b, 2),
                                    xid: spec_u32_at(b, 4),
                                },
                            )
                        },
                    }
                },
            }
        }
    }

    /// Decodes the eight bytes of a header.
    pub fn try_from(bytes: &[u8]) -> (res: Result<Header, Error>)
        ensures
            res == Self::spec_try_from(bytes@),
            res matches Ok(h) ==> h.wf(),
    {
        if bytes.len() != HEADER_LENGTH {
            return Err(Error::InvalidSliceLength(HEADER_LENGTH, bytes.len(), "Header"));
        }
        let version_raw: u8 = bytes[0];
        let version = match Version::decode(version_raw) {
            Ok(v) => v,
            Err(e) => return Err(e),
        };
        match version {
            Version::V1_3 => {},
            _ => {
                return Err(Error::UnsupportedType(version_raw as u64, "Version"));
            },
        }
        let ttype = match Type::decode(bytes[1]) {
            Ok(t) => t,
            Err(e) => return Err(e),
        };
        let length: u16 = get_u16(bytes, 2);
        if length < 8 {
            return Err(Error::IllegalValue(length as u64, "Header"));
        }
        Ok(Header { version, ttype, length, xid: get_u32(bytes, 4) })
    }

    /// The eight bytes of the header on the wire.
    pub open spec fn wire(self) -> Seq<u8> {
        seq![self.version.spec_to_u8()] + seq![self.ttype.spec_to_u8()] + spec_u16_bytes(self.length)
            + spec_u32_bytes(self.xid)
    }

    /// Appends the wire form to `out`.
    pub fn encode(&self, out: &mut Vec<u8>)
        ensures
            final(out)@ == old(out)@ + self.wire(),
            final(out)@.len() == old(out)@.len() + 8,
    {
        out.push(self.version.to_u8());
        out.push(self.ttype.to_u8());
        put_u16(out, self.length);
        put_u32(out, self.xid);
        assert(out@ =~= old(out)@ + self.wire());
    }

    /// The wire form as a vector of its own.
    pub fn into_bytes(&self) -> (res: Vec<u8>)
        ensures
            res@ == self.wire(),
            res@.len() == 8,
    {
        let mut out: Vec<u8> = Vec::new();
        self.encode(&mut out);
        out
    }

    /// Every header is eight bytes on the wire, and the length of the body is
    /// the length of the message less those eight.
    pub proof fn lemma_lengths(self)
        ensures
            self.wire().len() == 8,
            self.spec_payload_length() == self.length - 8,
    {
    }

    /// Decoding the wire form of a well-formed header gives the header back.
    pub proof fn lemma_roundtrip(self)
        requires
            self.wf(),
        ensures
            Self::spec_try_from(self.wire()) == Ok::<Header, Error>(self),
    {
        let w = self.wire();
        self.version.lemma_wire_value();
        self.ttype.lemma_wire_value();
        assert(w[0] == self.version.spec_to_u8());
        assert(w[1] == self.ttype.spec_to_u8());
        assert(spec_u16_at(w, 2) == self.length) by {
            lemma_u16_at_bytes(w, 2, self.length);
        }
        assert(spec_u32_at(w, 4) == self.xid) by {
            lemma_u32_at_bytes(w, 4, self.xid);
        }
    }

    /// Encoding what a slice decodes to gives the slice back: a header has no
    /// padding.
    pub proof fn lemma_reencode(b: Seq<u8>)
        requires
            Self::spec_try_from(b) is Ok,
        ensures
            Self::spec_try_from(b)->Ok_0.wire() == b,
    {
        let h = Self::spec_try_from(b)->Ok_0;
        let version = Version::spec_decode(b[0])->Ok_0;
        version.lemma_wire_value();
        h.ttype.lemma_wire_value();
        assert(Version::spec_from_u8(b[0]) == Some(h.version));
        assert(Type::spec_from_u8(b[1]) == Some(h.ttype));
        lemma_u16_bytes_at(b, 2);
        lemma_u32_bytes_at(b, 4);
        let w = h.wire();
        assert(w =~= seq![b[0]] + seq![b[1]] + b.subrange(2, 4) + b.subrange(4, 8));
        assert(w =~= b);
    }
}

/// The body of a message, by type.
#[derive(Debug, PartialEq, Eq, Clone)]
pub enum OfPayload {
    /// Hello message, sent by switch and controller right after the connection is up.
    Hello,
    /// Error message.
    Error(Vec<u8>),
    /// Echo request.
    EchoRequest(Vec<u8>),
    /// Echo reply.
    EchoReply(Vec<u8>),
    /// Experimenter message.
    Experimenter(Vec<u8>),
    /// The controller asks for the features of the switch.
    FeaturesRequest,
    /// The features of the switch.
    FeaturesReply(SwitchFeatures),
    /// The controller asks for the configuration of the switch.
    GetConfigRequest,
    /// The configuration of the switch.
    GetConfigReply(SwitchConfig),
    /// The controller sets the configuration of the switch.
    SetConfig(SwitchConfig),
    /// A packet handed to the controller.
    PacketIn(PacketIn),
    /// A flow entry was removed.
    FlowRemoved(FlowRemoved),
    /// A port changed.
    PortStatus(PortStatus),
    /// A packet sent through the switch.
    PacketOut(PacketOut),
    /// A change of the flow table.
    FlowMod(FlowMod),
    /// A change of the group table.
    GroupMod(GroupMod),
    /// A change of a port.
    PortMod(PortMod),
    /// A change of a table.
    TableMod(TableMod),
    /// A multipart request.
    MultipartRequest(Vec<u8>),
    /// A multipart reply.
    MultipartReply(Vec<u8>),
    /// A barrier request.
    BarrierRequest,
    /// A barrier reply.
    BarrierReply,
    /// A query for the queues of a port.
    QueueGetConfigRequest(QueueGetConfigRequest),
    /// The queues of a port.
    QueueGetConfigReply(QueueGetConfigReply),
    /// A role request.
    RoleRequest(Role),
    /// A role reply.
    RoleReply(Role),
    /// A query for the asynchronous message configuration.
    GetAsyncRequest,
    /// The asynchronous message configuration.
    GetAsyncReply(Async),
    /// Sets the asynchronous message configuration.
    SetAsync(Async),
    /// A change of a meter.
    MeterMod(MeterMod),
}

/// The mathematical value of `OfPayload`.
pub enum OfPayloadView {
    /// Hello message, sent by switch and controller right after the connection is up.
    Hello,
    /// Error message.
    Error(Seq<u8>),
    /// Echo request.
    EchoRequest(Seq<u8>),
    /// Echo reply.
    EchoReply(Seq<u8>),
    /// Experimenter message.
    Experimenter(Seq<u8>),
    /// The controller asks for the features of the switch.
    FeaturesRequest,
    /// The features of the switch.
    FeaturesReply(SwitchFeatures),
    /// The controller asks for the configuration of the switch.
    GetConfigRequest,
    /// The configuration of the switch.
    GetConfigReply(SwitchConfig),
    /// The controller sets the configuration of the switch.
    SetConfig(SwitchConfig),
    /// A packet handed to the controller.
    PacketIn(PacketInView),
    /// A flow entry was removed.
    FlowRemoved(FlowRemovedView),
    /// A port changed.
    PortStatus(PortStatus),
    /// A packet sent through the switch.
    PacketOut(PacketOutView),
    /// A change of the flow table.
    FlowMod(FlowModView),
    /// A change of the group table.
    GroupMod(GroupModView),
    /// A change of a port.
    PortMod(PortMod),
    /// A change of a table.
    TableMod(TableMod),
    /// A multipart request.
    MultipartRequest(Seq<u8>),
    /// A multipart reply.
    MultipartReply(Seq<u8>),
    /// A barrier request.
    BarrierRequest,
    /// A barrier reply.
    BarrierReply,
    /// A query for the queues of a port.
    QueueGetConfigRequest(QueueGetConfigRequest),
    /// The queues of a port.
    QueueGetConfigReply(QueueGetConfigReplyView),
    /// A role request.
    RoleRequest(Role),
    /// A role reply.
    RoleReply(Role),
    /// A query for the asynchronous message configuration.
    GetAsyncRequest,
    /// The asynchronous message configuration.
    GetAsyncReply(Async),
    /// Sets the asynchronous message configuration.
    SetAsync(Async),
    /// A change of a meter.
    MeterMod(MeterModView),
}

impl View for OfPayload {
    type V = OfPayloadView;

    open spec fn view(&self) -> OfPayloadView {
        match self {
            OfPayload::Hello => OfPayloadView::Hello,
            OfPayload::Error(p) => OfPayloadView::Error(p@),
            OfPayload::EchoRequest(p) => OfPayloadView::EchoRequest(p@),
            OfPayload::EchoReply(p) => OfPayloadView::EchoReply(p@),
            OfPayload::Experimenter(p) => OfPayloadView::Experimenter(p@),
            OfPayload::FeaturesRequest => OfPayloadView::FeaturesRequest,
            OfPayload::FeaturesReply(p) => OfPayloadView::FeaturesReply(*p),
            OfPayload::GetConfigRequest => OfPayloadView::GetConfigRequest,
            OfPayload::GetConfigReply(p) => OfPayloadView::GetConfigReply(*p),
            OfPayload::SetConfig(p) => OfPayloadView::SetConfig(*p),
            OfPayload::PacketIn(p) => OfPayloadView::PacketIn(p@),
            OfPayload::FlowRemoved(p) => OfPayloadView::FlowRemoved(p@),
            OfPayload::PortStatus(p) => OfPayloadView::PortStatus(*p),
            OfPayload::PacketOut(p) => OfPayloadView::PacketOut(p@),
            OfPayload::FlowMod(p) => OfPayloadView::FlowMod(p@),
            OfPayload::GroupMod(p) => OfPayloadView::GroupMod(p@),
            OfPayload::PortMod(p) => OfPayloadView::PortMod(*p),
            OfPayload::TableMod(p) => OfPayloadView::TableMod(*p),
            OfPayload::MultipartRequest(p) => OfPayloadView::MultipartRequest(p@),
            OfPayload::MultipartReply(p) => OfPayloadView::MultipartReply(p@),
            OfPayload::BarrierRequest => OfPayloadView::BarrierRequest,
            OfPayload::BarrierReply => OfPayloadView::BarrierReply,
            OfPayload::QueueGetConfigRequest(p) => OfPayloadView::QueueGetConfigRequest(*p),
            OfPayload::QueueGetConfigReply(p) => OfPayloadView::QueueGetConfigReply(p@),
            OfPayload::RoleRequest(p) => OfPayloadView::RoleRequest(*p),
            OfPayload::RoleReply(p) => OfPayloadView::RoleReply(*p),
            OfPayload::GetAsyncRequest => OfPayloadView::GetAsyncRequest,
            OfPayload::GetAsyncReply(p) => OfPayloadView::GetAsyncReply(*p),
            OfPayload::SetAsync(p) => OfPayloadView::SetAsync(*p),
            OfPayload::MeterMod(p) => OfPayloadView::MeterMod(p@),
        }
    }
}

impl OfPayloadView {
    /// The type of the message that carries the body.
    pub open spec fn spec_ttype(self) -> Type {
        match self {
            OfPayloadView::Hello => Type::Hello,
            OfPayloadView::Error(_) => Type::Error,
            OfPayloadView::EchoRequest(_) => Type::EchoRequest,
            OfPayloadView::EchoReply(_) => Type::EchoReply,
            OfPayloadView::Experimenter(_) => Type::Experimenter,
            OfPayloadView::FeaturesRequest => Type::FeaturesRequest,
            OfPayloadView::FeaturesReply(_) => Type::FeaturesReply,
            OfPayloadView::GetConfigRequest => Type::GetConfigRequest,
            OfPayloadView::GetConfigReply(_) => Type::GetConfigReply,
            OfPayloadView::SetConfig(_) => Type::SetConfig,
            OfPayloadView::PacketIn(_) => Type::PacketIn,
            OfPayloadView::FlowRemoved(_) => Type::FlowRemoved,
            OfPayloadView::PortStatus(_) => Type::PortStatus,
            OfPayloadView::PacketOut(_) => Type::PacketOut,
            OfPayloadView::FlowMod(_) => Type::FlowMod,
            OfPayloadView::GroupMod(_) => Type::GroupMod,
            OfPayloadView::PortMod(_) => Type::PortMod,
            OfPayloadView::TableMod(_) => Type::TableMod,
            OfPayloadView::MultipartRequest(_) => Type::MultipartRequest,
            OfPayloadView::MultipartReply(_) => Type::MultipartReply,
            OfPayloadView::BarrierRequest => Type::BarrierRequest,
            OfPayloadView::BarrierReply => Type::BarrierReply,
            OfPayloadView::QueueGetConfigRequest(_) => Type::QueueGetConfigRequest,
            OfPayloadView::QueueGetConfigReply(_) => Type::QueueGetConfigReply,
            OfPayloadView::RoleRequest(_) => Type::RoleRequest,
            OfPayloadView::RoleReply(_) => Type::RoleReply,
            OfPayloadView::GetAsyncRequest => Type::GetAsyncRequest,
            OfPayloadView::GetAsyncReply(_) => Type::GetAsyncReply,
            OfPayloadView::SetAsync(_) => Type::SetAsync,
            OfPayloadView::MeterMod(_) => Type::MeterMod,
        }
    }

    /// The bytes of the body on the wire.
    pub open spec fn wire(self) -> Seq<u8> {
        match self {
            OfPayloadView::Hello => Seq::empty(),
            OfPayloadView::Error(p) => p,
            OfPayloadView::EchoRequest(p) => p,
            OfPayloadView::EchoReply(p) => p,
            OfPayloadView::Experimenter(p) => p,
            OfPayloadView::FeaturesRequest => Seq::empty(),
            OfPayloadView::FeaturesReply(p) => p.wire(),
            OfPayloadView::GetConfigRequest => Seq::empty(),
            OfPayloadView::GetConfigReply(p) => p.wire(),
            OfPayloadView::SetConfig(p) => p.wire(),
            OfPayloadView::PacketIn(p) => p.wire(),
            OfPayloadView::FlowRemoved(p) => p.wire(),
            OfPayloadView::PortStatus(p) => p.wire(),
            OfPayloadView::PacketOut(p) => p.wire(),
            OfPayloadView::FlowMod(p) => p.wire(),
            OfPayloadView::GroupMod(p) => p.wire(),
            OfPayloadView::PortMod(p) => p.wire(),
            OfPayloadView::TableMod(p) => p.wire(),
            OfPayloadView::MultipartRequest(p) => p,
            OfPayloadView::MultipartReply(p) => p,
            OfPayloadView::BarrierRequest => Seq::empty(),
            OfPayloadView::BarrierReply => Seq::empty(),
            OfPayloadView::QueueGetConfigRequest(p) => p.wire(),
            OfPayloadView::QueueGetConfigReply(p) => p.wire(),
            OfPayloadView::RoleRequest(p) => p.wire(),
            OfPayloadView::RoleReply(p) => p.wire(),
            OfPayloadView::GetAsyncRequest => Seq::empty(),
            OfPayloadView::GetAsyncReply(p) => p.wire(),
            OfPayloadView::SetAsync(p) => p.wire(),
            OfPayloadView::MeterMod(p) => p.wire(),
        }
    }

    /// The body holds what the wire format can carry. Opaque bodies and bodies
    /// without bytes always do.
    pub open spec fn wf(self) -> bool {
        match self {
            OfPayloadView::Hello => true,
            OfPayloadView::Error(_) => true,
            OfPayloadView::EchoRequest(_) => true,
            OfPayloadView::EchoReply(_) => true,
            OfPayloadView::Experimenter(_) => true,
            OfPayloadView::FeaturesRequest => true,
            OfPayloadView::FeaturesReply(p) => p.wf(),
            OfPayloadView::GetConfigRequest => true,
            OfPayloadView::GetConfigReply(p) => p.wf(),
            OfPayloadView::SetConfig(p) => p.wf(),
            OfPayloadView::PacketIn(p) => p.wf(),
            OfPayloadView::FlowRemoved(p) => p.wf(),
            OfPayloadView::PortStatus(p) => p.wf(),
            OfPayloadView::PacketOut(p) => p.wf(),
            OfPayloadView::FlowMod(p) => p.wf(),
            OfPayloadView::GroupMod(p) => p.wf(),
            OfPayloadView::PortMod(p) => p.wf(),
            OfPayloadView::TableMod(p) => p.wf(),
            OfPayloadView::MultipartRequest(_) => true,
            OfPayloadView::MultipartReply(_) => true,
            OfPayloadView::BarrierRequest => true,
            OfPayloadView::BarrierReply => true,
            OfPayloadView::QueueGetConfigRequest(p) => p.wf(),
            OfPayloadView::QueueGetConfigReply(p) => p.wf(),
            OfPayloadView::RoleRequest(p) => p.wf(),
            OfPayloadView::RoleReply(p) => p.wf(),
            OfPayloadView::GetAsyncRequest => true,
            OfPayloadView::GetAsyncReply(p) => p.wf(),
            OfPayloadView::SetAsync(p) => p.wf(),
            OfPayloadView::MeterMod(p) => p.wf(),
        }
    }

    /// Decoding the bytes of a body as one of its own type gives it back.
    #[verifier::rlimit(100)]
    pub proof fn lemma_roundtrip(self)
        requires
            self.wf(),
        ensures
            OfPayload::spec_decode(self.spec_ttype(), self.wire()) == Ok::<OfPayloadView, Error>(self),
    {
        match self {
            OfPayloadView::Hello => {},
            OfPayloadView::Error(_) => {},
            OfPayloadView::EchoRequest(_) => {},
            OfPayloadView::EchoReply(_) => {},
            OfPayloadView::Experimenter(_) => {},
            OfPayloadView::FeaturesRequest => {},
            OfPayloadView::FeaturesReply(p) => p.lemma_roundtrip(),
            OfPayloadView::GetConfigRequest => {},
            OfPayloadView::GetConfigReply(p) => p.lemma_roundtrip(),
            OfPayloadView::SetConfig(p) => p.lemma_roundtrip(),
            OfPayloadView::PacketIn(p) => p.lemma_roundtrip(),
            OfPayloadView::FlowRemoved(p) => p.lemma_roundtrip(),
            OfPayloadView::PortStatus(p) => p.lemma_roundtrip(),
            OfPayloadView::PacketOut(p) => p.lemma_roundtrip(),
            OfPayloadView::FlowMod(p) => p.lemma_roundtrip(),
            OfPayloadView::GroupMod(p) => p.lemma_roundtrip(),
            OfPayloadView::PortMod(p) => p.lemma_roundtrip(),
            OfPayloadView::TableMod(p) => p.lemma_roundtrip(),
            OfPayloadView::MultipartRequest(_) => {},
            OfPayloadView::MultipartReply(_) => {},
            OfPayloadView::BarrierRequest => {},
            OfPayloadView::BarrierReply => {},
            OfPayloadView::QueueGetConfigRequest(p) => p.lemma_roundtrip(),
            OfPayloadView::QueueGetConfigReply(p) => p.lemma_roundtrip(),
            OfPayloadView::RoleRequest(p) => p.lemma_roundtrip(),
            OfPayloadView::RoleReply(p) => p.lemma_roundtrip(),
            OfPayloadView::GetAsyncRequest => {},
            OfPayloadView::GetAsyncReply(p) => p.lemma_roundtrip(),
            OfPayloadView::SetAsync(p) => p.lemma_roundtrip(),
            OfPayloadView::MeterMod(p) => p.lemma_roundtrip(),
        }
    }
}

impl OfPayload {
    /// The type of the message that carries the body.
    pub fn ttype(&self) -> (r: Type)
        ensures
            r == self@.spec_ttype(),
    {
        match self {
            OfPayload::Hello => Type::Hello,
            OfPayload::Error(_) => Type::Error,
            OfPayload::EchoRequest(_) => Type::EchoRequest,
            OfPayload::EchoReply(_) => Type::EchoReply,
            OfPayload::Experimenter(_) => Type::Experimenter,
            OfPayload::FeaturesRequest => Type::FeaturesRequest,
            OfPayload::FeaturesReply(_) => Type::FeaturesReply,
            OfPayload::GetConfigRequest => Type::GetConfigRequest,
            OfPayload::GetConfigReply(_) => Type::GetConfigReply,
            OfPayload::SetConfig(_) => Type::SetConfig,
            OfPayload::PacketIn(_) => Type::PacketIn,
            OfPayload::FlowRemoved(_) => Type::FlowRemoved,
            OfPayload::PortStatus(_) => Type::PortStatus,
            OfPayload::PacketOut(_) => Type::PacketOut,
            OfPayload::FlowMod(_) => Type::FlowMod,
            OfPayload::GroupMod(_) => Type::GroupMod,
            OfPayload::PortMod(_) => Type::PortMod,
            OfPayload::TableMod(_) => Type::TableMod,
            OfPayload::MultipartRequest(_) => Type::MultipartRequest,
            OfPayload::MultipartReply(_) => Type::MultipartReply,
            OfPayload::BarrierRequest => Type::BarrierRequest,
            OfPayload::BarrierReply => Type::BarrierReply,
            OfPayload::QueueGetConfigRequest(_) => Type::QueueGetConfigRequest,
            OfPayload::QueueGetConfigReply(_) => Type::QueueGetConfigReply,
            OfPayload::RoleRequest(_) => Type::RoleRequest,
            OfPayload::RoleReply(_) => Type::RoleReply,
            OfPayload::GetAsyncRequest => Type::GetAsyncRequest,
            OfPayload::GetAsyncReply(_) => Type::GetAsyncReply,
            OfPayload::SetAsync(_) => Type::SetAsync,
            OfPayload::MeterMod(_) => Type::MeterMod,
        }
    }

    /// What `b` decodes to as the body of a message of type `ttype`. A type
    /// without a body wants no bytes; opaque bodies are kept as they are; every
    /// other body must fill `b`.
    pub open spec fn spec_decode(ttype: Type, b: Seq<u8>) -> Result<OfPayloadView, Error> {
        match ttype {
            Type::Hello => if b.len() != 0 {
                Err(Error::InvalidSliceLength(0, b.len() as usize, "Hello"))
            } else {
                Ok(OfPayloadView::Hello)
            },
            Type::Error => Ok(OfPayloadView::Error(b)),
            Type::EchoRequest => Ok(OfPayloadView::EchoRequest(b)),
            Type::EchoReply => Ok(OfPayloadView::EchoReply(b)),
            Type::Experimenter => Ok(OfPayloadView::Experimenter(b)),
            Type::FeaturesRequest => if b.len() != 0 {
                Err(Error::InvalidSliceLength(0, b.len() as usize, "FeaturesRequest"))
            } else {
                Ok(OfPayloadView::FeaturesRequest)
            },
            Type::FeaturesReply => match SwitchFeatures::spec_try_from(b) {
                Ok(p) => Ok(OfPayloadView::FeaturesReply(p)),
                Err(e) => Err(e),
            },
            Type::GetConfigRequest => if b.len() != 0 {
                Err(Error::InvalidSliceLength(0, b.len() as usize, "GetConfigRequest"))
            } else {
                Ok(OfPayloadView::GetConfigRequest)
            },
            Type::GetConfigReply => match SwitchConfig::spec_try_from(b) {
                Ok(p) => Ok(OfPayloadView::GetConfigReply(p)),
                Err(e) => Err(e),
            },
            Type::SetConfig => match SwitchConfig::spec_try_from(b) {
                Ok(p) => Ok(OfPayloadView::SetConfig(p)),
                Err(e) => Err(e),
            },
            Type::PacketIn => match PacketIn::spec_try_from(b) {
                Ok(p) => Ok(OfPayloadView::PacketIn(p)),
                Err(e) => Err(e),
            },
            Type::FlowRemoved => match FlowRemoved::spec_try_from(b) {
                Ok(p) => Ok(OfPayloadView::FlowRemoved(p)),
                Err(e) => Err(e),
            },
            Type::PortStatus => match PortStatus::spec_try_from(b) {
                Ok(p) => Ok(OfPayloadView::PortStatus(p)),
                Err(e) => Err(e),
            },
            Type::PacketOut => match PacketOut::spec_try_from(b) {
                Ok(p) => Ok(OfPayloadView::PacketOut(p)),
                Err(e) => Err(e),
            },
            Type::FlowMod => match FlowMod::spec_try_from(b) {
                Ok(p) => Ok(OfPayloadView::FlowMod(p)),
                Err(e) => Err(e),
            },
            Type::GroupMod => match GroupMod::spec_try_from(b) {
                Ok(p) => Ok(OfPayloadView::GroupMod(p)),
                Err(e) => Err(e),
            },
            Type::PortMod => match PortMod::spec_try_from(b) {
                Ok(p) => Ok(OfPayloadView::PortMod(p)),
                Err(e) => Err(e),
            },
            Type::TableMod => match TableMod::spec_try_from(b) {
                Ok(p) => Ok(OfPayloadView::TableMod(p)),
                Err(e) => Err(e),
            },
            Type::MultipartRequest => Ok(OfPayloadView::MultipartRequest(b)),
            Type::MultipartReply => Ok(OfPayloadView::MultipartReply(b)),
            Type::BarrierRequest => if b.len() != 0 {
                Err(Error::InvalidSliceLength(0, b.len() as usize, "BarrierRequest"))
            } else {
                Ok(OfPayloadView::BarrierRequest)
            },
            Type::BarrierReply => if b.len() != 0 {
                Err(Error::InvalidSliceLength(0, b.len() as usize, "BarrierReply"))
            } else {
                Ok(OfPayloadView::BarrierReply)
            },
            Type::QueueGetConfigRequest => match QueueGetConfigRequest::spec_try_from(b) {
                Ok(p) => Ok(OfPayloadView::QueueGetConfigRequest(p)),
                Err(e) => Err(e),
            },
            Type::QueueGetConfigReply => match QueueGetConfigReply::spec_try_from(b) {
                Ok(p) => Ok(OfPayloadView::QueueGetConfigReply(p)),
                Err(e) => Err(e),
            },
            Type::RoleRequest => match Role::spec_try_from(b) {
                Ok(p) => Ok(OfPayloadView::RoleRequest(p)),
                Err(e) => Err(e),
            },
            Type::RoleReply => match Role::spec_try_from(b) {
                Ok(p) => Ok(OfPayloadView::RoleReply(p)),
                Err(e) => Err(e),
            },
            Type::GetAsyncRequest => if b.len() != 0 {
                Err(Error::InvalidSliceLength(0, b.len() as usize, "GetAsyncRequest"))
            } else {
                Ok(OfPayloadView::GetAsyncRequest)
            },
            Type::GetAsyncReply => match Async::spec_try_from(b) {
                Ok(p) => Ok(OfPayloadView::GetAsyncReply(p)),
                Err(e) => Err(e),
            },
            Type::SetAsync => match Async::spec_try_from(b) {
                Ok(p) => Ok(OfPayloadView::SetAsync(p)),
                Err(e) => Err(e),
            },
            Type::MeterMod => match MeterMod::spec_try_from(b) {
                Ok(p) => Ok(OfPayloadView::MeterMod(p)),
                Err(e) => Err(e),
            },
        }
    }

    /// Decodes `bytes` as the body of a message of type `ttype`.
    #[verifier::rlimit(100)]
    pub fn decode(ttype: Type, bytes: &[u8]) -> (res: Result<OfPayload, Error>)
        ensures
            match res {
                Ok(p) => Self::spec_decode(ttype, bytes@) == Ok::<OfPayloadView, Error>(p@),
                Err(e) => Self::spec_decode(ttype, bytes@) == Err::<OfPayloadView, Error>(e),
            },
    {
        match ttype {
            Type::Hello => if bytes.len() != 0 {
                Err(Error::InvalidSliceLength(0, bytes.len(), "Hello"))
            } else {
                Ok(OfPayload::Hello)
            },
            Type::Error => Ok(OfPayload::Error(slice_to_vec(bytes))),
            Type::EchoRequest => Ok(OfPayload::EchoRequest(slice_to_vec(bytes))),
            Type::EchoReply => Ok(OfPayload::EchoReply(slice_to_vec(bytes))),
            Type::Experimenter => Ok(OfPayload::Experimenter(slice_to_vec(bytes))),
            Type::FeaturesRequest => if bytes.len() != 0 {
                Err(Error::InvalidSliceLength(0, bytes.len(), "FeaturesRequest"))
            } else {
                Ok(OfPayload::FeaturesRequest)
            },
            Type::FeaturesReply => match SwitchFeatures::try_from(bytes) {
                Ok(p) => Ok(OfPayload::FeaturesReply(p)),
                Err(e) => Err(e),
            },
            Type::GetConfigRequest => if bytes.len() != 0 {
                Err(Error::InvalidSliceLength(0, bytes.len(), "GetConfigRequest"))
            } else {
                Ok(OfPayload::GetConfigRequest)
            },
            Type::GetConfigReply => match SwitchConfig::try_from(bytes) {
                Ok(p) => Ok(OfPayload::GetConfigReply(p)),
                Err(e) => Err(e),
            },
            Type::SetConfig => match SwitchConfig::try_from(bytes) {
                Ok(p) => Ok(OfPayload::SetConfig(p)),
                Err(e) => Err(e),
            },
            Type::PacketIn => match PacketIn::try_from(bytes) {
                Ok(p) => Ok(OfPayload::PacketIn(p)),
                Err(e) => Err(e),
            },
            Type::FlowRemoved => match FlowRemoved::try_from(bytes) {
                Ok(p) => Ok(OfPayload::FlowRemoved(p)),
                Err(e) => Err(e),
            },
            Type::PortStatus => match PortStatus::try_from(bytes) {
                Ok(p) => Ok(OfPayload::PortStatus(p)),
                Err(e) => Err(e),
            },
            Type::PacketOut => match PacketOut::try_from(bytes) {
                Ok(p) => Ok(OfPayload::PacketOut(p)),
                Err(e) => Err(e),
            },
            Type::FlowMod => match FlowMod::try_from(bytes) {
                Ok(p) => Ok(OfPayload::FlowMod(p)),
                Err(e) => Err(e),
            },
            Type::GroupMod => match GroupMod::try_from(bytes) {
                Ok(p) => Ok(OfPayload::GroupMod(p)),
                Err(e) => Err(e),
            },
            Type::PortMod => match PortMod::try_from(bytes) {
                Ok(p) => Ok(OfPayload::PortMod(p)),
                Err(e) => Err(e),
            },
            Type::TableMod => match TableMod::try_from(bytes) {
                Ok(p) => Ok(OfPayload::TableMod(p)),
                Err(e) => Err(e),
            },
            Type::MultipartRequest => Ok(OfPayload::MultipartRequest(slice_to_vec(bytes))),
            Type::MultipartReply => Ok(OfPayload::MultipartReply(slice_to_vec(bytes))),
            Type::BarrierRequest => if bytes.len() != 0 {
                Err(Error::InvalidSliceLength(0, bytes.len(), "BarrierRequest"))
            } else {
                Ok(OfPayload::BarrierRequest)
            },
            Type::BarrierReply => if bytes.len() != 0 {
                Err(Error::InvalidSliceLength(0, bytes.len(), "BarrierReply"))
            } else {
                Ok(OfPayload::BarrierReply)
            },
            Type::QueueGetConfigRequest => match QueueGetConfigRequest::try_from(bytes) {
                Ok(p) => Ok(OfPayload::QueueGetConfigRequest(p)),
                Err(e) => Err(e),
            },
            Type::QueueGetConfigReply => match QueueGetConfigReply::try_from(bytes) {
                Ok(p) => Ok(OfPayload::QueueGetConfigReply(p)),
                Err(e) => Err(e),
            },
            Type::RoleRequest => match Role::try_from(bytes) {
                Ok(p) => Ok(OfPayload::RoleRequest(p)),
                Err(e) => Err(e),
            },
            Type::RoleReply => match Role::try_from(bytes) {
                Ok(p) => Ok(OfPayload::RoleReply(p)),
                Err(e) => Err(e),
            },
            Type::GetAsyncRequest => if bytes.len() != 0 {
                Err(Error::InvalidSliceLength(0, bytes.len(), "GetAsyncRequest"))
            } else {
                Ok(OfPayload::GetAsyncRequest)
            },
            Type::GetAsyncReply => match Async::try_from(bytes) {
                Ok(p) => Ok(OfPayload::GetAsyncReply(p)),
                Err(e) => Err(e),
            },
            Type::SetAsync => match Async::try_from(bytes) {
                Ok(p) => Ok(OfPayload::SetAsync(p)),
                Err(e) => Err(e),
            },
            Type::MeterMod => match MeterMod::try_from(bytes) {
                Ok(p) => Ok(OfPayload::MeterMod(p)),
                Err(e) => Err(e),
            },
        }
    }

    /// Appends the bytes of the body to `out`.
    pub fn encode(&self, out: &mut Vec<u8>)
        ensures
            final(out)@ == old(out)@ + self@.wire(),
    {
        match self {
            OfPayload::Hello => {
                assert(out@ =~= old(out)@ + self@.wire());
            },
            OfPayload::Error(p) => put_bytes(out, p.as_slice()),
            OfPayload::EchoRequest(p) => put_bytes(out, p.as_slice()),
            OfPayload::EchoReply(p) => put_bytes(out, p.as_slice()),
            OfPayload::Experimenter(p) => put_bytes(out, p.as_slice()),
            OfPayload::FeaturesRequest => {
                assert(out@ =~= old(out)@ + self@.wire());
            },
            OfPayload::FeaturesReply(p) => p.encode(out),
            OfPayload::GetConfigRequest => {
                assert(out@ =~= old(out)@ + self@.wire());
            },
            OfPayload::GetConfigReply(p) => p.encode(out),
            OfPayload::SetConfig(p) => p.encode(out),
            OfPayload::PacketIn(p) => p.encode(out),
            OfPayload::FlowRemoved(p) => p.encode(out),
            OfPayload::PortStatus(p) => p.encode(out),
            OfPayload::PacketOut(p) => p.encode(out),
            OfPayload::FlowMod(p) => p.encode(out),
            OfPayload::GroupMod(p) => p.encode(out),
            OfPayload::PortMod(p) => p.encode(out),
            OfPayload::TableMod(p) => p.encode(out),
            OfPayload::MultipartRequest(p) => put_bytes(out, p.as_slice()),
            OfPayload::MultipartReply(p) => put_bytes(out, p.as_slice()),
            OfPayload::BarrierRequest => {
                assert(out@ =~= old(out)@ + self@.wire());
            },
            OfPayload::BarrierReply => {
                assert(out@ =~= old(out)@ + self@.wire());
            },
            OfPayload::QueueGetConfigRequest(p) => p.encode(out),
            OfPayload::QueueGetConfigReply(p) => p.encode(out),
            OfPayload::RoleRequest(p) => p.encode(out),
            OfPayload::RoleReply(p) => p.encode(out),
            OfPayload::GetAsyncRequest => {
                assert(out@ =~= old(out)@ + self@.wire());
            },
            OfPayload::GetAsyncReply(p) => p.encode(out),
            OfPayload::SetAsync(p) => p.encode(out),
            OfPayload::MeterMod(p) => p.encode(out),
        }
    }

    /// The bytes of the body as a vector of their own.
    pub fn into_bytes(&self) -> (res: Vec<u8>)
        ensures
            res@ == self@.wire(),
    {
        let mut out: Vec<u8> = Vec::new();
        self.encode(&mut out);
        out
    }

    /// What decodes as the body of a message of a type holds what the wire format
    /// can carry, is of that type, and is as long on the wire as the slice.
    #[verifier::rlimit(100)]
    pub proof fn lemma_decoded(ttype: Type, b: Seq<u8>)
        requires
            Self::spec_decode(ttype, b) is Ok,
        ensures
            Self::spec_decode(ttype, b)->Ok_0.wf(),
            Self::spec_decode(ttype, b)->Ok_0.wire().len() == b.len(),
            Self::spec_decode(ttype, b)->Ok_0.spec_ttype() == ttype,
    {
        match ttype {
            Type::Hello => {},
            Type::Error => {},
            Type::EchoRequest => {},
            Type::EchoReply => {},
            Type::Experimenter => {},
            Type::FeaturesRequest => {},
            Type::FeaturesReply => SwitchFeatures::lemma_decoded(b),
            Type::GetConfigRequest => {},
            Type::GetConfigReply => SwitchConfig::lemma_decoded(b),
            Type::SetConfig => SwitchConfig::lemma_decoded(b),
            Type::PacketIn => PacketIn::lemma_decoded(b),
            Type::FlowRemoved => FlowRemoved::lemma_decoded(b),
            Type::PortStatus => PortStatus::lemma_decoded(b),
            Type::PacketOut => PacketOut::lemma_decoded(b),
            Type::FlowMod => FlowMod::lemma_decoded(b),
            Type::GroupMod => GroupMod::lemma_decoded(b),
            Type::PortMod => PortMod::lemma_decoded(b),
            Type::TableMod => TableMod::lemma_decoded(b),
            Type::MultipartRequest => {},
            Type::MultipartReply => {},
            Type::BarrierRequest => {},
            Type::BarrierReply => {},
            Type::QueueGetConfigRequest => QueueGetConfigRequest::lemma_decoded(b),
            Type::QueueGetConfigReply => QueueGetConfigReply::lemma_decoded(b),
            Type::RoleRequest => Role::lemma_decoded(b),
            Type::RoleReply => Role::lemma_decoded(b),
            Type::GetAsyncRequest => {},
            Type::GetAsyncReply => Async::lemma_decoded(b),
            Type::SetAsync => Async::lemma_decoded(b),
            Type::MeterMod => MeterMod::lemma_decoded(b),
        }
    }

    /// The header of a message that carries this body: version 1.3, the
    /// type of the body, the length of header and body together, and `xid`.
    pub open spec fn spec_generate_header(v: OfPayloadView, xid: u32) -> Header {
        Header {
            version: Version::V1_3,
            ttype: v.spec_ttype(),
            length: (8 + v.wire().len()) as u16,
            xid,
        }
    }

    /// The header of a message that carries this body, or `None` where header
    /// and body together are longer than the length field can say.
    pub fn try_generate_header(&self, xid: u32) -> (res: Option<Header>)
        ensures
            res is None <==> 8 + self@.wire().len() > 0xffff,
            res matches Some(h) ==> h == Self::spec_generate_header(self@, xid) && h.wf(),
    {
        let body = self.into_bytes();
        if body.len() > 0xffff - HEADER_LENGTH {
            return None;
        }
        Some(
            Header {
                version: Version::V1_3,
                ttype: self.ttype(),
                length: (body.len() + HEADER_LENGTH) as u16,
                xid,
            },
        )
    }

    /// The header of a message that carries this body.
    pub fn generate_header(&self, xid: u32) -> (res: Header)
        requires
            8 + self@.wire().len() <= 0xffff,
        ensures
            res == Self::spec_generate_header(self@, xid),
            res.wf(),
            res.length == 8 + self@.wire().len(),
    {
        let body = self.into_bytes();
        Header {
            version: Version::V1_3,
            ttype: self.ttype(),
            length: (body.len() + HEADER_LENGTH) as u16,
            xid,
        }
    }
}

/// An OpenFlow message: header and body.
#[derive(Debug, PartialEq, Eq, Clone)]
pub struct OfMsg {
    /// The header.
    pub header: Header,
    /// The body.
    pub payload: OfPayload,
}

/// The mathematical value of `OfMsg`.
pub struct OfMsgView {
    /// The header.
    pub header: Header,
    /// The body.
    pub payload: OfPayloadView,
}

impl View for OfMsg {
    type V = OfMsgView;

    open spec fn view(&self) -> OfMsgView {
        OfMsgView { header: self.header, payload: self.payload@ }
    }
}

impl OfMsgView {
    /// The header is well-formed, names the type of the body and gives the
    /// length of header and body together.
    pub open spec fn wf(self) -> bool {
        &&& self.header.wf()
        &&& self.header.ttype == self.payload.spec_ttype()
        &&& self.header.length == 8 + self.payload.wire().len()
    }

    /// The message on the wire: the header, then the body.
    pub open spec fn wire(self) -> Seq<u8> {
        self.header.wire() + self.payload.wire()
    }

    /// A message that is well-formed, with a body that the wire format can
    /// carry, is as long on the wire as its header says, and decoding its wire
    /// form gives the message back.
    pub proof fn lemma_roundtrip(self)
        requires
            self.wf(),
            self.payload.wf(),
        ensures
            self.wire().len() == self.header.length,
            OfMsg::spec_try_from(self.wire()) == Ok::<OfMsgView, Error>(self),
    {
        self.header.lemma_roundtrip();
        self.header.lemma_lengths();
        self.payload.lemma_roundtrip();
        let w = self.wire();
        assert(w.subrange(0, 8) =~= self.header.wire());
        assert(w.subrange(8, w.len() as int) =~= self.payload.wire());
    }
}

impl OfMsg {
    /// The message of a header and a body.
    pub fn new(header: Header, payload: OfPayload) -> (res: OfMsg)
        ensures
            res.header == header,
            res.payload == payload,
    {
        OfMsg { header, payload }
    }

    /// The message that carries `payload` under the transaction id `xid`,
    /// with the header that fits the body.
    pub fn generate(xid: u32, payload: OfPayload) -> (res: OfMsg)
        requires
            8 + payload@.wire().len() <= 0xffff,
        ensures
            res.payload == payload,
            res.header == OfPayload::spec_generate_header(payload@, xid),
            res@.wf(),
    {
        OfMsg { header: payload.generate_header(xid), payload }
    }

    /// The message that carries `payload` under the transaction id `xid`, or
    /// `None` where the body is too long for one message.
    pub fn try_generate(xid: u32, payload: OfPayload) -> (res: Option<OfMsg>)
        ensures
            res is None <==> 8 + payload@.wire().len() > 0xffff,
            res matches Some(m) ==> m.payload == payload && m.header
                == OfPayload::spec_generate_header(payload@, xid) && m@.wf(),
    {
        match payload.try_generate_header(xid) {
            Some(header) => Some(OfMsg { header, payload }),
            None => None,
        }
    }

    /// The header.
    pub fn header(&self) -> (r: &Header)
        ensures
            *r == self.header,
    {
        &self.header
    }

    /// The body.
    pub fn payload(&self) -> (r: &OfPayload)
        ensures
            *r == self.payload,
    {
        &self.payload
    }

    /// What the body of a message decodes to, given its header: the bytes
    /// must be exactly as many as the header announces, and decode as a body of
    /// the type that the header names.
    pub open spec fn spec_decode_payload(
        header: Header,
        b: Seq<u8>,
    ) -> Result<OfPayloadView, Error> {
        if b.len() != header.spec_payload_length() {
            Err(
                Error::InvalidSliceLength(
                    header.spec_payload_length() as usize,
                    b.len() as usize,
                    "OfPayload",
                ),
            )
        } else {
            OfPayload::spec_decode(header.ttype, b)
        }
    }

    /// Decodes the body of a message whose header was decoded already.
    pub fn decode_payload(header: &Header, bytes: &[u8]) -> (res: Result<OfPayload, Error>)
        requires
            header.length >= 8,
        ensures
            match res {
                Ok(p) => Self::spec_decode_payload(*header, bytes@) == Ok::<OfPayloadView, Error>(
                    p@,
                ),
                Err(e) => Self::spec_decode_payload(*header, bytes@) == Err::<OfPayloadView, Error>(
                    e,
                ),
            },
    {
        let want: usize = header.payload_length() as usize;
        if bytes.len() != want {
            return Err(Error::InvalidSliceLength(want, bytes.len(), "OfPayload"));
        }
        OfPayload::decode(header.ttype, bytes)
    }

    /// What a whole message decodes to: its first eight bytes as the header,
    /// the rest as the body that the header announces.
    pub open spec fn spec_try_from(b: Seq<u8>) -> Result<OfMsgView, Error> {
        if b.len() < 8 {
            Err(Error::InvalidSliceLength(8, b.len() as usize, "OfMsg"))
        } else {
            match Header::spec_try_from(b.subrange(0, 8)) {
                Err(e) => Err(e),
                Ok(header) => match Self::spec_decode_payload(header, b.subrange(8, b.len() as int)) {
                    Err(e) => Err(e),
                    Ok(payload) => Ok(OfMsgView { header, payload }),
                },
            }
        }
    }

    /// Decodes a whole message.
    pub fn try_from(bytes: &[u8]) -> (res: Result<OfMsg, Error>)
        ensures
            match res {
                Ok(m) => Self::spec_try_from(bytes@) == Ok::<OfMsgView, Error>(m@),
                Err(e) => Self::spec_try_from(bytes@) == Err::<OfMsgView, Error>(e),
            },
    {
        if bytes.len() < HEADER_LENGTH {
            return Err(Error::InvalidSliceLength(HEADER_LENGTH, bytes.len(), "OfMsg"));
        }
        let header = match Header::try_from(slice_subrange(bytes, 0, HEADER_LENGTH)) {
            Ok(h) => h,
            Err(e) => return Err(e),
        };
        match Self::decode_payload(&header, slice_subrange(bytes, HEADER_LENGTH, bytes.len())) {
            Ok(payload) => Ok(OfMsg { header, payload }),
            Err(e) => Err(e),
        }
    }

    /// Appends the wire form to `out`.
    pub fn encode(&self, out: &mut Vec<u8>)
        ensures
            final(out)@ == old(out)@ + self@.wire(),
            self@.wf() ==> final(out)@.len() == old(out)@.len() + self.header.length,
    {
        self.header.encode(out);
        self.payload.encode(out);
        assert(out@ =~= old(out)@ + self@.wire());
    }

    /// The message on the wire. Where the message is well-formed, the
    /// bytes are as many as its header says.
    pub fn into_bytes(&self) -> (res: Vec<u8>)
        ensures
            res@ == self@.wire(),
            self@.wf() ==> res@.len() == self.header.length,
    {
        let mut out: Vec<u8> = Vec::new();
        self.encode(&mut out);
        out
    }

    /// What a slice decodes to is a well-formed message with a body that the
    /// wire format can carry, as long on the wire as the slice.
    pub proof fn lemma_decoded(b: Seq<u8>)
        requires
            Self::spec_try_from(b) is Ok,
        ensures
            Self::spec_try_from(b)->Ok_0.wf(),
            Self::spec_try_from(b)->Ok_0.payload.wf(),
            Self::spec_try_from(b)->Ok_0.wire().len() == b.len(),
    {
        let header = Header::spec_try_from(b.subrange(0, 8))->Ok_0;
        header.lemma_lengths();
        OfPayload::lemma_decoded(header.ttype, b.subrange(8, b.len() as int));
    }

    /// Encoding what a byte sequence decodes to gives as many bytes as the
    /// sequence has, and these decode to the same message: only padding can
    /// differ.
    pub proof fn lemma_reencode(b: Seq<u8>)
        requires
            Self::spec_try_from(b) is Ok,
        ensures
            Self::spec_try_from(b)->Ok_0.wire().len() == b.len(),
            Self::spec_try_from(Self::spec_try_from(b)->Ok_0.wire()) == Self::spec_try_from(b),
    {
        Self::lemma_decoded(b);
        Self::spec_try_from(b)->Ok_0.lemma_roundtrip();
    }
}

} // verus!
