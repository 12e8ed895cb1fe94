//! The flow match: OXM TLVs, the values of their fields, and the match that
//! holds them.

use crate::err::Error;
use crate::ds::hw_addr::{spec_eth, spec_v4, spec_v6};
use crate::ds::ports::PortNumber;
use crate::wire::{
    get_u16, get_u32, get_u64, lemma_u16_at_bytes, lemma_u32_at_bytes, lemma_u64_at_bytes,
    put_bytes, put_u16, put_u32, put_u64, put_zeros, spec_u16_at, spec_u16_bytes, spec_u32_at,
    spec_u32_bytes, spec_u64_at, spec_u64_bytes, zeros, spec_pad_len, pad_len, lemma_u16_bytes_at,
    lemma_u32_bytes_at, lemma_u64_bytes_at, spec_widen_u8, widen_u8, spec_len,
};
use vstd::array::array_as_slice;
use vstd::prelude::*;
use vstd::slice::slice_subrange;

verus! {

/// Length of the head of a match: type, length and four bytes of padding. It is
/// also the length of the smallest match block, the match without TLVs.
pub const MATCH_LENGTH: usize = 8;

/// The type of a match. Only `Standard` is decoded.
#[derive(Debug, PartialEq, Eq, Clone, Copy)]
pub enum MatchType {
    Standard,
    OXM,
}

impl MatchType {
    /// The variant whose wire value is `raw`, if there is one.
    pub open spec fn spec_from_u16(raw: u16) -> Option<MatchType> {
        match raw {
            0 => Some(MatchType::Standard),
            1 => Some(MatchType::OXM),
            _ => None,
        }
    }

    /// The variant whose wire value is `raw`, if there is one.
    pub fn from_u16(raw: u16) -> (res: Option<MatchType>)
        ensures
            res == Self::spec_from_u16(raw),
    {
        match raw {
            0 => Some(MatchType::Standard),
            1 => Some(MatchType::OXM),
            _ => None,
        }
    }

    /// The wire value of the variant.
    pub open spec fn spec_to_u16(self) -> u16 {
        match self {
            MatchType::Standard => 0,
            MatchType::OXM => 1,
        }
    }

    /// The wire value of the variant.
    pub fn to_u16(&self) -> (r: u16)
        ensures
            r == self.spec_to_u16(),
    {
        match self {
            MatchType::Standard => 0,
            MatchType::OXM => 1,
        }
    }

    /// What decoding `raw` gives: its variant, or `UnknownEnum` with the value.
    pub open spec fn spec_decode(raw: u16) -> Result<MatchType, Error> {
        match Self::spec_from_u16(raw) {
            Some(v) => Ok(v),
            None => Err(Error::UnknownEnum(raw as u64, "MatchType")),
        }
    }

    /// Decodes a wire value; an unknown one is an `UnknownEnum` error.
    pub fn decode(raw: u16) -> (res: Result<MatchType, Error>)
        ensures
            res == Self::spec_decode(raw),
    {
        match Self::from_u16(raw) {
            Some(v) => Ok(v),
            None => Err(Error::UnknownEnum(raw as u64, "MatchType")),
        }
    }

    /// Every variant is what its own wire value decodes to, and only that
    /// value decodes to it.
    pub proof fn lemma_wire_value(self)
        ensures
            Self::spec_decode(self.spec_to_u16()) == Ok::<MatchType, Error>(self),
            forall|raw: u16| Self::spec_from_u16(raw) == Some(self) ==> raw == self.spec_to_u16(),
    {
    }
}

/// OXM class ids. Only `XmcOpenFlowBasic` is decoded.
#[derive(Debug, PartialEq, Eq, Clone, Copy)]
pub enum OxmClass {
    XmcNxm0,
    XmcNxm1,
    XmcOpenFlowBasic,
    XmcExperimenter,
}

impl OxmClass {
    /// The variant whose wire value is `raw`, if there is one.
    pub open spec fn spec_from_u32(raw: u32) -> Option<OxmClass> {
        match raw {
            0x0000 => Some(OxmClass::XmcNxm0),
            0x0001 => Some(OxmClass::XmcNxm1),
            0x8000 => Some(OxmClass::XmcOpenFlowBasic),
            0xFFFF => Some(OxmClass::XmcExperimenter),
            _ => None,
        }
    }

    /// The variant whose wire value is `raw`, if there is one.
    pub fn from_u32(raw: u32) -> (res: Option<OxmClass>)
        ensures
            res == Self::spec_from_u32(raw),
    {
        match raw {
            0x0000 => Some(OxmClass::XmcNxm0),
            0x0001 => Some(OxmClass::XmcNxm1),
            0x8000 => Some(OxmClass::XmcOpenFlowBasic),
            0xFFFF => Some(OxmClass::XmcExperimenter),
            _ => None,
        }
    }

    /// The wire value of the variant.
    pub open spec fn spec_to_u32(self) -> u32 {
        match self {
            OxmClass::XmcNxm0 => 0x0000,
            OxmClass::XmcNxm1 => 0x0001,
            OxmClass::XmcOpenFlowBasic => 0x8000,
            OxmClass::XmcExperimenter => 0xFFFF,
        }
    }

    /// The wire value of the variant.
    pub fn to_u32(&self) -> (r: u32)
        ensures
            r == self.spec_to_u32(),
    {
        match self {
            OxmClass::XmcNxm0 => 0x0000,
            OxmClass::XmcNxm1 => 0x0001,
            OxmClass::XmcOpenFlowBasic => 0x8000,
            OxmClass::XmcExperimenter => 0xFFFF,
        }
    }

    /// What decoding `raw` gives: its variant, or `UnknownEnum` with the value.
    pub open spec fn spec_decode(raw: u32) -> Result<OxmClass, Error> {
        match Self::spec_from_u32(raw) {
            Some(v) => Ok(v),
            None => Err(Error::UnknownEnum(raw as u64, "OxmClass")),
        }
    }

    /// Decodes a wire value; an unknown one is an `UnknownEnum` error.
    pub fn decode(raw: u32) -> (res: Result<OxmClass, Error>)
        ensures
            res == Self::spec_decode(raw),
    {
        match Self::from_u32(raw) {
            Some(v) => Ok(v),
            None => Err(Error::UnknownEnum(raw as u64, "OxmClass")),
        }
    }

    /// Every variant is what its own wire value decodes to, and only that
    /// value decodes to it.
    pub proof fn lemma_wire_value(self)
        ensures
            Self::spec_decode(self.spec_to_u32()) == Ok::<OxmClass, Error>(self),
            forall|raw: u32| Self::spec_from_u32(raw) == Some(self) ==> raw == self.spec_to_u32(),
    {
    }
}

/// The match fields of the OpenFlow basic class.
#[derive(Debug, PartialEq, Eq, Clone, Copy)]
pub enum OfbMatchFields {
    InPort,
    InPhyPort,
    Metadata,
    EthDst,
    EthSrc,
    EthType,
    VlanVid,
    VlanPcp,
    IpDscp,
    IpEcn,
    IpProto,
    IPv4Src,
    IPv4Dst,
    TcpSrc,
    TcpDst,
    UdpSrc,
    UdpDst,
    SctpSrc,
    SctpDst,
    IcmpV4TYype,
    IcmpV4Code,
    ArpOp,
    ArpSpa,
    ArpTpa,
    ArpSha,
    ArpTha,
    IPv6Src,
    IPv6Dst,
    IPv6FLabel,
    IcmpV6Type,
    IcmpV6Code,
    IPv6NdTarget,
    IPv6NdSll,
    IPv6NdTll,
    MplsLabel,
    MplsTc,
    MplsBos,
    PbbISid,
    TunnelId,
    IPv6ExtHdr,
}

impl OfbMatchFields {
    /// The variant whose wire value is `raw`, if there is one.
    pub open spec fn spec_from_u32(raw: u32) -> Option<OfbMatchFields> {
        match raw {
            0 => Some(OfbMatchFields::InPort),
            1 => Some(OfbMatchFields::InPhyPort),
            2 => Some(OfbMatchFields::Metadata),
            3 => Some(OfbMatchFields::EthDst),
            4 => Some(OfbMatchFields::EthSrc),
            5 => Some(OfbMatchFields::EthType),
            6 => Some(OfbMatchFields::VlanVid),
            7 => Some(OfbMatchFields::VlanPcp),
            8 => Some(OfbMatchFields::IpDscp),
            9 => Some(OfbMatchFields::IpEcn),
            10 => Some(OfbMatchFields::IpProto),
            11 => Some(OfbMatchFields::IPv4Src),
            12 => Some(OfbMatchFields::IPv4Dst),
            13 => Some(OfbMatchFields::TcpSrc),
            14 => Some(OfbMatchFields::TcpDst),
            15 => Some(OfbMatchFields::UdpSrc),
            16 => Some(OfbMatchFields::UdpDst),
            17 => Some(OfbMatchFields::SctpSrc),
            18 => Some(OfbMatchFields::SctpDst),
            19 => Some(OfbMatchFields::IcmpV4TYype),
            20 => Some(OfbMatchFields::IcmpV4Code),
            21 => Some(OfbMatchFields::ArpOp),
            22 => Some(OfbMatchFields::ArpSpa),
            23 => Some(OfbMatchFields::ArpTpa),
            24 => Some(OfbMatchFields::ArpSha),
            25 => Some(OfbMatchFields::ArpTha),
            26 => Some(OfbMatchFields::IPv6Src),
            27 => Some(OfbMatchFields::IPv6Dst),
            28 => Some(OfbMatchFields::IPv6FLabel),
            29 => Some(OfbMatchFields::IcmpV6Type),
            30 => Some(OfbMatchFields::IcmpV6Code),
            31 => Some(OfbMatchFields::IPv6NdTarget),
            32 => Some(OfbMatchFields::IPv6NdSll),
            33 => Some(OfbMatchFields::IPv6NdTll),
            34 => Some(OfbMatchFields::MplsLabel),
            35 => Some(OfbMatchFields::MplsTc),
            36 => Some(OfbMatchFields::MplsBos),
            37 => Some(OfbMatchFields::PbbISid),
            38 => Some(OfbMatchFields::TunnelId),
            39 => Some(OfbMatchFields::IPv6ExtHdr),
            _ => None,
        }
    }

    /// The variant whose wire value is `raw`, if there is one.
    pub fn from_u32(raw: u32) -> (res: Option<OfbMatchFields>)
        ensures
            res == Self::spec_from_u32(raw),
    {
        match raw {
            0 => Some(OfbMatchFields::InPort),
            1 => Some(OfbMatchFields::InPhyPort),
            2 => Some(OfbMatchFields::Metadata),
            3 => Some(OfbMatchFields::EthDst),
            4 => Some(OfbMatchFields::EthSrc),
            5 => Some(OfbMatchFields::EthType),
            6 => Some(OfbMatchFields::VlanVid),
            7 => Some(OfbMatchFields::VlanPcp),
            8 => Some(OfbMatchFields::IpDscp),
            9 => Some(OfbMatchFields::IpEcn),
            10 => Some(OfbMatchFields::IpProto),
            11 => Some(OfbMatchFields::IPv4Src),
            12 => Some(OfbMatchFields::IPv4Dst),
            13 => Some(OfbMatchFields::TcpSrc),
            14 => Some(OfbMatchFields::TcpDst),
            15 => Some(OfbMatchFields::UdpSrc),
            16 => Some(OfbMatchFields::UdpDst),
            17 => Some(OfbMatchFields::SctpSrc),
            18 => Some(OfbMatchFields::SctpDst),
            19 => Some(OfbMatchFields::IcmpV4TYype),
            20 => Some(OfbMatchFields::IcmpV4Code),
            21 => Some(OfbMatchFields::ArpOp),
            22 => Some(OfbMatchFields::ArpSpa),
            23 => Some(OfbMatchFields::ArpTpa),
            24 => Some(OfbMatchFields::ArpSha),
            25 => Some(OfbMatchFields::ArpTha),
            26 => Some(OfbMatchFields::IPv6Src),
            27 => Some(OfbMatchFields::IPv6Dst),
            28 => Some(OfbMatchFields::IPv6FLabel),
            29 => Some(OfbMatchFields::IcmpV6Type),
            30 => Some(OfbMatchFields::IcmpV6Code),
            31 => Some(OfbMatchFields::IPv6NdTarget),
            32 => Some(OfbMatchFields::IPv6NdSll),
            33 => Some(OfbMatchFields::IPv6NdTll),
            34 => Some(OfbMatchFields::MplsLabel),
            35 => Some(OfbMatchFields::MplsTc),
            36 => Some(OfbMatchFields::MplsBos),
            37 => Some(OfbMatchFields::PbbISid),
            38 => Some(OfbMatchFields::TunnelId),
            39 => Some(OfbMatchFields::IPv6ExtHdr),
            _ => None,
        }
    }

    /// The wire value of the variant.
    pub open spec fn spec_to_u32(self) -> u32 {
        match self {
            OfbMatchFields::InPort => 0,
            OfbMatchFields::InPhyPort => 1,
            OfbMatchFields::Metadata => 2,
            OfbMatchFields::EthDst => 3,
            OfbMatchFields::EthSrc => 4,
            OfbMatchFields::EthType => 5,
            OfbMatchFields::VlanVid => 6,
            OfbMatchFields::VlanPcp => 7,
            OfbMatchFields::IpDscp => 8,
            OfbMatchFields::IpEcn => 9,
            OfbMatchFields::IpProto => 10,
            OfbMatchFields::IPv4Src => 11,
            OfbMatchFields::IPv4Dst => 12,
            OfbMatchFields::TcpSrc => 13,
            OfbMatchFields::TcpDst => 14,
            OfbMatchFields::UdpSrc => 15,
            OfbMatchFields::UdpDst => 16,
            OfbMatchFields::SctpSrc => 17,
            OfbMatchFields::SctpDst => 18,
            OfbMatchFields::IcmpV4TYype => 19,
            OfbMatchFields::IcmpV4Code => 20,
            OfbMatchFields::ArpOp => 21,
            OfbMatchFields::ArpSpa => 22,
            OfbMatchFields::ArpTpa => 23,
            OfbMatchFields::ArpSha => 24,
            OfbMatchFields::ArpTha => 25,
            OfbMatchFields::IPv6Src => 26,
            OfbMatchFields::IPv6Dst => 27,
            OfbMatchFields::IPv6FLabel => 28,
            OfbMatchFields::IcmpV6Type => 29,
            OfbMatchFields::IcmpV6Code => 30,
            OfbMatchFields::IPv6NdTarget => 31,
            OfbMatchFields::IPv6NdSll => 32,
            OfbMatchFields::IPv6NdTll => 33,
            OfbMatchFields::MplsLabel => 34,
            OfbMatchFields::MplsTc => 35,
            OfbMatchFields::MplsBos => 36,
            OfbMatchFields::PbbISid => 37,
            OfbMatchFields::TunnelId => 38,
            OfbMatchFields::IPv6ExtHdr => 39,
        }
    }

    /// The wire value of the variant.
    pub fn to_u32(&self) -> (r: u32)
        ensures
            r == self.spec_to_u32(),
    {
        match self {
            OfbMatchFields::InPort => 0,
            OfbMatchFields::InPhyPort => 1,
            OfbMatchFields::Metadata => 2,
            OfbMatchFields::EthDst => 3,
            OfbMatchFields::EthSrc => 4,
            OfbMatchFields::EthType => 5,
            OfbMatchFields::VlanVid => 6,
            OfbMatchFields::VlanPcp => 7,
            OfbMatchFields::IpDscp => 8,
            OfbMatchFields::IpEcn => 9,
            OfbMatchFields::IpProto => 10,
            OfbMatchFields::IPv4Src => 11,
            OfbMatchFields::IPv4Dst => 12,
            OfbMatchFields::TcpSrc => 13,
            OfbMatchFields::TcpDst => 14,
            OfbMatchFields::UdpSrc => 15,
            OfbMatchFields::UdpDst => 16,
            OfbMatchFields::SctpSrc => 17,
            OfbMatchFields::SctpDst => 18,
            OfbMatchFields::IcmpV4TYype => 19,
            OfbMatchFields::IcmpV4Code => 20,
            OfbMatchFields::ArpOp => 21,
            OfbMatchFields::ArpSpa => 22,
            OfbMatchFields::ArpTpa => 23,
            OfbMatchFields::ArpSha => 24,
            OfbMatchFields::ArpTha => 25,
            OfbMatchFields::IPv6Src => 26,
            OfbMatchFields::IPv6Dst => 27,
            OfbMatchFields::IPv6FLabel => 28,
            OfbMatchFields::IcmpV6Type => 29,
            OfbMatchFields::IcmpV6Code => 30,
            OfbMatchFields::IPv6NdTarget => 31,
            OfbMatchFields::IPv6NdSll => 32,
            OfbMatchFields::IPv6NdTll => 33,
            OfbMatchFields::MplsLabel => 34,
            OfbMatchFields::MplsTc => 35,
            OfbMatchFields::MplsBos => 36,
            OfbMatchFields::PbbISid => 37,
            OfbMatchFields::TunnelId => 38,
            OfbMatchFields::IPv6ExtHdr => 39,
        }
    }

    /// What decoding `raw` gives: its variant, or `UnknownEnum` with the value.
    pub open spec fn spec_decode(raw: u32) -> Result<OfbMatchFields, Error> {
        match Self::spec_from_u32(raw) {
            Some(v) => Ok(v),
            None => Err(Error::UnknownEnum(raw as u64, "OfbMatchFields")),
        }
    }

    /// Decodes a wire value; an unknown one is an `UnknownEnum` error.
    pub fn decode(raw: u32) -> (res: Result<OfbMatchFields, Error>)
        ensures
            res == Self::spec_decode(raw),
    {
        match Self::from_u32(raw) {
            Some(v) => Ok(v),
            None => Err(Error::UnknownEnum(raw as u64, "OfbMatchFields")),
        }
    }

    /// Every variant is what its own wire value decodes to, and only that
    /// value decodes to it.
    pub proof fn lemma_wire_value(self)
        ensures
            Self::spec_decode(self.spec_to_u32()) == Ok::<OfbMatchFields, Error>(self),
            forall|raw: u32| Self::spec_from_u32(raw) == Some(self) ==> raw == self.spec_to_u32(),
    {
    }
}

/// Ethernet frame types.
#[derive(Debug, PartialEq, Eq, Clone, Copy)]
pub enum EtherType {
    IPv4,
    Arp,
    WakeOnLan,
    IetfTrillProtocol,
    StreamReservationProtocol,
    DECnetPhaseIV,
    ReverseAddressResolutionProtocol,
    AppleTalk,
    AARP,
    VlanTaggedFrameShortestPathBridging,
    IPX,
    QNXQnet,
    IPv6,
    EthernetFlowControl,
    EthernetSlowProtocols,
    CobraNet,
    MplsUnicast,
    MplsMulticast,
    PPPoEDiscoveryStage,
    PPPoESessionStage,
    IntelAdvancedNetworkingServices,
    JumboFrames,
    HomePlug10MME,
    EapOverLan,
    PROFINETProtocol,
    HyperSCSI,
    AtaOverEthernet,
    EtherCAT,
    ProviderBridgingSHortestPathBridging,
    EthernetPowerlink,
    GOOSE,
    GSEManagementServices,
    SV,
    LLDP,
    SERCOSIII,
    WSMP,
    HOMEPlugAvMMe,
    MediaRedundancyProtocol,
    MACSecurity,
    ProviderBackboneBridges,
    PrecisionTimeProtocol,
    NcSi,
    ParallelRedundancyProtocol,
    CFM,
    FCoE,
    FCoEInitializationProtocol,
    RoCE,
    TTE,
    HST,
    EthernetConfigurationTestingProtocol,
    VlanTaggedWithDoubleTagging,
}

impl EtherType {
    /// The variant whose wire value is `raw`, if there is one.
    pub open spec fn spec_from_u16(raw: u16) -> Option<EtherType> {
        match raw {
            0x0800 => Some(EtherType::IPv4),
            0x0806 => Some(EtherType::Arp),
            0x0842 => Some(EtherType::WakeOnLan),
            0x22F3 => Some(EtherType::IetfTrillProtocol),
            0x22EA => Some(EtherType::StreamReservationProtocol),
            0x6003 => Some(EtherType::DECnetPhaseIV),
            0x8035 => Some(EtherType::ReverseAddressResolutionProtocol),
            0x809B => Some(EtherType::AppleTalk),
            0x80F3 => Some(EtherType::AARP),
            0x8100 => Some(EtherType::VlanTaggedFrameShortestPathBridging),
            0x8137 => Some(EtherType::IPX),
            0x8204 => Some(EtherType::QNXQnet),
            0x86DD => Some(EtherType::IPv6),
            0x8808 => Some(EtherType::EthernetFlowControl),
            0x8809 => Some(EtherType::EthernetSlowProtocols),
            0x8819 => Some(EtherType::CobraNet),
            0x8847 => Some(EtherType::MplsUnicast),
            0x8848 => Some(EtherType::MplsMulticast),
            0x8863 => Some(EtherType::PPPoEDiscoveryStage),
            0x8864 => Some(EtherType::PPPoESessionStage),
            0x886D => Some(EtherType::IntelAdvancedNetworkingServices),
            0x8870 => Some(EtherType::JumboFrames),
            0x887B => Some(EtherType::HomePlug10MME),
            0x888E => Some(EtherType::EapOverLan),
            0x8892 => Some(EtherType::PROFINETProtocol),
            0x889A => Some(EtherType::HyperSCSI),
            0x88A2 => Some(EtherType::AtaOverEthernet),
            0x88A4 => Some(EtherType::EtherCAT),
            0x88A8 => Some(EtherType::ProviderBridgingSHortestPathBridging),
            0x88AB => Some(EtherType::EthernetPowerlink),
            0x88B8 => Some(EtherType::GOOSE),
            0x88B9 => Some(EtherType::GSEManagementServices),
            0x88BA => Some(EtherType::SV),
            0x88CC => Some(EtherType::LLDP),
            0x88CD => Some(EtherType::SERCOSIII),
            0x88DC => Some(EtherType::WSMP),
            0x88E1 => Some(EtherType::HOMEPlugAvMMe),
            0x88E3 => Some(EtherType::MediaRedundancyProtocol),
            0x88E5 => Some(EtherType::MACSecurity),
            0x88E7 => Some(EtherType::ProviderBackboneBridges),
            0x88F7 => Some(EtherType::PrecisionTimeProtocol),
            0x88F8 => Some(EtherType::NcSi),
            0x88FB => Some(EtherType::ParallelRedundancyProtocol),
            0x8902 => Some(EtherType::CFM),
            0x8906 => Some(EtherType::FCoE),
            0x8914 => Some(EtherType::FCoEInitializationProtocol),
            0x8915 => Some(EtherType::RoCE),
            0x891D => Some(EtherType::TTE),
            0x892F => Some(EtherType::HST),
            0x9000 => Some(EtherType::EthernetConfigurationTestingProtocol),
            0x9100 => Some(EtherType::VlanTaggedWithDoubleTagging),
            _ => None,
        }
    }

    /// The variant whose wire value is `raw`, if there is one.
    pub fn from_u16(raw: u16) -> (res: Option<EtherType>)
        ensures
            res == Self::spec_from_u16(raw),
    {
        match raw {
            0x0800 => Some(EtherType::IPv4),
            0x0806 => Some(EtherType::Arp),
            0x0842 => Some(EtherType::WakeOnLan),
            0x22F3 => Some(EtherType::IetfTrillProtocol),
            0x22EA => Some(EtherType::StreamReservationProtocol),
            0x6003 => Some(EtherType::DECnetPhaseIV),
            0x8035 => Some(EtherType::ReverseAddressResolutionProtocol),
            0x809B => Some(EtherType::AppleTalk),
            0x80F3 => Some(EtherType::AARP),
            0x8100 => Some(EtherType::VlanTaggedFrameShortestPathBridging),
            0x8137 => Some(EtherType::IPX),
            0x8204 => Some(EtherType::QNXQnet),
            0x86DD => Some(EtherType::IPv6),
            0x8808 => Some(EtherType::EthernetFlowControl),
            0x8809 => Some(EtherType::EthernetSlowProtocols),
            0x8819 => Some(EtherType::CobraNet),
            0x8847 => Some(EtherType::MplsUnicast),
            0x8848 => Some(EtherType::MplsMulticast),
            0x8863 => Some(EtherType::PPPoEDiscoveryStage),
            0x8864 => Some(EtherType::PPPoESessionStage),
            0x886D => Some(EtherType::IntelAdvancedNetworkingServices),
            0x8870 => Some(EtherType::JumboFrames),
            0x887B => Some(EtherType::HomePlug10MME),
            0x888E => Some(EtherType::EapOverLan),
            0x8892 => Some(EtherType::PROFINETProtocol),
            0x889A => Some(EtherType::HyperSCSI),
            0x88A2 => Some(EtherType::AtaOverEthernet),
            0x88A4 => Some(EtherType::EtherCAT),
            0x88A8 => Some(EtherType::ProviderBridgingSHortestPathBridging),
            0x88AB => Some(EtherType::EthernetPowerlink),
            0x88B8 => Some(EtherType::GOOSE),
            0x88B9 => Some(EtherType::GSEManagementServices),
            0x88BA => Some(EtherType::SV),
            0x88CC => Some(EtherType::LLDP),
            0x88CD => Some(EtherType::SERCOSIII),
            0x88DC => Some(EtherType::WSMP),
            0x88E1 => Some(EtherType::HOMEPlugAvMMe),
            0x88E3 => Some(EtherType::MediaRedundancyProtocol),
            0x88E5 => Some(EtherType::MACSecurity),
            0x88E7 => Some(EtherType::ProviderBackboneBridges),
            0x88F7 => Some(EtherType::PrecisionTimeProtocol),
            0x88F8 => Some(EtherType::NcSi),
            0x88FB => Some(EtherType::ParallelRedundancyProtocol),
            0x8902 => Some(EtherType::CFM),
            0x8906 => Some(EtherType::FCoE),
            0x8914 => Some(EtherType::FCoEInitializationProtocol),
            0x8915 => Some(EtherType::RoCE),
            0x891D => Some(EtherType::TTE),
            0x892F => Some(EtherType::HST),
            0x9000 => Some(EtherType::EthernetConfigurationTestingProtocol),
            0x9100 => Some(EtherType::VlanTaggedWithDoubleTagging),
            _ => None,
        }
    }

    /// The wire value of the variant.
    pub open spec fn spec_to_u16(self) -> u16 {
        match self {
            EtherType::IPv4 => 0x0800,
            EtherType::Arp => 0x0806,
            EtherType::WakeOnLan => 0x0842,
            EtherType::IetfTrillProtocol => 0x22F3,
            EtherType::StreamReservationProtocol => 0x22EA,
            EtherType::DECnetPhaseIV => 0x6003,
            EtherType::ReverseAddressResolutionProtocol => 0x8035,
            EtherType::AppleTalk => 0x809B,
            EtherType::AARP => 0x80F3,
            EtherType::VlanTaggedFrameShortestPathBridging => 0x8100,
            EtherType::IPX => 0x8137,
            EtherType::QNXQnet => 0x8204,
            EtherType::IPv6 => 0x86DD,
            EtherType::EthernetFlowControl => 0x8808,
            EtherType::EthernetSlowProtocols => 0x8809,
            EtherType::CobraNet => 0x8819,
            EtherType::MplsUnicast => 0x8847,
            EtherType::MplsMulticast => 0x8848,
            EtherType::PPPoEDiscoveryStage => 0x8863,
            EtherType::PPPoESessionStage => 0x8864,
            EtherType::IntelAdvancedNetworkingServices => 0x886D,
            EtherType::JumboFrames => 0x8870,
            EtherType::HomePlug10MME => 0x887B,
            EtherType::EapOverLan => 0x888E,
            EtherType::PROFINETProtocol => 0x8892,
            EtherType::HyperSCSI => 0x889A,
            EtherType::AtaOverEthernet => 0x88A2,
            EtherType::EtherCAT => 0x88A4,
            EtherType::ProviderBridgingSHortestPathBridging => 0x88A8,
            EtherType::EthernetPowerlink => 0x88AB,
            EtherType::GOOSE => 0x88B8,
            EtherType::GSEManagementServices => 0x88B9,
            EtherType::SV => 0x88BA,
            EtherType::LLDP => 0x88CC,
            EtherType::SERCOSIII => 0x88CD,
            EtherType::WSMP => 0x88DC,
            EtherType::HOMEPlugAvMMe => 0x88E1,
            EtherType::MediaRedundancyProtocol => 0x88E3,
            EtherType::MACSecurity => 0x88E5,
            EtherType::ProviderBackboneBridges => 0x88E7,
            EtherType::PrecisionTimeProtocol => 0x88F7,
            EtherType::NcSi => 0x88F8,
            EtherType::ParallelRedundancyProtocol => 0x88FB,
            EtherType::CFM => 0x8902,
            EtherType::FCoE => 0x8906,
            EtherType::FCoEInitializationProtocol => 0x8914,
            EtherType::RoCE => 0x8915,
            EtherType::TTE => 0x891D,
            EtherType::HST => 0x892F,
            EtherType::EthernetConfigurationTestingProtocol => 0x9000,
            EtherType::VlanTaggedWithDoubleTagging => 0x9100,
        }
    }

    /// The wire value of the variant.
    pub fn to_u16(&self) -> (r: u16)
        ensures
            r == self.spec_to_u16(),
    {
        match self {
            EtherType::IPv4 => 0x0800,
            EtherType::Arp => 0x0806,
            EtherType::WakeOnLan => 0x0842,
            EtherType::IetfTrillProtocol => 0x22F3,
            EtherType::StreamReservationProtocol => 0x22EA,
            EtherType::DECnetPhaseIV => 0x6003,
            EtherType::ReverseAddressResolutionProtocol => 0x8035,
            EtherType::AppleTalk => 0x809B,
            EtherType::AARP => 0x80F3,
            EtherType::VlanTaggedFrameShortestPathBridging => 0x8100,
            EtherType::IPX => 0x8137,
            EtherType::QNXQnet => 0x8204,
            EtherType::IPv6 => 0x86DD,
            EtherType::EthernetFlowControl => 0x8808,
            EtherType::EthernetSlowProtocols => 0x8809,
            EtherType::CobraNet => 0x8819,
            EtherType::MplsUnicast => 0x8847,
            EtherType::MplsMulticast => 0x8848,
            EtherType::PPPoEDiscoveryStage => 0x8863,
            EtherType::PPPoESessionStage => 0x8864,
            EtherType::IntelAdvancedNetworkingServices => 0x886D,
            EtherType::JumboFrames => 0x8870,
            EtherType::HomePlug10MME => 0x887B,
            EtherType::EapOverLan => 0x888E,
            EtherType::PROFINETProtocol => 0x8892,
            EtherType::HyperSCSI => 0x889A,
            EtherType::AtaOverEthernet => 0x88A2,
            EtherType::EtherCAT => 0x88A4,
            EtherType::ProviderBridgingSHortestPathBridging => 0x88A8,
            EtherType::EthernetPowerlink => 0x88AB,
            EtherType::GOOSE => 0x88B8,
            EtherType::GSEManagementServices => 0x88B9,
            EtherType::SV => 0x88BA,
            EtherType::LLDP => 0x88CC,
            EtherType::SERCOSIII => 0x88CD,
            EtherType::WSMP => 0x88DC,
            EtherType::HOMEPlugAvMMe => 0x88E1,
            EtherType::MediaRedundancyProtocol => 0x88E3,
            EtherType::MACSecurity => 0x88E5,
            EtherType::ProviderBackboneBridges => 0x88E7,
            EtherType::PrecisionTimeProtocol => 0x88F7,
            EtherType::NcSi => 0x88F8,
            EtherType::ParallelRedundancyProtocol => 0x88FB,
            EtherType::CFM => 0x8902,
            EtherType::FCoE => 0x8906,
            EtherType::FCoEInitializationProtocol => 0x8914,
            EtherType::RoCE => 0x8915,
            EtherType::TTE => 0x891D,
            EtherType::HST => 0x892F,
            EtherType::EthernetConfigurationTestingProtocol => 0x9000,
            EtherType::VlanTaggedWithDoubleTagging => 0x9100,
        }
    }

    /// What decoding `raw` gives: its variant, or `UnknownEnum` with the value.
    pub open spec fn spec_decode(raw: u16) -> Result<EtherType, Error> {
        match Self::spec_from_u16(raw) {
            Some(v) => Ok(v),
            None => Err(Error::UnknownEnum(raw as u64, "EtherType")),
        }
    }

    /// Decodes a wire value; an unknown one is an `UnknownEnum` error.
    pub fn decode(raw: u16) -> (res: Result<EtherType, Error>)
        ensures
            res == Self::spec_decode(raw),
    {
        match Self::from_u16(raw) {
            Some(v) => Ok(v),
            None => Err(Error::UnknownEnum(raw as u64, "EtherType")),
        }
    }

    /// Every variant is what its own wire value decodes to, and only that
    /// value decodes to it.
    pub proof fn lemma_wire_value(self)
        ensures
            Self::spec_decode(self.spec_to_u16()) == Ok::<EtherType, Error>(self),
            forall|raw: u16| Self::spec_from_u16(raw) == Some(self) ==> raw == self.spec_to_u16(),
    {
    }
}

/// IP protocol numbers.
#[derive(Debug, PartialEq, Eq, Clone, Copy)]
pub enum IpProto {
    Hopopt,
    Icmp,
    Igmp,
    Ggp,
    IPv4,
    St,
    Tcp,
    Cbt,
    Egp,
    Igp,
    BbnRccMon,
    NvpII,
    Pup,
    Argus,
    Emcon,
    XNet,
    Chaos,
    Udp,
    Mux,
    DcnMeas,
    Hmp,
    Prm,
    XnsIdp,
    Trunk1,
    Trunk2,
    Leaf1,
    Leaf2,
    Rdp,
    Irtp,
    IsoTp4,
    Netblt,
    MfeNsp,
    MeritInp,
    Dccp,
    Pc3,
    Idpr,
    Xtp,
    Ddp,
    IdpCmtp,
    Tppp,
    IL,
    IPv6,
    Sdrp,
    IPv6Route,
    Ipv6Frag,
    Idrp,
    Rsvp,
    Gre,
    Dsr,
    Bna,
    Esp,
    Ah,
    INlsp,
    Swipe,
    Narp,
    Mobile,
    Tlsp,
    Skip,
    IPv6Icmp,
    IPv6NoNxt,
    IPv6Opts,
    AnyHostInternal,
    Cftp,
    AnyLocalNetwork,
    SatExpak,
    Kryptolan,
    Rvd,
    Ippc,
    AnyDistributedFileSystem,
    SatMon,
    Visa,
    Ipcv,
    Cpnx,
    Cphb,
    Wsn,
    Pvp,
    BrSatMon,
    SunNd,
    WbMon,
    WbExpak,
    IsoIp,
    Vmtp,
    SecureVmtp,
    Vines,
    TtpIptm,
    NsfnetIgp,
    Dgp,
    Tcf,
    Eigrp,
    Ospfigp,
    SpriteRPC,
    Larp,
    Mtp,
    Ax25,
    Ipip,
    Micp,
    SccSp,
    EtherIp,
    EnCap,
    AnyPrivateEncryptionScheme,
    Gmtp,
    Ifmp,
    Pnni,
    Pim,
    Aris,
    Scps,
    Qnx,
    AN,
    IPComp,
    Snp,
    CompaqPeer,
    IpxInIp,
    Vrrp,
    Pgm,
    Any0HopProtocol,
    L2Tp,
    Ddx,
    Iatp,
    Stp,
    Srp,
    Uti,
    Smp,
    Sm,
    Ptp,
    IsisOverIPv4,
    Fire,
    Crtp,
    Crudp,
    Sscopmce,
    Iplt,
    Sps,
    Pipe,
    Sctp,
    Fc,
    RsvpE2eIgnore,
    MobilityHeader,
    UdpLite,
    MplsInIp,
    Manet,
    Hip,
    Shim6,
    Wesp,
    Rohc,
    Testing1,
    Testing2,
    Reserved,
}

impl IpProto {
    /// The variant whose wire value is `raw`, if there is one.
    pub open spec fn spec_from_u8(raw: u8) -> Option<IpProto> {
        match raw {
            0 => Some(IpProto::Hopopt),
            1 => Some(IpProto::Icmp),
            2 => Some(IpProto::Igmp),
            3 => Some(IpProto::Ggp),
            4 => Some(IpProto::IPv4),
            5 => Some(IpProto::St),
            6 => Some(IpProto::Tcp),
            7 => Some(IpProto::Cbt),
            8 => Some(IpProto::Egp),
            9 => Some(IpProto::Igp),
            10 => Some(IpProto::BbnRccMon),
            11 => Some(IpProto::NvpII),
            12 => Some(IpProto::Pup),
            13 => Some(IpProto::Argus),
            14 => Some(IpProto::Emcon),
            15 => Some(IpProto::XNet),
            16 => Some(IpProto::Chaos),
            17 => Some(IpProto::Udp),
            18 => Some(IpProto::Mux),
            19 => Some(IpProto::DcnMeas),
            20 => Some(IpProto::Hmp),
            21 => Some(IpProto::Prm),
            22 => Some(IpProto::XnsIdp),
            23 => Some(IpProto::Trunk1),
            24 => Some(IpProto::Trunk2),
            25 => Some(IpProto::Leaf1),
            26 => Some(IpProto::Leaf2),
            27 => Some(IpProto::Rdp),
            28 => Some(IpProto::Irtp),
            29 => Some(IpProto::IsoTp4),
            30 => Some(IpProto::Netblt),
            31 => Some(IpProto::MfeNsp),
            32 => Some(IpProto::MeritInp),
            33 => Some(IpProto::Dccp),
            34 => Some(IpProto::Pc3),
            35 => Some(IpProto::Idpr),
            36 => Some(IpProto::Xtp),
            37 => Some(IpProto::Ddp),
            38 => Some(IpProto::IdpCmtp),
            39 => Some(IpProto::Tppp),
            40 => Some(IpProto::IL),
            41 => Some(IpProto::IPv6),
            42 => Some(IpProto::Sdrp),
            43 => Some(IpProto::IPv6Route),
            44 => Some(IpProto::Ipv6Frag),
            45 => Some(IpProto::Idrp),
            46 => Some(IpProto::Rsvp),
            47 => Some(IpProto::Gre),
            48 => Some(IpProto::Dsr),
            49 => Some(IpProto::Bna),
            50 => Some(IpProto::Esp),
            51 => Some(IpProto::Ah),
            52 => Some(IpProto::INlsp),
            53 => Some(IpProto::Swipe),
            54 => Some(IpProto::Narp),
            55 => Some(IpProto::Mobile),
            56 => Some(IpProto::Tlsp),
            57 => Some(IpProto::Skip),
            58 => Some(IpProto::IPv6Icmp),
            59 => Some(IpProto::IPv6NoNxt),
            60 => Some(IpProto::IPv6Opts),
            61 => Some(IpProto::AnyHostInternal),
            62 => Some(IpProto::Cftp),
            63 => Some(IpProto::AnyLocalNetwork),
            64 => Some(IpProto::SatExpak),
            65 => Some(IpProto::Kryptolan),
            66 => Some(IpProto::Rvd),
            67 => Some(IpProto::Ippc),
            68 => Some(IpProto::AnyDistributedFileSystem),
            69 => Some(IpProto::SatMon),
            70 => Some(IpProto::Visa),
            71 => Some(IpProto::Ipcv),
            72 => Some(IpProto::Cpnx),
            73 => Some(IpProto::Cphb),
            74 => Some(IpProto::Wsn),
            75 => Some(IpProto::Pvp),
            76 => Some(IpProto::BrSatMon),
            77 => Some(IpProto::SunNd),
            78 => Some(IpProto::WbMon),
            79 => Some(IpProto::WbExpak),
            80 => Some(IpProto::IsoIp),
            81 => Some(IpProto::Vmtp),
            82 => Some(IpProto::SecureVmtp),
            83 => Some(IpProto::Vines),
            84 => Some(IpProto::TtpIptm),
            85 => Some(IpProto::NsfnetIgp),
            86 => Some(IpProto::Dgp),
            87 => Some(IpProto::Tcf),
            88 => Some(IpProto::Eigrp),
            89 => Some(IpProto::Ospfigp),
            90 => Some(IpProto::SpriteRPC),
            91 => Some(IpProto::Larp),
            92 => Some(IpProto::Mtp),
            93 => Some(IpProto::Ax25),
            94 => Some(IpProto::Ipip),
            95 => Some(IpProto::Micp),
            96 => Some(IpProto::SccSp),
            97 => Some(IpProto::EtherIp),
            98 => Some(IpProto::EnCap),
            99 => Some(IpProto::AnyPrivateEncryptionScheme),
            100 => Some(IpProto::Gmtp),
            101 => Some(IpProto::Ifmp),
            102 => Some(IpProto::Pnni),
            103 => Some(IpProto::Pim),
            104 => Some(IpProto::Aris),
            105 => Some(IpProto::Scps),
            106 => Some(IpProto::Qnx),
            107 => Some(IpProto::AN),
            108 => Some(IpProto::IPComp),
            109 => Some(IpProto::Snp),
            110 => Some(IpProto::CompaqPeer),
            111 => Some(IpProto::IpxInIp),
            112 => Some(IpProto::Vrrp),
            113 => Some(IpProto::Pgm),
            114 => Some(IpProto::Any0HopProtocol),
            115 => Some(IpProto::L2Tp),
            116 => Some(IpProto::Ddx),
            117 => Some(IpProto::Iatp),
            118 => Some(IpProto::Stp),
            119 => Some(IpProto::Srp),
            120 => Some(IpProto::Uti),
            121 => Some(IpProto::Smp),
            122 => Some(IpProto::Sm),
            123 => Some(IpProto::Ptp),
            124 => Some(IpProto::IsisOverIPv4),
            125 => Some(IpProto::Fire),
            126 => Some(IpProto::Crtp),
            127 => Some(IpProto::Crudp),
            128 => Some(IpProto::Sscopmce),
            129 => Some(IpProto::Iplt),
            130 => Some(IpProto::Sps),
            131 => Some(IpProto::Pipe),
            132 => Some(IpProto::Sctp),
            133 => Some(IpProto::Fc),
            134 => Some(IpProto::RsvpE2eIgnore),
            135 => Some(IpProto::MobilityHeader),
            136 => Some(IpProto::UdpLite),
            137 => Some(IpProto::MplsInIp),
            138 => Some(IpProto::Manet),
            139 => Some(IpProto::Hip),
            140 => Some(IpProto::Shim6),
            141 => Some(IpProto::Wesp),
            142 => Some(IpProto::Rohc),
            253 => Some(IpProto::Testing1),
            254 => Some(IpProto::Testing2),
            255 => Some(IpProto::Reserved),
            _ => None,
        }
    }

    /// The variant whose wire value is `raw`, if there is one.
    pub fn from_u8(raw: u8) -> (res: Option<IpProto>)
        ensures
            res == Self::spec_from_u8(raw),
    {
        match raw {
            0 => Some(IpProto::Hopopt),
            1 => Some(IpProto::Icmp),
            2 => Some(IpProto::Igmp),
            3 => Some(IpProto::Ggp),
            4 => Some(IpProto::IPv4),
            5 => Some(IpProto::St),
            6 => Some(IpProto::Tcp),
            7 => Some(IpProto::Cbt),
            8 => Some(IpProto::Egp),
            9 => Some(IpProto::Igp),
            10 => Some(IpProto::BbnRccMon),
            11 => Some(IpProto::NvpII),
            12 => Some(IpProto::Pup),
            13 => Some(IpProto::Argus),
            14 => Some(IpProto::Emcon),
            15 => Some(IpProto::XNet),
            16 => Some(IpProto::Chaos),
            17 => Some(IpProto::Udp),
            18 => Some(IpProto::Mux),
            19 => Some(IpProto::DcnMeas),
            20 => Some(IpProto::Hmp),
            21 => Some(IpProto::Prm),
            22 => Some(IpProto::XnsIdp),
            23 => Some(IpProto::Trunk1),
            24 => Some(IpProto::Trunk2),
            25 => Some(IpProto::Leaf1),
            26 => Some(IpProto::Leaf2),
            27 => Some(IpProto::Rdp),
            28 => Some(IpProto::Irtp),
            29 => Some(IpProto::IsoTp4),
            30 => Some(IpProto::Netblt),
            31 => Some(IpProto::MfeNsp),
            32 => Some(IpProto::MeritInp),
            33 => Some(IpProto::Dccp),
            34 => Some(IpProto::Pc3),
            35 => Some(IpProto::Idpr),
            36 => Some(IpProto::Xtp),
            37 => Some(IpProto::Ddp),
            38 => Some(IpProto::IdpCmtp),
            39 => Some(IpProto::Tppp),
            40 => Some(IpProto::IL),
            41 => Some(IpProto::IPv6),
            42 => Some(IpProto::Sdrp),
            43 => Some(IpProto::IPv6Route),
            44 => Some(IpProto::Ipv6Frag),
            45 => Some(IpProto::Idrp),
            46 => Some(IpProto::Rsvp),
            47 => Some(IpProto::Gre),
            48 => Some(IpProto::Dsr),
            49 => Some(IpProto::Bna),
            50 => Some(IpProto::Esp),
            51 => Some(IpProto::Ah),
            52 => Some(IpProto::INlsp),
            53 => Some(IpProto::Swipe),
            54 => Some(IpProto::Narp),
            55 => Some(IpProto::Mobile),
            56 => Some(IpProto::Tlsp),
            57 => Some(IpProto::Skip),
            58 => Some(IpProto::IPv6Icmp),
            59 => Some(IpProto::IPv6NoNxt),
            60 => Some(IpProto::IPv6Opts),
            61 => Some(IpProto::AnyHostInternal),
            62 => Some(IpProto::Cftp),
            63 => Some(IpProto::AnyLocalNetwork),
            64 => Some(IpProto::SatExpak),
            65 => Some(IpProto::Kryptolan),
            66 => Some(IpProto::Rvd),
            67 => Some(IpProto::Ippc),
            68 => Some(IpProto::AnyDistributedFileSystem),
            69 => Some(IpProto::SatMon),
            70 => Some(IpProto::Visa),
            71 => Some(IpProto::Ipcv),
            72 => Some(IpProto::Cpnx),
            73 => Some(IpProto::Cphb),
            74 => Some(IpProto::Wsn),
            75 => Some(IpProto::Pvp),
            76 => Some(IpProto::BrSatMon),
            77 => Some(IpProto::SunNd),
            78 => Some(IpProto::WbMon),
            79 => Some(IpProto::WbExpak),
            80 => Some(IpProto::IsoIp),
            81 => Some(IpProto::Vmtp),
            82 => Some(IpProto::SecureVmtp),
            83 => Some(IpProto::Vines),
            84 => Some(IpProto::TtpIptm),
            85 => Some(IpProto::NsfnetIgp),
            86 => Some(IpProto::Dgp),
            87 => Some(IpProto::Tcf),
            88 => Some(IpProto::Eigrp),
            89 => Some(IpProto::Ospfigp),
            90 => Some(IpProto::SpriteRPC),
            91 => Some(IpProto::Larp),
            92 => Some(IpProto::Mtp),
            93 => Some(IpProto::Ax25),
            94 => Some(IpProto::Ipip),
            95 => Some(IpProto::Micp),
            96 => Some(IpProto::SccSp),
            97 => Some(IpProto::EtherIp),
            98 => Some(IpProto::EnCap),
            99 => Some(IpProto::AnyPrivateEncryptionScheme),
            100 => Some(IpProto::Gmtp),
            101 => Some(IpProto::Ifmp),
            102 => Some(IpProto::Pnni),
            103 => Some(IpProto::Pim),
            104 => Some(IpProto::Aris),
            105 => Some(IpProto::Scps),
            106 => Some(IpProto::Qnx),
            107 => Some(IpProto::AN),
            108 => Some(IpProto::IPComp),
            109 => Some(IpProto::Snp),
            110 => Some(IpProto::CompaqPeer),
            111 => Some(IpProto::IpxInIp),
            112 => Some(IpProto::Vrrp),
            113 => Some(IpProto::Pgm),
            114 => Some(IpProto::Any0HopProtocol),
            115 => Some(IpProto::L2Tp),
            116 => Some(IpProto::Ddx),
            117 => Some(IpProto::Iatp),
            118 => Some(IpProto::Stp),
            119 => Some(IpProto::Srp),
            120 => Some(IpProto::Uti),
            121 => Some(IpProto::Smp),
            122 => Some(IpProto::Sm),
            123 => Some(IpProto::Ptp),
            124 => Some(IpProto::IsisOverIPv4),
            125 => Some(IpProto::Fire),
            126 => Some(IpProto::Crtp),
            127 => Some(IpProto::Crudp),
            128 => Some(IpProto::Sscopmce),
            129 => Some(IpProto::Iplt),
            130 => Some(IpProto::Sps),
            131 => Some(IpProto::Pipe),
            132 => Some(IpProto::Sctp),
            133 => Some(IpProto::Fc),
            134 => Some(IpProto::RsvpE2eIgnore),
            135 => Some(IpProto::MobilityHeader),
            136 => Some(IpProto::UdpLite),
            137 => Some(IpProto::MplsInIp),
            138 => Some(IpProto::Manet),
            139 => Some(IpProto::Hip),
            140 => Some(IpProto::Shim6),
            141 => Some(IpProto::Wesp),
            142 => Some(IpProto::Rohc),
            253 => Some(IpProto::Testing1),
            254 => Some(IpProto::Testing2),
            255 => Some(IpProto::Reserved),
            _ => None,
        }
    }

    /// The wire value of the variant.
    pub open spec fn spec_to_u8(self) -> u8 {
        match self {
            IpProto::Hopopt => 0,
            IpProto::Icmp => 1,
            IpProto::Igmp => 2,
            IpProto::Ggp => 3,
            IpProto::IPv4 => 4,
            IpProto::St => 5,
            IpProto::Tcp => 6,
            IpProto::Cbt => 7,
            IpProto::Egp => 8,
            IpProto::Igp => 9,
            IpProto::BbnRccMon => 10,
            IpProto::NvpII => 11,
            IpProto::Pup => 12,
            IpProto::Argus => 13,
            IpProto::Emcon => 14,
            IpProto::XNet => 15,
            IpProto::Chaos => 16,
            IpProto::Udp => 17,
            IpProto::Mux => 18,
            IpProto::DcnMeas => 19,
            IpProto::Hmp => 20,
            IpProto::Prm => 21,
            IpProto::XnsIdp => 22,
            IpProto::Trunk1 => 23,
            IpProto::Trunk2 => 24,
            IpProto::Leaf1 => 25,
            IpProto::Leaf2 => 26,
            IpProto::Rdp => 27,
            IpProto::Irtp => 28,
            IpProto::IsoTp4 => 29,
            IpProto::Netblt => 30,
            IpProto::MfeNsp => 31,
            IpProto::MeritInp => 32,
            IpProto::Dccp => 33,
            IpProto::Pc3 => 34,
            IpProto::Idpr => 35,
            IpProto::Xtp => 36,
            IpProto::Ddp => 37,
            IpProto::IdpCmtp => 38,
            IpProto::Tppp => 39,
            IpProto::IL => 40,
            IpProto::IPv6 => 41,
            IpProto::Sdrp => 42,
            IpProto::IPv6Route => 43,
            IpProto::Ipv6Frag => 44,
            IpProto::Idrp => 45,
            IpProto::Rsvp => 46,
            IpProto::Gre => 47,
            IpProto::Dsr => 48,
            IpProto::Bna => 49,
            IpProto::Esp => 50,
            IpProto::Ah => 51,
            IpProto::INlsp => 52,
            IpProto::Swipe => 53,
            IpProto::Narp => 54,
            IpProto::Mobile => 55,
            IpProto::Tlsp => 56,
            IpProto::Skip => 57,
            IpProto::IPv6Icmp => 58,
            IpProto::IPv6NoNxt => 59,
            IpProto::IPv6Opts => 60,
            IpProto::AnyHostInternal => 61,
            IpProto::Cftp => 62,
            IpProto::AnyLocalNetwork => 63,
            IpProto::SatExpak => 64,
            IpProto::Kryptolan => 65,
            IpProto::Rvd => 66,
            IpProto::Ippc => 67,
            IpProto::AnyDistributedFileSystem => 68,
            IpProto::SatMon => 69,
            IpProto::Visa => 70,
            IpProto::Ipcv => 71,
            IpProto::Cpnx => 72,
            IpProto::Cphb => 73,
            IpProto::Wsn => 74,
            IpProto::Pvp => 75,
            IpProto::BrSatMon => 76,
            IpProto::SunNd => 77,
            IpProto::WbMon => 78,
            IpProto::WbExpak => 79,
            IpProto::IsoIp => 80,
            IpProto::Vmtp => 81,
            IpProto::SecureVmtp => 82,
            IpProto::Vines => 83,
            IpProto::TtpIptm => 84,
            IpProto::NsfnetIgp => 85,
            IpProto::Dgp => 86,
            IpProto::Tcf => 87,
            IpProto::Eigrp => 88,
            IpProto::Ospfigp => 89,
            IpProto::SpriteRPC => 90,
            IpProto::Larp => 91,
            IpProto::Mtp => 92,
            IpProto::Ax25 => 93,
            IpProto::Ipip => 94,
            IpProto::Micp => 95,
            IpProto::SccSp => 96,
            IpProto::EtherIp => 97,
            IpProto::EnCap => 98,
            IpProto::AnyPrivateEncryptionScheme => 99,
            IpProto::Gmtp => 100,
            IpProto::Ifmp => 101,
            IpProto::Pnni => 102,
            IpProto::Pim => 103,
            IpProto::Aris => 104,
            IpProto::Scps => 105,
            IpProto::Qnx => 106,
            IpProto::AN => 107,
            IpProto::IPComp => 108,
            IpProto::Snp => 109,
            IpProto::CompaqPeer => 110,
            IpProto::IpxInIp => 111,
            IpProto::Vrrp => 112,
            IpProto::Pgm => 113,
            IpProto::Any0HopProtocol => 114,
            IpProto::L2Tp => 115,
            IpProto::Ddx => 116,
            IpProto::Iatp => 117,
            IpProto::Stp => 118,
            IpProto::Srp => 119,
            IpProto::Uti => 120,
            IpProto::Smp => 121,
            IpProto::Sm => 122,
            IpProto::Ptp => 123,
            IpProto::IsisOverIPv4 => 124,
            IpProto::Fire => 125,
            IpProto::Crtp => 126,
            IpProto::Crudp => 127,
            IpProto::Sscopmce => 128,
            IpProto::Iplt => 129,
            IpProto::Sps => 130,
            IpProto::Pipe => 131,
            IpProto::Sctp => 132,
            IpProto::Fc => 133,
            IpProto::RsvpE2eIgnore => 134,
            IpProto::MobilityHeader => 135,
            IpProto::UdpLite => 136,
            IpProto::MplsInIp => 137,
            IpProto::Manet => 138,
            IpProto::Hip => 139,
            IpProto::Shim6 => 140,
            IpProto::Wesp => 141,
            IpProto::Rohc => 142,
            IpProto::Testing1 => 253,
            IpProto::Testing2 => 254,
            IpProto::Reserved => 255,
        }
    }

    /// The wire value of the variant.
    pub fn to_u8(&self) -> (r: u8)
        ensures
            r == self.spec_to_u8(),
    {
        match self {
            IpProto::Hopopt => 0,
            IpProto::Icmp => 1,
            IpProto::Igmp => 2,
            IpProto::Ggp => 3,
            IpProto::IPv4 => 4,
            IpProto::St => 5,
            IpProto::Tcp => 6,
            IpProto::Cbt => 7,
            IpProto::Egp => 8,
            IpProto::Igp => 9,
            IpProto::BbnRccMon => 10,
            IpProto::NvpII => 11,
            IpProto::Pup => 12,
            IpProto::Argus => 13,
            IpProto::Emcon => 14,
            IpProto::XNet => 15,
            IpProto::Chaos => 16,
            IpProto::Udp => 17,
            IpProto::Mux => 18,
            IpProto::DcnMeas => 19,
            IpProto::Hmp => 20,
            IpProto::Prm => 21,
            IpProto::XnsIdp => 22,
            IpProto::Trunk1 => 23,
            IpProto::Trunk2 => 24,
            IpProto::Leaf1 => 25,
            IpProto::Leaf2 => 26,
            IpProto::Rdp => 27,
            IpProto::Irtp => 28,
            IpProto::IsoTp4 => 29,
            IpProto::Netblt => 30,
            IpProto::MfeNsp => 31,
            IpProto::MeritInp => 32,
            IpProto::Dccp => 33,
            IpProto::Pc3 => 34,
            IpProto::Idpr => 35,
            IpProto::Xtp => 36,
            IpProto::Ddp => 37,
            IpProto::IdpCmtp => 38,
            IpProto::Tppp => 39,
            IpProto::IL => 40,
            IpProto::IPv6 => 41,
            IpProto::Sdrp => 42,
            IpProto::IPv6Route => 43,
            IpProto::Ipv6Frag => 44,
            IpProto::Idrp => 45,
            IpProto::Rsvp => 46,
            IpProto::Gre => 47,
            IpProto::Dsr => 48,
            IpProto::Bna => 49,
            IpProto::Esp => 50,
            IpProto::Ah => 51,
            IpProto::INlsp => 52,
            IpProto::Swipe => 53,
            IpProto::Narp => 54,
            IpProto::Mobile => 55,
            IpProto::Tlsp => 56,
            IpProto::Skip => 57,
            IpProto::IPv6Icmp => 58,
            IpProto::IPv6NoNxt => 59,
            IpProto::IPv6Opts => 60,
            IpProto::AnyHostInternal => 61,
            IpProto::Cftp => 62,
            IpProto::AnyLocalNetwork => 63,
            IpProto::SatExpak => 64,
            IpProto::Kryptolan => 65,
            IpProto::Rvd => 66,
            IpProto::Ippc => 67,
            IpProto::AnyDistributedFileSystem => 68,
            IpProto::SatMon => 69,
            IpProto::Visa => 70,
            IpProto::Ipcv => 71,
            IpProto::Cpnx => 72,
            IpProto::Cphb => 73,
            IpProto::Wsn => 74,
            IpProto::Pvp => 75,
            IpProto::BrSatMon => 76,
            IpProto::SunNd => 77,
            IpProto::WbMon => 78,
            IpProto::WbExpak => 79,
            IpProto::IsoIp => 80,
            IpProto::Vmtp => 81,
            IpProto::SecureVmtp => 82,
            IpProto::Vines => 83,
            IpProto::TtpIptm => 84,
            IpProto::NsfnetIgp => 85,
            IpProto::Dgp => 86,
            IpProto::Tcf => 87,
            IpProto::Eigrp => 88,
            IpProto::Ospfigp => 89,
            IpProto::SpriteRPC => 90,
            IpProto::Larp => 91,
            IpProto::Mtp => 92,
            IpProto::Ax25 => 93,
            IpProto::Ipip => 94,
            IpProto::Micp => 95,
            IpProto::SccSp => 96,
            IpProto::EtherIp => 97,
            IpProto::EnCap => 98,
            IpProto::AnyPrivateEncryptionScheme => 99,
            IpProto::Gmtp => 100,
            IpProto::Ifmp => 101,
            IpProto::Pnni => 102,
            IpProto::Pim => 103,
            IpProto::Aris => 104,
            IpProto::Scps => 105,
            IpProto::Qnx => 106,
            IpProto::AN => 107,
            IpProto::IPComp => 108,
            IpProto::Snp => 109,
            IpProto::CompaqPeer => 110,
            IpProto::IpxInIp => 111,
            IpProto::Vrrp => 112,
            IpProto::Pgm => 113,
            IpProto::Any0HopProtocol => 114,
            IpProto::L2Tp => 115,
            IpProto::Ddx => 116,
            IpProto::Iatp => 117,
            IpProto::Stp => 118,
            IpProto::Srp => 119,
            IpProto::Uti => 120,
            IpProto::Smp => 121,
            IpProto::Sm => 122,
            IpProto::Ptp => 123,
            IpProto::IsisOverIPv4 => 124,
            IpProto::Fire => 125,
            IpProto::Crtp => 126,
            IpProto::Crudp => 127,
            IpProto::Sscopmce => 128,
            IpProto::Iplt => 129,
            IpProto::Sps => 130,
            IpProto::Pipe => 131,
            IpProto::Sctp => 132,
            IpProto::Fc => 133,
            IpProto::RsvpE2eIgnore => 134,
            IpProto::MobilityHeader => 135,
            IpProto::UdpLite => 136,
            IpProto::MplsInIp => 137,
            IpProto::Manet => 138,
            IpProto::Hip => 139,
            IpProto::Shim6 => 140,
            IpProto::Wesp => 141,
            IpProto::Rohc => 142,
            IpProto::Testing1 => 253,
            IpProto::Testing2 => 254,
            IpProto::Reserved => 255,
        }
    }

    /// What decoding `raw` gives: its variant, or `UnknownEnum` with the value.
    pub open spec fn spec_decode(raw: u8) -> Result<IpProto, Error> {
        match Self::spec_from_u8(raw) {
            Some(v) => Ok(v),
            None => Err(Error::UnknownEnum(raw as u64, "IpProto")),
        }
    }

    /// Decodes a wire value; an unknown one is an `UnknownEnum` error.
    pub fn decode(raw: u8) -> (res: Result<IpProto, Error>)
        ensures
            res == Self::spec_decode(raw),
    {
        match Self::from_u8(raw) {
            Some(v) => Ok(v),
            None => Err(Error::UnknownEnum(raw as u64, "IpProto")),
        }
    }

    /// Every variant is what its own wire value decodes to, and only that
    /// value decodes to it.
    pub proof fn lemma_wire_value(self)
        ensures
            Self::spec_decode(self.spec_to_u8()) == Ok::<IpProto, Error>(self),
            forall|raw: u8| Self::spec_from_u8(raw) == Some(self) ==> raw == self.spec_to_u8(),
    {
    }
}

/// ICMP message types.
#[derive(Debug, PartialEq, Eq, Clone, Copy)]
pub enum IcmpType {
    EchoReply,
    DestinationUnreachable,
    SourceQuench,
    Redirect,
    EchoRequest,
    RouterAdvertisement,
    RouterSolicitation,
    TimeExceeded,
    ParameterProblem,
    Timestamp,
    TimestampReply,
    InformationRequest,
    InformationReply,
    AddressMaskRequest,
    AddressMaskReply,
    ReservedSecurity,
    RobustExperiment20,
    RobustExperiment21,
    RobustExperiment22,
    RobustExperiment23,
    RobustExperiment24,
    RobustExperiment25,
    RobustExperiment26,
    RobustExperiment27,
    RobustExperiment28,
    RobustExperiment29,
    Traceroute,
    DatagramConversionError,
    MobileHostRedirect,
    IPv6WhereAreYou,
    IPv6IAmHere,
    MobileRegistrationRequest,
    MobileRegistrationReply,
    DomainNameRequest,
    DomainNameReply,
    Dkip,
    Photuris,
    ExperimentalMobility41,
}

impl IcmpType {
    /// The variant whose wire value is `raw`, if there is one.
    pub open spec fn spec_from_u8(raw: u8) -> Option<IcmpType> {
        match raw {
            0 => Some(IcmpType::EchoReply),
            3 => Some(IcmpType::DestinationUnreachable),
            4 => Some(IcmpType::SourceQuench),
            5 => Some(IcmpType::Redirect),
            8 => Some(IcmpType::EchoRequest),
            9 => Some(IcmpType::RouterAdvertisement),
            10 => Some(IcmpType::RouterSolicitation),
            11 => Some(IcmpType::TimeExceeded),
            12 => Some(IcmpType::ParameterProblem),
            13 => Some(IcmpType::Timestamp),
            14 => Some(IcmpType::TimestampReply),
            15 => Some(IcmpType::InformationRequest),
            16 => Some(IcmpType::InformationReply),
            17 => Some(IcmpType::AddressMaskRequest),
            18 => Some(IcmpType::AddressMaskReply),
            19 => Some(IcmpType::ReservedSecurity),
            20 => Some(IcmpType::RobustExperiment20),
            21 => Some(IcmpType::RobustExperiment21),
            22 => Some(IcmpType::RobustExperiment22),
            23 => Some(IcmpType::RobustExperiment23),
            24 => Some(IcmpType::RobustExperiment24),
            25 => Some(IcmpType::RobustExperiment25),
            26 => Some(IcmpType::RobustExperiment26),
            27 => Some(IcmpType::RobustExperiment27),
            28 => Some(IcmpType::RobustExperiment28),
            29 => Some(IcmpType::RobustExperiment29),
            30 => Some(IcmpType::Traceroute),
            31 => Some(IcmpType::DatagramConversionError),
            32 => Some(IcmpType::MobileHostRedirect),
            33 => Some(IcmpType::IPv6WhereAreYou),
            34 => Some(IcmpType::IPv6IAmHere),
            35 => Some(IcmpType::MobileRegistrationRequest),
            36 => Some(IcmpType::MobileRegistrationReply),
            37 => Some(IcmpType::DomainNameRequest),
            38 => Some(IcmpType::DomainNameReply),
            39 => Some(IcmpType::Dkip),
            40 => Some(IcmpType::Photuris),
            41 => Some(IcmpType::ExperimentalMobility41),
            _ => None,
        }
    }

    /// The variant whose wire value is `raw`, if there is one.
    pub fn from_u8(raw: u8) -> (res: Option<IcmpType>)
        ensures
            res == Self::spec_from_u8(raw),
    {
        match raw {
            0 => Some(IcmpType::EchoReply),
            3 => Some(IcmpType::DestinationUnreachable),
            4 => Some(IcmpType::SourceQuench),
            5 => Some(IcmpType::Redirect),
            8 => Some(IcmpType::EchoRequest),
            9 => Some(IcmpType::RouterAdvertisement),
            10 => Some(IcmpType::RouterSolicitation),
            11 => Some(IcmpType::TimeExceeded),
            12 => Some(IcmpType::ParameterProblem),
            13 => Some(IcmpType::Timestamp),
            14 => Some(IcmpType::TimestampReply),
            15 => Some(IcmpType::InformationRequest),
            16 => Some(IcmpType::InformationReply),
            17 => Some(IcmpType::AddressMaskRequest),
            18 => Some(IcmpType::AddressMaskReply),
            19 => Some(IcmpType::ReservedSecurity),
            20 => Some(IcmpType::RobustExperiment20),
            21 => Some(IcmpType::RobustExperiment21),
            22 => Some(IcmpType::RobustExperiment22),
            23 => Some(IcmpType::RobustExperiment23),
            24 => Some(IcmpType::RobustExperiment24),
            25 => Some(IcmpType::RobustExperiment25),
            26 => Some(IcmpType::RobustExperiment26),
            27 => Some(IcmpType::RobustExperiment27),
            28 => Some(IcmpType::RobustExperiment28),
            29 => Some(IcmpType::RobustExperiment29),
            30 => Some(IcmpType::Traceroute),
            31 => Some(IcmpType::DatagramConversionError),
            32 => Some(IcmpType::MobileHostRedirect),
            33 => Some(IcmpType::IPv6WhereAreYou),
            34 => Some(IcmpType::IPv6IAmHere),
            35 => Some(IcmpType::MobileRegistrationRequest),
            36 => Some(IcmpType::MobileRegistrationReply),
            37 => Some(IcmpType::DomainNameRequest),
            38 => Some(IcmpType::DomainNameReply),
            39 => Some(IcmpType::Dkip),
            40 => Some(IcmpType::Photuris),
            41 => Some(IcmpType::ExperimentalMobility41),
            _ => None,
        }
    }

    /// The wire value of the variant.
    pub open spec fn spec_to_u8(self) -> u8 {
        match self {
            IcmpType::EchoReply => 0,
            IcmpType::DestinationUnreachable => 3,
            IcmpType::SourceQuench => 4,
            IcmpType::Redirect => 5,
            IcmpType::EchoRequest => 8,
            IcmpType::RouterAdvertisement => 9,
            IcmpType::RouterSolicitation => 10,
            IcmpType::TimeExceeded => 11,
            IcmpType::ParameterProblem => 12,
            IcmpType::Timestamp => 13,
            IcmpType::TimestampReply => 14,
            IcmpType::InformationRequest => 15,
            IcmpType::InformationReply => 16,
            IcmpType::AddressMaskRequest => 17,
            IcmpType::AddressMaskReply => 18,
            IcmpType::ReservedSecurity => 19,
            IcmpType::RobustExperiment20 => 20,
            IcmpType::RobustExperiment21 => 21,
            IcmpType::RobustExperiment22 => 22,
            IcmpType::RobustExperiment23 => 23,
            IcmpType::RobustExperiment24 => 24,
            IcmpType::RobustExperiment25 => 25,
            IcmpType::RobustExperiment26 => 26,
            IcmpType::RobustExperiment27 => 27,
            IcmpType::RobustExperiment28 => 28,
            IcmpType::RobustExperiment29 => 29,
            IcmpType::Traceroute => 30,
            IcmpType::DatagramConversionError => 31,
            IcmpType::MobileHostRedirect => 32,
            IcmpType::IPv6WhereAreYou => 33,
            IcmpType::IPv6IAmHere => 34,
            IcmpType::MobileRegistrationRequest => 35,
            IcmpType::MobileRegistrationReply => 36,
            IcmpType::DomainNameRequest => 37,
            IcmpType::DomainNameReply => 38,
            IcmpType::Dkip => 39,
            IcmpType::Photuris => 40,
            IcmpType::ExperimentalMobility41 => 41,
        }
    }

    /// The wire value of the variant.
    pub fn to_u8(&self) -> (r: u8)
        ensures
            r == self.spec_to_u8(),
    {
        match self {
            IcmpType::EchoReply => 0,
            IcmpType::DestinationUnreachable => 3,
            IcmpType::SourceQuench => 4,
            IcmpType::Redirect => 5,
            IcmpType::EchoRequest => 8,
            IcmpType::RouterAdvertisement => 9,
            IcmpType::RouterSolicitation => 10,
            IcmpType::TimeExceeded => 11,
            IcmpType::ParameterProblem => 12,
            IcmpType::Timestamp => 13,
            IcmpType::TimestampReply => 14,
            IcmpType::InformationRequest => 15,
            IcmpType::InformationReply => 16,
            IcmpType::AddressMaskRequest => 17,
            IcmpType::AddressMaskReply => 18,
            IcmpType::ReservedSecurity => 19,
            IcmpType::RobustExperiment20 => 20,
            IcmpType::RobustExperiment21 => 21,
            IcmpType::RobustExperiment22 => 22,
            IcmpType::RobustExperiment23 => 23,
            IcmpType::RobustExperiment24 => 24,
            IcmpType::RobustExperiment25 => 25,
            IcmpType::RobustExperiment26 => 26,
            IcmpType::RobustExperiment27 => 27,
            IcmpType::RobustExperiment28 => 28,
            IcmpType::RobustExperiment29 => 29,
            IcmpType::Traceroute => 30,
            IcmpType::DatagramConversionError => 31,
            IcmpType::MobileHostRedirect => 32,
            IcmpType::IPv6WhereAreYou => 33,
            IcmpType::IPv6IAmHere => 34,
            IcmpType::MobileRegistrationRequest => 35,
            IcmpType::MobileRegistrationReply => 36,
            IcmpType::DomainNameRequest => 37,
            IcmpType::DomainNameReply => 38,
            IcmpType::Dkip => 39,
            IcmpType::Photuris => 40,
            IcmpType::ExperimentalMobility41 => 41,
        }
    }

    /// What decoding `raw` gives: its variant, or `UnknownEnum` with the value.
    pub open spec fn spec_decode(raw: u8) -> Result<IcmpType, Error> {
        match Self::spec_from_u8(raw) {
            Some(v) => Ok(v),
            None => Err(Error::UnknownEnum(spec_widen_u8(raw), "IcmpType")),
        }
    }

    /// Decodes a wire value; an unknown one is an `UnknownEnum` error.
    pub fn decode(raw: u8) -> (res: Result<IcmpType, Error>)
        ensures
            res == Self::spec_decode(raw),
    {
        match Self::from_u8(raw) {
            Some(v) => Ok(v),
            None => Err(Error::UnknownEnum(widen_u8(raw), "IcmpType")),
        }
    }

    /// Every variant is what its own wire value decodes to, and only that
    /// value decodes to it.
    pub proof fn lemma_wire_value(self)
        ensures
            Self::spec_decode(self.spec_to_u8()) == Ok::<IcmpType, Error>(self),
            forall|raw: u8| Self::spec_from_u8(raw) == Some(self) ==> raw == self.spec_to_u8(),
    {
    }
}

/// ARP opcodes.
#[derive(Debug, PartialEq, Eq, Clone, Copy)]
pub enum ArpOp {
    Reserved0,
    Request,
    Reply,
    RequestReverse,
    ReplyReverse,
    DrArpRequest,
    DrArpReply,
    DrArpError,
    InArpRequest,
    InArpReply,
    ArpNak,
    MarsRequest,
    MarsMulti,
    MarsMServ,
    MarsJoin,
    MarsLeave,
    MarsNak,
    MarsUnserv,
    MarsSJoin,
    MarsSLeave,
    MarsGrouplistRequest,
    MarsGrouListReply,
    MarsRedirectMap,
    MarsUnArp,
    OpExp1,
    OpExp2,
    Reserved65535,
}

impl ArpOp {
    /// The variant whose wire value is `raw`, if there is one.
    pub open spec fn spec_from_u16(raw: u16) -> Option<ArpOp> {
        match raw {
            0 => Some(ArpOp::Reserved0),
            1 => Some(ArpOp::Request),
            2 => Some(ArpOp::Reply),
            3 => Some(ArpOp::RequestReverse),
            4 => Some(ArpOp::ReplyReverse),
            5 => Some(ArpOp::DrArpRequest),
            6 => Some(ArpOp::DrArpReply),
            7 => Some(ArpOp::DrArpError),
            8 => Some(ArpOp::InArpRequest),
            9 => Some(ArpOp::InArpReply),
            10 => Some(ArpOp::ArpNak),
            11 => Some(ArpOp::MarsRequest),
            12 => Some(ArpOp::MarsMulti),
            13 => Some(ArpOp::MarsMServ),
            14 => Some(ArpOp::MarsJoin),
            15 => Some(ArpOp::MarsLeave),
            16 => Some(ArpOp::MarsNak),
            17 => Some(ArpOp::MarsUnserv),
            18 => Some(ArpOp::MarsSJoin),
            19 => Some(ArpOp::MarsSLeave),
            20 => Some(ArpOp::MarsGrouplistRequest),
            21 => Some(ArpOp::MarsGrouListReply),
            22 => Some(ArpOp::MarsRedirectMap),
            23 => Some(ArpOp::MarsUnArp),
            24 => Some(ArpOp::OpExp1),
            25 => Some(ArpOp::OpExp2),
            0xFFFF => Some(ArpOp::Reserved65535),
            _ => None,
        }
    }

    /// The variant whose wire value is `raw`, if there is one.
    pub fn from_u16(raw: u16) -> (res: Option<ArpOp>)
        ensures
            res == Self::spec_from_u16(raw),
    {
        match raw {
            0 => Some(ArpOp::Reserved0),
            1 => Some(ArpOp::Request),
            2 => Some(ArpOp::Reply),
            3 => Some(ArpOp::RequestReverse),
            4 => Some(ArpOp::ReplyReverse),
            5 => Some(ArpOp::DrArpRequest),
            6 => Some(ArpOp::DrArpReply),
            7 => Some(ArpOp::DrArpError),
            8 => Some(ArpOp::InArpRequest),
            9 => Some(ArpOp::InArpReply),
            10 => Some(ArpOp::ArpNak),
            11 => Some(ArpOp::MarsRequest),
            12 => Some(ArpOp::MarsMulti),
            13 => Some(ArpOp::MarsMServ),
            14 => Some(ArpOp::MarsJoin),
            15 => Some(ArpOp::MarsLeave),
            16 => Some(ArpOp::MarsNak),
            17 => Some(ArpOp::MarsUnserv),
            18 => Some(ArpOp::MarsSJoin),
            19 => Some(ArpOp::MarsSLeave),
            20 => Some(ArpOp::MarsGrouplistRequest),
            21 => Some(ArpOp::MarsGrouListReply),
            22 => Some(ArpOp::MarsRedirectMap),
            23 => Some(ArpOp::MarsUnArp),
            24 => Some(ArpOp::OpExp1),
            25 => Some(ArpOp::OpExp2),
            0xFFFF => Some(ArpOp::Reserved65535),
            _ => None,
        }
    }

    /// The wire value of the variant.
    pub open spec fn spec_to_u16(self) -> u16 {
        match self {
            ArpOp::Reserved0 => 0,
            ArpOp::Request => 1,
            ArpOp::Reply => 2,
            ArpOp::RequestReverse => 3,
            ArpOp::ReplyReverse => 4,
            ArpOp::DrArpRequest => 5,
            ArpOp::DrArpReply => 6,
            ArpOp::DrArpError => 7,
            ArpOp::InArpRequest => 8,
            ArpOp::InArpReply => 9,
            ArpOp::ArpNak => 10,
            ArpOp::MarsRequest => 11,
            ArpOp::MarsMulti => 12,
            ArpOp::MarsMServ => 13,
            ArpOp::MarsJoin => 14,
            ArpOp::MarsLeave => 15,
            ArpOp::MarsNak => 16,
            ArpOp::MarsUnserv => 17,
            ArpOp::MarsSJoin => 18,
            ArpOp::MarsSLeave => 19,
            ArpOp::MarsGrouplistRequest => 20,
            ArpOp::MarsGrouListReply => 21,
            ArpOp::MarsRedirectMap => 22,
            ArpOp::MarsUnArp => 23,
            ArpOp::OpExp1 => 24,
            ArpOp::OpExp2 => 25,
            ArpOp::Reserved65535 => 0xFFFF,
        }
    }

    /// The wire value of the variant.
    pub fn to_u16(&self) -> (r: u16)
        ensures
            r == self.spec_to_u16(),
    {
        match self {
            ArpOp::Reserved0 => 0,
            ArpOp::Request => 1,
            ArpOp::Reply => 2,
            ArpOp::RequestReverse => 3,
            ArpOp::ReplyReverse => 4,
            ArpOp::DrArpRequest => 5,
            ArpOp::DrArpReply => 6,
            ArpOp::DrArpError => 7,
            ArpOp::InArpRequest => 8,
            ArpOp::InArpReply => 9,
            ArpOp::ArpNak => 10,
            ArpOp::MarsRequest => 11,
            ArpOp::MarsMulti => 12,
            ArpOp::MarsMServ => 13,
            ArpOp::MarsJoin => 14,
            ArpOp::MarsLeave => 15,
            ArpOp::MarsNak => 16,
            ArpOp::MarsUnserv => 17,
            ArpOp::MarsSJoin => 18,
            ArpOp::MarsSLeave => 19,
            ArpOp::MarsGrouplistRequest => 20,
            ArpOp::MarsGrouListReply => 21,
            ArpOp::MarsRedirectMap => 22,
            ArpOp::MarsUnArp => 23,
            ArpOp::OpExp1 => 24,
            ArpOp::OpExp2 => 25,
            ArpOp::Reserved65535 => 0xFFFF,
        }
    }

    /// What decoding `raw` gives: its variant, or `UnknownEnum` with the value.
    pub open spec fn spec_decode(raw: u16) -> Result<ArpOp, Error> {
        match Self::spec_from_u16(raw) {
            Some(v) => Ok(v),
            None => Err(Error::UnknownEnum(raw as u64, "ArpOp")),
        }
    }

    /// Decodes a wire value; an unknown one is an `UnknownEnum` error.
    pub fn decode(raw: u16) -> (res: Result<ArpOp, Error>)
        ensures
            res == Self::spec_decode(raw),
    {
        match Self::from_u16(raw) {
            Some(v) => Ok(v),
            None => Err(Error::UnknownEnum(raw as u64, "ArpOp")),
        }
    }

    /// Every variant is what its own wire value decodes to, and only that
    /// value decodes to it.
    pub proof fn lemma_wire_value(self)
        ensures
            Self::spec_decode(self.spec_to_u16()) == Ok::<ArpOp, Error>(self),
            forall|raw: u16| Self::spec_from_u16(raw) == Some(self) ==> raw == self.spec_to_u16(),
    {
    }
}

/// ICMPv6 message types.
#[derive(Debug, PartialEq, Eq, Clone, Copy)]
pub enum IcmpV6Type {
    Reserved0,
    DestinationUnreachable,
    PacketTooBig,
    TimeExceeded,
    ParameterProblem,
    PrivateExperimentation100,
    PrivateExperimentation101,
    Reserved127,
    EchoRequest,
    EchoReply,
    MulticastListenerQuery,
    MulticastListenerReport,
    MulticastListenerDone,
    RouterSolicitation,
    RouterAdvertisement,
    NeighborSolicitation,
    NeighborAdvertisement,
    RedirectMessage,
    RouterRenumbering,
    IcmpNodeInformationQuery,
    IcmpNodeInformationResponse,
    InverseNeighborDiscoverySolicitationMessage,
    InverseNeighborDiscoveryAdvertisementMessage,
    Version2MulticastListenerReport,
    HomeAgentAddressDiscoveryRequestMessage,
    HomeAgentAddressDiscoveryReplyMessage,
    MobilePrfixSolicitation,
    MobilePrefixAdvertisement,
    CertificationPathSolicitationMessage,
    CertificationPathAdvertisementMessage,
    ExperimentalMobility150,
    MulticastRouterAdvertisement,
    MulticastRouterSolicitation,
    MulticastRouterTermination,
    FmIPv6Messages,
    RplControlMessage,
    IlnpV6LocatorUpdateMessage,
    DuplicateAddressRequest,
    DuplicateAddressConfirmation,
    MplControlMessage,
    ExtendedEchoRequest,
    ExtendedEchoReply,
    PrivateExperimentation200,
    PrivateExperimentation201,
    Reserved255,
}

impl IcmpV6Type {
    /// The variant whose wire value is `raw`, if there is one.
    pub open spec fn spec_from_u8(raw: u8) -> Option<IcmpV6Type> {
        match raw {
            0 => Some(IcmpV6Type::Reserved0),
            1 => Some(IcmpV6Type::DestinationUnreachable),
            2 => Some(IcmpV6Type::PacketTooBig),
            3 => Some(IcmpV6Type::TimeExceeded),
            4 => Some(IcmpV6Type::ParameterProblem),
            100 => Some(IcmpV6Type::PrivateExperimentation100),
            101 => Some(IcmpV6Type::PrivateExperimentation101),
            127 => Some(IcmpV6Type::Reserved127),
            128 => Some(IcmpV6Type::EchoRequest),
            129 => Some(IcmpV6Type::EchoReply),
            130 => Some(IcmpV6Type::MulticastListenerQuery),
            131 => Some(IcmpV6Type::MulticastListenerReport),
            132 => Some(IcmpV6Type::MulticastListenerDone),
            133 => Some(IcmpV6Type::RouterSolicitation),
            134 => Some(IcmpV6Type::RouterAdvertisement),
            135 => Some(IcmpV6Type::NeighborSolicitation),
            136 => Some(IcmpV6Type::NeighborAdvertisement),
            137 => Some(IcmpV6Type::RedirectMessage),
            138 => Some(IcmpV6Type::RouterRenumbering),
            139 => Some(IcmpV6Type::IcmpNodeInformationQuery),
            140 => Some(IcmpV6Type::IcmpNodeInformationResponse),
            141 => Some(IcmpV6Type::InverseNeighborDiscoverySolicitationMessage),
            142 => Some(IcmpV6Type::InverseNeighborDiscoveryAdvertisementMessage),
            143 => Some(IcmpV6Type::Version2MulticastListenerReport),
            144 => Some(IcmpV6Type::HomeAgentAddressDiscoveryRequestMessage),
            145 => Some(IcmpV6Type::HomeAgentAddressDiscoveryReplyMessage),
            146 => Some(IcmpV6Type::MobilePrfixSolicitation),
            147 => Some(IcmpV6Type::MobilePrefixAdvertisement),
            148 => Some(IcmpV6Type::CertificationPathSolicitationMessage),
            149 => Some(IcmpV6Type::CertificationPathAdvertisementMessage),
            150 => Some(IcmpV6Type::ExperimentalMobility150),
            151 => Some(IcmpV6Type::MulticastRouterAdvertisement),
            152 => Some(IcmpV6Type::MulticastRouterSolicitation),
            153 => Some(IcmpV6Type::MulticastRouterTermination),
            154 => Some(IcmpV6Type::FmIPv6Messages),
            155 => Some(IcmpV6Type::RplControlMessage),
            156 => Some(IcmpV6Type::IlnpV6LocatorUpdateMessage),
            157 => Some(IcmpV6Type::DuplicateAddressRequest),
            158 => Some(IcmpV6Type::DuplicateAddressConfirmation),
            159 => Some(IcmpV6Type::MplControlMessage),
            160 => Some(IcmpV6Type::ExtendedEchoRequest),
            161 => Some(IcmpV6Type::ExtendedEchoReply),
            200 => Some(IcmpV6Type::PrivateExperimentation200),
            201 => Some(IcmpV6Type::PrivateExperimentation201),
            255 => Some(IcmpV6Type::Reserved255),
            _ => None,
        }
    }

    /// The variant whose wire value is `raw`, if there is one.
    pub fn from_u8(raw: u8) -> (res: Option<IcmpV6Type>)
        ensures
            res == Self::spec_from_u8(raw),
    {
        match raw {
            0 => Some(IcmpV6Type::Reserved0),
            1 => Some(IcmpV6Type::DestinationUnreachable),
            2 => Some(IcmpV6Type::PacketTooBig),
            3 => Some(IcmpV6Type::TimeExceeded),
            4 => Some(IcmpV6Type::ParameterProblem),
            100 => Some(IcmpV6Type::PrivateExperimentation100),
            101 => Some(IcmpV6Type::PrivateExperimentation101),
            127 => Some(IcmpV6Type::Reserved127),
            128 => Some(IcmpV6Type::EchoRequest),
            129 => Some(IcmpV6Type::EchoReply),
            130 => Some(IcmpV6Type::MulticastListenerQuery),
            131 => Some(IcmpV6Type::MulticastListenerReport),
            132 => Some(IcmpV6Type::MulticastListenerDone),
            133 => Some(IcmpV6Type::RouterSolicitation),
            134 => Some(IcmpV6Type::RouterAdvertisement),
            135 => Some(IcmpV6Type::NeighborSolicitation),
            136 => Some(IcmpV6Type::NeighborAdvertisement),
            137 => Some(IcmpV6Type::RedirectMessage),
            138 => Some(IcmpV6Type::RouterRenumbering),
            139 => Some(IcmpV6Type::IcmpNodeInformationQuery),
            140 => Some(IcmpV6Type::IcmpNodeInformationResponse),
            141 => Some(IcmpV6Type::InverseNeighborDiscoverySolicitationMessage),
            142 => Some(IcmpV6Type::InverseNeighborDiscoveryAdvertisementMessage),
            143 => Some(IcmpV6Type::Version2MulticastListenerReport),
            144 => Some(IcmpV6Type::HomeAgentAddressDiscoveryRequestMessage),
            145 => Some(IcmpV6Type::HomeAgentAddressDiscoveryReplyMessage),
            146 => Some(IcmpV6Type::MobilePrfixSolicitation),
            147 => Some(IcmpV6Type::MobilePrefixAdvertisement),
            148 => Some(IcmpV6Type::CertificationPathSolicitationMessage),
            149 => Some(IcmpV6Type::CertificationPathAdvertisementMessage),
            150 => Some(IcmpV6Type::ExperimentalMobility150),
            151 => Some(IcmpV6Type::MulticastRouterAdvertisement),
            152 => Some(IcmpV6Type::MulticastRouterSolicitation),
            153 => Some(IcmpV6Type::MulticastRouterTermination),
            154 => Some(IcmpV6Type::FmIPv6Messages),
            155 => Some(IcmpV6Type::RplControlMessage),
            156 => Some(IcmpV6Type::IlnpV6LocatorUpdateMessage),
            157 => Some(IcmpV6Type::DuplicateAddressRequest),
            158 => Some(IcmpV6Type::DuplicateAddressConfirmation),
            159 => Some(IcmpV6Type::MplControlMessage),
            160 => Some(IcmpV6Type::ExtendedEchoRequest),
            161 => Some(IcmpV6Type::ExtendedEchoReply),
            200 => Some(IcmpV6Type::PrivateExperimentation200),
            201 => Some(IcmpV6Type::PrivateExperimentation201),
            255 => Some(IcmpV6Type::Reserved255),
            _ => None,
        }
    }

    /// The wire value of the variant.
    pub open spec fn spec_to_u8(self) -> u8 {
        match self {
            IcmpV6Type::Reserved0 => 0,
            IcmpV6Type::DestinationUnreachable => 1,
            IcmpV6Type::PacketTooBig => 2,
            IcmpV6Type::TimeExceeded => 3,
            IcmpV6Type::ParameterProblem => 4,
            IcmpV6Type::PrivateExperimentation100 => 100,
            IcmpV6Type::PrivateExperimentation101 => 101,
            IcmpV6Type::Reserved127 => 127,
            IcmpV6Type::EchoRequest => 128,
            IcmpV6Type::EchoReply => 129,
            IcmpV6Type::MulticastListenerQuery => 130,
            IcmpV6Type::MulticastListenerReport => 131,
            IcmpV6Type::MulticastListenerDone => 132,
            IcmpV6Type::RouterSolicitation => 133,
            IcmpV6Type::RouterAdvertisement => 134,
            IcmpV6Type::NeighborSolicitation => 135,
            IcmpV6Type::NeighborAdvertisement => 136,
            IcmpV6Type::RedirectMessage => 137,
            IcmpV6Type::RouterRenumbering => 138,
            IcmpV6Type::IcmpNodeInformationQuery => 139,
            IcmpV6Type::IcmpNodeInformationResponse => 140,
            IcmpV6Type::InverseNeighborDiscoverySolicitationMessage => 141,
            IcmpV6Type::InverseNeighborDiscoveryAdvertisementMessage => 142,
            IcmpV6Type::Version2MulticastListenerReport => 143,
            IcmpV6Type::HomeAgentAddressDiscoveryRequestMessage => 144,
            IcmpV6Type::HomeAgentAddressDiscoveryReplyMessage => 145,
            IcmpV6Type::MobilePrfixSolicitation => 146,
            IcmpV6Type::MobilePrefixAdvertisement => 147,
            IcmpV6Type::CertificationPathSolicitationMessage => 148,
            IcmpV6Type::CertificationPathAdvertisementMessage => 149,
            IcmpV6Type::ExperimentalMobility150 => 150,
            IcmpV6Type::MulticastRouterAdvertisement => 151,
            IcmpV6Type::MulticastRouterSolicitation => 152,
            IcmpV6Type::MulticastRouterTermination => 153,
            IcmpV6Type::FmIPv6Messages => 154,
            IcmpV6Type::RplControlMessage => 155,
            IcmpV6Type::IlnpV6LocatorUpdateMessage => 156,
            IcmpV6Type::DuplicateAddressRequest => 157,
            IcmpV6Type::DuplicateAddressConfirmation => 158,
            IcmpV6Type::MplControlMessage => 159,
            IcmpV6Type::ExtendedEchoRequest => 160,
            IcmpV6Type::ExtendedEchoReply => 161,
            IcmpV6Type::PrivateExperimentation200 => 200,
            IcmpV6Type::PrivateExperimentation201 => 201,
            IcmpV6Type::Reserved255 => 255,
        }
    }

    /// The wire value of the variant.
    pub fn to_u8(&self) -> (r: u8)
        ensures
            r == self.spec_to_u8(),
    {
        match self {
            IcmpV6Type::Reserved0 => 0,
            IcmpV6Type::DestinationUnreachable => 1,
            IcmpV6Type::PacketTooBig => 2,
            IcmpV6Type::TimeExceeded => 3,
            IcmpV6Type::ParameterProblem => 4,
            IcmpV6Type::PrivateExperimentation100 => 100,
            IcmpV6Type::PrivateExperimentation101 => 101,
            IcmpV6Type::Reserved127 => 127,
            IcmpV6Type::EchoRequest => 128,
            IcmpV6Type::EchoReply => 129,
            IcmpV6Type::MulticastListenerQuery => 130,
            IcmpV6Type::MulticastListenerReport => 131,
            IcmpV6Type::MulticastListenerDone => 132,
            IcmpV6Type::RouterSolicitation => 133,
            IcmpV6Type::RouterAdvertisement => 134,
            IcmpV6Type::NeighborSolicitation => 135,
            IcmpV6Type::NeighborAdvertisement => 136,
            IcmpV6Type::RedirectMessage => 137,
            IcmpV6Type::RouterRenumbering => 138,
            IcmpV6Type::IcmpNodeInformationQuery => 139,
            IcmpV6Type::IcmpNodeInformationResponse => 140,
            IcmpV6Type::InverseNeighborDiscoverySolicitationMessage => 141,
            IcmpV6Type::InverseNeighborDiscoveryAdvertisementMessage => 142,
            IcmpV6Type::Version2MulticastListenerReport => 143,
            IcmpV6Type::HomeAgentAddressDiscoveryRequestMessage => 144,
            IcmpV6Type::HomeAgentAddressDiscoveryReplyMessage => 145,
            IcmpV6Type::MobilePrfixSolicitation => 146,
            IcmpV6Type::MobilePrefixAdvertisement => 147,
            IcmpV6Type::CertificationPathSolicitationMessage => 148,
            IcmpV6Type::CertificationPathAdvertisementMessage => 149,
            IcmpV6Type::ExperimentalMobility150 => 150,
            IcmpV6Type::MulticastRouterAdvertisement => 151,
            IcmpV6Type::MulticastRouterSolicitation => 152,
            IcmpV6Type::MulticastRouterTermination => 153,
            IcmpV6Type::FmIPv6Messages => 154,
            IcmpV6Type::RplControlMessage => 155,
            IcmpV6Type::IlnpV6LocatorUpdateMessage => 156,
            IcmpV6Type::DuplicateAddressRequest => 157,
            IcmpV6Type::DuplicateAddressConfirmation => 158,
            IcmpV6Type::MplControlMessage => 159,
            IcmpV6Type::ExtendedEchoRequest => 160,
            IcmpV6Type::ExtendedEchoReply => 161,
            IcmpV6Type::PrivateExperimentation200 => 200,
            IcmpV6Type::PrivateExperimentation201 => 201,
            IcmpV6Type::Reserved255 => 255,
        }
    }

    /// What decoding `raw` gives: its variant, or `UnknownEnum` with the value.
    pub open spec fn spec_decode(raw: u8) -> Result<IcmpV6Type, Error> {
        match Self::spec_from_u8(raw) {
            Some(v) => Ok(v),
            None => Err(Error::UnknownEnum(spec_widen_u8(raw), "IcmpV6Type")),
        }
    }

    /// Decodes a wire value; an unknown one is an `UnknownEnum` error.
    pub fn decode(raw: u8) -> (res: Result<IcmpV6Type, Error>)
        ensures
            res == Self::spec_decode(raw),
    {
        match Self::from_u8(raw) {
            Some(v) => Ok(v),
            None => Err(Error::UnknownEnum(widen_u8(raw), "IcmpV6Type")),
        }
    }

    /// Every variant is what its own wire value decodes to, and only that
    /// value decodes to it.
    pub proof fn lemma_wire_value(self)
        ensures
            Self::spec_decode(self.spec_to_u8()) == Ok::<IcmpV6Type, Error>(self),
            forall|raw: u8| Self::spec_from_u8(raw) == Some(self) ==> raw == self.spec_to_u8(),
    {
    }
}

/// The header word of an OXM TLV: bits 0 to 7 hold the length of the value in
/// bytes, bit 8 says whether a mask follows, bits 9 to 15 hold the field id and
/// bits 16 to 31 the class.
#[derive(Debug, PartialEq, Eq, Clone, Copy)]
pub struct OxmTlvHeader(pub u32);

impl OxmTlvHeader {
    /// The length of the value in bytes.
    pub open spec fn spec_get_length(self) -> u32 {
        self.0 & 0xff
    }

    /// Whether the value carries a mask: 1 or 0.
    pub open spec fn spec_get_hasmask(self) -> u32 {
        (self.0 >> 8) & 0x1
    }

    /// The id of the field.
    pub open spec fn spec_get_oxm_field(self) -> u32 {
        (self.0 >> 9) & 0x7f
    }

    /// The class of the field.
    pub open spec fn spec_get_oxm_class(self) -> u32 {
        self.0 >> 16
    }

    /// The length of the value in bytes.
    pub fn get_length(&self) -> (r: u32)
        ensures
            r == self.spec_get_length(),
            r <= 0xff,
    {
        let raw: u32 = self.0;
        assert(raw & 0xff <= 0xff) by (bit_vector);
        raw & 0xff
    }

    /// Whether the value carries a mask: 1 or 0.
    pub fn get_hasmask(&self) -> (r: u32)
        ensures
            r == self.spec_get_hasmask(),
    {
        (self.0 >> 8) & 0x1
    }

    /// The id of the field.
    pub fn get_oxm_field(&self) -> (r: u32)
        ensures
            r == self.spec_get_oxm_field(),
    {
        (self.0 >> 9) & 0x7f
    }

    /// The class of the field.
    pub fn get_oxm_class(&self) -> (r: u32)
        ensures
            r == self.spec_get_oxm_class(),
    {
        self.0 >> 16
    }

    /// The header word of a field of the OpenFlow basic class without a mask.
    pub fn basic(field: OfbMatchFields, length: u8) -> (res: OxmTlvHeader)
        ensures
            res.spec_get_oxm_class() == 0x8000,
            res.spec_get_oxm_field() == field.spec_to_u32(),
            res.spec_get_hasmask() == 0,
            res.spec_get_length() == length,
    {
        let f: u32 = field.to_u32();
        let l: u32 = length as u32;
        assert(f < 0x80);
        assert(((0x8000_0000u32 | (f << 9) | l) >> 16) == 0x8000 && (((0x8000_0000u32 | (f << 9)
            | l) >> 9) & 0x7f) == f && (((0x8000_0000u32 | (f << 9) | l) >> 8) & 0x1) == 0 && ((
        0x8000_0000u32 | (f << 9) | l) & 0xff) == l) by (bit_vector)
            requires
                f < 0x80,
                l <= 0xff,
        ;
        OxmTlvHeader(0x8000_0000u32 | (f << 9) | l)
    }
}

/// The flags of the IPv6 extension header pseudo-field, as one word.
#[derive(Debug, PartialEq, Eq, Clone, Copy)]
pub struct IPv6ExtHdrFlags(pub u16);

impl IPv6ExtHdrFlags {
    /// Whether every bit of `mask` is set.
    pub fn contains(&self, mask: u16) -> (r: bool)
        ensures
            r == (self.0 & mask == mask),
    {
        self.0 & mask == mask
    }
}

/// "No next header" encountered.
pub const IPV6_EXT_HDR_NO_NEXT: u16 = 0x1;

/// Encrypted security payload header present.
pub const IPV6_EXT_HDR_ESP: u16 = 0x2;

/// Authentication header present.
pub const IPV6_EXT_HDR_AUTH: u16 = 0x4;

/// One or two destination headers present.
pub const IPV6_EXT_HDR_DEST: u16 = 0x8;

/// Fragment header present.
pub const IPV6_EXT_HDR_FRAG: u16 = 0x10;

/// Router header present.
pub const IPV6_EXT_HDR_ROUTER: u16 = 0x20;

/// Hop-by-hop header present.
pub const IPV6_EXT_HDR_HOP: u16 = 0x40;

/// Unexpected repeats encountered.
pub const IPV6_EXT_HDR_UNREP: u16 = 0x80;

/// Unexpected sequencing encountered.
pub const IPV6_EXT_HDR_UNSEQ: u16 = 0x100;

/// Switch input port.
#[derive(Debug, PartialEq, Eq, Clone, Copy)]
pub struct PayloadInPort {
    /// The switch input port.
    pub ingress_port: PortNumber,
}

impl PayloadInPort {
    /// Every field holds a value that the wire format can carry.
    pub open spec fn wf(self) -> bool {
        &&& self.ingress_port.wf()
    }

    /// What `b` decodes to: a slice of another length than 4 is refused, then
    /// each field is decoded in wire order and the first failure is the result.
    pub open spec fn spec_try_from(b: Seq<u8>) -> Result<PayloadInPort, Error> {
        if b.len() != 4 {
            Err(Error::InvalidSliceLength(4, b.len() as usize, "PayloadInPort"))
        } else {
            match PortNumber::spec_try_from(spec_u32_at(b, 0)) {
                Err(e) => Err(e),
                Ok(ingress_port) => Ok(PayloadInPort { ingress_port }),
            }
        }
    }

    /// Decodes the 4 bytes of a `PayloadInPort`.
    pub fn try_from(bytes: &[u8]) -> (res: Result<PayloadInPort, Error>)
        ensures
            res == Self::spec_try_from(bytes@),
    {
        if bytes.len() != 4 {
            return Err(Error::InvalidSliceLength(4, bytes.len(), "PayloadInPort"));
        }
        let ingress_port = match PortNumber::try_from(get_u32(bytes, 0)) {
            Ok(v) => v,
            Err(e) => return Err(e),
        };
        Ok(PayloadInPort { ingress_port })
    }

    /// The 4 bytes of the record on the wire; padding is zero.
    pub open spec fn wire(self) -> Seq<u8> {
        spec_u32_bytes(self.ingress_port.spec_to_u32())
    }

    /// Appends the wire form to `out`.
    pub fn encode(&self, out: &mut Vec<u8>)
        ensures
            final(out)@ == old(out)@ + self.wire(),
    {
        put_u32(out, self.ingress_port.to_u32());
        assert(out@ =~= old(out)@ + self.wire());
    }

    /// The wire form as a vector of its own.
    pub fn into_bytes(&self) -> (res: Vec<u8>)
        ensures
            res@ == self.wire(),
    {
        let mut out: Vec<u8> = Vec::new();
        self.encode(&mut out);
        out
    }

    /// The wire form is 4 bytes long, and decoding it gives the record back.
    pub proof fn lemma_roundtrip(self)
        requires
            self.wf(),
        ensures
            self.wire().len() == 4,
            Self::spec_try_from(self.wire()) == Ok::<PayloadInPort, Error>(self),
    {
        let w = self.wire();
        assert(spec_u32_at(w, 0) == self.ingress_port.spec_to_u32()) by {
            lemma_u32_at_bytes(w, 0, self.ingress_port.spec_to_u32());
        }
        self.ingress_port.lemma_wire_value();
    }

    /// What a slice decodes to holds what the wire format can carry, and is as
    /// long on the wire as the slice.
    pub proof fn lemma_decoded(b: Seq<u8>)
        requires
            Self::spec_try_from(b) is Ok,
        ensures
            Self::spec_try_from(b)->Ok_0.wf(),
            Self::spec_try_from(b)->Ok_0.wire().len() == b.len(),
    {
    }

    /// Encoding what a slice decodes to gives the slice back, byte for byte.
    pub proof fn lemma_exact(b: Seq<u8>)
        requires
            Self::spec_try_from(b) is Ok,
        ensures
            Self::spec_try_from(b)->Ok_0.wire() == b,
    {
        let v = Self::spec_try_from(b)->Ok_0;
        lemma_u32_bytes_at(b, 0);
        match v.ingress_port {
            PortNumber::Reserved(p) => p.lemma_wire_value(),
            PortNumber::NormalPort(_) => {},
        }
        assert(v.wire() =~= b);
    }
}

/// Switch physical input port.
#[derive(Debug, PartialEq, Eq, Clone, Copy)]
pub struct PayloadInPhyPort {
    /// The physical input port.
    pub phy_port: u32,
}

impl PayloadInPhyPort {
    /// Every field holds a value that the wire format can carry.
    pub open spec fn wf(self) -> bool {
        true
    }

    /// What `b` decodes to: a slice of another length than 4 is refused, then
    /// each field is decoded in wire order and the first failure is the result.
    pub open spec fn spec_try_from(b: Seq<u8>) -> Result<PayloadInPhyPort, Error> {
        if b.len() != 4 {
            Err(Error::InvalidSliceLength(4, b.len() as usize, "PayloadInPhyPort"))
        } else {
            Ok(PayloadInPhyPort { phy_port: spec_u32_at(b, 0) })
        }
    }

    /// Decodes the 4 bytes of a `PayloadInPhyPort`.
    pub fn try_from(bytes: &[u8]) -> (res: Result<PayloadInPhyPort, Error>)
        ensures
            res == Self::spec_try_from(bytes@),
    {
        if bytes.len() != 4 {
            return Err(Error::InvalidSliceLength(4, bytes.len(), "PayloadInPhyPort"));
        }
        let phy_port: u32 = get_u32(bytes, 0);
        Ok(PayloadInPhyPort { phy_port })
    }

    /// The 4 bytes of the record on the wire; padding is zero.
    pub open spec fn wire(self) -> Seq<u8> {
        spec_u32_bytes(self.phy_port)
    }

    /// Appends the wire form to `out`.
    pub fn encode(&self, out: &mut Vec<u8>)
        ensures
            final(out)@ == old(out)@ + self.wire(),
    {
        put_u32(out, self.phy_port);
        assert(out@ =~= old(out)@ + self.wire());
    }

    /// The wire form as a vector of its own.
    pub fn into_bytes(&self) -> (res: Vec<u8>)
        ensures
            res@ == self.wire(),
    {
        let mut out: Vec<u8> = Vec::new();
        self.encode(&mut out);
        out
    }

    /// The wire form is 4 bytes long, and decoding it gives the record back.
    pub proof fn lemma_roundtrip(self)
        requires
            self.wf(),
        ensures
            self.wire().len() == 4,
            Self::spec_try_from(self.wire()) == Ok::<PayloadInPhyPort, Error>(self),
    {
        let w = self.wire();
        assert(spec_u32_at(w, 0) == self.phy_port) by {
            lemma_u32_at_bytes(w, 0, self.phy_port);
        }
    }

    /// What a slice decodes to holds what the wire format can carry, and is as
    /// long on the wire as the slice.
    pub proof fn lemma_decoded(b: Seq<u8>)
        requires
            Self::spec_try_from(b) is Ok,
        ensures
            Self::spec_try_from(b)->Ok_0.wf(),
            Self::spec_try_from(b)->Ok_0.wire().len() == b.len(),
    {
    }

    /// Encoding what a slice decodes to gives the slice back, byte for byte.
    pub proof fn lemma_exact(b: Seq<u8>)
        requires
            Self::spec_try_from(b) is Ok,
        ensures
            Self::spec_try_from(b)->Ok_0.wire() == b,
    {
        let v = Self::spec_try_from(b)->Ok_0;
        lemma_u32_bytes_at(b, 0);
        assert(v.wire() =~= b);
    }
}

/// Metadata passed between tables.
#[derive(Debug, PartialEq, Eq, Clone, Copy)]
pub struct PayloadMetadata {
    /// The metadata value.
    pub metadata: u64,
}

impl PayloadMetadata {
    /// Every field holds a value that the wire format can carry.
    pub open spec fn wf(self) -> bool {
        true
    }

    /// What `b` decodes to: a slice of another length than 8 is refused, then
    /// each field is decoded in wire order and the first failure is the result.
    pub open spec fn spec_try_from(b: Seq<u8>) -> Result<PayloadMetadata, Error> {
        if b.len() != 8 {
            Err(Error::InvalidSliceLength(8, b.len() as usize, "PayloadMetadata"))
        } else {
            Ok(PayloadMetadata { metadata: spec_u64_at(b, 0) })
        }
    }

    /// Decodes the 8 bytes of a `PayloadMetadata`.
    pub fn try_from(bytes: &[u8]) -> (res: Result<PayloadMetadata, Error>)
        ensures
            res == Self::spec_try_from(bytes@),
    {
        if bytes.len() != 8 {
            return Err(Error::InvalidSliceLength(8, bytes.len(), "PayloadMetadata"));
        }
        let metadata: u64 = get_u64(bytes, 0);
        Ok(PayloadMetadata { metadata })
    }

    /// The 8 bytes of the record on the wire; padding is zero.
    pub open spec fn wire(self) -> Seq<u8> {
        spec_u64_bytes(self.metadata)
    }

    /// Appends the wire form to `out`.
    pub fn encode(&self, out: &mut Vec<u8>)
        ensures
            final(out)@ == old(out)@ + self.wire(),
    {
        put_u64(out, self.metadata);
        assert(out@ =~= old(out)@ + self.wire());
    }

    /// The wire form as a vector of its own.
    pub fn into_bytes(&self) -> (res: Vec<u8>)
        ensures
            res@ == self.wire(),
    {
        let mut out: Vec<u8> = Vec::new();
        self.encode(&mut out);
        out
    }

    /// The wire form is 8 bytes long, and decoding it gives the record back.
    pub proof fn lemma_roundtrip(self)
        requires
            self.wf(),
        ensures
            self.wire().len() == 8,
            Self::spec_try_from(self.wire()) == Ok::<PayloadMetadata, Error>(self),
    {
        let w = self.wire();
        assert(spec_u64_at(w, 0) == self.metadata) by {
            lemma_u64_at_bytes(w, 0, self.metadata);
        }
    }

    /// What a slice decodes to holds what the wire format can carry, and is as
    /// long on the wire as the slice.
    pub proof fn lemma_decoded(b: Seq<u8>)
        requires
            Self::spec_try_from(b) is Ok,
        ensures
            Self::spec_try_from(b)->Ok_0.wf(),
            Self::spec_try_from(b)->Ok_0.wire().len() == b.len(),
    {
    }

    /// Encoding what a slice decodes to gives the slice back, byte for byte.
    pub proof fn lemma_exact(b: Seq<u8>)
        requires
            Self::spec_try_from(b) is Ok,
        ensures
            Self::spec_try_from(b)->Ok_0.wire() == b,
    {
        let v = Self::spec_try_from(b)->Ok_0;
        lemma_u64_bytes_at(b, 0);
        assert(v.wire() =~= b);
    }
}

/// Ethernet destination address.
#[derive(Debug, PartialEq, Eq, Clone, Copy)]
pub struct PayloadEthDst {
    /// The destination address.
    pub eth_dst: [u8; 6],
}

impl PayloadEthDst {
    /// Every field holds a value that the wire format can carry.
    pub open spec fn wf(self) -> bool {
        true
    }

    /// What `b` decodes to: a slice of another length than 6 is refused, then
    /// each field is decoded in wire order and the first failure is the result.
    pub open spec fn spec_try_from(b: Seq<u8>) -> Result<PayloadEthDst, Error> {
        if b.len() != 6 {
            Err(Error::InvalidSliceLength(6, b.len() as usize, "PayloadEthDst"))
        } else {
            Ok(PayloadEthDst { eth_dst: spec_eth(b, 0) })
        }
    }

    /// Decodes the 6 bytes of a `PayloadEthDst`.
    pub fn try_from(bytes: &[u8]) -> (res: Result<PayloadEthDst, Error>)
        ensures
            res == Self::spec_try_from(bytes@),
    {
        if bytes.len() != 6 {
            return Err(Error::InvalidSliceLength(6, bytes.len(), "PayloadEthDst"));
        }
        let eth_dst: [u8; 6] = [bytes[0], bytes[1], bytes[2], bytes[3], bytes[4], bytes[5]];
        assert(eth_dst =~= spec_eth(bytes@, 0));
        Ok(PayloadEthDst { eth_dst })
    }

    /// The 6 bytes of the record on the wire; padding is zero.
    pub open spec fn wire(self) -> Seq<u8> {
        self.eth_dst@
    }

    /// Appends the wire form to `out`.
    pub fn encode(&self, out: &mut Vec<u8>)
        ensures
            final(out)@ == old(out)@ + self.wire(),
    {
        put_bytes(out, array_as_slice(&self.eth_dst));
        assert(out@ =~= old(out)@ + self.wire());
    }

    /// The wire form as a vector of its own.
    pub fn into_bytes(&self) -> (res: Vec<u8>)
        ensures
            res@ == self.wire(),
    {
        let mut out: Vec<u8> = Vec::new();
        self.encode(&mut out);
        out
    }

    /// The wire form is 6 bytes long, and decoding it gives the record back.
    pub proof fn lemma_roundtrip(self)
        requires
            self.wf(),
        ensures
            self.wire().len() == 6,
            Self::spec_try_from(self.wire()) == Ok::<PayloadEthDst, Error>(self),
    {
        let w = self.wire();
        assert(spec_eth(w, 0) == self.eth_dst) by {
            assert(self.eth_dst@.len() == 6);
            assert(spec_eth(w, 0) =~= self.eth_dst);
        }
    }

    /// What a slice decodes to holds what the wire format can carry, and is as
    /// long on the wire as the slice.
    pub proof fn lemma_decoded(b: Seq<u8>)
        requires
            Self::spec_try_from(b) is Ok,
        ensures
            Self::spec_try_from(b)->Ok_0.wf(),
            Self::spec_try_from(b)->Ok_0.wire().len() == b.len(),
    {
    }

    /// Encoding what a slice decodes to gives the slice back, byte for byte.
    pub proof fn lemma_exact(b: Seq<u8>)
        requires
            Self::spec_try_from(b) is Ok,
        ensures
            Self::spec_try_from(b)->Ok_0.wire() == b,
    {
        let v = Self::spec_try_from(b)->Ok_0;
        assert(v.eth_dst@ =~= b.subrange(0, 6));
        assert(v.wire() =~= b);
    }
}

/// Ethernet source address.
#[derive(Debug, PartialEq, Eq, Clone, Copy)]
pub struct PayloadEthSrc {
    /// The source address.
    pub eth_src: [u8; 6],
}

impl PayloadEthSrc {
    /// Every field holds a value that the wire format can carry.
    pub open spec fn wf(self) -> bool {
        true
    }

    /// What `b` decodes to: a slice of another length than 6 is refused, then
    /// each field is decoded in wire order and the first failure is the result.
    pub open spec fn spec_try_from(b: Seq<u8>) -> Result<PayloadEthSrc, Error> {
        if b.len() != 6 {
            Err(Error::InvalidSliceLength(6, b.len() as usize, "PayloadEthSrc"))
        } else {
            Ok(PayloadEthSrc { eth_src: spec_eth(b, 0) })
        }
    }

    /// Decodes the 6 bytes of a `PayloadEthSrc`.
    pub fn try_from(bytes: &[u8]) -> (res: Result<PayloadEthSrc, Error>)
        ensures
            res == Self::spec_try_from(bytes@),
    {
        if bytes.len() != 6 {
            return Err(Error::InvalidSliceLength(6, bytes.len(), "PayloadEthSrc"));
        }
        let eth_src: [u8; 6] = [bytes[0], bytes[1], bytes[2], bytes[3], bytes[4], bytes[5]];
        assert(eth_src =~= spec_eth(bytes@, 0));
        Ok(PayloadEthSrc { eth_src })
    }

    /// The 6 bytes of the record on the wire; padding is zero.
    pub open spec fn wire(self) -> Seq<u8> {
        self.eth_src@
    }

    /// Appends the wire form to `out`.
    pub fn encode(&self, out: &mut Vec<u8>)
        ensures
            final(out)@ == old(out)@ + self.wire(),
    {
        put_bytes(out, array_as_slice(&self.eth_src));
        assert(out@ =~= old(out)@ + self.wire());
    }

    /// The wire form as a vector of its own.
    pub fn into_bytes(&self) -> (res: Vec<u8>)
        ensures
            res@ == self.wire(),
    {
        let mut out: Vec<u8> = Vec::new();
        self.encode(&mut out);
        out
    }

    /// The wire form is 6 bytes long, and decoding it gives the record back.
    pub proof fn lemma_roundtrip(self)
        requires
            self.wf(),
        ensures
            self.wire().len() == 6,
            Self::spec_try_from(self.wire()) == Ok::<PayloadEthSrc, Error>(self),
    {
        let w = self.wire();
        assert(spec_eth(w, 0) == self.eth_src) by {
            assert(self.eth_src@.len() == 6);
            assert(spec_eth(w, 0) =~= self.eth_src);
        }
    }

    /// What a slice decodes to holds what the wire format can carry, and is as
    /// long on the wire as the slice.
    pub proof fn lemma_decoded(b: Seq<u8>)
        requires
            Self::spec_try_from(b) is Ok,
        ensures
            Self::spec_try_from(b)->Ok_0.wf(),
            Self::spec_try_from(b)->Ok_0.wire().len() == b.len(),
    {
    }

    /// Encoding what a slice decodes to gives the slice back, byte for byte.
    pub proof fn lemma_exact(b: Seq<u8>)
        requires
            Self::spec_try_from(b) is Ok,
        ensures
            Self::spec_try_from(b)->Ok_0.wire() == b,
    {
        let v = Self::spec_try_from(b)->Ok_0;
        assert(v.eth_src@ =~= b.subrange(0, 6));
        assert(v.wire() =~= b);
    }
}

/// Ethernet frame type.
#[derive(Debug, PartialEq, Eq, Clone, Copy)]
pub struct PayloadEthType {
    /// The frame type.
    pub ttype: EtherType,
}

impl PayloadEthType {
    /// Every field holds a value that the wire format can carry.
    pub open spec fn wf(self) -> bool {
        true
    }

    /// What `b` decodes to: a slice of another length than 2 is refused, then
    /// each field is decoded in wire order and the first failure is the result.
    pub open spec fn spec_try_from(b: Seq<u8>) -> Result<PayloadEthType, Error> {
        if b.len() != 2 {
            Err(Error::InvalidSliceLength(2, b.len() as usize, "PayloadEthType"))
        } else {
            match EtherType::spec_decode(spec_u16_at(b, 0)) {
                Err(e) => Err(e),
                Ok(ttype) => Ok(PayloadEthType { ttype }),
            }
        }
    }

    /// Decodes the 2 bytes of a `PayloadEthType`.
    pub fn try_from(bytes: &[u8]) -> (res: Result<PayloadEthType, Error>)
        ensures
            res == Self::spec_try_from(bytes@),
    {
        if bytes.len() != 2 {
            return Err(Error::InvalidSliceLength(2, bytes.len(), "PayloadEthType"));
        }
        let ttype = match EtherType::decode(get_u16(bytes, 0)) {
            Ok(v) => v,
            Err(e) => return Err(e),
        };
        Ok(PayloadEthType { ttype })
    }

    /// The 2 bytes of the record on the wire; padding is zero.
    pub open spec fn wire(self) -> Seq<u8> {
        spec_u16_bytes(self.ttype.spec_to_u16())
    }

    /// Appends the wire form to `out`.
    pub fn encode(&self, out: &mut Vec<u8>)
        ensures
            final(out)@ == old(out)@ + self.wire(),
    {
        put_u16(out, self.ttype.to_u16());
        assert(out@ =~= old(out)@ + self.wire());
    }

    /// The wire form as a vector of its own.
    pub fn into_bytes(&self) -> (res: Vec<u8>)
        ensures
            res@ == self.wire(),
    {
        let mut out: Vec<u8> = Vec::new();
        self.encode(&mut out);
        out
    }

    /// The wire form is 2 bytes long, and decoding it gives the record back.
    pub proof fn lemma_roundtrip(self)
        requires
            self.wf(),
        ensures
            self.wire().len() == 2,
            Self::spec_try_from(self.wire()) == Ok::<PayloadEthType, Error>(self),
    {
        let w = self.wire();
        assert(spec_u16_at(w, 0) == self.ttype.spec_to_u16()) by {
            lemma_u16_at_bytes(w, 0, self.ttype.spec_to_u16());
        }
        self.ttype.lemma_wire_value();
    }

    /// What a slice decodes to holds what the wire format can carry, and is as
    /// long on the wire as the slice.
    pub proof fn lemma_decoded(b: Seq<u8>)
        requires
            Self::spec_try_from(b) is Ok,
        ensures
            Self::spec_try_from(b)->Ok_0.wf(),
            Self::spec_try_from(b)->Ok_0.wire().len() == b.len(),
    {
    }

    /// Encoding what a slice decodes to gives the slice back, byte for byte.
    pub proof fn lemma_exact(b: Seq<u8>)
        requires
            Self::spec_try_from(b) is Ok,
        ensures
            Self::spec_try_from(b)->Ok_0.wire() == b,
    {
        let v = Self::spec_try_from(b)->Ok_0;
        lemma_u16_bytes_at(b, 0);
        v.ttype.lemma_wire_value();
        assert(v.wire() =~= b);
    }
}

/// VLAN id.
#[derive(Debug, PartialEq, Eq, Clone, Copy)]
pub struct PayloadVlanVId {
    /// The VLAN id, 12 bits and the presence bit.
    pub vlan_id: u16,
}

impl PayloadVlanVId {
    /// Every field holds a value that the wire format can carry.
    pub open spec fn wf(self) -> bool {
        true
    }

    /// What `b` decodes to: a slice of another length than 2 is refused, then
    /// each field is decoded in wire order and the first failure is the result.
    pub open spec fn spec_try_from(b: Seq<u8>) -> Result<PayloadVlanVId, Error> {
        if b.len() != 2 {
            Err(Error::InvalidSliceLength(2, b.len() as usize, "PayloadVlanVId"))
        } else {
            Ok(PayloadVlanVId { vlan_id: spec_u16_at(b, 0) })
        }
    }

    /// Decodes the 2 bytes of a `PayloadVlanVId`.
    pub fn try_from(bytes: &[u8]) -> (res: Result<PayloadVlanVId, Error>)
        ensures
            res == Self::spec_try_from(bytes@),
    {
        if bytes.len() != 2 {
            return Err(Error::InvalidSliceLength(2, bytes.len(), "PayloadVlanVId"));
        }
        let vlan_id: u16 = get_u16(bytes, 0);
        Ok(PayloadVlanVId { vlan_id })
    }

    /// The 2 bytes of the record on the wire; padding is zero.
    pub open spec fn wire(self) -> Seq<u8> {
        spec_u16_bytes(self.vlan_id)
    }

    /// Appends the wire form to `out`.
    pub fn encode(&self, out: &mut Vec<u8>)
        ensures
            final(out)@ == old(out)@ + self.wire(),
    {
        put_u16(out, self.vlan_id);
        assert(out@ =~= old(out)@ + self.wire());
    }

    /// The wire form as a vector of its own.
    pub fn into_bytes(&self) -> (res: Vec<u8>)
        ensures
            res@ == self.wire(),
    {
        let mut out: Vec<u8> = Vec::new();
        self.encode(&mut out);
        out
    }

    /// The wire form is 2 bytes long, and decoding it gives the record back.
    pub proof fn lemma_roundtrip(self)
        requires
            self.wf(),
        ensures
            self.wire().len() == 2,
            Self::spec_try_from(self.wire()) == Ok::<PayloadVlanVId, Error>(self),
    {
        let w = self.wire();
        assert(spec_u16_at(w, 0) == self.vlan_id) by {
            lemma_u16_at_bytes(w, 0, self.vlan_id);
        }
    }

    /// What a slice decodes to holds what the wire format can carry, and is as
    /// long on the wire as the slice.
    pub proof fn lemma_decoded(b: Seq<u8>)
        requires
            Self::spec_try_from(b) is Ok,
        ensures
            Self::spec_try_from(b)->Ok_0.wf(),
            Self::spec_try_from(b)->Ok_0.wire().len() == b.len(),
    {
    }

    /// Encoding what a slice decodes to gives the slice back, byte for byte.
    pub proof fn lemma_exact(b: Seq<u8>)
        requires
            Self::spec_try_from(b) is Ok,
        ensures
            Self::spec_try_from(b)->Ok_0.wire() == b,
    {
        let v = Self::spec_try_from(b)->Ok_0;
        lemma_u16_bytes_at(b, 0);
        assert(v.wire() =~= b);
    }
}

/// VLAN priority.
#[derive(Debug, PartialEq, Eq, Clone, Copy)]
pub struct PayloadVlanPcp {
    /// The VLAN priority, 3 bits.
    pub vlan_pcp: u8,
}

impl PayloadVlanPcp {
    /// Every field holds a value that the wire format can carry.
    pub open spec fn wf(self) -> bool {
        true
    }

    /// What `b` decodes to: a slice of another length than 1 is refused, then
    /// each field is decoded in wire order and the first failure is the result.
    pub open spec fn spec_try_from(b: Seq<u8>) -> Result<PayloadVlanPcp, Error> {
        if b.len() != 1 {
            Err(Error::InvalidSliceLength(1, b.len() as usize, "PayloadVlanPcp"))
        } else {
            Ok(PayloadVlanPcp { vlan_pcp: b[0] })
        }
    }

    /// Decodes the 1 bytes of a `PayloadVlanPcp`.
    pub fn try_from(bytes: &[u8]) -> (res: Result<PayloadVlanPcp, Error>)
        ensures
            res == Self::spec_try_from(bytes@),
    {
        if bytes.len() != 1 {
            return Err(Error::InvalidSliceLength(1, bytes.len(), "PayloadVlanPcp"));
        }
        let vlan_pcp: u8 = bytes[0];
        Ok(PayloadVlanPcp { vlan_pcp })
    }

    /// The 1 bytes of the record on the wire; padding is zero.
    pub open spec fn wire(self) -> Seq<u8> {
        seq![self.vlan_pcp]
    }

    /// Appends the wire form to `out`.
    pub fn encode(&self, out: &mut Vec<u8>)
        ensures
            final(out)@ == old(out)@ + self.wire(),
    {
        out.push(self.vlan_pcp);
        assert(out@ =~= old(out)@ + self.wire());
    }

    /// The wire form as a vector of its own.
    pub fn into_bytes(&self) -> (res: Vec<u8>)
        ensures
            res@ == self.wire(),
    {
        let mut out: Vec<u8> = Vec::new();
        self.encode(&mut out);
        out
    }

    /// The wire form is 1 bytes long, and decoding it gives the record back.
    pub proof fn lemma_roundtrip(self)
        requires
            self.wf(),
        ensures
            self.wire().len() == 1,
            Self::spec_try_from(self.wire()) == Ok::<PayloadVlanPcp, Error>(self),
    {
        let w = self.wire();
        assert(w[0] == self.vlan_pcp);
    }

    /// What a slice decodes to holds what the wire format can carry, and is as
    /// long on the wire as the slice.
    pub proof fn lemma_decoded(b: Seq<u8>)
        requires
            Self::spec_try_from(b) is Ok,
        ensures
            Self::spec_try_from(b)->Ok_0.wf(),
            Self::spec_try_from(b)->Ok_0.wire().len() == b.len(),
    {
    }

    /// Encoding what a slice decodes to gives the slice back, byte for byte.
    pub proof fn lemma_exact(b: Seq<u8>)
        requires
            Self::spec_try_from(b) is Ok,
        ensures
            Self::spec_try_from(b)->Ok_0.wire() == b,
    {
        let v = Self::spec_try_from(b)->Ok_0;
        assert(v.wire() =~= b);
    }
}

/// IP DSCP (6 bits in the ToS field).
#[derive(Debug, PartialEq, Eq, Clone, Copy)]
pub struct PayloadIpDscp {
    /// The DSCP, 6 bits.
    pub ip_dscp: u8,
}

impl PayloadIpDscp {
    /// Every field holds a value that the wire format can carry.
    pub open spec fn wf(self) -> bool {
        true
    }

    /// What `b` decodes to: a slice of another length than 1 is refused, then
    /// each field is decoded in wire order and the first failure is the result.
    pub open spec fn spec_try_from(b: Seq<u8>) -> Result<PayloadIpDscp, Error> {
        if b.len() != 1 {
            Err(Error::InvalidSliceLength(1, b.len() as usize, "PayloadIpDscp"))
        } else {
            Ok(PayloadIpDscp { ip_dscp: b[0] })
        }
    }

    /// Decodes the 1 bytes of a `PayloadIpDscp`.
    pub fn try_from(bytes: &[u8]) -> (res: Result<PayloadIpDscp, Error>)
        ensures
            res == Self::spec_try_from(bytes@),
    {
        if bytes.len() != 1 {
            return Err(Error::InvalidSliceLength(1, bytes.len(), "PayloadIpDscp"));
        }
        let ip_dscp: u8 = bytes[0];
        Ok(PayloadIpDscp { ip_dscp })
    }

    /// The 1 bytes of the record on the wire; padding is zero.
    pub open spec fn wire(self) -> Seq<u8> {
        seq![self.ip_dscp]
    }

    /// Appends the wire form to `out`.
    pub fn encode(&self, out: &mut Vec<u8>)
        ensures
            final(out)@ == old(out)@ + self.wire(),
    {
        out.push(self.ip_dscp);
        assert(out@ =~= old(out)@ + self.wire());
    }

    /// The wire form as a vector of its own.
    pub fn into_bytes(&self) -> (res: Vec<u8>)
        ensures
            res@ == self.wire(),
    {
        let mut out: Vec<u8> = Vec::new();
        self.encode(&mut out);
        out
    }

    /// The wire form is 1 bytes long, and decoding it gives the record back.
    pub proof fn lemma_roundtrip(self)
        requires
            self.wf(),
        ensures
            self.wire().len() == 1,
            Self::spec_try_from(self.wire()) == Ok::<PayloadIpDscp, Error>(self),
    {
        let w = self.wire();
        assert(w[0] == self.ip_dscp);
    }

    /// What a slice decodes to holds what the wire format can carry, and is as
    /// long on the wire as the slice.
    pub proof fn lemma_decoded(b: Seq<u8>)
        requires
            Self::spec_try_from(b) is Ok,
        ensures
            Self::spec_try_from(b)->Ok_0.wf(),
            Self::spec_try_from(b)->Ok_0.wire().len() == b.len(),
    {
    }

    /// Encoding what a slice decodes to gives the slice back, byte for byte.
    pub proof fn lemma_exact(b: Seq<u8>)
        requires
            Self::spec_try_from(b) is Ok,
        ensures
            Self::spec_try_from(b)->Ok_0.wire() == b,
    {
        let v = Self::spec_try_from(b)->Ok_0;
        assert(v.wire() =~= b);
    }
}

/// IP ECN (2 bits in the ToS field).
#[derive(Debug, PartialEq, Eq, Clone, Copy)]
pub struct PayloadIpEcn {
    /// The ECN, 2 bits.
    pub ip_enc: u8,
}

impl PayloadIpEcn {
    /// Every field holds a value that the wire format can carry.
    pub open spec fn wf(self) -> bool {
        true
    }

    /// What `b` decodes to: a slice of another length than 1 is refused, then
    /// each field is decoded in wire order and the first failure is the result.
    pub open spec fn spec_try_from(b: Seq<u8>) -> Result<PayloadIpEcn, Error> {
        if b.len() != 1 {
            Err(Error::InvalidSliceLength(1, b.len() as usize, "PayloadIpEcn"))
        } else {
            Ok(PayloadIpEcn { ip_enc: b[0] })
        }
    }

    /// Decodes the 1 bytes of a `PayloadIpEcn`.
    pub fn try_from(bytes: &[u8]) -> (res: Result<PayloadIpEcn, Error>)
        ensures
            res == Self::spec_try_from(bytes@),
    {
        if bytes.len() != 1 {
            return Err(Error::InvalidSliceLength(1, bytes.len(), "PayloadIpEcn"));
        }
        let ip_enc: u8 = bytes[0];
        Ok(PayloadIpEcn { ip_enc })
    }

    /// The 1 bytes of the record on the wire; padding is zero.
    pub open spec fn wire(self) -> Seq<u8> {
        seq![self.ip_enc]
    }

    /// Appends the wire form to `out`.
    pub fn encode(&self, out: &mut Vec<u8>)
        ensures
            final(out)@ == old(out)@ + self.wire(),
    {
        out.push(self.ip_enc);
        assert(out@ =~= old(out)@ + self.wire());
    }

    /// The wire form as a vector of its own.
    pub fn into_bytes(&self) -> (res: Vec<u8>)
        ensures
            res@ == self.wire(),
    {
        let mut out: Vec<u8> = Vec::new();
        self.encode(&mut out);
        out
    }

    /// The wire form is 1 bytes long, and decoding it gives the record back.
    pub proof fn lemma_roundtrip(self)
        requires
            self.wf(),
        ensures
            self.wire().len() == 1,
            Self::spec_try_from(self.wire()) == Ok::<PayloadIpEcn, Error>(self),
    {
        let w = self.wire();
        assert(w[0] == self.ip_enc);
    }

    /// What a slice decodes to holds what the wire format can carry, and is as
    /// long on the wire as the slice.
    pub proof fn lemma_decoded(b: Seq<u8>)
        requires
            Self::spec_try_from(b) is Ok,
        ensures
            Self::spec_try_from(b)->Ok_0.wf(),
            Self::spec_try_from(b)->Ok_0.wire().len() == b.len(),
    {
    }

    /// Encoding what a slice decodes to gives the slice back, byte for byte.
    pub proof fn lemma_exact(b: Seq<u8>)
        requires
            Self::spec_try_from(b) is Ok,
        ensures
            Self::spec_try_from(b)->Ok_0.wire() == b,
    {
        let v = Self::spec_try_from(b)->Ok_0;
        assert(v.wire() =~= b);
    }
}

/// IP protocol.
#[derive(Debug, PartialEq, Eq, Clone, Copy)]
pub struct PayloadIpProto {
    /// The protocol.
    pub ip_proto: IpProto,
}

impl PayloadIpProto {
    /// Every field holds a value that the wire format can carry.
    pub open spec fn wf(self) -> bool {
        true
    }

    /// What `b` decodes to: a slice of another length than 1 is refused, then
    /// each field is decoded in wire order and the first failure is the result.
    pub open spec fn spec_try_from(b: Seq<u8>) -> Result<PayloadIpProto, Error> {
        if b.len() != 1 {
            Err(Error::InvalidSliceLength(1, b.len() as usize, "PayloadIpProto"))
        } else {
            match IpProto::spec_decode(b[0]) {
                Err(e) => Err(e),
                Ok(ip_proto) => Ok(PayloadIpProto { ip_proto }),
            }
        }
    }

    /// Decodes the 1 bytes of a `PayloadIpProto`.
    pub fn try_from(bytes: &[u8]) -> (res: Result<PayloadIpProto, Error>)
        ensures
            res == Self::spec_try_from(bytes@),
    {
        if bytes.len() != 1 {
            return Err(Error::InvalidSliceLength(1, bytes.len(), "PayloadIpProto"));
        }
        let ip_proto = match IpProto::decode(bytes[0]) {
            Ok(v) => v,
            Err(e) => return Err(e),
        };
        Ok(PayloadIpProto { ip_proto })
    }

    /// The 1 bytes of the record on the wire; padding is zero.
    pub open spec fn wire(self) -> Seq<u8> {
        seq![self.ip_proto.spec_to_u8()]
    }

    /// Appends the wire form to `out`.
    pub fn encode(&self, out: &mut Vec<u8>)
        ensures
            final(out)@ == old(out)@ + self.wire(),
    {
        out.push(self.ip_proto.to_u8());
        assert(out@ =~= old(out)@ + self.wire());
    }

    /// The wire form as a vector of its own.
    pub fn into_bytes(&self) -> (res: Vec<u8>)
        ensures
            res@ == self.wire(),
    {
        let mut out: Vec<u8> = Vec::new();
        self.encode(&mut out);
        out
    }

    /// The wire form is 1 bytes long, and decoding it gives the record back.
    pub proof fn lemma_roundtrip(self)
        requires
            self.wf(),
        ensures
            self.wire().len() == 1,
            Self::spec_try_from(self.wire()) == Ok::<PayloadIpProto, Error>(self),
    {
        let w = self.wire();
        assert(w[0] == self.ip_proto.spec_to_u8());
        self.ip_proto.lemma_wire_value();
    }

    /// What a slice decodes to holds what the wire format can carry, and is as
    /// long on the wire as the slice.
    pub proof fn lemma_decoded(b: Seq<u8>)
        requires
            Self::spec_try_from(b) is Ok,
        ensures
            Self::spec_try_from(b)->Ok_0.wf(),
            Self::spec_try_from(b)->Ok_0.wire().len() == b.len(),
    {
    }

    /// Encoding what a slice decodes to gives the slice back, byte for byte.
    pub proof fn lemma_exact(b: Seq<u8>)
        requires
            Self::spec_try_from(b) is Ok,
        ensures
            Self::spec_try_from(b)->Ok_0.wire() == b,
    {
        let v = Self::spec_try_from(b)->Ok_0;
        v.ip_proto.lemma_wire_value();
        assert(v.wire() =~= b);
    }
}

/// IPv4 source address.
#[derive(Debug, PartialEq, Eq, Clone, Copy)]
pub struct PayloadIPv4Src {
    /// The source address.
    pub ipv4_src: [u8; 4],
}

impl PayloadIPv4Src {
    /// Every field holds a value that the wire format can carry.
    pub open spec fn wf(self) -> bool {
        true
    }

    /// What `b` decodes to: a slice of another length than 4 is refused, then
    /// each field is decoded in wire order and the first failure is the result.
    pub open spec fn spec_try_from(b: Seq<u8>) -> Result<PayloadIPv4Src, Error> {
        if b.len() != 4 {
            Err(Error::InvalidSliceLength(4, b.len() as usize, "PayloadIPv4Src"))
        } else {
            Ok(PayloadIPv4Src { ipv4_src: spec_v4(b, 0) })
        }
    }

    /// Decodes the 4 bytes of a `PayloadIPv4Src`.
    pub fn try_from(bytes: &[u8]) -> (res: Result<PayloadIPv4Src, Error>)
        ensures
            res == Self::spec_try_from(bytes@),
    {
        if bytes.len() != 4 {
            return Err(Error::InvalidSliceLength(4, bytes.len(), "PayloadIPv4Src"));
        }
        let ipv4_src: [u8; 4] = [bytes[0], bytes[1], bytes[2], bytes[3]];
        assert(ipv4_src =~= spec_v4(bytes@, 0));
        Ok(PayloadIPv4Src { ipv4_src })
    }

    /// The 4 bytes of the record on the wire; padding is zero.
    pub open spec fn wire(self) -> Seq<u8> {
        self.ipv4_src@
    }

    /// Appends the wire form to `out`.
    pub fn encode(&self, out: &mut Vec<u8>)
        ensures
            final(out)@ == old(out)@ + self.wire(),
    {
        put_bytes(out, array_as_slice(&self.ipv4_src));
        assert(out@ =~= old(out)@ + self.wire());
    }

    /// The wire form as a vector of its own.
    pub fn into_bytes(&self) -> (res: Vec<u8>)
        ensures
            res@ == self.wire(),
    {
        let mut out: Vec<u8> = Vec::new();
        self.encode(&mut out);
        out
    }

    /// The wire form is 4 bytes long, and decoding it gives the record back.
    pub proof fn lemma_roundtrip(self)
        requires
            self.wf(),
        ensures
            self.wire().len() == 4,
            Self::spec_try_from(self.wire()) == Ok::<PayloadIPv4Src, Error>(self),
    {
        let w = self.wire();
        assert(spec_v4(w, 0) == self.ipv4_src) by {
            assert(self.ipv4_src@.len() == 4);
            assert(spec_v4(w, 0) =~= self.ipv4_src);
        }
    }

    /// What a slice decodes to holds what the wire format can carry, and is as
    /// long on the wire as the slice.
    pub proof fn lemma_decoded(b: Seq<u8>)
        requires
            Self::spec_try_from(b) is Ok,
        ensures
            Self::spec_try_from(b)->Ok_0.wf(),
            Self::spec_try_from(b)->Ok_0.wire().len() == b.len(),
    {
    }

    /// Encoding what a slice decodes to gives the slice back, byte for byte.
    pub proof fn lemma_exact(b: Seq<u8>)
        requires
            Self::spec_try_from(b) is Ok,
        ensures
            Self::spec_try_from(b)->Ok_0.wire() == b,
    {
        let v = Self::spec_try_from(b)->Ok_0;
        assert(v.ipv4_src@ =~= b.subrange(0, 4));
        assert(v.wire() =~= b);
    }
}

/// IPv4 destination address.
#[derive(Debug, PartialEq, Eq, Clone, Copy)]
pub struct PayloadIPv4Dst {
    /// The destination address.
    pub ipv4_dst: [u8; 4],
}

impl PayloadIPv4Dst {
    /// Every field holds a value that the wire format can carry.
    pub open spec fn wf(self) -> bool {
        true
    }

    /// What `b` decodes to: a slice of another length than 4 is refused, then
    /// each field is decoded in wire order and the first failure is the result.
    pub open spec fn spec_try_from(b: Seq<u8>) -> Result<PayloadIPv4Dst, Error> {
        if b.len() != 4 {
            Err(Error::InvalidSliceLength(4, b.len() as usize, "PayloadIPv4Dst"))
        } else {
            Ok(PayloadIPv4Dst { ipv4_dst: spec_v4(b, 0) })
        }
    }

    /// Decodes the 4 bytes of a `PayloadIPv4Dst`.
    pub fn try_from(bytes: &[u8]) -> (res: Result<PayloadIPv4Dst, Error>)
        ensures
            res == Self::spec_try_from(bytes@),
    {
        if bytes.len() != 4 {
            return Err(Error::InvalidSliceLength(4, bytes.len(), "PayloadIPv4Dst"));
        }
        let ipv4_dst: [u8; 4] = [bytes[0], bytes[1], bytes[2], bytes[3]];
        assert(ipv4_dst =~= spec_v4(bytes@, 0));
        Ok(PayloadIPv4Dst { ipv4_dst })
    }

    /// The 4 bytes of the record on the wire; padding is zero.
    pub open spec fn wire(self) -> Seq<u8> {
        self.ipv4_dst@
    }

    /// Appends the wire form to `out`.
    pub fn encode(&self, out: &mut Vec<u8>)
        ensures
            final(out)@ == old(out)@ + self.wire(),
    {
        put_bytes(out, array_as_slice(&self.ipv4_dst));
        assert(out@ =~= old(out)@ + self.wire());
    }

    /// The wire form as a vector of its own.
    pub fn into_bytes(&self) -> (res: Vec<u8>)
        ensures
            res@ == self.wire(),
    {
        let mut out: Vec<u8> = Vec::new();
        self.encode(&mut out);
        out
    }

    /// The wire form is 4 bytes long, and decoding it gives the record back.
    pub proof fn lemma_roundtrip(self)
        requires
            self.wf(),
        ensures
            self.wire().len() == 4,
            Self::spec_try_from(self.wire()) == Ok::<PayloadIPv4Dst, Error>(self),
    {
        let w = self.wire();
        assert(spec_v4(w, 0) == self.ipv4_dst) by {
            assert(self.ipv4_dst@.len() == 4);
            assert(spec_v4(w, 0) =~= self.ipv4_dst);
        }
    }

    /// What a slice decodes to holds what the wire format can carry, and is as
    /// long on the wire as the slice.
    pub proof fn lemma_decoded(b: Seq<u8>)
        requires
            Self::spec_try_from(b) is Ok,
        ensures
            Self::spec_try_from(b)->Ok_0.wf(),
            Self::spec_try_from(b)->Ok_0.wire().len() == b.len(),
    {
    }

    /// Encoding what a slice decodes to gives the slice back, byte for byte.
    pub proof fn lemma_exact(b: Seq<u8>)
        requires
            Self::spec_try_from(b) is Ok,
        ensures
            Self::spec_try_from(b)->Ok_0.wire() == b,
    {
        let v = Self::spec_try_from(b)->Ok_0;
        assert(v.ipv4_dst@ =~= b.subrange(0, 4));
        assert(v.wire() =~= b);
    }
}

/// TCP source port.
#[derive(Debug, PartialEq, Eq, Clone, Copy)]
pub struct PayloadTcpSrc {
    /// The source port.
    pub src_port: u16,
}

impl PayloadTcpSrc {
    /// Every field holds a value that the wire format can carry.
    pub open spec fn wf(self) -> bool {
        true
    }

    /// What `b` decodes to: a slice of another length than 2 is refused, then
    /// each field is decoded in wire order and the first failure is the result.
    pub open spec fn spec_try_from(b: Seq<u8>) -> Result<PayloadTcpSrc, Error> {
        if b.len() != 2 {
            Err(Error::InvalidSliceLength(2, b.len() as usize, "PayloadTcpSrc"))
        } else {
            Ok(PayloadTcpSrc { src_port: spec_u16_at(b, 0) })
        }
    }

    /// Decodes the 2 bytes of a `PayloadTcpSrc`.
    pub fn try_from(bytes: &[u8]) -> (res: Result<PayloadTcpSrc, Error>)
        ensures
            res == Self::spec_try_from(bytes@),
    {
        if bytes.len() != 2 {
            return Err(Error::InvalidSliceLength(2, bytes.len(), "PayloadTcpSrc"));
        }
        let src_port: u16 = get_u16(bytes, 0);
        Ok(PayloadTcpSrc { src_port })
    }

    /// The 2 bytes of the record on the wire; padding is zero.
    pub open spec fn wire(self) -> Seq<u8> {
        spec_u16_bytes(self.src_port)
    }

    /// Appends the wire form to `out`.
    pub fn encode(&self, out: &mut Vec<u8>)
        ensures
            final(out)@ == old(out)@ + self.wire(),
    {
        put_u16(out, self.src_port);
        assert(out@ =~= old(out)@ + self.wire());
    }

    /// The wire form as a vector of its own.
    pub fn into_bytes(&self) -> (res: Vec<u8>)
        ensures
            res@ == self.wire(),
    {
        let mut out: Vec<u8> = Vec::new();
        self.encode(&mut out);
        out
    }

    /// The wire form is 2 bytes long, and decoding it gives the record back.
    pub proof fn lemma_roundtrip(self)
        requires
            self.wf(),
        ensures
            self.wire().len() == 2,
            Self::spec_try_from(self.wire()) == Ok::<PayloadTcpSrc, Error>(self),
    {
        let w = self.wire();
        assert(spec_u16_at(w, 0) == self.src_port) by {
            lemma_u16_at_bytes(w, 0, self.src_port);
        }
    }

    /// What a slice decodes to holds what the wire format can carry, and is as
    /// long on the wire as the slice.
    pub proof fn lemma_decoded(b: Seq<u8>)
        requires
            Self::spec_try_from(b) is Ok,
        ensures
            Self::spec_try_from(b)->Ok_0.wf(),
            Self::spec_try_from(b)->Ok_0.wire().len() == b.len(),
    {
    }

    /// Encoding what a slice decodes to gives the slice back, byte for byte.
    pub proof fn lemma_exact(b: Seq<u8>)
        requires
            Self::spec_try_from(b) is Ok,
        ensures
            Self::spec_try_from(b)->Ok_0.wire() == b,
    {
        let v = Self::spec_try_from(b)->Ok_0;
        lemma_u16_bytes_at(b, 0);
        assert(v.wire() =~= b);
    }
}

/// TCP destination port.
#[derive(Debug, PartialEq, Eq, Clone, Copy)]
pub struct PayloadTcpDst {
    /// The destination port.
    pub dst_port: u16,
}

impl PayloadTcpDst {
    /// Every field holds a value that the wire format can carry.
    pub open spec fn wf(self) -> bool {
        true
    }

    /// What `b` decodes to: a slice of another length than 2 is refused, then
    /// each field is decoded in wire order and the first failure is the result.
    pub open spec fn spec_try_from(b: Seq<u8>) -> Result<PayloadTcpDst, Error> {
        if b.len() != 2 {
            Err(Error::InvalidSliceLength(2, b.len() as usize, "PayloadTcpDst"))
        } else {
            Ok(PayloadTcpDst { dst_port: spec_u16_at(b, 0) })
        }
    }

    /// Decodes the 2 bytes of a `PayloadTcpDst`.
    pub fn try_from(bytes: &[u8]) -> (res: Result<PayloadTcpDst, Error>)
        ensures
            res == Self::spec_try_from(bytes@),
    {
        if bytes.len() != 2 {
            return Err(Error::InvalidSliceLength(2, bytes.len(), "PayloadTcpDst"));
        }
        let dst_port: u16 = get_u16(bytes, 0);
        Ok(PayloadTcpDst { dst_port })
    }

    /// The 2 bytes of the record on the wire; padding is zero.
    pub open spec fn wire(self) -> Seq<u8> {
        spec_u16_bytes(self.dst_port)
    }

    /// Appends the wire form to `out`.
    pub fn encode(&self, out: &mut Vec<u8>)
        ensures
            final(out)@ == old(out)@ + self.wire(),
    {
        put_u16(out, self.dst_port);
        assert(out@ =~= old(out)@ + self.wire());
    }

    /// The wire form as a vector of its own.
    pub fn into_bytes(&self) -> (res: Vec<u8>)
        ensures
            res@ == self.wire(),
    {
        let mut out: Vec<u8> = Vec::new();
        self.encode(&mut out);
        out
    }

    /// The wire form is 2 bytes long, and decoding it gives the record back.
    pub proof fn lemma_roundtrip(self)
        requires
            self.wf(),
        ensures
            self.wire().len() == 2,
            Self::spec_try_from(self.wire()) == Ok::<PayloadTcpDst, Error>(self),
    {
        let w = self.wire();
        assert(spec_u16_at(w, 0) == self.dst_port) by {
            lemma_u16_at_bytes(w, 0, self.dst_port);
        }
    }

    /// What a slice decodes to holds what the wire format can carry, and is as
    /// long on the wire as the slice.
    pub proof fn lemma_decoded(b: Seq<u8>)
        requires
            Self::spec_try_from(b) is Ok,
        ensures
            Self::spec_try_from(b)->Ok_0.wf(),
            Self::spec_try_from(b)->Ok_0.wire().len() == b.len(),
    {
    }

    /// Encoding what a slice decodes to gives the slice back, byte for byte.
    pub proof fn lemma_exact(b: Seq<u8>)
        requires
            Self::spec_try_from(b) is Ok,
        ensures
            Self::spec_try_from(b)->Ok_0.wire() == b,
    {
        let v = Self::spec_try_from(b)->Ok_0;
        lemma_u16_bytes_at(b, 0);
        assert(v.wire() =~= b);
    }
}

/// UDP source port.
#[derive(Debug, PartialEq, Eq, Clone, Copy)]
pub struct PayloadUdpSrc {
    /// The source port.
    pub src_port: u16,
}

impl PayloadUdpSrc {
    /// Every field holds a value that the wire format can carry.
    pub open spec fn wf(self) -> bool {
        true
    }

    /// What `b` decodes to: a slice of another length than 2 is refused, then
    /// each field is decoded in wire order and the first failure is the result.
    pub open spec fn spec_try_from(b: Seq<u8>) -> Result<PayloadUdpSrc, Error> {
        if b.len() != 2 {
            Err(Error::InvalidSliceLength(2, b.len() as usize, "PayloadUdpSrc"))
        } else {
            Ok(PayloadUdpSrc { src_port: spec_u16_at(b, 0) })
        }
    }

    /// Decodes the 2 bytes of a `PayloadUdpSrc`.
    pub fn try_from(bytes: &[u8]) -> (res: Result<PayloadUdpSrc, Error>)
        ensures
            res == Self::spec_try_from(bytes@),
    {
        if bytes.len() != 2 {
            return Err(Error::InvalidSliceLength(2, bytes.len(), "PayloadUdpSrc"));
        }
        let src_port: u16 = get_u16(bytes, 0);
        Ok(PayloadUdpSrc { src_port })
    }

    /// The 2 bytes of the record on the wire; padding is zero.
    pub open spec fn wire(self) -> Seq<u8> {
        spec_u16_bytes(self.src_port)
    }

    /// Appends the wire form to `out`.
    pub fn encode(&self, out: &mut Vec<u8>)
        ensures
            final(out)@ == old(out)@ + self.wire(),
    {
        put_u16(out, self.src_port);
        assert(out@ =~= old(out)@ + self.wire());
    }

    /// The wire form as a vector of its own.
    pub fn into_bytes(&self) -> (res: Vec<u8>)
        ensures
            res@ == self.wire(),
    {
        let mut out: Vec<u8> = Vec::new();
        self.encode(&mut out);
        out
    }

    /// The wire form is 2 bytes long, and decoding it gives the record back.
    pub proof fn lemma_roundtrip(self)
        requires
            self.wf(),
        ensures
            self.wire().len() == 2,
            Self::spec_try_from(self.wire()) == Ok::<PayloadUdpSrc, Error>(self),
    {
        let w = self.wire();
        assert(spec_u16_at(w, 0) == self.src_port) by {
            lemma_u16_at_bytes(w, 0, self.src_port);
        }
    }

    /// What a slice decodes to holds what the wire format can carry, and is as
    /// long on the wire as the slice.
    pub proof fn lemma_decoded(b: Seq<u8>)
        requires
            Self::spec_try_from(b) is Ok,
        ensures
            Self::spec_try_from(b)->Ok_0.wf(),
            Self::spec_try_from(b)->Ok_0.wire().len() == b.len(),
    {
    }

    /// Encoding what a slice decodes to gives the slice back, byte for byte.
    pub proof fn lemma_exact(b: Seq<u8>)
        requires
            Self::spec_try_from(b) is Ok,
        ensures
            Self::spec_try_from(b)->Ok_0.wire() == b,
    {
        let v = Self::spec_try_from(b)->Ok_0;
        lemma_u16_bytes_at(b, 0);
        assert(v.wire() =~= b);
    }
}

/// UDP destination port.
#[derive(Debug, PartialEq, Eq, Clone, Copy)]
pub struct PayloadUdpDst {
    /// The destination port.
    pub dst_port: u16,
}

impl PayloadUdpDst {
    /// Every field holds a value that the wire format can carry.
    pub open spec fn wf(self) -> bool {
        true
    }

    /// What `b` decodes to: a slice of another length than 2 is refused, then
    /// each field is decoded in wire order and the first failure is the result.
    pub open spec fn spec_try_from(b: Seq<u8>) -> Result<PayloadUdpDst, Error> {
        if b.len() != 2 {
            Err(Error::InvalidSliceLength(2, b.len() as usize, "PayloadUdpDst"))
        } else {
            Ok(PayloadUdpDst { dst_port: spec_u16_at(b, 0) })
        }
    }

    /// Decodes the 2 bytes of a `PayloadUdpDst`.
    pub fn try_from(bytes: &[u8]) -> (res: Result<PayloadUdpDst, Error>)
        ensures
            res == Self::spec_try_from(bytes@),
    {
        if bytes.len() != 2 {
            return Err(Error::InvalidSliceLength(2, bytes.len(), "PayloadUdpDst"));
        }
        let dst_port: u16 = get_u16(bytes, 0);
        Ok(PayloadUdpDst { dst_port })
    }

    /// The 2 bytes of the record on the wire; padding is zero.
    pub open spec fn wire(self) -> Seq<u8> {
        spec_u16_bytes(self.dst_port)
    }

    /// Appends the wire form to `out`.
    pub fn encode(&self, out: &mut Vec<u8>)
        ensures
            final(out)@ == old(out)@ + self.wire(),
    {
        put_u16(out, self.dst_port);
        assert(out@ =~= old(out)@ + self.wire());
    }

    /// The wire form as a vector of its own.
    pub fn into_bytes(&self) -> (res: Vec<u8>)
        ensures
            res@ == self.wire(),
    {
        let mut out: Vec<u8> = Vec::new();
        self.encode(&mut out);
        out
    }

    /// The wire form is 2 bytes long, and decoding it gives the record back.
    pub proof fn lemma_roundtrip(self)
        requires
            self.wf(),
        ensures
            self.wire().len() == 2,
            Self::spec_try_from(self.wire()) == Ok::<PayloadUdpDst, Error>(self),
    {
        let w = self.wire();
        assert(spec_u16_at(w, 0) == self.dst_port) by {
            lemma_u16_at_bytes(w, 0, self.dst_port);
        }
    }

    /// What a slice decodes to holds what the wire format can carry, and is as
    /// long on the wire as the slice.
    pub proof fn lemma_decoded(b: Seq<u8>)
        requires
            Self::spec_try_from(b) is Ok,
        ensures
            Self::spec_try_from(b)->Ok_0.wf(),
            Self::spec_try_from(b)->Ok_0.wire().len() == b.len(),
    {
    }

    /// Encoding what a slice decodes to gives the slice back, byte for byte.
    pub proof fn lemma_exact(b: Seq<u8>)
        requires
            Self::spec_try_from(b) is Ok,
        ensures
            Self::spec_try_from(b)->Ok_0.wire() == b,
    {
        let v = Self::spec_try_from(b)->Ok_0;
        lemma_u16_bytes_at(b, 0);
        assert(v.wire() =~= b);
    }
}

/// SCTP source port.
#[derive(Debug, PartialEq, Eq, Clone, Copy)]
pub struct PayloadSctpSrc {
    /// The source port.
    pub src_port: u16,
}

impl PayloadSctpSrc {
    /// Every field holds a value that the wire format can carry.
    pub open spec fn wf(self) -> bool {
        true
    }

    /// What `b` decodes to: a slice of another length than 2 is refused, then
    /// each field is decoded in wire order and the first failure is the result.
    pub open spec fn spec_try_from(b: Seq<u8>) -> Result<PayloadSctpSrc, Error> {
        if b.len() != 2 {
            Err(Error::InvalidSliceLength(2, b.len() as usize, "PayloadSctpSrc"))
        } else {
            Ok(PayloadSctpSrc { src_port: spec_u16_at(b, 0) })
        }
    }

    /// Decodes the 2 bytes of a `PayloadSctpSrc`.
    pub fn try_from(bytes: &[u8]) -> (res: Result<PayloadSctpSrc, Error>)
        ensures
            res == Self::spec_try_from(bytes@),
    {
        if bytes.len() != 2 {
            return Err(Error::InvalidSliceLength(2, bytes.len(), "PayloadSctpSrc"));
        }
        let src_port: u16 = get_u16(bytes, 0);
        Ok(PayloadSctpSrc { src_port })
    }

    /// The 2 bytes of the record on the wire; padding is zero.
    pub open spec fn wire(self) -> Seq<u8> {
        spec_u16_bytes(self.src_port)
    }

    /// Appends the wire form to `out`.
    pub fn encode(&self, out: &mut Vec<u8>)
        ensures
            final(out)@ == old(out)@ + self.wire(),
    {
        put_u16(out, self.src_port);
        assert(out@ =~= old(out)@ + self.wire());
    }

    /// The wire form as a vector of its own.
    pub fn into_bytes(&self) -> (res: Vec<u8>)
        ensures
            res@ == self.wire(),
    {
        let mut out: Vec<u8> = Vec::new();
        self.encode(&mut out);
        out
    }

    /// The wire form is 2 bytes long, and decoding it gives the record back.
    pub proof fn lemma_roundtrip(self)
        requires
            self.wf(),
        ensures
            self.wire().len() == 2,
            Self::spec_try_from(self.wire()) == Ok::<PayloadSctpSrc, Error>(self),
    {
        let w = self.wire();
        assert(spec_u16_at(w, 0) == self.src_port) by {
            lemma_u16_at_bytes(w, 0, self.src_port);
        }
    }

    /// What a slice decodes to holds what the wire format can carry, and is as
    /// long on the wire as the slice.
    pub proof fn lemma_decoded(b: Seq<u8>)
        requires
            Self::spec_try_from(b) is Ok,
        ensures
            Self::spec_try_from(b)->Ok_0.wf(),
            Self::spec_try_from(b)->Ok_0.wire().len() == b.len(),
    {
    }

    /// Encoding what a slice decodes to gives the slice back, byte for byte.
    pub proof fn lemma_exact(b: Seq<u8>)
        requires
            Self::spec_try_from(b) is Ok,
        ensures
            Self::spec_try_from(b)->Ok_0.wire() == b,
    {
        let v = Self::spec_try_from(b)->Ok_0;
        lemma_u16_bytes_at(b, 0);
        assert(v.wire() =~= b);
    }
}

/// SCTP destination port.
#[derive(Debug, PartialEq, Eq, Clone, Copy)]
pub struct PayloadSctpDst {
    /// The destination port.
    pub dst_port: u16,
}

impl PayloadSctpDst {
    /// Every field holds a value that the wire format can carry.
    pub open spec fn wf(self) -> bool {
        true
    }

    /// What `b` decodes to: a slice of another length than 2 is refused, then
    /// each field is decoded in wire order and the first failure is the result.
    pub open spec fn spec_try_from(b: Seq<u8>) -> Result<PayloadSctpDst, Error> {
        if b.len() != 2 {
            Err(Error::InvalidSliceLength(2, b.len() as usize, "PayloadSctpDst"))
        } else {
            Ok(PayloadSctpDst { dst_port: spec_u16_at(b, 0) })
        }
    }

    /// Decodes the 2 bytes of a `PayloadSctpDst`.
    pub fn try_from(bytes: &[u8]) -> (res: Result<PayloadSctpDst, Error>)
        ensures
            res == Self::spec_try_from(bytes@),
    {
        if bytes.len() != 2 {
            return Err(Error::InvalidSliceLength(2, bytes.len(), "PayloadSctpDst"));
        }
        let dst_port: u16 = get_u16(bytes, 0);
        Ok(PayloadSctpDst { dst_port })
    }

    /// The 2 bytes of the record on the wire; padding is zero.
    pub open spec fn wire(self) -> Seq<u8> {
        spec_u16_bytes(self.dst_port)
    }

    /// Appends the wire form to `out`.
    pub fn encode(&self, out: &mut Vec<u8>)
        ensures
            final(out)@ == old(out)@ + self.wire(),
    {
        put_u16(out, self.dst_port);
        assert(out@ =~= old(out)@ + self.wire());
    }

    /// The wire form as a vector of its own.
    pub fn into_bytes(&self) -> (res: Vec<u8>)
        ensures
            res@ == self.wire(),
    {
        let mut out: Vec<u8> = Vec::new();
        self.encode(&mut out);
        out
    }

    /// The wire form is 2 bytes long, and decoding it gives the record back.
    pub proof fn lemma_roundtrip(self)
        requires
            self.wf(),
        ensures
            self.wire().len() == 2,
            Self::spec_try_from(self.wire()) == Ok::<PayloadSctpDst, Error>(self),
    {
        let w = self.wire();
        assert(spec_u16_at(w, 0) == self.dst_port) by {
            lemma_u16_at_bytes(w, 0, self.dst_port);
        }
    }

    /// What a slice decodes to holds what the wire format can carry, and is as
    /// long on the wire as the slice.
    pub proof fn lemma_decoded(b: Seq<u8>)
        requires
            Self::spec_try_from(b) is Ok,
        ensures
            Self::spec_try_from(b)->Ok_0.wf(),
            Self::spec_try_from(b)->Ok_0.wire().len() == b.len(),
    {
    }

    /// Encoding what a slice decodes to gives the slice back, byte for byte.
    pub proof fn lemma_exact(b: Seq<u8>)
        requires
            Self::spec_try_from(b) is Ok,
        ensures
            Self::spec_try_from(b)->Ok_0.wire() == b,
    {
        let v = Self::spec_try_from(b)->Ok_0;
        lemma_u16_bytes_at(b, 0);
        assert(v.wire() =~= b);
    }
}

/// ICMP type.
#[derive(Debug, PartialEq, Eq, Clone, Copy)]
pub struct PayloadIcmpV4Type {
    /// The ICMP type.
    pub ttype: IcmpType,
}

impl PayloadIcmpV4Type {
    /// Every field holds a value that the wire format can carry.
    pub open spec fn wf(self) -> bool {
        true
    }

    /// What `b` decodes to: a slice of another length than 1 is refused, then
    /// each field is decoded in wire order and the first failure is the result.
    pub open spec fn spec_try_from(b: Seq<u8>) -> Result<PayloadIcmpV4Type, Error> {
        if b.len() != 1 {
            Err(Error::InvalidSliceLength(1, spec_len(b), "PayloadIcmpV4Type"))
        } else {
            match IcmpType::spec_decode(b[0]) {
                Err(e) => Err(e),
                Ok(ttype) => Ok(PayloadIcmpV4Type { ttype }),
            }
        }
    }

    /// Decodes the 1 bytes of a `PayloadIcmpV4Type`.
    pub fn try_from(bytes: &[u8]) -> (res: Result<PayloadIcmpV4Type, Error>)
        ensures
            res == Self::spec_try_from(bytes@),
    {
        if bytes.len() != 1 {
            return Err(Error::InvalidSliceLength(1, bytes.len(), "PayloadIcmpV4Type"));
        }
        let ttype = match IcmpType::decode(bytes[0]) {
            Ok(v) => v,
            Err(e) => return Err(e),
        };
        Ok(PayloadIcmpV4Type { ttype })
    }

    /// The 1 bytes of the record on the wire; padding is zero.
    pub open spec fn wire(self) -> Seq<u8> {
        seq![self.ttype.spec_to_u8()]
    }

    /// Appends the wire form to `out`.
    pub fn encode(&self, out: &mut Vec<u8>)
        ensures
            final(out)@ == old(out)@ + self.wire(),
    {
        out.push(self.ttype.to_u8());
        assert(out@ =~= old(out)@ + self.wire());
    }

    /// The wire form as a vector of its own.
    pub fn into_bytes(&self) -> (res: Vec<u8>)
        ensures
            res@ == self.wire(),
    {
        let mut out: Vec<u8> = Vec::new();
        self.encode(&mut out);
        out
    }

    /// The wire form is 1 bytes long, and decoding it gives the record back.
    pub proof fn lemma_roundtrip(self)
        requires
            self.wf(),
        ensures
            self.wire().len() == 1,
            Self::spec_try_from(self.wire()) == Ok::<PayloadIcmpV4Type, Error>(self),
    {
        let w = self.wire();
        assert(w[0] == self.ttype.spec_to_u8());
        self.ttype.lemma_wire_value();
    }

    /// What a slice decodes to holds what the wire format can carry, and is as
    /// long on the wire as the slice.
    pub proof fn lemma_decoded(b: Seq<u8>)
        requires
            Self::spec_try_from(b) is Ok,
        ensures
            Self::spec_try_from(b)->Ok_0.wf(),
            Self::spec_try_from(b)->Ok_0.wire().len() == b.len(),
    {
    }

    /// Encoding what a slice decodes to gives the slice back, byte for byte.
    pub proof fn lemma_exact(b: Seq<u8>)
        requires
            Self::spec_try_from(b) is Ok,
        ensures
            Self::spec_try_from(b)->Ok_0.wire() == b,
    {
        let v = Self::spec_try_from(b)->Ok_0;
        v.ttype.lemma_wire_value();
        assert(v.wire() =~= b);
    }
}

/// ICMP code.
#[derive(Debug, PartialEq, Eq, Clone, Copy)]
pub struct PayloadIcmpV4Code {
    /// The ICMP code.
    pub code: u8,
}

impl PayloadIcmpV4Code {
    /// Every field holds a value that the wire format can carry.
    pub open spec fn wf(self) -> bool {
        true
    }

    /// What `b` decodes to: a slice of another length than 1 is refused, then
    /// each field is decoded in wire order and the first failure is the result.
    pub open spec fn spec_try_from(b: Seq<u8>) -> Result<PayloadIcmpV4Code, Error> {
        if b.len() != 1 {
            Err(Error::InvalidSliceLength(1, spec_len(b), "PayloadIcmpV4Code"))
        } else {
            Ok(PayloadIcmpV4Code { code: b[0] })
        }
    }

    /// Decodes the 1 bytes of a `PayloadIcmpV4Code`.
    pub fn try_from(bytes: &[u8]) -> (res: Result<PayloadIcmpV4Code, Error>)
        ensures
            res == Self::spec_try_from(bytes@),
    {
        if bytes.len() != 1 {
            return Err(Error::InvalidSliceLength(1, bytes.len(), "PayloadIcmpV4Code"));
        }
        let code: u8 = bytes[0];
        Ok(PayloadIcmpV4Code { code })
    }

    /// The 1 bytes of the record on the wire; padding is zero.
    pub open spec fn wire(self) -> Seq<u8> {
        seq![self.code]
    }

    /// Appends the wire form to `out`.
    pub fn encode(&self, out: &mut Vec<u8>)
        ensures
            final(out)@ == old(out)@ + self.wire(),
    {
        out.push(self.code);
        assert(out@ =~= old(out)@ + self.wire());
    }

    /// The wire form as a vector of its own.
    pub fn into_bytes(&self) -> (res: Vec<u8>)
        ensures
            res@ == self.wire(),
    {
        let mut out: Vec<u8> = Vec::new();
        self.encode(&mut out);
        out
    }

    /// The wire form is 1 bytes long, and decoding it gives the record back.
    pub proof fn lemma_roundtrip(self)
        requires
            self.wf(),
        ensures
            self.wire().len() == 1,
            Self::spec_try_from(self.wire()) == Ok::<PayloadIcmpV4Code, Error>(self),
    {
        let w = self.wire();
        assert(w[0] == self.code);
    }

    /// What a slice decodes to holds what the wire format can carry, and is as
    /// long on the wire as the slice.
    pub proof fn lemma_decoded(b: Seq<u8>)
        requires
            Self::spec_try_from(b) is Ok,
        ensures
            Self::spec_try_from(b)->Ok_0.wf(),
            Self::spec_try_from(b)->Ok_0.wire().len() == b.len(),
    {
    }

    /// Encoding what a slice decodes to gives the slice back, byte for byte.
    pub proof fn lemma_exact(b: Seq<u8>)
        requires
            Self::spec_try_from(b) is Ok,
        ensures
            Self::spec_try_from(b)->Ok_0.wire() == b,
    {
        let v = Self::spec_try_from(b)->Ok_0;
        assert(v.wire() =~= b);
    }
}

/// ARP opcode.
#[derive(Debug, PartialEq, Eq, Clone, Copy)]
pub struct PayloadArpOp {
    /// The ARP opcode.
    pub arp_op: ArpOp,
}

impl PayloadArpOp {
    /// Every field holds a value that the wire format can carry.
    pub open spec fn wf(self) -> bool {
        true
    }

    /// What `b` decodes to: a slice of another length than 2 is refused, then
    /// each field is decoded in wire order and the first failure is the result.
    pub open spec fn spec_try_from(b: Seq<u8>) -> Result<PayloadArpOp, Error> {
        if b.len() != 2 {
            Err(Error::InvalidSliceLength(2, b.len() as usize, "PayloadArpOp"))
        } else {
            match ArpOp::spec_decode(spec_u16_at(b, 0)) {
                Err(e) => Err(e),
                Ok(arp_op) => Ok(PayloadArpOp { arp_op }),
            }
        }
    }

    /// Decodes the 2 bytes of a `PayloadArpOp`.
    pub fn try_from(bytes: &[u8]) -> (res: Result<PayloadArpOp, Error>)
        ensures
            res == Self::spec_try_from(bytes@),
    {
        if bytes.len() != 2 {
            return Err(Error::InvalidSliceLength(2, bytes.len(), "PayloadArpOp"));
        }
        let arp_op = match ArpOp::decode(get_u16(bytes, 0)) {
            Ok(v) => v,
            Err(e) => return Err(e),
        };
        Ok(PayloadArpOp { arp_op })
    }

    /// The 2 bytes of the record on the wire; padding is zero.
    pub open spec fn wire(self) -> Seq<u8> {
        spec_u16_bytes(self.arp_op.spec_to_u16())
    }

    /// Appends the wire form to `out`.
    pub fn encode(&self, out: &mut Vec<u8>)
        ensures
            final(out)@ == old(out)@ + self.wire(),
    {
        put_u16(out, self.arp_op.to_u16());
        assert(out@ =~= old(out)@ + self.wire());
    }

    /// The wire form as a vector of its own.
    pub fn into_bytes(&self) -> (res: Vec<u8>)
        ensures
            res@ == self.wire(),
    {
        let mut out: Vec<u8> = Vec::new();
        self.encode(&mut out);
        out
    }

    /// The wire form is 2 bytes long, and decoding it gives the record back.
    pub proof fn lemma_roundtrip(self)
        requires
            self.wf(),
        ensures
            self.wire().len() == 2,
            Self::spec_try_from(self.wire()) == Ok::<PayloadArpOp, Error>(self),
    {
        let w = self.wire();
        assert(spec_u16_at(w, 0) == self.arp_op.spec_to_u16()) by {
            lemma_u16_at_bytes(w, 0, self.arp_op.spec_to_u16());
        }
        self.arp_op.lemma_wire_value();
    }

    /// What a slice decodes to holds what the wire format can carry, and is as
    /// long on the wire as the slice.
    pub proof fn lemma_decoded(b: Seq<u8>)
        requires
            Self::spec_try_from(b) is Ok,
        ensures
            Self::spec_try_from(b)->Ok_0.wf(),
            Self::spec_try_from(b)->Ok_0.wire().len() == b.len(),
    {
    }

    /// Encoding what a slice decodes to gives the slice back, byte for byte.
    pub proof fn lemma_exact(b: Seq<u8>)
        requires
            Self::spec_try_from(b) is Ok,
        ensures
            Self::spec_try_from(b)->Ok_0.wire() == b,
    {
        let v = Self::spec_try_from(b)->Ok_0;
        lemma_u16_bytes_at(b, 0);
        v.arp_op.lemma_wire_value();
        assert(v.wire() =~= b);
    }
}

/// ARP source IPv4 address.
#[derive(Debug, PartialEq, Eq, Clone, Copy)]
pub struct PayloadArpSpa {
    /// The source IPv4 address.
    pub arp_spa: [u8; 4],
}

impl PayloadArpSpa {
    /// Every field holds a value that the wire format can carry.
    pub open spec fn wf(self) -> bool {
        true
    }

    /// What `b` decodes to: a slice of another length than 4 is refused, then
    /// each field is decoded in wire order and the first failure is the result.
    pub open spec fn spec_try_from(b: Seq<u8>) -> Result<PayloadArpSpa, Error> {
        if b.len() != 4 {
            Err(Error::InvalidSliceLength(4, b.len() as usize, "PayloadArpSpa"))
        } else {
            Ok(PayloadArpSpa { arp_spa: spec_v4(b, 0) })
        }
    }

    /// Decodes the 4 bytes of a `PayloadArpSpa`.
    pub fn try_from(bytes: &[u8]) -> (res: Result<PayloadArpSpa, Error>)
        ensures
            res == Self::spec_try_from(bytes@),
    {
        if bytes.len() != 4 {
            return Err(Error::InvalidSliceLength(4, bytes.len(), "PayloadArpSpa"));
        }
        let arp_spa: [u8; 4] = [bytes[0], bytes[1], bytes[2], bytes[3]];
        assert(arp_spa =~= spec_v4(bytes@, 0));
        Ok(PayloadArpSpa { arp_spa })
    }

    /// The 4 bytes of the record on the wire; padding is zero.
    pub open spec fn wire(self) -> Seq<u8> {
        self.arp_spa@
    }

    /// Appends the wire form to `out`.
    pub fn encode(&self, out: &mut Vec<u8>)
        ensures
            final(out)@ == old(out)@ + self.wire(),
    {
        put_bytes(out, array_as_slice(&self.arp_spa));
        assert(out@ =~= old(out)@ + self.wire());
    }

    /// The wire form as a vector of its own.
    pub fn into_bytes(&self) -> (res: Vec<u8>)
        ensures
            res@ == self.wire(),
    {
        let mut out: Vec<u8> = Vec::new();
        self.encode(&mut out);
        out
    }

    /// The wire form is 4 bytes long, and decoding it gives the record back.
    pub proof fn lemma_roundtrip(self)
        requires
            self.wf(),
        ensures
            self.wire().len() == 4,
            Self::spec_try_from(self.wire()) == Ok::<PayloadArpSpa, Error>(self),
    {
        let w = self.wire();
        assert(spec_v4(w, 0) == self.arp_spa) by {
            assert(self.arp_spa@.len() == 4);
            assert(spec_v4(w, 0) =~= self.arp_spa);
        }
    }

    /// What a slice decodes to holds what the wire format can carry, and is as
    /// long on the wire as the slice.
    pub proof fn lemma_decoded(b: Seq<u8>)
        requires
            Self::spec_try_from(b) is Ok,
        ensures
            Self::spec_try_from(b)->Ok_0.wf(),
            Self::spec_try_from(b)->Ok_0.wire().len() == b.len(),
    {
    }

    /// Encoding what a slice decodes to gives the slice back, byte for byte.
    pub proof fn lemma_exact(b: Seq<u8>)
        requires
            Self::spec_try_from(b) is Ok,
        ensures
            Self::spec_try_from(b)->Ok_0.wire() == b,
    {
        let v = Self::spec_try_from(b)->Ok_0;
        assert(v.arp_spa@ =~= b.subrange(0, 4));
        assert(v.wire() =~= b);
    }
}

/// ARP target IPv4 address.
#[derive(Debug, PartialEq, Eq, Clone, Copy)]
pub struct PayloadArpTpa {
    /// The target IPv4 address.
    pub arp_tpa: [u8; 4],
}

impl PayloadArpTpa {
    /// Every field holds a value that the wire format can carry.
    pub open spec fn wf(self) -> bool {
        true
    }

    /// What `b` decodes to: a slice of another length than 4 is refused, then
    /// each field is decoded in wire order and the first failure is the result.
    pub open spec fn spec_try_from(b: Seq<u8>) -> Result<PayloadArpTpa, Error> {
        if b.len() != 4 {
            Err(Error::InvalidSliceLength(4, b.len() as usize, "PayloadArpTpa"))
        } else {
            Ok(PayloadArpTpa { arp_tpa: spec_v4(b, 0) })
        }
    }

    /// Decodes the 4 bytes of a `PayloadArpTpa`.
    pub fn try_from(bytes: &[u8]) -> (res: Result<PayloadArpTpa, Error>)
        ensures
            res == Self::spec_try_from(bytes@),
    {
        if bytes.len() != 4 {
            return Err(Error::InvalidSliceLength(4, bytes.len(), "PayloadArpTpa"));
        }
        let arp_tpa: [u8; 4] = [bytes[0], bytes[1], bytes[2], bytes[3]];
        assert(arp_tpa =~= spec_v4(bytes@, 0));
        Ok(PayloadArpTpa { arp_tpa })
    }

    /// The 4 bytes of the record on the wire; padding is zero.
    pub open spec fn wire(self) -> Seq<u8> {
        self.arp_tpa@
    }

    /// Appends the wire form to `out`.
    pub fn encode(&self, out: &mut Vec<u8>)
        ensures
            final(out)@ == old(out)@ + self.wire(),
    {
        put_bytes(out, array_as_slice(&self.arp_tpa));
        assert(out@ =~= old(out)@ + self.wire());
    }

    /// The wire form as a vector of its own.
    pub fn into_bytes(&self) -> (res: Vec<u8>)
        ensures
            res@ == self.wire(),
    {
        let mut out: Vec<u8> = Vec::new();
        self.encode(&mut out);
        out
    }

    /// The wire form is 4 bytes long, and decoding it gives the record back.
    pub proof fn lemma_roundtrip(self)
        requires
            self.wf(),
        ensures
            self.wire().len() == 4,
            Self::spec_try_from(self.wire()) == Ok::<PayloadArpTpa, Error>(self),
    {
        let w = self.wire();
        assert(spec_v4(w, 0) == self.arp_tpa) by {
            assert(self.arp_tpa@.len() == 4);
            assert(spec_v4(w, 0) =~= self.arp_tpa);
        }
    }

    /// What a slice decodes to holds what the wire format can carry, and is as
    /// long on the wire as the slice.
    pub proof fn lemma_decoded(b: Seq<u8>)
        requires
            Self::spec_try_from(b) is Ok,
        ensures
            Self::spec_try_from(b)->Ok_0.wf(),
            Self::spec_try_from(b)->Ok_0.wire().len() == b.len(),
    {
    }

    /// Encoding what a slice decodes to gives the slice back, byte for byte.
    pub proof fn lemma_exact(b: Seq<u8>)
        requires
            Self::spec_try_from(b) is Ok,
        ensures
            Self::spec_try_from(b)->Ok_0.wire() == b,
    {
        let v = Self::spec_try_from(b)->Ok_0;
        assert(v.arp_tpa@ =~= b.subrange(0, 4));
        assert(v.wire() =~= b);
    }
}

/// ARP source hardware address.
#[derive(Debug, PartialEq, Eq, Clone, Copy)]
pub struct PayloadArpSha {
    /// The source hardware address.
    pub arp_sha: [u8; 6],
}

impl PayloadArpSha {
    /// Every field holds a value that the wire format can carry.
    pub open spec fn wf(self) -> bool {
        true
    }

    /// What `b` decodes to: a slice of another length than 6 is refused, then
    /// each field is decoded in wire order and the first failure is the result.
    pub open spec fn spec_try_from(b: Seq<u8>) -> Result<PayloadArpSha, Error> {
        if b.len() != 6 {
            Err(Error::InvalidSliceLength(6, b.len() as usize, "PayloadArpSha"))
        } else {
            Ok(PayloadArpSha { arp_sha: spec_eth(b, 0) })
        }
    }

    /// Decodes the 6 bytes of a `PayloadArpSha`.
    pub fn try_from(bytes: &[u8]) -> (res: Result<PayloadArpSha, Error>)
        ensures
            res == Self::spec_try_from(bytes@),
    {
        if bytes.len() != 6 {
            return Err(Error::InvalidSliceLength(6, bytes.len(), "PayloadArpSha"));
        }
        let arp_sha: [u8; 6] = [bytes[0], bytes[1], bytes[2], bytes[3], bytes[4], bytes[5]];
        assert(arp_sha =~= spec_eth(bytes@, 0));
        Ok(PayloadArpSha { arp_sha })
    }

    /// The 6 bytes of the record on the wire; padding is zero.
    pub open spec fn wire(self) -> Seq<u8> {
        self.arp_sha@
    }

    /// Appends the wire form to `out`.
    pub fn encode(&self, out: &mut Vec<u8>)
        ensures
            final(out)@ == old(out)@ + self.wire(),
    {
        put_bytes(out, array_as_slice(&self.arp_sha));
        assert(out@ =~= old(out)@ + self.wire());
    }

    /// The wire form as a vector of its own.
    pub fn into_bytes(&self) -> (res: Vec<u8>)
        ensures
            res@ == self.wire(),
    {
        let mut out: Vec<u8> = Vec::new();
        self.encode(&mut out);
        out
    }

    /// The wire form is 6 bytes long, and decoding it gives the record back.
    pub proof fn lemma_roundtrip(self)
        requires
            self.wf(),
        ensures
            self.wire().len() == 6,
            Self::spec_try_from(self.wire()) == Ok::<PayloadArpSha, Error>(self),
    {
        let w = self.wire();
        assert(spec_eth(w, 0) == self.arp_sha) by {
            assert(self.arp_sha@.len() == 6);
            assert(spec_eth(w, 0) =~= self.arp_sha);
        }
    }

    /// What a slice decodes to holds what the wire format can carry, and is as
    /// long on the wire as the slice.
    pub proof fn lemma_decoded(b: Seq<u8>)
        requires
            Self::spec_try_from(b) is Ok,
        ensures
            Self::spec_try_from(b)->Ok_0.wf(),
            Self::spec_try_from(b)->Ok_0.wire().len() == b.len(),
    {
    }

    /// Encoding what a slice decodes to gives the slice back, byte for byte.
    pub proof fn lemma_exact(b: Seq<u8>)
        requires
            Self::spec_try_from(b) is Ok,
        ensures
            Self::spec_try_from(b)->Ok_0.wire() == b,
    {
        let v = Self::spec_try_from(b)->Ok_0;
        assert(v.arp_sha@ =~= b.subrange(0, 6));
        assert(v.wire() =~= b);
    }
}

/// ARP target hardware address.
#[derive(Debug, PartialEq, Eq, Clone, Copy)]
pub struct PayloadArpTha {
    /// The target hardware address.
    pub arp_tha: [u8; 6],
}

impl PayloadArpTha {
    /// Every field holds a value that the wire format can carry.
    pub open spec fn wf(self) -> bool {
        true
    }

    /// What `b` decodes to: a slice of another length than 6 is refused, then
    /// each field is decoded in wire order and the first failure is the result.
    pub open spec fn spec_try_from(b: Seq<u8>) -> Result<PayloadArpTha, Error> {
        if b.len() != 6 {
            Err(Error::InvalidSliceLength(6, b.len() as usize, "PayloadArpTha"))
        } else {
            Ok(PayloadArpTha { arp_tha: spec_eth(b, 0) })
        }
    }

    /// Decodes the 6 bytes of a `PayloadArpTha`.
    pub fn try_from(bytes: &[u8]) -> (res: Result<PayloadArpTha, Error>)
        ensures
            res == Self::spec_try_from(bytes@),
    {
        if bytes.len() != 6 {
            return Err(Error::InvalidSliceLength(6, bytes.len(), "PayloadArpTha"));
        }
        let arp_tha: [u8; 6] = [bytes[0], bytes[1], bytes[2], bytes[3], bytes[4], bytes[5]];
        assert(arp_tha =~= spec_eth(bytes@, 0));
        Ok(PayloadArpTha { arp_tha })
    }

    /// The 6 bytes of the record on the wire; padding is zero.
    pub open spec fn wire(self) -> Seq<u8> {
        self.arp_tha@
    }

    /// Appends the wire form to `out`.
    pub fn encode(&self, out: &mut Vec<u8>)
        ensures
            final(out)@ == old(out)@ + self.wire(),
    {
        put_bytes(out, array_as_slice(&self.arp_tha));
        assert(out@ =~= old(out)@ + self.wire());
    }

    /// The wire form as a vector of its own.
    pub fn into_bytes(&self) -> (res: Vec<u8>)
        ensures
            res@ == self.wire(),
    {
        let mut out: Vec<u8> = Vec::new();
        self.encode(&mut out);
        out
    }

    /// The wire form is 6 bytes long, and decoding it gives the record back.
    pub proof fn lemma_roundtrip(self)
        requires
            self.wf(),
        ensures
            self.wire().len() == 6,
            Self::spec_try_from(self.wire()) == Ok::<PayloadArpTha, Error>(self),
    {
        let w = self.wire();
        assert(spec_eth(w, 0) == self.arp_tha) by {
            assert(self.arp_tha@.len() == 6);
            assert(spec_eth(w, 0) =~= self.arp_tha);
        }
    }

    /// What a slice decodes to holds what the wire format can carry, and is as
    /// long on the wire as the slice.
    pub proof fn lemma_decoded(b: Seq<u8>)
        requires
            Self::spec_try_from(b) is Ok,
        ensures
            Self::spec_try_from(b)->Ok_0.wf(),
            Self::spec_try_from(b)->Ok_0.wire().len() == b.len(),
    {
    }

    /// Encoding what a slice decodes to gives the slice back, byte for byte.
    pub proof fn lemma_exact(b: Seq<u8>)
        requires
            Self::spec_try_from(b) is Ok,
        ensures
            Self::spec_try_from(b)->Ok_0.wire() == b,
    {
        let v = Self::spec_try_from(b)->Ok_0;
        assert(v.arp_tha@ =~= b.subrange(0, 6));
        assert(v.wire() =~= b);
    }
}

/// IPv6 source address.
#[derive(Debug, PartialEq, Eq, Clone, Copy)]
pub struct PayloadIPv6Src {
    /// The source address.
    pub ipv6_src: [u8; 8],
}

impl PayloadIPv6Src {
    /// Every field holds a value that the wire format can carry.
    pub open spec fn wf(self) -> bool {
        true
    }

    /// What `b` decodes to: a slice of another length than 8 is refused, then
    /// each field is decoded in wire order and the first failure is the result.
    pub open spec fn spec_try_from(b: Seq<u8>) -> Result<PayloadIPv6Src, Error> {
        if b.len() != 8 {
            Err(Error::InvalidSliceLength(8, b.len() as usize, "PayloadIPv6Src"))
        } else {
            Ok(PayloadIPv6Src { ipv6_src: spec_v6(b, 0) })
        }
    }

    /// Decodes the 8 bytes of a `PayloadIPv6Src`.
    pub fn try_from(bytes: &[u8]) -> (res: Result<PayloadIPv6Src, Error>)
        ensures
            res == Self::spec_try_from(bytes@),
    {
        if bytes.len() != 8 {
            return Err(Error::InvalidSliceLength(8, bytes.len(), "PayloadIPv6Src"));
        }
        let ipv6_src: [u8; 8] = [
            bytes[0],
            bytes[1],
            bytes[2],
            bytes[3],
            bytes[4],
            bytes[5],
            bytes[6],
            bytes[7],
        ];
        assert(ipv6_src =~= spec_v6(bytes@, 0));
        Ok(PayloadIPv6Src { ipv6_src })
    }

    /// The 8 bytes of the record on the wire; padding is zero.
    pub open spec fn wire(self) -> Seq<u8> {
        self.ipv6_src@
    }

    /// Appends the wire form to `out`.
    pub fn encode(&self, out: &mut Vec<u8>)
        ensures
            final(out)@ == old(out)@ + self.wire(),
    {
        put_bytes(out, array_as_slice(&self.ipv6_src));
        assert(out@ =~= old(out)@ + self.wire());
    }

    /// The wire form as a vector of its own.
    pub fn into_bytes(&self) -> (res: Vec<u8>)
        ensures
            res@ == self.wire(),
    {
        let mut out: Vec<u8> = Vec::new();
        self.encode(&mut out);
        out
    }

    /// The wire form is 8 bytes long, and decoding it gives the record back.
    pub proof fn lemma_roundtrip(self)
        requires
            self.wf(),
        ensures
            self.wire().len() == 8,
            Self::spec_try_from(self.wire()) == Ok::<PayloadIPv6Src, Error>(self),
    {
        let w = self.wire();
        assert(spec_v6(w, 0) == self.ipv6_src) by {
            assert(self.ipv6_src@.len() == 8);
            assert(spec_v6(w, 0) =~= self.ipv6_src);
        }
    }

    /// What a slice decodes to holds what the wire format can carry, and is as
    /// long on the wire as the slice.
    pub proof fn lemma_decoded(b: Seq<u8>)
        requires
            Self::spec_try_from(b) is Ok,
        ensures
            Self::spec_try_from(b)->Ok_0.wf(),
            Self::spec_try_from(b)->Ok_0.wire().len() == b.len(),
    {
    }

    /// Encoding what a slice decodes to gives the slice back, byte for byte.
    pub proof fn lemma_exact(b: Seq<u8>)
        requires
            Self::spec_try_from(b) is Ok,
        ensures
            Self::spec_try_from(b)->Ok_0.wire() == b,
    {
        let v = Self::spec_try_from(b)->Ok_0;
        assert(v.ipv6_src@ =~= b.subrange(0, 8));
        assert(v.wire() =~= b);
    }
}

/// IPv6 destination address.
#[derive(Debug, PartialEq, Eq, Clone, Copy)]
pub struct PayloadIPv6Dst {
    /// The destination address.
    pub ipv6_dst: [u8; 8],
}

impl PayloadIPv6Dst {
    /// Every field holds a value that the wire format can carry.
    pub open spec fn wf(self) -> bool {
        true
    }

    /// What `b` decodes to: a slice of another length than 8 is refused, then
    /// each field is decoded in wire order and the first failure is the result.
    pub open spec fn spec_try_from(b: Seq<u8>) -> Result<PayloadIPv6Dst, Error> {
        if b.len() != 8 {
            Err(Error::InvalidSliceLength(8, b.len() as usize, "PayloadIPv6Dst"))
        } else {
            Ok(PayloadIPv6Dst { ipv6_dst: spec_v6(b, 0) })
        }
    }

    /// Decodes the 8 bytes of a `PayloadIPv6Dst`.
    pub fn try_from(bytes: &[u8]) -> (res: Result<PayloadIPv6Dst, Error>)
        ensures
            res == Self::spec_try_from(bytes@),
    {
        if bytes.len() != 8 {
            return Err(Error::InvalidSliceLength(8, bytes.len(), "PayloadIPv6Dst"));
        }
        let ipv6_dst: [u8; 8] = [
            bytes[0],
            bytes[1],
            bytes[2],
            bytes[3],
            bytes[4],
            bytes[5],
            bytes[6],
            bytes[7],
        ];
        assert(ipv6_dst =~= spec_v6(bytes@, 0));
        Ok(PayloadIPv6Dst { ipv6_dst })
    }

    /// The 8 bytes of the record on the wire; padding is zero.
    pub open spec fn wire(self) -> Seq<u8> {
        self.ipv6_dst@
    }

    /// Appends the wire form to `out`.
    pub fn encode(&self, out: &mut Vec<u8>)
        ensures
            final(out)@ == old(out)@ + self.wire(),
    {
        put_bytes(out, array_as_slice(&self.ipv6_dst));
        assert(out@ =~= old(out)@ + self.wire());
    }

    /// The wire form as a vector of its own.
    pub fn into_bytes(&self) -> (res: Vec<u8>)
        ensures
            res@ == self.wire(),
    {
        let mut out: Vec<u8> = Vec::new();
        self.encode(&mut out);
        out
    }

    /// The wire form is 8 bytes long, and decoding it gives the record back.
    pub proof fn lemma_roundtrip(self)
        requires
            self.wf(),
        ensures
            self.wire().len() == 8,
            Self::spec_try_from(self.wire()) == Ok::<PayloadIPv6Dst, Error>(self),
    {
        let w = self.wire();
        assert(spec_v6(w, 0) == self.ipv6_dst) by {
            assert(self.ipv6_dst@.len() == 8);
            assert(spec_v6(w, 0) =~= self.ipv6_dst);
        }
    }

    /// What a slice decodes to holds what the wire format can carry, and is as
    /// long on the wire as the slice.
    pub proof fn lemma_decoded(b: Seq<u8>)
        requires
            Self::spec_try_from(b) is Ok,
        ensures
            Self::spec_try_from(b)->Ok_0.wf(),
            Self::spec_try_from(b)->Ok_0.wire().len() == b.len(),
    {
    }

    /// Encoding what a slice decodes to gives the slice back, byte for byte.
    pub proof fn lemma_exact(b: Seq<u8>)
        requires
            Self::spec_try_from(b) is Ok,
        ensures
            Self::spec_try_from(b)->Ok_0.wire() == b,
    {
        let v = Self::spec_try_from(b)->Ok_0;
        assert(v.ipv6_dst@ =~= b.subrange(0, 8));
        assert(v.wire() =~= b);
    }
}

/// IPv6 flow label.
#[derive(Debug, PartialEq, Eq, Clone, Copy)]
pub struct PayloadIPv6FLabel {
    /// The flow label, 20 bits.
    pub flabel: u32,
}

impl PayloadIPv6FLabel {
    /// Every field holds a value that the wire format can carry.
    pub open spec fn wf(self) -> bool {
        true
    }

    /// What `b` decodes to: a slice of another length than 4 is refused, then
    /// each field is decoded in wire order and the first failure is the result.
    pub open spec fn spec_try_from(b: Seq<u8>) -> Result<PayloadIPv6FLabel, Error> {
        if b.len() != 4 {
            Err(Error::InvalidSliceLength(4, b.len() as usize, "PayloadIPv6FLabel"))
        } else {
            Ok(PayloadIPv6FLabel { flabel: spec_u32_at(b, 0) })
        }
    }

    /// Decodes the 4 bytes of a `PayloadIPv6FLabel`.
    pub fn try_from(bytes: &[u8]) -> (res: Result<PayloadIPv6FLabel, Error>)
        ensures
            res == Self::spec_try_from(bytes@),
    {
        if bytes.len() != 4 {
            return Err(Error::InvalidSliceLength(4, bytes.len(), "PayloadIPv6FLabel"));
        }
        let flabel: u32 = get_u32(bytes, 0);
        Ok(PayloadIPv6FLabel { flabel })
    }

    /// The 4 bytes of the record on the wire; padding is zero.
    pub open spec fn wire(self) -> Seq<u8> {
        spec_u32_bytes(self.flabel)
    }

    /// Appends the wire form to `out`.
    pub fn encode(&self, out: &mut Vec<u8>)
        ensures
            final(out)@ == old(out)@ + self.wire(),
    {
        put_u32(out, self.flabel);
        assert(out@ =~= old(out)@ + self.wire());
    }

    /// The wire form as a vector of its own.
    pub fn into_bytes(&self) -> (res: Vec<u8>)
        ensures
            res@ == self.wire(),
    {
        let mut out: Vec<u8> = Vec::new();
        self.encode(&mut out);
        out
    }

    /// The wire form is 4 bytes long, and decoding it gives the record back.
    pub proof fn lemma_roundtrip(self)
        requires
            self.wf(),
        ensures
            self.wire().len() == 4,
            Self::spec_try_from(self.wire()) == Ok::<PayloadIPv6FLabel, Error>(self),
    {
        let w = self.wire();
        assert(spec_u32_at(w, 0) == self.flabel) by {
            lemma_u32_at_bytes(w, 0, self.flabel);
        }
    }

    /// What a slice decodes to holds what the wire format can carry, and is as
    /// long on the wire as the slice.
    pub proof fn lemma_decoded(b: Seq<u8>)
        requires
            Self::spec_try_from(b) is Ok,
        ensures
            Self::spec_try_from(b)->Ok_0.wf(),
            Self::spec_try_from(b)->Ok_0.wire().len() == b.len(),
    {
    }

    /// Encoding what a slice decodes to gives the slice back, byte for byte.
    pub proof fn lemma_exact(b: Seq<u8>)
        requires
            Self::spec_try_from(b) is Ok,
        ensures
            Self::spec_try_from(b)->Ok_0.wire() == b,
    {
        let v = Self::spec_try_from(b)->Ok_0;
        lemma_u32_bytes_at(b, 0);
        assert(v.wire() =~= b);
    }
}

/// ICMPv6 type.
#[derive(Debug, PartialEq, Eq, Clone, Copy)]
pub struct PayloadIcmpV6Type {
    /// The ICMPv6 type.
    pub ttype: IcmpV6Type,
}

impl PayloadIcmpV6Type {
    /// Every field holds a value that the wire format can carry.
    pub open spec fn wf(self) -> bool {
        true
    }

    /// What `b` decodes to: a slice of another length than 1 is refused, then
    /// each field is decoded in wire order and the first failure is the result.
    pub open spec fn spec_try_from(b: Seq<u8>) -> Result<PayloadIcmpV6Type, Error> {
        if b.len() != 1 {
            Err(Error::InvalidSliceLength(1, spec_len(b), "PayloadIcmpV6Type"))
        } else {
            match IcmpV6Type::spec_decode(b[0]) {
                Err(e) => Err(e),
                Ok(ttype) => Ok(PayloadIcmpV6Type { ttype }),
            }
        }
    }

    /// Decodes the 1 bytes of a `PayloadIcmpV6Type`.
    pub fn try_from(bytes: &[u8]) -> (res: Result<PayloadIcmpV6Type, Error>)
        ensures
            res == Self::spec_try_from(bytes@),
    {
        if bytes.len() != 1 {
            return Err(Error::InvalidSliceLength(1, bytes.len(), "PayloadIcmpV6Type"));
        }
        let ttype = match IcmpV6Type::decode(bytes[0]) {
            Ok(v) => v,
            Err(e) => return Err(e),
        };
        Ok(PayloadIcmpV6Type { ttype })
    }

    /// The 1 bytes of the record on the wire; padding is zero.
    pub open spec fn wire(self) -> Seq<u8> {
        seq![self.ttype.spec_to_u8()]
    }

    /// Appends the wire form to `out`.
    pub fn encode(&self, out: &mut Vec<u8>)
        ensures
            final(out)@ == old(out)@ + self.wire(),
    {
        out.push(self.ttype.to_u8());
        assert(out@ =~= old(out)@ + self.wire());
    }

    /// The wire form as a vector of its own.
    pub fn into_bytes(&self) -> (res: Vec<u8>)
        ensures
            res@ == self.wire(),
    {
        let mut out: Vec<u8> = Vec::new();
        self.encode(&mut out);
        out
    }

    /// The wire form is 1 bytes long, and decoding it gives the record back.
    pub proof fn lemma_roundtrip(self)
        requires
            self.wf(),
        ensures
            self.wire().len() == 1,
            Self::spec_try_from(self.wire()) == Ok::<PayloadIcmpV6Type, Error>(self),
    {
        let w = self.wire();
        assert(w[0] == self.ttype.spec_to_u8());
        self.ttype.lemma_wire_value();
    }

    /// What a slice decodes to holds what the wire format can carry, and is as
    /// long on the wire as the slice.
    pub proof fn lemma_decoded(b: Seq<u8>)
        requires
            Self::spec_try_from(b) is Ok,
        ensures
            Self::spec_try_from(b)->Ok_0.wf(),
            Self::spec_try_from(b)->Ok_0.wire().len() == b.len(),
    {
    }

    /// Encoding what a slice decodes to gives the slice back, byte for byte.
    pub proof fn lemma_exact(b: Seq<u8>)
        requires
            Self::spec_try_from(b) is Ok,
        ensures
            Self::spec_try_from(b)->Ok_0.wire() == b,
    {
        let v = Self::spec_try_from(b)->Ok_0;
        v.ttype.lemma_wire_value();
        assert(v.wire() =~= b);
    }
}

/// ICMPv6 code.
#[derive(Debug, PartialEq, Eq, Clone, Copy)]
pub struct PayloadIcmpV6Code {
    /// The ICMPv6 code.
    pub code: u8,
}

impl PayloadIcmpV6Code {
    /// Every field holds a value that the wire format can carry.
    pub open spec fn wf(self) -> bool {
        true
    }

    /// What `b` decodes to: a slice of another length than 1 is refused, then
    /// each field is decoded in wire order and the first failure is the result.
    pub open spec fn spec_try_from(b: Seq<u8>) -> Result<PayloadIcmpV6Code, Error> {
        if b.len() != 1 {
            Err(Error::InvalidSliceLength(1, spec_len(b), "PayloadIcmpV6Code"))
        } else {
            Ok(PayloadIcmpV6Code { code: b[0] })
        }
    }

    /// Decodes the 1 bytes of a `PayloadIcmpV6Code`.
    pub fn try_from(bytes: &[u8]) -> (res: Result<PayloadIcmpV6Code, Error>)
        ensures
            res == Self::spec_try_from(bytes@),
    {
        if bytes.len() != 1 {
            return Err(Error::InvalidSliceLength(1, bytes.len(), "PayloadIcmpV6Code"));
        }
        let code: u8 = bytes[0];
        Ok(PayloadIcmpV6Code { code })
    }

    /// The 1 bytes of the record on the wire; padding is zero.
    pub open spec fn wire(self) -> Seq<u8> {
        seq![self.code]
    }

    /// Appends the wire form to `out`.
    pub fn encode(&self, out: &mut Vec<u8>)
        ensures
            final(out)@ == old(out)@ + self.wire(),
    {
        out.push(self.code);
        assert(out@ =~= old(out)@ + self.wire());
    }

    /// The wire form as a vector of its own.
    pub fn into_bytes(&self) -> (res: Vec<u8>)
        ensures
            res@ == self.wire(),
    {
        let mut out: Vec<u8> = Vec::new();
        self.encode(&mut out);
        out
    }

    /// The wire form is 1 bytes long, and decoding it gives the record back.
    pub proof fn lemma_roundtrip(self)
        requires
            self.wf(),
        ensures
            self.wire().len() == 1,
            Self::spec_try_from(self.wire()) == Ok::<PayloadIcmpV6Code, Error>(self),
    {
        let w = self.wire();
        assert(w[0] == self.code);
    }

    /// What a slice decodes to holds what the wire format can carry, and is as
    /// long on the wire as the slice.
    pub proof fn lemma_decoded(b: Seq<u8>)
        requires
            Self::spec_try_from(b) is Ok,
        ensures
            Self::spec_try_from(b)->Ok_0.wf(),
            Self::spec_try_from(b)->Ok_0.wire().len() == b.len(),
    {
    }

    /// Encoding what a slice decodes to gives the slice back, byte for byte.
    pub proof fn lemma_exact(b: Seq<u8>)
        requires
            Self::spec_try_from(b) is Ok,
        ensures
            Self::spec_try_from(b)->Ok_0.wire() == b,
    {
        let v = Self::spec_try_from(b)->Ok_0;
        assert(v.wire() =~= b);
    }
}

/// Target address for neighbour discovery.
#[derive(Debug, PartialEq, Eq, Clone, Copy)]
pub struct PayloadIPv6NdTarget {
    /// The target address.
    pub target: [u8; 8],
}

impl PayloadIPv6NdTarget {
    /// Every field holds a value that the wire format can carry.
    pub open spec fn wf(self) -> bool {
        true
    }

    /// What `b` decodes to: a slice of another length than 8 is refused, then
    /// each field is decoded in wire order and the first failure is the result.
    pub open spec fn spec_try_from(b: Seq<u8>) -> Result<PayloadIPv6NdTarget, Error> {
        if b.len() != 8 {
            Err(Error::InvalidSliceLength(8, b.len() as usize, "PayloadIPv6NdTarget"))
        } else {
            Ok(PayloadIPv6NdTarget { target: spec_v6(b, 0) })
        }
    }

    /// Decodes the 8 bytes of a `PayloadIPv6NdTarget`.
    pub fn try_from(bytes: &[u8]) -> (res: Result<PayloadIPv6NdTarget, Error>)
        ensures
            res == Self::spec_try_from(bytes@),
    {
        if bytes.len() != 8 {
            return Err(Error::InvalidSliceLength(8, bytes.len(), "PayloadIPv6NdTarget"));
        }
        let target: [u8; 8] = [
            bytes[0],
            bytes[1],
            bytes[2],
            bytes[3],
            bytes[4],
            bytes[5],
            bytes[6],
            bytes[7],
        ];
        assert(target =~= spec_v6(bytes@, 0));
        Ok(PayloadIPv6NdTarget { target })
    }

    /// The 8 bytes of the record on the wire; padding is zero.
    pub open spec fn wire(self) -> Seq<u8> {
        self.target@
    }

    /// Appends the wire form to `out`.
    pub fn encode(&self, out: &mut Vec<u8>)
        ensures
            final(out)@ == old(out)@ + self.wire(),
    {
        put_bytes(out, array_as_slice(&self.target));
        assert(out@ =~= old(out)@ + self.wire());
    }

    /// The wire form as a vector of its own.
    pub fn into_bytes(&self) -> (res: Vec<u8>)
        ensures
            res@ == self.wire(),
    {
        let mut out: Vec<u8> = Vec::new();
        self.encode(&mut out);
        out
    }

    /// The wire form is 8 bytes long, and decoding it gives the record back.
    pub proof fn lemma_roundtrip(self)
        requires
            self.wf(),
        ensures
            self.wire().len() == 8,
            Self::spec_try_from(self.wire()) == Ok::<PayloadIPv6NdTarget, Error>(self),
    {
        let w = self.wire();
        assert(spec_v6(w, 0) == self.target) by {
            assert(self.target@.len() == 8);
            assert(spec_v6(w, 0) =~= self.target);
        }
    }

    /// What a slice decodes to holds what the wire format can carry, and is as
    /// long on the wire as the slice.
    pub proof fn lemma_decoded(b: Seq<u8>)
        requires
            Self::spec_try_from(b) is Ok,
        ensures
            Self::spec_try_from(b)->Ok_0.wf(),
            Self::spec_try_from(b)->Ok_0.wire().len() == b.len(),
    {
    }

    /// Encoding what a slice decodes to gives the slice back, byte for byte.
    pub proof fn lemma_exact(b: Seq<u8>)
        requires
            Self::spec_try_from(b) is Ok,
        ensures
            Self::spec_try_from(b)->Ok_0.wire() == b,
    {
        let v = Self::spec_try_from(b)->Ok_0;
        assert(v.target@ =~= b.subrange(0, 8));
        assert(v.wire() =~= b);
    }
}

/// Source link-layer address for neighbour discovery.
#[derive(Debug, PartialEq, Eq, Clone, Copy)]
pub struct PayloadIPv6NdSll {
    /// The source link-layer address.
    pub nd_sll: [u8; 6],
}

impl PayloadIPv6NdSll {
    /// Every field holds a value that the wire format can carry.
    pub open spec fn wf(self) -> bool {
        true
    }

    /// What `b` decodes to: a slice of another length than 6 is refused, then
    /// each field is decoded in wire order and the first failure is the result.
    pub open spec fn spec_try_from(b: Seq<u8>) -> Result<PayloadIPv6NdSll, Error> {
        if b.len() != 6 {
            Err(Error::InvalidSliceLength(6, b.len() as usize, "PayloadIPv6NdSll"))
        } else {
            Ok(PayloadIPv6NdSll { nd_sll: spec_eth(b, 0) })
        }
    }

    /// Decodes the 6 bytes of a `PayloadIPv6NdSll`.
    pub fn try_from(bytes: &[u8]) -> (res: Result<PayloadIPv6NdSll, Error>)
        ensures
            res == Self::spec_try_from(bytes@),
    {
        if bytes.len() != 6 {
            return Err(Error::InvalidSliceLength(6, bytes.len(), "PayloadIPv6NdSll"));
        }
        let nd_sll: [u8; 6] = [bytes[0], bytes[1], bytes[2], bytes[3], bytes[4], bytes[5]];
        assert(nd_sll =~= spec_eth(bytes@, 0));
        Ok(PayloadIPv6NdSll { nd_sll })
    }

    /// The 6 bytes of the record on the wire; padding is zero.
    pub open spec fn wire(self) -> Seq<u8> {
        self.nd_sll@
    }

    /// Appends the wire form to `out`.
    pub fn encode(&self, out: &mut Vec<u8>)
        ensures
            final(out)@ == old(out)@ + self.wire(),
    {
        put_bytes(out, array_as_slice(&self.nd_sll));
        assert(out@ =~= old(out)@ + self.wire());
    }

    /// The wire form as a vector of its own.
    pub fn into_bytes(&self) -> (res: Vec<u8>)
        ensures
            res@ == self.wire(),
    {
        let mut out: Vec<u8> = Vec::new();
        self.encode(&mut out);
        out
    }

    /// The wire form is 6 bytes long, and decoding it gives the record back.
    pub proof fn lemma_roundtrip(self)
        requires
            self.wf(),
        ensures
            self.wire().len() == 6,
            Self::spec_try_from(self.wire()) == Ok::<PayloadIPv6NdSll, Error>(self),
    {
        let w = self.wire();
        assert(spec_eth(w, 0) == self.nd_sll) by {
            assert(self.nd_sll@.len() == 6);
            assert(spec_eth(w, 0) =~= self.nd_sll);
        }
    }

    /// What a slice decodes to holds what the wire format can carry, and is as
    /// long on the wire as the slice.
    pub proof fn lemma_decoded(b: Seq<u8>)
        requires
            Self::spec_try_from(b) is Ok,
        ensures
            Self::spec_try_from(b)->Ok_0.wf(),
            Self::spec_try_from(b)->Ok_0.wire().len() == b.len(),
    {
    }

    /// Encoding what a slice decodes to gives the slice back, byte for byte.
    pub proof fn lemma_exact(b: Seq<u8>)
        requires
            Self::spec_try_from(b) is Ok,
        ensures
            Self::spec_try_from(b)->Ok_0.wire() == b,
    {
        let v = Self::spec_try_from(b)->Ok_0;
        assert(v.nd_sll@ =~= b.subrange(0, 6));
        assert(v.wire() =~= b);
    }
}

/// Target link-layer address for neighbour discovery.
#[derive(Debug, PartialEq, Eq, Clone, Copy)]
pub struct PayloadIPv6NdTll {
    /// The target link-layer address.
    pub nd_tll: [u8; 6],
}

impl PayloadIPv6NdTll {
    /// Every field holds a value that the wire format can carry.
    pub open spec fn wf(self) -> bool {
        true
    }

    /// What `b` decodes to: a slice of another length than 6 is refused, then
    /// each field is decoded in wire order and the first failure is the result.
    pub open spec fn spec_try_from(b: Seq<u8>) -> Result<PayloadIPv6NdTll, Error> {
        if b.len() != 6 {
            Err(Error::InvalidSliceLength(6, b.len() as usize, "PayloadIPv6NdTll"))
        } else {
            Ok(PayloadIPv6NdTll { nd_tll: spec_eth(b, 0) })
        }
    }

    /// Decodes the 6 bytes of a `PayloadIPv6NdTll`.
    pub fn try_from(bytes: &[u8]) -> (res: Result<PayloadIPv6NdTll, Error>)
        ensures
            res == Self::spec_try_from(bytes@),
    {
        if bytes.len() != 6 {
            return Err(Error::InvalidSliceLength(6, bytes.len(), "PayloadIPv6NdTll"));
        }
        let nd_tll: [u8; 6] = [bytes[0], bytes[1], bytes[2], bytes[3], bytes[4], bytes[5]];
        assert(nd_tll =~= spec_eth(bytes@, 0));
        Ok(PayloadIPv6NdTll { nd_tll })
    }

    /// The 6 bytes of the record on the wire; padding is zero.
    pub open spec fn wire(self) -> Seq<u8> {
        self.nd_tll@
    }

    /// Appends the wire form to `out`.
    pub fn encode(&self, out: &mut Vec<u8>)
        ensures
            final(out)@ == old(out)@ + self.wire(),
    {
        put_bytes(out, array_as_slice(&self.nd_tll));
        assert(out@ =~= old(out)@ + self.wire());
    }

    /// The wire form as a vector of its own.
    pub fn into_bytes(&self) -> (res: Vec<u8>)
        ensures
            res@ == self.wire(),
    {
        let mut out: Vec<u8> = Vec::new();
        self.encode(&mut out);
        out
    }

    /// The wire form is 6 bytes long, and decoding it gives the record back.
    pub proof fn lemma_roundtrip(self)
        requires
            self.wf(),
        ensures
            self.wire().len() == 6,
            Self::spec_try_from(self.wire()) == Ok::<PayloadIPv6NdTll, Error>(self),
    {
        let w = self.wire();
        assert(spec_eth(w, 0) == self.nd_tll) by {
            assert(self.nd_tll@.len() == 6);
            assert(spec_eth(w, 0) =~= self.nd_tll);
        }
    }

    /// What a slice decodes to holds what the wire format can carry, and is as
    /// long on the wire as the slice.
    pub proof fn lemma_decoded(b: Seq<u8>)
        requires
            Self::spec_try_from(b) is Ok,
        ensures
            Self::spec_try_from(b)->Ok_0.wf(),
            Self::spec_try_from(b)->Ok_0.wire().len() == b.len(),
    {
    }

    /// Encoding what a slice decodes to gives the slice back, byte for byte.
    pub proof fn lemma_exact(b: Seq<u8>)
        requires
            Self::spec_try_from(b) is Ok,
        ensures
            Self::spec_try_from(b)->Ok_0.wire() == b,
    {
        let v = Self::spec_try_from(b)->Ok_0;
        assert(v.nd_tll@ =~= b.subrange(0, 6));
        assert(v.wire() =~= b);
    }
}

/// MPLS label.
#[derive(Debug, PartialEq, Eq, Clone, Copy)]
pub struct PayloadMplsLabel {
    /// The label, 20 bits.
    pub label: u32,
}

impl PayloadMplsLabel {
    /// Every field holds a value that the wire format can carry.
    pub open spec fn wf(self) -> bool {
        true
    }

    /// What `b` decodes to: a slice of another length than 4 is refused, then
    /// each field is decoded in wire order and the first failure is the result.
    pub open spec fn spec_try_from(b: Seq<u8>) -> Result<PayloadMplsLabel, Error> {
        if b.len() != 4 {
            Err(Error::InvalidSliceLength(4, b.len() as usize, "PayloadMplsLabel"))
        } else {
            Ok(PayloadMplsLabel { label: spec_u32_at(b, 0) })
        }
    }

    /// Decodes the 4 bytes of a `PayloadMplsLabel`.
    pub fn try_from(bytes: &[u8]) -> (res: Result<PayloadMplsLabel, Error>)
        ensures
            res == Self::spec_try_from(bytes@),
    {
        if bytes.len() != 4 {
            return Err(Error::InvalidSliceLength(4, bytes.len(), "PayloadMplsLabel"));
        }
        let label: u32 = get_u32(bytes, 0);
        Ok(PayloadMplsLabel { label })
    }

    /// The 4 bytes of the record on the wire; padding is zero.
    pub open spec fn wire(self) -> Seq<u8> {
        spec_u32_bytes(self.label)
    }

    /// Appends the wire form to `out`.
    pub fn encode(&self, out: &mut Vec<u8>)
        ensures
            final(out)@ == old(out)@ + self.wire(),
    {
        put_u32(out, self.label);
        assert(out@ =~= old(out)@ + self.wire());
    }

    /// The wire form as a vector of its own.
    pub fn into_bytes(&self) -> (res: Vec<u8>)
        ensures
            res@ == self.wire(),
    {
        let mut out: Vec<u8> = Vec::new();
        self.encode(&mut out);
        out
    }

    /// The wire form is 4 bytes long, and decoding it gives the record back.
    pub proof fn lemma_roundtrip(self)
        requires
            self.wf(),
        ensures
            self.wire().len() == 4,
            Self::spec_try_from(self.wire()) == Ok::<PayloadMplsLabel, Error>(self),
    {
        let w = self.wire();
        assert(spec_u32_at(w, 0) == self.label) by {
            lemma_u32_at_bytes(w, 0, self.label);
        }
    }

    /// What a slice decodes to holds what the wire format can carry, and is as
    /// long on the wire as the slice.
    pub proof fn lemma_decoded(b: Seq<u8>)
        requires
            Self::spec_try_from(b) is Ok,
        ensures
            Self::spec_try_from(b)->Ok_0.wf(),
            Self::spec_try_from(b)->Ok_0.wire().len() == b.len(),
    {
    }

    /// Encoding what a slice decodes to gives the slice back, byte for byte.
    pub proof fn lemma_exact(b: Seq<u8>)
        requires
            Self::spec_try_from(b) is Ok,
        ensures
            Self::spec_try_from(b)->Ok_0.wire() == b,
    {
        let v = Self::spec_try_from(b)->Ok_0;
        lemma_u32_bytes_at(b, 0);
        assert(v.wire() =~= b);
    }
}

/// MPLS traffic class.
#[derive(Debug, PartialEq, Eq, Clone, Copy)]
pub struct PayloadMplsTc {
    /// The traffic class, 3 bits.
    pub tc: u8,
}

impl PayloadMplsTc {
    /// Every field holds a value that the wire format can carry.
    pub open spec fn wf(self) -> bool {
        true
    }

    /// What `b` decodes to: a slice of another length than 1 is refused, then
    /// each field is decoded in wire order and the first failure is the result.
    pub open spec fn spec_try_from(b: Seq<u8>) -> Result<PayloadMplsTc, Error> {
        if b.len() != 1 {
            Err(Error::InvalidSliceLength(1, b.len() as usize, "PayloadMplsTc"))
        } else {
            Ok(PayloadMplsTc { tc: b[0] })
        }
    }

    /// Decodes the 1 bytes of a `PayloadMplsTc`.
    pub fn try_from(bytes: &[u8]) -> (res: Result<PayloadMplsTc, Error>)
        ensures
            res == Self::spec_try_from(bytes@),
    {
        if bytes.len() != 1 {
            return Err(Error::InvalidSliceLength(1, bytes.len(), "PayloadMplsTc"));
        }
        let tc: u8 = bytes[0];
        Ok(PayloadMplsTc { tc })
    }

    /// The 1 bytes of the record on the wire; padding is zero.
    pub open spec fn wire(self) -> Seq<u8> {
        seq![self.tc]
    }

    /// Appends the wire form to `out`.
    pub fn encode(&self, out: &mut Vec<u8>)
        ensures
            final(out)@ == old(out)@ + self.wire(),
    {
        out.push(self.tc);
        assert(out@ =~= old(out)@ + self.wire());
    }

    /// The wire form as a vector of its own.
    pub fn into_bytes(&self) -> (res: Vec<u8>)
        ensures
            res@ == self.wire(),
    {
        let mut out: Vec<u8> = Vec::new();
        self.encode(&mut out);
        out
    }

    /// The wire form is 1 bytes long, and decoding it gives the record back.
    pub proof fn lemma_roundtrip(self)
        requires
            self.wf(),
        ensures
            self.wire().len() == 1,
            Self::spec_try_from(self.wire()) == Ok::<PayloadMplsTc, Error>(self),
    {
        let w = self.wire();
        assert(w[0] == self.tc);
    }

    /// What a slice decodes to holds what the wire format can carry, and is as
    /// long on the wire as the slice.
    pub proof fn lemma_decoded(b: Seq<u8>)
        requires
            Self::spec_try_from(b) is Ok,
        ensures
            Self::spec_try_from(b)->Ok_0.wf(),
            Self::spec_try_from(b)->Ok_0.wire().len() == b.len(),
    {
    }

    /// Encoding what a slice decodes to gives the slice back, byte for byte.
    pub proof fn lemma_exact(b: Seq<u8>)
        requires
            Self::spec_try_from(b) is Ok,
        ensures
            Self::spec_try_from(b)->Ok_0.wire() == b,
    {
        let v = Self::spec_try_from(b)->Ok_0;
        assert(v.wire() =~= b);
    }
}

/// MPLS bottom-of-stack bit.
#[derive(Debug, PartialEq, Eq, Clone, Copy)]
pub struct PayloadMplsBos {
    /// The bottom-of-stack bit.
    pub bos: u8,
}

impl PayloadMplsBos {
    /// Every field holds a value that the wire format can carry.
    pub open spec fn wf(self) -> bool {
        true
    }

    /// What `b` decodes to: a slice of another length than 1 is refused, then
    /// each field is decoded in wire order and the first failure is the result.
    pub open spec fn spec_try_from(b: Seq<u8>) -> Result<PayloadMplsBos, Error> {
        if b.len() != 1 {
            Err(Error::InvalidSliceLength(1, b.len() as usize, "PayloadMplsBos"))
        } else {
            Ok(PayloadMplsBos { bos: b[0] })
        }
    }

    /// Decodes the 1 bytes of a `PayloadMplsBos`.
    pub fn try_from(bytes: &[u8]) -> (res: Result<PayloadMplsBos, Error>)
        ensures
            res == Self::spec_try_from(bytes@),
    {
        if bytes.len() != 1 {
            return Err(Error::InvalidSliceLength(1, bytes.len(), "PayloadMplsBos"));
        }
        let bos: u8 = bytes[0];
        Ok(PayloadMplsBos { bos })
    }

    /// The 1 bytes of the record on the wire; padding is zero.
    pub open spec fn wire(self) -> Seq<u8> {
        seq![self.bos]
    }

    /// Appends the wire form to `out`.
    pub fn encode(&self, out: &mut Vec<u8>)
        ensures
            final(out)@ == old(out)@ + self.wire(),
    {
        out.push(self.bos);
        assert(out@ =~= old(out)@ + self.wire());
    }

    /// The wire form as a vector of its own.
    pub fn into_bytes(&self) -> (res: Vec<u8>)
        ensures
            res@ == self.wire(),
    {
        let mut out: Vec<u8> = Vec::new();
        self.encode(&mut out);
        out
    }

    /// The wire form is 1 bytes long, and decoding it gives the record back.
    pub proof fn lemma_roundtrip(self)
        requires
            self.wf(),
        ensures
            self.wire().len() == 1,
            Self::spec_try_from(self.wire()) == Ok::<PayloadMplsBos, Error>(self),
    {
        let w = self.wire();
        assert(w[0] == self.bos);
    }

    /// What a slice decodes to holds what the wire format can carry, and is as
    /// long on the wire as the slice.
    pub proof fn lemma_decoded(b: Seq<u8>)
        requires
            Self::spec_try_from(b) is Ok,
        ensures
            Self::spec_try_from(b)->Ok_0.wf(),
            Self::spec_try_from(b)->Ok_0.wire().len() == b.len(),
    {
    }

    /// Encoding what a slice decodes to gives the slice back, byte for byte.
    pub proof fn lemma_exact(b: Seq<u8>)
        requires
            Self::spec_try_from(b) is Ok,
        ensures
            Self::spec_try_from(b)->Ok_0.wire() == b,
    {
        let v = Self::spec_try_from(b)->Ok_0;
        assert(v.wire() =~= b);
    }
}

/// PBB I-SID.
#[derive(Debug, PartialEq, Eq, Clone, Copy)]
pub struct PayloadPbbISid {
    /// The I-SID, 24 bits.
    pub i_sid: u32,
}

impl PayloadPbbISid {
    /// Every field holds a value that the wire format can carry.
    pub open spec fn wf(self) -> bool {
        true
    }

    /// What `b` decodes to: a slice of another length than 4 is refused, then
    /// each field is decoded in wire order and the first failure is the result.
    pub open spec fn spec_try_from(b: Seq<u8>) -> Result<PayloadPbbISid, Error> {
        if b.len() != 4 {
            Err(Error::InvalidSliceLength(4, b.len() as usize, "PayloadPbbISid"))
        } else {
            Ok(PayloadPbbISid { i_sid: spec_u32_at(b, 0) })
        }
    }

    /// Decodes the 4 bytes of a `PayloadPbbISid`.
    pub fn try_from(bytes: &[u8]) -> (res: Result<PayloadPbbISid, Error>)
        ensures
            res == Self::spec_try_from(bytes@),
    {
        if bytes.len() != 4 {
            return Err(Error::InvalidSliceLength(4, bytes.len(), "PayloadPbbISid"));
        }
        let i_sid: u32 = get_u32(bytes, 0);
        Ok(PayloadPbbISid { i_sid })
    }

    /// The 4 bytes of the record on the wire; padding is zero.
    pub open spec fn wire(self) -> Seq<u8> {
        spec_u32_bytes(self.i_sid)
    }

    /// Appends the wire form to `out`.
    pub fn encode(&self, out: &mut Vec<u8>)
        ensures
            final(out)@ == old(out)@ + self.wire(),
    {
        put_u32(out, self.i_sid);
        assert(out@ =~= old(out)@ + self.wire());
    }

    /// The wire form as a vector of its own.
    pub fn into_bytes(&self) -> (res: Vec<u8>)
        ensures
            res@ == self.wire(),
    {
        let mut out: Vec<u8> = Vec::new();
        self.encode(&mut out);
        out
    }

    /// The wire form is 4 bytes long, and decoding it gives the record back.
    pub proof fn lemma_roundtrip(self)
        requires
            self.wf(),
        ensures
            self.wire().len() == 4,
            Self::spec_try_from(self.wire()) == Ok::<PayloadPbbISid, Error>(self),
    {
        let w = self.wire();
        assert(spec_u32_at(w, 0) == self.i_sid) by {
            lemma_u32_at_bytes(w, 0, self.i_sid);
        }
    }

    /// What a slice decodes to holds what the wire format can carry, and is as
    /// long on the wire as the slice.
    pub proof fn lemma_decoded(b: Seq<u8>)
        requires
            Self::spec_try_from(b) is Ok,
        ensures
            Self::spec_try_from(b)->Ok_0.wf(),
            Self::spec_try_from(b)->Ok_0.wire().len() == b.len(),
    {
    }

    /// Encoding what a slice decodes to gives the slice back, byte for byte.
    pub proof fn lemma_exact(b: Seq<u8>)
        requires
            Self::spec_try_from(b) is Ok,
        ensures
            Self::spec_try_from(b)->Ok_0.wire() == b,
    {
        let v = Self::spec_try_from(b)->Ok_0;
        lemma_u32_bytes_at(b, 0);
        assert(v.wire() =~= b);
    }
}

/// Logical port metadata.
#[derive(Debug, PartialEq, Eq, Clone, Copy)]
pub struct PayloadTunnelId {
    /// The tunnel id.
    pub metadata: u64,
}

impl PayloadTunnelId {
    /// Every field holds a value that the wire format can carry.
    pub open spec fn wf(self) -> bool {
        true
    }

    /// What `b` decodes to: a slice of another length than 8 is refused, then
    /// each field is decoded in wire order and the first failure is the result.
    pub open spec fn spec_try_from(b: Seq<u8>) -> Result<PayloadTunnelId, Error> {
        if b.len() != 8 {
            Err(Error::InvalidSliceLength(8, b.len() as usize, "PayloadTunnelId"))
        } else {
            Ok(PayloadTunnelId { metadata: spec_u64_at(b, 0) })
        }
    }

    /// Decodes the 8 bytes of a `PayloadTunnelId`.
    pub fn try_from(bytes: &[u8]) -> (res: Result<PayloadTunnelId, Error>)
        ensures
            res == Self::spec_try_from(bytes@),
    {
        if bytes.len() != 8 {
            return Err(Error::InvalidSliceLength(8, bytes.len(), "PayloadTunnelId"));
        }
        let metadata: u64 = get_u64(bytes, 0);
        Ok(PayloadTunnelId { metadata })
    }

    /// The 8 bytes of the record on the wire; padding is zero.
    pub open spec fn wire(self) -> Seq<u8> {
        spec_u64_bytes(self.metadata)
    }

    /// Appends the wire form to `out`.
    pub fn encode(&self, out: &mut Vec<u8>)
        ensures
            final(out)@ == old(out)@ + self.wire(),
    {
        put_u64(out, self.metadata);
        assert(out@ =~= old(out)@ + self.wire());
    }

    /// The wire form as a vector of its own.
    pub fn into_bytes(&self) -> (res: Vec<u8>)
        ensures
            res@ == self.wire(),
    {
        let mut out: Vec<u8> = Vec::new();
        self.encode(&mut out);
        out
    }

    /// The wire form is 8 bytes long, and decoding it gives the record back.
    pub proof fn lemma_roundtrip(self)
        requires
            self.wf(),
        ensures
            self.wire().len() == 8,
            Self::spec_try_from(self.wire()) == Ok::<PayloadTunnelId, Error>(self),
    {
        let w = self.wire();
        assert(spec_u64_at(w, 0) == self.metadata) by {
            lemma_u64_at_bytes(w, 0, self.metadata);
        }
    }

    /// What a slice decodes to holds what the wire format can carry, and is as
    /// long on the wire as the slice.
    pub proof fn lemma_decoded(b: Seq<u8>)
        requires
            Self::spec_try_from(b) is Ok,
        ensures
            Self::spec_try_from(b)->Ok_0.wf(),
            Self::spec_try_from(b)->Ok_0.wire().len() == b.len(),
    {
    }

    /// Encoding what a slice decodes to gives the slice back, byte for byte.
    pub proof fn lemma_exact(b: Seq<u8>)
        requires
            Self::spec_try_from(b) is Ok,
        ensures
            Self::spec_try_from(b)->Ok_0.wire() == b,
    {
        let v = Self::spec_try_from(b)->Ok_0;
        lemma_u64_bytes_at(b, 0);
        assert(v.wire() =~= b);
    }
}

/// IPv6 extension header pseudo-field.
#[derive(Debug, PartialEq, Eq, Clone, Copy)]
pub struct PayloadIPv6ExtHdr {
    /// The pseudo-field flags, 9 bits.
    pub ext_hdr_flags: IPv6ExtHdrFlags,
}

impl PayloadIPv6ExtHdr {
    /// Every field holds a value that the wire format can carry.
    pub open spec fn wf(self) -> bool {
        true
    }

    /// What `b` decodes to: a slice of another length than 2 is refused, then
    /// each field is decoded in wire order and the first failure is the result.
    pub open spec fn spec_try_from(b: Seq<u8>) -> Result<PayloadIPv6ExtHdr, Error> {
        if b.len() != 2 {
            Err(Error::InvalidSliceLength(2, b.len() as usize, "PayloadIPv6ExtHdr"))
        } else {
            Ok(PayloadIPv6ExtHdr { ext_hdr_flags: IPv6ExtHdrFlags(spec_u16_at(b, 0)) })
        }
    }

    /// Decodes the 2 bytes of a `PayloadIPv6ExtHdr`.
    pub fn try_from(bytes: &[u8]) -> (res: Result<PayloadIPv6ExtHdr, Error>)
        ensures
            res == Self::spec_try_from(bytes@),
    {
        if bytes.len() != 2 {
            return Err(Error::InvalidSliceLength(2, bytes.len(), "PayloadIPv6ExtHdr"));
        }
        let ext_hdr_flags: IPv6ExtHdrFlags = IPv6ExtHdrFlags(get_u16(bytes, 0));
        Ok(PayloadIPv6ExtHdr { ext_hdr_flags })
    }

    /// The 2 bytes of the record on the wire; padding is zero.
    pub open spec fn wire(self) -> Seq<u8> {
        spec_u16_bytes(self.ext_hdr_flags.0)
    }

    /// Appends the wire form to `out`.
    pub fn encode(&self, out: &mut Vec<u8>)
        ensures
            final(out)@ == old(out)@ + self.wire(),
    {
        put_u16(out, self.ext_hdr_flags.0);
        assert(out@ =~= old(out)@ + self.wire());
    }

    /// The wire form as a vector of its own.
    pub fn into_bytes(&self) -> (res: Vec<u8>)
        ensures
            res@ == self.wire(),
    {
        let mut out: Vec<u8> = Vec::new();
        self.encode(&mut out);
        out
    }

    /// The wire form is 2 bytes long, and decoding it gives the record back.
    pub proof fn lemma_roundtrip(self)
        requires
            self.wf(),
        ensures
            self.wire().len() == 2,
            Self::spec_try_from(self.wire()) == Ok::<PayloadIPv6ExtHdr, Error>(self),
    {
        let w = self.wire();
        assert(spec_u16_at(w, 0) == self.ext_hdr_flags.0) by {
            lemma_u16_at_bytes(w, 0, self.ext_hdr_flags.0);
        }
    }

    /// What a slice decodes to holds what the wire format can carry, and is as
    /// long on the wire as the slice.
    pub proof fn lemma_decoded(b: Seq<u8>)
        requires
            Self::spec_try_from(b) is Ok,
        ensures
            Self::spec_try_from(b)->Ok_0.wf(),
            Self::spec_try_from(b)->Ok_0.wire().len() == b.len(),
    {
    }

    /// Encoding what a slice decodes to gives the slice back, byte for byte.
    pub proof fn lemma_exact(b: Seq<u8>)
        requires
            Self::spec_try_from(b) is Ok,
        ensures
            Self::spec_try_from(b)->Ok_0.wire() == b,
    {
        let v = Self::spec_try_from(b)->Ok_0;
        lemma_u16_bytes_at(b, 0);
        assert(v.wire() =~= b);
    }
}

/// The value of one match field.
#[derive(Debug, PartialEq, Eq, Clone, Copy)]
pub enum MatchPayload {
    /// Switch input port.
    InPort(PayloadInPort),
    /// Switch physical input port.
    InPhyPort(PayloadInPhyPort),
    /// Metadata passed between tables.
    Metadata(PayloadMetadata),
    /// Ethernet destination address.
    EthDst(PayloadEthDst),
    /// Ethernet source address.
    EthSrc(PayloadEthSrc),
    /// Ethernet frame type.
    EthType(PayloadEthType),
    /// VLAN id.
    VlanVId(PayloadVlanVId),
    /// VLAN priority.
    VlanPcp(PayloadVlanPcp),
    /// IP DSCP (6 bits in the ToS field).
    IpDscp(PayloadIpDscp),
    /// IP ECN (2 bits in the ToS field).
    IpEcn(PayloadIpEcn),
    /// IP protocol.
    IpProto(PayloadIpProto),
    /// IPv4 source address.
    IPv4Src(PayloadIPv4Src),
    /// IPv4 destination address.
    IPv4Dst(PayloadIPv4Dst),
    /// TCP source port.
    TcpSrc(PayloadTcpSrc),
    /// TCP destination port.
    TcpDst(PayloadTcpDst),
    /// UDP source port.
    UdpSrc(PayloadUdpSrc),
    /// UDP destination port.
    UdpDst(PayloadUdpDst),
    /// SCTP source port.
    SctpSrc(PayloadSctpSrc),
    /// SCTP destination port.
    SctpDst(PayloadSctpDst),
    /// ICMP type.
    IcmpV4TYype(PayloadIcmpV4Type),
    /// ICMP code.
    IcmpV4Code(PayloadIcmpV4Code),
    /// ARP opcode.
    ArpOp(PayloadArpOp),
    /// ARP source IPv4 address.
    ArpSpa(PayloadArpSpa),
    /// ARP target IPv4 address.
    ArpTpa(PayloadArpTpa),
    /// ARP source hardware address.
    ArpSha(PayloadArpSha),
    /// ARP target hardware address.
    ArpTha(PayloadArpTha),
    /// IPv6 source address.
    IPv6Src(PayloadIPv6Src),
    /// IPv6 destination address.
    IPv6Dst(PayloadIPv6Dst),
    /// IPv6 flow label.
    IPv6FLabel(PayloadIPv6FLabel),
    /// ICMPv6 type.
    IcmpV6Type(PayloadIcmpV6Type),
    /// ICMPv6 code.
    IcmpV6Code(PayloadIcmpV6Code),
    /// Target address for neighbour discovery.
    IPv6NdTarget(PayloadIPv6NdTarget),
    /// Source link-layer address for neighbour discovery.
    IPv6NdSll(PayloadIPv6NdSll),
    /// Target link-layer address for neighbour discovery.
    IPv6NdTll(PayloadIPv6NdTll),
    /// MPLS label.
    MplsLabel(PayloadMplsLabel),
    /// MPLS traffic class.
    MplsTc(PayloadMplsTc),
    /// MPLS bottom-of-stack bit.
    MplsBos(PayloadMplsBos),
    /// PBB I-SID.
    PbbISid(PayloadPbbISid),
    /// Logical port metadata.
    TunnelId(PayloadTunnelId),
    /// IPv6 extension header pseudo-field.
    IPv6ExtHdr(PayloadIPv6ExtHdr),
}

impl MatchPayload {
    /// The field that the value belongs to.
    pub open spec fn spec_field(self) -> OfbMatchFields {
        match self {
            MatchPayload::InPort(_) => OfbMatchFields::InPort,
            MatchPayload::InPhyPort(_) => OfbMatchFields::InPhyPort,
            MatchPayload::Metadata(_) => OfbMatchFields::Metadata,
            MatchPayload::EthDst(_) => OfbMatchFields::EthDst,
            MatchPayload::EthSrc(_) => OfbMatchFields::EthSrc,
            MatchPayload::EthType(_) => OfbMatchFields::EthType,
            MatchPayload::VlanVId(_) => OfbMatchFields::VlanVid,
            MatchPayload::VlanPcp(_) => OfbMatchFields::VlanPcp,
            MatchPayload::IpDscp(_) => OfbMatchFields::IpDscp,
            MatchPayload::IpEcn(_) => OfbMatchFields::IpEcn,
            MatchPayload::IpProto(_) => OfbMatchFields::IpProto,
            MatchPayload::IPv4Src(_) => OfbMatchFields::IPv4Src,
            MatchPayload::IPv4Dst(_) => OfbMatchFields::IPv4Dst,
            MatchPayload::TcpSrc(_) => OfbMatchFields::TcpSrc,
            MatchPayload::TcpDst(_) => OfbMatchFields::TcpDst,
            MatchPayload::UdpSrc(_) => OfbMatchFields::UdpSrc,
            MatchPayload::UdpDst(_) => OfbMatchFields::UdpDst,
            MatchPayload::SctpSrc(_) => OfbMatchFields::SctpSrc,
            MatchPayload::SctpDst(_) => OfbMatchFields::SctpDst,
            MatchPayload::IcmpV4TYype(_) => OfbMatchFields::IcmpV4TYype,
            MatchPayload::IcmpV4Code(_) => OfbMatchFields::IcmpV4Code,
            MatchPayload::ArpOp(_) => OfbMatchFields::ArpOp,
            MatchPayload::ArpSpa(_) => OfbMatchFields::ArpSpa,
            MatchPayload::ArpTpa(_) => OfbMatchFields::ArpTpa,
            MatchPayload::ArpSha(_) => OfbMatchFields::ArpSha,
            MatchPayload::ArpTha(_) => OfbMatchFields::ArpTha,
            MatchPayload::IPv6Src(_) => OfbMatchFields::IPv6Src,
            MatchPayload::IPv6Dst(_) => OfbMatchFields::IPv6Dst,
            MatchPayload::IPv6FLabel(_) => OfbMatchFields::IPv6FLabel,
            MatchPayload::IcmpV6Type(_) => OfbMatchFields::IcmpV6Type,
            MatchPayload::IcmpV6Code(_) => OfbMatchFields::IcmpV6Code,
            MatchPayload::IPv6NdTarget(_) => OfbMatchFields::IPv6NdTarget,
            MatchPayload::IPv6NdSll(_) => OfbMatchFields::IPv6NdSll,
            MatchPayload::IPv6NdTll(_) => OfbMatchFields::IPv6NdTll,
            MatchPayload::MplsLabel(_) => OfbMatchFields::MplsLabel,
            MatchPayload::MplsTc(_) => OfbMatchFields::MplsTc,
            MatchPayload::MplsBos(_) => OfbMatchFields::MplsBos,
            MatchPayload::PbbISid(_) => OfbMatchFields::PbbISid,
            MatchPayload::TunnelId(_) => OfbMatchFields::TunnelId,
            MatchPayload::IPv6ExtHdr(_) => OfbMatchFields::IPv6ExtHdr,
        }
    }

    /// The field that the value belongs to.
    pub fn field(&self) -> (r: OfbMatchFields)
        ensures
            r == self.spec_field(),
    {
        match self {
            MatchPayload::InPort(_) => OfbMatchFields::InPort,
            MatchPayload::InPhyPort(_) => OfbMatchFields::InPhyPort,
            MatchPayload::Metadata(_) => OfbMatchFields::Metadata,
            MatchPayload::EthDst(_) => OfbMatchFields::EthDst,
            MatchPayload::EthSrc(_) => OfbMatchFields::EthSrc,
            MatchPayload::EthType(_) => OfbMatchFields::EthType,
            MatchPayload::VlanVId(_) => OfbMatchFields::VlanVid,
            MatchPayload::VlanPcp(_) => OfbMatchFields::VlanPcp,
            MatchPayload::IpDscp(_) => OfbMatchFields::IpDscp,
            MatchPayload::IpEcn(_) => OfbMatchFields::IpEcn,
            MatchPayload::IpProto(_) => OfbMatchFields::IpProto,
            MatchPayload::IPv4Src(_) => OfbMatchFields::IPv4Src,
            MatchPayload::IPv4Dst(_) => OfbMatchFields::IPv4Dst,
            MatchPayload::TcpSrc(_) => OfbMatchFields::TcpSrc,
            MatchPayload::TcpDst(_) => OfbMatchFields::TcpDst,
            MatchPayload::UdpSrc(_) => OfbMatchFields::UdpSrc,
            MatchPayload::UdpDst(_) => OfbMatchFields::UdpDst,
            MatchPayload::SctpSrc(_) => OfbMatchFields::SctpSrc,
            MatchPayload::SctpDst(_) => OfbMatchFields::SctpDst,
            MatchPayload::IcmpV4TYype(_) => OfbMatchFields::IcmpV4TYype,
            MatchPayload::IcmpV4Code(_) => OfbMatchFields::IcmpV4Code,
            MatchPayload::ArpOp(_) => OfbMatchFields::ArpOp,
            MatchPayload::ArpSpa(_) => OfbMatchFields::ArpSpa,
            MatchPayload::ArpTpa(_) => OfbMatchFields::ArpTpa,
            MatchPayload::ArpSha(_) => OfbMatchFields::ArpSha,
            MatchPayload::ArpTha(_) => OfbMatchFields::ArpTha,
            MatchPayload::IPv6Src(_) => OfbMatchFields::IPv6Src,
            MatchPayload::IPv6Dst(_) => OfbMatchFields::IPv6Dst,
            MatchPayload::IPv6FLabel(_) => OfbMatchFields::IPv6FLabel,
            MatchPayload::IcmpV6Type(_) => OfbMatchFields::IcmpV6Type,
            MatchPayload::IcmpV6Code(_) => OfbMatchFields::IcmpV6Code,
            MatchPayload::IPv6NdTarget(_) => OfbMatchFields::IPv6NdTarget,
            MatchPayload::IPv6NdSll(_) => OfbMatchFields::IPv6NdSll,
            MatchPayload::IPv6NdTll(_) => OfbMatchFields::IPv6NdTll,
            MatchPayload::MplsLabel(_) => OfbMatchFields::MplsLabel,
            MatchPayload::MplsTc(_) => OfbMatchFields::MplsTc,
            MatchPayload::MplsBos(_) => OfbMatchFields::MplsBos,
            MatchPayload::PbbISid(_) => OfbMatchFields::PbbISid,
            MatchPayload::TunnelId(_) => OfbMatchFields::TunnelId,
            MatchPayload::IPv6ExtHdr(_) => OfbMatchFields::IPv6ExtHdr,
        }
    }

    /// The value holds what the wire format can carry.
    pub open spec fn wf(self) -> bool {
        match self {
            MatchPayload::InPort(p) => p.wf(),
            MatchPayload::InPhyPort(p) => p.wf(),
            MatchPayload::Metadata(p) => p.wf(),
            MatchPayload::EthDst(p) => p.wf(),
            MatchPayload::EthSrc(p) => p.wf(),
            MatchPayload::EthType(p) => p.wf(),
            MatchPayload::VlanVId(p) => p.wf(),
            MatchPayload::VlanPcp(p) => p.wf(),
            MatchPayload::IpDscp(p) => p.wf(),
            MatchPayload::IpEcn(p) => p.wf(),
            MatchPayload::IpProto(p) => p.wf(),
            MatchPayload::IPv4Src(p) => p.wf(),
            MatchPayload::IPv4Dst(p) => p.wf(),
            MatchPayload::TcpSrc(p) => p.wf(),
            MatchPayload::TcpDst(p) => p.wf(),
            MatchPayload::UdpSrc(p) => p.wf(),
            MatchPayload::UdpDst(p) => p.wf(),
            MatchPayload::SctpSrc(p) => p.wf(),
            MatchPayload::SctpDst(p) => p.wf(),
            MatchPayload::IcmpV4TYype(p) => p.wf(),
            MatchPayload::IcmpV4Code(p) => p.wf(),
            MatchPayload::ArpOp(p) => p.wf(),
            MatchPayload::ArpSpa(p) => p.wf(),
            MatchPayload::ArpTpa(p) => p.wf(),
            MatchPayload::ArpSha(p) => p.wf(),
            MatchPayload::ArpTha(p) => p.wf(),
            MatchPayload::IPv6Src(p) => p.wf(),
            MatchPayload::IPv6Dst(p) => p.wf(),
            MatchPayload::IPv6FLabel(p) => p.wf(),
            MatchPayload::IcmpV6Type(p) => p.wf(),
            MatchPayload::IcmpV6Code(p) => p.wf(),
            MatchPayload::IPv6NdTarget(p) => p.wf(),
            MatchPayload::IPv6NdSll(p) => p.wf(),
            MatchPayload::IPv6NdTll(p) => p.wf(),
            MatchPayload::MplsLabel(p) => p.wf(),
            MatchPayload::MplsTc(p) => p.wf(),
            MatchPayload::MplsBos(p) => p.wf(),
            MatchPayload::PbbISid(p) => p.wf(),
            MatchPayload::TunnelId(p) => p.wf(),
            MatchPayload::IPv6ExtHdr(p) => p.wf(),
        }
    }

    /// The bytes of the value on the wire.
    pub open spec fn wire(self) -> Seq<u8> {
        match self {
            MatchPayload::InPort(p) => p.wire(),
            MatchPayload::InPhyPort(p) => p.wire(),
            MatchPayload::Metadata(p) => p.wire(),
            MatchPayload::EthDst(p) => p.wire(),
            MatchPayload::EthSrc(p) => p.wire(),
            MatchPayload::EthType(p) => p.wire(),
            MatchPayload::VlanVId(p) => p.wire(),
            MatchPayload::VlanPcp(p) => p.wire(),
            MatchPayload::IpDscp(p) => p.wire(),
            MatchPayload::IpEcn(p) => p.wire(),
            MatchPayload::IpProto(p) => p.wire(),
            MatchPayload::IPv4Src(p) => p.wire(),
            MatchPayload::IPv4Dst(p) => p.wire(),
            MatchPayload::TcpSrc(p) => p.wire(),
            MatchPayload::TcpDst(p) => p.wire(),
            MatchPayload::UdpSrc(p) => p.wire(),
            MatchPayload::UdpDst(p) => p.wire(),
            MatchPayload::SctpSrc(p) => p.wire(),
            MatchPayload::SctpDst(p) => p.wire(),
            MatchPayload::IcmpV4TYype(p) => p.wire(),
            MatchPayload::IcmpV4Code(p) => p.wire(),
            MatchPayload::ArpOp(p) => p.wire(),
            MatchPayload::ArpSpa(p) => p.wire(),
            MatchPayload::ArpTpa(p) => p.wire(),
            MatchPayload::ArpSha(p) => p.wire(),
            MatchPayload::ArpTha(p) => p.wire(),
            MatchPayload::IPv6Src(p) => p.wire(),
            MatchPayload::IPv6Dst(p) => p.wire(),
            MatchPayload::IPv6FLabel(p) => p.wire(),
            MatchPayload::IcmpV6Type(p) => p.wire(),
            MatchPayload::IcmpV6Code(p) => p.wire(),
            MatchPayload::IPv6NdTarget(p) => p.wire(),
            MatchPayload::IPv6NdSll(p) => p.wire(),
            MatchPayload::IPv6NdTll(p) => p.wire(),
            MatchPayload::MplsLabel(p) => p.wire(),
            MatchPayload::MplsTc(p) => p.wire(),
            MatchPayload::MplsBos(p) => p.wire(),
            MatchPayload::PbbISid(p) => p.wire(),
            MatchPayload::TunnelId(p) => p.wire(),
            MatchPayload::IPv6ExtHdr(p) => p.wire(),
        }
    }

    /// The number of bytes of the value on the wire.
    pub fn wire_len(&self) -> (r: u8)
        ensures
            r == self.wire().len(),
            r <= 8,
    {
        match self {
            MatchPayload::InPort(_) => 4,
            MatchPayload::InPhyPort(_) => 4,
            MatchPayload::Metadata(_) => 8,
            MatchPayload::EthDst(_) => 6,
            MatchPayload::EthSrc(_) => 6,
            MatchPayload::EthType(_) => 2,
            MatchPayload::VlanVId(_) => 2,
            MatchPayload::VlanPcp(_) => 1,
            MatchPayload::IpDscp(_) => 1,
            MatchPayload::IpEcn(_) => 1,
            MatchPayload::IpProto(_) => 1,
            MatchPayload::IPv4Src(_) => 4,
            MatchPayload::IPv4Dst(_) => 4,
            MatchPayload::TcpSrc(_) => 2,
            MatchPayload::TcpDst(_) => 2,
            MatchPayload::UdpSrc(_) => 2,
            MatchPayload::UdpDst(_) => 2,
            MatchPayload::SctpSrc(_) => 2,
            MatchPayload::SctpDst(_) => 2,
            MatchPayload::IcmpV4TYype(_) => 1,
            MatchPayload::IcmpV4Code(_) => 1,
            MatchPayload::ArpOp(_) => 2,
            MatchPayload::ArpSpa(_) => 4,
            MatchPayload::ArpTpa(_) => 4,
            MatchPayload::ArpSha(_) => 6,
            MatchPayload::ArpTha(_) => 6,
            MatchPayload::IPv6Src(_) => 8,
            MatchPayload::IPv6Dst(_) => 8,
            MatchPayload::IPv6FLabel(_) => 4,
            MatchPayload::IcmpV6Type(_) => 1,
            MatchPayload::IcmpV6Code(_) => 1,
            MatchPayload::IPv6NdTarget(_) => 8,
            MatchPayload::IPv6NdSll(_) => 6,
            MatchPayload::IPv6NdTll(_) => 6,
            MatchPayload::MplsLabel(_) => 4,
            MatchPayload::MplsTc(_) => 1,
            MatchPayload::MplsBos(_) => 1,
            MatchPayload::PbbISid(_) => 4,
            MatchPayload::TunnelId(_) => 8,
            MatchPayload::IPv6ExtHdr(_) => 2,
        }
    }

    /// Appends the bytes of the value to `out`.
    pub fn encode(&self, out: &mut Vec<u8>)
        ensures
            final(out)@ == old(out)@ + self.wire(),
    {
        match self {
            MatchPayload::InPort(p) => p.encode(out),
            MatchPayload::InPhyPort(p) => p.encode(out),
            MatchPayload::Metadata(p) => p.encode(out),
            MatchPayload::EthDst(p) => p.encode(out),
            MatchPayload::EthSrc(p) => p.encode(out),
            MatchPayload::EthType(p) => p.encode(out),
            MatchPayload::VlanVId(p) => p.encode(out),
            MatchPayload::VlanPcp(p) => p.encode(out),
            MatchPayload::IpDscp(p) => p.encode(out),
            MatchPayload::IpEcn(p) => p.encode(out),
            MatchPayload::IpProto(p) => p.encode(out),
            MatchPayload::IPv4Src(p) => p.encode(out),
            MatchPayload::IPv4Dst(p) => p.encode(out),
            MatchPayload::TcpSrc(p) => p.encode(out),
            MatchPayload::TcpDst(p) => p.encode(out),
            MatchPayload::UdpSrc(p) => p.encode(out),
            MatchPayload::UdpDst(p) => p.encode(out),
            MatchPayload::SctpSrc(p) => p.encode(out),
            MatchPayload::SctpDst(p) => p.encode(out),
            MatchPayload::IcmpV4TYype(p) => p.encode(out),
            MatchPayload::IcmpV4Code(p) => p.encode(out),
            MatchPayload::ArpOp(p) => p.encode(out),
            MatchPayload::ArpSpa(p) => p.encode(out),
            MatchPayload::ArpTpa(p) => p.encode(out),
            MatchPayload::ArpSha(p) => p.encode(out),
            MatchPayload::ArpTha(p) => p.encode(out),
            MatchPayload::IPv6Src(p) => p.encode(out),
            MatchPayload::IPv6Dst(p) => p.encode(out),
            MatchPayload::IPv6FLabel(p) => p.encode(out),
            MatchPayload::IcmpV6Type(p) => p.encode(out),
            MatchPayload::IcmpV6Code(p) => p.encode(out),
            MatchPayload::IPv6NdTarget(p) => p.encode(out),
            MatchPayload::IPv6NdSll(p) => p.encode(out),
            MatchPayload::IPv6NdTll(p) => p.encode(out),
            MatchPayload::MplsLabel(p) => p.encode(out),
            MatchPayload::MplsTc(p) => p.encode(out),
            MatchPayload::MplsBos(p) => p.encode(out),
            MatchPayload::PbbISid(p) => p.encode(out),
            MatchPayload::TunnelId(p) => p.encode(out),
            MatchPayload::IPv6ExtHdr(p) => p.encode(out),
        }
    }

    /// The bytes of the value as a vector of its own.
    pub fn into_bytes(&self) -> (res: Vec<u8>)
        ensures
            res@ == self.wire(),
    {
        let mut out: Vec<u8> = Vec::new();
        self.encode(&mut out);
        out
    }

    /// Decoding the bytes of a value as a value of its own field gives it back.
    pub proof fn lemma_roundtrip(self)
        requires
            self.wf(),
        ensures
            TlvMatch::spec_payload(self.spec_field(), self.wire()) == Ok::<MatchPayload, Error>(self),
            self.wire().len() <= 8,
    {
        match self {
            MatchPayload::InPort(p) => p.lemma_roundtrip(),
            MatchPayload::InPhyPort(p) => p.lemma_roundtrip(),
            MatchPayload::Metadata(p) => p.lemma_roundtrip(),
            MatchPayload::EthDst(p) => p.lemma_roundtrip(),
            MatchPayload::EthSrc(p) => p.lemma_roundtrip(),
            MatchPayload::EthType(p) => p.lemma_roundtrip(),
            MatchPayload::VlanVId(p) => p.lemma_roundtrip(),
            MatchPayload::VlanPcp(p) => p.lemma_roundtrip(),
            MatchPayload::IpDscp(p) => p.lemma_roundtrip(),
            MatchPayload::IpEcn(p) => p.lemma_roundtrip(),
            MatchPayload::IpProto(p) => p.lemma_roundtrip(),
            MatchPayload::IPv4Src(p) => p.lemma_roundtrip(),
            MatchPayload::IPv4Dst(p) => p.lemma_roundtrip(),
            MatchPayload::TcpSrc(p) => p.lemma_roundtrip(),
            MatchPayload::TcpDst(p) => p.lemma_roundtrip(),
            MatchPayload::UdpSrc(p) => p.lemma_roundtrip(),
            MatchPayload::UdpDst(p) => p.lemma_roundtrip(),
            MatchPayload::SctpSrc(p) => p.lemma_roundtrip(),
            MatchPayload::SctpDst(p) => p.lemma_roundtrip(),
            MatchPayload::IcmpV4TYype(p) => p.lemma_roundtrip(),
            MatchPayload::IcmpV4Code(p) => p.lemma_roundtrip(),
            MatchPayload::ArpOp(p) => p.lemma_roundtrip(),
            MatchPayload::ArpSpa(p) => p.lemma_roundtrip(),
            MatchPayload::ArpTpa(p) => p.lemma_roundtrip(),
            MatchPayload::ArpSha(p) => p.lemma_roundtrip(),
            MatchPayload::ArpTha(p) => p.lemma_roundtrip(),
            MatchPayload::IPv6Src(p) => p.lemma_roundtrip(),
            MatchPayload::IPv6Dst(p) => p.lemma_roundtrip(),
            MatchPayload::IPv6FLabel(p) => p.lemma_roundtrip(),
            MatchPayload::IcmpV6Type(p) => p.lemma_roundtrip(),
            MatchPayload::IcmpV6Code(p) => p.lemma_roundtrip(),
            MatchPayload::IPv6NdTarget(p) => p.lemma_roundtrip(),
            MatchPayload::IPv6NdSll(p) => p.lemma_roundtrip(),
            MatchPayload::IPv6NdTll(p) => p.lemma_roundtrip(),
            MatchPayload::MplsLabel(p) => p.lemma_roundtrip(),
            MatchPayload::MplsTc(p) => p.lemma_roundtrip(),
            MatchPayload::MplsBos(p) => p.lemma_roundtrip(),
            MatchPayload::PbbISid(p) => p.lemma_roundtrip(),
            MatchPayload::TunnelId(p) => p.lemma_roundtrip(),
            MatchPayload::IPv6ExtHdr(p) => p.lemma_roundtrip(),
        }
    }
}

/// One OXM TLV: its header word and the value of its field.
#[derive(Debug, PartialEq, Eq, Clone, Copy)]
pub struct TlvMatch {
    /// The header word of the TLV.
    pub tlv_header: OxmTlvHeader,
    /// The value of the field.
    pub payload: MatchPayload,
}

impl TlvMatch {
    /// What `b` decodes to as the value of `field`.
    pub open spec fn spec_payload(
        field: OfbMatchFields,
        b: Seq<u8>,
    ) -> Result<MatchPayload, Error> {
        match field {
            OfbMatchFields::InPort => match PayloadInPort::spec_try_from(b) {
                Ok(p) => Ok(MatchPayload::InPort(p)),
                Err(e) => Err(e),
            },
            OfbMatchFields::InPhyPort => match PayloadInPhyPort::spec_try_from(b) {
                Ok(p) => Ok(MatchPayload::InPhyPort(p)),
                Err(e) => Err(e),
            },
            OfbMatchFields::Metadata => match PayloadMetadata::spec_try_from(b) {
                Ok(p) => Ok(MatchPayload::Metadata(p)),
                Err(e) => Err(e),
            },
            OfbMatchFields::EthDst => match PayloadEthDst::spec_try_from(b) {
                Ok(p) => Ok(MatchPayload::EthDst(p)),
                Err(e) => Err(e),
            },
            OfbMatchFields::EthSrc => match PayloadEthSrc::spec_try_from(b) {
                Ok(p) => Ok(MatchPayload::EthSrc(p)),
                Err(e) => Err(e),
            },
            OfbMatchFields::EthType => match PayloadEthType::spec_try_from(b) {
                Ok(p) => Ok(MatchPayload::EthType(p)),
                Err(e) => Err(e),
            },
            OfbMatchFields::VlanVid => match PayloadVlanVId::spec_try_from(b) {
                Ok(p) => Ok(MatchPayload::VlanVId(p)),
                Err(e) => Err(e),
            },
            OfbMatchFields::VlanPcp => match PayloadVlanPcp::spec_try_from(b) {
                Ok(p) => Ok(MatchPayload::VlanPcp(p)),
                Err(e) => Err(e),
            },
            OfbMatchFields::IpDscp => match PayloadIpDscp::spec_try_from(b) {
                Ok(p) => Ok(MatchPayload::IpDscp(p)),
                Err(e) => Err(e),
            },
            OfbMatchFields::IpEcn => match PayloadIpEcn::spec_try_from(b) {
                Ok(p) => Ok(MatchPayload::IpEcn(p)),
                Err(e) => Err(e),
            },
            OfbMatchFields::IpProto => match PayloadIpProto::spec_try_from(b) {
                Ok(p) => Ok(MatchPayload::IpProto(p)),
                Err(e) => Err(e),
            },
            OfbMatchFields::IPv4Src => match PayloadIPv4Src::spec_try_from(b) {
                Ok(p) => Ok(MatchPayload::IPv4Src(p)),
                Err(e) => Err(e),
            },
            OfbMatchFields::IPv4Dst => match PayloadIPv4Dst::spec_try_from(b) {
                Ok(p) => Ok(MatchPayload::IPv4Dst(p)),
                Err(e) => Err(e),
            },
            OfbMatchFields::TcpSrc => match PayloadTcpSrc::spec_try_from(b) {
                Ok(p) => Ok(MatchPayload::TcpSrc(p)),
                Err(e) => Err(e),
            },
            OfbMatchFields::TcpDst => match PayloadTcpDst::spec_try_from(b) {
                Ok(p) => Ok(MatchPayload::TcpDst(p)),
                Err(e) => Err(e),
            },
            OfbMatchFields::UdpSrc => match PayloadUdpSrc::spec_try_from(b) {
                Ok(p) => Ok(MatchPayload::UdpSrc(p)),
                Err(e) => Err(e),
            },
            OfbMatchFields::UdpDst => match PayloadUdpDst::spec_try_from(b) {
                Ok(p) => Ok(MatchPayload::UdpDst(p)),
                Err(e) => Err(e),
            },
            OfbMatchFields::SctpSrc => match PayloadSctpSrc::spec_try_from(b) {
                Ok(p) => Ok(MatchPayload::SctpSrc(p)),
                Err(e) => Err(e),
            },
            OfbMatchFields::SctpDst => match PayloadSctpDst::spec_try_from(b) {
                Ok(p) => Ok(MatchPayload::SctpDst(p)),
                Err(e) => Err(e),
            },
            OfbMatchFields::IcmpV4TYype => match PayloadIcmpV4Type::spec_try_from(b) {
                Ok(p) => Ok(MatchPayload::IcmpV4TYype(p)),
                Err(e) => Err(e),
            },
            OfbMatchFields::IcmpV4Code => match PayloadIcmpV4Code::spec_try_from(b) {
                Ok(p) => Ok(MatchPayload::IcmpV4Code(p)),
                Err(e) => Err(e),
            },
            OfbMatchFields::ArpOp => match PayloadArpOp::spec_try_from(b) {
                Ok(p) => Ok(MatchPayload::ArpOp(p)),
                Err(e) => Err(e),
            },
            OfbMatchFields::ArpSpa => match PayloadArpSpa::spec_try_from(b) {
                Ok(p) => Ok(MatchPayload::ArpSpa(p)),
                Err(e) => Err(e),
            },
            OfbMatchFields::ArpTpa => match PayloadArpTpa::spec_try_from(b) {
                Ok(p) => Ok(MatchPayload::ArpTpa(p)),
                Err(e) => Err(e),
            },
            OfbMatchFields::ArpSha => match PayloadArpSha::spec_try_from(b) {
                Ok(p) => Ok(MatchPayload::ArpSha(p)),
                Err(e) => Err(e),
            },
            OfbMatchFields::ArpTha => match PayloadArpTha::spec_try_from(b) {
                Ok(p) => Ok(MatchPayload::ArpTha(p)),
                Err(e) => Err(e),
            },
            OfbMatchFields::IPv6Src => match PayloadIPv6Src::spec_try_from(b) {
                Ok(p) => Ok(MatchPayload::IPv6Src(p)),
                Err(e) => Err(e),
            },
            OfbMatchFields::IPv6Dst => match PayloadIPv6Dst::spec_try_from(b) {
                Ok(p) => Ok(MatchPayload::IPv6Dst(p)),
                Err(e) => Err(e),
            },
            OfbMatchFields::IPv6FLabel => match PayloadIPv6FLabel::spec_try_from(b) {
                Ok(p) => Ok(MatchPayload::IPv6FLabel(p)),
                Err(e) => Err(e),
            },
            OfbMatchFields::IcmpV6Type => match PayloadIcmpV6Type::spec_try_from(b) {
                Ok(p) => Ok(MatchPayload::IcmpV6Type(p)),
                Err(e) => Err(e),
            },
            OfbMatchFields::IcmpV6Code => match PayloadIcmpV6Code::spec_try_from(b) {
                Ok(p) => Ok(MatchPayload::IcmpV6Code(p)),
                Err(e) => Err(e),
            },
            OfbMatchFields::IPv6NdTarget => match PayloadIPv6NdTarget::spec_try_from(b) {
                Ok(p) => Ok(MatchPayload::IPv6NdTarget(p)),
                Err(e) => Err(e),
            },
            OfbMatchFields::IPv6NdSll => match PayloadIPv6NdSll::spec_try_from(b) {
                Ok(p) => Ok(MatchPayload::IPv6NdSll(p)),
                Err(e) => Err(e),
            },
            OfbMatchFields::IPv6NdTll => match PayloadIPv6NdTll::spec_try_from(b) {
                Ok(p) => Ok(MatchPayload::IPv6NdTll(p)),
                Err(e) => Err(e),
            },
            OfbMatchFields::MplsLabel => match PayloadMplsLabel::spec_try_from(b) {
                Ok(p) => Ok(MatchPayload::MplsLabel(p)),
                Err(e) => Err(e),
            },
            OfbMatchFields::MplsTc => match PayloadMplsTc::spec_try_from(b) {
                Ok(p) => Ok(MatchPayload::MplsTc(p)),
                Err(e) => Err(e),
            },
            OfbMatchFields::MplsBos => match PayloadMplsBos::spec_try_from(b) {
                Ok(p) => Ok(MatchPayload::MplsBos(p)),
                Err(e) => Err(e),
            },
            OfbMatchFields::PbbISid => match PayloadPbbISid::spec_try_from(b) {
                Ok(p) => Ok(MatchPayload::PbbISid(p)),
                Err(e) => Err(e),
            },
            OfbMatchFields::TunnelId => match PayloadTunnelId::spec_try_from(b) {
                Ok(p) => Ok(MatchPayload::TunnelId(p)),
                Err(e) => Err(e),
            },
            OfbMatchFields::IPv6ExtHdr => match PayloadIPv6ExtHdr::spec_try_from(b) {
                Ok(p) => Ok(MatchPayload::IPv6ExtHdr(p)),
                Err(e) => Err(e),
            },
        }
    }

    /// Decodes `match_slice` as the value of `field`.
    pub fn decode_payload(
        field: OfbMatchFields,
        match_slice: &[u8],
    ) -> (res: Result<MatchPayload, Error>)
        ensures
            res == Self::spec_payload(field, match_slice@),
    {
        match field {
            OfbMatchFields::InPort => match PayloadInPort::try_from(match_slice) {
                Ok(p) => Ok(MatchPayload::InPort(p)),
                Err(e) => Err(e),
            },
            OfbMatchFields::InPhyPort => match PayloadInPhyPort::try_from(match_slice) {
                Ok(p) => Ok(MatchPayload::InPhyPort(p)),
                Err(e) => Err(e),
            },
            OfbMatchFields::Metadata => match PayloadMetadata::try_from(match_slice) {
                Ok(p) => Ok(MatchPayload::Metadata(p)),
                Err(e) => Err(e),
            },
            OfbMatchFields::EthDst => match PayloadEthDst::try_from(match_slice) {
                Ok(p) => Ok(MatchPayload::EthDst(p)),
                Err(e) => Err(e),
            },
            OfbMatchFields::EthSrc => match PayloadEthSrc::try_from(match_slice) {
                Ok(p) => Ok(MatchPayload::EthSrc(p)),
                Err(e) => Err(e),
            },
            OfbMatchFields::EthType => match PayloadEthType::try_from(match_slice) {
                Ok(p) => Ok(MatchPayload::EthType(p)),
                Err(e) => Err(e),
            },
            OfbMatchFields::VlanVid => match PayloadVlanVId::try_from(match_slice) {
                Ok(p) => Ok(MatchPayload::VlanVId(p)),
                Err(e) => Err(e),
            },
            OfbMatchFields::VlanPcp => match PayloadVlanPcp::try_from(match_slice) {
                Ok(p) => Ok(MatchPayload::VlanPcp(p)),
                Err(e) => Err(e),
            },
            OfbMatchFields::IpDscp => match PayloadIpDscp::try_from(match_slice) {
                Ok(p) => Ok(MatchPayload::IpDscp(p)),
                Err(e) => Err(e),
            },
            OfbMatchFields::IpEcn => match PayloadIpEcn::try_from(match_slice) {
                Ok(p) => Ok(MatchPayload::IpEcn(p)),
                Err(e) => Err(e),
            },
            OfbMatchFields::IpProto => match PayloadIpProto::try_from(match_slice) {
                Ok(p) => Ok(MatchPayload::IpProto(p)),
                Err(e) => Err(e),
            },
            OfbMatchFields::IPv4Src => match PayloadIPv4Src::try_from(match_slice) {
                Ok(p) => Ok(MatchPayload::IPv4Src(p)),
                Err(e) => Err(e),
            },
            OfbMatchFields::IPv4Dst => match PayloadIPv4Dst::try_from(match_slice) {
                Ok(p) => Ok(MatchPayload::IPv4Dst(p)),
                Err(e) => Err(e),
            },
            OfbMatchFields::TcpSrc => match PayloadTcpSrc::try_from(match_slice) {
                Ok(p) => Ok(MatchPayload::TcpSrc(p)),
                Err(e) => Err(e),
            },
            OfbMatchFields::TcpDst => match PayloadTcpDst::try_from(match_slice) {
                Ok(p) => Ok(MatchPayload::TcpDst(p)),
                Err(e) => Err(e),
            },
            OfbMatchFields::UdpSrc => match PayloadUdpSrc::try_from(match_slice) {
                Ok(p) => Ok(MatchPayload::UdpSrc(p)),
                Err(e) => Err(e),
            },
            OfbMatchFields::UdpDst => match PayloadUdpDst::try_from(match_slice) {
                Ok(p) => Ok(MatchPayload::UdpDst(p)),
                Err(e) => Err(e),
            },
            OfbMatchFields::SctpSrc => match PayloadSctpSrc::try_from(match_slice) {
                Ok(p) => Ok(MatchPayload::SctpSrc(p)),
                Err(e) => Err(e),
            },
            OfbMatchFields::SctpDst => match PayloadSctpDst::try_from(match_slice) {
                Ok(p) => Ok(MatchPayload::SctpDst(p)),
                Err(e) => Err(e),
            },
            OfbMatchFields::IcmpV4TYype => match PayloadIcmpV4Type::try_from(match_slice) {
                Ok(p) => Ok(MatchPayload::IcmpV4TYype(p)),
                Err(e) => Err(e),
            },
            OfbMatchFields::IcmpV4Code => match PayloadIcmpV4Code::try_from(match_slice) {
                Ok(p) => Ok(MatchPayload::IcmpV4Code(p)),
                Err(e) => Err(e),
            },
            OfbMatchFields::ArpOp => match PayloadArpOp::try_from(match_slice) {
                Ok(p) => Ok(MatchPayload::ArpOp(p)),
                Err(e) => Err(e),
            },
            OfbMatchFields::ArpSpa => match PayloadArpSpa::try_from(match_slice) {
                Ok(p) => Ok(MatchPayload::ArpSpa(p)),
                Err(e) => Err(e),
            },
            OfbMatchFields::ArpTpa => match PayloadArpTpa::try_from(match_slice) {
                Ok(p) => Ok(MatchPayload::ArpTpa(p)),
                Err(e) => Err(e),
            },
            OfbMatchFields::ArpSha => match PayloadArpSha::try_from(match_slice) {
                Ok(p) => Ok(MatchPayload::ArpSha(p)),
                Err(e) => Err(e),
            },
            OfbMatchFields::ArpTha => match PayloadArpTha::try_from(match_slice) {
                Ok(p) => Ok(MatchPayload::ArpTha(p)),
                Err(e) => Err(e),
            },
            OfbMatchFields::IPv6Src => match PayloadIPv6Src::try_from(match_slice) {
                Ok(p) => Ok(MatchPayload::IPv6Src(p)),
                Err(e) => Err(e),
            },
            OfbMatchFields::IPv6Dst => match PayloadIPv6Dst::try_from(match_slice) {
                Ok(p) => Ok(MatchPayload::IPv6Dst(p)),
                Err(e) => Err(e),
            },
            OfbMatchFields::IPv6FLabel => match PayloadIPv6FLabel::try_from(match_slice) {
                Ok(p) => Ok(MatchPayload::IPv6FLabel(p)),
                Err(e) => Err(e),
            },
            OfbMatchFields::IcmpV6Type => match PayloadIcmpV6Type::try_from(match_slice) {
                Ok(p) => Ok(MatchPayload::IcmpV6Type(p)),
                Err(e) => Err(e),
            },
            OfbMatchFields::IcmpV6Code => match PayloadIcmpV6Code::try_from(match_slice) {
                Ok(p) => Ok(MatchPayload::IcmpV6Code(p)),
                Err(e) => Err(e),
            },
            OfbMatchFields::IPv6NdTarget => match PayloadIPv6NdTarget::try_from(match_slice) {
                Ok(p) => Ok(MatchPayload::IPv6NdTarget(p)),
                Err(e) => Err(e),
            },
            OfbMatchFields::IPv6NdSll => match PayloadIPv6NdSll::try_from(match_slice) {
                Ok(p) => Ok(MatchPayload::IPv6NdSll(p)),
                Err(e) => Err(e),
            },
            OfbMatchFields::IPv6NdTll => match PayloadIPv6NdTll::try_from(match_slice) {
                Ok(p) => Ok(MatchPayload::IPv6NdTll(p)),
                Err(e) => Err(e),
            },
            OfbMatchFields::MplsLabel => match PayloadMplsLabel::try_from(match_slice) {
                Ok(p) => Ok(MatchPayload::MplsLabel(p)),
                Err(e) => Err(e),
            },
            OfbMatchFields::MplsTc => match PayloadMplsTc::try_from(match_slice) {
                Ok(p) => Ok(MatchPayload::MplsTc(p)),
                Err(e) => Err(e),
            },
            OfbMatchFields::MplsBos => match PayloadMplsBos::try_from(match_slice) {
                Ok(p) => Ok(MatchPayload::MplsBos(p)),
                Err(e) => Err(e),
            },
            OfbMatchFields::PbbISid => match PayloadPbbISid::try_from(match_slice) {
                Ok(p) => Ok(MatchPayload::PbbISid(p)),
                Err(e) => Err(e),
            },
            OfbMatchFields::TunnelId => match PayloadTunnelId::try_from(match_slice) {
                Ok(p) => Ok(MatchPayload::TunnelId(p)),
                Err(e) => Err(e),
            },
            OfbMatchFields::IPv6ExtHdr => match PayloadIPv6ExtHdr::try_from(match_slice) {
                Ok(p) => Ok(MatchPayload::IPv6ExtHdr(p)),
                Err(e) => Err(e),
            },
        }
    }

    /// What the header word and the bytes of the value decode to. A class
    /// that is not known is an `UnknownEnum`, one that is known but not the
    /// OpenFlow basic class an `UnsupportedType`; then the field id must be
    /// known, the value as long as the header says, and the value itself must
    /// decode.
    pub open spec fn spec_try_from(
        tlv_header: OxmTlvHeader,
        b: Seq<u8>,
    ) -> Result<TlvMatch, Error> {
        let class = tlv_header.spec_get_oxm_class();
        match OxmClass::spec_from_u32(class) {
            None => Err(Error::UnknownEnum(class as u64, "OxmClass")),
            Some(OxmClass::XmcOpenFlowBasic) => match OfbMatchFields::spec_decode(
                tlv_header.spec_get_oxm_field(),
            ) {
                Err(e) => Err(e),
                Ok(field) => if b.len() != tlv_header.spec_get_length() {
                    Err(
                        Error::InvalidSliceLength(
                            tlv_header.spec_get_length() as usize,
                            b.len() as usize,
                            "TlvMatch",
                        ),
                    )
                } else {
                    match Self::spec_payload(field, b) {
                        Err(e) => Err(e),
                        Ok(payload) => Ok(TlvMatch { tlv_header, payload }),
                    }
                },
            },
            Some(_) => Err(Error::UnsupportedType(class as u64, "OxmClass")),
        }
    }

    /// Decodes the value of a TLV whose header word was read already.
    pub fn try_from(tlv_header: OxmTlvHeader, match_slice: &[u8]) -> (res: Result<TlvMatch, Error>)
        ensures
            res == Self::spec_try_from(tlv_header, match_slice@),
    {
        let class: u32 = tlv_header.get_oxm_class();
        match OxmClass::from_u32(class) {
            None => {
                return Err(Error::UnknownEnum(class as u64, "OxmClass"));
            },
            Some(OxmClass::XmcOpenFlowBasic) => {},
            Some(_) => {
                return Err(Error::UnsupportedType(class as u64, "OxmClass"));
            },
        }
        let match_fields = match OfbMatchFields::decode(tlv_header.get_oxm_field()) {
            Ok(f) => f,
            Err(e) => return Err(e),
        };
        let length: u32 = tlv_header.get_length();
        if match_slice.len() != length as usize {
            return Err(Error::InvalidSliceLength(length as usize, match_slice.len(), "TlvMatch"));
        }
        match Self::decode_payload(match_fields, match_slice) {
            Ok(payload) => Ok(TlvMatch { tlv_header, payload }),
            Err(e) => Err(e),
        }
    }

    /// The TLV of a value, with the header word of its field in the OpenFlow
    /// basic class.
    pub fn new(payload: MatchPayload) -> (res: TlvMatch)
        ensures
            res.payload == payload,
            res.tlv_header.spec_get_oxm_class() == 0x8000,
            res.tlv_header.spec_get_oxm_field() == payload.spec_field().spec_to_u32(),
            res.tlv_header.spec_get_hasmask() == 0,
            res.tlv_header.spec_get_length() == payload.wire().len(),
            payload.wf() ==> res.wf(),
    {
        let tlv_header = OxmTlvHeader::basic(payload.field(), payload.wire_len());
        proof {
            payload.spec_field().lemma_wire_value();
        }
        TlvMatch { tlv_header, payload }
    }

    /// The header word names the OpenFlow basic class, the field of the value
    /// and the length of the value, and the value is well-formed.
    pub open spec fn wf(self) -> bool {
        &&& self.tlv_header.spec_get_oxm_class() == 0x8000
        &&& OfbMatchFields::spec_from_u32(self.tlv_header.spec_get_oxm_field()) == Some(
            self.payload.spec_field(),
        )
        &&& self.tlv_header.spec_get_length() == self.payload.wire().len()
        &&& self.payload.wf()
    }

    /// The TLV on the wire: the header word, then the value.
    pub open spec fn wire(self) -> Seq<u8> {
        spec_u32_bytes(self.tlv_header.0) + self.payload.wire()
    }

    /// Appends the wire form to `out`.
    pub fn encode(&self, out: &mut Vec<u8>)
        ensures
            final(out)@ == old(out)@ + self.wire(),
    {
        put_u32(out, self.tlv_header.0);
        self.payload.encode(out);
        assert(out@ =~= old(out)@ + self.wire());
    }

    /// The wire form as a vector of its own.
    pub fn into_bytes(&self) -> (res: Vec<u8>)
        ensures
            res@ == self.wire(),
    {
        let mut out: Vec<u8> = Vec::new();
        self.encode(&mut out);
        out
    }

    /// How long the TLV that starts at `pos` says it is, header included; an
    /// error where fewer than four bytes are left to hold the header word.
    pub open spec fn spec_read_len(b: Seq<u8>, pos: int) -> Result<usize, Error> {
        if pos + 4 > b.len() {
            Err(Error::CouldNotReadLength(0, "TlvMatch"))
        } else {
            Ok((4 + OxmTlvHeader(spec_u32_at(b, pos)).spec_get_length()) as usize)
        }
    }

    /// Reads the length of the TLV that starts at `pos`, header included,
    /// without consuming anything.
    pub fn read_len(bytes: &[u8], pos: usize) -> (res: Result<usize, Error>)
        ensures
            res == Self::spec_read_len(bytes@, pos as int),
    {
        if bytes.len() < 4 || pos > bytes.len() - 4 {
            return Err(Error::CouldNotReadLength(0, "TlvMatch"));
        }
        let h = OxmTlvHeader(get_u32(bytes, pos));
        Ok(4 + h.get_length() as usize)
    }

    /// What a whole TLV, header word and value, decodes to.
    pub open spec fn spec_from_block(b: Seq<u8>) -> Result<TlvMatch, Error> {
        if b.len() < 4 {
            Err(Error::InvalidSliceLength(4, b.len() as usize, "TlvMatch"))
        } else {
            Self::spec_try_from(OxmTlvHeader(spec_u32_at(b, 0)), b.subrange(4, b.len() as int))
        }
    }

    /// Decodes a whole TLV, header word and value.
    pub fn from_block(bytes: &[u8]) -> (res: Result<TlvMatch, Error>)
        ensures
            res == Self::spec_from_block(bytes@),
    {
        if bytes.len() < 4 {
            return Err(Error::InvalidSliceLength(4, bytes.len(), "TlvMatch"));
        }
        let h = OxmTlvHeader(get_u32(bytes, 0));
        Self::try_from(h, slice_subrange(bytes, 4, bytes.len()))
    }

    /// A well-formed TLV is what its header word and the bytes of its value
    /// decode to, and its wire form is four bytes longer than the value.
    pub proof fn lemma_roundtrip(self)
        requires
            self.wf(),
        ensures
            Self::spec_try_from(self.tlv_header, self.payload.wire()) == Ok::<TlvMatch, Error>(self),
            Self::spec_from_block(self.wire()) == Ok::<TlvMatch, Error>(self),
            self.wire().len() == 4 + self.tlv_header.spec_get_length(),
            Self::spec_read_len(self.wire(), 0) == Ok::<usize, Error>(self.wire().len() as usize),
    {
        self.payload.lemma_roundtrip();
        let raw: u32 = self.tlv_header.0;
        assert(raw & 0xff <= 0xff) by (bit_vector);
        lemma_u32_at_bytes(self.wire(), 0, raw);
        assert(self.wire().subrange(4, self.wire().len() as int) =~= self.payload.wire());
    }

    /// What decodes as the value of a field holds what the wire format can carry,
    /// belongs to that field, and is as long on the wire as the slice.
    pub proof fn lemma_payload_decoded(field: OfbMatchFields, b: Seq<u8>)
        requires
            Self::spec_payload(field, b) is Ok,
        ensures
            Self::spec_payload(field, b)->Ok_0.wf(),
            Self::spec_payload(field, b)->Ok_0.wire().len() == b.len(),
            Self::spec_payload(field, b)->Ok_0.spec_field() == field,
    {
        match field {
            OfbMatchFields::InPort => PayloadInPort::lemma_decoded(b),
            OfbMatchFields::InPhyPort => PayloadInPhyPort::lemma_decoded(b),
            OfbMatchFields::Metadata => PayloadMetadata::lemma_decoded(b),
            OfbMatchFields::EthDst => PayloadEthDst::lemma_decoded(b),
            OfbMatchFields::EthSrc => PayloadEthSrc::lemma_decoded(b),
            OfbMatchFields::EthType => PayloadEthType::lemma_decoded(b),
            OfbMatchFields::VlanVid => PayloadVlanVId::lemma_decoded(b),
            OfbMatchFields::VlanPcp => PayloadVlanPcp::lemma_decoded(b),
            OfbMatchFields::IpDscp => PayloadIpDscp::lemma_decoded(b),
            OfbMatchFields::IpEcn => PayloadIpEcn::lemma_decoded(b),
            OfbMatchFields::IpProto => PayloadIpProto::lemma_decoded(b),
            OfbMatchFields::IPv4Src => PayloadIPv4Src::lemma_decoded(b),
            OfbMatchFields::IPv4Dst => PayloadIPv4Dst::lemma_decoded(b),
            OfbMatchFields::TcpSrc => PayloadTcpSrc::lemma_decoded(b),
            OfbMatchFields::TcpDst => PayloadTcpDst::lemma_decoded(b),
            OfbMatchFields::UdpSrc => PayloadUdpSrc::lemma_decoded(b),
            OfbMatchFields::UdpDst => PayloadUdpDst::lemma_decoded(b),
            OfbMatchFields::SctpSrc => PayloadSctpSrc::lemma_decoded(b),
            OfbMatchFields::SctpDst => PayloadSctpDst::lemma_decoded(b),
            OfbMatchFields::IcmpV4TYype => PayloadIcmpV4Type::lemma_decoded(b),
            OfbMatchFields::IcmpV4Code => PayloadIcmpV4Code::lemma_decoded(b),
            OfbMatchFields::ArpOp => PayloadArpOp::lemma_decoded(b),
            OfbMatchFields::ArpSpa => PayloadArpSpa::lemma_decoded(b),
            OfbMatchFields::ArpTpa => PayloadArpTpa::lemma_decoded(b),
            OfbMatchFields::ArpSha => PayloadArpSha::lemma_decoded(b),
            OfbMatchFields::ArpTha => PayloadArpTha::lemma_decoded(b),
            OfbMatchFields::IPv6Src => PayloadIPv6Src::lemma_decoded(b),
            OfbMatchFields::IPv6Dst => PayloadIPv6Dst::lemma_decoded(b),
            OfbMatchFields::IPv6FLabel => PayloadIPv6FLabel::lemma_decoded(b),
            OfbMatchFields::IcmpV6Type => PayloadIcmpV6Type::lemma_decoded(b),
            OfbMatchFields::IcmpV6Code => PayloadIcmpV6Code::lemma_decoded(b),
            OfbMatchFields::IPv6NdTarget => PayloadIPv6NdTarget::lemma_decoded(b),
            OfbMatchFields::IPv6NdSll => PayloadIPv6NdSll::lemma_decoded(b),
            OfbMatchFields::IPv6NdTll => PayloadIPv6NdTll::lemma_decoded(b),
            OfbMatchFields::MplsLabel => PayloadMplsLabel::lemma_decoded(b),
            OfbMatchFields::MplsTc => PayloadMplsTc::lemma_decoded(b),
            OfbMatchFields::MplsBos => PayloadMplsBos::lemma_decoded(b),
            OfbMatchFields::PbbISid => PayloadPbbISid::lemma_decoded(b),
            OfbMatchFields::TunnelId => PayloadTunnelId::lemma_decoded(b),
            OfbMatchFields::IPv6ExtHdr => PayloadIPv6ExtHdr::lemma_decoded(b),
        }
    }

    /// Encoding what decodes as the value of a field gives the slice back, byte
    /// for byte.
    pub proof fn lemma_payload_exact(field: OfbMatchFields, b: Seq<u8>)
        requires
            Self::spec_payload(field, b) is Ok,
        ensures
            Self::spec_payload(field, b)->Ok_0.wire() == b,
    {
        match field {
            OfbMatchFields::InPort => PayloadInPort::lemma_exact(b),
            OfbMatchFields::InPhyPort => PayloadInPhyPort::lemma_exact(b),
            OfbMatchFields::Metadata => PayloadMetadata::lemma_exact(b),
            OfbMatchFields::EthDst => PayloadEthDst::lemma_exact(b),
            OfbMatchFields::EthSrc => PayloadEthSrc::lemma_exact(b),
            OfbMatchFields::EthType => PayloadEthType::lemma_exact(b),
            OfbMatchFields::VlanVid => PayloadVlanVId::lemma_exact(b),
            OfbMatchFields::VlanPcp => PayloadVlanPcp::lemma_exact(b),
            OfbMatchFields::IpDscp => PayloadIpDscp::lemma_exact(b),
            OfbMatchFields::IpEcn => PayloadIpEcn::lemma_exact(b),
            OfbMatchFields::IpProto => PayloadIpProto::lemma_exact(b),
            OfbMatchFields::IPv4Src => PayloadIPv4Src::lemma_exact(b),
            OfbMatchFields::IPv4Dst => PayloadIPv4Dst::lemma_exact(b),
            OfbMatchFields::TcpSrc => PayloadTcpSrc::lemma_exact(b),
            OfbMatchFields::TcpDst => PayloadTcpDst::lemma_exact(b),
            OfbMatchFields::UdpSrc => PayloadUdpSrc::lemma_exact(b),
            OfbMatchFields::UdpDst => PayloadUdpDst::lemma_exact(b),
            OfbMatchFields::SctpSrc => PayloadSctpSrc::lemma_exact(b),
            OfbMatchFields::SctpDst => PayloadSctpDst::lemma_exact(b),
            OfbMatchFields::IcmpV4TYype => PayloadIcmpV4Type::lemma_exact(b),
            OfbMatchFields::IcmpV4Code => PayloadIcmpV4Code::lemma_exact(b),
            OfbMatchFields::ArpOp => PayloadArpOp::lemma_exact(b),
            OfbMatchFields::ArpSpa => PayloadArpSpa::lemma_exact(b),
            OfbMatchFields::ArpTpa => PayloadArpTpa::lemma_exact(b),
            OfbMatchFields::ArpSha => PayloadArpSha::lemma_exact(b),
            OfbMatchFields::ArpTha => PayloadArpTha::lemma_exact(b),
            OfbMatchFields::IPv6Src => PayloadIPv6Src::lemma_exact(b),
            OfbMatchFields::IPv6Dst => PayloadIPv6Dst::lemma_exact(b),
            OfbMatchFields::IPv6FLabel => PayloadIPv6FLabel::lemma_exact(b),
            OfbMatchFields::IcmpV6Type => PayloadIcmpV6Type::lemma_exact(b),
            OfbMatchFields::IcmpV6Code => PayloadIcmpV6Code::lemma_exact(b),
            OfbMatchFields::IPv6NdTarget => PayloadIPv6NdTarget::lemma_exact(b),
            OfbMatchFields::IPv6NdSll => PayloadIPv6NdSll::lemma_exact(b),
            OfbMatchFields::IPv6NdTll => PayloadIPv6NdTll::lemma_exact(b),
            OfbMatchFields::MplsLabel => PayloadMplsLabel::lemma_exact(b),
            OfbMatchFields::MplsTc => PayloadMplsTc::lemma_exact(b),
            OfbMatchFields::MplsBos => PayloadMplsBos::lemma_exact(b),
            OfbMatchFields::PbbISid => PayloadPbbISid::lemma_exact(b),
            OfbMatchFields::TunnelId => PayloadTunnelId::lemma_exact(b),
            OfbMatchFields::IPv6ExtHdr => PayloadIPv6ExtHdr::lemma_exact(b),
        }
    }

    /// What a header word and the bytes of a value decode to is well-formed,
    /// keeps the header word, and is four bytes longer on the wire than the
    /// value.
    pub proof fn lemma_decoded(tlv_header: OxmTlvHeader, b: Seq<u8>)
        requires
            Self::spec_try_from(tlv_header, b) is Ok,
        ensures
            Self::spec_try_from(tlv_header, b)->Ok_0.wf(),
            Self::spec_try_from(tlv_header, b)->Ok_0.tlv_header == tlv_header,
            Self::spec_try_from(tlv_header, b)->Ok_0.wire().len() == 4 + b.len(),
    {
        let field = OfbMatchFields::spec_decode(tlv_header.spec_get_oxm_field())->Ok_0;
        Self::lemma_payload_decoded(field, b);
    }

    /// What a whole TLV decodes to is well-formed and as long on the wire as
    /// the slice.
    pub proof fn lemma_block_decoded(b: Seq<u8>)
        requires
            Self::spec_from_block(b) is Ok,
        ensures
            Self::spec_from_block(b)->Ok_0.wf(),
            Self::spec_from_block(b)->Ok_0.wire().len() == b.len(),
    {
        Self::lemma_decoded(OxmTlvHeader(spec_u32_at(b, 0)), b.subrange(4, b.len() as int));
    }

    /// Encoding what a header word and the bytes of a value decode to gives
    /// the header word, then the bytes of the value.
    pub proof fn lemma_exact(tlv_header: OxmTlvHeader, b: Seq<u8>)
        requires
            Self::spec_try_from(tlv_header, b) is Ok,
        ensures
            Self::spec_try_from(tlv_header, b)->Ok_0.wire() == spec_u32_bytes(tlv_header.0) + b,
    {
        let field = OfbMatchFields::spec_decode(tlv_header.spec_get_oxm_field())->Ok_0;
        Self::lemma_payload_exact(field, b);
    }

    /// Encoding what a whole TLV decodes to gives the TLV back, byte for
    /// byte: a TLV has no padding.
    pub proof fn lemma_block_exact(b: Seq<u8>)
        requires
            Self::spec_from_block(b) is Ok,
        ensures
            Self::spec_from_block(b)->Ok_0.wire() == b,
    {
        let rest = b.subrange(4, b.len() as int);
        Self::lemma_exact(OxmTlvHeader(spec_u32_at(b, 0)), rest);
        lemma_u32_bytes_at(b, 0);
        assert(b.subrange(0, 4) + rest =~= b);
    }
}

impl TlvMatch {
    /// What the bytes of `b` from `pos` on decode to as a run of TLVs, after
    /// those in `acc`: each block is as long as its own length field says, none may
    /// reach past the end of `b`, and the first failure is the result.
    pub open spec fn spec_parse_list(b: Seq<u8>, pos: int, acc: Seq<TlvMatch>) -> Result<
        Seq<TlvMatch>,
        Error,
    >
        decreases b.len() - pos,
    {
        if pos >= b.len() {
            Ok(acc)
        } else {
            match Self::spec_read_len(b, pos) {
                Err(e) => Err(e),
                Ok(n) => if n < 4 || pos + n > b.len() {
                    Err(Error::InvalidSliceLength(n, (b.len() - pos) as usize, "TlvMatch"))
                } else {
                    match Self::spec_from_block(b.subrange(pos, pos + n)) {
                        Err(e) => Err(e),
                        Ok(t) => Self::spec_parse_list(b, pos + n, acc.push(t)),
                    }
                },
            }
        }
    }

    /// Decodes a slice that holds a run of TLVs and nothing else.
    pub fn parse_list(bytes: &[u8]) -> (res: Result<Vec<TlvMatch>, Error>)
        ensures
            match res {
                Ok(v) => Self::spec_parse_list(bytes@, 0, Seq::empty()) == Ok::<Seq<TlvMatch>, Error>(
                    v@,
                ),
                Err(e) => Self::spec_parse_list(bytes@, 0, Seq::empty()) == Err::<Seq<TlvMatch>, Error>(
                    e,
                ),
            },
    {
        let mut items: Vec<TlvMatch> = Vec::new();
        let mut pos: usize = 0;
        assert(items@ =~= Seq::<TlvMatch>::empty());
        while pos < bytes.len()
            invariant
                pos <= bytes@.len(),
                Self::spec_parse_list(bytes@, pos as int, items@)
                    == Self::spec_parse_list(bytes@, 0, Seq::empty()),
            decreases bytes@.len() - pos,
        {
            let n: usize = match Self::read_len(bytes, pos) {
                Ok(n) => n,
                Err(e) => return Err(e),
            };
            if n < 4 || n > bytes.len() - pos {
                return Err(Error::InvalidSliceLength(n, bytes.len() - pos, "TlvMatch"));
            }
            let item = match Self::from_block(slice_subrange(bytes, pos, pos + n)) {
                Ok(t) => t,
                Err(e) => return Err(e),
            };
            proof {
                assert(items@.push(item) =~= items@.push(item));
            }
            items.push(item);
            pos = pos + n;
        }
        Ok(items)
    }

    /// The wire forms of the TLVs of `s`, one after the other.
    pub open spec fn spec_wire_list(s: Seq<TlvMatch>) -> Seq<u8>
        decreases s.len(),
    {
        if s.len() == 0 {
            Seq::empty()
        } else {
            Self::spec_wire_list(s.drop_last()) + s.last().wire()
        }
    }

    /// Appends the wire forms of `items`, in order.
    pub fn encode_list(items: &Vec<TlvMatch>, out: &mut Vec<u8>)
        ensures
            final(out)@ == old(out)@ + Self::spec_wire_list(items@),
    {
        let ghost all = items@;
        let mut i: usize = 0;
        assert(old(out)@ + Self::spec_wire_list(all.take(0)) =~= old(out)@);
        while i < items.len()
            invariant
                i <= items@.len(),
                all == items@,
                out@ == old(out)@ + Self::spec_wire_list(all.take(i as int)),
            decreases items@.len() - i,
        {
            let ghost before = out@;
            items[i].encode(out);
            proof {
                let next = all.take(i + 1);
                assert(next.drop_last() =~= all.take(i as int));
                assert(next.last() == items@[i as int]);
                assert(out@ =~= old(out)@ + Self::spec_wire_list(next));
            }
            i = i + 1;
        }
        assert(all.take(items@.len() as int) =~= all);
    }

    /// The wire forms of a run of TLVs are that of the first, then those of
    /// the others.
    pub proof fn lemma_wire_list_front(s: Seq<TlvMatch>)
        requires
            s.len() > 0,
        ensures
            Self::spec_wire_list(s) == s[0].wire() + Self::spec_wire_list(s.drop_first()),
        decreases s.len(),
    {
        if s.len() == 1 {
            assert(s.drop_last() =~= Seq::<TlvMatch>::empty());
            assert(s.drop_first() =~= Seq::<TlvMatch>::empty());
            assert(Self::spec_wire_list(s) =~= s[0].wire() + Self::spec_wire_list(s.drop_first()));
        } else {
            Self::lemma_wire_list_front(s.drop_last());
            assert(s.drop_first().drop_last() =~= s.drop_last().drop_first());
            assert(s.drop_last()[0] == s[0]);
            assert(s.drop_first().last() == s.last());
            assert(Self::spec_wire_list(s) =~= s[0].wire() + Self::spec_wire_list(s.drop_first()));
        }
    }

    /// The length that is read at `pos` of `b` is the one that is read from the
    /// bytes that start there.
    pub proof fn lemma_read_len_at(b: Seq<u8>, pos: int, w: Seq<u8>)
        requires
            0 <= pos,
            pos + w.len() <= b.len(),
            w.len() >= 4,
            b.subrange(pos, pos + w.len()) == w,
        ensures
            Self::spec_read_len(b, pos) == Self::spec_read_len(w, 0),
    {
        let sub = b.subrange(pos, pos + w.len());
        assert(sub[0] == b[pos + 0]);
        assert(sub[1] == b[pos + 1]);
        assert(sub[2] == b[pos + 2]);
        assert(sub[3] == b[pos + 3]);
    }

    /// Where the bytes of `b` from `pos` on are the wire forms of well-formed
    /// TLVs, they decode to these, in order, after what was decoded before.
    #[verifier::rlimit(100)]
    pub proof fn lemma_list_roundtrip(b: Seq<u8>, pos: int, acc: Seq<TlvMatch>, s: Seq<TlvMatch>)
        requires
            0 <= pos <= b.len(),
            b.subrange(pos, b.len() as int) == Self::spec_wire_list(s),
            forall|i: int| 0 <= i < s.len() ==> (#[trigger] s[i]).wf(),
        ensures
            Self::spec_parse_list(b, pos, acc) == Ok::<Seq<TlvMatch>, Error>(acc + s),
        decreases s.len(),
    {
        if s.len() == 0 {
            assert(acc + s =~= acc);
            assert(b.subrange(pos, b.len() as int).len() == 0);
        } else {
            let first = s[0];
            let rest = s.drop_first();
            let w0 = first.wire();
            let n = w0.len() as int;
            let tail = b.subrange(pos, b.len() as int);
            assert(tail == w0 + Self::spec_wire_list(rest)) by {
                Self::lemma_wire_list_front(s);
            }
            assert(tail.len() == b.len() - pos);
            assert(tail.len() == n + Self::spec_wire_list(rest).len());
            assert(b.subrange(pos, pos + n) == w0) by {
                assert(b.subrange(pos, pos + n) =~= tail.subrange(0, n));
                assert(tail.subrange(0, n) =~= w0);
            }
            assert(b.subrange(pos + n, b.len() as int) == Self::spec_wire_list(rest)) by {
                assert(b.subrange(pos + n, b.len() as int) =~= tail.subrange(n, tail.len() as int));
                assert(tail.subrange(n, tail.len() as int) =~= Self::spec_wire_list(rest));
            }
            assert(4 <= n <= 0x1_0007 && Self::spec_read_len(w0, 0) == Ok::<usize, Error>(
                n as usize,
            ) && Self::spec_from_block(w0) == Ok::<TlvMatch, Error>(first)) by {
                first.lemma_roundtrip();
            }
            assert(Self::spec_read_len(b, pos) == Ok::<usize, Error>(n as usize)) by {
                Self::lemma_read_len_at(b, pos, w0);
            }
            assert forall|i: int| 0 <= i < rest.len() implies (#[trigger] rest[i]).wf() by {
                assert(rest[i] == s[i + 1]);
            }
            assert(Self::spec_parse_list(b, pos + n, acc.push(first)) == Ok::<Seq<TlvMatch>, Error>(
                acc + s,
            )) by {
                Self::lemma_list_roundtrip(b, pos + n, acc.push(first), rest);
                assert(acc.push(first) + rest =~= acc + s);
            }
        }
    }
}

impl TlvMatch {
    /// The wire forms of a run of TLVs followed by one more are those of the
    /// run, then that of the one.
    pub proof fn lemma_wire_list_len(s: Seq<TlvMatch>, t: TlvMatch)
        ensures
            Self::spec_wire_list(s.push(t)).len() == Self::spec_wire_list(s).len() + t.wire().len(),
    {
        assert(s.push(t).drop_last() =~= s);
        assert(s.push(t).last() == t);
    }

    /// What a run of TLVs decodes to, after those in `acc`: the TLVs of `acc`,
    /// then TLVs that hold what the wire format can carry. Together the new ones
    /// are as long on the wire as the bytes that were decoded.
    #[verifier::rlimit(100)]
    pub proof fn lemma_list_decoded(b: Seq<u8>, pos: int, acc: Seq<TlvMatch>, n0: int)
        requires
            0 <= pos <= b.len(),
            0 <= n0 <= acc.len(),
            forall|i: int| n0 <= i < acc.len() ==> (#[trigger] acc[i]).wf(),
            Self::spec_parse_list(b, pos, acc) is Ok,
        ensures
            ({
                let r = Self::spec_parse_list(b, pos, acc)->Ok_0;
                &&& r.len() >= acc.len()
                &&& r.subrange(0, acc.len() as int) == acc
                &&& forall|i: int| n0 <= i < r.len() ==> (#[trigger] r[i]).wf()
                &&& Self::spec_wire_list(r).len() == Self::spec_wire_list(acc).len() + b.len() - pos
            }),
        decreases b.len() - pos,
    {
        if pos >= b.len() {
            assert(acc.subrange(0, acc.len() as int) =~= acc);
        } else {
            let n = Self::spec_read_len(b, pos)->Ok_0 as int;
            let block = b.subrange(pos, pos + n);
            let t = Self::spec_from_block(block)->Ok_0;
            assert(t.wf() && t.wire().len() == n) by {
                Self::lemma_block_decoded(block);
            }
            let acc2 = acc.push(t);
            assert forall|i: int| n0 <= i < acc2.len() implies (#[trigger] acc2[i]).wf() by {
                if i < acc.len() {
                    assert(acc2[i] == acc[i]);
                }
            }
            Self::lemma_list_decoded(b, pos + n, acc2, n0);
            Self::lemma_wire_list_len(acc, t);
            let r = Self::spec_parse_list(b, pos, acc)->Ok_0;
            assert(r.subrange(0, acc.len() as int) =~= acc) by {
                assert(r.subrange(0, acc2.len() as int) == acc2);
                assert forall|i: int| 0 <= i < acc.len() implies r[i] == acc[i] by {
                    assert(r.subrange(0, acc2.len() as int)[i] == r[i]);
                    assert(acc2[i] == acc[i]);
                }
            }
        }
    }
}

/// A flow match: its type, its declared length and its TLVs.
///
/// On the wire a match opens with a head of eight bytes: type, length, and
/// four bytes that are zero on write and ignored on read. The declared length
/// counts the head and the TLVs, not the zero bytes that pad the block to a
/// multiple of eight. The match without TLVs has the declared length eight.
#[derive(Debug, PartialEq, Eq, Clone)]
pub struct Match {
    /// The type of the match.
    pub ttype: MatchType,
    /// The declared length, without the final padding.
    pub length: u16,
    /// The TLVs, in wire order.
    pub matches: Vec<TlvMatch>,
}

/// The mathematical value of `Match`.
pub struct MatchView {
    /// The type of the match.
    pub ttype: MatchType,
    /// The declared length, without the final padding.
    pub length: u16,
    /// The TLVs, in wire order.
    pub matches: Seq<TlvMatch>,
}

impl View for Match {
    type V = MatchView;

    open spec fn view(&self) -> MatchView {
        MatchView { ttype: self.ttype, length: self.length, matches: self.matches@ }
    }
}

impl MatchView {
    /// The match is of the standard type, every TLV is well-formed, and the
    /// declared length is eight more than the bytes of the TLVs.
    pub open spec fn wf(self) -> bool {
        &&& self.ttype == MatchType::Standard
        &&& forall|i: int| 0 <= i < self.matches.len() ==> (#[trigger] self.matches[i]).wf()
        &&& self.length == 8 + TlvMatch::spec_wire_list(self.matches).len()
    }

    /// The block on the wire: type, length, four zero bytes, the TLVs, and
    /// zero bytes up to the next multiple of eight.
    pub open spec fn wire(self) -> Seq<u8> {
        spec_u16_bytes(self.ttype.spec_to_u16()) + spec_u16_bytes(self.length) + zeros(4)
            + TlvMatch::spec_wire_list(self.matches) + zeros(spec_pad_len(self.length as int))
    }
}

impl Match {
    /// How many bytes the match block that starts at `pos` occupies, padding
    /// included; an error where fewer than four bytes are left to hold its
    /// length field.
    pub open spec fn spec_read_len(b: Seq<u8>, pos: int) -> Result<usize, Error> {
        if pos + 4 > b.len() {
            Err(Error::CouldNotReadLength(2, "Match"))
        } else {
            let len = spec_u16_at(b, pos + 2) as int;
            Ok((len + spec_pad_len(len)) as usize)
        }
    }

    /// Reads the size of the match block that starts at `pos`, padding
    /// included, without consuming anything.
    pub fn read_len(bytes: &[u8], pos: usize) -> (res: Result<usize, Error>)
        ensures
            res == Self::spec_read_len(bytes@, pos as int),
    {
        if bytes.len() < 4 || pos > bytes.len() - 4 {
            return Err(Error::CouldNotReadLength(2, "Match"));
        }
        let len: usize = get_u16(bytes, pos + 2) as usize;
        Ok(len + pad_len(len))
    }

    /// What a match block decodes to. The block must hold the eight bytes of
    /// the head; the type must be known and standard; the declared length must
    /// cover the head, and the block must be exactly as long as the declared
    /// length and its padding; and the TLVs must fill what the declared length
    /// leaves after the head. A declared length of eight is the match without
    /// TLVs.
    pub open spec fn spec_try_from(b: Seq<u8>) -> Result<MatchView, Error> {
        if b.len() < 8 {
            Err(Error::InvalidSliceLength(8, b.len() as usize, "Match"))
        } else {
            match MatchType::spec_decode(spec_u16_at(b, 0)) {
                Err(e) => Err(e),
                Ok(MatchType::OXM) => Err(Error::UnsupportedType(1, "MatchType")),
                Ok(MatchType::Standard) => {
                    let length = spec_u16_at(b, 2);
                    let padded = length + spec_pad_len(length as int);
                    if length < 8 || b.len() != padded {
                        Err(Error::InvalidSliceLength(padded as usize, b.len() as usize, "Match"))
                    } else {
                        match TlvMatch::spec_parse_list(b.subrange(8, length as int), 0, Seq::empty()) {
                            Err(e) => Err(e),
                            Ok(matches) => Ok(
                                MatchView { ttype: MatchType::Standard, length, matches },
                            ),
                        }
                    }
                },
            }
        }
    }

    /// Decodes a match block, padding included.
    pub fn try_from(bytes: &[u8]) -> (res: Result<Match, Error>)
        ensures
            match res {
                Ok(m) => Self::spec_try_from(bytes@) == Ok::<MatchView, Error>(m@),
                Err(e) => Self::spec_try_from(bytes@) == Err::<MatchView, Error>(e),
            },
    {
        if bytes.len() < MATCH_LENGTH {
            return Err(Error::InvalidSliceLength(MATCH_LENGTH, bytes.len(), "Match"));
        }
        let ttype = match MatchType::decode(get_u16(bytes, 0)) {
            Ok(t) => t,
            Err(e) => return Err(e),
        };
        match ttype {
            MatchType::OXM => {
                return Err(Error::UnsupportedType(1, "MatchType"));
            },
            MatchType::Standard => {},
        }
        let length: u16 = get_u16(bytes, 2);
        let padded: usize = length as usize + pad_len(length as usize);
        if length < 8 || bytes.len() != padded {
            return Err(Error::InvalidSliceLength(padded, bytes.len(), "Match"));
        }
        let matches = match TlvMatch::parse_list(slice_subrange(bytes, MATCH_LENGTH, length as usize)) {
            Ok(m) => m,
            Err(e) => return Err(e),
        };
        Ok(Match { ttype, length, matches })
    }

    /// The match of the given TLVs, or `None` where they are too long for the
    /// length field.
    pub fn new(matches: Vec<TlvMatch>) -> (res: Option<Match>)
        ensures
            res matches Some(m) ==> m.matches == matches && m.ttype == MatchType::Standard
                && m.length == 8 + TlvMatch::spec_wire_list(matches@).len(),
            res is None <==> 8 + TlvMatch::spec_wire_list(matches@).len() > 0xffff,
    {
        let mut body: Vec<u8> = Vec::new();
        TlvMatch::encode_list(&matches, &mut body);
        if body.len() > 0xffff - MATCH_LENGTH {
            return None;
        }
        let length: u16 = (body.len() + MATCH_LENGTH) as u16;
        Some(Match { ttype: MatchType::Standard, length, matches })
    }

    /// Appends the wire form to `out`: the block and its padding.
    pub fn encode(&self, out: &mut Vec<u8>)
        ensures
            final(out)@ == old(out)@ + self@.wire(),
    {
        put_u16(out, self.ttype.to_u16());
        put_u16(out, self.length);
        put_zeros(out, 4);
        TlvMatch::encode_list(&self.matches, out);
        put_zeros(out, pad_len(self.length as usize));
        assert(out@ =~= old(out)@ + self@.wire());
    }

    /// The wire form as a vector of its own.
    pub fn into_bytes(&self) -> (res: Vec<u8>)
        ensures
            res@ == self@.wire(),
    {
        let mut out: Vec<u8> = Vec::new();
        self.encode(&mut out);
        out
    }

    /// The size that is read at `pos` of `b` is the one that is read from the
    /// bytes that start there.
    pub proof fn lemma_read_len_at(b: Seq<u8>, pos: int, w: Seq<u8>)
        requires
            0 <= pos,
            pos + w.len() <= b.len(),
            w.len() >= 4,
            b.subrange(pos, pos + w.len()) == w,
        ensures
            Self::spec_read_len(b, pos) == Self::spec_read_len(w, 0),
    {
        let sub = b.subrange(pos, pos + w.len());
        assert(sub[2] == b[pos + 2]);
        assert(sub[3] == b[pos + 3]);
    }

    /// The wire form of a well-formed match is a multiple of eight bytes long,
    /// announces its own size, and decodes to the match.
    #[verifier::rlimit(50)]
    pub proof fn lemma_roundtrip(v: MatchView)
        requires
            v.wf(),
        ensures
            v.wire().len() == v.length + spec_pad_len(v.length as int),
            v.wire().len() % 8 == 0,
            8 <= v.wire().len() <= 0x1_0000,
            Self::spec_read_len(v.wire(), 0) == Ok::<usize, Error>(v.wire().len() as usize),
            Self::spec_try_from(v.wire()) == Ok::<MatchView, Error>(v),
    {
        let w = v.wire();
        let body = TlvMatch::spec_wire_list(v.matches);
        let pad = spec_pad_len(v.length as int);
        assert(0 <= pad < 8 && (v.length + pad) % 8 == 0);
        assert(w.len() == 8 + body.len() + pad);
        v.ttype.lemma_wire_value();
        assert(spec_u16_at(w, 0) == v.ttype.spec_to_u16()) by {
            lemma_u16_at_bytes(w, 0, v.ttype.spec_to_u16());
        }
        assert(spec_u16_at(w, 2) == v.length) by {
            lemma_u16_at_bytes(w, 2, v.length);
        }
        let sub = w.subrange(8, v.length as int);
        assert(sub =~= body);
        assert(sub.subrange(0, sub.len() as int) =~= sub);
        TlvMatch::lemma_list_roundtrip(sub, 0, Seq::empty(), v.matches);
        assert(Seq::<TlvMatch>::empty() + v.matches =~= v.matches);
    }

    /// A standard match of declared length eight is the match without TLVs,
    /// whatever its four bytes of padding hold.
    pub proof fn lemma_empty_match(b: Seq<u8>)
        requires
            b.len() == 8,
            spec_u16_at(b, 0) == 0,
            spec_u16_at(b, 2) == 8,
        ensures
            Self::spec_try_from(b) == Ok::<MatchView, Error>(
                MatchView { ttype: MatchType::Standard, length: 8, matches: Seq::empty() },
            ),
    {
        assert(spec_pad_len(8) == 0);
        assert(b.subrange(8, 8).len() == 0);
    }

    /// What a block decodes to is a well-formed match that is as long on the
    /// wire as the block: a multiple of eight bytes.
    pub proof fn lemma_decoded(b: Seq<u8>)
        requires
            Self::spec_try_from(b) is Ok,
        ensures
            Self::spec_try_from(b)->Ok_0.wf(),
            Self::spec_try_from(b)->Ok_0.wire().len() == b.len(),
            b.len() % 8 == 0,
    {
        let length = spec_u16_at(b, 2);
        let sub = b.subrange(8, length as int);
        TlvMatch::lemma_list_decoded(sub, 0, Seq::empty(), 0);
        let pad = spec_pad_len(length as int);
        assert(0 <= pad < 8 && (length + pad) % 8 == 0);
    }

    /// Encoding what a block decodes to gives as many bytes as the block has,
    /// and these decode to the same match: only padding can differ.
    pub proof fn lemma_reencode(b: Seq<u8>)
        requires
            Self::spec_try_from(b) is Ok,
        ensures
            Self::spec_try_from(b)->Ok_0.wire().len() == b.len(),
            Self::spec_try_from(Self::spec_try_from(b)->Ok_0.wire()) == Self::spec_try_from(b),
    {
        Self::lemma_decoded(b);
        Self::lemma_roundtrip(Self::spec_try_from(b)->Ok_0);
    }
}

} // verus!
