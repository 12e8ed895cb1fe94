//! Ports: their numbers, flags and description.

use crate::err::Error;
use crate::ds::hw_addr::spec_eth;
use crate::wire::{
    get_u32, lemma_u32_at_bytes, put_bytes, put_u32, put_zeros, spec_u32_at, spec_u32_bytes,
    zeros,
};
use vstd::array::array_as_slice;
use vstd::prelude::*;

verus! {

/// Length of a port description on the wire.
pub const PORT_LENGTH: usize = 64;

/// Reserved port numbers. Ports are numbered starting from 1.
#[derive(Debug, PartialEq, Eq, Clone, Copy)]
pub enum PortNo {
    /// Maximum number of physical and logical switch ports.
    Max,
    /// Send the packet out the input port.
    InPort,
    /// Submit the packet to the first flow table; only for packet-out messages.
    Table,
    /// Process with normal L2/L3 switching.
    Normal,
    /// All physical ports in the VLAN, except the input port and those blocked or down.
    Flood,
    /// All physical ports except the input port.
    All,
    /// Send to the controller.
    Controller,
    /// The local OpenFlow port.
    Local,
    /// Wildcard port, for flow mod (delete) and flow stats requests.
    Any,
}

impl PortNo {
    /// The variant whose wire value is `raw`, if there is one.
    pub open spec fn spec_from_u32(raw: u32) -> Option<PortNo> {
        match raw {
            0xffffff00 => Some(PortNo::Max),
            0xfffffff8 => Some(PortNo::InPort),
            0xfffffff9 => Some(PortNo::Table),
            0xfffffffa => Some(PortNo::Normal),
            0xfffffffb => Some(PortNo::Flood),
            0xfffffffc => Some(PortNo::All),
            0xfffffffd => Some(PortNo::Controller),
            0xfffffffe => Some(PortNo::Local),
            0xffffffff => Some(PortNo::Any),
            _ => None,
        }
    }

    /// The variant whose wire value is `raw`, if there is one.
    pub fn from_u32(raw: u32) -> (res: Option<PortNo>)
        ensures
            res == Self::spec_from_u32(raw),
    {
        match raw {
            0xffffff00 => Some(PortNo::Max),
            0xfffffff8 => Some(PortNo::InPort),
            0xfffffff9 => Some(PortNo::Table),
            0xfffffffa => Some(PortNo::Normal),
            0xfffffffb => Some(PortNo::Flood),
            0xfffffffc => Some(PortNo::All),
            0xfffffffd => Some(PortNo::Controller),
            0xfffffffe => Some(PortNo::Local),
            0xffffffff => Some(PortNo::Any),
            _ => None,
        }
    }

    /// The wire value of the variant.
    pub open spec fn spec_to_u32(self) -> u32 {
        match self {
            PortNo::Max => 0xffffff00,
            PortNo::InPort => 0xfffffff8,
            PortNo::Table => 0xfffffff9,
            PortNo::Normal => 0xfffffffa,
            PortNo::Flood => 0xfffffffb,
            PortNo::All => 0xfffffffc,
            PortNo::Controller => 0xfffffffd,
            PortNo::Local => 0xfffffffe,
            PortNo::Any => 0xffffffff,
        }
    }

    /// The wire value of the variant.
    pub fn to_u32(&self) -> (r: u32)
        ensures
            r == self.spec_to_u32(),
    {
        match self {
            PortNo::Max => 0xffffff00,
            PortNo::InPort => 0xfffffff8,
            PortNo::Table => 0xfffffff9,
            PortNo::Normal => 0xfffffffa,
            PortNo::Flood => 0xfffffffb,
            PortNo::All => 0xfffffffc,
            PortNo::Controller => 0xfffffffd,
            PortNo::Local => 0xfffffffe,
            PortNo::Any => 0xffffffff,
        }
    }

    /// What decoding `raw` gives: its variant, or `UnknownEnum` with the value.
    pub open spec fn spec_decode(raw: u32) -> Result<PortNo, Error> {
        match Self::spec_from_u32(raw) {
            Some(v) => Ok(v),
            None => Err(Error::UnknownEnum(raw as u64, "PortNo")),
        }
    }

    /// Decodes a wire value; an unknown one is an `UnknownEnum` error.
    pub fn decode(raw: u32) -> (res: Result<PortNo, Error>)
        ensures
            res == Self::spec_decode(raw),
    {
        match Self::from_u32(raw) {
            Some(v) => Ok(v),
            None => Err(Error::UnknownEnum(raw as u64, "PortNo")),
        }
    }

    /// Every variant is what its own wire value decodes to, and only that
    /// value decodes to it.
    pub proof fn lemma_wire_value(self)
        ensures
            Self::spec_decode(self.spec_to_u32()) == Ok::<PortNo, Error>(self),
            forall|raw: u32| Self::spec_from_u32(raw) == Some(self) ==> raw == self.spec_to_u32(),
    {
    }
}

impl PortNo {
    /// The reserved port as a port number.
    pub fn into_port_number(self) -> (res: PortNumber)
        ensures
            res == PortNumber::Reserved(self),
    {
        PortNumber::Reserved(self)
    }
}

/// A port number: one of the reserved ports, or any other number but zero.
#[derive(Debug, PartialEq, Eq, Clone, Copy)]
pub enum PortNumber {
    /// One of the well-known reserved ports.
    Reserved(PortNo),
    /// An ordinary port; its number is neither zero nor reserved.
    NormalPort(u32),
}

impl PortNumber {
    /// A normal port's number is neither zero nor that of a reserved port.
    pub open spec fn wf(self) -> bool {
        match self {
            PortNumber::Reserved(_) => true,
            PortNumber::NormalPort(p) => p != 0 && PortNo::spec_from_u32(p) is None,
        }
    }

    /// What a raw number decodes to: zero is illegal, a reserved value is its
    /// reserved port, and every other value is a normal port.
    pub open spec fn spec_try_from(port_no: u32) -> Result<PortNumber, Error> {
        if port_no == 0 {
            Err(Error::IllegalValue(0, "PortNumber"))
        } else {
            match PortNo::spec_from_u32(port_no) {
                Some(port) => Ok(PortNumber::Reserved(port)),
                None => Ok(PortNumber::NormalPort(port_no)),
            }
        }
    }

    /// Decodes a raw port number.
    pub fn try_from(port_no: u32) -> (res: Result<PortNumber, Error>)
        ensures
            res == Self::spec_try_from(port_no),
            res matches Ok(p) ==> p.wf() && p.spec_to_u32() == port_no,
    {
        if port_no == 0 {
            return Err(Error::IllegalValue(0, "PortNumber"));
        }
        match PortNo::from_u32(port_no) {
            Some(port) => Ok(PortNumber::Reserved(port)),
            None => Ok(PortNumber::NormalPort(port_no)),
        }
    }

    /// The number on the wire.
    pub open spec fn spec_to_u32(self) -> u32 {
        match self {
            PortNumber::Reserved(port) => port.spec_to_u32(),
            PortNumber::NormalPort(port_no) => port_no,
        }
    }

    /// The number on the wire.
    pub fn to_u32(&self) -> (r: u32)
        ensures
            r == self.spec_to_u32(),
    {
        match self {
            PortNumber::Reserved(port) => port.to_u32(),
            PortNumber::NormalPort(port_no) => *port_no,
        }
    }

    /// A well-formed port number is what its wire value decodes to.
    pub proof fn lemma_wire_value(self)
        requires
            self.wf(),
        ensures
            Self::spec_try_from(self.spec_to_u32()) == Ok::<PortNumber, Error>(self),
    {
    }

    /// Every number that is neither zero nor reserved decodes to the normal
    /// port of that number, and zero is refused as an illegal value.
    pub proof fn lemma_normal_port(p: u32)
        ensures
            p != 0 && PortNo::spec_from_u32(p) is None ==> Self::spec_try_from(p) == Ok::<
                PortNumber,
                Error,
            >(PortNumber::NormalPort(p)),
            Self::spec_try_from(0) == Err::<PortNumber, Error>(
                Error::IllegalValue(0, "PortNumber"),
            ),
    {
    }
}

/// Port is administratively down.
pub const PORT_CONFIG_PORT_DOWN: u32 = 0x1;

/// Drop all packets received by the port.
pub const PORT_CONFIG_NO_RECV: u32 = 0x4;

/// Drop packets forwarded to the port.
pub const PORT_CONFIG_NO_FWD: u32 = 0x20;

/// Do not send packet-in messages for the port.
pub const PORT_CONFIG_NO_PACKET_IN: u32 = 0x40;

/// Every bit that `PortConfig` defines.
pub const PORT_CONFIG_ALL: u32 = 0x65;

/// Flags that describe and configure the behaviour of a physical port.
#[derive(Debug, PartialEq, Eq, Clone, Copy)]
pub struct PortConfig {
    /// The raw bits.
    pub bits: u32,
}

impl PortConfig {
    /// No bit is set outside the defined ones.
    pub open spec fn wf(self) -> bool {
        self.bits & !PORT_CONFIG_ALL == 0
    }

    /// The flag set with the bits of `raw`, if all of them are defined.
    pub open spec fn spec_from_bits(raw: u32) -> Option<PortConfig> {
        if raw & !PORT_CONFIG_ALL == 0 {
            Some(PortConfig { bits: raw })
        } else {
            None
        }
    }

    /// The flag set with the bits of `raw`, if all of them are defined.
    pub fn from_bits(raw: u32) -> (res: Option<PortConfig>)
        ensures
            res == Self::spec_from_bits(raw),
    {
        if raw & !PORT_CONFIG_ALL == 0 {
            Some(PortConfig { bits: raw })
        } else {
            None
        }
    }

    /// What decoding `raw` gives: the flag set, or `UnknownBits` with the value.
    pub open spec fn spec_decode(raw: u32) -> Result<PortConfig, Error> {
        match Self::spec_from_bits(raw) {
            Some(v) => Ok(v),
            None => Err(Error::UnknownBits(raw as u64, "PortConfig")),
        }
    }

    /// Decodes a raw word; bits outside the defined ones are an `UnknownBits` error.
    pub fn decode(raw: u32) -> (res: Result<PortConfig, Error>)
        ensures
            res == Self::spec_decode(raw),
    {
        match Self::from_bits(raw) {
            Some(v) => Ok(v),
            None => Err(Error::UnknownBits(raw as u64, "PortConfig")),
        }
    }

    /// The empty flag set.
    pub fn empty() -> (res: PortConfig)
        ensures
            res.bits == 0,
    {
        PortConfig { bits: 0 }
    }

    /// The raw bits.
    pub fn bits(&self) -> (r: u32)
        ensures
            r == self.bits,
    {
        self.bits
    }

    /// Whether every bit of `flag` is set.
    pub fn contains(&self, flag: u32) -> (r: bool)
        ensures
            r == (self.bits & flag == flag),
    {
        self.bits & flag == flag
    }
}

/// No physical link present.
pub const PORT_STATE_LINK_DOWN: u32 = 0x1;

/// Port is blocked.
pub const PORT_STATE_BLOCKED: u32 = 0x2;

/// Live for a fast failover group.
pub const PORT_STATE_LIVE: u32 = 0x4;

/// Every bit that `PortState` defines.
pub const PORT_STATE_ALL: u32 = 0x7;

/// Current state of a physical port; not configurable from the controller.
#[derive(Debug, PartialEq, Eq, Clone, Copy)]
pub struct PortState {
    /// The raw bits.
    pub bits: u32,
}

impl PortState {
    /// No bit is set outside the defined ones.
    pub open spec fn wf(self) -> bool {
        self.bits & !PORT_STATE_ALL == 0
    }

    /// The flag set with the bits of `raw`, if all of them are defined.
    pub open spec fn spec_from_bits(raw: u32) -> Option<PortState> {
        if raw & !PORT_STATE_ALL == 0 {
            Some(PortState { bits: raw })
        } else {
            None
        }
    }

    /// The flag set with the bits of `raw`, if all of them are defined.
    pub fn from_bits(raw: u32) -> (res: Option<PortState>)
        ensures
            res == Self::spec_from_bits(raw),
    {
        if raw & !PORT_STATE_ALL == 0 {
            Some(PortState { bits: raw })
        } else {
            None
        }
    }

    /// What decoding `raw` gives: the flag set, or `UnknownBits` with the value.
    pub open spec fn spec_decode(raw: u32) -> Result<PortState, Error> {
        match Self::spec_from_bits(raw) {
            Some(v) => Ok(v),
            None => Err(Error::UnknownBits(raw as u64, "PortState")),
        }
    }

    /// Decodes a raw word; bits outside the defined ones are an `UnknownBits` error.
    pub fn decode(raw: u32) -> (res: Result<PortState, Error>)
        ensures
            res == Self::spec_decode(raw),
    {
        match Self::from_bits(raw) {
            Some(v) => Ok(v),
            None => Err(Error::UnknownBits(raw as u64, "PortState")),
        }
    }

    /// The empty flag set.
    pub fn empty() -> (res: PortState)
        ensures
            res.bits == 0,
    {
        PortState { bits: 0 }
    }

    /// The raw bits.
    pub fn bits(&self) -> (r: u32)
        ensures
            r == self.bits,
    {
        self.bits
    }

    /// Whether every bit of `flag` is set.
    pub fn contains(&self, flag: u32) -> (r: bool)
        ensures
            r == (self.bits & flag == flag),
    {
        self.bits & flag == flag
    }
}

/// 10 Mb half-duplex rate support.
pub const PORT_FEATURES_MB10_HD: u32 = 0x1;

/// 10 Mb full-duplex rate support.
pub const PORT_FEATURES_MB10_FD: u32 = 0x2;

/// 100 Mb half-duplex rate support.
pub const PORT_FEATURES_MB100_HD: u32 = 0x4;

/// 100 Mb full-duplex rate support.
pub const PORT_FEATURES_MB100_FD: u32 = 0x8;

/// 1 Gb half-duplex rate support.
pub const PORT_FEATURES_GB4_HD: u32 = 0x10;

/// 1 Gb full-duplex rate support.
pub const PORT_FEATURES_GB4_FD: u32 = 0x20;

/// 10 Gb full-duplex rate support.
pub const PORT_FEATURES_GB10_FD: u32 = 0x40;

/// 40 Gb full-duplex rate support.
pub const PORT_FEATURES_GB40_FD: u32 = 0x80;

/// 100 Gb full-duplex rate support.
pub const PORT_FEATURES_GB100_FD: u32 = 0x100;

/// 1 Tb full-duplex rate support.
pub const PORT_FEATURES_TB1_FD: u32 = 0x200;

/// Other rate, not in the list.
pub const PORT_FEATURES_OTHER: u32 = 0x400;

/// Copper medium.
pub const PORT_FEATURES_COPPER: u32 = 0x800;

/// Fiber medium.
pub const PORT_FEATURES_FIBER: u32 = 0x1000;

/// Auto-negotiation.
pub const PORT_FEATURES_AUTONEG: u32 = 0x2000;

/// Pause.
pub const PORT_FEATURES_PAUSE: u32 = 0x4000;

/// Asymmetric pause.
pub const PORT_FEATURES_PAUSE_ASYM: u32 = 0x8000;

/// Every bit that `PortFeatures` defines.
pub const PORT_FEATURES_ALL: u32 = 0xffff;

/// Features of a port: rates, medium and negotiation.
#[derive(Debug, PartialEq, Eq, Clone, Copy)]
pub struct PortFeatures {
    /// The raw bits.
    pub bits: u32,
}

impl PortFeatures {
    /// No bit is set outside the defined ones.
    pub open spec fn wf(self) -> bool {
        self.bits & !PORT_FEATURES_ALL == 0
    }

    /// The flag set with the bits of `raw`, if all of them are defined.
    pub open spec fn spec_from_bits(raw: u32) -> Option<PortFeatures> {
        if raw & !PORT_FEATURES_ALL == 0 {
            Some(PortFeatures { bits: raw })
        } else {
            None
        }
    }

    /// The flag set with the bits of `raw`, if all of them are defined.
    pub fn from_bits(raw: u32) -> (res: Option<PortFeatures>)
        ensures
            res == Self::spec_from_bits(raw),
    {
        if raw & !PORT_FEATURES_ALL == 0 {
            Some(PortFeatures { bits: raw })
        } else {
            None
        }
    }

    /// What decoding `raw` gives: the flag set, or `UnknownBits` with the value.
    pub open spec fn spec_decode(raw: u32) -> Result<PortFeatures, Error> {
        match Self::spec_from_bits(raw) {
            Some(v) => Ok(v),
            None => Err(Error::UnknownBits(raw as u64, "PortFeatures")),
        }
    }

    /// Decodes a raw word; bits outside the defined ones are an `UnknownBits` error.
    pub fn decode(raw: u32) -> (res: Result<PortFeatures, Error>)
        ensures
            res == Self::spec_decode(raw),
    {
        match Self::from_bits(raw) {
            Some(v) => Ok(v),
            None => Err(Error::UnknownBits(raw as u64, "PortFeatures")),
        }
    }

    /// The empty flag set.
    pub fn empty() -> (res: PortFeatures)
        ensures
            res.bits == 0,
    {
        PortFeatures { bits: 0 }
    }

    /// The raw bits.
    pub fn bits(&self) -> (r: u32)
        ensures
            r == self.bits,
    {
        self.bits
    }

    /// Whether every bit of `flag` is set.
    pub fn contains(&self, flag: u32) -> (r: bool)
        ensures
            r == (self.bits & flag == flag),
    {
        self.bits & flag == flag
    }
}

/// The sixteen bytes of `b` from offset `i` on, as a port name.
pub open spec fn spec_port_name(b: Seq<u8>, i: int) -> [u8; 16] {
    [
        b[i],
        b[i + 1],
        b[i + 2],
        b[i + 3],
        b[i + 4],
        b[i + 5],
        b[i + 6],
        b[i + 7],
        b[i + 8],
        b[i + 9],
        b[i + 10],
        b[i + 11],
        b[i + 12],
        b[i + 13],
        b[i + 14],
        b[i + 15],
    ]
}

/// The description of a switch port.
#[derive(Debug, PartialEq, Eq, Clone, Copy)]
pub struct Port {
    /// The number of the port.
    pub port_no: PortNumber,
    /// The hardware address of the port.
    pub hw_addr: [u8; 6],
    /// The name of the port: sixteen bytes, NUL-terminated and zero-padded.
    pub name: [u8; 16],
    /// Bitmap of `PortConfig` flags.
    pub config: PortConfig,
    /// Bitmap of `PortState` flags.
    pub state: PortState,
    /// Current features.
    pub curr: PortFeatures,
    /// Features being advertised by the port.
    pub advertised: PortFeatures,
    /// Features supported by the port.
    pub supported: PortFeatures,
    /// Features advertised by the peer.
    pub peer: PortFeatures,
    /// Current port bitrate in kbps.
    pub curr_speed: u32,
    /// Max port bitrate in kbps.
    pub max_speed: u32,
}

impl Port {
    /// Every field holds a value that the wire format can carry.
    pub open spec fn wf(self) -> bool {
        &&& self.port_no.wf()
        &&& self.config.wf()
        &&& self.state.wf()
        &&& self.curr.wf()
        &&& self.advertised.wf()
        &&& self.supported.wf()
        &&& self.peer.wf()
    }

    /// What `b` decodes to: a slice of another length than 64 is refused, then
    /// each field is decoded in wire order and the first failure is the result.
    pub open spec fn spec_try_from(b: Seq<u8>) -> Result<Port, Error> {
        if b.len() != 64 {
            Err(Error::InvalidSliceLength(64, b.len() as usize, "Port"))
        } else {
            match PortNumber::spec_try_from(spec_u32_at(b, 0)) {
                Err(e) => Err(e),
                Ok(port_no) => match PortConfig::spec_decode(spec_u32_at(b, 32)) {
                    Err(e) => Err(e),
                    Ok(config) => match PortState::spec_decode(spec_u32_at(b, 36)) {
                        Err(e) => Err(e),
                        Ok(state) => match PortFeatures::spec_decode(spec_u32_at(b, 40)) {
                            Err(e) => Err(e),
                            Ok(curr) => match PortFeatures::spec_decode(spec_u32_at(b, 44)) {
                                Err(e) => Err(e),
                                Ok(advertised) => match PortFeatures::spec_decode(spec_u32_at(b, 48)) {
                                    Err(e) => Err(e),
                                    Ok(supported) => match PortFeatures::spec_decode(spec_u32_at(b, 52)) {
                                        Err(e) => Err(e),
                                        Ok(peer) => Ok(
                                            Port {
                                                port_no,
                                                hw_addr: spec_eth(b, 8),
                                                name: spec_port_name(b, 16),
                                                config,
                                                state,
                                                curr,
                                                advertised,
                                                supported,
                                                peer,
                                                curr_speed: spec_u32_at(b, 56),
                                                max_speed: spec_u32_at(b, 60),
                                            },
                                        ),
                                    },
                                },
                            },
                        },
                    },
                },
            }
        }
    }

    /// Decodes the 64 bytes of a `Port`.
    pub fn try_from(bytes: &[u8]) -> (res: Result<Port, Error>)
        ensures
            res == Self::spec_try_from(bytes@),
    {
        if bytes.len() != 64 {
            return Err(Error::InvalidSliceLength(64, bytes.len(), "Port"));
        }
        let port_no = match PortNumber::try_from(get_u32(bytes, 0)) {
            Ok(v) => v,
            Err(e) => return Err(e),
        };
        let hw_addr: [u8; 6] = [bytes[8], bytes[9], bytes[10], bytes[11], bytes[12], bytes[13]];
        assert(hw_addr =~= spec_eth(bytes@, 8));
        let name: [u8; 16] = [
            bytes[16],
            bytes[17],
            bytes[18],
            bytes[19],
            bytes[20],
            bytes[21],
            bytes[22],
            bytes[23],
            bytes[24],
            bytes[25],
            bytes[26],
            bytes[27],
            bytes[28],
            bytes[29],
            bytes[30],
            bytes[31],
        ];
        assert(name =~= spec_port_name(bytes@, 16));
        let config = match PortConfig::decode(get_u32(bytes, 32)) {
            Ok(v) => v,
            Err(e) => return Err(e),
        };
        let state = match PortState::decode(get_u32(bytes, 36)) {
            Ok(v) => v,
            Err(e) => return Err(e),
        };
        let curr = match PortFeatures::decode(get_u32(bytes, 40)) {
            Ok(v) => v,
            Err(e) => return Err(e),
        };
        let advertised = match PortFeatures::decode(get_u32(bytes, 44)) {
            Ok(v) => v,
            Err(e) => return Err(e),
        };
        let supported = match PortFeatures::decode(get_u32(bytes, 48)) {
            Ok(v) => v,
            Err(e) => return Err(e),
        };
        let peer = match PortFeatures::decode(get_u32(bytes, 52)) {
            Ok(v) => v,
            Err(e) => return Err(e),
        };
        let curr_speed: u32 = get_u32(bytes, 56);
        let max_speed: u32 = get_u32(bytes, 60);
        Ok(Port {
            port_no,
            hw_addr,
            name,
            config,
            state,
            curr,
            advertised,
            supported,
            peer,
            curr_speed,
            max_speed,
        })
    }

    /// The 64 bytes of the record on the wire; padding is zero.
    pub open spec fn wire(self) -> Seq<u8> {
        spec_u32_bytes(self.port_no.spec_to_u32())
            + zeros(4)
            + self.hw_addr@
            + zeros(2)
            + self.name@
            + spec_u32_bytes(self.config.bits)
            + spec_u32_bytes(self.state.bits)
            + spec_u32_bytes(self.curr.bits)
            + spec_u32_bytes(self.advertised.bits)
            + spec_u32_bytes(self.supported.bits)
            + spec_u32_bytes(self.peer.bits)
            + spec_u32_bytes(self.curr_speed)
            + spec_u32_bytes(self.max_speed)
    }

    /// Appends the wire form to `out`.
    pub fn encode(&self, out: &mut Vec<u8>)
        ensures
            final(out)@ == old(out)@ + self.wire(),
    {
        put_u32(out, self.port_no.to_u32());
        put_zeros(out, 4);
        put_bytes(out, array_as_slice(&self.hw_addr));
        put_zeros(out, 2);
        put_bytes(out, array_as_slice(&self.name));
        put_u32(out, self.config.bits);
        put_u32(out, self.state.bits);
        put_u32(out, self.curr.bits);
        put_u32(out, self.advertised.bits);
        put_u32(out, self.supported.bits);
        put_u32(out, self.peer.bits);
        put_u32(out, self.curr_speed);
        put_u32(out, self.max_speed);
        assert(out@ =~= old(out)@ + self.wire());
    }

    /// The wire form as a vector of its own.
    pub fn into_bytes(&self) -> (res: Vec<u8>)
        ensures
            res@ == self.wire(),
    {
        let mut out: Vec<u8> = Vec::new();
        self.encode(&mut out);
        out
    }

    /// The wire form is 64 bytes long, and decoding it gives the record back.
    #[verifier::rlimit(40)]
    pub proof fn lemma_roundtrip(self)
        requires
            self.wf(),
        ensures
            self.wire().len() == 64,
            Self::spec_try_from(self.wire()) == Ok::<Port, Error>(self),
    {
        let w = self.wire();
        assert(spec_u32_at(w, 0) == self.port_no.spec_to_u32()) by {
            lemma_u32_at_bytes(w, 0, self.port_no.spec_to_u32());
        }
        self.port_no.lemma_wire_value();
        assert(spec_eth(w, 8) == self.hw_addr) by {
            assert(self.hw_addr@.len() == 6);
            assert(spec_eth(w, 8) =~= self.hw_addr);
        }
        assert(spec_port_name(w, 16) == self.name) by {
            assert(self.name@.len() == 16);
            assert(spec_port_name(w, 16) =~= self.name);
        }
        assert(spec_u32_at(w, 32) == self.config.bits) by {
            lemma_u32_at_bytes(w, 32, self.config.bits);
        }
        assert(spec_u32_at(w, 36) == self.state.bits) by {
            lemma_u32_at_bytes(w, 36, self.state.bits);
        }
        assert(spec_u32_at(w, 40) == self.curr.bits) by {
            lemma_u32_at_bytes(w, 40, self.curr.bits);
        }
        assert(spec_u32_at(w, 44) == self.advertised.bits) by {
            lemma_u32_at_bytes(w, 44, self.advertised.bits);
        }
        assert(spec_u32_at(w, 48) == self.supported.bits) by {
            lemma_u32_at_bytes(w, 48, self.supported.bits);
        }
        assert(spec_u32_at(w, 52) == self.peer.bits) by {
            lemma_u32_at_bytes(w, 52, self.peer.bits);
        }
        assert(spec_u32_at(w, 56) == self.curr_speed) by {
            lemma_u32_at_bytes(w, 56, self.curr_speed);
        }
        assert(spec_u32_at(w, 60) == self.max_speed) by {
            lemma_u32_at_bytes(w, 60, self.max_speed);
        }
    }

    /// What a slice decodes to holds what the wire format can carry, and is as
    /// long on the wire as the slice.
    pub proof fn lemma_decoded(b: Seq<u8>)
        requires
            Self::spec_try_from(b) is Ok,
        ensures
            Self::spec_try_from(b)->Ok_0.wf(),
            Self::spec_try_from(b)->Ok_0.wire().len() == b.len(),
    {
    }
}

} // verus!
