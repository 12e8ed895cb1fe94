//! Meter modification.

use crate::err::Error;
use crate::wire::{
    get_u16, get_u32, lemma_u16_at_bytes, lemma_u32_at_bytes, put_u16, put_u32, put_zeros,
    spec_u16_at, spec_u16_bytes, spec_u32_at, spec_u32_bytes, zeros,
};
use vstd::prelude::*;
use vstd::slice::slice_subrange;

verus! {

/// What a meter mod does.
#[derive(Debug, PartialEq, Eq, Clone, Copy)]
pub enum MeterModCommand {
    /// New meter.
    Add,
    /// Modify the specified meter.
    Modify,
    /// Delete the specified meter.
    Delete,
}

impl MeterModCommand {
    /// The variant whose wire value is `raw`, if there is one.
    pub open spec fn spec_from_u16(raw: u16) -> Option<MeterModCommand> {
        match raw {
            1 => Some(MeterModCommand::Add),
            2 => Some(MeterModCommand::Modify),
            3 => Some(MeterModCommand::Delete),
            _ => None,
        }
    }

    /// The variant whose wire value is `raw`, if there is one.
    pub fn from_u16(raw: u16) -> (res: Option<MeterModCommand>)
        ensures
            res == Self::spec_from_u16(raw),
    {
        match raw {
            1 => Some(MeterModCommand::Add),
            2 => Some(MeterModCommand::Modify),
            3 => Some(MeterModCommand::Delete),
            _ => None,
        }
    }

    /// The wire value of the variant.
    pub open spec fn spec_to_u16(self) -> u16 {
        match self {
            MeterModCommand::Add => 1,
            MeterModCommand::Modify => 2,
            MeterModCommand::Delete => 3,
        }
    }

    /// The wire value of the variant.
    pub fn to_u16(&self) -> (r: u16)
        ensures
            r == self.spec_to_u16(),
    {
        match self {
            MeterModCommand::Add => 1,
            MeterModCommand::Modify => 2,
            MeterModCommand::Delete => 3,
        }
    }

    /// What decoding `raw` gives: its variant, or `UnknownEnum` with the value.
    pub open spec fn spec_decode(raw: u16) -> Result<MeterModCommand, Error> {
        match Self::spec_from_u16(raw) {
            Some(v) => Ok(v),
            None => Err(Error::UnknownEnum(raw as u64, "MeterModCommand")),
        }
    }

    /// Decodes a wire value; an unknown one is an `UnknownEnum` error.
    pub fn decode(raw: u16) -> (res: Result<MeterModCommand, Error>)
        ensures
            res == Self::spec_decode(raw),
    {
        match Self::from_u16(raw) {
            Some(v) => Ok(v),
            None => Err(Error::UnknownEnum(raw as u64, "MeterModCommand")),
        }
    }

    /// Every variant is what its own wire value decodes to, and only that
    /// value decodes to it.
    pub proof fn lemma_wire_value(self)
        ensures
            Self::spec_decode(self.spec_to_u16()) == Ok::<MeterModCommand, Error>(self),
            forall|raw: u16| Self::spec_from_u16(raw) == Some(self) ==> raw == self.spec_to_u16(),
    {
    }
}

/// Rate value in kb/s.
pub const METER_FLAGS_KBPS: u16 = 0x1;

/// Rate value in packets per second.
pub const METER_FLAGS_PKTPS: u16 = 0x2;

/// Do burst size.
pub const METER_FLAGS_BURST: u16 = 0x4;

/// Collect statistics.
pub const METER_FLAGS_STATS: u16 = 0x8;

/// Every bit that `MeterFlags` defines.
pub const METER_FLAGS_ALL: u16 = 0xf;

/// Meter configuration flags.
#[derive(Debug, PartialEq, Eq, Clone, Copy)]
pub struct MeterFlags {
    /// The raw bits.
    pub bits: u16,
}

impl MeterFlags {
    /// No bit is set outside the defined ones.
    pub open spec fn wf(self) -> bool {
        self.bits & !METER_FLAGS_ALL == 0
    }

    /// The flag set with the bits of `raw`, if all of them are defined.
    pub open spec fn spec_from_bits(raw: u16) -> Option<MeterFlags> {
        if raw & !METER_FLAGS_ALL == 0 {
            Some(MeterFlags { bits: raw })
        } else {
            None
        }
    }

    /// The flag set with the bits of `raw`, if all of them are defined.
    pub fn from_bits(raw: u16) -> (res: Option<MeterFlags>)
        ensures
            res == Self::spec_from_bits(raw),
    {
        if raw & !METER_FLAGS_ALL == 0 {
            Some(MeterFlags { bits: raw })
        } else {
            None
        }
    }

    /// What decoding `raw` gives: the flag set, or `UnknownBits` with the value.
    pub open spec fn spec_decode(raw: u16) -> Result<MeterFlags, Error> {
        match Self::spec_from_bits(raw) {
            Some(v) => Ok(v),
            None => Err(Error::UnknownBits(raw as u64, "MeterFlags")),
        }
    }

    /// Decodes a raw word; bits outside the defined ones are an `UnknownBits` error.
    pub fn decode(raw: u16) -> (res: Result<MeterFlags, Error>)
        ensures
            res == Self::spec_decode(raw),
    {
        match Self::from_bits(raw) {
            Some(v) => Ok(v),
            None => Err(Error::UnknownBits(raw as u64, "MeterFlags")),
        }
    }

    /// The empty flag set.
    pub fn empty() -> (res: MeterFlags)
        ensures
            res.bits == 0,
    {
        MeterFlags { bits: 0 }
    }

    /// The raw bits.
    pub fn bits(&self) -> (r: u16)
        ensures
            r == self.bits,
    {
        self.bits
    }

    /// Whether every bit of `flag` is set.
    pub fn contains(&self, flag: u16) -> (r: bool)
        ensures
            r == (self.bits & flag == flag),
    {
        self.bits & flag == flag
    }
}

/// The kinds of meter band.
#[derive(Debug, PartialEq, Eq, Clone, Copy)]
pub enum MeterBandType {
    /// Drop the packet.
    Drop,
    /// Remark the DSCP in the IP header.
    DscpRemark,
    /// Experimenter meter band.
    Experimenter,
}

impl MeterBandType {
    /// The variant whose wire value is `raw`, if there is one.
    pub open spec fn spec_from_u16(raw: u16) -> Option<MeterBandType> {
        match raw {
            1 => Some(MeterBandType::Drop),
            2 => Some(MeterBandType::DscpRemark),
            0xFFFF => Some(MeterBandType::Experimenter),
            _ => None,
        }
    }

    /// The variant whose wire value is `raw`, if there is one.
    pub fn from_u16(raw: u16) -> (res: Option<MeterBandType>)
        ensures
            res == Self::spec_from_u16(raw),
    {
        match raw {
            1 => Some(MeterBandType::Drop),
            2 => Some(MeterBandType::DscpRemark),
            0xFFFF => Some(MeterBandType::Experimenter),
            _ => None,
        }
    }

    /// The wire value of the variant.
    pub open spec fn spec_to_u16(self) -> u16 {
        match self {
            MeterBandType::Drop => 1,
            MeterBandType::DscpRemark => 2,
            MeterBandType::Experimenter => 0xFFFF,
        }
    }

    /// The wire value of the variant.
    pub fn to_u16(&self) -> (r: u16)
        ensures
            r == self.spec_to_u16(),
    {
        match self {
            MeterBandType::Drop => 1,
            MeterBandType::DscpRemark => 2,
            MeterBandType::Experimenter => 0xFFFF,
        }
    }

    /// What decoding `raw` gives: its variant, or `UnknownEnum` with the value.
    pub open spec fn spec_decode(raw: u16) -> Result<MeterBandType, Error> {
        match Self::spec_from_u16(raw) {
            Some(v) => Ok(v),
            None => Err(Error::UnknownEnum(raw as u64, "MeterBandType")),
        }
    }

    /// Decodes a wire value; an unknown one is an `UnknownEnum` error.
    pub fn decode(raw: u16) -> (res: Result<MeterBandType, Error>)
        ensures
            res == Self::spec_decode(raw),
    {
        match Self::from_u16(raw) {
            Some(v) => Ok(v),
            None => Err(Error::UnknownEnum(raw as u64, "MeterBandType")),
        }
    }

    /// Every variant is what its own wire value decodes to, and only that
    /// value decodes to it.
    pub proof fn lemma_wire_value(self)
        ensures
            Self::spec_decode(self.spec_to_u16()) == Ok::<MeterBandType, Error>(self),
            forall|raw: u16| Self::spec_from_u16(raw) == Some(self) ==> raw == self.spec_to_u16(),
    {
    }
}

/// The body of a drop band.
#[derive(Debug, PartialEq, Eq, Clone, Copy)]
pub struct MeterBandDrop {}

impl MeterBandDrop {
    /// Every field holds a value that the wire format can carry.
    pub open spec fn wf(self) -> bool {
        true
    }

    /// What `b` decodes to: a slice of another length than 4 is refused, then
    /// each field is decoded in wire order and the first failure is the result.
    pub open spec fn spec_try_from(b: Seq<u8>) -> Result<MeterBandDrop, Error> {
        if b.len() != 4 {
            Err(Error::InvalidSliceLength(4, b.len() as usize, "MeterBandDrop"))
        } else {
            Ok(MeterBandDrop {})
        }
    }

    /// Decodes the 4 bytes of a `MeterBandDrop`.
    pub fn try_from(bytes: &[u8]) -> (res: Result<MeterBandDrop, Error>)
        ensures
            res == Self::spec_try_from(bytes@),
    {
        if bytes.len() != 4 {
            return Err(Error::InvalidSliceLength(4, bytes.len(), "MeterBandDrop"));
        }
        Ok(MeterBandDrop { })
    }

    /// The 4 bytes of the record on the wire; padding is zero.
    pub open spec fn wire(self) -> Seq<u8> {
        zeros(4)
    }

    /// Appends the wire form to `out`.
    pub fn encode(&self, out: &mut Vec<u8>)
        ensures
            final(out)@ == old(out)@ + self.wire(),
    {
        put_zeros(out, 4);
        assert(out@ =~= old(out)@ + self.wire());
    }

    /// The wire form as a vector of its own.
    pub fn into_bytes(&self) -> (res: Vec<u8>)
        ensures
            res@ == self.wire(),
    {
        let mut out: Vec<u8> = Vec::new();
        self.encode(&mut out);
        out
    }

    /// The wire form is 4 bytes long, and decoding it gives the record back.
    pub proof fn lemma_roundtrip(self)
        requires
            self.wf(),
        ensures
            self.wire().len() == 4,
            Self::spec_try_from(self.wire()) == Ok::<MeterBandDrop, Error>(self),
    {
        let w = self.wire();
    }

    /// What a slice decodes to holds what the wire format can carry, and is as
    /// long on the wire as the slice.
    pub proof fn lemma_decoded(b: Seq<u8>)
        requires
            Self::spec_try_from(b) is Ok,
        ensures
            Self::spec_try_from(b)->Ok_0.wf(),
            Self::spec_try_from(b)->Ok_0.wire().len() == b.len(),
    {
    }
}

/// The body of a DSCP remark band.
#[derive(Debug, PartialEq, Eq, Clone, Copy)]
pub struct MeterBandRemark {
    /// Number of drop precedence levels to add.
    pub prec_level: u8,
}

impl MeterBandRemark {
    /// Every field holds a value that the wire format can carry.
    pub open spec fn wf(self) -> bool {
        true
    }

    /// What `b` decodes to: a slice of another length than 4 is refused, then
    /// each field is decoded in wire order and the first failure is the result.
    pub open spec fn spec_try_from(b: Seq<u8>) -> Result<MeterBandRemark, Error> {
        if b.len() != 4 {
            Err(Error::InvalidSliceLength(4, b.len() as usize, "MeterBandRemark"))
        } else {
            Ok(MeterBandRemark { prec_level: b[0] })
        }
    }

    /// Decodes the 4 bytes of a `MeterBandRemark`.
    pub fn try_from(bytes: &[u8]) -> (res: Result<MeterBandRemark, Error>)
        ensures
            res == Self::spec_try_from(bytes@),
    {
        if bytes.len() != 4 {
            return Err(Error::InvalidSliceLength(4, bytes.len(), "MeterBandRemark"));
        }
        let prec_level: u8 = bytes[0];
        Ok(MeterBandRemark { prec_level })
    }

    /// The 4 bytes of the record on the wire; padding is zero.
    pub open spec fn wire(self) -> Seq<u8> {
        seq![self.prec_level]
            + zeros(3)
    }

    /// Appends the wire form to `out`.
    pub fn encode(&self, out: &mut Vec<u8>)
        ensures
            final(out)@ == old(out)@ + self.wire(),
    {
        out.push(self.prec_level);
        put_zeros(out, 3);
        assert(out@ =~= old(out)@ + self.wire());
    }

    /// The wire form as a vector of its own.
    pub fn into_bytes(&self) -> (res: Vec<u8>)
        ensures
            res@ == self.wire(),
    {
        let mut out: Vec<u8> = Vec::new();
        self.encode(&mut out);
        out
    }

    /// The wire form is 4 bytes long, and decoding it gives the record back.
    pub proof fn lemma_roundtrip(self)
        requires
            self.wf(),
        ensures
            self.wire().len() == 4,
            Self::spec_try_from(self.wire()) == Ok::<MeterBandRemark, Error>(self),
    {
        let w = self.wire();
        assert(w[0] == self.prec_level);
    }

    /// What a slice decodes to holds what the wire format can carry, and is as
    /// long on the wire as the slice.
    pub proof fn lemma_decoded(b: Seq<u8>)
        requires
            Self::spec_try_from(b) is Ok,
        ensures
            Self::spec_try_from(b)->Ok_0.wf(),
            Self::spec_try_from(b)->Ok_0.wire().len() == b.len(),
    {
    }
}

/// The body of an experimenter band.
#[derive(Debug, PartialEq, Eq, Clone, Copy)]
pub struct MeterBandExperimenter {
    /// The experimenter id.
    pub experimenter: u32,
}

impl MeterBandExperimenter {
    /// Every field holds a value that the wire format can carry.
    pub open spec fn wf(self) -> bool {
        true
    }

    /// What `b` decodes to: a slice of another length than 4 is refused, then
    /// each field is decoded in wire order and the first failure is the result.
    pub open spec fn spec_try_from(b: Seq<u8>) -> Result<MeterBandExperimenter, Error> {
        if b.len() != 4 {
            Err(Error::InvalidSliceLength(4, b.len() as usize, "MeterBandExperimenter"))
        } else {
            Ok(MeterBandExperimenter { experimenter: spec_u32_at(b, 0) })
        }
    }

    /// Decodes the 4 bytes of a `MeterBandExperimenter`.
    pub fn try_from(bytes: &[u8]) -> (res: Result<MeterBandExperimenter, Error>)
        ensures
            res == Self::spec_try_from(bytes@),
    {
        if bytes.len() != 4 {
            return Err(Error::InvalidSliceLength(4, bytes.len(), "MeterBandExperimenter"));
        }
        let experimenter: u32 = get_u32(bytes, 0);
        Ok(MeterBandExperimenter { experimenter })
    }

    /// The 4 bytes of the record on the wire; padding is zero.
    pub open spec fn wire(self) -> Seq<u8> {
        spec_u32_bytes(self.experimenter)
    }

    /// Appends the wire form to `out`.
    pub fn encode(&self, out: &mut Vec<u8>)
        ensures
            final(out)@ == old(out)@ + self.wire(),
    {
        put_u32(out, self.experimenter);
        assert(out@ =~= old(out)@ + self.wire());
    }

    /// The wire form as a vector of its own.
    pub fn into_bytes(&self) -> (res: Vec<u8>)
        ensures
            res@ == self.wire(),
    {
        let mut out: Vec<u8> = Vec::new();
        self.encode(&mut out);
        out
    }

    /// The wire form is 4 bytes long, and decoding it gives the record back.
    pub proof fn lemma_roundtrip(self)
        requires
            self.wf(),
        ensures
            self.wire().len() == 4,
            Self::spec_try_from(self.wire()) == Ok::<MeterBandExperimenter, Error>(self),
    {
        let w = self.wire();
        assert(spec_u32_at(w, 0) == self.experimenter) by {
            lemma_u32_at_bytes(w, 0, self.experimenter);
        }
    }

    /// What a slice decodes to holds what the wire format can carry, and is as
    /// long on the wire as the slice.
    pub proof fn lemma_decoded(b: Seq<u8>)
        requires
            Self::spec_try_from(b) is Ok,
        ensures
            Self::spec_try_from(b)->Ok_0.wf(),
            Self::spec_try_from(b)->Ok_0.wire().len() == b.len(),
    {
    }
}

/// The body of a meter band, by kind.
#[derive(Debug, PartialEq, Eq, Clone, Copy)]
pub enum MeterBandPayload {
    /// Drop the packet.
    Drop(MeterBandDrop),
    /// Remark the DSCP.
    Remark(MeterBandRemark),
    /// Experimenter band.
    Experimenter(MeterBandExperimenter),
}

impl MeterBandPayload {
    /// The kind of the body.
    pub open spec fn spec_kind(self) -> MeterBandType {
        match self {
            MeterBandPayload::Drop(_) => MeterBandType::Drop,
            MeterBandPayload::Remark(_) => MeterBandType::DscpRemark,
            MeterBandPayload::Experimenter(_) => MeterBandType::Experimenter,
        }
    }

    /// The bytes of the body on the wire.
    pub open spec fn wire(self) -> Seq<u8> {
        match self {
            MeterBandPayload::Drop(p) => p.wire(),
            MeterBandPayload::Remark(p) => p.wire(),
            MeterBandPayload::Experimenter(p) => p.wire(),
        }
    }

    /// The body holds what the wire format can carry.
    pub open spec fn wf(self) -> bool {
        match self {
            MeterBandPayload::Drop(p) => p.wf(),
            MeterBandPayload::Remark(p) => p.wf(),
            MeterBandPayload::Experimenter(p) => p.wf(),
        }
    }

    /// Decoding the bytes of a body as one of its own kind gives it back.
    pub proof fn lemma_roundtrip(self)
        requires
            self.wf(),
        ensures
            MeterBandHeader::spec_payload(self.spec_kind(), self.wire()) == Ok::<MeterBandPayload, Error>(self),
    {
        match self {
            MeterBandPayload::Drop(p) => p.lemma_roundtrip(),
            MeterBandPayload::Remark(p) => p.lemma_roundtrip(),
            MeterBandPayload::Experimenter(p) => p.lemma_roundtrip(),
        }
    }
}

impl MeterBandPayload {
    /// The kind of the body.
    pub fn kind(&self) -> (r: MeterBandType)
        ensures
            r == self.spec_kind(),
    {
        match self {
            MeterBandPayload::Drop(_) => MeterBandType::Drop,
            MeterBandPayload::Remark(_) => MeterBandType::DscpRemark,
            MeterBandPayload::Experimenter(_) => MeterBandType::Experimenter,
        }
    }

    /// Appends the bytes of the body to `out`.
    pub fn encode(&self, out: &mut Vec<u8>)
        ensures
            final(out)@ == old(out)@ + self.wire(),
    {
        match self {
            MeterBandPayload::Drop(p) => p.encode(out),
            MeterBandPayload::Remark(p) => p.encode(out),
            MeterBandPayload::Experimenter(p) => p.encode(out),
        }
    }

    /// The bytes of the body as a vector of their own.
    pub fn into_bytes(&self) -> (res: Vec<u8>)
        ensures
            res@ == self.wire(),
    {
        let mut out: Vec<u8> = Vec::new();
        self.encode(&mut out);
        out
    }
}

impl MeterBandHeader {
    /// What `b` decodes to as the body of kind `kind`.
    pub open spec fn spec_payload(
        kind: MeterBandType,
        b: Seq<u8>,
    ) -> Result<MeterBandPayload, Error> {
        match kind {
            MeterBandType::Drop => match MeterBandDrop::spec_try_from(b) {
                Ok(p) => Ok(MeterBandPayload::Drop(p)),
                Err(e) => Err(e),
            },
            MeterBandType::DscpRemark => match MeterBandRemark::spec_try_from(b) {
                Ok(p) => Ok(MeterBandPayload::Remark(p)),
                Err(e) => Err(e),
            },
            MeterBandType::Experimenter => match MeterBandExperimenter::spec_try_from(b) {
                Ok(p) => Ok(MeterBandPayload::Experimenter(p)),
                Err(e) => Err(e),
            },
        }
    }

    /// Decodes `bytes` as the body of kind `kind`.
    pub fn decode_payload(
        kind: MeterBandType,
        bytes: &[u8],
    ) -> (res: Result<MeterBandPayload, Error>)
        ensures
            res == Self::spec_payload(kind, bytes@),
    {
        match kind {
            MeterBandType::Drop => match MeterBandDrop::try_from(bytes) {
                Ok(p) => Ok(MeterBandPayload::Drop(p)),
                Err(e) => Err(e),
            },
            MeterBandType::DscpRemark => match MeterBandRemark::try_from(bytes) {
                Ok(p) => Ok(MeterBandPayload::Remark(p)),
                Err(e) => Err(e),
            },
            MeterBandType::Experimenter => match MeterBandExperimenter::try_from(bytes) {
                Ok(p) => Ok(MeterBandPayload::Experimenter(p)),
                Err(e) => Err(e),
            },
        }
    }

    /// What decodes as the body of a kind holds what the wire format can carry,
    /// is of that kind, and is as long on the wire as the slice.
    pub proof fn lemma_payload_decoded(kind: MeterBandType, b: Seq<u8>)
        requires
            Self::spec_payload(kind, b) is Ok,
        ensures
            Self::spec_payload(kind, b)->Ok_0.wf(),
            Self::spec_payload(kind, b)->Ok_0.wire().len() == b.len(),
            Self::spec_payload(kind, b)->Ok_0.spec_kind() == kind,
    {
        match kind {
            MeterBandType::Drop => MeterBandDrop::lemma_decoded(b),
            MeterBandType::DscpRemark => MeterBandRemark::lemma_decoded(b),
            MeterBandType::Experimenter => MeterBandExperimenter::lemma_decoded(b),
        }
    }
}

/// A meter band: its kind, its length, rate and burst size, and its body.
#[derive(Debug, PartialEq, Eq, Clone, Copy)]
pub struct MeterBandHeader {
    /// The kind of the band.
    pub ttype: MeterBandType,
    /// The length of the band in bytes, head included.
    pub len: u16,
    /// The rate of the band.
    pub rate: u32,
    /// The size of bursts.
    pub burst_size: u32,
    /// The body.
    pub payload: MeterBandPayload,
}

impl MeterBandHeader {
    /// The bytes on the wire: the head, then the body.
    pub open spec fn wire(self) -> Seq<u8> {
        spec_u16_bytes(self.ttype.spec_to_u16())
            + spec_u16_bytes(self.len)
            + spec_u32_bytes(self.rate)
            + spec_u32_bytes(self.burst_size)
            + self.payload.wire()
    }

    /// The kind is that of the body, the length field says how long the block is,
    /// and head and body hold what the wire format can carry.
    pub open spec fn wf(self) -> bool {
        &&& self.ttype == self.payload.spec_kind()
        &&& self.len == 12 + self.payload.wire().len()
        &&& self.payload.wf()
    }

    /// The wire form announces its own length and decodes to the value.
    #[verifier::rlimit(60)]
    pub proof fn lemma_roundtrip(self)
        requires
            self.wf(),
        ensures
            12 <= self.wire().len() <= 0x1_0007,
            MeterBandHeader::spec_read_len(self.wire(), 0) == Ok::<usize, Error>(self.wire().len() as usize),
            MeterBandHeader::spec_try_from(self.wire()) == Ok::<MeterBandHeader, Error>(self),
    {
        reveal(MeterBandHeader::spec_try_from);
        self.payload.lemma_roundtrip();
        let w = self.wire();
        assert(w.len() == 12 + self.payload.wire().len());
        assert(spec_u16_at(w, 0) == self.ttype.spec_to_u16()) by {
            lemma_u16_at_bytes(w, 0, self.ttype.spec_to_u16());
        }
        self.ttype.lemma_wire_value();
        assert(spec_u16_at(w, 2) == self.len) by {
            lemma_u16_at_bytes(w, 2, self.len);
        }
        assert(spec_u32_at(w, 4) == self.rate) by {
            lemma_u32_at_bytes(w, 4, self.rate);
        }
        assert(spec_u32_at(w, 8) == self.burst_size) by {
            lemma_u32_at_bytes(w, 8, self.burst_size);
        }
        assert(w.subrange(12, w.len() as int) =~= self.payload.wire());
    }
}

impl MeterBandHeader {
    /// How long the block that starts at `pos` says it is; an error where fewer
    /// than 12 bytes are left to hold its head.
    pub open spec fn spec_read_len(b: Seq<u8>, pos: int) -> Result<usize, Error> {
        if pos + 12 > b.len() {
            Err(Error::CouldNotReadLength(2, "MeterBandHeader"))
        } else {
            Ok((spec_u16_at(b, pos + 2)) as usize)
        }
    }

    /// Reads the length of the block that starts at `pos`, without consuming
    /// anything.
    pub fn read_len(bytes: &[u8], pos: usize) -> (res: Result<usize, Error>)
        ensures
            res == Self::spec_read_len(bytes@, pos as int),
    {
        if bytes.len() < 12 || pos > bytes.len() - 12 {
            return Err(Error::CouldNotReadLength(2, "MeterBandHeader"));
        }
        Ok(get_u16(bytes, pos + 2) as usize)
    }

    /// What a block decodes to. It must hold the 12 bytes of the head and be as long
    /// as its length field says; then the head is decoded, and the rest as the body of
    /// the kind that the head names.
    #[verifier::opaque]
    pub open spec fn spec_try_from(b: Seq<u8>) -> Result<MeterBandHeader, Error> {
        if b.len() < 12 {
            Err(Error::InvalidSliceLength(12, b.len() as usize, "MeterBandHeader"))
        } else if spec_u16_at(b, 2) != b.len() {
            Err(
                Error::InvalidSliceLength(
                    (spec_u16_at(b, 2)) as usize,
                    b.len() as usize,
                    "MeterBandHeader",
                ),
            )
        } else {
            match MeterBandType::spec_decode(spec_u16_at(b, 0)) {
                Err(e) => Err(e),
                Ok(ttype) => match Self::spec_payload(ttype, b.subrange(12, b.len() as int)) {
                    Err(e) => Err(e),
                    Ok(payload) => Ok(
                        MeterBandHeader {
                            ttype,
                            len: spec_u16_at(b, 2),
                            rate: spec_u32_at(b, 4),
                            burst_size: spec_u32_at(b, 8),
                            payload,
                        },
                    ),
                },
            }
        }
    }

    /// Decodes a `MeterBandHeader`.
    pub fn try_from(bytes: &[u8]) -> (res: Result<MeterBandHeader, Error>)
        ensures
            res == Self::spec_try_from(bytes@),
    {
        proof {
            reveal(MeterBandHeader::spec_try_from);
        }
        if bytes.len() < 12 {
            return Err(Error::InvalidSliceLength(12, bytes.len(), "MeterBandHeader"));
        }
        let total: usize = get_u16(bytes, 2) as usize;
        if total != bytes.len() {
            return Err(Error::InvalidSliceLength(total, bytes.len(), "MeterBandHeader"));
        }
        let ttype = match MeterBandType::decode(get_u16(bytes, 0)) {
            Ok(v) => v,
            Err(e) => return Err(e),
        };
        let len: u16 = get_u16(bytes, 2);
        let rate: u32 = get_u32(bytes, 4);
        let burst_size: u32 = get_u32(bytes, 8);
        match Self::decode_payload(ttype, slice_subrange(bytes, 12, bytes.len())) {
            Ok(payload) => Ok(MeterBandHeader { ttype, len, rate, burst_size, payload }),
            Err(e) => Err(e),
        }
    }

    /// Appends the wire form to `out`.
    pub fn encode(&self, out: &mut Vec<u8>)
        ensures
            final(out)@ == old(out)@ + self.wire(),
    {
        put_u16(out, self.ttype.to_u16());
        put_u16(out, self.len);
        put_u32(out, self.rate);
        put_u32(out, self.burst_size);
        self.payload.encode(out);
        assert(out@ =~= old(out)@ + self.wire());
    }

    /// The wire form as a vector of its own.
    pub fn into_bytes(&self) -> (res: Vec<u8>)
        ensures
            res@ == self.wire(),
    {
        let mut out: Vec<u8> = Vec::new();
        self.encode(&mut out);
        out
    }

    /// What a block decodes to is well-formed and as long on the wire as the
    /// block.
    #[verifier::rlimit(60)]
    pub proof fn lemma_decoded(b: Seq<u8>)
        requires
            Self::spec_try_from(b) is Ok,
        ensures
            Self::spec_try_from(b)->Ok_0.wf(),
            Self::spec_try_from(b)->Ok_0.wire().len() == b.len(),
    {
        reveal(MeterBandHeader::spec_try_from);
        let kind = MeterBandType::spec_decode(spec_u16_at(b, 0))->Ok_0;
        Self::lemma_payload_decoded(kind, b.subrange(12, b.len() as int));
    }
}

impl MeterBandHeader {
    /// What the bytes of `b` from `pos` on decode to as a run of bands, after
    /// those in `acc`: each block is as long as its own length field says, none may
    /// reach past the end of `b`, and the first failure is the result.
    pub open spec fn spec_parse_list(b: Seq<u8>, pos: int, acc: Seq<MeterBandHeader>) -> Result<
        Seq<MeterBandHeader>,
        Error,
    >
        decreases b.len() - pos,
    {
        if pos >= b.len() {
            Ok(acc)
        } else {
            match Self::spec_read_len(b, pos) {
                Err(e) => Err(e),
                Ok(n) => if n < 12 || pos + n > b.len() {
                    Err(Error::InvalidSliceLength(n, (b.len() - pos) as usize, "MeterBandHeader"))
                } else {
                    match Self::spec_try_from(b.subrange(pos, pos + n)) {
                        Err(e) => Err(e),
                        Ok(t) => Self::spec_parse_list(b, pos + n, acc.push(t)),
                    }
                },
            }
        }
    }

    /// Decodes a slice that holds a run of bands and nothing else.
    pub fn parse_list(bytes: &[u8]) -> (res: Result<Vec<MeterBandHeader>, Error>)
        ensures
            match res {
                Ok(v) => Self::spec_parse_list(bytes@, 0, Seq::empty()) == Ok::<Seq<MeterBandHeader>, Error>(
                    v@,
                ),
                Err(e) => Self::spec_parse_list(bytes@, 0, Seq::empty()) == Err::<Seq<MeterBandHeader>, Error>(
                    e,
                ),
            },
    {
        let mut items: Vec<MeterBandHeader> = Vec::new();
        let mut pos: usize = 0;
        assert(items@ =~= Seq::<MeterBandHeader>::empty());
        while pos < bytes.len()
            invariant
                pos <= bytes@.len(),
                Self::spec_parse_list(bytes@, pos as int, items@)
                    == Self::spec_parse_list(bytes@, 0, Seq::empty()),
            decreases bytes@.len() - pos,
        {
            let n: usize = match Self::read_len(bytes, pos) {
                Ok(n) => n,
                Err(e) => return Err(e),
            };
            if n < 12 || n > bytes.len() - pos {
                return Err(Error::InvalidSliceLength(n, bytes.len() - pos, "MeterBandHeader"));
            }
            let item = match Self::try_from(slice_subrange(bytes, pos, pos + n)) {
                Ok(t) => t,
                Err(e) => return Err(e),
            };
            proof {
                assert(items@.push(item) =~= items@.push(item));
            }
            items.push(item);
            pos = pos + n;
        }
        Ok(items)
    }

    /// The wire forms of the bands of `s`, one after the other.
    pub open spec fn spec_wire_list(s: Seq<MeterBandHeader>) -> Seq<u8>
        decreases s.len(),
    {
        if s.len() == 0 {
            Seq::empty()
        } else {
            Self::spec_wire_list(s.drop_last()) + s.last().wire()
        }
    }

    /// Appends the wire forms of `items`, in order.
    pub fn encode_list(items: &Vec<MeterBandHeader>, out: &mut Vec<u8>)
        ensures
            final(out)@ == old(out)@ + Self::spec_wire_list(items@),
    {
        let ghost all = items@;
        let mut i: usize = 0;
        assert(old(out)@ + Self::spec_wire_list(all.take(0)) =~= old(out)@);
        while i < items.len()
            invariant
                i <= items@.len(),
                all == items@,
                out@ == old(out)@ + Self::spec_wire_list(all.take(i as int)),
            decreases items@.len() - i,
        {
            let ghost before = out@;
            items[i].encode(out);
            proof {
                let next = all.take(i + 1);
                assert(next.drop_last() =~= all.take(i as int));
                assert(next.last() == items@[i as int]);
                assert(out@ =~= old(out)@ + Self::spec_wire_list(next));
            }
            i = i + 1;
        }
        assert(all.take(items@.len() as int) =~= all);
    }

    /// The wire forms of a run of bands are that of the first, then those of
    /// the others.
    pub proof fn lemma_wire_list_front(s: Seq<MeterBandHeader>)
        requires
            s.len() > 0,
        ensures
            Self::spec_wire_list(s) == s[0].wire() + Self::spec_wire_list(s.drop_first()),
        decreases s.len(),
    {
        if s.len() == 1 {
            assert(s.drop_last() =~= Seq::<MeterBandHeader>::empty());
            assert(s.drop_first() =~= Seq::<MeterBandHeader>::empty());
            assert(Self::spec_wire_list(s) =~= s[0].wire() + Self::spec_wire_list(s.drop_first()));
        } else {
            Self::lemma_wire_list_front(s.drop_last());
            assert(s.drop_first().drop_last() =~= s.drop_last().drop_first());
            assert(s.drop_last()[0] == s[0]);
            assert(s.drop_first().last() == s.last());
            assert(Self::spec_wire_list(s) =~= s[0].wire() + Self::spec_wire_list(s.drop_first()));
        }
    }

    /// The length that is read at `pos` of `b` is the one that is read from the
    /// bytes that start there.
    pub proof fn lemma_read_len_at(b: Seq<u8>, pos: int, w: Seq<u8>)
        requires
            0 <= pos,
            pos + w.len() <= b.len(),
            w.len() >= 12,
            b.subrange(pos, pos + w.len()) == w,
        ensures
            Self::spec_read_len(b, pos) == Self::spec_read_len(w, 0),
    {
        let sub = b.subrange(pos, pos + w.len());
        assert(sub[0] == b[pos + 0]);
        assert(sub[1] == b[pos + 1]);
        assert(sub[2] == b[pos + 2]);
        assert(sub[3] == b[pos + 3]);
        assert(sub[4] == b[pos + 4]);
        assert(sub[5] == b[pos + 5]);
        assert(sub[6] == b[pos + 6]);
        assert(sub[7] == b[pos + 7]);
        assert(sub[8] == b[pos + 8]);
        assert(sub[9] == b[pos + 9]);
        assert(sub[10] == b[pos + 10]);
        assert(sub[11] == b[pos + 11]);
    }

    /// Where the bytes of `b` from `pos` on are the wire forms of well-formed
    /// bands, they decode to these, in order, after what was decoded before.
    #[verifier::rlimit(100)]
    pub proof fn lemma_list_roundtrip(
        b: Seq<u8>,
        pos: int,
        acc: Seq<MeterBandHeader>,
        s: Seq<MeterBandHeader>,
    )
        requires
            0 <= pos <= b.len(),
            b.subrange(pos, b.len() as int) == Self::spec_wire_list(s),
            forall|i: int| 0 <= i < s.len() ==> (#[trigger] s[i]).wf(),
        ensures
            Self::spec_parse_list(b, pos, acc) == Ok::<Seq<MeterBandHeader>, Error>(acc + s),
        decreases s.len(),
    {
        if s.len() == 0 {
            assert(acc + s =~= acc);
            assert(b.subrange(pos, b.len() as int).len() == 0);
        } else {
            let first = s[0];
            let rest = s.drop_first();
            let w0 = first.wire();
            let n = w0.len() as int;
            let tail = b.subrange(pos, b.len() as int);
            assert(tail == w0 + Self::spec_wire_list(rest)) by {
                Self::lemma_wire_list_front(s);
            }
            assert(tail.len() == b.len() - pos);
            assert(tail.len() == n + Self::spec_wire_list(rest).len());
            assert(b.subrange(pos, pos + n) == w0) by {
                assert(b.subrange(pos, pos + n) =~= tail.subrange(0, n));
                assert(tail.subrange(0, n) =~= w0);
            }
            assert(b.subrange(pos + n, b.len() as int) == Self::spec_wire_list(rest)) by {
                assert(b.subrange(pos + n, b.len() as int) =~= tail.subrange(n, tail.len() as int));
                assert(tail.subrange(n, tail.len() as int) =~= Self::spec_wire_list(rest));
            }
            assert(12 <= n <= 0x1_0007 && Self::spec_read_len(w0, 0) == Ok::<usize, Error>(
                n as usize,
            ) && Self::spec_try_from(w0) == Ok::<MeterBandHeader, Error>(first)) by {
                first.lemma_roundtrip();
            }
            assert(Self::spec_read_len(b, pos) == Ok::<usize, Error>(n as usize)) by {
                Self::lemma_read_len_at(b, pos, w0);
            }
            assert forall|i: int| 0 <= i < rest.len() implies (#[trigger] rest[i]).wf() by {
                assert(rest[i] == s[i + 1]);
            }
            assert(Self::spec_parse_list(b, pos + n, acc.push(first)) == Ok::<Seq<MeterBandHeader>, Error>(
                acc + s,
            )) by {
                Self::lemma_list_roundtrip(b, pos + n, acc.push(first), rest);
                assert(acc.push(first) + rest =~= acc + s);
            }
        }
    }
}

impl MeterBandHeader {
    /// The wire forms of a run of bands followed by one more are those of the
    /// run, then that of the one.
    pub proof fn lemma_wire_list_len(s: Seq<MeterBandHeader>, t: MeterBandHeader)
        ensures
            Self::spec_wire_list(s.push(t)).len() == Self::spec_wire_list(s).len() + t.wire().len(),
    {
        assert(s.push(t).drop_last() =~= s);
        assert(s.push(t).last() == t);
    }

    /// What a run of bands decodes to, after those in `acc`: the bands of `acc`,
    /// then bands that hold what the wire format can carry. Together the new ones
    /// are as long on the wire as the bytes that were decoded.
    #[verifier::rlimit(100)]
    pub proof fn lemma_list_decoded(b: Seq<u8>, pos: int, acc: Seq<MeterBandHeader>, n0: int)
        requires
            0 <= pos <= b.len(),
            0 <= n0 <= acc.len(),
            forall|i: int| n0 <= i < acc.len() ==> (#[trigger] acc[i]).wf(),
            Self::spec_parse_list(b, pos, acc) is Ok,
        ensures
            ({
                let r = Self::spec_parse_list(b, pos, acc)->Ok_0;
                &&& r.len() >= acc.len()
                &&& r.subrange(0, acc.len() as int) == acc
                &&& forall|i: int| n0 <= i < r.len() ==> (#[trigger] r[i]).wf()
                &&& Self::spec_wire_list(r).len() == Self::spec_wire_list(acc).len() + b.len() - pos
            }),
        decreases b.len() - pos,
    {
        if pos >= b.len() {
            assert(acc.subrange(0, acc.len() as int) =~= acc);
        } else {
            let n = Self::spec_read_len(b, pos)->Ok_0 as int;
            let block = b.subrange(pos, pos + n);
            let t = Self::spec_try_from(block)->Ok_0;
            assert(t.wf() && t.wire().len() == n) by {
                Self::lemma_decoded(block);
            }
            let acc2 = acc.push(t);
            assert forall|i: int| n0 <= i < acc2.len() implies (#[trigger] acc2[i]).wf() by {
                if i < acc.len() {
                    assert(acc2[i] == acc[i]);
                }
            }
            Self::lemma_list_decoded(b, pos + n, acc2, n0);
            Self::lemma_wire_list_len(acc, t);
            let r = Self::spec_parse_list(b, pos, acc)->Ok_0;
            assert(r.subrange(0, acc.len() as int) =~= acc) by {
                assert(r.subrange(0, acc2.len() as int) == acc2);
                assert forall|i: int| 0 <= i < acc.len() implies r[i] == acc[i] by {
                    assert(r.subrange(0, acc2.len() as int)[i] == r[i]);
                    assert(acc2[i] == acc[i]);
                }
            }
        }
    }
}

/// Sets up or changes a meter.
#[derive(Debug, PartialEq, Eq, Clone)]
pub struct MeterMod {
    /// What to do.
    pub command: MeterModCommand,
    /// Bitmap of flags.
    pub flags: MeterFlags,
    /// The meter.
    pub meter_id: u32,
    /// The bands of the meter.
    pub bands: Vec<MeterBandHeader>,
}

/// The mathematical value of `MeterMod`.
pub struct MeterModView {
    /// What to do.
    pub command: MeterModCommand,
    /// Bitmap of flags.
    pub flags: MeterFlags,
    /// The meter.
    pub meter_id: u32,
    /// The bands of the meter.
    pub bands: Seq<MeterBandHeader>,
}

impl View for MeterMod {
    type V = MeterModView;

    open spec fn view(&self) -> MeterModView {
        MeterModView {
            command: self.command,
            flags: self.flags,
            meter_id: self.meter_id,
            bands: self.bands@,
        }
    }
}

impl MeterModView {
    /// The bytes on the wire; padding is zero.
    pub open spec fn wire(self) -> Seq<u8> {
        spec_u16_bytes(self.command.spec_to_u16())
            + spec_u16_bytes(self.flags.bits)
            + spec_u32_bytes(self.meter_id)
            + MeterBandHeader::spec_wire_list(self.bands)
    }

    /// Every part holds what the wire format can carry.
    pub open spec fn wf(self) -> bool {
        &&& self.flags.wf()
        &&& forall|i: int| 0 <= i < self.bands.len() ==> (#[trigger] self.bands[i]).wf()
    }

    /// What is read at the offsets of the fixed part of the wire form: the fields,
    /// and after the 8 bytes of the fixed part what follows it.
    #[verifier::rlimit(60)]
    pub proof fn lemma_fixed_part(self)
        ensures
            ({
                let w = self.wire();
                &&& w.len() >= 8
                &&& w.subrange(8, w.len() as int) == MeterBandHeader::spec_wire_list(self.bands)
                &&& spec_u16_at(w, 0) == self.command.spec_to_u16()
                &&& spec_u16_at(w, 2) == self.flags.bits
                &&& spec_u32_at(w, 4) == self.meter_id
            }),
    {
        let w = self.wire();
        let h = spec_u16_bytes(self.command.spec_to_u16())
            + spec_u16_bytes(self.flags.bits)
            + spec_u32_bytes(self.meter_id);
        let t = MeterBandHeader::spec_wire_list(self.bands);
        assert(h.len() == 8);
        assert(w =~= h + t);
        assert(spec_u16_at(w, 0) == self.command.spec_to_u16()) by {
            assert(w[0] == h[0] && w[1] == h[1]);
            lemma_u16_at_bytes(h, 0, self.command.spec_to_u16());
        }
        assert(spec_u16_at(w, 2) == self.flags.bits) by {
            assert(w[2] == h[2] && w[3] == h[3]);
            lemma_u16_at_bytes(h, 2, self.flags.bits);
        }
        assert(spec_u32_at(w, 4) == self.meter_id) by {
            assert(w[4] == h[4] && w[5] == h[5] && w[6] == h[6] && w[7] == h[7]);
            lemma_u32_at_bytes(h, 4, self.meter_id);
        }
        assert(w.subrange(8, w.len() as int) =~= t);
    }

    /// Decoding the wire form gives the value back.
    #[verifier::rlimit(60)]
    pub proof fn lemma_roundtrip(self)
        requires
            self.wf(),
        ensures
            MeterMod::spec_try_from(self.wire()) == Ok::<MeterModView, Error>(self),
    {
        reveal(MeterMod::spec_try_from);
        let w = self.wire();
        self.lemma_fixed_part();
        self.command.lemma_wire_value();
        let t = w.subrange(8, w.len() as int);
        let sub = w.subrange(8, w.len() as int);
        assert(sub == MeterBandHeader::spec_wire_list(self.bands)) by {
            assert(sub =~= t.subrange(0, t.len() as int));
            assert(t.subrange(0, t.len() as int) =~= MeterBandHeader::spec_wire_list(self.bands));
        }
        assert(MeterBandHeader::spec_parse_list(sub, 0, Seq::empty()) == Ok::<Seq<MeterBandHeader>, Error>(self.bands)) by {
            assert(sub.subrange(0, sub.len() as int) =~= sub);
            MeterBandHeader::lemma_list_roundtrip(sub, 0, Seq::empty(), self.bands);
            assert(Seq::<MeterBandHeader>::empty() + self.bands =~= self.bands);
        }
    }
}

impl MeterMod {
    /// What `b` decodes to. The slice must hold the 8 bytes of the fixed part;
    /// then every part is decoded in wire order, and the first failure is the result.
    #[verifier::opaque]
    pub open spec fn spec_try_from(b: Seq<u8>) -> Result<MeterModView, Error> {
        if b.len() < 8 {
            Err(Error::InvalidSliceLength(8, b.len() as usize, "MeterMod"))
        } else {
            match MeterModCommand::spec_decode(spec_u16_at(b, 0)) {
                Err(e) => Err(e),
                Ok(command) => match MeterFlags::spec_decode(spec_u16_at(b, 2)) {
                    Err(e) => Err(e),
                    Ok(flags) => match MeterBandHeader::spec_parse_list(b.subrange(8, b.len() as int), 0, Seq::empty()) {
                        Err(e) => Err(e),
                        Ok(bands) => Ok(
                            MeterModView {
                                command,
                                flags,
                                meter_id: spec_u32_at(b, 4),
                                bands,
                            },
                        ),
                    },
                },
            }
        }
    }

    /// Decodes a `MeterMod`.
    pub fn try_from(bytes: &[u8]) -> (res: Result<MeterMod, Error>)
        ensures
            match res {
                Ok(m) => Self::spec_try_from(bytes@) == Ok::<MeterModView, Error>(m@),
                Err(e) => Self::spec_try_from(bytes@) == Err::<MeterModView, Error>(e),
            },
    {
        proof {
            reveal(MeterMod::spec_try_from);
        }
        if bytes.len() < 8 {
            return Err(Error::InvalidSliceLength(8, bytes.len(), "MeterMod"));
        }
        let command = match MeterModCommand::decode(get_u16(bytes, 0)) {
            Ok(v) => v,
            Err(e) => return Err(e),
        };
        let flags = match MeterFlags::decode(get_u16(bytes, 2)) {
            Ok(v) => v,
            Err(e) => return Err(e),
        };
        let meter_id: u32 = get_u32(bytes, 4);
        let pos: usize = 8;
        let bands = match MeterBandHeader::parse_list(slice_subrange(bytes, pos, bytes.len())) {
            Ok(v) => v,
            Err(e) => return Err(e),
        };
        Ok(MeterMod {
            command,
            flags,
            meter_id,
            bands,
        })
    }

    /// Appends the wire form to `out`.
    pub fn encode(&self, out: &mut Vec<u8>)
        ensures
            final(out)@ == old(out)@ + self@.wire(),
    {
        put_u16(out, self.command.to_u16());
        put_u16(out, self.flags.bits);
        put_u32(out, self.meter_id);
        MeterBandHeader::encode_list(&self.bands, out);
        assert(out@ =~= old(out)@ + self@.wire());
    }

    /// The wire form as a vector of its own.
    pub fn into_bytes(&self) -> (res: Vec<u8>)
        ensures
            res@ == self@.wire(),
    {
        let mut out: Vec<u8> = Vec::new();
        self.encode(&mut out);
        out
    }

    /// What a slice decodes to holds what the wire format can carry, and is as
    /// long on the wire as the slice.
    #[verifier::rlimit(60)]
    pub proof fn lemma_decoded(b: Seq<u8>)
        requires
            Self::spec_try_from(b) is Ok,
        ensures
            Self::spec_try_from(b)->Ok_0.wf(),
            Self::spec_try_from(b)->Ok_0.wire().len() == b.len(),
    {
        reveal(MeterMod::spec_try_from);
        MeterBandHeader::lemma_list_decoded(b.subrange(8, b.len() as int), 0, Seq::empty(), 0);
    }

    /// Encoding what a slice decodes to gives as many bytes as the slice has, and
    /// these decode to the same value: only padding can differ.
    pub proof fn lemma_reencode(b: Seq<u8>)
        requires
            Self::spec_try_from(b) is Ok,
        ensures
            Self::spec_try_from(b)->Ok_0.wire().len() == b.len(),
            Self::spec_try_from(Self::spec_try_from(b)->Ok_0.wire()) == Self::spec_try_from(b),
    {
        Self::lemma_decoded(b);
        Self::spec_try_from(b)->Ok_0.lemma_roundtrip();
    }
}

} // verus!
