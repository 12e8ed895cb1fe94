//! Actions: what a switch does to a packet.

use crate::err::Error;
use crate::ds::flow_match::{EtherType, TlvMatch};
use crate::ds::ports::PortNumber;
use crate::wire::{
    get_u16, get_u32, lemma_u16_at_bytes, lemma_u32_at_bytes, put_u16, put_u32, put_zeros,
    spec_u16_at, spec_u16_bytes, spec_u32_at, spec_u32_bytes, zeros, spec_pad_len, pad_len,
    spec_len,
};
use vstd::prelude::*;
use vstd::slice::slice_subrange;

verus! {

/// The kinds of action.
#[derive(Debug, PartialEq, Eq, Clone, Copy)]
pub enum ActionType {
    /// Send the packet out of a port.
    Output,
    /// Copy the TTL "outwards", from next-to-outermost to outermost.
    CopyTtlOut,
    /// Copy the TTL "inwards", from outermost to next-to-outermost.
    CopyTtlIn,
    /// Set the MPLS TTL.
    SetMplsTtl,
    /// Decrement the MPLS TTL.
    DecMplsTtl,
    /// Push a new VLAN tag.
    PushVlan,
    /// Pop the outer VLAN tag.
    PopVlan,
    /// Push a new MPLS tag.
    PushMpls,
    /// Pop the outer MPLS tag.
    PopMpls,
    /// Set the queue id when outputting to a port.
    SetQueue,
    /// Apply a group.
    Group,
    /// Set the IP TTL.
    SetNwTtl,
    /// Decrement the IP TTL.
    DecNwTtl,
    /// Set a header field, given as an OXM TLV.
    SetField,
    /// Push a new PBB service tag.
    PushPbb,
    /// Pop the outer PBB service tag.
    PopPbb,
}

impl ActionType {
    /// The variant whose wire value is `raw`, if there is one.
    pub open spec fn spec_from_u16(raw: u16) -> Option<ActionType> {
        match raw {
            0 => Some(ActionType::Output),
            11 => Some(ActionType::CopyTtlOut),
            12 => Some(ActionType::CopyTtlIn),
            15 => Some(ActionType::SetMplsTtl),
            16 => Some(ActionType::DecMplsTtl),
            17 => Some(ActionType::PushVlan),
            18 => Some(ActionType::PopVlan),
            19 => Some(ActionType::PushMpls),
            20 => Some(ActionType::PopMpls),
            21 => Some(ActionType::SetQueue),
            22 => Some(ActionType::Group),
            23 => Some(ActionType::SetNwTtl),
            24 => Some(ActionType::DecNwTtl),
            25 => Some(ActionType::SetField),
            26 => Some(ActionType::PushPbb),
            27 => Some(ActionType::PopPbb),
            _ => None,
        }
    }

    /// The variant whose wire value is `raw`, if there is one.
    pub fn from_u16(raw: u16) -> (res: Option<ActionType>)
        ensures
            res == Self::spec_from_u16(raw),
    {
        match raw {
            0 => Some(ActionType::Output),
            11 => Some(ActionType::CopyTtlOut),
            12 => Some(ActionType::CopyTtlIn),
            15 => Some(ActionType::SetMplsTtl),
            16 => Some(ActionType::DecMplsTtl),
            17 => Some(ActionType::PushVlan),
            18 => Some(ActionType::PopVlan),
            19 => Some(ActionType::PushMpls),
            20 => Some(ActionType::PopMpls),
            21 => Some(ActionType::SetQueue),
            22 => Some(ActionType::Group),
            23 => Some(ActionType::SetNwTtl),
            24 => Some(ActionType::DecNwTtl),
            25 => Some(ActionType::SetField),
            26 => Some(ActionType::PushPbb),
            27 => Some(ActionType::PopPbb),
            _ => None,
        }
    }

    /// The wire value of the variant.
    pub open spec fn spec_to_u16(self) -> u16 {
        match self {
            ActionType::Output => 0,
            ActionType::CopyTtlOut => 11,
            ActionType::CopyTtlIn => 12,
            ActionType::SetMplsTtl => 15,
            ActionType::DecMplsTtl => 16,
            ActionType::PushVlan => 17,
            ActionType::PopVlan => 18,
            ActionType::PushMpls => 19,
            ActionType::PopMpls => 20,
            ActionType::SetQueue => 21,
            ActionType::Group => 22,
            ActionType::SetNwTtl => 23,
            ActionType::DecNwTtl => 24,
            ActionType::SetField => 25,
            ActionType::PushPbb => 26,
            ActionType::PopPbb => 27,
        }
    }

    /// The wire value of the variant.
    pub fn to_u16(&self) -> (r: u16)
        ensures
            r == self.spec_to_u16(),
    {
        match self {
            ActionType::Output => 0,
            ActionType::CopyTtlOut => 11,
            ActionType::CopyTtlIn => 12,
            ActionType::SetMplsTtl => 15,
            ActionType::DecMplsTtl => 16,
            ActionType::PushVlan => 17,
            ActionType::PopVlan => 18,
            ActionType::PushMpls => 19,
            ActionType::PopMpls => 20,
            ActionType::SetQueue => 21,
            ActionType::Group => 22,
            ActionType::SetNwTtl => 23,
            ActionType::DecNwTtl => 24,
            ActionType::SetField => 25,
            ActionType::PushPbb => 26,
            ActionType::PopPbb => 27,
        }
    }

    /// What decoding `raw` gives: its variant, or `UnknownEnum` with the value.
    pub open spec fn spec_decode(raw: u16) -> Result<ActionType, Error> {
        match Self::spec_from_u16(raw) {
            Some(v) => Ok(v),
            None => Err(Error::UnknownEnum(raw as u64, "ActionType")),
        }
    }

    /// Decodes a wire value; an unknown one is an `UnknownEnum` error.
    pub fn decode(raw: u16) -> (res: Result<ActionType, Error>)
        ensures
            res == Self::spec_decode(raw),
    {
        match Self::from_u16(raw) {
            Some(v) => Ok(v),
            None => Err(Error::UnknownEnum(raw as u64, "ActionType")),
        }
    }

    /// Every variant is what its own wire value decodes to, and only that
    /// value decodes to it.
    pub proof fn lemma_wire_value(self)
        ensures
            Self::spec_decode(self.spec_to_u16()) == Ok::<ActionType, Error>(self),
            forall|raw: u16| Self::spec_from_u16(raw) == Some(self) ==> raw == self.spec_to_u16(),
    {
    }
}

/// Length of the type and length fields that open an action.
pub const ACTION_HEADER_LEN: u16 = 4;

/// Length of the body of an output action.
pub const PAYLOAD_OUTPUT_LEN: u16 = 12;

/// The body of the action: send the packet out of a port.
#[derive(Debug, PartialEq, Eq, Clone, Copy)]
pub struct PayloadOutput {
    /// The port to send the packet out of.
    pub port: PortNumber,
    /// How many bytes to send to the controller at most.
    pub max_len: u16,
}

impl PayloadOutput {
    /// Every field holds a value that the wire format can carry.
    pub open spec fn wf(self) -> bool {
        &&& self.port.wf()
    }

    /// What `b` decodes to: a slice of another length than 12 is refused, then
    /// each field is decoded in wire order and the first failure is the result.
    pub open spec fn spec_try_from(b: Seq<u8>) -> Result<PayloadOutput, Error> {
        if b.len() != 12 {
            Err(Error::InvalidSliceLength(12, b.len() as usize, "PayloadOutput"))
        } else {
            match PortNumber::spec_try_from(spec_u32_at(b, 0)) {
                Err(e) => Err(e),
                Ok(port) => Ok(PayloadOutput { port, max_len: spec_u16_at(b, 4) }),
            }
        }
    }

    /// Decodes the 12 bytes of a `PayloadOutput`.
    pub fn try_from(bytes: &[u8]) -> (res: Result<PayloadOutput, Error>)
        ensures
            res == Self::spec_try_from(bytes@),
    {
        if bytes.len() != 12 {
            return Err(Error::InvalidSliceLength(12, bytes.len(), "PayloadOutput"));
        }
        let port = match PortNumber::try_from(get_u32(bytes, 0)) {
            Ok(v) => v,
            Err(e) => return Err(e),
        };
        let max_len: u16 = get_u16(bytes, 4);
        Ok(PayloadOutput { port, max_len })
    }

    /// The 12 bytes of the record on the wire; padding is zero.
    pub open spec fn wire(self) -> Seq<u8> {
        spec_u32_bytes(self.port.spec_to_u32())
            + spec_u16_bytes(self.max_len)
            + zeros(6)
    }

    /// Appends the wire form to `out`.
    pub fn encode(&self, out: &mut Vec<u8>)
        ensures
            final(out)@ == old(out)@ + self.wire(),
    {
        put_u32(out, self.port.to_u32());
        put_u16(out, self.max_len);
        put_zeros(out, 6);
        assert(out@ =~= old(out)@ + self.wire());
    }

    /// The wire form as a vector of its own.
    pub fn into_bytes(&self) -> (res: Vec<u8>)
        ensures
            res@ == self.wire(),
    {
        let mut out: Vec<u8> = Vec::new();
        self.encode(&mut out);
        out
    }

    /// The wire form is 12 bytes long, and decoding it gives the record back.
    pub proof fn lemma_roundtrip(self)
        requires
            self.wf(),
        ensures
            self.wire().len() == 12,
            Self::spec_try_from(self.wire()) == Ok::<PayloadOutput, Error>(self),
    {
        let w = self.wire();
        assert(spec_u32_at(w, 0) == self.port.spec_to_u32()) by {
            lemma_u32_at_bytes(w, 0, self.port.spec_to_u32());
        }
        self.port.lemma_wire_value();
        assert(spec_u16_at(w, 4) == self.max_len) by {
            lemma_u16_at_bytes(w, 4, self.max_len);
        }
    }

    /// What a slice decodes to holds what the wire format can carry, and is as
    /// long on the wire as the slice.
    pub proof fn lemma_decoded(b: Seq<u8>)
        requires
            Self::spec_try_from(b) is Ok,
        ensures
            Self::spec_try_from(b)->Ok_0.wf(),
            Self::spec_try_from(b)->Ok_0.wire().len() == b.len(),
    {
    }
}

/// The body of the action: copy the TTL "outwards", from next-to-outermost to outermost.
#[derive(Debug, PartialEq, Eq, Clone, Copy)]
pub struct PayloadCopyTtlOut {}

impl PayloadCopyTtlOut {
    /// Every field holds a value that the wire format can carry.
    pub open spec fn wf(self) -> bool {
        true
    }

    /// What `b` decodes to: a slice of another length than 4 is refused, then
    /// each field is decoded in wire order and the first failure is the result.
    pub open spec fn spec_try_from(b: Seq<u8>) -> Result<PayloadCopyTtlOut, Error> {
        if b.len() != 4 {
            Err(Error::InvalidSliceLength(4, b.len() as usize, "PayloadCopyTtlOut"))
        } else {
            Ok(PayloadCopyTtlOut {})
        }
    }

    /// Decodes the 4 bytes of a `PayloadCopyTtlOut`.
    pub fn try_from(bytes: &[u8]) -> (res: Result<PayloadCopyTtlOut, Error>)
        ensures
            res == Self::spec_try_from(bytes@),
    {
        if bytes.len() != 4 {
            return Err(Error::InvalidSliceLength(4, bytes.len(), "PayloadCopyTtlOut"));
        }
        Ok(PayloadCopyTtlOut { })
    }

    /// The 4 bytes of the record on the wire; padding is zero.
    pub open spec fn wire(self) -> Seq<u8> {
        zeros(4)
    }

    /// Appends the wire form to `out`.
    pub fn encode(&self, out: &mut Vec<u8>)
        ensures
            final(out)@ == old(out)@ + self.wire(),
    {
        put_zeros(out, 4);
        assert(out@ =~= old(out)@ + self.wire());
    }

    /// The wire form as a vector of its own.
    pub fn into_bytes(&self) -> (res: Vec<u8>)
        ensures
            res@ == self.wire(),
    {
        let mut out: Vec<u8> = Vec::new();
        self.encode(&mut out);
        out
    }

    /// The wire form is 4 bytes long, and decoding it gives the record back.
    pub proof fn lemma_roundtrip(self)
        requires
            self.wf(),
        ensures
            self.wire().len() == 4,
            Self::spec_try_from(self.wire()) == Ok::<PayloadCopyTtlOut, Error>(self),
    {
        let w = self.wire();
    }

    /// What a slice decodes to holds what the wire format can carry, and is as
    /// long on the wire as the slice.
    pub proof fn lemma_decoded(b: Seq<u8>)
        requires
            Self::spec_try_from(b) is Ok,
        ensures
            Self::spec_try_from(b)->Ok_0.wf(),
            Self::spec_try_from(b)->Ok_0.wire().len() == b.len(),
    {
    }
}

/// The body of the action: copy the TTL "inwards", from outermost to next-to-outermost.
#[derive(Debug, PartialEq, Eq, Clone, Copy)]
pub struct PayloadCopyTtlIn {}

impl PayloadCopyTtlIn {
    /// Every field holds a value that the wire format can carry.
    pub open spec fn wf(self) -> bool {
        true
    }

    /// What `b` decodes to: a slice of another length than 4 is refused, then
    /// each field is decoded in wire order and the first failure is the result.
    pub open spec fn spec_try_from(b: Seq<u8>) -> Result<PayloadCopyTtlIn, Error> {
        if b.len() != 4 {
            Err(Error::InvalidSliceLength(4, b.len() as usize, "PayloadCopyTtlIn"))
        } else {
            Ok(PayloadCopyTtlIn {})
        }
    }

    /// Decodes the 4 bytes of a `PayloadCopyTtlIn`.
    pub fn try_from(bytes: &[u8]) -> (res: Result<PayloadCopyTtlIn, Error>)
        ensures
            res == Self::spec_try_from(bytes@),
    {
        if bytes.len() != 4 {
            return Err(Error::InvalidSliceLength(4, bytes.len(), "PayloadCopyTtlIn"));
        }
        Ok(PayloadCopyTtlIn { })
    }

    /// The 4 bytes of the record on the wire; padding is zero.
    pub open spec fn wire(self) -> Seq<u8> {
        zeros(4)
    }

    /// Appends the wire form to `out`.
    pub fn encode(&self, out: &mut Vec<u8>)
        ensures
            final(out)@ == old(out)@ + self.wire(),
    {
        put_zeros(out, 4);
        assert(out@ =~= old(out)@ + self.wire());
    }

    /// The wire form as a vector of its own.
    pub fn into_bytes(&self) -> (res: Vec<u8>)
        ensures
            res@ == self.wire(),
    {
        let mut out: Vec<u8> = Vec::new();
        self.encode(&mut out);
        out
    }

    /// The wire form is 4 bytes long, and decoding it gives the record back.
    pub proof fn lemma_roundtrip(self)
        requires
            self.wf(),
        ensures
            self.wire().len() == 4,
            Self::spec_try_from(self.wire()) == Ok::<PayloadCopyTtlIn, Error>(self),
    {
        let w = self.wire();
    }

    /// What a slice decodes to holds what the wire format can carry, and is as
    /// long on the wire as the slice.
    pub proof fn lemma_decoded(b: Seq<u8>)
        requires
            Self::spec_try_from(b) is Ok,
        ensures
            Self::spec_try_from(b)->Ok_0.wf(),
            Self::spec_try_from(b)->Ok_0.wire().len() == b.len(),
    {
    }
}

/// The body of the action: set the MPLS TTL.
#[derive(Debug, PartialEq, Eq, Clone, Copy)]
pub struct PayloadSetMplsTtl {
    /// The MPLS TTL.
    pub mpls_ttl: u8,
}

impl PayloadSetMplsTtl {
    /// Every field holds a value that the wire format can carry.
    pub open spec fn wf(self) -> bool {
        true
    }

    /// What `b` decodes to: a slice of another length than 4 is refused, then
    /// each field is decoded in wire order and the first failure is the result.
    pub open spec fn spec_try_from(b: Seq<u8>) -> Result<PayloadSetMplsTtl, Error> {
        if b.len() != 4 {
            Err(Error::InvalidSliceLength(4, b.len() as usize, "PayloadSetMplsTtl"))
        } else {
            Ok(PayloadSetMplsTtl { mpls_ttl: b[0] })
        }
    }

    /// Decodes the 4 bytes of a `PayloadSetMplsTtl`.
    pub fn try_from(bytes: &[u8]) -> (res: Result<PayloadSetMplsTtl, Error>)
        ensures
            res == Self::spec_try_from(bytes@),
    {
        if bytes.len() != 4 {
            return Err(Error::InvalidSliceLength(4, bytes.len(), "PayloadSetMplsTtl"));
        }
        let mpls_ttl: u8 = bytes[0];
        Ok(PayloadSetMplsTtl { mpls_ttl })
    }

    /// The 4 bytes of the record on the wire; padding is zero.
    pub open spec fn wire(self) -> Seq<u8> {
        seq![self.mpls_ttl]
            + zeros(3)
    }

    /// Appends the wire form to `out`.
    pub fn encode(&self, out: &mut Vec<u8>)
        ensures
            final(out)@ == old(out)@ + self.wire(),
    {
        out.push(self.mpls_ttl);
        put_zeros(out, 3);
        assert(out@ =~= old(out)@ + self.wire());
    }

    /// The wire form as a vector of its own.
    pub fn into_bytes(&self) -> (res: Vec<u8>)
        ensures
            res@ == self.wire(),
    {
        let mut out: Vec<u8> = Vec::new();
        self.encode(&mut out);
        out
    }

    /// The wire form is 4 bytes long, and decoding it gives the record back.
    pub proof fn lemma_roundtrip(self)
        requires
            self.wf(),
        ensures
            self.wire().len() == 4,
            Self::spec_try_from(self.wire()) == Ok::<PayloadSetMplsTtl, Error>(self),
    {
        let w = self.wire();
        assert(w[0] == self.mpls_ttl);
    }

    /// What a slice decodes to holds what the wire format can carry, and is as
    /// long on the wire as the slice.
    pub proof fn lemma_decoded(b: Seq<u8>)
        requires
            Self::spec_try_from(b) is Ok,
        ensures
            Self::spec_try_from(b)->Ok_0.wf(),
            Self::spec_try_from(b)->Ok_0.wire().len() == b.len(),
    {
    }
}

/// The body of the action: decrement the MPLS TTL.
#[derive(Debug, PartialEq, Eq, Clone, Copy)]
pub struct PayloadDecMplsTtl {}

impl PayloadDecMplsTtl {
    /// Every field holds a value that the wire format can carry.
    pub open spec fn wf(self) -> bool {
        true
    }

    /// What `b` decodes to: a slice of another length than 4 is refused, then
    /// each field is decoded in wire order and the first failure is the result.
    pub open spec fn spec_try_from(b: Seq<u8>) -> Result<PayloadDecMplsTtl, Error> {
        if b.len() != 4 {
            Err(Error::InvalidSliceLength(4, spec_len(b), "PayloadDecMplsTtl"))
        } else {
            Ok(PayloadDecMplsTtl {})
        }
    }

    /// Decodes the 4 bytes of a `PayloadDecMplsTtl`.
    pub fn try_from(bytes: &[u8]) -> (res: Result<PayloadDecMplsTtl, Error>)
        ensures
            res == Self::spec_try_from(bytes@),
    {
        if bytes.len() != 4 {
            return Err(Error::InvalidSliceLength(4, bytes.len(), "PayloadDecMplsTtl"));
        }
        Ok(PayloadDecMplsTtl { })
    }

    /// The 4 bytes of the record on the wire; padding is zero.
    pub open spec fn wire(self) -> Seq<u8> {
        zeros(4)
    }

    /// Appends the wire form to `out`.
    pub fn encode(&self, out: &mut Vec<u8>)
        ensures
            final(out)@ == old(out)@ + self.wire(),
    {
        put_zeros(out, 4);
        assert(out@ =~= old(out)@ + self.wire());
    }

    /// The wire form as a vector of its own.
    pub fn into_bytes(&self) -> (res: Vec<u8>)
        ensures
            res@ == self.wire(),
    {
        let mut out: Vec<u8> = Vec::new();
        self.encode(&mut out);
        out
    }

    /// The wire form is 4 bytes long, and decoding it gives the record back.
    pub proof fn lemma_roundtrip(self)
        requires
            self.wf(),
        ensures
            self.wire().len() == 4,
            Self::spec_try_from(self.wire()) == Ok::<PayloadDecMplsTtl, Error>(self),
    {
        let w = self.wire();
    }

    /// What a slice decodes to holds what the wire format can carry, and is as
    /// long on the wire as the slice.
    pub proof fn lemma_decoded(b: Seq<u8>)
        requires
            Self::spec_try_from(b) is Ok,
        ensures
            Self::spec_try_from(b)->Ok_0.wf(),
            Self::spec_try_from(b)->Ok_0.wire().len() == b.len(),
    {
    }
}

/// The body of the action: push a new VLAN tag.
#[derive(Debug, PartialEq, Eq, Clone, Copy)]
pub struct PayloadPushVlan {
    /// The Ethernet type of the new tag.
    pub ethertype: EtherType,
}

impl PayloadPushVlan {
    /// Every field holds a value that the wire format can carry.
    pub open spec fn wf(self) -> bool {
        true
    }

    /// What `b` decodes to: a slice of another length than 4 is refused, then
    /// each field is decoded in wire order and the first failure is the result.
    pub open spec fn spec_try_from(b: Seq<u8>) -> Result<PayloadPushVlan, Error> {
        if b.len() != 4 {
            Err(Error::InvalidSliceLength(4, b.len() as usize, "PayloadPushVlan"))
        } else {
            match EtherType::spec_decode(spec_u16_at(b, 0)) {
                Err(e) => Err(e),
                Ok(ethertype) => Ok(PayloadPushVlan { ethertype }),
            }
        }
    }

    /// Decodes the 4 bytes of a `PayloadPushVlan`.
    pub fn try_from(bytes: &[u8]) -> (res: Result<PayloadPushVlan, Error>)
        ensures
            res == Self::spec_try_from(bytes@),
    {
        if bytes.len() != 4 {
            return Err(Error::InvalidSliceLength(4, bytes.len(), "PayloadPushVlan"));
        }
        let ethertype = match EtherType::decode(get_u16(bytes, 0)) {
            Ok(v) => v,
            Err(e) => return Err(e),
        };
        Ok(PayloadPushVlan { ethertype })
    }

    /// The 4 bytes of the record on the wire; padding is zero.
    pub open spec fn wire(self) -> Seq<u8> {
        spec_u16_bytes(self.ethertype.spec_to_u16())
            + zeros(2)
    }

    /// Appends the wire form to `out`.
    pub fn encode(&self, out: &mut Vec<u8>)
        ensures
            final(out)@ == old(out)@ + self.wire(),
    {
        put_u16(out, self.ethertype.to_u16());
        put_zeros(out, 2);
        assert(out@ =~= old(out)@ + self.wire());
    }

    /// The wire form as a vector of its own.
    pub fn into_bytes(&self) -> (res: Vec<u8>)
        ensures
            res@ == self.wire(),
    {
        let mut out: Vec<u8> = Vec::new();
        self.encode(&mut out);
        out
    }

    /// The wire form is 4 bytes long, and decoding it gives the record back.
    pub proof fn lemma_roundtrip(self)
        requires
            self.wf(),
        ensures
            self.wire().len() == 4,
            Self::spec_try_from(self.wire()) == Ok::<PayloadPushVlan, Error>(self),
    {
        let w = self.wire();
        assert(spec_u16_at(w, 0) == self.ethertype.spec_to_u16()) by {
            lemma_u16_at_bytes(w, 0, self.ethertype.spec_to_u16());
        }
        self.ethertype.lemma_wire_value();
    }

    /// What a slice decodes to holds what the wire format can carry, and is as
    /// long on the wire as the slice.
    pub proof fn lemma_decoded(b: Seq<u8>)
        requires
            Self::spec_try_from(b) is Ok,
        ensures
            Self::spec_try_from(b)->Ok_0.wf(),
            Self::spec_try_from(b)->Ok_0.wire().len() == b.len(),
    {
    }
}

/// The body of the action: pop the outer VLAN tag.
#[derive(Debug, PartialEq, Eq, Clone, Copy)]
pub struct PayloadPopVlan {}

impl PayloadPopVlan {
    /// Every field holds a value that the wire format can carry.
    pub open spec fn wf(self) -> bool {
        true
    }

    /// What `b` decodes to: a slice of another length than 4 is refused, then
    /// each field is decoded in wire order and the first failure is the result.
    pub open spec fn spec_try_from(b: Seq<u8>) -> Result<PayloadPopVlan, Error> {
        if b.len() != 4 {
            Err(Error::InvalidSliceLength(4, b.len() as usize, "PayloadPopVlan"))
        } else {
            Ok(PayloadPopVlan {})
        }
    }

    /// Decodes the 4 bytes of a `PayloadPopVlan`.
    pub fn try_from(bytes: &[u8]) -> (res: Result<PayloadPopVlan, Error>)
        ensures
            res == Self::spec_try_from(bytes@),
    {
        if bytes.len() != 4 {
            return Err(Error::InvalidSliceLength(4, bytes.len(), "PayloadPopVlan"));
        }
        Ok(PayloadPopVlan { })
    }

    /// The 4 bytes of the record on the wire; padding is zero.
    pub open spec fn wire(self) -> Seq<u8> {
        zeros(4)
    }

    /// Appends the wire form to `out`.
    pub fn encode(&self, out: &mut Vec<u8>)
        ensures
            final(out)@ == old(out)@ + self.wire(),
    {
        put_zeros(out, 4);
        assert(out@ =~= old(out)@ + self.wire());
    }

    /// The wire form as a vector of its own.
    pub fn into_bytes(&self) -> (res: Vec<u8>)
        ensures
            res@ == self.wire(),
    {
        let mut out: Vec<u8> = Vec::new();
        self.encode(&mut out);
        out
    }

    /// The wire form is 4 bytes long, and decoding it gives the record back.
    pub proof fn lemma_roundtrip(self)
        requires
            self.wf(),
        ensures
            self.wire().len() == 4,
            Self::spec_try_from(self.wire()) == Ok::<PayloadPopVlan, Error>(self),
    {
        let w = self.wire();
    }

    /// What a slice decodes to holds what the wire format can carry, and is as
    /// long on the wire as the slice.
    pub proof fn lemma_decoded(b: Seq<u8>)
        requires
            Self::spec_try_from(b) is Ok,
        ensures
            Self::spec_try_from(b)->Ok_0.wf(),
            Self::spec_try_from(b)->Ok_0.wire().len() == b.len(),
    {
    }
}

/// The body of the action: push a new MPLS tag.
#[derive(Debug, PartialEq, Eq, Clone, Copy)]
pub struct PayloadPushMpls {
    /// The Ethernet type of the new tag.
    pub ethertype: EtherType,
}

impl PayloadPushMpls {
    /// Every field holds a value that the wire format can carry.
    pub open spec fn wf(self) -> bool {
        true
    }

    /// What `b` decodes to: a slice of another length than 4 is refused, then
    /// each field is decoded in wire order and the first failure is the result.
    pub open spec fn spec_try_from(b: Seq<u8>) -> Result<PayloadPushMpls, Error> {
        if b.len() != 4 {
            Err(Error::InvalidSliceLength(4, b.len() as usize, "PayloadPushMpls"))
        } else {
            match EtherType::spec_decode(spec_u16_at(b, 0)) {
                Err(e) => Err(e),
                Ok(ethertype) => Ok(PayloadPushMpls { ethertype }),
            }
        }
    }

    /// Decodes the 4 bytes of a `PayloadPushMpls`.
    pub fn try_from(bytes: &[u8]) -> (res: Result<PayloadPushMpls, Error>)
        ensures
            res == Self::spec_try_from(bytes@),
    {
        if bytes.len() != 4 {
            return Err(Error::InvalidSliceLength(4, bytes.len(), "PayloadPushMpls"));
        }
        let ethertype = match EtherType::decode(get_u16(bytes, 0)) {
            Ok(v) => v,
            Err(e) => return Err(e),
        };
        Ok(PayloadPushMpls { ethertype })
    }

    /// The 4 bytes of the record on the wire; padding is zero.
    pub open spec fn wire(self) -> Seq<u8> {
        spec_u16_bytes(self.ethertype.spec_to_u16())
            + zeros(2)
    }

    /// Appends the wire form to `out`.
    pub fn encode(&self, out: &mut Vec<u8>)
        ensures
            final(out)@ == old(out)@ + self.wire(),
    {
        put_u16(out, self.ethertype.to_u16());
        put_zeros(out, 2);
        assert(out@ =~= old(out)@ + self.wire());
    }

    /// The wire form as a vector of its own.
    pub fn into_bytes(&self) -> (res: Vec<u8>)
        ensures
            res@ == self.wire(),
    {
        let mut out: Vec<u8> = Vec::new();
        self.encode(&mut out);
        out
    }

    /// The wire form is 4 bytes long, and decoding it gives the record back.
    pub proof fn lemma_roundtrip(self)
        requires
            self.wf(),
        ensures
            self.wire().len() == 4,
            Self::spec_try_from(self.wire()) == Ok::<PayloadPushMpls, Error>(self),
    {
        let w = self.wire();
        assert(spec_u16_at(w, 0) == self.ethertype.spec_to_u16()) by {
            lemma_u16_at_bytes(w, 0, self.ethertype.spec_to_u16());
        }
        self.ethertype.lemma_wire_value();
    }

    /// What a slice decodes to holds what the wire format can carry, and is as
    /// long on the wire as the slice.
    pub proof fn lemma_decoded(b: Seq<u8>)
        requires
            Self::spec_try_from(b) is Ok,
        ensures
            Self::spec_try_from(b)->Ok_0.wf(),
            Self::spec_try_from(b)->Ok_0.wire().len() == b.len(),
    {
    }
}

/// The body of the action: pop the outer MPLS tag.
#[derive(Debug, PartialEq, Eq, Clone, Copy)]
pub struct PayloadPopMpls {
    /// The Ethernet type of the payload.
    pub ethertype: EtherType,
}

impl PayloadPopMpls {
    /// Every field holds a value that the wire format can carry.
    pub open spec fn wf(self) -> bool {
        true
    }

    /// What `b` decodes to: a slice of another length than 4 is refused, then
    /// each field is decoded in wire order and the first failure is the result.
    pub open spec fn spec_try_from(b: Seq<u8>) -> Result<PayloadPopMpls, Error> {
        if b.len() != 4 {
            Err(Error::InvalidSliceLength(4, b.len() as usize, "PayloadPopMpls"))
        } else {
            match EtherType::spec_decode(spec_u16_at(b, 0)) {
                Err(e) => Err(e),
                Ok(ethertype) => Ok(PayloadPopMpls { ethertype }),
            }
        }
    }

    /// Decodes the 4 bytes of a `PayloadPopMpls`.
    pub fn try_from(bytes: &[u8]) -> (res: Result<PayloadPopMpls, Error>)
        ensures
            res == Self::spec_try_from(bytes@),
    {
        if bytes.len() != 4 {
            return Err(Error::InvalidSliceLength(4, bytes.len(), "PayloadPopMpls"));
        }
        let ethertype = match EtherType::decode(get_u16(bytes, 0)) {
            Ok(v) => v,
            Err(e) => return Err(e),
        };
        Ok(PayloadPopMpls { ethertype })
    }

    /// The 4 bytes of the record on the wire; padding is zero.
    pub open spec fn wire(self) -> Seq<u8> {
        spec_u16_bytes(self.ethertype.spec_to_u16())
            + zeros(2)
    }

    /// Appends the wire form to `out`.
    pub fn encode(&self, out: &mut Vec<u8>)
        ensures
            final(out)@ == old(out)@ + self.wire(),
    {
        put_u16(out, self.ethertype.to_u16());
        put_zeros(out, 2);
        assert(out@ =~= old(out)@ + self.wire());
    }

    /// The wire form as a vector of its own.
    pub fn into_bytes(&self) -> (res: Vec<u8>)
        ensures
            res@ == self.wire(),
    {
        let mut out: Vec<u8> = Vec::new();
        self.encode(&mut out);
        out
    }

    /// The wire form is 4 bytes long, and decoding it gives the record back.
    pub proof fn lemma_roundtrip(self)
        requires
            self.wf(),
        ensures
            self.wire().len() == 4,
            Self::spec_try_from(self.wire()) == Ok::<PayloadPopMpls, Error>(self),
    {
        let w = self.wire();
        assert(spec_u16_at(w, 0) == self.ethertype.spec_to_u16()) by {
            lemma_u16_at_bytes(w, 0, self.ethertype.spec_to_u16());
        }
        self.ethertype.lemma_wire_value();
    }

    /// What a slice decodes to holds what the wire format can carry, and is as
    /// long on the wire as the slice.
    pub proof fn lemma_decoded(b: Seq<u8>)
        requires
            Self::spec_try_from(b) is Ok,
        ensures
            Self::spec_try_from(b)->Ok_0.wf(),
            Self::spec_try_from(b)->Ok_0.wire().len() == b.len(),
    {
    }
}

/// The body of the action: set the queue id when outputting to a port.
#[derive(Debug, PartialEq, Eq, Clone, Copy)]
pub struct PayloadSetQueue {
    /// The id of the queue.
    pub queue_id: u32,
}

impl PayloadSetQueue {
    /// Every field holds a value that the wire format can carry.
    pub open spec fn wf(self) -> bool {
        true
    }

    /// What `b` decodes to: a slice of another length than 4 is refused, then
    /// each field is decoded in wire order and the first failure is the result.
    pub open spec fn spec_try_from(b: Seq<u8>) -> Result<PayloadSetQueue, Error> {
        if b.len() != 4 {
            Err(Error::InvalidSliceLength(4, b.len() as usize, "PayloadSetQueue"))
        } else {
            Ok(PayloadSetQueue { queue_id: spec_u32_at(b, 0) })
        }
    }

    /// Decodes the 4 bytes of a `PayloadSetQueue`.
    pub fn try_from(bytes: &[u8]) -> (res: Result<PayloadSetQueue, Error>)
        ensures
            res == Self::spec_try_from(bytes@),
    {
        if bytes.len() != 4 {
            return Err(Error::InvalidSliceLength(4, bytes.len(), "PayloadSetQueue"));
        }
        let queue_id: u32 = get_u32(bytes, 0);
        Ok(PayloadSetQueue { queue_id })
    }

    /// The 4 bytes of the record on the wire; padding is zero.
    pub open spec fn wire(self) -> Seq<u8> {
        spec_u32_bytes(self.queue_id)
    }

    /// Appends the wire form to `out`.
    pub fn encode(&self, out: &mut Vec<u8>)
        ensures
            final(out)@ == old(out)@ + self.wire(),
    {
        put_u32(out, self.queue_id);
        assert(out@ =~= old(out)@ + self.wire());
    }

    /// The wire form as a vector of its own.
    pub fn into_bytes(&self) -> (res: Vec<u8>)
        ensures
            res@ == self.wire(),
    {
        let mut out: Vec<u8> = Vec::new();
        self.encode(&mut out);
        out
    }

    /// The wire form is 4 bytes long, and decoding it gives the record back.
    pub proof fn lemma_roundtrip(self)
        requires
            self.wf(),
        ensures
            self.wire().len() == 4,
            Self::spec_try_from(self.wire()) == Ok::<PayloadSetQueue, Error>(self),
    {
        let w = self.wire();
        assert(spec_u32_at(w, 0) == self.queue_id) by {
            lemma_u32_at_bytes(w, 0, self.queue_id);
        }
    }

    /// What a slice decodes to holds what the wire format can carry, and is as
    /// long on the wire as the slice.
    pub proof fn lemma_decoded(b: Seq<u8>)
        requires
            Self::spec_try_from(b) is Ok,
        ensures
            Self::spec_try_from(b)->Ok_0.wf(),
            Self::spec_try_from(b)->Ok_0.wire().len() == b.len(),
    {
    }
}

/// The body of the action: apply a group.
#[derive(Debug, PartialEq, Eq, Clone, Copy)]
pub struct PayloadGroup {
    /// The id of the group.
    pub group_id: u32,
}

impl PayloadGroup {
    /// Every field holds a value that the wire format can carry.
    pub open spec fn wf(self) -> bool {
        true
    }

    /// What `b` decodes to: a slice of another length than 4 is refused, then
    /// each field is decoded in wire order and the first failure is the result.
    pub open spec fn spec_try_from(b: Seq<u8>) -> Result<PayloadGroup, Error> {
        if b.len() != 4 {
            Err(Error::InvalidSliceLength(4, b.len() as usize, "PayloadGroup"))
        } else {
            Ok(PayloadGroup { group_id: spec_u32_at(b, 0) })
        }
    }

    /// Decodes the 4 bytes of a `PayloadGroup`.
    pub fn try_from(bytes: &[u8]) -> (res: Result<PayloadGroup, Error>)
        ensures
            res == Self::spec_try_from(bytes@),
    {
        if bytes.len() != 4 {
            return Err(Error::InvalidSliceLength(4, bytes.len(), "PayloadGroup"));
        }
        let group_id: u32 = get_u32(bytes, 0);
        Ok(PayloadGroup { group_id })
    }

    /// The 4 bytes of the record on the wire; padding is zero.
    pub open spec fn wire(self) -> Seq<u8> {
        spec_u32_bytes(self.group_id)
    }

    /// Appends the wire form to `out`.
    pub fn encode(&self, out: &mut Vec<u8>)
        ensures
            final(out)@ == old(out)@ + self.wire(),
    {
        put_u32(out, self.group_id);
        assert(out@ =~= old(out)@ + self.wire());
    }

    /// The wire form as a vector of its own.
    pub fn into_bytes(&self) -> (res: Vec<u8>)
        ensures
            res@ == self.wire(),
    {
        let mut out: Vec<u8> = Vec::new();
        self.encode(&mut out);
        out
    }

    /// The wire form is 4 bytes long, and decoding it gives the record back.
    pub proof fn lemma_roundtrip(self)
        requires
            self.wf(),
        ensures
            self.wire().len() == 4,
            Self::spec_try_from(self.wire()) == Ok::<PayloadGroup, Error>(self),
    {
        let w = self.wire();
        assert(spec_u32_at(w, 0) == self.group_id) by {
            lemma_u32_at_bytes(w, 0, self.group_id);
        }
    }

    /// What a slice decodes to holds what the wire format can carry, and is as
    /// long on the wire as the slice.
    pub proof fn lemma_decoded(b: Seq<u8>)
        requires
            Self::spec_try_from(b) is Ok,
        ensures
            Self::spec_try_from(b)->Ok_0.wf(),
            Self::spec_try_from(b)->Ok_0.wire().len() == b.len(),
    {
    }
}

/// The body of the action: set the IP TTL.
#[derive(Debug, PartialEq, Eq, Clone, Copy)]
pub struct PayloadSetNwTtl {
    /// The IP TTL.
    pub nw_ttl: u8,
}

impl PayloadSetNwTtl {
    /// Every field holds a value that the wire format can carry.
    pub open spec fn wf(self) -> bool {
        true
    }

    /// What `b` decodes to: a slice of another length than 4 is refused, then
    /// each field is decoded in wire order and the first failure is the result.
    pub open spec fn spec_try_from(b: Seq<u8>) -> Result<PayloadSetNwTtl, Error> {
        if b.len() != 4 {
            Err(Error::InvalidSliceLength(4, b.len() as usize, "PayloadSetNwTtl"))
        } else {
            Ok(PayloadSetNwTtl { nw_ttl: b[0] })
        }
    }

    /// Decodes the 4 bytes of a `PayloadSetNwTtl`.
    pub fn try_from(bytes: &[u8]) -> (res: Result<PayloadSetNwTtl, Error>)
        ensures
            res == Self::spec_try_from(bytes@),
    {
        if bytes.len() != 4 {
            return Err(Error::InvalidSliceLength(4, bytes.len(), "PayloadSetNwTtl"));
        }
        let nw_ttl: u8 = bytes[0];
        Ok(PayloadSetNwTtl { nw_ttl })
    }

    /// The 4 bytes of the record on the wire; padding is zero.
    pub open spec fn wire(self) -> Seq<u8> {
        seq![self.nw_ttl]
            + zeros(3)
    }

    /// Appends the wire form to `out`.
    pub fn encode(&self, out: &mut Vec<u8>)
        ensures
            final(out)@ == old(out)@ + self.wire(),
    {
        out.push(self.nw_ttl);
        put_zeros(out, 3);
        assert(out@ =~= old(out)@ + self.wire());
    }

    /// The wire form as a vector of its own.
    pub fn into_bytes(&self) -> (res: Vec<u8>)
        ensures
            res@ == self.wire(),
    {
        let mut out: Vec<u8> = Vec::new();
        self.encode(&mut out);
        out
    }

    /// The wire form is 4 bytes long, and decoding it gives the record back.
    pub proof fn lemma_roundtrip(self)
        requires
            self.wf(),
        ensures
            self.wire().len() == 4,
            Self::spec_try_from(self.wire()) == Ok::<PayloadSetNwTtl, Error>(self),
    {
        let w = self.wire();
        assert(w[0] == self.nw_ttl);
    }

    /// What a slice decodes to holds what the wire format can carry, and is as
    /// long on the wire as the slice.
    pub proof fn lemma_decoded(b: Seq<u8>)
        requires
            Self::spec_try_from(b) is Ok,
        ensures
            Self::spec_try_from(b)->Ok_0.wf(),
            Self::spec_try_from(b)->Ok_0.wire().len() == b.len(),
    {
    }
}

/// The body of the action: decrement the IP TTL.
#[derive(Debug, PartialEq, Eq, Clone, Copy)]
pub struct PayloadDecNwTtl {}

impl PayloadDecNwTtl {
    /// Every field holds a value that the wire format can carry.
    pub open spec fn wf(self) -> bool {
        true
    }

    /// What `b` decodes to: a slice of another length than 4 is refused, then
    /// each field is decoded in wire order and the first failure is the result.
    pub open spec fn spec_try_from(b: Seq<u8>) -> Result<PayloadDecNwTtl, Error> {
        if b.len() != 4 {
            Err(Error::InvalidSliceLength(4, b.len() as usize, "PayloadDecNwTtl"))
        } else {
            Ok(PayloadDecNwTtl {})
        }
    }

    /// Decodes the 4 bytes of a `PayloadDecNwTtl`.
    pub fn try_from(bytes: &[u8]) -> (res: Result<PayloadDecNwTtl, Error>)
        ensures
            res == Self::spec_try_from(bytes@),
    {
        if bytes.len() != 4 {
            return Err(Error::InvalidSliceLength(4, bytes.len(), "PayloadDecNwTtl"));
        }
        Ok(PayloadDecNwTtl { })
    }

    /// The 4 bytes of the record on the wire; padding is zero.
    pub open spec fn wire(self) -> Seq<u8> {
        zeros(4)
    }

    /// Appends the wire form to `out`.
    pub fn encode(&self, out: &mut Vec<u8>)
        ensures
            final(out)@ == old(out)@ + self.wire(),
    {
        put_zeros(out, 4);
        assert(out@ =~= old(out)@ + self.wire());
    }

    /// The wire form as a vector of its own.
    pub fn into_bytes(&self) -> (res: Vec<u8>)
        ensures
            res@ == self.wire(),
    {
        let mut out: Vec<u8> = Vec::new();
        self.encode(&mut out);
        out
    }

    /// The wire form is 4 bytes long, and decoding it gives the record back.
    pub proof fn lemma_roundtrip(self)
        requires
            self.wf(),
        ensures
            self.wire().len() == 4,
            Self::spec_try_from(self.wire()) == Ok::<PayloadDecNwTtl, Error>(self),
    {
        let w = self.wire();
    }

    /// What a slice decodes to holds what the wire format can carry, and is as
    /// long on the wire as the slice.
    pub proof fn lemma_decoded(b: Seq<u8>)
        requires
            Self::spec_try_from(b) is Ok,
        ensures
            Self::spec_try_from(b)->Ok_0.wf(),
            Self::spec_try_from(b)->Ok_0.wire().len() == b.len(),
    {
    }
}

/// The body of the action: push a new PBB service tag.
#[derive(Debug, PartialEq, Eq, Clone, Copy)]
pub struct PayloadPushPbb {
    /// The Ethernet type of the new tag.
    pub ethertype: EtherType,
}

impl PayloadPushPbb {
    /// Every field holds a value that the wire format can carry.
    pub open spec fn wf(self) -> bool {
        true
    }

    /// What `b` decodes to: a slice of another length than 4 is refused, then
    /// each field is decoded in wire order and the first failure is the result.
    pub open spec fn spec_try_from(b: Seq<u8>) -> Result<PayloadPushPbb, Error> {
        if b.len() != 4 {
            Err(Error::InvalidSliceLength(4, b.len() as usize, "PayloadPushPbb"))
        } else {
            match EtherType::spec_decode(spec_u16_at(b, 0)) {
                Err(e) => Err(e),
                Ok(ethertype) => Ok(PayloadPushPbb { ethertype }),
            }
        }
    }

    /// Decodes the 4 bytes of a `PayloadPushPbb`.
    pub fn try_from(bytes: &[u8]) -> (res: Result<PayloadPushPbb, Error>)
        ensures
            res == Self::spec_try_from(bytes@),
    {
        if bytes.len() != 4 {
            return Err(Error::InvalidSliceLength(4, bytes.len(), "PayloadPushPbb"));
        }
        let ethertype = match EtherType::decode(get_u16(bytes, 0)) {
            Ok(v) => v,
            Err(e) => return Err(e),
        };
        Ok(PayloadPushPbb { ethertype })
    }

    /// The 4 bytes of the record on the wire; padding is zero.
    pub open spec fn wire(self) -> Seq<u8> {
        spec_u16_bytes(self.ethertype.spec_to_u16())
            + zeros(2)
    }

    /// Appends the wire form to `out`.
    pub fn encode(&self, out: &mut Vec<u8>)
        ensures
            final(out)@ == old(out)@ + self.wire(),
    {
        put_u16(out, self.ethertype.to_u16());
        put_zeros(out, 2);
        assert(out@ =~= old(out)@ + self.wire());
    }

    /// The wire form as a vector of its own.
    pub fn into_bytes(&self) -> (res: Vec<u8>)
        ensures
            res@ == self.wire(),
    {
        let mut out: Vec<u8> = Vec::new();
        self.encode(&mut out);
        out
    }

    /// The wire form is 4 bytes long, and decoding it gives the record back.
    pub proof fn lemma_roundtrip(self)
        requires
            self.wf(),
        ensures
            self.wire().len() == 4,
            Self::spec_try_from(self.wire()) == Ok::<PayloadPushPbb, Error>(self),
    {
        let w = self.wire();
        assert(spec_u16_at(w, 0) == self.ethertype.spec_to_u16()) by {
            lemma_u16_at_bytes(w, 0, self.ethertype.spec_to_u16());
        }
        self.ethertype.lemma_wire_value();
    }

    /// What a slice decodes to holds what the wire format can carry, and is as
    /// long on the wire as the slice.
    pub proof fn lemma_decoded(b: Seq<u8>)
        requires
            Self::spec_try_from(b) is Ok,
        ensures
            Self::spec_try_from(b)->Ok_0.wf(),
            Self::spec_try_from(b)->Ok_0.wire().len() == b.len(),
    {
    }
}

/// The body of the action: pop the outer PBB service tag.
#[derive(Debug, PartialEq, Eq, Clone, Copy)]
pub struct PayloadPopPbb {}

impl PayloadPopPbb {
    /// Every field holds a value that the wire format can carry.
    pub open spec fn wf(self) -> bool {
        true
    }

    /// What `b` decodes to: a slice of another length than 4 is refused, then
    /// each field is decoded in wire order and the first failure is the result.
    pub open spec fn spec_try_from(b: Seq<u8>) -> Result<PayloadPopPbb, Error> {
        if b.len() != 4 {
            Err(Error::InvalidSliceLength(4, b.len() as usize, "PayloadPopPbb"))
        } else {
            Ok(PayloadPopPbb {})
        }
    }

    /// Decodes the 4 bytes of a `PayloadPopPbb`.
    pub fn try_from(bytes: &[u8]) -> (res: Result<PayloadPopPbb, Error>)
        ensures
            res == Self::spec_try_from(bytes@),
    {
        if bytes.len() != 4 {
            return Err(Error::InvalidSliceLength(4, bytes.len(), "PayloadPopPbb"));
        }
        Ok(PayloadPopPbb { })
    }

    /// The 4 bytes of the record on the wire; padding is zero.
    pub open spec fn wire(self) -> Seq<u8> {
        zeros(4)
    }

    /// Appends the wire form to `out`.
    pub fn encode(&self, out: &mut Vec<u8>)
        ensures
            final(out)@ == old(out)@ + self.wire(),
    {
        put_zeros(out, 4);
        assert(out@ =~= old(out)@ + self.wire());
    }

    /// The wire form as a vector of its own.
    pub fn into_bytes(&self) -> (res: Vec<u8>)
        ensures
            res@ == self.wire(),
    {
        let mut out: Vec<u8> = Vec::new();
        self.encode(&mut out);
        out
    }

    /// The wire form is 4 bytes long, and decoding it gives the record back.
    pub proof fn lemma_roundtrip(self)
        requires
            self.wf(),
        ensures
            self.wire().len() == 4,
            Self::spec_try_from(self.wire()) == Ok::<PayloadPopPbb, Error>(self),
    {
        let w = self.wire();
    }

    /// What a slice decodes to holds what the wire format can carry, and is as
    /// long on the wire as the slice.
    pub proof fn lemma_decoded(b: Seq<u8>)
        requires
            Self::spec_try_from(b) is Ok,
        ensures
            Self::spec_try_from(b)->Ok_0.wf(),
            Self::spec_try_from(b)->Ok_0.wire().len() == b.len(),
    {
    }
}

/// The body of the action: set a header field, given as an OXM TLV.
///
/// On the wire the TLV is followed by as many zero bytes as bring the whole
/// action to a multiple of eight; they belong to the action, not to the body.
#[derive(Debug, PartialEq, Eq, Clone, Copy)]
pub struct PayloadSetField {
    /// The field and its new value.
    pub field: TlvMatch,
}

impl PayloadSetField {
    /// The TLV is well-formed.
    pub open spec fn wf(self) -> bool {
        self.field.wf()
    }

    /// What `b` decodes to: the one TLV that fills it.
    pub open spec fn spec_try_from(b: Seq<u8>) -> Result<PayloadSetField, Error> {
        match TlvMatch::spec_from_block(b) {
            Ok(field) => Ok(PayloadSetField { field }),
            Err(e) => Err(e),
        }
    }

    /// Decodes the TLV of a set-field action.
    pub fn try_from(bytes: &[u8]) -> (res: Result<PayloadSetField, Error>)
        ensures
            res == Self::spec_try_from(bytes@),
    {
        match TlvMatch::from_block(bytes) {
            Ok(field) => Ok(PayloadSetField { field }),
            Err(e) => Err(e),
        }
    }

    /// The TLV on the wire.
    pub open spec fn wire(self) -> Seq<u8> {
        self.field.wire()
    }

    /// Appends the wire form to `out`.
    pub fn encode(&self, out: &mut Vec<u8>)
        ensures
            final(out)@ == old(out)@ + self.wire(),
    {
        self.field.encode(out);
    }

    /// The wire form as a vector of its own.
    pub fn into_bytes(&self) -> (res: Vec<u8>)
        ensures
            res@ == self.wire(),
    {
        let mut out: Vec<u8> = Vec::new();
        self.encode(&mut out);
        out
    }

    /// Decoding the wire form gives the body back.
    pub proof fn lemma_roundtrip(self)
        requires
            self.wf(),
        ensures
            Self::spec_try_from(self.wire()) == Ok::<PayloadSetField, Error>(self),
            4 <= self.wire().len() <= 12,
    {
        self.field.lemma_roundtrip();
        self.field.payload.lemma_roundtrip();
    }

    /// What a slice decodes to is well-formed and as long on the wire as the
    /// slice.
    pub proof fn lemma_decoded(b: Seq<u8>)
        requires
            Self::spec_try_from(b) is Ok,
        ensures
            Self::spec_try_from(b)->Ok_0.wf(),
            Self::spec_try_from(b)->Ok_0.wire().len() == b.len(),
    {
        TlvMatch::lemma_block_decoded(b);
    }
}

/// The body of an action, by kind.
#[derive(Debug, PartialEq, Eq, Clone, Copy)]
pub enum ActionPayload {
    /// Send the packet out of a port.
    Output(PayloadOutput),
    /// Copy the TTL "outwards", from next-to-outermost to outermost.
    CopyTtlOut(PayloadCopyTtlOut),
    /// Copy the TTL "inwards", from outermost to next-to-outermost.
    CopyTtlIn(PayloadCopyTtlIn),
    /// Set the MPLS TTL.
    SetMplsTtl(PayloadSetMplsTtl),
    /// Decrement the MPLS TTL.
    DecMplsTtl(PayloadDecMplsTtl),
    /// Push a new VLAN tag.
    PushVlan(PayloadPushVlan),
    /// Pop the outer VLAN tag.
    PopVlan(PayloadPopVlan),
    /// Push a new MPLS tag.
    PushMpls(PayloadPushMpls),
    /// Pop the outer MPLS tag.
    PopMpls(PayloadPopMpls),
    /// Set the queue id when outputting to a port.
    SetQueue(PayloadSetQueue),
    /// Apply a group.
    Group(PayloadGroup),
    /// Set the IP TTL.
    SetNwTtl(PayloadSetNwTtl),
    /// Decrement the IP TTL.
    DecNwTtl(PayloadDecNwTtl),
    /// Set a header field, given as an OXM TLV.
    SetField(PayloadSetField),
    /// Push a new PBB service tag.
    PushPbb(PayloadPushPbb),
    /// Pop the outer PBB service tag.
    PopPbb(PayloadPopPbb),
}

impl ActionPayload {
    /// The kind of the action.
    pub open spec fn spec_ttype(self) -> ActionType {
        match self {
            ActionPayload::Output(_) => ActionType::Output,
            ActionPayload::CopyTtlOut(_) => ActionType::CopyTtlOut,
            ActionPayload::CopyTtlIn(_) => ActionType::CopyTtlIn,
            ActionPayload::SetMplsTtl(_) => ActionType::SetMplsTtl,
            ActionPayload::DecMplsTtl(_) => ActionType::DecMplsTtl,
            ActionPayload::PushVlan(_) => ActionType::PushVlan,
            ActionPayload::PopVlan(_) => ActionType::PopVlan,
            ActionPayload::PushMpls(_) => ActionType::PushMpls,
            ActionPayload::PopMpls(_) => ActionType::PopMpls,
            ActionPayload::SetQueue(_) => ActionType::SetQueue,
            ActionPayload::Group(_) => ActionType::Group,
            ActionPayload::SetNwTtl(_) => ActionType::SetNwTtl,
            ActionPayload::DecNwTtl(_) => ActionType::DecNwTtl,
            ActionPayload::SetField(_) => ActionType::SetField,
            ActionPayload::PushPbb(_) => ActionType::PushPbb,
            ActionPayload::PopPbb(_) => ActionType::PopPbb,
        }
    }

    /// The kind of the action.
    pub fn ttype(&self) -> (r: ActionType)
        ensures
            r == self.spec_ttype(),
    {
        match self {
            ActionPayload::Output(_) => ActionType::Output,
            ActionPayload::CopyTtlOut(_) => ActionType::CopyTtlOut,
            ActionPayload::CopyTtlIn(_) => ActionType::CopyTtlIn,
            ActionPayload::SetMplsTtl(_) => ActionType::SetMplsTtl,
            ActionPayload::DecMplsTtl(_) => ActionType::DecMplsTtl,
            ActionPayload::PushVlan(_) => ActionType::PushVlan,
            ActionPayload::PopVlan(_) => ActionType::PopVlan,
            ActionPayload::PushMpls(_) => ActionType::PushMpls,
            ActionPayload::PopMpls(_) => ActionType::PopMpls,
            ActionPayload::SetQueue(_) => ActionType::SetQueue,
            ActionPayload::Group(_) => ActionType::Group,
            ActionPayload::SetNwTtl(_) => ActionType::SetNwTtl,
            ActionPayload::DecNwTtl(_) => ActionType::DecNwTtl,
            ActionPayload::SetField(_) => ActionType::SetField,
            ActionPayload::PushPbb(_) => ActionType::PushPbb,
            ActionPayload::PopPbb(_) => ActionType::PopPbb,
        }
    }

    /// The body holds what the wire format can carry.
    pub open spec fn wf(self) -> bool {
        match self {
            ActionPayload::Output(p) => p.wf(),
            ActionPayload::CopyTtlOut(p) => p.wf(),
            ActionPayload::CopyTtlIn(p) => p.wf(),
            ActionPayload::SetMplsTtl(p) => p.wf(),
            ActionPayload::DecMplsTtl(p) => p.wf(),
            ActionPayload::PushVlan(p) => p.wf(),
            ActionPayload::PopVlan(p) => p.wf(),
            ActionPayload::PushMpls(p) => p.wf(),
            ActionPayload::PopMpls(p) => p.wf(),
            ActionPayload::SetQueue(p) => p.wf(),
            ActionPayload::Group(p) => p.wf(),
            ActionPayload::SetNwTtl(p) => p.wf(),
            ActionPayload::DecNwTtl(p) => p.wf(),
            ActionPayload::SetField(p) => p.wf(),
            ActionPayload::PushPbb(p) => p.wf(),
            ActionPayload::PopPbb(p) => p.wf(),
        }
    }

    /// The bytes of the body on the wire, without the padding of the action.
    pub open spec fn wire(self) -> Seq<u8> {
        match self {
            ActionPayload::Output(p) => p.wire(),
            ActionPayload::CopyTtlOut(p) => p.wire(),
            ActionPayload::CopyTtlIn(p) => p.wire(),
            ActionPayload::SetMplsTtl(p) => p.wire(),
            ActionPayload::DecMplsTtl(p) => p.wire(),
            ActionPayload::PushVlan(p) => p.wire(),
            ActionPayload::PopVlan(p) => p.wire(),
            ActionPayload::PushMpls(p) => p.wire(),
            ActionPayload::PopMpls(p) => p.wire(),
            ActionPayload::SetQueue(p) => p.wire(),
            ActionPayload::Group(p) => p.wire(),
            ActionPayload::SetNwTtl(p) => p.wire(),
            ActionPayload::DecNwTtl(p) => p.wire(),
            ActionPayload::SetField(p) => p.wire(),
            ActionPayload::PushPbb(p) => p.wire(),
            ActionPayload::PopPbb(p) => p.wire(),
        }
    }

    /// The number of bytes of the body on the wire.
    pub fn wire_len(&self) -> (r: u16)
        ensures
            r == self.wire().len(),
            4 <= r <= 12,
    {
        match self {
            ActionPayload::Output(_) => 12,
            ActionPayload::CopyTtlOut(_) => 4,
            ActionPayload::CopyTtlIn(_) => 4,
            ActionPayload::SetMplsTtl(_) => 4,
            ActionPayload::DecMplsTtl(_) => 4,
            ActionPayload::PushVlan(_) => 4,
            ActionPayload::PopVlan(_) => 4,
            ActionPayload::PushMpls(_) => 4,
            ActionPayload::PopMpls(_) => 4,
            ActionPayload::SetQueue(_) => 4,
            ActionPayload::Group(_) => 4,
            ActionPayload::SetNwTtl(_) => 4,
            ActionPayload::DecNwTtl(_) => 4,
            ActionPayload::SetField(p) => 4 + p.field.payload.wire_len() as u16,
            ActionPayload::PushPbb(_) => 4,
            ActionPayload::PopPbb(_) => 4,
        }
    }

    /// Appends the bytes of the body to `out`.
    pub fn encode(&self, out: &mut Vec<u8>)
        ensures
            final(out)@ == old(out)@ + self.wire(),
    {
        match self {
            ActionPayload::Output(p) => p.encode(out),
            ActionPayload::CopyTtlOut(p) => p.encode(out),
            ActionPayload::CopyTtlIn(p) => p.encode(out),
            ActionPayload::SetMplsTtl(p) => p.encode(out),
            ActionPayload::DecMplsTtl(p) => p.encode(out),
            ActionPayload::PushVlan(p) => p.encode(out),
            ActionPayload::PopVlan(p) => p.encode(out),
            ActionPayload::PushMpls(p) => p.encode(out),
            ActionPayload::PopMpls(p) => p.encode(out),
            ActionPayload::SetQueue(p) => p.encode(out),
            ActionPayload::Group(p) => p.encode(out),
            ActionPayload::SetNwTtl(p) => p.encode(out),
            ActionPayload::DecNwTtl(p) => p.encode(out),
            ActionPayload::SetField(p) => p.encode(out),
            ActionPayload::PushPbb(p) => p.encode(out),
            ActionPayload::PopPbb(p) => p.encode(out),
        }
    }

    /// The bytes of the body as a vector of their own.
    pub fn into_bytes(&self) -> (res: Vec<u8>)
        ensures
            res@ == self.wire(),
    {
        let mut out: Vec<u8> = Vec::new();
        self.encode(&mut out);
        out
    }

    /// Decoding the bytes of a body as a body of its own kind gives it back.
    pub proof fn lemma_roundtrip(self)
        requires
            self.wf(),
        ensures
            spec_action_payload(self.wire(), self.spec_ttype()) == Ok::<ActionPayload, Error>(self),
            4 <= self.wire().len() <= 12,
    {
        match self {
            ActionPayload::Output(p) => p.lemma_roundtrip(),
            ActionPayload::CopyTtlOut(p) => p.lemma_roundtrip(),
            ActionPayload::CopyTtlIn(p) => p.lemma_roundtrip(),
            ActionPayload::SetMplsTtl(p) => p.lemma_roundtrip(),
            ActionPayload::DecMplsTtl(p) => p.lemma_roundtrip(),
            ActionPayload::PushVlan(p) => p.lemma_roundtrip(),
            ActionPayload::PopVlan(p) => p.lemma_roundtrip(),
            ActionPayload::PushMpls(p) => p.lemma_roundtrip(),
            ActionPayload::PopMpls(p) => p.lemma_roundtrip(),
            ActionPayload::SetQueue(p) => p.lemma_roundtrip(),
            ActionPayload::Group(p) => p.lemma_roundtrip(),
            ActionPayload::SetNwTtl(p) => p.lemma_roundtrip(),
            ActionPayload::DecNwTtl(p) => p.lemma_roundtrip(),
            ActionPayload::SetField(p) => p.lemma_roundtrip(),
            ActionPayload::PushPbb(p) => p.lemma_roundtrip(),
            ActionPayload::PopPbb(p) => p.lemma_roundtrip(),
        }
    }
}

/// What `b` decodes to as the body of an action of kind `ttype`.
pub open spec fn spec_action_payload(
    b: Seq<u8>,
    ttype: ActionType,
) -> Result<ActionPayload, Error> {
    match ttype {
        ActionType::Output => match PayloadOutput::spec_try_from(b) {
            Ok(p) => Ok(ActionPayload::Output(p)),
            Err(e) => Err(e),
        },
        ActionType::CopyTtlOut => match PayloadCopyTtlOut::spec_try_from(b) {
            Ok(p) => Ok(ActionPayload::CopyTtlOut(p)),
            Err(e) => Err(e),
        },
        ActionType::CopyTtlIn => match PayloadCopyTtlIn::spec_try_from(b) {
            Ok(p) => Ok(ActionPayload::CopyTtlIn(p)),
            Err(e) => Err(e),
        },
        ActionType::SetMplsTtl => match PayloadSetMplsTtl::spec_try_from(b) {
            Ok(p) => Ok(ActionPayload::SetMplsTtl(p)),
            Err(e) => Err(e),
        },
        ActionType::DecMplsTtl => match PayloadDecMplsTtl::spec_try_from(b) {
            Ok(p) => Ok(ActionPayload::DecMplsTtl(p)),
            Err(e) => Err(e),
        },
        ActionType::PushVlan => match PayloadPushVlan::spec_try_from(b) {
            Ok(p) => Ok(ActionPayload::PushVlan(p)),
            Err(e) => Err(e),
        },
        ActionType::PopVlan => match PayloadPopVlan::spec_try_from(b) {
            Ok(p) => Ok(ActionPayload::PopVlan(p)),
            Err(e) => Err(e),
        },
        ActionType::PushMpls => match PayloadPushMpls::spec_try_from(b) {
            Ok(p) => Ok(ActionPayload::PushMpls(p)),
            Err(e) => Err(e),
        },
        ActionType::PopMpls => match PayloadPopMpls::spec_try_from(b) {
            Ok(p) => Ok(ActionPayload::PopMpls(p)),
            Err(e) => Err(e),
        },
        ActionType::SetQueue => match PayloadSetQueue::spec_try_from(b) {
            Ok(p) => Ok(ActionPayload::SetQueue(p)),
            Err(e) => Err(e),
        },
        ActionType::Group => match PayloadGroup::spec_try_from(b) {
            Ok(p) => Ok(ActionPayload::Group(p)),
            Err(e) => Err(e),
        },
        ActionType::SetNwTtl => match PayloadSetNwTtl::spec_try_from(b) {
            Ok(p) => Ok(ActionPayload::SetNwTtl(p)),
            Err(e) => Err(e),
        },
        ActionType::DecNwTtl => match PayloadDecNwTtl::spec_try_from(b) {
            Ok(p) => Ok(ActionPayload::DecNwTtl(p)),
            Err(e) => Err(e),
        },
        ActionType::SetField => match PayloadSetField::spec_try_from(b) {
            Ok(p) => Ok(ActionPayload::SetField(p)),
            Err(e) => Err(e),
        },
        ActionType::PushPbb => match PayloadPushPbb::spec_try_from(b) {
            Ok(p) => Ok(ActionPayload::PushPbb(p)),
            Err(e) => Err(e),
        },
        ActionType::PopPbb => match PayloadPopPbb::spec_try_from(b) {
            Ok(p) => Ok(ActionPayload::PopPbb(p)),
            Err(e) => Err(e),
        },
    }
}

/// Decodes `bytes` as the body of an action of kind `ttype`.
pub fn try_from_action_payload(
    bytes: &[u8],
    ttype: &ActionType,
) -> (res: Result<ActionPayload, Error>)
    ensures
        res == spec_action_payload(bytes@, *ttype),
{
    match ttype {
        ActionType::Output => match PayloadOutput::try_from(bytes) {
            Ok(p) => Ok(ActionPayload::Output(p)),
            Err(e) => Err(e),
        },
        ActionType::CopyTtlOut => match PayloadCopyTtlOut::try_from(bytes) {
            Ok(p) => Ok(ActionPayload::CopyTtlOut(p)),
            Err(e) => Err(e),
        },
        ActionType::CopyTtlIn => match PayloadCopyTtlIn::try_from(bytes) {
            Ok(p) => Ok(ActionPayload::CopyTtlIn(p)),
            Err(e) => Err(e),
        },
        ActionType::SetMplsTtl => match PayloadSetMplsTtl::try_from(bytes) {
            Ok(p) => Ok(ActionPayload::SetMplsTtl(p)),
            Err(e) => Err(e),
        },
        ActionType::DecMplsTtl => match PayloadDecMplsTtl::try_from(bytes) {
            Ok(p) => Ok(ActionPayload::DecMplsTtl(p)),
            Err(e) => Err(e),
        },
        ActionType::PushVlan => match PayloadPushVlan::try_from(bytes) {
            Ok(p) => Ok(ActionPayload::PushVlan(p)),
            Err(e) => Err(e),
        },
        ActionType::PopVlan => match PayloadPopVlan::try_from(bytes) {
            Ok(p) => Ok(ActionPayload::PopVlan(p)),
            Err(e) => Err(e),
        },
        ActionType::PushMpls => match PayloadPushMpls::try_from(bytes) {
            Ok(p) => Ok(ActionPayload::PushMpls(p)),
            Err(e) => Err(e),
        },
        ActionType::PopMpls => match PayloadPopMpls::try_from(bytes) {
            Ok(p) => Ok(ActionPayload::PopMpls(p)),
            Err(e) => Err(e),
        },
        ActionType::SetQueue => match PayloadSetQueue::try_from(bytes) {
            Ok(p) => Ok(ActionPayload::SetQueue(p)),
            Err(e) => Err(e),
        },
        ActionType::Group => match PayloadGroup::try_from(bytes) {
            Ok(p) => Ok(ActionPayload::Group(p)),
            Err(e) => Err(e),
        },
        ActionType::SetNwTtl => match PayloadSetNwTtl::try_from(bytes) {
            Ok(p) => Ok(ActionPayload::SetNwTtl(p)),
            Err(e) => Err(e),
        },
        ActionType::DecNwTtl => match PayloadDecNwTtl::try_from(bytes) {
            Ok(p) => Ok(ActionPayload::DecNwTtl(p)),
            Err(e) => Err(e),
        },
        ActionType::SetField => match PayloadSetField::try_from(bytes) {
            Ok(p) => Ok(ActionPayload::SetField(p)),
            Err(e) => Err(e),
        },
        ActionType::PushPbb => match PayloadPushPbb::try_from(bytes) {
            Ok(p) => Ok(ActionPayload::PushPbb(p)),
            Err(e) => Err(e),
        },
        ActionType::PopPbb => match PayloadPopPbb::try_from(bytes) {
            Ok(p) => Ok(ActionPayload::PopPbb(p)),
            Err(e) => Err(e),
        },
    }
}

/// What decodes as the body of an action of a kind holds what the wire format
/// can carry, is of that kind, and is as long on the wire as the slice.
pub proof fn lemma_action_payload_decoded(b: Seq<u8>, ttype: ActionType)
    requires
        spec_action_payload(b, ttype) is Ok,
    ensures
        spec_action_payload(b, ttype)->Ok_0.wf(),
        spec_action_payload(b, ttype)->Ok_0.wire().len() == b.len(),
        spec_action_payload(b, ttype)->Ok_0.spec_ttype() == ttype,
{
    match ttype {
        ActionType::Output => PayloadOutput::lemma_decoded(b),
        ActionType::CopyTtlOut => PayloadCopyTtlOut::lemma_decoded(b),
        ActionType::CopyTtlIn => PayloadCopyTtlIn::lemma_decoded(b),
        ActionType::SetMplsTtl => PayloadSetMplsTtl::lemma_decoded(b),
        ActionType::DecMplsTtl => PayloadDecMplsTtl::lemma_decoded(b),
        ActionType::PushVlan => PayloadPushVlan::lemma_decoded(b),
        ActionType::PopVlan => PayloadPopVlan::lemma_decoded(b),
        ActionType::PushMpls => PayloadPushMpls::lemma_decoded(b),
        ActionType::PopMpls => PayloadPopMpls::lemma_decoded(b),
        ActionType::SetQueue => PayloadSetQueue::lemma_decoded(b),
        ActionType::Group => PayloadGroup::lemma_decoded(b),
        ActionType::SetNwTtl => PayloadSetNwTtl::lemma_decoded(b),
        ActionType::DecNwTtl => PayloadDecNwTtl::lemma_decoded(b),
        ActionType::SetField => PayloadSetField::lemma_decoded(b),
        ActionType::PushPbb => PayloadPushPbb::lemma_decoded(b),
        ActionType::PopPbb => PayloadPopPbb::lemma_decoded(b),
    }
}

/// An action: its kind, its declared length and its body.
///
/// The declared length counts the four bytes of kind and length and the
/// body. On the wire the action occupies the next multiple of eight; the
/// bytes past the declared length are zero.
#[derive(Debug, PartialEq, Eq, Clone, Copy)]
pub struct ActionHeader {
    /// The kind of the action.
    pub ttype: ActionType,
    /// The declared length.
    pub len: u16,
    /// The body.
    pub payload: ActionPayload,
}

impl ActionHeader {
    /// The kind is that of the body, the declared length is four more than
    /// the bytes of the body, and the body is well-formed.
    pub open spec fn wf(self) -> bool {
        &&& self.ttype == self.payload.spec_ttype()
        &&& self.len == 4 + self.payload.wire().len()
        &&& self.payload.wf()
    }

    /// The action of a body, with its kind and its length.
    pub fn new(payload: ActionPayload) -> (res: ActionHeader)
        ensures
            res.payload == payload,
            res.ttype == payload.spec_ttype(),
            res.len == 4 + payload.wire().len(),
            payload.wf() ==> res.wf(),
    {
        ActionHeader { ttype: payload.ttype(), len: ACTION_HEADER_LEN + payload.wire_len(), payload }
    }

    /// The declared length.
    pub fn len(&self) -> (r: u16)
        ensures
            r == self.len,
    {
        self.len
    }

    /// How many bytes the action that starts at `pos` occupies, padding
    /// included; an error where fewer than four bytes are left to hold its
    /// length field.
    pub open spec fn spec_read_len(b: Seq<u8>, pos: int) -> Result<usize, Error> {
        if pos + 4 > b.len() {
            Err(Error::CouldNotReadLength(2, "ActionHeader"))
        } else {
            let len = spec_u16_at(b, pos + 2) as int;
            Ok((len + spec_pad_len(len)) as usize)
        }
    }

    /// Reads the size of the action that starts at `pos`, padding included,
    /// without consuming anything.
    pub fn read_len(bytes: &[u8], pos: usize) -> (res: Result<usize, Error>)
        ensures
            res == Self::spec_read_len(bytes@, pos as int),
    {
        if bytes.len() < 4 || pos > bytes.len() - 4 {
            return Err(Error::CouldNotReadLength(2, "ActionHeader"));
        }
        let len: usize = get_u16(bytes, pos + 2) as usize;
        Ok(len + pad_len(len))
    }

    /// What an action block decodes to. The block must hold the four bytes of
    /// kind and length; the kind must be known; the block must be exactly as
    /// long as the declared length and its padding; and the bytes between the
    /// header and the declared length must decode as a body of that kind.
    pub open spec fn spec_try_from(b: Seq<u8>) -> Result<ActionHeader, Error> {
        if b.len() < 4 {
            Err(Error::InvalidSliceLength(4, b.len() as usize, "ActionHeader"))
        } else {
            match ActionType::spec_decode(spec_u16_at(b, 0)) {
                Err(e) => Err(e),
                Ok(ttype) => {
                    let len = spec_u16_at(b, 2);
                    let padded = len + spec_pad_len(len as int);
                    if len < 4 || b.len() != padded {
                        Err(
                            Error::InvalidSliceLength(
                                padded as usize,
                                b.len() as usize,
                                "ActionHeader",
                            ),
                        )
                    } else {
                        match spec_action_payload(b.subrange(4, len as int), ttype) {
                            Err(e) => Err(e),
                            Ok(payload) => Ok(ActionHeader { ttype, len, payload }),
                        }
                    }
                },
            }
        }
    }

    /// Decodes an action block, padding included.
    pub fn try_from(bytes: &[u8]) -> (res: Result<ActionHeader, Error>)
        ensures
            res == Self::spec_try_from(bytes@),
    {
        if bytes.len() < 4 {
            return Err(Error::InvalidSliceLength(4, bytes.len(), "ActionHeader"));
        }
        let ttype = match ActionType::decode(get_u16(bytes, 0)) {
            Ok(t) => t,
            Err(e) => return Err(e),
        };
        let len: u16 = get_u16(bytes, 2);
        let padded: usize = len as usize + pad_len(len as usize);
        if len < 4 || bytes.len() != padded {
            return Err(Error::InvalidSliceLength(padded, bytes.len(), "ActionHeader"));
        }
        match try_from_action_payload(slice_subrange(bytes, 4, len as usize), &ttype) {
            Ok(payload) => Ok(ActionHeader { ttype, len, payload }),
            Err(e) => Err(e),
        }
    }

    /// The action on the wire: kind, length, body, and zero bytes up to the
    /// next multiple of eight.
    pub open spec fn wire(self) -> Seq<u8> {
        spec_u16_bytes(self.ttype.spec_to_u16()) + spec_u16_bytes(self.len) + self.payload.wire()
            + zeros(spec_pad_len(self.len as int))
    }

    /// Appends the wire form to `out`.
    pub fn encode(&self, out: &mut Vec<u8>)
        ensures
            final(out)@ == old(out)@ + self.wire(),
    {
        put_u16(out, self.ttype.to_u16());
        put_u16(out, self.len);
        self.payload.encode(out);
        put_zeros(out, pad_len(self.len as usize));
        assert(out@ =~= old(out)@ + self.wire());
    }

    /// The wire form as a vector of its own.
    pub fn into_bytes(&self) -> (res: Vec<u8>)
        ensures
            res@ == self.wire(),
    {
        let mut out: Vec<u8> = Vec::new();
        self.encode(&mut out);
        out
    }

    /// The wire form of a well-formed action is a multiple of eight bytes
    /// long, announces its own size, and decodes to the action.
    #[verifier::rlimit(50)]
    pub proof fn lemma_roundtrip(self)
        requires
            self.wf(),
        ensures
            self.wire().len() == self.len + spec_pad_len(self.len as int),
            self.wire().len() % 8 == 0,
            8 <= self.wire().len() <= 16,
            Self::spec_read_len(self.wire(), 0) == Ok::<usize, Error>(self.wire().len() as usize),
            Self::spec_try_from(self.wire()) == Ok::<ActionHeader, Error>(self),
    {
        self.payload.lemma_roundtrip();
        self.ttype.lemma_wire_value();
        let w = self.wire();
        let body = self.payload.wire();
        let pad = spec_pad_len(self.len as int);
        assert(0 <= pad < 8 && (self.len + pad) % 8 == 0);
        assert(w.len() == 4 + body.len() + pad);
        assert(spec_u16_at(w, 0) == self.ttype.spec_to_u16()) by {
            lemma_u16_at_bytes(w, 0, self.ttype.spec_to_u16());
        }
        assert(spec_u16_at(w, 2) == self.len) by {
            lemma_u16_at_bytes(w, 2, self.len);
        }
        assert(w.subrange(4, self.len as int) =~= body);
    }
}

impl ActionHeader {
    /// What a block decodes to is a well-formed action that is as long on the
    /// wire as the block: a multiple of eight bytes.
    pub proof fn lemma_decoded(b: Seq<u8>)
        requires
            Self::spec_try_from(b) is Ok,
        ensures
            Self::spec_try_from(b)->Ok_0.wf(),
            Self::spec_try_from(b)->Ok_0.wire().len() == b.len(),
            b.len() % 8 == 0,
    {
        let ttype = ActionType::spec_decode(spec_u16_at(b, 0))->Ok_0;
        let len = spec_u16_at(b, 2);
        lemma_action_payload_decoded(b.subrange(4, len as int), ttype);
        let pad = spec_pad_len(len as int);
        assert(0 <= pad < 8 && (len + pad) % 8 == 0);
    }
}

impl PayloadOutput {
    /// The output action with this body.
    pub fn into_action(self) -> (res: ActionHeader)
        ensures
            res == (ActionHeader {
                ttype: ActionType::Output,
                len: 16,
                payload: ActionPayload::Output(self),
            }),
    {
        ActionHeader {
            ttype: ActionType::Output,
            len: ACTION_HEADER_LEN + PAYLOAD_OUTPUT_LEN,
            payload: ActionPayload::Output(self),
        }
    }
}

impl ActionHeader {
    /// What the bytes of `b` from `pos` on decode to as a run of actions, after
    /// those in `acc`: each block is as long as its own length field says, none may
    /// reach past the end of `b`, and the first failure is the result.
    pub open spec fn spec_parse_list(b: Seq<u8>, pos: int, acc: Seq<ActionHeader>) -> Result<
        Seq<ActionHeader>,
        Error,
    >
        decreases b.len() - pos,
    {
        if pos >= b.len() {
            Ok(acc)
        } else {
            match Self::spec_read_len(b, pos) {
                Err(e) => Err(e),
                Ok(n) => if n < 8 || pos + n > b.len() {
                    Err(Error::InvalidSliceLength(n, (b.len() - pos) as usize, "ActionHeader"))
                } else {
                    match Self::spec_try_from(b.subrange(pos, pos + n)) {
                        Err(e) => Err(e),
                        Ok(t) => Self::spec_parse_list(b, pos + n, acc.push(t)),
                    }
                },
            }
        }
    }

    /// Decodes a slice that holds a run of actions and nothing else.
    pub fn parse_list(bytes: &[u8]) -> (res: Result<Vec<ActionHeader>, Error>)
        ensures
            match res {
                Ok(v) => Self::spec_parse_list(bytes@, 0, Seq::empty()) == Ok::<Seq<ActionHeader>, Error>(
                    v@,
                ),
                Err(e) => Self::spec_parse_list(bytes@, 0, Seq::empty()) == Err::<Seq<ActionHeader>, Error>(
                    e,
                ),
            },
    {
        let mut items: Vec<ActionHeader> = Vec::new();
        let mut pos: usize = 0;
        assert(items@ =~= Seq::<ActionHeader>::empty());
        while pos < bytes.len()
            invariant
                pos <= bytes@.len(),
                Self::spec_parse_list(bytes@, pos as int, items@)
                    == Self::spec_parse_list(bytes@, 0, Seq::empty()),
            decreases bytes@.len() - pos,
        {
            let n: usize = match Self::read_len(bytes, pos) {
                Ok(n) => n,
                Err(e) => return Err(e),
            };
            if n < 8 || n > bytes.len() - pos {
                return Err(Error::InvalidSliceLength(n, bytes.len() - pos, "ActionHeader"));
            }
            let item = match Self::try_from(slice_subrange(bytes, pos, pos + n)) {
                Ok(t) => t,
                Err(e) => return Err(e),
            };
            proof {
                assert(items@.push(item) =~= items@.push(item));
            }
            items.push(item);
            pos = pos + n;
        }
        Ok(items)
    }

    /// The wire forms of the actions of `s`, one after the other.
    pub open spec fn spec_wire_list(s: Seq<ActionHeader>) -> Seq<u8>
        decreases s.len(),
    {
        if s.len() == 0 {
            Seq::empty()
        } else {
            Self::spec_wire_list(s.drop_last()) + s.last().wire()
        }
    }

    /// Appends the wire forms of `items`, in order.
    pub fn encode_list(items: &Vec<ActionHeader>, out: &mut Vec<u8>)
        ensures
            final(out)@ == old(out)@ + Self::spec_wire_list(items@),
    {
        let ghost all = items@;
        let mut i: usize = 0;
        assert(old(out)@ + Self::spec_wire_list(all.take(0)) =~= old(out)@);
        while i < items.len()
            invariant
                i <= items@.len(),
                all == items@,
                out@ == old(out)@ + Self::spec_wire_list(all.take(i as int)),
            decreases items@.len() - i,
        {
            let ghost before = out@;
            items[i].encode(out);
            proof {
                let next = all.take(i + 1);
                assert(next.drop_last() =~= all.take(i as int));
                assert(next.last() == items@[i as int]);
                assert(out@ =~= old(out)@ + Self::spec_wire_list(next));
            }
            i = i + 1;
        }
        assert(all.take(items@.len() as int) =~= all);
    }

    /// The wire forms of a run of actions are that of the first, then those of
    /// the others.
    pub proof fn lemma_wire_list_front(s: Seq<ActionHeader>)
        requires
            s.len() > 0,
        ensures
            Self::spec_wire_list(s) == s[0].wire() + Self::spec_wire_list(s.drop_first()),
        decreases s.len(),
    {
        if s.len() == 1 {
            assert(s.drop_last() =~= Seq::<ActionHeader>::empty());
            assert(s.drop_first() =~= Seq::<ActionHeader>::empty());
            assert(Self::spec_wire_list(s) =~= s[0].wire() + Self::spec_wire_list(s.drop_first()));
        } else {
            Self::lemma_wire_list_front(s.drop_last());
            assert(s.drop_first().drop_last() =~= s.drop_last().drop_first());
            assert(s.drop_last()[0] == s[0]);
            assert(s.drop_first().last() == s.last());
            assert(Self::spec_wire_list(s) =~= s[0].wire() + Self::spec_wire_list(s.drop_first()));
        }
    }

    /// The length that is read at `pos` of `b` is the one that is read from the
    /// bytes that start there.
    pub proof fn lemma_read_len_at(b: Seq<u8>, pos: int, w: Seq<u8>)
        requires
            0 <= pos,
            pos + w.len() <= b.len(),
            w.len() >= 4,
            b.subrange(pos, pos + w.len()) == w,
        ensures
            Self::spec_read_len(b, pos) == Self::spec_read_len(w, 0),
    {
        let sub = b.subrange(pos, pos + w.len());
        assert(sub[0] == b[pos + 0]);
        assert(sub[1] == b[pos + 1]);
        assert(sub[2] == b[pos + 2]);
        assert(sub[3] == b[pos + 3]);
    }

    /// Where the bytes of `b` from `pos` on are the wire forms of well-formed
    /// actions, they decode to these, in order, after what was decoded before.
    #[verifier::rlimit(100)]
    pub proof fn lemma_list_roundtrip(
        b: Seq<u8>,
        pos: int,
        acc: Seq<ActionHeader>,
        s: Seq<ActionHeader>,
    )
        requires
            0 <= pos <= b.len(),
            b.subrange(pos, b.len() as int) == Self::spec_wire_list(s),
            forall|i: int| 0 <= i < s.len() ==> (#[trigger] s[i]).wf(),
        ensures
            Self::spec_parse_list(b, pos, acc) == Ok::<Seq<ActionHeader>, Error>(acc + s),
        decreases s.len(),
    {
        if s.len() == 0 {
            assert(acc + s =~= acc);
            assert(b.subrange(pos, b.len() as int).len() == 0);
        } else {
            let first = s[0];
            let rest = s.drop_first();
            let w0 = first.wire();
            let n = w0.len() as int;
            let tail = b.subrange(pos, b.len() as int);
            assert(tail == w0 + Self::spec_wire_list(rest)) by {
                Self::lemma_wire_list_front(s);
            }
            assert(tail.len() == b.len() - pos);
            assert(tail.len() == n + Self::spec_wire_list(rest).len());
            assert(b.subrange(pos, pos + n) == w0) by {
                assert(b.subrange(pos, pos + n) =~= tail.subrange(0, n));
                assert(tail.subrange(0, n) =~= w0);
            }
            assert(b.subrange(pos + n, b.len() as int) == Self::spec_wire_list(rest)) by {
                assert(b.subrange(pos + n, b.len() as int) =~= tail.subrange(n, tail.len() as int));
                assert(tail.subrange(n, tail.len() as int) =~= Self::spec_wire_list(rest));
            }
            assert(8 <= n <= 0x1_0007 && Self::spec_read_len(w0, 0) == Ok::<usize, Error>(
                n as usize,
            ) && Self::spec_try_from(w0) == Ok::<ActionHeader, Error>(first)) by {
                first.lemma_roundtrip();
            }
            assert(Self::spec_read_len(b, pos) == Ok::<usize, Error>(n as usize)) by {
                Self::lemma_read_len_at(b, pos, w0);
            }
            assert forall|i: int| 0 <= i < rest.len() implies (#[trigger] rest[i]).wf() by {
                assert(rest[i] == s[i + 1]);
            }
            assert(Self::spec_parse_list(b, pos + n, acc.push(first)) == Ok::<Seq<ActionHeader>, Error>(
                acc + s,
            )) by {
                Self::lemma_list_roundtrip(b, pos + n, acc.push(first), rest);
                assert(acc.push(first) + rest =~= acc + s);
            }
        }
    }
}

impl ActionHeader {
    /// The wire forms of a run of actions followed by one more are those of the
    /// run, then that of the one.
    pub proof fn lemma_wire_list_len(s: Seq<ActionHeader>, t: ActionHeader)
        ensures
            Self::spec_wire_list(s.push(t)).len() == Self::spec_wire_list(s).len() + t.wire().len(),
    {
        assert(s.push(t).drop_last() =~= s);
        assert(s.push(t).last() == t);
    }

    /// What a run of actions decodes to, after those in `acc`: the actions of `acc`,
    /// then actions that hold what the wire format can carry. Together the new ones
    /// are as long on the wire as the bytes that were decoded.
    #[verifier::rlimit(100)]
    pub proof fn lemma_list_decoded(b: Seq<u8>, pos: int, acc: Seq<ActionHeader>, n0: int)
        requires
            0 <= pos <= b.len(),
            0 <= n0 <= acc.len(),
            forall|i: int| n0 <= i < acc.len() ==> (#[trigger] acc[i]).wf(),
            Self::spec_parse_list(b, pos, acc) is Ok,
        ensures
            ({
                let r = Self::spec_parse_list(b, pos, acc)->Ok_0;
                &&& r.len() >= acc.len()
                &&& r.subrange(0, acc.len() as int) == acc
                &&& forall|i: int| n0 <= i < r.len() ==> (#[trigger] r[i]).wf()
                &&& Self::spec_wire_list(r).len() == Self::spec_wire_list(acc).len() + b.len() - pos
            }),
        decreases b.len() - pos,
    {
        if pos >= b.len() {
            assert(acc.subrange(0, acc.len() as int) =~= acc);
        } else {
            let n = Self::spec_read_len(b, pos)->Ok_0 as int;
            let block = b.subrange(pos, pos + n);
            let t = Self::spec_try_from(block)->Ok_0;
            assert(t.wf() && t.wire().len() == n) by {
                Self::lemma_decoded(block);
            }
            let acc2 = acc.push(t);
            assert forall|i: int| n0 <= i < acc2.len() implies (#[trigger] acc2[i]).wf() by {
                if i < acc.len() {
                    assert(acc2[i] == acc[i]);
                }
            }
            Self::lemma_list_decoded(b, pos + n, acc2, n0);
            Self::lemma_wire_list_len(acc, t);
            let r = Self::spec_parse_list(b, pos, acc)->Ok_0;
            assert(r.subrange(0, acc.len() as int) =~= acc) by {
                assert(r.subrange(0, acc2.len() as int) == acc2);
                assert forall|i: int| 0 <= i < acc.len() implies r[i] == acc[i] by {
                    assert(r.subrange(0, acc2.len() as int)[i] == r[i]);
                    assert(acc2[i] == acc[i]);
                }
            }
        }
    }
}

/// The number of bytes that the actions of `s` occupy on the wire: for each
/// its declared length and its padding.
pub open spec fn spec_actions_len(s: Seq<ActionHeader>) -> int
    decreases s.len(),
{
    if s.len() == 0 {
        0
    } else {
        spec_actions_len(s.drop_last()) + s.last().len + spec_pad_len(s.last().len as int)
    }
}

/// The number of bytes that `actions` occupy on the wire, or `None` where
/// that number does not fit the 16 bits of a length field.
pub fn checked_actions_len(actions: &Vec<ActionHeader>) -> (res: Option<u16>)
    ensures
        res matches Some(n) ==> n == spec_actions_len(actions@),
        res is None <==> spec_actions_len(actions@) > 0xffff,
{
    let mut total: usize = 0;
    let mut i: usize = 0;
    assert(actions@.take(0) =~= Seq::<ActionHeader>::empty());
    while i < actions.len()
        invariant
            i <= actions@.len(),
            total == spec_actions_len(actions@.take(i as int)),
            total <= 0xffff,
        decreases actions@.len() - i,
    {
        let len: usize = actions[i].len as usize;
        let size: usize = len + pad_len(len);
        proof {
            let next = actions@.take(i + 1);
            assert(next.drop_last() =~= actions@.take(i as int));
            assert(next.last() == actions@[i as int]);
            lemma_actions_len_monotone(actions@, i + 1);
        }
        if size > 0xffff - total {
            return None;
        }
        total = total + size;
        i = i + 1;
    }
    assert(actions@.take(actions@.len() as int) =~= actions@);
    Some(total as u16)
}

/// The number of bytes that `actions` occupy on the wire.
pub fn calc_actions_len(actions: &Vec<ActionHeader>) -> (res: u16)
    requires
        spec_actions_len(actions@) <= 0xffff,
    ensures
        res == spec_actions_len(actions@),
{
    match checked_actions_len(actions) {
        Some(n) => n,
        None => 0,
    }
}

/// A prefix of a run of actions occupies no more bytes than the whole run.
pub proof fn lemma_actions_len_monotone(s: Seq<ActionHeader>, k: int)
    requires
        0 <= k <= s.len(),
    ensures
        0 <= spec_actions_len(s.take(k)) <= spec_actions_len(s),
    decreases s.len() - k,
{
    if k == s.len() {
        assert(s.take(k) =~= s);
        lemma_actions_len_nonneg(s);
    } else {
        lemma_actions_len_monotone(s, k + 1);
        assert(s.take(k + 1).drop_last() =~= s.take(k));
        lemma_actions_len_nonneg(s.take(k));
    }
}

/// A run of actions occupies a number of bytes that is not negative.
pub proof fn lemma_actions_len_nonneg(s: Seq<ActionHeader>)
    ensures
        0 <= spec_actions_len(s),
    decreases s.len(),
{
    if s.len() > 0 {
        lemma_actions_len_nonneg(s.drop_last());
    }
}

/// The bytes that well-formed actions occupy are those of their wire forms,
/// and their number is a multiple of eight.
pub proof fn lemma_actions_len_wire(s: Seq<ActionHeader>)
    requires
        forall|i: int| 0 <= i < s.len() ==> (#[trigger] s[i]).wf(),
    ensures
        ActionHeader::spec_wire_list(s).len() == spec_actions_len(s),
        spec_actions_len(s) % 8 == 0,
    decreases s.len(),
{
    if s.len() > 0 {
        lemma_actions_len_wire(s.drop_last());
        s.last().lemma_roundtrip();
    }
}

} // verus!
