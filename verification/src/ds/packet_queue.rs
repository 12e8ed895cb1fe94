//! Packet queues and their properties.

use crate::err::Error;
use crate::ds::ports::PortNumber;
use crate::wire::{
    get_u16, get_u32, lemma_u16_at_bytes, lemma_u32_at_bytes, put_bytes, put_u16, put_u32,
    put_zeros, spec_u16_at, spec_u16_bytes, spec_u32_at, spec_u32_bytes, zeros,
};
use vstd::prelude::*;
use vstd::slice::{slice_subrange, slice_to_vec};

verus! {

/// Length of the fixed part of a packet queue.
pub const PACKET_QUEUE_LENGTH: usize = 16;

/// Length of the header of a queue property.
pub const QUEUE_PROP_HEADER_LENGTH: usize = 8;

/// The kinds of queue property.
#[derive(Debug, PartialEq, Eq, Clone, Copy)]
pub enum QueueProperties {
    /// Minimum datarate guaranteed.
    MinRate,
    /// Maximum datarate.
    MaxRate,
    /// Experimenter defined property.
    Experimenter,
}

impl QueueProperties {
    /// The variant whose wire value is `raw`, if there is one.
    pub open spec fn spec_from_u16(raw: u16) -> Option<QueueProperties> {
        match raw {
            1 => Some(QueueProperties::MinRate),
            2 => Some(QueueProperties::MaxRate),
            0xffff => Some(QueueProperties::Experimenter),
            _ => None,
        }
    }

    /// The variant whose wire value is `raw`, if there is one.
    pub fn from_u16(raw: u16) -> (res: Option<QueueProperties>)
        ensures
            res == Self::spec_from_u16(raw),
    {
        match raw {
            1 => Some(QueueProperties::MinRate),
            2 => Some(QueueProperties::MaxRate),
            0xffff => Some(QueueProperties::Experimenter),
            _ => None,
        }
    }

    /// The wire value of the variant.
    pub open spec fn spec_to_u16(self) -> u16 {
        match self {
            QueueProperties::MinRate => 1,
            QueueProperties::MaxRate => 2,
            QueueProperties::Experimenter => 0xffff,
        }
    }

    /// The wire value of the variant.
    pub fn to_u16(&self) -> (r: u16)
        ensures
            r == self.spec_to_u16(),
    {
        match self {
            QueueProperties::MinRate => 1,
            QueueProperties::MaxRate => 2,
            QueueProperties::Experimenter => 0xffff,
        }
    }

    /// What decoding `raw` gives: its variant, or `UnknownEnum` with the value.
    pub open spec fn spec_decode(raw: u16) -> Result<QueueProperties, Error> {
        match Self::spec_from_u16(raw) {
            Some(v) => Ok(v),
            None => Err(Error::UnknownEnum(raw as u64, "QueueProperties")),
        }
    }

    /// Decodes a wire value; an unknown one is an `UnknownEnum` error.
    pub fn decode(raw: u16) -> (res: Result<QueueProperties, Error>)
        ensures
            res == Self::spec_decode(raw),
    {
        match Self::from_u16(raw) {
            Some(v) => Ok(v),
            None => Err(Error::UnknownEnum(raw as u64, "QueueProperties")),
        }
    }

    /// Every variant is what its own wire value decodes to, and only that
    /// value decodes to it.
    pub proof fn lemma_wire_value(self)
        ensures
            Self::spec_decode(self.spec_to_u16()) == Ok::<QueueProperties, Error>(self),
            forall|raw: u16| Self::spec_from_u16(raw) == Some(self) ==> raw == self.spec_to_u16(),
    {
    }
}

/// The header of a queue property.
#[derive(Debug, PartialEq, Eq, Clone, Copy)]
pub struct QueuePropHeader {
    /// The kind of the property.
    pub property: QueueProperties,
    /// The length in bytes of the body that follows the header.
    pub len: u16,
}

impl QueuePropHeader {
    /// Every field holds a value that the wire format can carry.
    pub open spec fn wf(self) -> bool {
        true
    }

    /// What `b` decodes to: a slice of another length than 8 is refused, then
    /// each field is decoded in wire order and the first failure is the result.
    pub open spec fn spec_try_from(b: Seq<u8>) -> Result<QueuePropHeader, Error> {
        if b.len() != 8 {
            Err(Error::InvalidSliceLength(8, b.len() as usize, "QueuePropHeader"))
        } else {
            match QueueProperties::spec_decode(spec_u16_at(b, 0)) {
                Err(e) => Err(e),
                Ok(property) => Ok(QueuePropHeader { property, len: spec_u16_at(b, 2) }),
            }
        }
    }

    /// Decodes the 8 bytes of a `QueuePropHeader`.
    pub fn try_from(bytes: &[u8]) -> (res: Result<QueuePropHeader, Error>)
        ensures
            res == Self::spec_try_from(bytes@),
    {
        if bytes.len() != 8 {
            return Err(Error::InvalidSliceLength(8, bytes.len(), "QueuePropHeader"));
        }
        let property = match QueueProperties::decode(get_u16(bytes, 0)) {
            Ok(v) => v,
            Err(e) => return Err(e),
        };
        let len: u16 = get_u16(bytes, 2);
        Ok(QueuePropHeader { property, len })
    }

    /// The 8 bytes of the record on the wire; padding is zero.
    pub open spec fn wire(self) -> Seq<u8> {
        spec_u16_bytes(self.property.spec_to_u16())
            + spec_u16_bytes(self.len)
            + zeros(4)
    }

    /// Appends the wire form to `out`.
    pub fn encode(&self, out: &mut Vec<u8>)
        ensures
            final(out)@ == old(out)@ + self.wire(),
    {
        put_u16(out, self.property.to_u16());
        put_u16(out, self.len);
        put_zeros(out, 4);
        assert(out@ =~= old(out)@ + self.wire());
    }

    /// The wire form as a vector of its own.
    pub fn into_bytes(&self) -> (res: Vec<u8>)
        ensures
            res@ == self.wire(),
    {
        let mut out: Vec<u8> = Vec::new();
        self.encode(&mut out);
        out
    }

    /// The wire form is 8 bytes long, and decoding it gives the record back.
    pub proof fn lemma_roundtrip(self)
        requires
            self.wf(),
        ensures
            self.wire().len() == 8,
            Self::spec_try_from(self.wire()) == Ok::<QueuePropHeader, Error>(self),
    {
        let w = self.wire();
        assert(spec_u16_at(w, 0) == self.property.spec_to_u16()) by {
            lemma_u16_at_bytes(w, 0, self.property.spec_to_u16());
        }
        self.property.lemma_wire_value();
        assert(spec_u16_at(w, 2) == self.len) by {
            lemma_u16_at_bytes(w, 2, self.len);
        }
    }

    /// What a slice decodes to holds what the wire format can carry, and is as
    /// long on the wire as the slice.
    pub proof fn lemma_decoded(b: Seq<u8>)
        requires
            Self::spec_try_from(b) is Ok,
        ensures
            Self::spec_try_from(b)->Ok_0.wf(),
            Self::spec_try_from(b)->Ok_0.wire().len() == b.len(),
    {
    }
}

/// The body of a minimum-rate property.
#[derive(Debug, PartialEq, Eq, Clone, Copy)]
pub struct QueuePropMinRate {
    /// The rate in 1/10 of a percent; above 1000 it is disabled.
    pub rate: u16,
}

impl QueuePropMinRate {
    /// Every field holds a value that the wire format can carry.
    pub open spec fn wf(self) -> bool {
        true
    }

    /// What `b` decodes to: a slice of another length than 8 is refused, then
    /// each field is decoded in wire order and the first failure is the result.
    pub open spec fn spec_try_from(b: Seq<u8>) -> Result<QueuePropMinRate, Error> {
        if b.len() != 8 {
            Err(Error::InvalidSliceLength(8, b.len() as usize, "QueuePropMinRate"))
        } else {
            Ok(QueuePropMinRate { rate: spec_u16_at(b, 0) })
        }
    }

    /// Decodes the 8 bytes of a `QueuePropMinRate`.
    pub fn try_from(bytes: &[u8]) -> (res: Result<QueuePropMinRate, Error>)
        ensures
            res == Self::spec_try_from(bytes@),
    {
        if bytes.len() != 8 {
            return Err(Error::InvalidSliceLength(8, bytes.len(), "QueuePropMinRate"));
        }
        let rate: u16 = get_u16(bytes, 0);
        Ok(QueuePropMinRate { rate })
    }

    /// The 8 bytes of the record on the wire; padding is zero.
    pub open spec fn wire(self) -> Seq<u8> {
        spec_u16_bytes(self.rate)
            + zeros(6)
    }

    /// Appends the wire form to `out`.
    pub fn encode(&self, out: &mut Vec<u8>)
        ensures
            final(out)@ == old(out)@ + self.wire(),
    {
        put_u16(out, self.rate);
        put_zeros(out, 6);
        assert(out@ =~= old(out)@ + self.wire());
    }

    /// The wire form as a vector of its own.
    pub fn into_bytes(&self) -> (res: Vec<u8>)
        ensures
            res@ == self.wire(),
    {
        let mut out: Vec<u8> = Vec::new();
        self.encode(&mut out);
        out
    }

    /// The wire form is 8 bytes long, and decoding it gives the record back.
    pub proof fn lemma_roundtrip(self)
        requires
            self.wf(),
        ensures
            self.wire().len() == 8,
            Self::spec_try_from(self.wire()) == Ok::<QueuePropMinRate, Error>(self),
    {
        let w = self.wire();
        assert(spec_u16_at(w, 0) == self.rate) by {
            lemma_u16_at_bytes(w, 0, self.rate);
        }
    }

    /// What a slice decodes to holds what the wire format can carry, and is as
    /// long on the wire as the slice.
    pub proof fn lemma_decoded(b: Seq<u8>)
        requires
            Self::spec_try_from(b) is Ok,
        ensures
            Self::spec_try_from(b)->Ok_0.wf(),
            Self::spec_try_from(b)->Ok_0.wire().len() == b.len(),
    {
    }
}

/// The body of a maximum-rate property.
#[derive(Debug, PartialEq, Eq, Clone, Copy)]
pub struct QueuePropMaxRate {
    /// The rate in 1/10 of a percent; above 1000 it is disabled.
    pub rate: u16,
}

impl QueuePropMaxRate {
    /// Every field holds a value that the wire format can carry.
    pub open spec fn wf(self) -> bool {
        true
    }

    /// What `b` decodes to: a slice of another length than 8 is refused, then
    /// each field is decoded in wire order and the first failure is the result.
    pub open spec fn spec_try_from(b: Seq<u8>) -> Result<QueuePropMaxRate, Error> {
        if b.len() != 8 {
            Err(Error::InvalidSliceLength(8, b.len() as usize, "QueuePropMaxRate"))
        } else {
            Ok(QueuePropMaxRate { rate: spec_u16_at(b, 0) })
        }
    }

    /// Decodes the 8 bytes of a `QueuePropMaxRate`.
    pub fn try_from(bytes: &[u8]) -> (res: Result<QueuePropMaxRate, Error>)
        ensures
            res == Self::spec_try_from(bytes@),
    {
        if bytes.len() != 8 {
            return Err(Error::InvalidSliceLength(8, bytes.len(), "QueuePropMaxRate"));
        }
        let rate: u16 = get_u16(bytes, 0);
        Ok(QueuePropMaxRate { rate })
    }

    /// The 8 bytes of the record on the wire; padding is zero.
    pub open spec fn wire(self) -> Seq<u8> {
        spec_u16_bytes(self.rate)
            + zeros(6)
    }

    /// Appends the wire form to `out`.
    pub fn encode(&self, out: &mut Vec<u8>)
        ensures
            final(out)@ == old(out)@ + self.wire(),
    {
        put_u16(out, self.rate);
        put_zeros(out, 6);
        assert(out@ =~= old(out)@ + self.wire());
    }

    /// The wire form as a vector of its own.
    pub fn into_bytes(&self) -> (res: Vec<u8>)
        ensures
            res@ == self.wire(),
    {
        let mut out: Vec<u8> = Vec::new();
        self.encode(&mut out);
        out
    }

    /// The wire form is 8 bytes long, and decoding it gives the record back.
    pub proof fn lemma_roundtrip(self)
        requires
            self.wf(),
        ensures
            self.wire().len() == 8,
            Self::spec_try_from(self.wire()) == Ok::<QueuePropMaxRate, Error>(self),
    {
        let w = self.wire();
        assert(spec_u16_at(w, 0) == self.rate) by {
            lemma_u16_at_bytes(w, 0, self.rate);
        }
    }

    /// What a slice decodes to holds what the wire format can carry, and is as
    /// long on the wire as the slice.
    pub proof fn lemma_decoded(b: Seq<u8>)
        requires
            Self::spec_try_from(b) is Ok,
        ensures
            Self::spec_try_from(b)->Ok_0.wf(),
            Self::spec_try_from(b)->Ok_0.wire().len() == b.len(),
    {
    }
}

/// The body of an experimenter property.
#[derive(Debug, PartialEq, Eq, Clone)]
pub struct QueuePropExperimenter {
    /// The experimenter id.
    pub experimenter: u32,
    /// Experimenter defined data.
    pub data: Vec<u8>,
}

/// The mathematical value of `QueuePropExperimenter`.
pub struct QueuePropExperimenterView {
    /// The experimenter id.
    pub experimenter: u32,
    /// Experimenter defined data.
    pub data: Seq<u8>,
}

impl View for QueuePropExperimenter {
    type V = QueuePropExperimenterView;

    open spec fn view(&self) -> QueuePropExperimenterView {
        QueuePropExperimenterView {
            experimenter: self.experimenter,
            data: self.data@,
        }
    }
}

impl QueuePropExperimenterView {
    /// The bytes on the wire; padding is zero.
    pub open spec fn wire(self) -> Seq<u8> {
        spec_u32_bytes(self.experimenter)
            + zeros(4)
            + self.data
    }

    /// Every part holds what the wire format can carry.
    pub open spec fn wf(self) -> bool {
        true
    }

    /// What is read at the offsets of the fixed part of the wire form: the fields,
    /// and after the 8 bytes of the fixed part what follows it.
    #[verifier::rlimit(60)]
    pub proof fn lemma_fixed_part(self)
        ensures
            ({
                let w = self.wire();
                &&& w.len() >= 8
                &&& w.subrange(8, w.len() as int) == self.data
                &&& spec_u32_at(w, 0) == self.experimenter
            }),
    {
        let w = self.wire();
        let h = spec_u32_bytes(self.experimenter)
            + zeros(4);
        let t = self.data;
        assert(h.len() == 8);
        assert(w =~= h + t);
        assert(spec_u32_at(w, 0) == self.experimenter) by {
            assert(w[0] == h[0] && w[1] == h[1] && w[2] == h[2] && w[3] == h[3]);
            lemma_u32_at_bytes(h, 0, self.experimenter);
        }
        assert(w.subrange(8, w.len() as int) =~= t);
    }

    /// Decoding the wire form gives the value back.
    #[verifier::rlimit(60)]
    pub proof fn lemma_roundtrip(self)
        requires
            self.wf(),
        ensures
            QueuePropExperimenter::spec_try_from(self.wire()) == Ok::<QueuePropExperimenterView, Error>(self),
    {
        reveal(QueuePropExperimenter::spec_try_from);
        let w = self.wire();
        self.lemma_fixed_part();
        let t = w.subrange(8, w.len() as int);
        assert(w.subrange(8, w.len() as int) == self.data) by {
            assert(w.subrange(8, w.len() as int) =~= t.subrange(0, t.len() as int));
            assert(t.subrange(0, t.len() as int) =~= self.data);
        }
    }
}

impl QueuePropExperimenter {
    /// What `b` decodes to. The slice must hold the 8 bytes of the fixed part;
    /// then every part is decoded in wire order, and the first failure is the result.
    #[verifier::opaque]
    pub open spec fn spec_try_from(b: Seq<u8>) -> Result<QueuePropExperimenterView, Error> {
        if b.len() < 8 {
            Err(Error::InvalidSliceLength(8, b.len() as usize, "QueuePropExperimenter"))
        } else {
            Ok(
                QueuePropExperimenterView {
                    experimenter: spec_u32_at(b, 0),
                    data: b.subrange(8, b.len() as int),
                },
            )
        }
    }

    /// Decodes a `QueuePropExperimenter`.
    pub fn try_from(bytes: &[u8]) -> (res: Result<QueuePropExperimenter, Error>)
        ensures
            match res {
                Ok(m) => Self::spec_try_from(bytes@) == Ok::<QueuePropExperimenterView, Error>(m@),
                Err(e) => Self::spec_try_from(bytes@) == Err::<QueuePropExperimenterView, Error>(e),
            },
    {
        proof {
            reveal(QueuePropExperimenter::spec_try_from);
        }
        if bytes.len() < 8 {
            return Err(Error::InvalidSliceLength(8, bytes.len(), "QueuePropExperimenter"));
        }
        let experimenter: u32 = get_u32(bytes, 0);
        let pos: usize = 8;
        let data: Vec<u8> = slice_to_vec(slice_subrange(bytes, pos, bytes.len()));
        Ok(QueuePropExperimenter {
            experimenter,
            data,
        })
    }

    /// Appends the wire form to `out`.
    pub fn encode(&self, out: &mut Vec<u8>)
        ensures
            final(out)@ == old(out)@ + self@.wire(),
    {
        put_u32(out, self.experimenter);
        put_zeros(out, 4);
        put_bytes(out, self.data.as_slice());
        assert(out@ =~= old(out)@ + self@.wire());
    }

    /// The wire form as a vector of its own.
    pub fn into_bytes(&self) -> (res: Vec<u8>)
        ensures
            res@ == self@.wire(),
    {
        let mut out: Vec<u8> = Vec::new();
        self.encode(&mut out);
        out
    }

    /// What a slice decodes to holds what the wire format can carry, and is as
    /// long on the wire as the slice.
    #[verifier::rlimit(60)]
    pub proof fn lemma_decoded(b: Seq<u8>)
        requires
            Self::spec_try_from(b) is Ok,
        ensures
            Self::spec_try_from(b)->Ok_0.wf(),
            Self::spec_try_from(b)->Ok_0.wire().len() == b.len(),
    {
        reveal(QueuePropExperimenter::spec_try_from);
    }

    /// Encoding what a slice decodes to gives as many bytes as the slice has, and
    /// these decode to the same value: only padding can differ.
    pub proof fn lemma_reencode(b: Seq<u8>)
        requires
            Self::spec_try_from(b) is Ok,
        ensures
            Self::spec_try_from(b)->Ok_0.wire().len() == b.len(),
            Self::spec_try_from(Self::spec_try_from(b)->Ok_0.wire()) == Self::spec_try_from(b),
    {
        Self::lemma_decoded(b);
        Self::spec_try_from(b)->Ok_0.lemma_roundtrip();
    }
}

/// The body of a queue property, by kind.
#[derive(Debug, PartialEq, Eq, Clone)]
pub enum QueuePropPayload {
    /// A minimum rate.
    Min(QueuePropMinRate),
    /// A maximum rate.
    Max(QueuePropMaxRate),
    /// An experimenter property.
    Experimenter(QueuePropExperimenter),
}

/// The mathematical value of `QueuePropPayload`.
pub enum QueuePropPayloadView {
    /// A minimum rate.
    Min(QueuePropMinRate),
    /// A maximum rate.
    Max(QueuePropMaxRate),
    /// An experimenter property.
    Experimenter(QueuePropExperimenterView),
}

impl View for QueuePropPayload {
    type V = QueuePropPayloadView;

    open spec fn view(&self) -> QueuePropPayloadView {
        match self {
            QueuePropPayload::Min(p) => QueuePropPayloadView::Min(*p),
            QueuePropPayload::Max(p) => QueuePropPayloadView::Max(*p),
            QueuePropPayload::Experimenter(p) => QueuePropPayloadView::Experimenter(p@),
        }
    }
}

impl QueuePropPayloadView {
    /// The kind of the body.
    pub open spec fn spec_kind(self) -> QueueProperties {
        match self {
            QueuePropPayloadView::Min(_) => QueueProperties::MinRate,
            QueuePropPayloadView::Max(_) => QueueProperties::MaxRate,
            QueuePropPayloadView::Experimenter(_) => QueueProperties::Experimenter,
        }
    }

    /// The bytes of the body on the wire.
    pub open spec fn wire(self) -> Seq<u8> {
        match self {
            QueuePropPayloadView::Min(p) => p.wire(),
            QueuePropPayloadView::Max(p) => p.wire(),
            QueuePropPayloadView::Experimenter(p) => p.wire(),
        }
    }

    /// The body holds what the wire format can carry.
    pub open spec fn wf(self) -> bool {
        match self {
            QueuePropPayloadView::Min(p) => p.wf(),
            QueuePropPayloadView::Max(p) => p.wf(),
            QueuePropPayloadView::Experimenter(p) => p.wf(),
        }
    }

    /// Decoding the bytes of a body as one of its own kind gives it back.
    pub proof fn lemma_roundtrip(self)
        requires
            self.wf(),
        ensures
            QueuePropMessage::spec_payload(self.spec_kind(), self.wire()) == Ok::<QueuePropPayloadView, Error>(self),
    {
        match self {
            QueuePropPayloadView::Min(p) => p.lemma_roundtrip(),
            QueuePropPayloadView::Max(p) => p.lemma_roundtrip(),
            QueuePropPayloadView::Experimenter(p) => p.lemma_roundtrip(),
        }
    }
}

impl QueuePropPayload {
    /// The kind of the body.
    pub fn kind(&self) -> (r: QueueProperties)
        ensures
            r == self@.spec_kind(),
    {
        match self {
            QueuePropPayload::Min(_) => QueueProperties::MinRate,
            QueuePropPayload::Max(_) => QueueProperties::MaxRate,
            QueuePropPayload::Experimenter(_) => QueueProperties::Experimenter,
        }
    }

    /// Appends the bytes of the body to `out`.
    pub fn encode(&self, out: &mut Vec<u8>)
        ensures
            final(out)@ == old(out)@ + self@.wire(),
    {
        match self {
            QueuePropPayload::Min(p) => p.encode(out),
            QueuePropPayload::Max(p) => p.encode(out),
            QueuePropPayload::Experimenter(p) => p.encode(out),
        }
    }

    /// The bytes of the body as a vector of their own.
    pub fn into_bytes(&self) -> (res: Vec<u8>)
        ensures
            res@ == self@.wire(),
    {
        let mut out: Vec<u8> = Vec::new();
        self.encode(&mut out);
        out
    }
}

impl QueuePropMessage {
    /// What `b` decodes to as the body of kind `kind`.
    pub open spec fn spec_payload(
        kind: QueueProperties,
        b: Seq<u8>,
    ) -> Result<QueuePropPayloadView, Error> {
        match kind {
            QueueProperties::MinRate => match QueuePropMinRate::spec_try_from(b) {
                Ok(p) => Ok(QueuePropPayloadView::Min(p)),
                Err(e) => Err(e),
            },
            QueueProperties::MaxRate => match QueuePropMaxRate::spec_try_from(b) {
                Ok(p) => Ok(QueuePropPayloadView::Max(p)),
                Err(e) => Err(e),
            },
            QueueProperties::Experimenter => match QueuePropExperimenter::spec_try_from(b) {
                Ok(p) => Ok(QueuePropPayloadView::Experimenter(p)),
                Err(e) => Err(e),
            },
        }
    }

    /// Decodes `bytes` as the body of kind `kind`.
    pub fn decode_payload(
        kind: QueueProperties,
        bytes: &[u8],
    ) -> (res: Result<QueuePropPayload, Error>)
        ensures
            match res {
                Ok(p) => Self::spec_payload(kind, bytes@) == Ok::<QueuePropPayloadView, Error>(p@),
                Err(e) => Self::spec_payload(kind, bytes@) == Err::<QueuePropPayloadView, Error>(e),
            },
    {
        match kind {
            QueueProperties::MinRate => match QueuePropMinRate::try_from(bytes) {
                Ok(p) => Ok(QueuePropPayload::Min(p)),
                Err(e) => Err(e),
            },
            QueueProperties::MaxRate => match QueuePropMaxRate::try_from(bytes) {
                Ok(p) => Ok(QueuePropPayload::Max(p)),
                Err(e) => Err(e),
            },
            QueueProperties::Experimenter => match QueuePropExperimenter::try_from(bytes) {
                Ok(p) => Ok(QueuePropPayload::Experimenter(p)),
                Err(e) => Err(e),
            },
        }
    }

    /// What decodes as the body of a kind holds what the wire format can carry,
    /// is of that kind, and is as long on the wire as the slice.
    pub proof fn lemma_payload_decoded(kind: QueueProperties, b: Seq<u8>)
        requires
            Self::spec_payload(kind, b) is Ok,
        ensures
            Self::spec_payload(kind, b)->Ok_0.wf(),
            Self::spec_payload(kind, b)->Ok_0.wire().len() == b.len(),
            Self::spec_payload(kind, b)->Ok_0.spec_kind() == kind,
    {
        match kind {
            QueueProperties::MinRate => QueuePropMinRate::lemma_decoded(b),
            QueueProperties::MaxRate => QueuePropMaxRate::lemma_decoded(b),
            QueueProperties::Experimenter => QueuePropExperimenter::lemma_decoded(b),
        }
    }
}

/// A queue property: its header and its body.
#[derive(Debug, PartialEq, Eq, Clone)]
pub struct QueuePropMessage {
    /// The header.
    pub header: QueuePropHeader,
    /// The body.
    pub payload: QueuePropPayload,
}

/// The mathematical value of `QueuePropMessage`.
pub struct QueuePropMessageView {
    /// The header.
    pub header: QueuePropHeader,
    /// The body.
    pub payload: QueuePropPayloadView,
}

impl View for QueuePropMessage {
    type V = QueuePropMessageView;

    open spec fn view(&self) -> QueuePropMessageView {
        QueuePropMessageView { header: self.header, payload: self.payload@ }
    }
}

impl QueuePropMessageView {
    /// The bytes on the wire: the header, then the body.
    pub open spec fn wire(self) -> Seq<u8> {
        self.header.wire() + self.payload.wire()
    }

    /// The header names the kind of the body and its length, and the body
    /// holds what the wire format can carry.
    pub open spec fn wf(self) -> bool {
        &&& self.header.property == self.payload.spec_kind()
        &&& self.header.len == self.payload.wire().len()
        &&& self.payload.wf()
    }

    /// The wire form announces its own length and decodes to the value.
    #[verifier::rlimit(60)]
    pub proof fn lemma_roundtrip(self)
        requires
            self.wf(),
        ensures
            8 <= self.wire().len() <= 0x1_0007,
            QueuePropMessage::spec_read_len(self.wire(), 0) == Ok::<usize, Error>(
                self.wire().len() as usize,
            ),
            QueuePropMessage::spec_try_from(self.wire()) == Ok::<QueuePropMessageView, Error>(self),
    {
        reveal(QueuePropMessage::spec_try_from);
        self.header.lemma_roundtrip();
        self.payload.lemma_roundtrip();
        let w = self.wire();
        let hw = self.header.wire();
        assert(w.subrange(0, 8) =~= hw);
        assert(w.subrange(8, w.len() as int) =~= self.payload.wire());
        assert(spec_u16_at(w, 2) == self.header.len) by {
            assert(w[2] == hw[2] && w[3] == hw[3]);
            lemma_u16_at_bytes(hw, 2, self.header.len);
        }
    }
}

impl QueuePropMessage {
    /// How long the property that starts at `pos` says it is, header
    /// included; an error where fewer than eight bytes are left to hold its
    /// header.
    pub open spec fn spec_read_len(b: Seq<u8>, pos: int) -> Result<usize, Error> {
        if pos + 8 > b.len() {
            Err(Error::CouldNotReadLength(2, "QueuePropMessage"))
        } else {
            Ok((8 + spec_u16_at(b, pos + 2)) as usize)
        }
    }

    /// Reads the length of the property that starts at `pos`, header
    /// included, without consuming anything.
    pub fn read_len(bytes: &[u8], pos: usize) -> (res: Result<usize, Error>)
        ensures
            res == Self::spec_read_len(bytes@, pos as int),
    {
        if bytes.len() < 8 || pos > bytes.len() - 8 {
            return Err(Error::CouldNotReadLength(2, "QueuePropMessage"));
        }
        Ok(8 + get_u16(bytes, pos + 2) as usize)
    }

    /// What a property decodes to. The slice must hold the eight bytes of the
    /// header, which must decode, and be as long as the header says; the
    /// rest is the body of the kind that the header names.
    #[verifier::opaque]
    pub open spec fn spec_try_from(b: Seq<u8>) -> Result<QueuePropMessageView, Error> {
        if b.len() < 8 {
            Err(Error::InvalidSliceLength(8, b.len() as usize, "QueuePropMessage"))
        } else {
            match QueuePropHeader::spec_try_from(b.subrange(0, 8)) {
                Err(e) => Err(e),
                Ok(header) => if 8 + header.len != b.len() {
                    Err(
                        Error::InvalidSliceLength(
                            (8 + header.len) as usize,
                            b.len() as usize,
                            "QueuePropMessage",
                        ),
                    )
                } else {
                    match Self::spec_payload(header.property, b.subrange(8, b.len() as int)) {
                        Err(e) => Err(e),
                        Ok(payload) => Ok(QueuePropMessageView { header, payload }),
                    }
                },
            }
        }
    }

    /// Decodes a queue property.
    pub fn try_from(bytes: &[u8]) -> (res: Result<QueuePropMessage, Error>)
        ensures
            match res {
                Ok(m) => Self::spec_try_from(bytes@) == Ok::<QueuePropMessageView, Error>(m@),
                Err(e) => Self::spec_try_from(bytes@) == Err::<QueuePropMessageView, Error>(e),
            },
    {
        proof {
            reveal(QueuePropMessage::spec_try_from);
        }
        if bytes.len() < QUEUE_PROP_HEADER_LENGTH {
            return Err(
                Error::InvalidSliceLength(QUEUE_PROP_HEADER_LENGTH, bytes.len(), "QueuePropMessage"),
            );
        }
        let header = match QueuePropHeader::try_from(slice_subrange(bytes, 0, 8)) {
            Ok(h) => h,
            Err(e) => return Err(e),
        };
        let total: usize = 8 + header.len as usize;
        if total != bytes.len() {
            return Err(Error::InvalidSliceLength(total, bytes.len(), "QueuePropMessage"));
        }
        match Self::decode_payload(header.property, slice_subrange(bytes, 8, bytes.len())) {
            Ok(payload) => Ok(QueuePropMessage { header, payload }),
            Err(e) => Err(e),
        }
    }

    /// Appends the wire form to `out`.
    pub fn encode(&self, out: &mut Vec<u8>)
        ensures
            final(out)@ == old(out)@ + self@.wire(),
    {
        self.header.encode(out);
        self.payload.encode(out);
        assert(out@ =~= old(out)@ + self@.wire());
    }

    /// The wire form as a vector of its own.
    pub fn into_bytes(&self) -> (res: Vec<u8>)
        ensures
            res@ == self@.wire(),
    {
        let mut out: Vec<u8> = Vec::new();
        self.encode(&mut out);
        out
    }

    /// What a slice decodes to is well-formed and as long on the wire as the
    /// slice.
    pub proof fn lemma_decoded(b: Seq<u8>)
        requires
            Self::spec_try_from(b) is Ok,
        ensures
            Self::spec_try_from(b)->Ok_0.wf(),
            Self::spec_try_from(b)->Ok_0.wire().len() == b.len(),
    {
        reveal(QueuePropMessage::spec_try_from);
        QueuePropHeader::lemma_decoded(b.subrange(0, 8));
        let header = QueuePropHeader::spec_try_from(b.subrange(0, 8))->Ok_0;
        Self::lemma_payload_decoded(header.property, b.subrange(8, b.len() as int));
    }
}

impl QueuePropMessage {
    /// What the bytes of `b` from `pos` on decode to as a run of properties, after
    /// those in `acc`: each block is as long as its own length field says, none may
    /// reach past the end of `b`, and the first failure is the result.
    pub open spec fn spec_parse_list(
        b: Seq<u8>,
        pos: int,
        acc: Seq<QueuePropMessageView>,
    ) -> Result<
        Seq<QueuePropMessageView>,
        Error,
    >
        decreases b.len() - pos,
    {
        if pos >= b.len() {
            Ok(acc)
        } else {
            match Self::spec_read_len(b, pos) {
                Err(e) => Err(e),
                Ok(n) => if n < 8 || pos + n > b.len() {
                    Err(Error::InvalidSliceLength(n, (b.len() - pos) as usize, "QueuePropMessage"))
                } else {
                    match Self::spec_try_from(b.subrange(pos, pos + n)) {
                        Err(e) => Err(e),
                        Ok(t) => Self::spec_parse_list(b, pos + n, acc.push(t)),
                    }
                },
            }
        }
    }

    /// Decodes a slice that holds a run of properties and nothing else.
    pub fn parse_list(bytes: &[u8]) -> (res: Result<Vec<QueuePropMessage>, Error>)
        ensures
            match res {
                Ok(v) => Self::spec_parse_list(bytes@, 0, Seq::empty()) == Ok::<Seq<QueuePropMessageView>, Error>(
                    v@.map_values(|t: QueuePropMessage| t@),
                ),
                Err(e) => Self::spec_parse_list(bytes@, 0, Seq::empty()) == Err::<Seq<QueuePropMessageView>, Error>(
                    e,
                ),
            },
    {
        let mut items: Vec<QueuePropMessage> = Vec::new();
        let mut pos: usize = 0;
        assert(items@.map_values(|t: QueuePropMessage| t@) =~= Seq::<QueuePropMessageView>::empty());
        while pos < bytes.len()
            invariant
                pos <= bytes@.len(),
                Self::spec_parse_list(bytes@, pos as int, items@.map_values(|t: QueuePropMessage| t@))
                    == Self::spec_parse_list(bytes@, 0, Seq::empty()),
            decreases bytes@.len() - pos,
        {
            let n: usize = match Self::read_len(bytes, pos) {
                Ok(n) => n,
                Err(e) => return Err(e),
            };
            if n < 8 || n > bytes.len() - pos {
                return Err(Error::InvalidSliceLength(n, bytes.len() - pos, "QueuePropMessage"));
            }
            let item = match Self::try_from(slice_subrange(bytes, pos, pos + n)) {
                Ok(t) => t,
                Err(e) => return Err(e),
            };
            proof {
                assert(items@.map_values(|t: QueuePropMessage| t@).push(item@) =~= items@.push(item).map_values(|t: QueuePropMessage| t@));
            }
            items.push(item);
            pos = pos + n;
        }
        Ok(items)
    }

    /// The wire forms of the properties of `s`, one after the other.
    pub open spec fn spec_wire_list(s: Seq<QueuePropMessageView>) -> Seq<u8>
        decreases s.len(),
    {
        if s.len() == 0 {
            Seq::empty()
        } else {
            Self::spec_wire_list(s.drop_last()) + s.last().wire()
        }
    }

    /// Appends the wire forms of `items`, in order.
    pub fn encode_list(items: &Vec<QueuePropMessage>, out: &mut Vec<u8>)
        ensures
            final(out)@ == old(out)@ + Self::spec_wire_list(items@.map_values(|t: QueuePropMessage| t@)),
    {
        let ghost all = items@.map_values(|t: QueuePropMessage| t@);
        let mut i: usize = 0;
        assert(old(out)@ + Self::spec_wire_list(all.take(0)) =~= old(out)@);
        while i < items.len()
            invariant
                i <= items@.len(),
                all == items@.map_values(|t: QueuePropMessage| t@),
                out@ == old(out)@ + Self::spec_wire_list(all.take(i as int)),
            decreases items@.len() - i,
        {
            let ghost before = out@;
            items[i].encode(out);
            proof {
                let next = all.take(i + 1);
                assert(next.drop_last() =~= all.take(i as int));
                assert(next.last() == items@[i as int]@);
                assert(out@ =~= old(out)@ + Self::spec_wire_list(next));
            }
            i = i + 1;
        }
        assert(all.take(items@.len() as int) =~= all);
    }

    /// The wire forms of a run of properties are that of the first, then those of
    /// the others.
    pub proof fn lemma_wire_list_front(s: Seq<QueuePropMessageView>)
        requires
            s.len() > 0,
        ensures
            Self::spec_wire_list(s) == s[0].wire() + Self::spec_wire_list(s.drop_first()),
        decreases s.len(),
    {
        if s.len() == 1 {
            assert(s.drop_last() =~= Seq::<QueuePropMessageView>::empty());
            assert(s.drop_first() =~= Seq::<QueuePropMessageView>::empty());
            assert(Self::spec_wire_list(s) =~= s[0].wire() + Self::spec_wire_list(s.drop_first()));
        } else {
            Self::lemma_wire_list_front(s.drop_last());
            assert(s.drop_first().drop_last() =~= s.drop_last().drop_first());
            assert(s.drop_last()[0] == s[0]);
            assert(s.drop_first().last() == s.last());
            assert(Self::spec_wire_list(s) =~= s[0].wire() + Self::spec_wire_list(s.drop_first()));
        }
    }

    /// The length that is read at `pos` of `b` is the one that is read from the
    /// bytes that start there.
    pub proof fn lemma_read_len_at(b: Seq<u8>, pos: int, w: Seq<u8>)
        requires
            0 <= pos,
            pos + w.len() <= b.len(),
            w.len() >= 8,
            b.subrange(pos, pos + w.len()) == w,
        ensures
            Self::spec_read_len(b, pos) == Self::spec_read_len(w, 0),
    {
        let sub = b.subrange(pos, pos + w.len());
        assert(sub[0] == b[pos + 0]);
        assert(sub[1] == b[pos + 1]);
        assert(sub[2] == b[pos + 2]);
        assert(sub[3] == b[pos + 3]);
        assert(sub[4] == b[pos + 4]);
        assert(sub[5] == b[pos + 5]);
        assert(sub[6] == b[pos + 6]);
        assert(sub[7] == b[pos + 7]);
    }

    /// Where the bytes of `b` from `pos` on are the wire forms of well-formed
    /// properties, they decode to these, in order, after what was decoded before.
    #[verifier::rlimit(100)]
    pub proof fn lemma_list_roundtrip(
        b: Seq<u8>,
        pos: int,
        acc: Seq<QueuePropMessageView>,
        s: Seq<QueuePropMessageView>,
    )
        requires
            0 <= pos <= b.len(),
            b.subrange(pos, b.len() as int) == Self::spec_wire_list(s),
            forall|i: int| 0 <= i < s.len() ==> (#[trigger] s[i]).wf(),
        ensures
            Self::spec_parse_list(b, pos, acc) == Ok::<Seq<QueuePropMessageView>, Error>(acc + s),
        decreases s.len(),
    {
        if s.len() == 0 {
            assert(acc + s =~= acc);
            assert(b.subrange(pos, b.len() as int).len() == 0);
        } else {
            let first = s[0];
            let rest = s.drop_first();
            let w0 = first.wire();
            let n = w0.len() as int;
            let tail = b.subrange(pos, b.len() as int);
            assert(tail == w0 + Self::spec_wire_list(rest)) by {
                Self::lemma_wire_list_front(s);
            }
            assert(tail.len() == b.len() - pos);
            assert(tail.len() == n + Self::spec_wire_list(rest).len());
            assert(b.subrange(pos, pos + n) == w0) by {
                assert(b.subrange(pos, pos + n) =~= tail.subrange(0, n));
                assert(tail.subrange(0, n) =~= w0);
            }
            assert(b.subrange(pos + n, b.len() as int) == Self::spec_wire_list(rest)) by {
                assert(b.subrange(pos + n, b.len() as int) =~= tail.subrange(n, tail.len() as int));
                assert(tail.subrange(n, tail.len() as int) =~= Self::spec_wire_list(rest));
            }
            assert(8 <= n <= 0x1_0007 && Self::spec_read_len(w0, 0) == Ok::<usize, Error>(
                n as usize,
            ) && Self::spec_try_from(w0) == Ok::<QueuePropMessageView, Error>(first)) by {
                first.lemma_roundtrip();
            }
            assert(Self::spec_read_len(b, pos) == Ok::<usize, Error>(n as usize)) by {
                Self::lemma_read_len_at(b, pos, w0);
            }
            assert forall|i: int| 0 <= i < rest.len() implies (#[trigger] rest[i]).wf() by {
                assert(rest[i] == s[i + 1]);
            }
            assert(Self::spec_parse_list(b, pos + n, acc.push(first)) == Ok::<Seq<QueuePropMessageView>, Error>(
                acc + s,
            )) by {
                Self::lemma_list_roundtrip(b, pos + n, acc.push(first), rest);
                assert(acc.push(first) + rest =~= acc + s);
            }
        }
    }
}

impl QueuePropMessage {
    /// The wire forms of a run of properties followed by one more are those of the
    /// run, then that of the one.
    pub proof fn lemma_wire_list_len(s: Seq<QueuePropMessageView>, t: QueuePropMessageView)
        ensures
            Self::spec_wire_list(s.push(t)).len() == Self::spec_wire_list(s).len() + t.wire().len(),
    {
        assert(s.push(t).drop_last() =~= s);
        assert(s.push(t).last() == t);
    }

    /// What a run of properties decodes to, after those in `acc`: the properties of `acc`,
    /// then properties that hold what the wire format can carry. Together the new ones
    /// are as long on the wire as the bytes that were decoded.
    #[verifier::rlimit(100)]
    pub proof fn lemma_list_decoded(b: Seq<u8>, pos: int, acc: Seq<QueuePropMessageView>, n0: int)
        requires
            0 <= pos <= b.len(),
            0 <= n0 <= acc.len(),
            forall|i: int| n0 <= i < acc.len() ==> (#[trigger] acc[i]).wf(),
            Self::spec_parse_list(b, pos, acc) is Ok,
        ensures
            ({
                let r = Self::spec_parse_list(b, pos, acc)->Ok_0;
                &&& r.len() >= acc.len()
                &&& r.subrange(0, acc.len() as int) == acc
                &&& forall|i: int| n0 <= i < r.len() ==> (#[trigger] r[i]).wf()
                &&& Self::spec_wire_list(r).len() == Self::spec_wire_list(acc).len() + b.len() - pos
            }),
        decreases b.len() - pos,
    {
        if pos >= b.len() {
            assert(acc.subrange(0, acc.len() as int) =~= acc);
        } else {
            let n = Self::spec_read_len(b, pos)->Ok_0 as int;
            let block = b.subrange(pos, pos + n);
            let t = Self::spec_try_from(block)->Ok_0;
            assert(t.wf() && t.wire().len() == n) by {
                Self::lemma_decoded(block);
            }
            let acc2 = acc.push(t);
            assert forall|i: int| n0 <= i < acc2.len() implies (#[trigger] acc2[i]).wf() by {
                if i < acc.len() {
                    assert(acc2[i] == acc[i]);
                }
            }
            Self::lemma_list_decoded(b, pos + n, acc2, n0);
            Self::lemma_wire_list_len(acc, t);
            let r = Self::spec_parse_list(b, pos, acc)->Ok_0;
            assert(r.subrange(0, acc.len() as int) =~= acc) by {
                assert(r.subrange(0, acc2.len() as int) == acc2);
                assert forall|i: int| 0 <= i < acc.len() implies r[i] == acc[i] by {
                    assert(r.subrange(0, acc2.len() as int)[i] == r[i]);
                    assert(acc2[i] == acc[i]);
                }
            }
        }
    }
}

/// The description of a queue.
#[derive(Debug, PartialEq, Eq, Clone)]
pub struct PacketQueue {
    /// The id of the queue.
    pub queue_id: u32,
    /// The port that the queue is attached to.
    pub port: PortNumber,
    /// The length of the queue description in bytes, fixed part included.
    pub len: u16,
    /// The properties of the queue.
    pub properties: Vec<QueuePropMessage>,
}

/// The mathematical value of `PacketQueue`.
pub struct PacketQueueView {
    /// The id of the queue.
    pub queue_id: u32,
    /// The port that the queue is attached to.
    pub port: PortNumber,
    /// The length of the queue description in bytes, fixed part included.
    pub len: u16,
    /// The properties of the queue.
    pub properties: Seq<QueuePropMessageView>,
}

impl View for PacketQueue {
    type V = PacketQueueView;

    open spec fn view(&self) -> PacketQueueView {
        PacketQueueView {
            queue_id: self.queue_id,
            port: self.port,
            len: self.len,
            properties: self.properties@.map_values(|t: QueuePropMessage| t@),
        }
    }
}

impl PacketQueueView {
    /// The bytes on the wire; padding is zero.
    pub open spec fn wire(self) -> Seq<u8> {
        spec_u32_bytes(self.queue_id)
            + spec_u32_bytes(self.port.spec_to_u32())
            + spec_u16_bytes(self.len)
            + zeros(6)
            + QueuePropMessage::spec_wire_list(self.properties)
    }

    /// Every part holds what the wire format can carry, and the length field says
    /// how long the wire form is.
    pub open spec fn wf(self) -> bool {
        &&& self.port.wf()
        &&& forall|i: int| 0 <= i < self.properties.len() ==> (#[trigger] self.properties[i]).wf()
        &&& self.len == self.wire().len()
    }

    /// What is read at the offsets of the fixed part of the wire form: the fields,
    /// and after the 16 bytes of the fixed part what follows it.
    #[verifier::rlimit(60)]
    pub proof fn lemma_fixed_part(self)
        ensures
            ({
                let w = self.wire();
                &&& w.len() >= 16
                &&& w.subrange(16, w.len() as int) == QueuePropMessage::spec_wire_list(self.properties)
                &&& spec_u32_at(w, 0) == self.queue_id
                &&& spec_u32_at(w, 4) == self.port.spec_to_u32()
                &&& spec_u16_at(w, 8) == self.len
            }),
    {
        let w = self.wire();
        let h = spec_u32_bytes(self.queue_id)
            + spec_u32_bytes(self.port.spec_to_u32())
            + spec_u16_bytes(self.len)
            + zeros(6);
        let t = QueuePropMessage::spec_wire_list(self.properties);
        assert(h.len() == 16);
        assert(w =~= h + t);
        assert(spec_u32_at(w, 0) == self.queue_id) by {
            assert(w[0] == h[0] && w[1] == h[1] && w[2] == h[2] && w[3] == h[3]);
            lemma_u32_at_bytes(h, 0, self.queue_id);
        }
        assert(spec_u32_at(w, 4) == self.port.spec_to_u32()) by {
            assert(w[4] == h[4] && w[5] == h[5] && w[6] == h[6] && w[7] == h[7]);
            lemma_u32_at_bytes(h, 4, self.port.spec_to_u32());
        }
        assert(spec_u16_at(w, 8) == self.len) by {
            assert(w[8] == h[8] && w[9] == h[9]);
            lemma_u16_at_bytes(h, 8, self.len);
        }
        assert(w.subrange(16, w.len() as int) =~= t);
    }

    /// Decoding the wire form gives the value back. The wire form announces its
    /// own length.
    #[verifier::rlimit(60)]
    pub proof fn lemma_roundtrip(self)
        requires
            self.wf(),
        ensures
            PacketQueue::spec_try_from(self.wire()) == Ok::<PacketQueueView, Error>(self),
            16 <= self.wire().len() <= 0xffff,
            PacketQueue::spec_read_len(self.wire(), 0) == Ok::<usize, Error>(self.wire().len() as usize),
    {
        reveal(PacketQueue::spec_try_from);
        let w = self.wire();
        self.lemma_fixed_part();
        self.port.lemma_wire_value();
        let t = w.subrange(16, w.len() as int);
        let sub = w.subrange(16, w.len() as int);
        assert(sub == QueuePropMessage::spec_wire_list(self.properties)) by {
            assert(sub =~= t.subrange(0, t.len() as int));
            assert(t.subrange(0, t.len() as int) =~= QueuePropMessage::spec_wire_list(self.properties));
        }
        assert(QueuePropMessage::spec_parse_list(sub, 0, Seq::empty()) == Ok::<Seq<QueuePropMessageView>, Error>(self.properties)) by {
            assert(sub.subrange(0, sub.len() as int) =~= sub);
            QueuePropMessage::lemma_list_roundtrip(sub, 0, Seq::empty(), self.properties);
            assert(Seq::<QueuePropMessageView>::empty() + self.properties =~= self.properties);
        }
    }
}

impl PacketQueue {
    /// What `b` decodes to. The slice must hold the 16 bytes of the fixed part and be as long as its own length field says;
    /// then every part is decoded in wire order, and the first failure is the result.
    #[verifier::opaque]
    pub open spec fn spec_try_from(b: Seq<u8>) -> Result<PacketQueueView, Error> {
        if b.len() < 16 {
            Err(Error::InvalidSliceLength(16, b.len() as usize, "PacketQueue"))
        } else if spec_u16_at(b, 8) != b.len() {
            Err(
                Error::InvalidSliceLength(
                    spec_u16_at(b, 8) as usize,
                    b.len() as usize,
                    "PacketQueue",
                ),
            )
        } else {
            match PortNumber::spec_try_from(spec_u32_at(b, 4)) {
                Err(e) => Err(e),
                Ok(port) => match QueuePropMessage::spec_parse_list(b.subrange(16, b.len() as int), 0, Seq::empty()) {
                    Err(e) => Err(e),
                    Ok(properties) => Ok(
                        PacketQueueView {
                            queue_id: spec_u32_at(b, 0),
                            port,
                            len: spec_u16_at(b, 8),
                            properties,
                        },
                    ),
                },
            }
        }
    }

    /// Decodes a `PacketQueue`.
    pub fn try_from(bytes: &[u8]) -> (res: Result<PacketQueue, Error>)
        ensures
            match res {
                Ok(m) => Self::spec_try_from(bytes@) == Ok::<PacketQueueView, Error>(m@),
                Err(e) => Self::spec_try_from(bytes@) == Err::<PacketQueueView, Error>(e),
            },
    {
        proof {
            reveal(PacketQueue::spec_try_from);
        }
        if bytes.len() < 16 {
            return Err(Error::InvalidSliceLength(16, bytes.len(), "PacketQueue"));
        }
        if get_u16(bytes, 8) as usize != bytes.len() {
            return Err(
                Error::InvalidSliceLength(
                    get_u16(bytes, 8) as usize,
                    bytes.len(),
                    "PacketQueue",
                ),
            );
        }
        let queue_id: u32 = get_u32(bytes, 0);
        let port = match PortNumber::try_from(get_u32(bytes, 4)) {
            Ok(v) => v,
            Err(e) => return Err(e),
        };
        let len: u16 = get_u16(bytes, 8);
        let pos: usize = 16;
        let properties = match QueuePropMessage::parse_list(slice_subrange(bytes, pos, bytes.len())) {
            Ok(v) => v,
            Err(e) => return Err(e),
        };
        Ok(PacketQueue {
            queue_id,
            port,
            len,
            properties,
        })
    }

    /// Appends the wire form to `out`.
    pub fn encode(&self, out: &mut Vec<u8>)
        ensures
            final(out)@ == old(out)@ + self@.wire(),
    {
        put_u32(out, self.queue_id);
        put_u32(out, self.port.to_u32());
        put_u16(out, self.len);
        put_zeros(out, 6);
        QueuePropMessage::encode_list(&self.properties, out);
        assert(out@ =~= old(out)@ + self@.wire());
    }

    /// The wire form as a vector of its own.
    pub fn into_bytes(&self) -> (res: Vec<u8>)
        ensures
            res@ == self@.wire(),
    {
        let mut out: Vec<u8> = Vec::new();
        self.encode(&mut out);
        out
    }

    /// What a slice decodes to holds what the wire format can carry, and is as
    /// long on the wire as the slice.
    #[verifier::rlimit(60)]
    pub proof fn lemma_decoded(b: Seq<u8>)
        requires
            Self::spec_try_from(b) is Ok,
        ensures
            Self::spec_try_from(b)->Ok_0.wf(),
            Self::spec_try_from(b)->Ok_0.wire().len() == b.len(),
    {
        reveal(PacketQueue::spec_try_from);
        QueuePropMessage::lemma_list_decoded(b.subrange(16, b.len() as int), 0, Seq::empty(), 0);
    }

    /// Encoding what a slice decodes to gives as many bytes as the slice has, and
    /// these decode to the same value: only padding can differ.
    pub proof fn lemma_reencode(b: Seq<u8>)
        requires
            Self::spec_try_from(b) is Ok,
        ensures
            Self::spec_try_from(b)->Ok_0.wire().len() == b.len(),
            Self::spec_try_from(Self::spec_try_from(b)->Ok_0.wire()) == Self::spec_try_from(b),
    {
        Self::lemma_decoded(b);
        Self::spec_try_from(b)->Ok_0.lemma_roundtrip();
    }

    /// How long the queue description that starts at `pos` says it is; an error
    /// where fewer than ten bytes are left to hold its length field.
    pub open spec fn spec_read_len(b: Seq<u8>, pos: int) -> Result<usize, Error> {
        if pos + 10 > b.len() {
            Err(Error::CouldNotReadLength(8, "PacketQueue"))
        } else {
            Ok(spec_u16_at(b, pos + 8) as usize)
        }
    }

    /// Reads the length of the queue description that starts at `pos`, without
    /// consuming anything.
    pub fn read_len(bytes: &[u8], pos: usize) -> (res: Result<usize, Error>)
        ensures
            res == Self::spec_read_len(bytes@, pos as int),
    {
        if bytes.len() < 10 || pos > bytes.len() - 10 {
            return Err(Error::CouldNotReadLength(8, "PacketQueue"));
        }
        Ok(get_u16(bytes, pos + 8) as usize)
    }
}

impl PacketQueue {
    /// What the bytes of `b` from `pos` on decode to as a run of queue descriptions, after
    /// those in `acc`: each block is as long as its own length field says, none may
    /// reach past the end of `b`, and the first failure is the result.
    pub open spec fn spec_parse_list(b: Seq<u8>, pos: int, acc: Seq<PacketQueueView>) -> Result<
        Seq<PacketQueueView>,
        Error,
    >
        decreases b.len() - pos,
    {
        if pos >= b.len() {
            Ok(acc)
        } else {
            match Self::spec_read_len(b, pos) {
                Err(e) => Err(e),
                Ok(n) => if n < 16 || pos + n > b.len() {
                    Err(Error::InvalidSliceLength(n, (b.len() - pos) as usize, "PacketQueue"))
                } else {
                    match Self::spec_try_from(b.subrange(pos, pos + n)) {
                        Err(e) => Err(e),
                        Ok(t) => Self::spec_parse_list(b, pos + n, acc.push(t)),
                    }
                },
            }
        }
    }

    /// Decodes a slice that holds a run of queue descriptions and nothing else.
    pub fn parse_list(bytes: &[u8]) -> (res: Result<Vec<PacketQueue>, Error>)
        ensures
            match res {
                Ok(v) => Self::spec_parse_list(bytes@, 0, Seq::empty()) == Ok::<Seq<PacketQueueView>, Error>(
                    v@.map_values(|t: PacketQueue| t@),
                ),
                Err(e) => Self::spec_parse_list(bytes@, 0, Seq::empty()) == Err::<Seq<PacketQueueView>, Error>(
                    e,
                ),
            },
    {
        let mut items: Vec<PacketQueue> = Vec::new();
        let mut pos: usize = 0;
        assert(items@.map_values(|t: PacketQueue| t@) =~= Seq::<PacketQueueView>::empty());
        while pos < bytes.len()
            invariant
                pos <= bytes@.len(),
                Self::spec_parse_list(bytes@, pos as int, items@.map_values(|t: PacketQueue| t@))
                    == Self::spec_parse_list(bytes@, 0, Seq::empty()),
            decreases bytes@.len() - pos,
        {
            let n: usize = match Self::read_len(bytes, pos) {
                Ok(n) => n,
                Err(e) => return Err(e),
            };
            if n < 16 || n > bytes.len() - pos {
                return Err(Error::InvalidSliceLength(n, bytes.len() - pos, "PacketQueue"));
            }
            let item = match Self::try_from(slice_subrange(bytes, pos, pos + n)) {
                Ok(t) => t,
                Err(e) => return Err(e),
            };
            proof {
                assert(items@.map_values(|t: PacketQueue| t@).push(item@) =~= items@.push(item).map_values(|t: PacketQueue| t@));
            }
            items.push(item);
            pos = pos + n;
        }
        Ok(items)
    }

    /// The wire forms of the queue descriptions of `s`, one after the other.
    pub open spec fn spec_wire_list(s: Seq<PacketQueueView>) -> Seq<u8>
        decreases s.len(),
    {
        if s.len() == 0 {
            Seq::empty()
        } else {
            Self::spec_wire_list(s.drop_last()) + s.last().wire()
        }
    }

    /// Appends the wire forms of `items`, in order.
    pub fn encode_list(items: &Vec<PacketQueue>, out: &mut Vec<u8>)
        ensures
            final(out)@ == old(out)@ + Self::spec_wire_list(items@.map_values(|t: PacketQueue| t@)),
    {
        let ghost all = items@.map_values(|t: PacketQueue| t@);
        let mut i: usize = 0;
        assert(old(out)@ + Self::spec_wire_list(all.take(0)) =~= old(out)@);
        while i < items.len()
            invariant
                i <= items@.len(),
                all == items@.map_values(|t: PacketQueue| t@),
                out@ == old(out)@ + Self::spec_wire_list(all.take(i as int)),
            decreases items@.len() - i,
        {
            let ghost before = out@;
            items[i].encode(out);
            proof {
                let next = all.take(i + 1);
                assert(next.drop_last() =~= all.take(i as int));
                assert(next.last() == items@[i as int]@);
                assert(out@ =~= old(out)@ + Self::spec_wire_list(next));
            }
            i = i + 1;
        }
        assert(all.take(items@.len() as int) =~= all);
    }

    /// The wire forms of a run of queue descriptions are that of the first, then those of
    /// the others.
    pub proof fn lemma_wire_list_front(s: Seq<PacketQueueView>)
        requires
            s.len() > 0,
        ensures
            Self::spec_wire_list(s) == s[0].wire() + Self::spec_wire_list(s.drop_first()),
        decreases s.len(),
    {
        if s.len() == 1 {
            assert(s.drop_last() =~= Seq::<PacketQueueView>::empty());
            assert(s.drop_first() =~= Seq::<PacketQueueView>::empty());
            assert(Self::spec_wire_list(s) =~= s[0].wire() + Self::spec_wire_list(s.drop_first()));
        } else {
            Self::lemma_wire_list_front(s.drop_last());
            assert(s.drop_first().drop_last() =~= s.drop_last().drop_first());
            assert(s.drop_last()[0] == s[0]);
            assert(s.drop_first().last() == s.last());
            assert(Self::spec_wire_list(s) =~= s[0].wire() + Self::spec_wire_list(s.drop_first()));
        }
    }

    /// The length that is read at `pos` of `b` is the one that is read from the
    /// bytes that start there.
    pub proof fn lemma_read_len_at(b: Seq<u8>, pos: int, w: Seq<u8>)
        requires
            0 <= pos,
            pos + w.len() <= b.len(),
            w.len() >= 10,
            b.subrange(pos, pos + w.len()) == w,
        ensures
            Self::spec_read_len(b, pos) == Self::spec_read_len(w, 0),
    {
        let sub = b.subrange(pos, pos + w.len());
        assert(sub[0] == b[pos + 0]);
        assert(sub[1] == b[pos + 1]);
        assert(sub[2] == b[pos + 2]);
        assert(sub[3] == b[pos + 3]);
        assert(sub[4] == b[pos + 4]);
        assert(sub[5] == b[pos + 5]);
        assert(sub[6] == b[pos + 6]);
        assert(sub[7] == b[pos + 7]);
        assert(sub[8] == b[pos + 8]);
        assert(sub[9] == b[pos + 9]);
    }

    /// Where the bytes of `b` from `pos` on are the wire forms of well-formed
    /// queue descriptions, they decode to these, in order, after what was decoded before.
    #[verifier::rlimit(100)]
    pub proof fn lemma_list_roundtrip(
        b: Seq<u8>,
        pos: int,
        acc: Seq<PacketQueueView>,
        s: Seq<PacketQueueView>,
    )
        requires
            0 <= pos <= b.len(),
            b.subrange(pos, b.len() as int) == Self::spec_wire_list(s),
            forall|i: int| 0 <= i < s.len() ==> (#[trigger] s[i]).wf(),
        ensures
            Self::spec_parse_list(b, pos, acc) == Ok::<Seq<PacketQueueView>, Error>(acc + s),
        decreases s.len(),
    {
        if s.len() == 0 {
            assert(acc + s =~= acc);
            assert(b.subrange(pos, b.len() as int).len() == 0);
        } else {
            let first = s[0];
            let rest = s.drop_first();
            let w0 = first.wire();
            let n = w0.len() as int;
            let tail = b.subrange(pos, b.len() as int);
            assert(tail == w0 + Self::spec_wire_list(rest)) by {
                Self::lemma_wire_list_front(s);
            }
            assert(tail.len() == b.len() - pos);
            assert(tail.len() == n + Self::spec_wire_list(rest).len());
            assert(b.subrange(pos, pos + n) == w0) by {
                assert(b.subrange(pos, pos + n) =~= tail.subrange(0, n));
                assert(tail.subrange(0, n) =~= w0);
            }
            assert(b.subrange(pos + n, b.len() as int) == Self::spec_wire_list(rest)) by {
                assert(b.subrange(pos + n, b.len() as int) =~= tail.subrange(n, tail.len() as int));
                assert(tail.subrange(n, tail.len() as int) =~= Self::spec_wire_list(rest));
            }
            assert(16 <= n <= 0x1_0007 && Self::spec_read_len(w0, 0) == Ok::<usize, Error>(
                n as usize,
            ) && Self::spec_try_from(w0) == Ok::<PacketQueueView, Error>(first)) by {
                first.lemma_roundtrip();
            }
            assert(Self::spec_read_len(b, pos) == Ok::<usize, Error>(n as usize)) by {
                Self::lemma_read_len_at(b, pos, w0);
            }
            assert forall|i: int| 0 <= i < rest.len() implies (#[trigger] rest[i]).wf() by {
                assert(rest[i] == s[i + 1]);
            }
            assert(Self::spec_parse_list(b, pos + n, acc.push(first)) == Ok::<Seq<PacketQueueView>, Error>(
                acc + s,
            )) by {
                Self::lemma_list_roundtrip(b, pos + n, acc.push(first), rest);
                assert(acc.push(first) + rest =~= acc + s);
            }
        }
    }
}

impl PacketQueue {
    /// The wire forms of a run of queue descriptions followed by one more are those of the
    /// run, then that of the one.
    pub proof fn lemma_wire_list_len(s: Seq<PacketQueueView>, t: PacketQueueView)
        ensures
            Self::spec_wire_list(s.push(t)).len() == Self::spec_wire_list(s).len() + t.wire().len(),
    {
        assert(s.push(t).drop_last() =~= s);
        assert(s.push(t).last() == t);
    }

    /// What a run of queue descriptions decodes to, after those in `acc`: the queue descriptions of `acc`,
    /// then queue descriptions that hold what the wire format can carry. Together the new ones
    /// are as long on the wire as the bytes that were decoded.
    #[verifier::rlimit(100)]
    pub proof fn lemma_list_decoded(b: Seq<u8>, pos: int, acc: Seq<PacketQueueView>, n0: int)
        requires
            0 <= pos <= b.len(),
            0 <= n0 <= acc.len(),
            forall|i: int| n0 <= i < acc.len() ==> (#[trigger] acc[i]).wf(),
            Self::spec_parse_list(b, pos, acc) is Ok,
        ensures
            ({
                let r = Self::spec_parse_list(b, pos, acc)->Ok_0;
                &&& r.len() >= acc.len()
                &&& r.subrange(0, acc.len() as int) == acc
                &&& forall|i: int| n0 <= i < r.len() ==> (#[trigger] r[i]).wf()
                &&& Self::spec_wire_list(r).len() == Self::spec_wire_list(acc).len() + b.len() - pos
            }),
        decreases b.len() - pos,
    {
        if pos >= b.len() {
            assert(acc.subrange(0, acc.len() as int) =~= acc);
        } else {
            let n = Self::spec_read_len(b, pos)->Ok_0 as int;
            let block = b.subrange(pos, pos + n);
            let t = Self::spec_try_from(block)->Ok_0;
            assert(t.wf() && t.wire().len() == n) by {
                Self::lemma_decoded(block);
            }
            let acc2 = acc.push(t);
            assert forall|i: int| n0 <= i < acc2.len() implies (#[trigger] acc2[i]).wf() by {
                if i < acc.len() {
                    assert(acc2[i] == acc[i]);
                }
            }
            Self::lemma_list_decoded(b, pos + n, acc2, n0);
            Self::lemma_wire_list_len(acc, t);
            let r = Self::spec_parse_list(b, pos, acc)->Ok_0;
            assert(r.subrange(0, acc.len() as int) =~= acc) by {
                assert(r.subrange(0, acc2.len() as int) == acc2);
                assert forall|i: int| 0 <= i < acc.len() implies r[i] == acc[i] by {
                    assert(r.subrange(0, acc2.len() as int)[i] == r[i]);
                    assert(acc2[i] == acc[i]);
                }
            }
        }
    }
}

} // verus!
