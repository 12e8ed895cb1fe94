//! The instructions of a flow entry.

use crate::err::Error;
use crate::ds::actions::ActionHeader;
use crate::wire::{
    get_u16, get_u32, get_u64, lemma_u16_at_bytes, lemma_u32_at_bytes, lemma_u64_at_bytes,
    put_u16, put_u32, put_u64, put_zeros, spec_u16_at, spec_u16_bytes, spec_u32_at,
    spec_u32_bytes, spec_u64_at, spec_u64_bytes, zeros,
};
use vstd::prelude::*;
use vstd::slice::slice_subrange;

verus! {

/// The kinds of instruction.
#[derive(Debug, PartialEq, Eq, Clone, Copy)]
pub enum InstructionType {
    /// Set up the next table in the lookup pipeline.
    GotoTable,
    /// Set up the metadata field for use later in the pipeline.
    WriteMetadata,
    /// Write the actions onto the datapath action set.
    WriteActions,
    /// Apply the actions immediately.
    ApplyActions,
    /// Clear all actions from the datapath action set.
    Clearactions,
    /// Apply a meter (rate limiter).
    Meter,
    /// Experimenter instruction; not decoded.
    Experimenter,
}

impl InstructionType {
    /// The variant whose wire value is `raw`, if there is one.
    pub open spec fn spec_from_u16(raw: u16) -> Option<InstructionType> {
        match raw {
            1 => Some(InstructionType::GotoTable),
            2 => Some(InstructionType::WriteMetadata),
            3 => Some(InstructionType::WriteActions),
            4 => Some(InstructionType::ApplyActions),
            5 => Some(InstructionType::Clearactions),
            6 => Some(InstructionType::Meter),
            0xFFFF => Some(InstructionType::Experimenter),
            _ => None,
        }
    }

    /// The variant whose wire value is `raw`, if there is one.
    pub fn from_u16(raw: u16) -> (res: Option<InstructionType>)
        ensures
            res == Self::spec_from_u16(raw),
    {
        match raw {
            1 => Some(InstructionType::GotoTable),
            2 => Some(InstructionType::WriteMetadata),
            3 => Some(InstructionType::WriteActions),
            4 => Some(InstructionType::ApplyActions),
            5 => Some(InstructionType::Clearactions),
            6 => Some(InstructionType::Meter),
            0xFFFF => Some(InstructionType::Experimenter),
            _ => None,
        }
    }

    /// The wire value of the variant.
    pub open spec fn spec_to_u16(self) -> u16 {
        match self {
            InstructionType::GotoTable => 1,
            InstructionType::WriteMetadata => 2,
            InstructionType::WriteActions => 3,
            InstructionType::ApplyActions => 4,
            InstructionType::Clearactions => 5,
            InstructionType::Meter => 6,
            InstructionType::Experimenter => 0xFFFF,
        }
    }

    /// The wire value of the variant.
    pub fn to_u16(&self) -> (r: u16)
        ensures
            r == self.spec_to_u16(),
    {
        match self {
            InstructionType::GotoTable => 1,
            InstructionType::WriteMetadata => 2,
            InstructionType::WriteActions => 3,
            InstructionType::ApplyActions => 4,
            InstructionType::Clearactions => 5,
            InstructionType::Meter => 6,
            InstructionType::Experimenter => 0xFFFF,
        }
    }

    /// What decoding `raw` gives: its variant, or `UnknownEnum` with the value.
    pub open spec fn spec_decode(raw: u16) -> Result<InstructionType, Error> {
        match Self::spec_from_u16(raw) {
            Some(v) => Ok(v),
            None => Err(Error::UnknownEnum(raw as u64, "InstructionType")),
        }
    }

    /// Decodes a wire value; an unknown one is an `UnknownEnum` error.
    pub fn decode(raw: u16) -> (res: Result<InstructionType, Error>)
        ensures
            res == Self::spec_decode(raw),
    {
        match Self::from_u16(raw) {
            Some(v) => Ok(v),
            None => Err(Error::UnknownEnum(raw as u64, "InstructionType")),
        }
    }

    /// Every variant is what its own wire value decodes to, and only that
    /// value decodes to it.
    pub proof fn lemma_wire_value(self)
        ensures
            Self::spec_decode(self.spec_to_u16()) == Ok::<InstructionType, Error>(self),
            forall|raw: u16| Self::spec_from_u16(raw) == Some(self) ==> raw == self.spec_to_u16(),
    {
    }
}

/// The body of a goto-table instruction.
#[derive(Debug, PartialEq, Eq, Clone, Copy)]
pub struct PayloadGotoTable {
    /// The next table in the lookup pipeline.
    pub table_id: u8,
}

impl PayloadGotoTable {
    /// Every field holds a value that the wire format can carry.
    pub open spec fn wf(self) -> bool {
        true
    }

    /// What `b` decodes to: a slice of another length than 4 is refused, then
    /// each field is decoded in wire order and the first failure is the result.
    pub open spec fn spec_try_from(b: Seq<u8>) -> Result<PayloadGotoTable, Error> {
        if b.len() != 4 {
            Err(Error::InvalidSliceLength(4, b.len() as usize, "PayloadGotoTable"))
        } else {
            Ok(PayloadGotoTable { table_id: b[0] })
        }
    }

    /// Decodes the 4 bytes of a `PayloadGotoTable`.
    pub fn try_from(bytes: &[u8]) -> (res: Result<PayloadGotoTable, Error>)
        ensures
            res == Self::spec_try_from(bytes@),
    {
        if bytes.len() != 4 {
            return Err(Error::InvalidSliceLength(4, bytes.len(), "PayloadGotoTable"));
        }
        let table_id: u8 = bytes[0];
        Ok(PayloadGotoTable { table_id })
    }

    /// The 4 bytes of the record on the wire; padding is zero.
    pub open spec fn wire(self) -> Seq<u8> {
        seq![self.table_id]
            + zeros(3)
    }

    /// Appends the wire form to `out`.
    pub fn encode(&self, out: &mut Vec<u8>)
        ensures
            final(out)@ == old(out)@ + self.wire(),
    {
        out.push(self.table_id);
        put_zeros(out, 3);
        assert(out@ =~= old(out)@ + self.wire());
    }

    /// The wire form as a vector of its own.
    pub fn into_bytes(&self) -> (res: Vec<u8>)
        ensures
            res@ == self.wire(),
    {
        let mut out: Vec<u8> = Vec::new();
        self.encode(&mut out);
        out
    }

    /// The wire form is 4 bytes long, and decoding it gives the record back.
    pub proof fn lemma_roundtrip(self)
        requires
            self.wf(),
        ensures
            self.wire().len() == 4,
            Self::spec_try_from(self.wire()) == Ok::<PayloadGotoTable, Error>(self),
    {
        let w = self.wire();
        assert(w[0] == self.table_id);
    }

    /// What a slice decodes to holds what the wire format can carry, and is as
    /// long on the wire as the slice.
    pub proof fn lemma_decoded(b: Seq<u8>)
        requires
            Self::spec_try_from(b) is Ok,
        ensures
            Self::spec_try_from(b)->Ok_0.wf(),
            Self::spec_try_from(b)->Ok_0.wire().len() == b.len(),
    {
    }
}

/// The body of a write-metadata instruction.
#[derive(Debug, PartialEq, Eq, Clone, Copy)]
pub struct PayloadWriteMetaData {
    /// The metadata value to write.
    pub metadata: u64,
    /// The metadata write bitmask.
    pub metadata_mask: u64,
}

impl PayloadWriteMetaData {
    /// Every field holds a value that the wire format can carry.
    pub open spec fn wf(self) -> bool {
        true
    }

    /// What `b` decodes to: a slice of another length than 20 is refused, then
    /// each field is decoded in wire order and the first failure is the result.
    pub open spec fn spec_try_from(b: Seq<u8>) -> Result<PayloadWriteMetaData, Error> {
        if b.len() != 20 {
            Err(Error::InvalidSliceLength(20, b.len() as usize, "PayloadWriteMetaData"))
        } else {
            Ok(
                PayloadWriteMetaData {
                    metadata: spec_u64_at(b, 4),
                    metadata_mask: spec_u64_at(b, 12),
                },
            )
        }
    }

    /// Decodes the 20 bytes of a `PayloadWriteMetaData`.
    pub fn try_from(bytes: &[u8]) -> (res: Result<PayloadWriteMetaData, Error>)
        ensures
            res == Self::spec_try_from(bytes@),
    {
        if bytes.len() != 20 {
            return Err(Error::InvalidSliceLength(20, bytes.len(), "PayloadWriteMetaData"));
        }
        let metadata: u64 = get_u64(bytes, 4);
        let metadata_mask: u64 = get_u64(bytes, 12);
        Ok(PayloadWriteMetaData { metadata, metadata_mask })
    }

    /// The 20 bytes of the record on the wire; padding is zero.
    pub open spec fn wire(self) -> Seq<u8> {
        zeros(4)
            + spec_u64_bytes(self.metadata)
            + spec_u64_bytes(self.metadata_mask)
    }

    /// Appends the wire form to `out`.
    pub fn encode(&self, out: &mut Vec<u8>)
        ensures
            final(out)@ == old(out)@ + self.wire(),
    {
        put_zeros(out, 4);
        put_u64(out, self.metadata);
        put_u64(out, self.metadata_mask);
        assert(out@ =~= old(out)@ + self.wire());
    }

    /// The wire form as a vector of its own.
    pub fn into_bytes(&self) -> (res: Vec<u8>)
        ensures
            res@ == self.wire(),
    {
        let mut out: Vec<u8> = Vec::new();
        self.encode(&mut out);
        out
    }

    /// The wire form is 20 bytes long, and decoding it gives the record back.
    pub proof fn lemma_roundtrip(self)
        requires
            self.wf(),
        ensures
            self.wire().len() == 20,
            Self::spec_try_from(self.wire()) == Ok::<PayloadWriteMetaData, Error>(self),
    {
        let w = self.wire();
        assert(spec_u64_at(w, 4) == self.metadata) by {
            lemma_u64_at_bytes(w, 4, self.metadata);
        }
        assert(spec_u64_at(w, 12) == self.metadata_mask) by {
            lemma_u64_at_bytes(w, 12, self.metadata_mask);
        }
    }

    /// What a slice decodes to holds what the wire format can carry, and is as
    /// long on the wire as the slice.
    pub proof fn lemma_decoded(b: Seq<u8>)
        requires
            Self::spec_try_from(b) is Ok,
        ensures
            Self::spec_try_from(b)->Ok_0.wf(),
            Self::spec_try_from(b)->Ok_0.wire().len() == b.len(),
    {
    }
}

/// The body of a write-actions instruction: four bytes of padding, then the
/// actions.
#[derive(Debug, PartialEq, Eq, Clone)]
pub struct PayloadWriteActions {
    /// The actions to write.
    pub actions: Vec<ActionHeader>,
}

/// The mathematical value of `PayloadWriteActions`.
pub struct PayloadWriteActionsView {
    /// The actions to write.
    pub actions: Seq<ActionHeader>,
}

impl View for PayloadWriteActions {
    type V = PayloadWriteActionsView;

    open spec fn view(&self) -> PayloadWriteActionsView {
        PayloadWriteActionsView {
            actions: self.actions@,
        }
    }
}

impl PayloadWriteActionsView {
    /// The bytes on the wire; padding is zero.
    pub open spec fn wire(self) -> Seq<u8> {
        zeros(4)
            + ActionHeader::spec_wire_list(self.actions)
    }

    /// Every part holds what the wire format can carry.
    pub open spec fn wf(self) -> bool {
        &&& forall|i: int| 0 <= i < self.actions.len() ==> (#[trigger] self.actions[i]).wf()
    }

    /// What is read at the offsets of the fixed part of the wire form: the fields,
    /// and after the 4 bytes of the fixed part what follows it.
    #[verifier::rlimit(60)]
    pub proof fn lemma_fixed_part(self)
        ensures
            ({
                let w = self.wire();
                &&& w.len() >= 4
                &&& w.subrange(4, w.len() as int) == ActionHeader::spec_wire_list(self.actions)
            }),
    {
        let w = self.wire();
        let h = zeros(4);
        let t = ActionHeader::spec_wire_list(self.actions);
        assert(h.len() == 4);
        assert(w =~= h + t);
        assert(w.subrange(4, w.len() as int) =~= t);
    }

    /// Decoding the wire form gives the value back.
    #[verifier::rlimit(60)]
    pub proof fn lemma_roundtrip(self)
        requires
            self.wf(),
        ensures
            PayloadWriteActions::spec_try_from(self.wire()) == Ok::<PayloadWriteActionsView, Error>(self),
    {
        reveal(PayloadWriteActions::spec_try_from);
        let w = self.wire();
        self.lemma_fixed_part();
        let t = w.subrange(4, w.len() as int);
        let sub = w.subrange(4, w.len() as int);
        assert(sub == ActionHeader::spec_wire_list(self.actions)) by {
            assert(sub =~= t.subrange(0, t.len() as int));
            assert(t.subrange(0, t.len() as int) =~= ActionHeader::spec_wire_list(self.actions));
        }
        assert(ActionHeader::spec_parse_list(sub, 0, Seq::empty()) == Ok::<Seq<ActionHeader>, Error>(self.actions)) by {
            assert(sub.subrange(0, sub.len() as int) =~= sub);
            ActionHeader::lemma_list_roundtrip(sub, 0, Seq::empty(), self.actions);
            assert(Seq::<ActionHeader>::empty() + self.actions =~= self.actions);
        }
    }
}

impl PayloadWriteActions {
    /// What `b` decodes to. The slice must hold the 4 bytes of the fixed part;
    /// then every part is decoded in wire order, and the first failure is the result.
    #[verifier::opaque]
    pub open spec fn spec_try_from(b: Seq<u8>) -> Result<PayloadWriteActionsView, Error> {
        if b.len() < 4 {
            Err(Error::InvalidSliceLength(4, b.len() as usize, "PayloadWriteActions"))
        } else {
            match ActionHeader::spec_parse_list(b.subrange(4, b.len() as int), 0, Seq::empty()) {
                Err(e) => Err(e),
                Ok(actions) => Ok(
                    PayloadWriteActionsView {
                        actions,
                    },
                ),
            }
        }
    }

    /// Decodes a `PayloadWriteActions`.
    pub fn try_from(bytes: &[u8]) -> (res: Result<PayloadWriteActions, Error>)
        ensures
            match res {
                Ok(m) => Self::spec_try_from(bytes@) == Ok::<PayloadWriteActionsView, Error>(m@),
                Err(e) => Self::spec_try_from(bytes@) == Err::<PayloadWriteActionsView, Error>(e),
            },
    {
        proof {
            reveal(PayloadWriteActions::spec_try_from);
        }
        if bytes.len() < 4 {
            return Err(Error::InvalidSliceLength(4, bytes.len(), "PayloadWriteActions"));
        }
        let pos: usize = 4;
        let actions = match ActionHeader::parse_list(slice_subrange(bytes, pos, bytes.len())) {
            Ok(v) => v,
            Err(e) => return Err(e),
        };
        Ok(PayloadWriteActions {
            actions,
        })
    }

    /// Appends the wire form to `out`.
    pub fn encode(&self, out: &mut Vec<u8>)
        ensures
            final(out)@ == old(out)@ + self@.wire(),
    {
        put_zeros(out, 4);
        ActionHeader::encode_list(&self.actions, out);
        assert(out@ =~= old(out)@ + self@.wire());
    }

    /// The wire form as a vector of its own.
    pub fn into_bytes(&self) -> (res: Vec<u8>)
        ensures
            res@ == self@.wire(),
    {
        let mut out: Vec<u8> = Vec::new();
        self.encode(&mut out);
        out
    }

    /// What a slice decodes to holds what the wire format can carry, and is as
    /// long on the wire as the slice.
    #[verifier::rlimit(60)]
    pub proof fn lemma_decoded(b: Seq<u8>)
        requires
            Self::spec_try_from(b) is Ok,
        ensures
            Self::spec_try_from(b)->Ok_0.wf(),
            Self::spec_try_from(b)->Ok_0.wire().len() == b.len(),
    {
        reveal(PayloadWriteActions::spec_try_from);
        ActionHeader::lemma_list_decoded(b.subrange(4, b.len() as int), 0, Seq::empty(), 0);
    }

    /// Encoding what a slice decodes to gives as many bytes as the slice has, and
    /// these decode to the same value: only padding can differ.
    pub proof fn lemma_reencode(b: Seq<u8>)
        requires
            Self::spec_try_from(b) is Ok,
        ensures
            Self::spec_try_from(b)->Ok_0.wire().len() == b.len(),
            Self::spec_try_from(Self::spec_try_from(b)->Ok_0.wire()) == Self::spec_try_from(b),
    {
        Self::lemma_decoded(b);
        Self::spec_try_from(b)->Ok_0.lemma_roundtrip();
    }
}

/// The body of an apply-actions instruction: four bytes of padding, then the
/// actions.
#[derive(Debug, PartialEq, Eq, Clone)]
pub struct PayloadApplyActions {
    /// The actions to apply.
    pub actions: Vec<ActionHeader>,
}

/// The mathematical value of `PayloadApplyActions`.
pub struct PayloadApplyActionsView {
    /// The actions to apply.
    pub actions: Seq<ActionHeader>,
}

impl View for PayloadApplyActions {
    type V = PayloadApplyActionsView;

    open spec fn view(&self) -> PayloadApplyActionsView {
        PayloadApplyActionsView {
            actions: self.actions@,
        }
    }
}

impl PayloadApplyActionsView {
    /// The bytes on the wire; padding is zero.
    pub open spec fn wire(self) -> Seq<u8> {
        zeros(4)
            + ActionHeader::spec_wire_list(self.actions)
    }

    /// Every part holds what the wire format can carry.
    pub open spec fn wf(self) -> bool {
        &&& forall|i: int| 0 <= i < self.actions.len() ==> (#[trigger] self.actions[i]).wf()
    }

    /// What is read at the offsets of the fixed part of the wire form: the fields,
    /// and after the 4 bytes of the fixed part what follows it.
    #[verifier::rlimit(60)]
    pub proof fn lemma_fixed_part(self)
        ensures
            ({
                let w = self.wire();
                &&& w.len() >= 4
                &&& w.subrange(4, w.len() as int) == ActionHeader::spec_wire_list(self.actions)
            }),
    {
        let w = self.wire();
        let h = zeros(4);
        let t = ActionHeader::spec_wire_list(self.actions);
        assert(h.len() == 4);
        assert(w =~= h + t);
        assert(w.subrange(4, w.len() as int) =~= t);
    }

    /// Decoding the wire form gives the value back.
    #[verifier::rlimit(60)]
    pub proof fn lemma_roundtrip(self)
        requires
            self.wf(),
        ensures
            PayloadApplyActions::spec_try_from(self.wire()) == Ok::<PayloadApplyActionsView, Error>(self),
    {
        reveal(PayloadApplyActions::spec_try_from);
        let w = self.wire();
        self.lemma_fixed_part();
        let t = w.subrange(4, w.len() as int);
        let sub = w.subrange(4, w.len() as int);
        assert(sub == ActionHeader::spec_wire_list(self.actions)) by {
            assert(sub =~= t.subrange(0, t.len() as int));
            assert(t.subrange(0, t.len() as int) =~= ActionHeader::spec_wire_list(self.actions));
        }
        assert(ActionHeader::spec_parse_list(sub, 0, Seq::empty()) == Ok::<Seq<ActionHeader>, Error>(self.actions)) by {
            assert(sub.subrange(0, sub.len() as int) =~= sub);
            ActionHeader::lemma_list_roundtrip(sub, 0, Seq::empty(), self.actions);
            assert(Seq::<ActionHeader>::empty() + self.actions =~= self.actions);
        }
    }
}

impl PayloadApplyActions {
    /// What `b` decodes to. The slice must hold the 4 bytes of the fixed part;
    /// then every part is decoded in wire order, and the first failure is the result.
    #[verifier::opaque]
    pub open spec fn spec_try_from(b: Seq<u8>) -> Result<PayloadApplyActionsView, Error> {
        if b.len() < 4 {
            Err(Error::InvalidSliceLength(4, b.len() as usize, "PayloadApplyActions"))
        } else {
            match ActionHeader::spec_parse_list(b.subrange(4, b.len() as int), 0, Seq::empty()) {
                Err(e) => Err(e),
                Ok(actions) => Ok(
                    PayloadApplyActionsView {
                        actions,
                    },
                ),
            }
        }
    }

    /// Decodes a `PayloadApplyActions`.
    pub fn try_from(bytes: &[u8]) -> (res: Result<PayloadApplyActions, Error>)
        ensures
            match res {
                Ok(m) => Self::spec_try_from(bytes@) == Ok::<PayloadApplyActionsView, Error>(m@),
                Err(e) => Self::spec_try_from(bytes@) == Err::<PayloadApplyActionsView, Error>(e),
            },
    {
        proof {
            reveal(PayloadApplyActions::spec_try_from);
        }
        if bytes.len() < 4 {
            return Err(Error::InvalidSliceLength(4, bytes.len(), "PayloadApplyActions"));
        }
        let pos: usize = 4;
        let actions = match ActionHeader::parse_list(slice_subrange(bytes, pos, bytes.len())) {
            Ok(v) => v,
            Err(e) => return Err(e),
        };
        Ok(PayloadApplyActions {
            actions,
        })
    }

    /// Appends the wire form to `out`.
    pub fn encode(&self, out: &mut Vec<u8>)
        ensures
            final(out)@ == old(out)@ + self@.wire(),
    {
        put_zeros(out, 4);
        ActionHeader::encode_list(&self.actions, out);
        assert(out@ =~= old(out)@ + self@.wire());
    }

    /// The wire form as a vector of its own.
    pub fn into_bytes(&self) -> (res: Vec<u8>)
        ensures
            res@ == self@.wire(),
    {
        let mut out: Vec<u8> = Vec::new();
        self.encode(&mut out);
        out
    }

    /// What a slice decodes to holds what the wire format can carry, and is as
    /// long on the wire as the slice.
    #[verifier::rlimit(60)]
    pub proof fn lemma_decoded(b: Seq<u8>)
        requires
            Self::spec_try_from(b) is Ok,
        ensures
            Self::spec_try_from(b)->Ok_0.wf(),
            Self::spec_try_from(b)->Ok_0.wire().len() == b.len(),
    {
        reveal(PayloadApplyActions::spec_try_from);
        ActionHeader::lemma_list_decoded(b.subrange(4, b.len() as int), 0, Seq::empty(), 0);
    }

    /// Encoding what a slice decodes to gives as many bytes as the slice has, and
    /// these decode to the same value: only padding can differ.
    pub proof fn lemma_reencode(b: Seq<u8>)
        requires
            Self::spec_try_from(b) is Ok,
        ensures
            Self::spec_try_from(b)->Ok_0.wire().len() == b.len(),
            Self::spec_try_from(Self::spec_try_from(b)->Ok_0.wire()) == Self::spec_try_from(b),
    {
        Self::lemma_decoded(b);
        Self::spec_try_from(b)->Ok_0.lemma_roundtrip();
    }
}

/// The body of a clear-actions instruction.
#[derive(Debug, PartialEq, Eq, Clone, Copy)]
pub struct PayloadClearActions {}

impl PayloadClearActions {
    /// Every field holds a value that the wire format can carry.
    pub open spec fn wf(self) -> bool {
        true
    }

    /// What `b` decodes to: a slice of another length than 4 is refused, then
    /// each field is decoded in wire order and the first failure is the result.
    pub open spec fn spec_try_from(b: Seq<u8>) -> Result<PayloadClearActions, Error> {
        if b.len() != 4 {
            Err(Error::InvalidSliceLength(4, b.len() as usize, "PayloadClearActions"))
        } else {
            Ok(PayloadClearActions {})
        }
    }

    /// Decodes the 4 bytes of a `PayloadClearActions`.
    pub fn try_from(bytes: &[u8]) -> (res: Result<PayloadClearActions, Error>)
        ensures
            res == Self::spec_try_from(bytes@),
    {
        if bytes.len() != 4 {
            return Err(Error::InvalidSliceLength(4, bytes.len(), "PayloadClearActions"));
        }
        Ok(PayloadClearActions { })
    }

    /// The 4 bytes of the record on the wire; padding is zero.
    pub open spec fn wire(self) -> Seq<u8> {
        zeros(4)
    }

    /// Appends the wire form to `out`.
    pub fn encode(&self, out: &mut Vec<u8>)
        ensures
            final(out)@ == old(out)@ + self.wire(),
    {
        put_zeros(out, 4);
        assert(out@ =~= old(out)@ + self.wire());
    }

    /// The wire form as a vector of its own.
    pub fn into_bytes(&self) -> (res: Vec<u8>)
        ensures
            res@ == self.wire(),
    {
        let mut out: Vec<u8> = Vec::new();
        self.encode(&mut out);
        out
    }

    /// The wire form is 4 bytes long, and decoding it gives the record back.
    pub proof fn lemma_roundtrip(self)
        requires
            self.wf(),
        ensures
            self.wire().len() == 4,
            Self::spec_try_from(self.wire()) == Ok::<PayloadClearActions, Error>(self),
    {
        let w = self.wire();
    }

    /// What a slice decodes to holds what the wire format can carry, and is as
    /// long on the wire as the slice.
    pub proof fn lemma_decoded(b: Seq<u8>)
        requires
            Self::spec_try_from(b) is Ok,
        ensures
            Self::spec_try_from(b)->Ok_0.wf(),
            Self::spec_try_from(b)->Ok_0.wire().len() == b.len(),
    {
    }
}

/// The body of a meter instruction.
#[derive(Debug, PartialEq, Eq, Clone, Copy)]
pub struct PayloadMeter {
    /// The meter to apply.
    pub meter_id: u32,
}

impl PayloadMeter {
    /// Every field holds a value that the wire format can carry.
    pub open spec fn wf(self) -> bool {
        true
    }

    /// What `b` decodes to: a slice of another length than 4 is refused, then
    /// each field is decoded in wire order and the first failure is the result.
    pub open spec fn spec_try_from(b: Seq<u8>) -> Result<PayloadMeter, Error> {
        if b.len() != 4 {
            Err(Error::InvalidSliceLength(4, b.len() as usize, "PayloadMeter"))
        } else {
            Ok(PayloadMeter { meter_id: spec_u32_at(b, 0) })
        }
    }

    /// Decodes the 4 bytes of a `PayloadMeter`.
    pub fn try_from(bytes: &[u8]) -> (res: Result<PayloadMeter, Error>)
        ensures
            res == Self::spec_try_from(bytes@),
    {
        if bytes.len() != 4 {
            return Err(Error::InvalidSliceLength(4, bytes.len(), "PayloadMeter"));
        }
        let meter_id: u32 = get_u32(bytes, 0);
        Ok(PayloadMeter { meter_id })
    }

    /// The 4 bytes of the record on the wire; padding is zero.
    pub open spec fn wire(self) -> Seq<u8> {
        spec_u32_bytes(self.meter_id)
    }

    /// Appends the wire form to `out`.
    pub fn encode(&self, out: &mut Vec<u8>)
        ensures
            final(out)@ == old(out)@ + self.wire(),
    {
        put_u32(out, self.meter_id);
        assert(out@ =~= old(out)@ + self.wire());
    }

    /// The wire form as a vector of its own.
    pub fn into_bytes(&self) -> (res: Vec<u8>)
        ensures
            res@ == self.wire(),
    {
        let mut out: Vec<u8> = Vec::new();
        self.encode(&mut out);
        out
    }

    /// The wire form is 4 bytes long, and decoding it gives the record back.
    pub proof fn lemma_roundtrip(self)
        requires
            self.wf(),
        ensures
            self.wire().len() == 4,
            Self::spec_try_from(self.wire()) == Ok::<PayloadMeter, Error>(self),
    {
        let w = self.wire();
        assert(spec_u32_at(w, 0) == self.meter_id) by {
            lemma_u32_at_bytes(w, 0, self.meter_id);
        }
    }

    /// What a slice decodes to holds what the wire format can carry, and is as
    /// long on the wire as the slice.
    pub proof fn lemma_decoded(b: Seq<u8>)
        requires
            Self::spec_try_from(b) is Ok,
        ensures
            Self::spec_try_from(b)->Ok_0.wf(),
            Self::spec_try_from(b)->Ok_0.wire().len() == b.len(),
    {
    }
}

/// The body of an instruction, by kind.
#[derive(Debug, PartialEq, Eq, Clone)]
pub enum InstructionPayload {
    /// Go to a table.
    GotoTable(PayloadGotoTable),
    /// Write metadata.
    WriteMetaData(PayloadWriteMetaData),
    /// Write actions onto the action set.
    WriteActions(PayloadWriteActions),
    /// Apply actions immediately.
    ApplyActions(PayloadApplyActions),
    /// Clear the action set.
    ClearActions(PayloadClearActions),
    /// Apply a meter.
    Meter(PayloadMeter),
}

/// The mathematical value of `InstructionPayload`.
pub enum InstructionPayloadView {
    /// Go to a table.
    GotoTable(PayloadGotoTable),
    /// Write metadata.
    WriteMetaData(PayloadWriteMetaData),
    /// Write actions onto the action set.
    WriteActions(PayloadWriteActionsView),
    /// Apply actions immediately.
    ApplyActions(PayloadApplyActionsView),
    /// Clear the action set.
    ClearActions(PayloadClearActions),
    /// Apply a meter.
    Meter(PayloadMeter),
}

impl View for InstructionPayload {
    type V = InstructionPayloadView;

    open spec fn view(&self) -> InstructionPayloadView {
        match self {
            InstructionPayload::GotoTable(p) => InstructionPayloadView::GotoTable(*p),
            InstructionPayload::WriteMetaData(p) => InstructionPayloadView::WriteMetaData(*p),
            InstructionPayload::WriteActions(p) => InstructionPayloadView::WriteActions(p@),
            InstructionPayload::ApplyActions(p) => InstructionPayloadView::ApplyActions(p@),
            InstructionPayload::ClearActions(p) => InstructionPayloadView::ClearActions(*p),
            InstructionPayload::Meter(p) => InstructionPayloadView::Meter(*p),
        }
    }
}

impl InstructionPayloadView {
    /// The kind of the body.
    pub open spec fn spec_kind(self) -> InstructionType {
        match self {
            InstructionPayloadView::GotoTable(_) => InstructionType::GotoTable,
            InstructionPayloadView::WriteMetaData(_) => InstructionType::WriteMetadata,
            InstructionPayloadView::WriteActions(_) => InstructionType::WriteActions,
            InstructionPayloadView::ApplyActions(_) => InstructionType::ApplyActions,
            InstructionPayloadView::ClearActions(_) => InstructionType::Clearactions,
            InstructionPayloadView::Meter(_) => InstructionType::Meter,
        }
    }

    /// The bytes of the body on the wire.
    pub open spec fn wire(self) -> Seq<u8> {
        match self {
            InstructionPayloadView::GotoTable(p) => p.wire(),
            InstructionPayloadView::WriteMetaData(p) => p.wire(),
            InstructionPayloadView::WriteActions(p) => p.wire(),
            InstructionPayloadView::ApplyActions(p) => p.wire(),
            InstructionPayloadView::ClearActions(p) => p.wire(),
            InstructionPayloadView::Meter(p) => p.wire(),
        }
    }

    /// The body holds what the wire format can carry.
    pub open spec fn wf(self) -> bool {
        match self {
            InstructionPayloadView::GotoTable(p) => p.wf(),
            InstructionPayloadView::WriteMetaData(p) => p.wf(),
            InstructionPayloadView::WriteActions(p) => p.wf(),
            InstructionPayloadView::ApplyActions(p) => p.wf(),
            InstructionPayloadView::ClearActions(p) => p.wf(),
            InstructionPayloadView::Meter(p) => p.wf(),
        }
    }

    /// Decoding the bytes of a body as one of its own kind gives it back.
    pub proof fn lemma_roundtrip(self)
        requires
            self.wf(),
        ensures
            InstructionHeader::spec_payload(self.spec_kind(), self.wire()) == Ok::<InstructionPayloadView, Error>(self),
    {
        match self {
            InstructionPayloadView::GotoTable(p) => p.lemma_roundtrip(),
            InstructionPayloadView::WriteMetaData(p) => p.lemma_roundtrip(),
            InstructionPayloadView::WriteActions(p) => p.lemma_roundtrip(),
            InstructionPayloadView::ApplyActions(p) => p.lemma_roundtrip(),
            InstructionPayloadView::ClearActions(p) => p.lemma_roundtrip(),
            InstructionPayloadView::Meter(p) => p.lemma_roundtrip(),
        }
    }
}

impl InstructionPayload {
    /// The kind of the body.
    pub fn kind(&self) -> (r: InstructionType)
        ensures
            r == self@.spec_kind(),
    {
        match self {
            InstructionPayload::GotoTable(_) => InstructionType::GotoTable,
            InstructionPayload::WriteMetaData(_) => InstructionType::WriteMetadata,
            InstructionPayload::WriteActions(_) => InstructionType::WriteActions,
            InstructionPayload::ApplyActions(_) => InstructionType::ApplyActions,
            InstructionPayload::ClearActions(_) => InstructionType::Clearactions,
            InstructionPayload::Meter(_) => InstructionType::Meter,
        }
    }

    /// Appends the bytes of the body to `out`.
    pub fn encode(&self, out: &mut Vec<u8>)
        ensures
            final(out)@ == old(out)@ + self@.wire(),
    {
        match self {
            InstructionPayload::GotoTable(p) => p.encode(out),
            InstructionPayload::WriteMetaData(p) => p.encode(out),
            InstructionPayload::WriteActions(p) => p.encode(out),
            InstructionPayload::ApplyActions(p) => p.encode(out),
            InstructionPayload::ClearActions(p) => p.encode(out),
            InstructionPayload::Meter(p) => p.encode(out),
        }
    }

    /// The bytes of the body as a vector of their own.
    pub fn into_bytes(&self) -> (res: Vec<u8>)
        ensures
            res@ == self@.wire(),
    {
        let mut out: Vec<u8> = Vec::new();
        self.encode(&mut out);
        out
    }
}

impl InstructionHeader {
    /// What `b` decodes to as the body of kind `kind`.
    pub open spec fn spec_payload(
        kind: InstructionType,
        b: Seq<u8>,
    ) -> Result<InstructionPayloadView, Error> {
        match kind {
            InstructionType::GotoTable => match PayloadGotoTable::spec_try_from(b) {
                Ok(p) => Ok(InstructionPayloadView::GotoTable(p)),
                Err(e) => Err(e),
            },
            InstructionType::WriteMetadata => match PayloadWriteMetaData::spec_try_from(b) {
                Ok(p) => Ok(InstructionPayloadView::WriteMetaData(p)),
                Err(e) => Err(e),
            },
            InstructionType::WriteActions => match PayloadWriteActions::spec_try_from(b) {
                Ok(p) => Ok(InstructionPayloadView::WriteActions(p)),
                Err(e) => Err(e),
            },
            InstructionType::ApplyActions => match PayloadApplyActions::spec_try_from(b) {
                Ok(p) => Ok(InstructionPayloadView::ApplyActions(p)),
                Err(e) => Err(e),
            },
            InstructionType::Clearactions => match PayloadClearActions::spec_try_from(b) {
                Ok(p) => Ok(InstructionPayloadView::ClearActions(p)),
                Err(e) => Err(e),
            },
            InstructionType::Meter => match PayloadMeter::spec_try_from(b) {
                Ok(p) => Ok(InstructionPayloadView::Meter(p)),
                Err(e) => Err(e),
            },
            InstructionType::Experimenter => Err(Error::UnsupportedType(0xFFFF, "InstructionType")),
        }
    }

    /// Decodes `bytes` as the body of kind `kind`.
    pub fn decode_payload(
        kind: InstructionType,
        bytes: &[u8],
    ) -> (res: Result<InstructionPayload, Error>)
        ensures
            match res {
                Ok(p) => Self::spec_payload(kind, bytes@) == Ok::<InstructionPayloadView, Error>(p@),
                Err(e) => Self::spec_payload(kind, bytes@) == Err::<InstructionPayloadView, Error>(e),
            },
    {
        match kind {
            InstructionType::GotoTable => match PayloadGotoTable::try_from(bytes) {
                Ok(p) => Ok(InstructionPayload::GotoTable(p)),
                Err(e) => Err(e),
            },
            InstructionType::WriteMetadata => match PayloadWriteMetaData::try_from(bytes) {
                Ok(p) => Ok(InstructionPayload::WriteMetaData(p)),
                Err(e) => Err(e),
            },
            InstructionType::WriteActions => match PayloadWriteActions::try_from(bytes) {
                Ok(p) => Ok(InstructionPayload::WriteActions(p)),
                Err(e) => Err(e),
            },
            InstructionType::ApplyActions => match PayloadApplyActions::try_from(bytes) {
                Ok(p) => Ok(InstructionPayload::ApplyActions(p)),
                Err(e) => Err(e),
            },
            InstructionType::Clearactions => match PayloadClearActions::try_from(bytes) {
                Ok(p) => Ok(InstructionPayload::ClearActions(p)),
                Err(e) => Err(e),
            },
            InstructionType::Meter => match PayloadMeter::try_from(bytes) {
                Ok(p) => Ok(InstructionPayload::Meter(p)),
                Err(e) => Err(e),
            },
            InstructionType::Experimenter => Err(Error::UnsupportedType(0xFFFF, "InstructionType")),
        }
    }

    /// What decodes as the body of a kind holds what the wire format can carry,
    /// is of that kind, and is as long on the wire as the slice.
    pub proof fn lemma_payload_decoded(kind: InstructionType, b: Seq<u8>)
        requires
            Self::spec_payload(kind, b) is Ok,
        ensures
            Self::spec_payload(kind, b)->Ok_0.wf(),
            Self::spec_payload(kind, b)->Ok_0.wire().len() == b.len(),
            Self::spec_payload(kind, b)->Ok_0.spec_kind() == kind,
    {
        match kind {
            InstructionType::GotoTable => PayloadGotoTable::lemma_decoded(b),
            InstructionType::WriteMetadata => PayloadWriteMetaData::lemma_decoded(b),
            InstructionType::WriteActions => PayloadWriteActions::lemma_decoded(b),
            InstructionType::ApplyActions => PayloadApplyActions::lemma_decoded(b),
            InstructionType::Clearactions => PayloadClearActions::lemma_decoded(b),
            InstructionType::Meter => PayloadMeter::lemma_decoded(b),
            InstructionType::Experimenter => {},
        }
    }
}

/// An instruction of a flow entry: its kind, its length and its body.
#[derive(Debug, PartialEq, Eq, Clone)]
pub struct InstructionHeader {
    /// The kind of the instruction.
    pub ttype: InstructionType,
    /// The length of the instruction in bytes, head included.
    pub len: u16,
    /// The body.
    pub payload: InstructionPayload,
}

/// The mathematical value of `InstructionHeader`.
pub struct InstructionHeaderView {
    /// The kind of the instruction.
    pub ttype: InstructionType,
    /// The length of the instruction in bytes, head included.
    pub len: u16,
    /// The body.
    pub payload: InstructionPayloadView,
}

impl View for InstructionHeader {
    type V = InstructionHeaderView;

    open spec fn view(&self) -> InstructionHeaderView {
        InstructionHeaderView {
            ttype: self.ttype,
            len: self.len,
            payload: self.payload@,
        }
    }
}

impl InstructionHeaderView {
    /// The bytes on the wire: the head, then the body.
    pub open spec fn wire(self) -> Seq<u8> {
        spec_u16_bytes(self.ttype.spec_to_u16())
            + spec_u16_bytes(self.len)
            + self.payload.wire()
    }

    /// The kind is that of the body, the length field says how long the block is,
    /// and head and body hold what the wire format can carry.
    pub open spec fn wf(self) -> bool {
        &&& self.ttype == self.payload.spec_kind()
        &&& self.len == 4 + self.payload.wire().len()
        &&& self.payload.wf()
    }

    /// The wire form announces its own length and decodes to the value.
    #[verifier::rlimit(60)]
    pub proof fn lemma_roundtrip(self)
        requires
            self.wf(),
        ensures
            4 <= self.wire().len() <= 0x1_0007,
            InstructionHeader::spec_read_len(self.wire(), 0) == Ok::<usize, Error>(self.wire().len() as usize),
            InstructionHeader::spec_try_from(self.wire()) == Ok::<InstructionHeaderView, Error>(self),
    {
        reveal(InstructionHeader::spec_try_from);
        self.payload.lemma_roundtrip();
        let w = self.wire();
        assert(w.len() == 4 + self.payload.wire().len());
        assert(spec_u16_at(w, 0) == self.ttype.spec_to_u16()) by {
            lemma_u16_at_bytes(w, 0, self.ttype.spec_to_u16());
        }
        self.ttype.lemma_wire_value();
        assert(spec_u16_at(w, 2) == self.len) by {
            lemma_u16_at_bytes(w, 2, self.len);
        }
        assert(w.subrange(4, w.len() as int) =~= self.payload.wire());
    }
}

impl InstructionHeader {
    /// How long the block that starts at `pos` says it is; an error where fewer
    /// than 4 bytes are left to hold its head.
    pub open spec fn spec_read_len(b: Seq<u8>, pos: int) -> Result<usize, Error> {
        if pos + 4 > b.len() {
            Err(Error::CouldNotReadLength(2, "InstructionHeader"))
        } else {
            Ok((spec_u16_at(b, pos + 2)) as usize)
        }
    }

    /// Reads the length of the block that starts at `pos`, without consuming
    /// anything.
    pub fn read_len(bytes: &[u8], pos: usize) -> (res: Result<usize, Error>)
        ensures
            res == Self::spec_read_len(bytes@, pos as int),
    {
        if bytes.len() < 4 || pos > bytes.len() - 4 {
            return Err(Error::CouldNotReadLength(2, "InstructionHeader"));
        }
        Ok(get_u16(bytes, pos + 2) as usize)
    }

    /// What a block decodes to. It must hold the 4 bytes of the head and be as long
    /// as its length field says; then the head is decoded, and the rest as the body of
    /// the kind that the head names.
    #[verifier::opaque]
    pub open spec fn spec_try_from(b: Seq<u8>) -> Result<InstructionHeaderView, Error> {
        if b.len() < 4 {
            Err(Error::InvalidSliceLength(4, b.len() as usize, "InstructionHeader"))
        } else if spec_u16_at(b, 2) != b.len() {
            Err(
                Error::InvalidSliceLength(
                    (spec_u16_at(b, 2)) as usize,
                    b.len() as usize,
                    "InstructionHeader",
                ),
            )
        } else {
            match InstructionType::spec_decode(spec_u16_at(b, 0)) {
                Err(e) => Err(e),
                Ok(ttype) => match Self::spec_payload(ttype, b.subrange(4, b.len() as int)) {
                    Err(e) => Err(e),
                    Ok(payload) => Ok(
                        InstructionHeaderView {
                            ttype,
                            len: spec_u16_at(b, 2),
                            payload,
                        },
                    ),
                },
            }
        }
    }

    /// Decodes a `InstructionHeader`.
    pub fn try_from(bytes: &[u8]) -> (res: Result<InstructionHeader, Error>)
        ensures
            match res {
                Ok(m) => Self::spec_try_from(bytes@) == Ok::<InstructionHeaderView, Error>(m@),
                Err(e) => Self::spec_try_from(bytes@) == Err::<InstructionHeaderView, Error>(e),
            },
    {
        proof {
            reveal(InstructionHeader::spec_try_from);
        }
        if bytes.len() < 4 {
            return Err(Error::InvalidSliceLength(4, bytes.len(), "InstructionHeader"));
        }
        let total: usize = get_u16(bytes, 2) as usize;
        if total != bytes.len() {
            return Err(Error::InvalidSliceLength(total, bytes.len(), "InstructionHeader"));
        }
        let ttype = match InstructionType::decode(get_u16(bytes, 0)) {
            Ok(v) => v,
            Err(e) => return Err(e),
        };
        let len: u16 = get_u16(bytes, 2);
        match Self::decode_payload(ttype, slice_subrange(bytes, 4, bytes.len())) {
            Ok(payload) => Ok(InstructionHeader { ttype, len, payload }),
            Err(e) => Err(e),
        }
    }

    /// Appends the wire form to `out`.
    pub fn encode(&self, out: &mut Vec<u8>)
        ensures
            final(out)@ == old(out)@ + self@.wire(),
    {
        put_u16(out, self.ttype.to_u16());
        put_u16(out, self.len);
        self.payload.encode(out);
        assert(out@ =~= old(out)@ + self@.wire());
    }

    /// The wire form as a vector of its own.
    pub fn into_bytes(&self) -> (res: Vec<u8>)
        ensures
            res@ == self@.wire(),
    {
        let mut out: Vec<u8> = Vec::new();
        self.encode(&mut out);
        out
    }

    /// What a block decodes to is well-formed and as long on the wire as the
    /// block.
    #[verifier::rlimit(60)]
    pub proof fn lemma_decoded(b: Seq<u8>)
        requires
            Self::spec_try_from(b) is Ok,
        ensures
            Self::spec_try_from(b)->Ok_0.wf(),
            Self::spec_try_from(b)->Ok_0.wire().len() == b.len(),
    {
        reveal(InstructionHeader::spec_try_from);
        let kind = InstructionType::spec_decode(spec_u16_at(b, 0))->Ok_0;
        Self::lemma_payload_decoded(kind, b.subrange(4, b.len() as int));
    }
}

impl InstructionHeader {
    /// What the bytes of `b` from `pos` on decode to as a run of instructions, after
    /// those in `acc`: each block is as long as its own length field says, none may
    /// reach past the end of `b`, and the first failure is the result.
    pub open spec fn spec_parse_list(
        b: Seq<u8>,
        pos: int,
        acc: Seq<InstructionHeaderView>,
    ) -> Result<
        Seq<InstructionHeaderView>,
        Error,
    >
        decreases b.len() - pos,
    {
        if pos >= b.len() {
            Ok(acc)
        } else {
            match Self::spec_read_len(b, pos) {
                Err(e) => Err(e),
                Ok(n) => if n < 4 || pos + n > b.len() {
                    Err(Error::InvalidSliceLength(n, (b.len() - pos) as usize, "InstructionHeader"))
                } else {
                    match Self::spec_try_from(b.subrange(pos, pos + n)) {
                        Err(e) => Err(e),
                        Ok(t) => Self::spec_parse_list(b, pos + n, acc.push(t)),
                    }
                },
            }
        }
    }

    /// Decodes a slice that holds a run of instructions and nothing else.
    pub fn parse_list(bytes: &[u8]) -> (res: Result<Vec<InstructionHeader>, Error>)
        ensures
            match res {
                Ok(v) => Self::spec_parse_list(bytes@, 0, Seq::empty()) == Ok::<Seq<InstructionHeaderView>, Error>(
                    v@.map_values(|t: InstructionHeader| t@),
                ),
                Err(e) => Self::spec_parse_list(bytes@, 0, Seq::empty()) == Err::<Seq<InstructionHeaderView>, Error>(
                    e,
                ),
            },
    {
        let mut items: Vec<InstructionHeader> = Vec::new();
        let mut pos: usize = 0;
        assert(items@.map_values(|t: InstructionHeader| t@) =~= Seq::<InstructionHeaderView>::empty());
        while pos < bytes.len()
            invariant
                pos <= bytes@.len(),
                Self::spec_parse_list(bytes@, pos as int, items@.map_values(|t: InstructionHeader| t@))
                    == Self::spec_parse_list(bytes@, 0, Seq::empty()),
            decreases bytes@.len() - pos,
        {
            let n: usize = match Self::read_len(bytes, pos) {
                Ok(n) => n,
                Err(e) => return Err(e),
            };
            if n < 4 || n > bytes.len() - pos {
                return Err(Error::InvalidSliceLength(n, bytes.len() - pos, "InstructionHeader"));
            }
            let item = match Self::try_from(slice_subrange(bytes, pos, pos + n)) {
                Ok(t) => t,
                Err(e) => return Err(e),
            };
            proof {
                assert(items@.map_values(|t: InstructionHeader| t@).push(item@) =~= items@.push(item).map_values(|t: InstructionHeader| t@));
            }
            items.push(item);
            pos = pos + n;
        }
        Ok(items)
    }

    /// The wire forms of the instructions of `s`, one after the other.
    pub open spec fn spec_wire_list(s: Seq<InstructionHeaderView>) -> Seq<u8>
        decreases s.len(),
    {
        if s.len() == 0 {
            Seq::empty()
        } else {
            Self::spec_wire_list(s.drop_last()) + s.last().wire()
        }
    }

    /// Appends the wire forms of `items`, in order.
    pub fn encode_list(items: &Vec<InstructionHeader>, out: &mut Vec<u8>)
        ensures
            final(out)@ == old(out)@ + Self::spec_wire_list(items@.map_values(|t: InstructionHeader| t@)),
    {
        let ghost all = items@.map_values(|t: InstructionHeader| t@);
        let mut i: usize = 0;
        assert(old(out)@ + Self::spec_wire_list(all.take(0)) =~= old(out)@);
        while i < items.len()
            invariant
                i <= items@.len(),
                all == items@.map_values(|t: InstructionHeader| t@),
                out@ == old(out)@ + Self::spec_wire_list(all.take(i as int)),
            decreases items@.len() - i,
        {
            let ghost before = out@;
            items[i].encode(out);
            proof {
                let next = all.take(i + 1);
                assert(next.drop_last() =~= all.take(i as int));
                assert(next.last() == items@[i as int]@);
                assert(out@ =~= old(out)@ + Self::spec_wire_list(next));
            }
            i = i + 1;
        }
        assert(all.take(items@.len() as int) =~= all);
    }

    /// The wire forms of a run of instructions are that of the first, then those of
    /// the others.
    pub proof fn lemma_wire_list_front(s: Seq<InstructionHeaderView>)
        requires
            s.len() > 0,
        ensures
            Self::spec_wire_list(s) == s[0].wire() + Self::spec_wire_list(s.drop_first()),
        decreases s.len(),
    {
        if s.len() == 1 {
            assert(s.drop_last() =~= Seq::<InstructionHeaderView>::empty());
            assert(s.drop_first() =~= Seq::<InstructionHeaderView>::empty());
            assert(Self::spec_wire_list(s) =~= s[0].wire() + Self::spec_wire_list(s.drop_first()));
        } else {
            Self::lemma_wire_list_front(s.drop_last());
            assert(s.drop_first().drop_last() =~= s.drop_last().drop_first());
            assert(s.drop_last()[0] == s[0]);
            assert(s.drop_first().last() == s.last());
            assert(Self::spec_wire_list(s) =~= s[0].wire() + Self::spec_wire_list(s.drop_first()));
        }
    }

    /// The length that is read at `pos` of `b` is the one that is read from the
    /// bytes that start there.
    pub proof fn lemma_read_len_at(b: Seq<u8>, pos: int, w: Seq<u8>)
        requires
            0 <= pos,
            pos + w.len() <= b.len(),
            w.len() >= 4,
            b.subrange(pos, pos + w.len()) == w,
        ensures
            Self::spec_read_len(b, pos) == Self::spec_read_len(w, 0),
    {
        let sub = b.subrange(pos, pos + w.len());
        assert(sub[0] == b[pos + 0]);
        assert(sub[1] == b[pos + 1]);
        assert(sub[2] == b[pos + 2]);
        assert(sub[3] == b[pos + 3]);
    }

    /// Where the bytes of `b` from `pos` on are the wire forms of well-formed
    /// instructions, they decode to these, in order, after what was decoded before.
    #[verifier::rlimit(100)]
    pub proof fn lemma_list_roundtrip(
        b: Seq<u8>,
        pos: int,
        acc: Seq<InstructionHeaderView>,
        s: Seq<InstructionHeaderView>,
    )
        requires
            0 <= pos <= b.len(),
            b.subrange(pos, b.len() as int) == Self::spec_wire_list(s),
            forall|i: int| 0 <= i < s.len() ==> (#[trigger] s[i]).wf(),
        ensures
            Self::spec_parse_list(b, pos, acc) == Ok::<Seq<InstructionHeaderView>, Error>(acc + s),
        decreases s.len(),
    {
        if s.len() == 0 {
            assert(acc + s =~= acc);
            assert(b.subrange(pos, b.len() as int).len() == 0);
        } else {
            let first = s[0];
            let rest = s.drop_first();
            let w0 = first.wire();
            let n = w0.len() as int;
            let tail = b.subrange(pos, b.len() as int);
            assert(tail == w0 + Self::spec_wire_list(rest)) by {
                Self::lemma_wire_list_front(s);
            }
            assert(tail.len() == b.len() - pos);
            assert(tail.len() == n + Self::spec_wire_list(rest).len());
            assert(b.subrange(pos, pos + n) == w0) by {
                assert(b.subrange(pos, pos + n) =~= tail.subrange(0, n));
                assert(tail.subrange(0, n) =~= w0);
            }
            assert(b.subrange(pos + n, b.len() as int) == Self::spec_wire_list(rest)) by {
                assert(b.subrange(pos + n, b.len() as int) =~= tail.subrange(n, tail.len() as int));
                assert(tail.subrange(n, tail.len() as int) =~= Self::spec_wire_list(rest));
            }
            assert(4 <= n <= 0x1_0007 && Self::spec_read_len(w0, 0) == Ok::<usize, Error>(
                n as usize,
            ) && Self::spec_try_from(w0) == Ok::<InstructionHeaderView, Error>(first)) by {
                first.lemma_roundtrip();
            }
            assert(Self::spec_read_len(b, pos) == Ok::<usize, Error>(n as usize)) by {
                Self::lemma_read_len_at(b, pos, w0);
            }
            assert forall|i: int| 0 <= i < rest.len() implies (#[trigger] rest[i]).wf() by {
                assert(rest[i] == s[i + 1]);
            }
            assert(Self::spec_parse_list(b, pos + n, acc.push(first)) == Ok::<Seq<InstructionHeaderView>, Error>(
                acc + s,
            )) by {
                Self::lemma_list_roundtrip(b, pos + n, acc.push(first), rest);
                assert(acc.push(first) + rest =~= acc + s);
            }
        }
    }
}

impl InstructionHeader {
    /// The wire forms of a run of instructions followed by one more are those of the
    /// run, then that of the one.
    pub proof fn lemma_wire_list_len(s: Seq<InstructionHeaderView>, t: InstructionHeaderView)
        ensures
            Self::spec_wire_list(s.push(t)).len() == Self::spec_wire_list(s).len() + t.wire().len(),
    {
        assert(s.push(t).drop_last() =~= s);
        assert(s.push(t).last() == t);
    }

    /// What a run of instructions decodes to, after those in `acc`: the instructions of `acc`,
    /// then instructions that hold what the wire format can carry. Together the new ones
    /// are as long on the wire as the bytes that were decoded.
    #[verifier::rlimit(100)]
    pub proof fn lemma_list_decoded(b: Seq<u8>, pos: int, acc: Seq<InstructionHeaderView>, n0: int)
        requires
            0 <= pos <= b.len(),
            0 <= n0 <= acc.len(),
            forall|i: int| n0 <= i < acc.len() ==> (#[trigger] acc[i]).wf(),
            Self::spec_parse_list(b, pos, acc) is Ok,
        ensures
            ({
                let r = Self::spec_parse_list(b, pos, acc)->Ok_0;
                &&& r.len() >= acc.len()
                &&& r.subrange(0, acc.len() as int) == acc
                &&& forall|i: int| n0 <= i < r.len() ==> (#[trigger] r[i]).wf()
                &&& Self::spec_wire_list(r).len() == Self::spec_wire_list(acc).len() + b.len() - pos
            }),
        decreases b.len() - pos,
    {
        if pos >= b.len() {
            assert(acc.subrange(0, acc.len() as int) =~= acc);
        } else {
            let n = Self::spec_read_len(b, pos)->Ok_0 as int;
            let block = b.subrange(pos, pos + n);
            let t = Self::spec_try_from(block)->Ok_0;
            assert(t.wf() && t.wire().len() == n) by {
                Self::lemma_decoded(block);
            }
            let acc2 = acc.push(t);
            assert forall|i: int| n0 <= i < acc2.len() implies (#[trigger] acc2[i]).wf() by {
                if i < acc.len() {
                    assert(acc2[i] == acc[i]);
                }
            }
            Self::lemma_list_decoded(b, pos + n, acc2, n0);
            Self::lemma_wire_list_len(acc, t);
            let r = Self::spec_parse_list(b, pos, acc)->Ok_0;
            assert(r.subrange(0, acc.len() as int) =~= acc) by {
                assert(r.subrange(0, acc2.len() as int) == acc2);
                assert forall|i: int| 0 <= i < acc.len() implies r[i] == acc[i] by {
                    assert(r.subrange(0, acc2.len() as int)[i] == r[i]);
                    assert(acc2[i] == acc[i]);
                }
            }
        }
    }
}

/// Reads the length of the instruction that starts at `pos`, without consuming
/// anything.
pub fn get_instruction_slice_len(bytes: &[u8], pos: usize) -> (res: Result<usize, Error>)
    ensures
        res == InstructionHeader::spec_read_len(bytes@, pos as int),
{
    InstructionHeader::read_len(bytes, pos)
}

} // verus!
