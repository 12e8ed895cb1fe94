//! Flow modification.

use crate::err::Error;
use crate::ds::flow_instructions::{InstructionHeader, InstructionHeaderView};
use crate::ds::flow_match::{Match, MatchView};
use crate::ds::ports::PortNumber;
use crate::wire::{
    get_u16, get_u32, get_u64, lemma_u16_at_bytes, lemma_u32_at_bytes, lemma_u64_at_bytes,
    put_u16, put_u32, put_u64, put_zeros, spec_u16_at, spec_u16_bytes, spec_u32_at,
    spec_u32_bytes, spec_u64_at, spec_u64_bytes, zeros,
};
use vstd::prelude::*;
use vstd::slice::slice_subrange;

verus! {

/// What a flow mod does.
#[derive(Debug, PartialEq, Eq, Clone, Copy)]
pub enum FlowModCommand {
    /// New flow.
    Add,
    /// Modify all matching flows.
    Modify,
    /// Modify the entry that strictly matches wildcards and priority.
    ModifyStrict,
    /// Delete all matching flows.
    Delete,
    /// Delete the entry that strictly matches wildcards and priority.
    DeleteStrict,
}

impl FlowModCommand {
    /// The variant whose wire value is `raw`, if there is one.
    pub open spec fn spec_from_u8(raw: u8) -> Option<FlowModCommand> {
        match raw {
            0 => Some(FlowModCommand::Add),
            1 => Some(FlowModCommand::Modify),
            2 => Some(FlowModCommand::ModifyStrict),
            3 => Some(FlowModCommand::Delete),
            4 => Some(FlowModCommand::DeleteStrict),
            _ => None,
        }
    }

    /// The variant whose wire value is `raw`, if there is one.
    pub fn from_u8(raw: u8) -> (res: Option<FlowModCommand>)
        ensures
            res == Self::spec_from_u8(raw),
    {
        match raw {
            0 => Some(FlowModCommand::Add),
            1 => Some(FlowModCommand::Modify),
            2 => Some(FlowModCommand::ModifyStrict),
            3 => Some(FlowModCommand::Delete),
            4 => Some(FlowModCommand::DeleteStrict),
            _ => None,
        }
    }

    /// The wire value of the variant.
    pub open spec fn spec_to_u8(self) -> u8 {
        match self {
            FlowModCommand::Add => 0,
            FlowModCommand::Modify => 1,
            FlowModCommand::ModifyStrict => 2,
            FlowModCommand::Delete => 3,
            FlowModCommand::DeleteStrict => 4,
        }
    }

    /// The wire value of the variant.
    pub fn to_u8(&self) -> (r: u8)
        ensures
            r == self.spec_to_u8(),
    {
        match self {
            FlowModCommand::Add => 0,
            FlowModCommand::Modify => 1,
            FlowModCommand::ModifyStrict => 2,
            FlowModCommand::Delete => 3,
            FlowModCommand::DeleteStrict => 4,
        }
    }

    /// What decoding `raw` gives: its variant, or `UnknownEnum` with the value.
    pub open spec fn spec_decode(raw: u8) -> Result<FlowModCommand, Error> {
        match Self::spec_from_u8(raw) {
            Some(v) => Ok(v),
            None => Err(Error::UnknownEnum(raw as u64, "FlowModCommand")),
        }
    }

    /// Decodes a wire value; an unknown one is an `UnknownEnum` error.
    pub fn decode(raw: u8) -> (res: Result<FlowModCommand, Error>)
        ensures
            res == Self::spec_decode(raw),
    {
        match Self::from_u8(raw) {
            Some(v) => Ok(v),
            None => Err(Error::UnknownEnum(raw as u64, "FlowModCommand")),
        }
    }

    /// Every variant is what its own wire value decodes to, and only that
    /// value decodes to it.
    pub proof fn lemma_wire_value(self)
        ensures
            Self::spec_decode(self.spec_to_u8()) == Ok::<FlowModCommand, Error>(self),
            forall|raw: u8| Self::spec_from_u8(raw) == Some(self) ==> raw == self.spec_to_u8(),
    {
    }
}

/// Send a flow-removed message when the flow expires or is deleted.
pub const FLOW_MOD_FLAGS_SEND_FLOW_REM: u16 = 0x1;

/// Check for overlapping entries first.
pub const FLOW_MOD_FLAGS_CHECK_OVERLAP: u16 = 0x2;

/// Reset the flow packet and byte counts.
pub const FLOW_MOD_FLAGS_RESET_COUNTS: u16 = 0x4;

/// Do not keep track of the packet count.
pub const FLOW_MOD_FLAGS_NO_PKT_COUNTS: u16 = 0x8;

/// Do not keep track of the byte count.
pub const FLOW_MOD_FLAGS_NO_BYT_COUNTS: u16 = 0x10;

/// Every bit that `FlowModFlags` defines.
pub const FLOW_MOD_FLAGS_ALL: u16 = 0x1f;

/// Flags of a flow mod.
#[derive(Debug, PartialEq, Eq, Clone, Copy)]
pub struct FlowModFlags {
    /// The raw bits.
    pub bits: u16,
}

impl FlowModFlags {
    /// No bit is set outside the defined ones.
    pub open spec fn wf(self) -> bool {
        self.bits & !FLOW_MOD_FLAGS_ALL == 0
    }

    /// The flag set with the bits of `raw`, if all of them are defined.
    pub open spec fn spec_from_bits(raw: u16) -> Option<FlowModFlags> {
        if raw & !FLOW_MOD_FLAGS_ALL == 0 {
            Some(FlowModFlags { bits: raw })
        } else {
            None
        }
    }

    /// The flag set with the bits of `raw`, if all of them are defined.
    pub fn from_bits(raw: u16) -> (res: Option<FlowModFlags>)
        ensures
            res == Self::spec_from_bits(raw),
    {
        if raw & !FLOW_MOD_FLAGS_ALL == 0 {
            Some(FlowModFlags { bits: raw })
        } else {
            None
        }
    }

    /// What decoding `raw` gives: the flag set, or `UnknownBits` with the value.
    pub open spec fn spec_decode(raw: u16) -> Result<FlowModFlags, Error> {
        match Self::spec_from_bits(raw) {
            Some(v) => Ok(v),
            None => Err(Error::UnknownBits(raw as u64, "FlowModFlags")),
        }
    }

    /// Decodes a raw word; bits outside the defined ones are an `UnknownBits` error.
    pub fn decode(raw: u16) -> (res: Result<FlowModFlags, Error>)
        ensures
            res == Self::spec_decode(raw),
    {
        match Self::from_bits(raw) {
            Some(v) => Ok(v),
            None => Err(Error::UnknownBits(raw as u64, "FlowModFlags")),
        }
    }

    /// The empty flag set.
    pub fn empty() -> (res: FlowModFlags)
        ensures
            res.bits == 0,
    {
        FlowModFlags { bits: 0 }
    }

    /// The raw bits.
    pub fn bits(&self) -> (r: u16)
        ensures
            r == self.bits,
    {
        self.bits
    }

    /// Whether every bit of `flag` is set.
    pub fn contains(&self, flag: u16) -> (r: bool)
        ensures
            r == (self.bits & flag == flag),
    {
        self.bits & flag == flag
    }
}

/// Sets up or changes a flow entry.
#[derive(Debug, PartialEq, Eq, Clone)]
pub struct FlowMod {
    /// Opaque controller-issued identifier.
    pub cookie: u64,
    /// Mask that restricts the cookie bits that must match.
    pub cookie_mask: u64,
    /// Id of the table to put the flow in.
    pub table_id: u8,
    /// What to do.
    pub command: FlowModCommand,
    /// Idle time before discarding, in seconds.
    pub idle_timeout: u16,
    /// Max time before discarding, in seconds.
    pub hard_timeout: u16,
    /// Priority level of the flow entry.
    pub priority: u16,
    /// Buffered packet to apply to, or no buffer.
    pub buffer_id: u32,
    /// For the delete commands, require matching entries to include this as an output port.
    pub out_port: PortNumber,
    /// For the delete commands, require matching entries to include this as an output group.
    pub out_group: u32,
    /// Bitmap of flags.
    pub flags: FlowModFlags,
    /// The fields to match.
    pub mmatch: Match,
    /// The instructions of the flow.
    pub instructions: Vec<InstructionHeader>,
}

/// The mathematical value of `FlowMod`.
pub struct FlowModView {
    /// Opaque controller-issued identifier.
    pub cookie: u64,
    /// Mask that restricts the cookie bits that must match.
    pub cookie_mask: u64,
    /// Id of the table to put the flow in.
    pub table_id: u8,
    /// What to do.
    pub command: FlowModCommand,
    /// Idle time before discarding, in seconds.
    pub idle_timeout: u16,
    /// Max time before discarding, in seconds.
    pub hard_timeout: u16,
    /// Priority level of the flow entry.
    pub priority: u16,
    /// Buffered packet to apply to, or no buffer.
    pub buffer_id: u32,
    /// For the delete commands, require matching entries to include this as an output port.
    pub out_port: PortNumber,
    /// For the delete commands, require matching entries to include this as an output group.
    pub out_group: u32,
    /// Bitmap of flags.
    pub flags: FlowModFlags,
    /// The fields to match.
    pub mmatch: MatchView,
    /// The instructions of the flow.
    pub instructions: Seq<InstructionHeaderView>,
}

impl View for FlowMod {
    type V = FlowModView;

    open spec fn view(&self) -> FlowModView {
        FlowModView {
            cookie: self.cookie,
            cookie_mask: self.cookie_mask,
            table_id: self.table_id,
            command: self.command,
            idle_timeout: self.idle_timeout,
            hard_timeout: self.hard_timeout,
            priority: self.priority,
            buffer_id: self.buffer_id,
            out_port: self.out_port,
            out_group: self.out_group,
            flags: self.flags,
            mmatch: self.mmatch@,
            instructions: self.instructions@.map_values(|t: InstructionHeader| t@),
        }
    }
}

impl FlowModView {
    /// The bytes on the wire; padding is zero.
    pub open spec fn wire(self) -> Seq<u8> {
        spec_u64_bytes(self.cookie)
            + spec_u64_bytes(self.cookie_mask)
            + seq![self.table_id]
            + seq![self.command.spec_to_u8()]
            + spec_u16_bytes(self.idle_timeout)
            + spec_u16_bytes(self.hard_timeout)
            + spec_u16_bytes(self.priority)
            + spec_u32_bytes(self.buffer_id)
            + spec_u32_bytes(self.out_port.spec_to_u32())
            + spec_u32_bytes(self.out_group)
            + spec_u16_bytes(self.flags.bits)
            + zeros(2)
            + self.mmatch.wire()
            + InstructionHeader::spec_wire_list(self.instructions)
    }

    /// Every part holds what the wire format can carry.
    pub open spec fn wf(self) -> bool {
        &&& self.out_port.wf()
        &&& self.flags.wf()
        &&& self.mmatch.wf()
        &&& forall|i: int| 0 <= i < self.instructions.len() ==> (#[trigger] self.instructions[i]).wf()
    }

    /// What is read at the offsets of the fixed part of the wire form: the fields,
    /// and after the 40 bytes of the fixed part what follows it.
    #[verifier::rlimit(60)]
    pub proof fn lemma_fixed_part(self)
        ensures
            ({
                let w = self.wire();
                &&& w.len() >= 40
                &&& w.subrange(40, w.len() as int) == self.mmatch.wire() + InstructionHeader::spec_wire_list(self.instructions)
                &&& spec_u64_at(w, 0) == self.cookie
                &&& spec_u64_at(w, 8) == self.cookie_mask
                &&& w[16] == self.table_id
                &&& w[17] == self.command.spec_to_u8()
                &&& spec_u16_at(w, 18) == self.idle_timeout
                &&& spec_u16_at(w, 20) == self.hard_timeout
                &&& spec_u16_at(w, 22) == self.priority
                &&& spec_u32_at(w, 24) == self.buffer_id
                &&& spec_u32_at(w, 28) == self.out_port.spec_to_u32()
                &&& spec_u32_at(w, 32) == self.out_group
                &&& spec_u16_at(w, 36) == self.flags.bits
            }),
    {
        let w = self.wire();
        let h = spec_u64_bytes(self.cookie)
            + spec_u64_bytes(self.cookie_mask)
            + seq![self.table_id]
            + seq![self.command.spec_to_u8()]
            + spec_u16_bytes(self.idle_timeout)
            + spec_u16_bytes(self.hard_timeout)
            + spec_u16_bytes(self.priority)
            + spec_u32_bytes(self.buffer_id)
            + spec_u32_bytes(self.out_port.spec_to_u32())
            + spec_u32_bytes(self.out_group)
            + spec_u16_bytes(self.flags.bits)
            + zeros(2);
        let t = self.mmatch.wire() + InstructionHeader::spec_wire_list(self.instructions);
        assert(h.len() == 40);
        assert(w =~= h + t);
        assert(spec_u64_at(w, 0) == self.cookie) by {
            assert(w[0] == h[0]
                && w[1] == h[1]
                && w[2] == h[2]
                && w[3] == h[3]
                && w[4] == h[4]
                && w[5] == h[5]
                && w[6] == h[6]
                && w[7] == h[7]);
            lemma_u64_at_bytes(h, 0, self.cookie);
        }
        assert(spec_u64_at(w, 8) == self.cookie_mask) by {
            assert(w[8] == h[8]
                && w[9] == h[9]
                && w[10] == h[10]
                && w[11] == h[11]
                && w[12] == h[12]
                && w[13] == h[13]
                && w[14] == h[14]
                && w[15] == h[15]);
            lemma_u64_at_bytes(h, 8, self.cookie_mask);
        }
        assert(w[16] == self.table_id);
        assert(w[17] == self.command.spec_to_u8());
        assert(spec_u16_at(w, 18) == self.idle_timeout) by {
            assert(w[18] == h[18] && w[19] == h[19]);
            lemma_u16_at_bytes(h, 18, self.idle_timeout);
        }
        assert(spec_u16_at(w, 20) == self.hard_timeout) by {
            assert(w[20] == h[20] && w[21] == h[21]);
            lemma_u16_at_bytes(h, 20, self.hard_timeout);
        }
        assert(spec_u16_at(w, 22) == self.priority) by {
            assert(w[22] == h[22] && w[23] == h[23]);
            lemma_u16_at_bytes(h, 22, self.priority);
        }
        assert(spec_u32_at(w, 24) == self.buffer_id) by {
            assert(w[24] == h[24] && w[25] == h[25] && w[26] == h[26] && w[27] == h[27]);
            lemma_u32_at_bytes(h, 24, self.buffer_id);
        }
        assert(spec_u32_at(w, 28) == self.out_port.spec_to_u32()) by {
            assert(w[28] == h[28] && w[29] == h[29] && w[30] == h[30] && w[31] == h[31]);
            lemma_u32_at_bytes(h, 28, self.out_port.spec_to_u32());
        }
        assert(spec_u32_at(w, 32) == self.out_group) by {
            assert(w[32] == h[32] && w[33] == h[33] && w[34] == h[34] && w[35] == h[35]);
            lemma_u32_at_bytes(h, 32, self.out_group);
        }
        assert(spec_u16_at(w, 36) == self.flags.bits) by {
            assert(w[36] == h[36] && w[37] == h[37]);
            lemma_u16_at_bytes(h, 36, self.flags.bits);
        }
        assert(w.subrange(40, w.len() as int) =~= t);
    }

    /// Decoding the wire form gives the value back.
    #[verifier::rlimit(60)]
    pub proof fn lemma_roundtrip(self)
        requires
            self.wf(),
        ensures
            FlowMod::spec_try_from(self.wire()) == Ok::<FlowModView, Error>(self),
    {
        reveal(FlowMod::spec_try_from);
        let w = self.wire();
        self.lemma_fixed_part();
        self.command.lemma_wire_value();
        self.out_port.lemma_wire_value();
        let t = w.subrange(40, w.len() as int);
        let mw = self.mmatch.wire();
        let n = mw.len() as int;
        assert(8 <= n <= 0x1_0000 && Match::spec_read_len(mw, 0) == Ok::<usize, Error>(n as usize)
            && Match::spec_try_from(mw) == Ok::<MatchView, Error>(self.mmatch)) by {
            Match::lemma_roundtrip(self.mmatch);
        }
        assert(t.len() >= n);
        assert(w.subrange(40, 40 + n) == mw) by {
            assert(w.subrange(40, 40 + n) =~= t.subrange(0, n));
            assert(t.subrange(0, n) =~= mw);
        }
        assert(Match::spec_read_len(w, 40) == Ok::<usize, Error>(n as usize)) by {
            Match::lemma_read_len_at(w, 40, mw);
        }
        let sub = w.subrange(40 + n, w.len() as int);
        assert(sub == InstructionHeader::spec_wire_list(self.instructions)) by {
            assert(sub =~= t.subrange(n, t.len() as int));
            assert(t.subrange(n, t.len() as int) =~= InstructionHeader::spec_wire_list(self.instructions));
        }
        assert(InstructionHeader::spec_parse_list(sub, 0, Seq::empty()) == Ok::<Seq<InstructionHeaderView>, Error>(self.instructions)) by {
            assert(sub.subrange(0, sub.len() as int) =~= sub);
            InstructionHeader::lemma_list_roundtrip(sub, 0, Seq::empty(), self.instructions);
            assert(Seq::<InstructionHeaderView>::empty() + self.instructions =~= self.instructions);
        }
    }
}

impl FlowMod {
    /// What `b` decodes to. The slice must hold the 40 bytes of the fixed part;
    /// then every part is decoded in wire order, and the first failure is the result.
    #[verifier::opaque]
    pub open spec fn spec_try_from(b: Seq<u8>) -> Result<FlowModView, Error> {
        if b.len() < 40 {
            Err(Error::InvalidSliceLength(40, b.len() as usize, "FlowMod"))
        } else {
            match FlowModCommand::spec_decode(b[17]) {
                Err(e) => Err(e),
                Ok(command) => match PortNumber::spec_try_from(spec_u32_at(b, 28)) {
                    Err(e) => Err(e),
                    Ok(out_port) => match FlowModFlags::spec_decode(spec_u16_at(b, 36)) {
                        Err(e) => Err(e),
                        Ok(flags) => match Match::spec_read_len(b, 40) {
                            Err(e) => Err(e),
                            Ok(n) => if 40 + n > b.len() {
                                Err(Error::InvalidSliceLength(n, (b.len() - 40) as usize, "Match"))
                            } else {
                                match Match::spec_try_from(b.subrange(40, 40 + n)) {
                                    Err(e) => Err(e),
                                    Ok(mmatch) => match InstructionHeader::spec_parse_list(b.subrange(40 + n, b.len() as int), 0, Seq::empty()) {
                                        Err(e) => Err(e),
                                        Ok(instructions) => Ok(
                                            FlowModView {
                                                cookie: spec_u64_at(b, 0),
                                                cookie_mask: spec_u64_at(b, 8),
                                                table_id: b[16],
                                                command,
                                                idle_timeout: spec_u16_at(b, 18),
                                                hard_timeout: spec_u16_at(b, 20),
                                                priority: spec_u16_at(b, 22),
                                                buffer_id: spec_u32_at(b, 24),
                                                out_port,
                                                out_group: spec_u32_at(b, 32),
                                                flags,
                                                mmatch,
                                                instructions,
                                            },
                                        ),
                                    },
                                }
                            },
                        },
                    },
                },
            }
        }
    }

    /// Decodes a `FlowMod`.
    pub fn try_from(bytes: &[u8]) -> (res: Result<FlowMod, Error>)
        ensures
            match res {
                Ok(m) => Self::spec_try_from(bytes@) == Ok::<FlowModView, Error>(m@),
                Err(e) => Self::spec_try_from(bytes@) == Err::<FlowModView, Error>(e),
            },
    {
        proof {
            reveal(FlowMod::spec_try_from);
        }
        if bytes.len() < 40 {
            return Err(Error::InvalidSliceLength(40, bytes.len(), "FlowMod"));
        }
        let cookie: u64 = get_u64(bytes, 0);
        let cookie_mask: u64 = get_u64(bytes, 8);
        let table_id: u8 = bytes[16];
        let command = match FlowModCommand::decode(bytes[17]) {
            Ok(v) => v,
            Err(e) => return Err(e),
        };
        let idle_timeout: u16 = get_u16(bytes, 18);
        let hard_timeout: u16 = get_u16(bytes, 20);
        let priority: u16 = get_u16(bytes, 22);
        let buffer_id: u32 = get_u32(bytes, 24);
        let out_port = match PortNumber::try_from(get_u32(bytes, 28)) {
            Ok(v) => v,
            Err(e) => return Err(e),
        };
        let out_group: u32 = get_u32(bytes, 32);
        let flags = match FlowModFlags::decode(get_u16(bytes, 36)) {
            Ok(v) => v,
            Err(e) => return Err(e),
        };
        let pos: usize = 40;
        let n: usize = match Match::read_len(bytes, pos) {
            Ok(n) => n,
            Err(e) => return Err(e),
        };
        if n > bytes.len() - pos {
            return Err(Error::InvalidSliceLength(n, bytes.len() - pos, "Match"));
        }
        let mmatch = match Match::try_from(slice_subrange(bytes, pos, pos + n)) {
            Ok(m) => m,
            Err(e) => return Err(e),
        };
        let pos: usize = pos + n;
        let instructions = match InstructionHeader::parse_list(slice_subrange(bytes, pos, bytes.len())) {
            Ok(v) => v,
            Err(e) => return Err(e),
        };
        Ok(FlowMod {
            cookie,
            cookie_mask,
            table_id,
            command,
            idle_timeout,
            hard_timeout,
            priority,
            buffer_id,
            out_port,
            out_group,
            flags,
            mmatch,
            instructions,
        })
    }

    /// Appends the wire form to `out`.
    pub fn encode(&self, out: &mut Vec<u8>)
        ensures
            final(out)@ == old(out)@ + self@.wire(),
    {
        put_u64(out, self.cookie);
        put_u64(out, self.cookie_mask);
        out.push(self.table_id);
        out.push(self.command.to_u8());
        put_u16(out, self.idle_timeout);
        put_u16(out, self.hard_timeout);
        put_u16(out, self.priority);
        put_u32(out, self.buffer_id);
        put_u32(out, self.out_port.to_u32());
        put_u32(out, self.out_group);
        put_u16(out, self.flags.bits);
        put_zeros(out, 2);
        self.mmatch.encode(out);
        InstructionHeader::encode_list(&self.instructions, out);
        assert(out@ =~= old(out)@ + self@.wire());
    }

    /// The wire form as a vector of its own.
    pub fn into_bytes(&self) -> (res: Vec<u8>)
        ensures
            res@ == self@.wire(),
    {
        let mut out: Vec<u8> = Vec::new();
        self.encode(&mut out);
        out
    }

    /// What a slice decodes to holds what the wire format can carry, and is as
    /// long on the wire as the slice.
    #[verifier::rlimit(60)]
    pub proof fn lemma_decoded(b: Seq<u8>)
        requires
            Self::spec_try_from(b) is Ok,
        ensures
            Self::spec_try_from(b)->Ok_0.wf(),
            Self::spec_try_from(b)->Ok_0.wire().len() == b.len(),
    {
        reveal(FlowMod::spec_try_from);
        let n = Match::spec_read_len(b, 40)->Ok_0 as int;
        Match::lemma_decoded(b.subrange(40, 40 + n));
        InstructionHeader::lemma_list_decoded(b.subrange(40 + n, b.len() as int), 0, Seq::empty(), 0);
    }

    /// Encoding what a slice decodes to gives as many bytes as the slice has, and
    /// these decode to the same value: only padding can differ.
    pub proof fn lemma_reencode(b: Seq<u8>)
        requires
            Self::spec_try_from(b) is Ok,
        ensures
            Self::spec_try_from(b)->Ok_0.wire().len() == b.len(),
            Self::spec_try_from(Self::spec_try_from(b)->Ok_0.wire()) == Self::spec_try_from(b),
    {
        Self::lemma_decoded(b);
        Self::spec_try_from(b)->Ok_0.lemma_roundtrip();
    }
}

} // verus!
