//! Flow-removed: a switch reports that a flow entry is gone.

use crate::err::Error;
use crate::ds::flow_match::{Match, MatchView};
use crate::wire::{
    get_u16, get_u32, get_u64, lemma_u16_at_bytes, lemma_u32_at_bytes, lemma_u64_at_bytes,
    put_u16, put_u32, put_u64, spec_u16_at, spec_u16_bytes, spec_u32_at, spec_u32_bytes,
    spec_u64_at, spec_u64_bytes,
};
use vstd::prelude::*;
use vstd::slice::slice_subrange;

verus! {

/// Why a flow was removed.
#[derive(Debug, PartialEq, Eq, Clone, Copy)]
pub enum FlowRemovedReason {
    /// Flow idle time exceeded the idle timeout.
    IdleTimeout,
    /// Time exceeded the hard timeout.
    HardTimeout,
    /// Evicted by a delete flow mod.
    Delete,
    /// Group was removed.
    GroupDelete,
}

impl FlowRemovedReason {
    /// The variant whose wire value is `raw`, if there is one.
    pub open spec fn spec_from_u8(raw: u8) -> Option<FlowRemovedReason> {
        match raw {
            0 => Some(FlowRemovedReason::IdleTimeout),
            1 => Some(FlowRemovedReason::HardTimeout),
            2 => Some(FlowRemovedReason::Delete),
            3 => Some(FlowRemovedReason::GroupDelete),
            _ => None,
        }
    }

    /// The variant whose wire value is `raw`, if there is one.
    pub fn from_u8(raw: u8) -> (res: Option<FlowRemovedReason>)
        ensures
            res == Self::spec_from_u8(raw),
    {
        match raw {
            0 => Some(FlowRemovedReason::IdleTimeout),
            1 => Some(FlowRemovedReason::HardTimeout),
            2 => Some(FlowRemovedReason::Delete),
            3 => Some(FlowRemovedReason::GroupDelete),
            _ => None,
        }
    }

    /// The wire value of the variant.
    pub open spec fn spec_to_u8(self) -> u8 {
        match self {
            FlowRemovedReason::IdleTimeout => 0,
            FlowRemovedReason::HardTimeout => 1,
            FlowRemovedReason::Delete => 2,
            FlowRemovedReason::GroupDelete => 3,
        }
    }

    /// The wire value of the variant.
    pub fn to_u8(&self) -> (r: u8)
        ensures
            r == self.spec_to_u8(),
    {
        match self {
            FlowRemovedReason::IdleTimeout => 0,
            FlowRemovedReason::HardTimeout => 1,
            FlowRemovedReason::Delete => 2,
            FlowRemovedReason::GroupDelete => 3,
        }
    }

    /// What decoding `raw` gives: its variant, or `UnknownEnum` with the value.
    pub open spec fn spec_decode(raw: u8) -> Result<FlowRemovedReason, Error> {
        match Self::spec_from_u8(raw) {
            Some(v) => Ok(v),
            None => Err(Error::UnknownEnum(raw as u64, "FlowRemovedReason")),
        }
    }

    /// Decodes a wire value; an unknown one is an `UnknownEnum` error.
    pub fn decode(raw: u8) -> (res: Result<FlowRemovedReason, Error>)
        ensures
            res == Self::spec_decode(raw),
    {
        match Self::from_u8(raw) {
            Some(v) => Ok(v),
            None => Err(Error::UnknownEnum(raw as u64, "FlowRemovedReason")),
        }
    }

    /// Every variant is what its own wire value decodes to, and only that
    /// value decodes to it.
    pub proof fn lemma_wire_value(self)
        ensures
            Self::spec_decode(self.spec_to_u8()) == Ok::<FlowRemovedReason, Error>(self),
            forall|raw: u8| Self::spec_from_u8(raw) == Some(self) ==> raw == self.spec_to_u8(),
    {
    }
}

/// A flow entry was removed from a table.
#[derive(Debug, PartialEq, Eq, Clone)]
pub struct FlowRemoved {
    /// Opaque controller-issued identifier.
    pub cookie: u64,
    /// Priority level of the flow entry.
    pub priority: u16,
    /// Why the flow was removed.
    pub reason: FlowRemovedReason,
    /// Id of the table.
    pub table_id: u8,
    /// Time the flow was alive, in seconds.
    pub duration_sec: u32,
    /// Time the flow was alive, in nanoseconds beyond `duration_sec`.
    pub duration_nsec: u32,
    /// Idle timeout of the flow mod that set up the flow.
    pub idle_timeout: u16,
    /// Hard timeout of the flow mod that set up the flow.
    pub hard_timeout: u16,
    /// Packets that matched the flow.
    pub packet_count: u64,
    /// Bytes that matched the flow.
    pub byte_count: u64,
    /// Description of the fields.
    pub mmatch: Match,
}

/// The mathematical value of `FlowRemoved`.
pub struct FlowRemovedView {
    /// Opaque controller-issued identifier.
    pub cookie: u64,
    /// Priority level of the flow entry.
    pub priority: u16,
    /// Why the flow was removed.
    pub reason: FlowRemovedReason,
    /// Id of the table.
    pub table_id: u8,
    /// Time the flow was alive, in seconds.
    pub duration_sec: u32,
    /// Time the flow was alive, in nanoseconds beyond `duration_sec`.
    pub duration_nsec: u32,
    /// Idle timeout of the flow mod that set up the flow.
    pub idle_timeout: u16,
    /// Hard timeout of the flow mod that set up the flow.
    pub hard_timeout: u16,
    /// Packets that matched the flow.
    pub packet_count: u64,
    /// Bytes that matched the flow.
    pub byte_count: u64,
    /// Description of the fields.
    pub mmatch: MatchView,
}

impl View for FlowRemoved {
    type V = FlowRemovedView;

    open spec fn view(&self) -> FlowRemovedView {
        FlowRemovedView {
            cookie: self.cookie,
            priority: self.priority,
            reason: self.reason,
            table_id: self.table_id,
            duration_sec: self.duration_sec,
            duration_nsec: self.duration_nsec,
            idle_timeout: self.idle_timeout,
            hard_timeout: self.hard_timeout,
            packet_count: self.packet_count,
            byte_count: self.byte_count,
            mmatch: self.mmatch@,
        }
    }
}

impl FlowRemovedView {
    /// The bytes on the wire; padding is zero.
    pub open spec fn wire(self) -> Seq<u8> {
        spec_u64_bytes(self.cookie)
            + spec_u16_bytes(self.priority)
            + seq![self.reason.spec_to_u8()]
            + seq![self.table_id]
            + spec_u32_bytes(self.duration_sec)
            + spec_u32_bytes(self.duration_nsec)
            + spec_u16_bytes(self.idle_timeout)
            + spec_u16_bytes(self.hard_timeout)
            + spec_u64_bytes(self.packet_count)
            + spec_u64_bytes(self.byte_count)
            + self.mmatch.wire()
    }

    /// Every part holds what the wire format can carry.
    pub open spec fn wf(self) -> bool {
        &&& self.mmatch.wf()
    }

    /// What is read at the offsets of the fixed part of the wire form: the fields,
    /// and after the 40 bytes of the fixed part what follows it.
    #[verifier::rlimit(60)]
    pub proof fn lemma_fixed_part(self)
        ensures
            ({
                let w = self.wire();
                &&& w.len() >= 40
                &&& w.subrange(40, w.len() as int) == self.mmatch.wire()
                &&& spec_u64_at(w, 0) == self.cookie
                &&& spec_u16_at(w, 8) == self.priority
                &&& w[10] == self.reason.spec_to_u8()
                &&& w[11] == self.table_id
                &&& spec_u32_at(w, 12) == self.duration_sec
                &&& spec_u32_at(w, 16) == self.duration_nsec
                &&& spec_u16_at(w, 20) == self.idle_timeout
                &&& spec_u16_at(w, 22) == self.hard_timeout
                &&& spec_u64_at(w, 24) == self.packet_count
                &&& spec_u64_at(w, 32) == self.byte_count
            }),
    {
        let w = self.wire();
        let h = spec_u64_bytes(self.cookie)
            + spec_u16_bytes(self.priority)
            + seq![self.reason.spec_to_u8()]
            + seq![self.table_id]
            + spec_u32_bytes(self.duration_sec)
            + spec_u32_bytes(self.duration_nsec)
            + spec_u16_bytes(self.idle_timeout)
            + spec_u16_bytes(self.hard_timeout)
            + spec_u64_bytes(self.packet_count)
            + spec_u64_bytes(self.byte_count);
        let t = self.mmatch.wire();
        assert(h.len() == 40);
        assert(w =~= h + t);
        assert(spec_u64_at(w, 0) == self.cookie) by {
            assert(w[0] == h[0]
                && w[1] == h[1]
                && w[2] == h[2]
                && w[3] == h[3]
                && w[4] == h[4]
                && w[5] == h[5]
                && w[6] == h[6]
                && w[7] == h[7]);
            lemma_u64_at_bytes(h, 0, self.cookie);
        }
        assert(spec_u16_at(w, 8) == self.priority) by {
            assert(w[8] == h[8] && w[9] == h[9]);
            lemma_u16_at_bytes(h, 8, self.priority);
        }
        assert(w[10] == self.reason.spec_to_u8());
        assert(w[11] == self.table_id);
        assert(spec_u32_at(w, 12) == self.duration_sec) by {
            assert(w[12] == h[12] && w[13] == h[13] && w[14] == h[14] && w[15] == h[15]);
            lemma_u32_at_bytes(h, 12, self.duration_sec);
        }
        assert(spec_u32_at(w, 16) == self.duration_nsec) by {
            assert(w[16] == h[16] && w[17] == h[17] && w[18] == h[18] && w[19] == h[19]);
            lemma_u32_at_bytes(h, 16, self.duration_nsec);
        }
        assert(spec_u16_at(w, 20) == self.idle_timeout) by {
            assert(w[20] == h[20] && w[21] == h[21]);
            lemma_u16_at_bytes(h, 20, self.idle_timeout);
        }
        assert(spec_u16_at(w, 22) == self.hard_timeout) by {
            assert(w[22] == h[22] && w[23] == h[23]);
            lemma_u16_at_bytes(h, 22, self.hard_timeout);
        }
        assert(spec_u64_at(w, 24) == self.packet_count) by {
            assert(w[24] == h[24]
                && w[25] == h[25]
                && w[26] == h[26]
                && w[27] == h[27]
                && w[28] == h[28]
                && w[29] == h[29]
                && w[30] == h[30]
                && w[31] == h[31]);
            lemma_u64_at_bytes(h, 24, self.packet_count);
        }
        assert(spec_u64_at(w, 32) == self.byte_count) by {
            assert(w[32] == h[32]
                && w[33] == h[33]
                && w[34] == h[34]
                && w[35] == h[35]
                && w[36] == h[36]
                && w[37] == h[37]
                && w[38] == h[38]
                && w[39] == h[39]);
            lemma_u64_at_bytes(h, 32, self.byte_count);
        }
        assert(w.subrange(40, w.len() as int) =~= t);
    }

    /// Decoding the wire form gives the value back.
    #[verifier::rlimit(60)]
    pub proof fn lemma_roundtrip(self)
        requires
            self.wf(),
        ensures
            FlowRemoved::spec_try_from(self.wire()) == Ok::<FlowRemovedView, Error>(self),
    {
        reveal(FlowRemoved::spec_try_from);
        let w = self.wire();
        self.lemma_fixed_part();
        self.reason.lemma_wire_value();
        let t = w.subrange(40, w.len() as int);
        let mw = self.mmatch.wire();
        let n = mw.len() as int;
        assert(8 <= n <= 0x1_0000 && Match::spec_read_len(mw, 0) == Ok::<usize, Error>(n as usize)
            && Match::spec_try_from(mw) == Ok::<MatchView, Error>(self.mmatch)) by {
            Match::lemma_roundtrip(self.mmatch);
        }
        assert(t.len() >= n);
        assert(w.subrange(40, 40 + n) == mw) by {
            assert(w.subrange(40, 40 + n) =~= t.subrange(0, n));
            assert(t.subrange(0, n) =~= mw);
        }
        assert(Match::spec_read_len(w, 40) == Ok::<usize, Error>(n as usize)) by {
            Match::lemma_read_len_at(w, 40, mw);
        }
        assert(w.len() == 40 + n);
    }
}

impl FlowRemoved {
    /// What `b` decodes to. The slice must hold the 40 bytes of the fixed part;
    /// then every part is decoded in wire order, and the first failure is the result.
    #[verifier::opaque]
    pub open spec fn spec_try_from(b: Seq<u8>) -> Result<FlowRemovedView, Error> {
        if b.len() < 40 {
            Err(Error::InvalidSliceLength(40, b.len() as usize, "FlowRemoved"))
        } else {
            match FlowRemovedReason::spec_decode(b[10]) {
                Err(e) => Err(e),
                Ok(reason) => match Match::spec_read_len(b, 40) {
                    Err(e) => Err(e),
                    Ok(n) => if 40 + n > b.len() {
                        Err(Error::InvalidSliceLength(n, (b.len() - 40) as usize, "Match"))
                    } else {
                        match Match::spec_try_from(b.subrange(40, 40 + n)) {
                            Err(e) => Err(e),
                            Ok(mmatch) => if 40 + n != b.len() {
                                Err(
                                    Error::InvalidSliceLength(
                                        (40 + n) as usize,
                                        b.len() as usize,
                                        "FlowRemoved",
                                    ),
                                )
                            } else {
                                Ok(
                                    FlowRemovedView {
                                        cookie: spec_u64_at(b, 0),
                                        priority: spec_u16_at(b, 8),
                                        reason,
                                        table_id: b[11],
                                        duration_sec: spec_u32_at(b, 12),
                                        duration_nsec: spec_u32_at(b, 16),
                                        idle_timeout: spec_u16_at(b, 20),
                                        hard_timeout: spec_u16_at(b, 22),
                                        packet_count: spec_u64_at(b, 24),
                                        byte_count: spec_u64_at(b, 32),
                                        mmatch,
                                    },
                                )
                            },
                        }
                    },
                },
            }
        }
    }

    /// Decodes a `FlowRemoved`.
    pub fn try_from(bytes: &[u8]) -> (res: Result<FlowRemoved, Error>)
        ensures
            match res {
                Ok(m) => Self::spec_try_from(bytes@) == Ok::<FlowRemovedView, Error>(m@),
                Err(e) => Self::spec_try_from(bytes@) == Err::<FlowRemovedView, Error>(e),
            },
    {
        proof {
            reveal(FlowRemoved::spec_try_from);
        }
        if bytes.len() < 40 {
            return Err(Error::InvalidSliceLength(40, bytes.len(), "FlowRemoved"));
        }
        let cookie: u64 = get_u64(bytes, 0);
        let priority: u16 = get_u16(bytes, 8);
        let reason = match FlowRemovedReason::decode(bytes[10]) {
            Ok(v) => v,
            Err(e) => return Err(e),
        };
        let table_id: u8 = bytes[11];
        let duration_sec: u32 = get_u32(bytes, 12);
        let duration_nsec: u32 = get_u32(bytes, 16);
        let idle_timeout: u16 = get_u16(bytes, 20);
        let hard_timeout: u16 = get_u16(bytes, 22);
        let packet_count: u64 = get_u64(bytes, 24);
        let byte_count: u64 = get_u64(bytes, 32);
        let pos: usize = 40;
        let n: usize = match Match::read_len(bytes, pos) {
            Ok(n) => n,
            Err(e) => return Err(e),
        };
        if n > bytes.len() - pos {
            return Err(Error::InvalidSliceLength(n, bytes.len() - pos, "Match"));
        }
        let mmatch = match Match::try_from(slice_subrange(bytes, pos, pos + n)) {
            Ok(m) => m,
            Err(e) => return Err(e),
        };
        let pos: usize = pos + n;
        if pos != bytes.len() {
            return Err(Error::InvalidSliceLength(pos, bytes.len(), "FlowRemoved"));
        }
        Ok(FlowRemoved {
            cookie,
            priority,
            reason,
            table_id,
            duration_sec,
            duration_nsec,
            idle_timeout,
            hard_timeout,
            packet_count,
            byte_count,
            mmatch,
        })
    }

    /// Appends the wire form to `out`.
    pub fn encode(&self, out: &mut Vec<u8>)
        ensures
            final(out)@ == old(out)@ + self@.wire(),
    {
        put_u64(out, self.cookie);
        put_u16(out, self.priority);
        out.push(self.reason.to_u8());
        out.push(self.table_id);
        put_u32(out, self.duration_sec);
        put_u32(out, self.duration_nsec);
        put_u16(out, self.idle_timeout);
        put_u16(out, self.hard_timeout);
        put_u64(out, self.packet_count);
        put_u64(out, self.byte_count);
        self.mmatch.encode(out);
        assert(out@ =~= old(out)@ + self@.wire());
    }

    /// The wire form as a vector of its own.
    pub fn into_bytes(&self) -> (res: Vec<u8>)
        ensures
            res@ == self@.wire(),
    {
        let mut out: Vec<u8> = Vec::new();
        self.encode(&mut out);
        out
    }

    /// What a slice decodes to holds what the wire format can carry, and is as
    /// long on the wire as the slice.
    #[verifier::rlimit(60)]
    pub proof fn lemma_decoded(b: Seq<u8>)
        requires
            Self::spec_try_from(b) is Ok,
        ensures
            Self::spec_try_from(b)->Ok_0.wf(),
            Self::spec_try_from(b)->Ok_0.wire().len() == b.len(),
    {
        reveal(FlowRemoved::spec_try_from);
        let n = Match::spec_read_len(b, 40)->Ok_0 as int;
        Match::lemma_decoded(b.subrange(40, 40 + n));
    }

    /// Encoding what a slice decodes to gives as many bytes as the slice has, and
    /// these decode to the same value: only padding can differ.
    pub proof fn lemma_reencode(b: Seq<u8>)
        requires
            Self::spec_try_from(b) is Ok,
        ensures
            Self::spec_try_from(b)->Ok_0.wire().len() == b.len(),
            Self::spec_try_from(Self::spec_try_from(b)->Ok_0.wire()) == Self::spec_try_from(b),
    {
        Self::lemma_decoded(b);
        Self::spec_try_from(b)->Ok_0.lemma_roundtrip();
    }
}

} // verus!
