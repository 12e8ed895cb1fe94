//! Packet-in: a packet that a switch hands to the controller.

use crate::err::Error;
use crate::ds::flow_match::{Match, MatchView};
use crate::wire::{
    get_u16, get_u32, get_u64, lemma_u16_at_bytes, lemma_u32_at_bytes, lemma_u64_at_bytes,
    put_bytes, put_u16, put_u32, put_u64, put_zeros, spec_u16_at, spec_u16_bytes, spec_u32_at,
    spec_u32_bytes, spec_u64_at, spec_u64_bytes, zeros,
};
use vstd::prelude::*;
use vstd::slice::{slice_subrange, slice_to_vec};

verus! {

/// Why a packet is sent to the controller.
#[derive(Debug, PartialEq, Eq, Clone, Copy)]
pub enum InReason {
    /// No matching flow (table-miss flow entry).
    NoMatch,
    /// Action explicitly output to controller.
    Action,
    /// Packet has invalid TTL.
    InvalidTtl,
}

impl InReason {
    /// The variant whose wire value is `raw`, if there is one.
    pub open spec fn spec_from_u8(raw: u8) -> Option<InReason> {
        match raw {
            0 => Some(InReason::NoMatch),
            1 => Some(InReason::Action),
            2 => Some(InReason::InvalidTtl),
            _ => None,
        }
    }

    /// The variant whose wire value is `raw`, if there is one.
    pub fn from_u8(raw: u8) -> (res: Option<InReason>)
        ensures
            res == Self::spec_from_u8(raw),
    {
        match raw {
            0 => Some(InReason::NoMatch),
            1 => Some(InReason::Action),
            2 => Some(InReason::InvalidTtl),
            _ => None,
        }
    }

    /// The wire value of the variant.
    pub open spec fn spec_to_u8(self) -> u8 {
        match self {
            InReason::NoMatch => 0,
            InReason::Action => 1,
            InReason::InvalidTtl => 2,
        }
    }

    /// The wire value of the variant.
    pub fn to_u8(&self) -> (r: u8)
        ensures
            r == self.spec_to_u8(),
    {
        match self {
            InReason::NoMatch => 0,
            InReason::Action => 1,
            InReason::InvalidTtl => 2,
        }
    }

    /// What decoding `raw` gives: its variant, or `UnknownEnum` with the value.
    pub open spec fn spec_decode(raw: u8) -> Result<InReason, Error> {
        match Self::spec_from_u8(raw) {
            Some(v) => Ok(v),
            None => Err(Error::UnknownEnum(raw as u64, "InReason")),
        }
    }

    /// Decodes a wire value; an unknown one is an `UnknownEnum` error.
    pub fn decode(raw: u8) -> (res: Result<InReason, Error>)
        ensures
            res == Self::spec_decode(raw),
    {
        match Self::from_u8(raw) {
            Some(v) => Ok(v),
            None => Err(Error::UnknownEnum(raw as u64, "InReason")),
        }
    }

    /// Every variant is what its own wire value decodes to, and only that
    /// value decodes to it.
    pub proof fn lemma_wire_value(self)
        ensures
            Self::spec_decode(self.spec_to_u8()) == Ok::<InReason, Error>(self),
            forall|raw: u8| Self::spec_from_u8(raw) == Some(self) ==> raw == self.spec_to_u8(),
    {
    }
}

/// A packet received on a port of the datapath and sent to the controller.
#[derive(Debug, PartialEq, Eq, Clone)]
pub struct PacketIn {
    /// Id assigned by the datapath.
    pub buffer_id: u32,
    /// Full length of the frame.
    pub total_len: u16,
    /// Reason the packet is being sent.
    pub reason: InReason,
    /// Id of the table that was looked up.
    pub table_id: u8,
    /// Cookie of the flow entry that was looked up.
    pub cookie: u64,
    /// Packet metadata.
    pub mmatch: Match,
    /// The Ethernet frame.
    pub ethernet_frame: Vec<u8>,
}

/// The mathematical value of `PacketIn`.
pub struct PacketInView {
    /// Id assigned by the datapath.
    pub buffer_id: u32,
    /// Full length of the frame.
    pub total_len: u16,
    /// Reason the packet is being sent.
    pub reason: InReason,
    /// Id of the table that was looked up.
    pub table_id: u8,
    /// Cookie of the flow entry that was looked up.
    pub cookie: u64,
    /// Packet metadata.
    pub mmatch: MatchView,
    /// The Ethernet frame.
    pub ethernet_frame: Seq<u8>,
}

impl View for PacketIn {
    type V = PacketInView;

    open spec fn view(&self) -> PacketInView {
        PacketInView {
            buffer_id: self.buffer_id,
            total_len: self.total_len,
            reason: self.reason,
            table_id: self.table_id,
            cookie: self.cookie,
            mmatch: self.mmatch@,
            ethernet_frame: self.ethernet_frame@,
        }
    }
}

impl PacketInView {
    /// The bytes on the wire; padding is zero.
    pub open spec fn wire(self) -> Seq<u8> {
        spec_u32_bytes(self.buffer_id)
            + spec_u16_bytes(self.total_len)
            + seq![self.reason.spec_to_u8()]
            + seq![self.table_id]
            + spec_u64_bytes(self.cookie)
            + self.mmatch.wire()
            + zeros(2)
            + self.ethernet_frame
    }

    /// Every part holds what the wire format can carry.
    pub open spec fn wf(self) -> bool {
        &&& self.mmatch.wf()
    }

    /// What is read at the offsets of the fixed part of the wire form: the fields,
    /// and after the 16 bytes of the fixed part what follows it.
    #[verifier::rlimit(60)]
    pub proof fn lemma_fixed_part(self)
        ensures
            ({
                let w = self.wire();
                &&& w.len() >= 16
                &&& w.subrange(16, w.len() as int) == self.mmatch.wire() + zeros(2) + self.ethernet_frame
                &&& spec_u32_at(w, 0) == self.buffer_id
                &&& spec_u16_at(w, 4) == self.total_len
                &&& w[6] == self.reason.spec_to_u8()
                &&& w[7] == self.table_id
                &&& spec_u64_at(w, 8) == self.cookie
            }),
    {
        let w = self.wire();
        let h = spec_u32_bytes(self.buffer_id)
            + spec_u16_bytes(self.total_len)
            + seq![self.reason.spec_to_u8()]
            + seq![self.table_id]
            + spec_u64_bytes(self.cookie);
        let t = self.mmatch.wire() + zeros(2) + self.ethernet_frame;
        assert(h.len() == 16);
        assert(w =~= h + t);
        assert(spec_u32_at(w, 0) == self.buffer_id) by {
            assert(w[0] == h[0] && w[1] == h[1] && w[2] == h[2] && w[3] == h[3]);
            lemma_u32_at_bytes(h, 0, self.buffer_id);
        }
        assert(spec_u16_at(w, 4) == self.total_len) by {
            assert(w[4] == h[4] && w[5] == h[5]);
            lemma_u16_at_bytes(h, 4, self.total_len);
        }
        assert(w[6] == self.reason.spec_to_u8());
        assert(w[7] == self.table_id);
        assert(spec_u64_at(w, 8) == self.cookie) by {
            assert(w[8] == h[8]
                && w[9] == h[9]
                && w[10] == h[10]
                && w[11] == h[11]
                && w[12] == h[12]
                && w[13] == h[13]
                && w[14] == h[14]
                && w[15] == h[15]);
            lemma_u64_at_bytes(h, 8, self.cookie);
        }
        assert(w.subrange(16, w.len() as int) =~= t);
    }

    /// Decoding the wire form gives the value back.
    #[verifier::rlimit(60)]
    pub proof fn lemma_roundtrip(self)
        requires
            self.wf(),
        ensures
            PacketIn::spec_try_from(self.wire()) == Ok::<PacketInView, Error>(self),
    {
        reveal(PacketIn::spec_try_from);
        let w = self.wire();
        self.lemma_fixed_part();
        self.reason.lemma_wire_value();
        let t = w.subrange(16, w.len() as int);
        let mw = self.mmatch.wire();
        let n = mw.len() as int;
        assert(8 <= n <= 0x1_0000 && Match::spec_read_len(mw, 0) == Ok::<usize, Error>(n as usize)
            && Match::spec_try_from(mw) == Ok::<MatchView, Error>(self.mmatch)) by {
            Match::lemma_roundtrip(self.mmatch);
        }
        assert(t.len() >= n);
        assert(w.subrange(16, 16 + n) == mw) by {
            assert(w.subrange(16, 16 + n) =~= t.subrange(0, n));
            assert(t.subrange(0, n) =~= mw);
        }
        assert(Match::spec_read_len(w, 16) == Ok::<usize, Error>(n as usize)) by {
            Match::lemma_read_len_at(w, 16, mw);
        }
        assert(w.subrange(16 + n + 2, w.len() as int) == self.ethernet_frame) by {
            assert(w.subrange(16 + n + 2, w.len() as int) =~= t.subrange(n + 2, t.len() as int));
            assert(t.subrange(n + 2, t.len() as int) =~= self.ethernet_frame);
        }
    }
}

impl PacketIn {
    /// What `b` decodes to. The slice must hold the 16 bytes of the fixed part;
    /// then every part is decoded in wire order, and the first failure is the result.
    #[verifier::opaque]
    pub open spec fn spec_try_from(b: Seq<u8>) -> Result<PacketInView, Error> {
        if b.len() < 16 {
            Err(Error::InvalidSliceLength(16, b.len() as usize, "PacketIn"))
        } else {
            match InReason::spec_decode(b[6]) {
                Err(e) => Err(e),
                Ok(reason) => match Match::spec_read_len(b, 16) {
                    Err(e) => Err(e),
                    Ok(n) => if 16 + n > b.len() {
                        Err(Error::InvalidSliceLength(n, (b.len() - 16) as usize, "Match"))
                    } else {
                        match Match::spec_try_from(b.subrange(16, 16 + n)) {
                            Err(e) => Err(e),
                            Ok(mmatch) => if 16 + n + 2 > b.len() {
                                Err(
                                    Error::InvalidSliceLength(
                                        (16 + n + 2) as usize,
                                        b.len() as usize,
                                        "PacketIn",
                                    ),
                                )
                            } else {
                                Ok(
                                    PacketInView {
                                        buffer_id: spec_u32_at(b, 0),
                                        total_len: spec_u16_at(b, 4),
                                        reason,
                                        table_id: b[7],
                                        cookie: spec_u64_at(b, 8),
                                        mmatch,
                                        ethernet_frame: b.subrange(16 + n + 2, b.len() as int),
                                    },
                                )
                            },
                        }
                    },
                },
            }
        }
    }

    /// Decodes a `PacketIn`.
    pub fn try_from(bytes: &[u8]) -> (res: Result<PacketIn, Error>)
        ensures
            match res {
                Ok(m) => Self::spec_try_from(bytes@) == Ok::<PacketInView, Error>(m@),
                Err(e) => Self::spec_try_from(bytes@) == Err::<PacketInView, Error>(e),
            },
    {
        proof {
            reveal(PacketIn::spec_try_from);
        }
        if bytes.len() < 16 {
            return Err(Error::InvalidSliceLength(16, bytes.len(), "PacketIn"));
        }
        let buffer_id: u32 = get_u32(bytes, 0);
        let total_len: u16 = get_u16(bytes, 4);
        let reason = match InReason::decode(bytes[6]) {
            Ok(v) => v,
            Err(e) => return Err(e),
        };
        let table_id: u8 = bytes[7];
        let cookie: u64 = get_u64(bytes, 8);
        let pos: usize = 16;
        let n: usize = match Match::read_len(bytes, pos) {
            Ok(n) => n,
            Err(e) => return Err(e),
        };
        if n > bytes.len() - pos {
            return Err(Error::InvalidSliceLength(n, bytes.len() - pos, "Match"));
        }
        let mmatch = match Match::try_from(slice_subrange(bytes, pos, pos + n)) {
            Ok(m) => m,
            Err(e) => return Err(e),
        };
        let pos: usize = pos + n;
        if 2 > bytes.len() - pos {
            return Err(Error::InvalidSliceLength(pos + 2, bytes.len(), "PacketIn"));
        }
        let pos: usize = pos + 2;
        let ethernet_frame: Vec<u8> = slice_to_vec(slice_subrange(bytes, pos, bytes.len()));
        Ok(PacketIn {
            buffer_id,
            total_len,
            reason,
            table_id,
            cookie,
            mmatch,
            ethernet_frame,
        })
    }

    /// Appends the wire form to `out`.
    pub fn encode(&self, out: &mut Vec<u8>)
        ensures
            final(out)@ == old(out)@ + self@.wire(),
    {
        put_u32(out, self.buffer_id);
        put_u16(out, self.total_len);
        out.push(self.reason.to_u8());
        out.push(self.table_id);
        put_u64(out, self.cookie);
        self.mmatch.encode(out);
        put_zeros(out, 2);
        put_bytes(out, self.ethernet_frame.as_slice());
        assert(out@ =~= old(out)@ + self@.wire());
    }

    /// The wire form as a vector of its own.
    pub fn into_bytes(&self) -> (res: Vec<u8>)
        ensures
            res@ == self@.wire(),
    {
        let mut out: Vec<u8> = Vec::new();
        self.encode(&mut out);
        out
    }

    /// What a slice decodes to holds what the wire format can carry, and is as
    /// long on the wire as the slice.
    #[verifier::rlimit(60)]
    pub proof fn lemma_decoded(b: Seq<u8>)
        requires
            Self::spec_try_from(b) is Ok,
        ensures
            Self::spec_try_from(b)->Ok_0.wf(),
            Self::spec_try_from(b)->Ok_0.wire().len() == b.len(),
    {
        reveal(PacketIn::spec_try_from);
        let n = Match::spec_read_len(b, 16)->Ok_0 as int;
        Match::lemma_decoded(b.subrange(16, 16 + n));
    }

    /// Encoding what a slice decodes to gives as many bytes as the slice has, and
    /// these decode to the same value: only padding can differ.
    pub proof fn lemma_reencode(b: Seq<u8>)
        requires
            Self::spec_try_from(b) is Ok,
        ensures
            Self::spec_try_from(b)->Ok_0.wire().len() == b.len(),
            Self::spec_try_from(Self::spec_try_from(b)->Ok_0.wire()) == Self::spec_try_from(b),
    {
        Self::lemma_decoded(b);
        Self::spec_try_from(b)->Ok_0.lemma_roundtrip();
    }
}

} // verus!
