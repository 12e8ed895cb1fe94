//! Queue configuration: the query for the queues of a port and its answer.

use crate::err::Error;
use crate::ds::packet_queue::{PacketQueue, PacketQueueView};
use crate::ds::ports::PortNumber;
use crate::wire::{
    get_u32, lemma_u32_at_bytes, put_u32, put_zeros, spec_u32_at, spec_u32_bytes, zeros,
};
use vstd::prelude::*;
use vstd::slice::slice_subrange;

verus! {

/// A query for the queues of a port.
#[derive(Debug, PartialEq, Eq, Clone, Copy)]
pub struct QueueGetConfigRequest {
    /// The port to be queried.
    pub port: PortNumber,
}

impl QueueGetConfigRequest {
    /// Every field holds a value that the wire format can carry.
    pub open spec fn wf(self) -> bool {
        &&& self.port.wf()
    }

    /// What `b` decodes to: a slice of another length than 8 is refused, then
    /// each field is decoded in wire order and the first failure is the result.
    pub open spec fn spec_try_from(b: Seq<u8>) -> Result<QueueGetConfigRequest, Error> {
        if b.len() != 8 {
            Err(Error::InvalidSliceLength(8, b.len() as usize, "QueueGetConfigRequest"))
        } else {
            match PortNumber::spec_try_from(spec_u32_at(b, 0)) {
                Err(e) => Err(e),
                Ok(port) => Ok(QueueGetConfigRequest { port }),
            }
        }
    }

    /// Decodes the 8 bytes of a `QueueGetConfigRequest`.
    pub fn try_from(bytes: &[u8]) -> (res: Result<QueueGetConfigRequest, Error>)
        ensures
            res == Self::spec_try_from(bytes@),
    {
        if bytes.len() != 8 {
            return Err(Error::InvalidSliceLength(8, bytes.len(), "QueueGetConfigRequest"));
        }
        let port = match PortNumber::try_from(get_u32(bytes, 0)) {
            Ok(v) => v,
            Err(e) => return Err(e),
        };
        Ok(QueueGetConfigRequest { port })
    }

    /// The 8 bytes of the record on the wire; padding is zero.
    pub open spec fn wire(self) -> Seq<u8> {
        spec_u32_bytes(self.port.spec_to_u32())
            + zeros(4)
    }

    /// Appends the wire form to `out`.
    pub fn encode(&self, out: &mut Vec<u8>)
        ensures
            final(out)@ == old(out)@ + self.wire(),
    {
        put_u32(out, self.port.to_u32());
        put_zeros(out, 4);
        assert(out@ =~= old(out)@ + self.wire());
    }

    /// The wire form as a vector of its own.
    pub fn into_bytes(&self) -> (res: Vec<u8>)
        ensures
            res@ == self.wire(),
    {
        let mut out: Vec<u8> = Vec::new();
        self.encode(&mut out);
        out
    }

    /// The wire form is 8 bytes long, and decoding it gives the record back.
    pub proof fn lemma_roundtrip(self)
        requires
            self.wf(),
        ensures
            self.wire().len() == 8,
            Self::spec_try_from(self.wire()) == Ok::<QueueGetConfigRequest, Error>(self),
    {
        let w = self.wire();
        assert(spec_u32_at(w, 0) == self.port.spec_to_u32()) by {
            lemma_u32_at_bytes(w, 0, self.port.spec_to_u32());
        }
        self.port.lemma_wire_value();
    }

    /// What a slice decodes to holds what the wire format can carry, and is as
    /// long on the wire as the slice.
    pub proof fn lemma_decoded(b: Seq<u8>)
        requires
            Self::spec_try_from(b) is Ok,
        ensures
            Self::spec_try_from(b)->Ok_0.wf(),
            Self::spec_try_from(b)->Ok_0.wire().len() == b.len(),
    {
    }
}

/// The queues of a port.
#[derive(Debug, PartialEq, Eq, Clone)]
pub struct QueueGetConfigReply {
    /// The port that was queried.
    pub port: PortNumber,
    /// The queues of the port.
    pub queues: Vec<PacketQueue>,
}

/// The mathematical value of `QueueGetConfigReply`.
pub struct QueueGetConfigReplyView {
    /// The port that was queried.
    pub port: PortNumber,
    /// The queues of the port.
    pub queues: Seq<PacketQueueView>,
}

impl View for QueueGetConfigReply {
    type V = QueueGetConfigReplyView;

    open spec fn view(&self) -> QueueGetConfigReplyView {
        QueueGetConfigReplyView {
            port: self.port,
            queues: self.queues@.map_values(|t: PacketQueue| t@),
        }
    }
}

impl QueueGetConfigReplyView {
    /// The bytes on the wire; padding is zero.
    pub open spec fn wire(self) -> Seq<u8> {
        spec_u32_bytes(self.port.spec_to_u32())
            + zeros(4)
            + PacketQueue::spec_wire_list(self.queues)
    }

    /// Every part holds what the wire format can carry.
    pub open spec fn wf(self) -> bool {
        &&& self.port.wf()
        &&& forall|i: int| 0 <= i < self.queues.len() ==> (#[trigger] self.queues[i]).wf()
    }

    /// What is read at the offsets of the fixed part of the wire form: the fields,
    /// and after the 8 bytes of the fixed part what follows it.
    #[verifier::rlimit(60)]
    pub proof fn lemma_fixed_part(self)
        ensures
            ({
                let w = self.wire();
                &&& w.len() >= 8
                &&& w.subrange(8, w.len() as int) == PacketQueue::spec_wire_list(self.queues)
                &&& spec_u32_at(w, 0) == self.port.spec_to_u32()
            }),
    {
        let w = self.wire();
        let h = spec_u32_bytes(self.port.spec_to_u32())
            + zeros(4);
        let t = PacketQueue::spec_wire_list(self.queues);
        assert(h.len() == 8);
        assert(w =~= h + t);
        assert(spec_u32_at(w, 0) == self.port.spec_to_u32()) by {
            assert(w[0] == h[0] && w[1] == h[1] && w[2] == h[2] && w[3] == h[3]);
            lemma_u32_at_bytes(h, 0, self.port.spec_to_u32());
        }
        assert(w.subrange(8, w.len() as int) =~= t);
    }

    /// Decoding the wire form gives the value back.
    #[verifier::rlimit(60)]
    pub proof fn lemma_roundtrip(self)
        requires
            self.wf(),
        ensures
            QueueGetConfigReply::spec_try_from(self.wire()) == Ok::<QueueGetConfigReplyView, Error>(self),
    {
        reveal(QueueGetConfigReply::spec_try_from);
        let w = self.wire();
        self.lemma_fixed_part();
        self.port.lemma_wire_value();
        let t = w.subrange(8, w.len() as int);
        let sub = w.subrange(8, w.len() as int);
        assert(sub == PacketQueue::spec_wire_list(self.queues)) by {
            assert(sub =~= t.subrange(0, t.len() as int));
            assert(t.subrange(0, t.len() as int) =~= PacketQueue::spec_wire_list(self.queues));
        }
        assert(PacketQueue::spec_parse_list(sub, 0, Seq::empty()) == Ok::<Seq<PacketQueueView>, Error>(self.queues)) by {
            assert(sub.subrange(0, sub.len() as int) =~= sub);
            PacketQueue::lemma_list_roundtrip(sub, 0, Seq::empty(), self.queues);
            assert(Seq::<PacketQueueView>::empty() + self.queues =~= self.queues);
        }
    }
}

impl QueueGetConfigReply {
    /// What `b` decodes to. The slice must hold the 8 bytes of the fixed part;
    /// then every part is decoded in wire order, and the first failure is the result.
    #[verifier::opaque]
    pub open spec fn spec_try_from(b: Seq<u8>) -> Result<QueueGetConfigReplyView, Error> {
        if b.len() < 8 {
            Err(Error::InvalidSliceLength(8, b.len() as usize, "QueueGetConfigReply"))
        } else {
            match PortNumber::spec_try_from(spec_u32_at(b, 0)) {
                Err(e) => Err(e),
                Ok(port) => match PacketQueue::spec_parse_list(b.subrange(8, b.len() as int), 0, Seq::empty()) {
                    Err(e) => Err(e),
                    Ok(queues) => Ok(
                        QueueGetConfigReplyView {
                            port,
                            queues,
                        },
                    ),
                },
            }
        }
    }

    /// Decodes a `QueueGetConfigReply`.
    pub fn try_from(bytes: &[u8]) -> (res: Result<QueueGetConfigReply, Error>)
        ensures
            match res {
                Ok(m) => Self::spec_try_from(bytes@) == Ok::<QueueGetConfigReplyView, Error>(m@),
                Err(e) => Self::spec_try_from(bytes@) == Err::<QueueGetConfigReplyView, Error>(e),
            },
    {
        proof {
            reveal(QueueGetConfigReply::spec_try_from);
        }
        if bytes.len() < 8 {
            return Err(Error::InvalidSliceLength(8, bytes.len(), "QueueGetConfigReply"));
        }
        let port = match PortNumber::try_from(get_u32(bytes, 0)) {
            Ok(v) => v,
            Err(e) => return Err(e),
        };
        let pos: usize = 8;
        let queues = match PacketQueue::parse_list(slice_subrange(bytes, pos, bytes.len())) {
            Ok(v) => v,
            Err(e) => return Err(e),
        };
        Ok(QueueGetConfigReply {
            port,
            queues,
        })
    }

    /// Appends the wire form to `out`.
    pub fn encode(&self, out: &mut Vec<u8>)
        ensures
            final(out)@ == old(out)@ + self@.wire(),
    {
        put_u32(out, self.port.to_u32());
        put_zeros(out, 4);
        PacketQueue::encode_list(&self.queues, out);
        assert(out@ =~= old(out)@ + self@.wire());
    }

    /// The wire form as a vector of its own.
    pub fn into_bytes(&self) -> (res: Vec<u8>)
        ensures
            res@ == self@.wire(),
    {
        let mut out: Vec<u8> = Vec::new();
        self.encode(&mut out);
        out
    }

    /// What a slice decodes to holds what the wire format can carry, and is as
    /// long on the wire as the slice.
    #[verifier::rlimit(60)]
    pub proof fn lemma_decoded(b: Seq<u8>)
        requires
            Self::spec_try_from(b) is Ok,
        ensures
            Self::spec_try_from(b)->Ok_0.wf(),
            Self::spec_try_from(b)->Ok_0.wire().len() == b.len(),
    {
        reveal(QueueGetConfigReply::spec_try_from);
        PacketQueue::lemma_list_decoded(b.subrange(8, b.len() as int), 0, Seq::empty(), 0);
    }

    /// Encoding what a slice decodes to gives as many bytes as the slice has, and
    /// these decode to the same value: only padding can differ.
    pub proof fn lemma_reencode(b: Seq<u8>)
        requires
            Self::spec_try_from(b) is Ok,
        ensures
            Self::spec_try_from(b)->Ok_0.wire().len() == b.len(),
            Self::spec_try_from(Self::spec_try_from(b)->Ok_0.wire()) == Self::spec_try_from(b),
    {
        Self::lemma_decoded(b);
        Self::spec_try_from(b)->Ok_0.lemma_roundtrip();
    }
}

} // verus!
