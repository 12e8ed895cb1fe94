//! Asynchronous message configuration.

use crate::err::Error;
use crate::wire::{get_u32, lemma_u32_at_bytes, put_u32, spec_u32_at, spec_u32_bytes};
use vstd::prelude::*;

verus! {

/// Which asynchronous messages a controller wants to receive.
#[derive(Debug, PartialEq, Eq, Clone, Copy)]
pub struct Async {
    /// Packet-in reasons wanted as master or equal.
    pub packet_in_mask_1: u32,
    /// Packet-in reasons wanted as slave.
    pub packet_in_mask_2: u32,
    /// Port-status reasons wanted as master or equal.
    pub port_status_mask_1: u32,
    /// Port-status reasons wanted as slave.
    pub port_status_mask_2: u32,
    /// Flow-removed reasons wanted as master or equal.
    pub flow_removed_mask_1: u32,
    /// Flow-removed reasons wanted as slave.
    pub flow_removed_mask_2: u32,
}

impl Async {
    /// Every field holds a value that the wire format can carry.
    pub open spec fn wf(self) -> bool {
        true
    }

    /// What `b` decodes to: a slice of another length than 24 is refused, then
    /// each field is decoded in wire order and the first failure is the result.
    pub open spec fn spec_try_from(b: Seq<u8>) -> Result<Async, Error> {
        if b.len() != 24 {
            Err(Error::InvalidSliceLength(24, b.len() as usize, "Async"))
        } else {
            Ok(
                Async {
                    packet_in_mask_1: spec_u32_at(b, 0),
                    packet_in_mask_2: spec_u32_at(b, 4),
                    port_status_mask_1: spec_u32_at(b, 8),
                    port_status_mask_2: spec_u32_at(b, 12),
                    flow_removed_mask_1: spec_u32_at(b, 16),
                    flow_removed_mask_2: spec_u32_at(b, 20),
                },
            )
        }
    }

    /// Decodes the 24 bytes of a `Async`.
    pub fn try_from(bytes: &[u8]) -> (res: Result<Async, Error>)
        ensures
            res == Self::spec_try_from(bytes@),
    {
        if bytes.len() != 24 {
            return Err(Error::InvalidSliceLength(24, bytes.len(), "Async"));
        }
        let packet_in_mask_1: u32 = get_u32(bytes, 0);
        let packet_in_mask_2: u32 = get_u32(bytes, 4);
        let port_status_mask_1: u32 = get_u32(bytes, 8);
        let port_status_mask_2: u32 = get_u32(bytes, 12);
        let flow_removed_mask_1: u32 = get_u32(bytes, 16);
        let flow_removed_mask_2: u32 = get_u32(bytes, 20);
        Ok(Async {
            packet_in_mask_1,
            packet_in_mask_2,
            port_status_mask_1,
            port_status_mask_2,
            flow_removed_mask_1,
            flow_removed_mask_2,
        })
    }

    /// The 24 bytes of the record on the wire; padding is zero.
    pub open spec fn wire(self) -> Seq<u8> {
        spec_u32_bytes(self.packet_in_mask_1)
            + spec_u32_bytes(self.packet_in_mask_2)
            + spec_u32_bytes(self.port_status_mask_1)
            + spec_u32_bytes(self.port_status_mask_2)
            + spec_u32_bytes(self.flow_removed_mask_1)
            + spec_u32_bytes(self.flow_removed_mask_2)
    }

    /// Appends the wire form to `out`.
    pub fn encode(&self, out: &mut Vec<u8>)
        ensures
            final(out)@ == old(out)@ + self.wire(),
    {
        put_u32(out, self.packet_in_mask_1);
        put_u32(out, self.packet_in_mask_2);
        put_u32(out, self.port_status_mask_1);
        put_u32(out, self.port_status_mask_2);
        put_u32(out, self.flow_removed_mask_1);
        put_u32(out, self.flow_removed_mask_2);
        assert(out@ =~= old(out)@ + self.wire());
    }

    /// The wire form as a vector of its own.
    pub fn into_bytes(&self) -> (res: Vec<u8>)
        ensures
            res@ == self.wire(),
    {
        let mut out: Vec<u8> = Vec::new();
        self.encode(&mut out);
        out
    }

    /// The wire form is 24 bytes long, and decoding it gives the record back.
    pub proof fn lemma_roundtrip(self)
        requires
            self.wf(),
        ensures
            self.wire().len() == 24,
            Self::spec_try_from(self.wire()) == Ok::<Async, Error>(self),
    {
        let w = self.wire();
        assert(spec_u32_at(w, 0) == self.packet_in_mask_1) by {
            lemma_u32_at_bytes(w, 0, self.packet_in_mask_1);
        }
        assert(spec_u32_at(w, 4) == self.packet_in_mask_2) by {
            lemma_u32_at_bytes(w, 4, self.packet_in_mask_2);
        }
        assert(spec_u32_at(w, 8) == self.port_status_mask_1) by {
            lemma_u32_at_bytes(w, 8, self.port_status_mask_1);
        }
        assert(spec_u32_at(w, 12) == self.port_status_mask_2) by {
            lemma_u32_at_bytes(w, 12, self.port_status_mask_2);
        }
        assert(spec_u32_at(w, 16) == self.flow_removed_mask_1) by {
            lemma_u32_at_bytes(w, 16, self.flow_removed_mask_1);
        }
        assert(spec_u32_at(w, 20) == self.flow_removed_mask_2) by {
            lemma_u32_at_bytes(w, 20, self.flow_removed_mask_2);
        }
    }

    /// What a slice decodes to holds what the wire format can carry, and is as
    /// long on the wire as the slice.
    pub proof fn lemma_decoded(b: Seq<u8>)
        requires
            Self::spec_try_from(b) is Ok,
        ensures
            Self::spec_try_from(b)->Ok_0.wf(),
            Self::spec_try_from(b)->Ok_0.wire().len() == b.len(),
    {
    }
}

} // verus!
