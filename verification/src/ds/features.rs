//! Switch features.

use crate::err::Error;
use crate::wire::{
    get_u32, get_u64, lemma_u32_at_bytes, lemma_u64_at_bytes, put_u32, put_u64, put_zeros,
    spec_u32_at, spec_u32_bytes, spec_u64_at, spec_u64_bytes, zeros,
};
use vstd::prelude::*;

verus! {

/// Flow statistics.
pub const CAPABILITIES_FLOW_STATS: u32 = 0x1;

/// Table statistics.
pub const CAPABILITIES_TABLE_STATS: u32 = 0x2;

/// Port statistics.
pub const CAPABILITIES_PORT_STATS: u32 = 0x4;

/// Group statistics.
pub const CAPABILITIES_GROUP_STATS: u32 = 0x8;

/// Can reassemble IP fragments.
pub const CAPABILITIES_IP_REASM: u32 = 0x20;

/// Queue statistics.
pub const CAPABILITIES_QUEUE_STATS: u32 = 0x40;

/// Switch will block looping ports.
pub const CAPABILITIES_PORT_BLOCKED: u32 = 0x100;

/// Every bit that `Capabilities` defines.
pub const CAPABILITIES_ALL: u32 = 0x16f;

/// Capabilities supported by the datapath.
#[derive(Debug, PartialEq, Eq, Clone, Copy)]
pub struct Capabilities {
    /// The raw bits.
    pub bits: u32,
}

impl Capabilities {
    /// No bit is set outside the defined ones.
    pub open spec fn wf(self) -> bool {
        self.bits & !CAPABILITIES_ALL == 0
    }

    /// The flag set with the bits of `raw`, if all of them are defined.
    pub open spec fn spec_from_bits(raw: u32) -> Option<Capabilities> {
        if raw & !CAPABILITIES_ALL == 0 {
            Some(Capabilities { bits: raw })
        } else {
            None
        }
    }

    /// The flag set with the bits of `raw`, if all of them are defined.
    pub fn from_bits(raw: u32) -> (res: Option<Capabilities>)
        ensures
            res == Self::spec_from_bits(raw),
    {
        if raw & !CAPABILITIES_ALL == 0 {
            Some(Capabilities { bits: raw })
        } else {
            None
        }
    }

    /// What decoding `raw` gives: the flag set, or `UnknownBits` with the value.
    pub open spec fn spec_decode(raw: u32) -> Result<Capabilities, Error> {
        match Self::spec_from_bits(raw) {
            Some(v) => Ok(v),
            None => Err(Error::UnknownBits(raw as u64, "Capabilities")),
        }
    }

    /// Decodes a raw word; bits outside the defined ones are an `UnknownBits` error.
    pub fn decode(raw: u32) -> (res: Result<Capabilities, Error>)
        ensures
            res == Self::spec_decode(raw),
    {
        match Self::from_bits(raw) {
            Some(v) => Ok(v),
            None => Err(Error::UnknownBits(raw as u64, "Capabilities")),
        }
    }

    /// The empty flag set.
    pub fn empty() -> (res: Capabilities)
        ensures
            res.bits == 0,
    {
        Capabilities { bits: 0 }
    }

    /// The raw bits.
    pub fn bits(&self) -> (r: u32)
        ensures
            r == self.bits,
    {
        self.bits
    }

    /// Whether every bit of `flag` is set.
    pub fn contains(&self, flag: u32) -> (r: bool)
        ensures
            r == (self.bits & flag == flag),
    {
        self.bits & flag == flag
    }
}

/// The features of a switch.
#[derive(Debug, PartialEq, Eq, Clone, Copy)]
pub struct SwitchFeatures {
    /// Datapath unique id.
    pub datapath_id: u64,
    /// Max packets buffered at once.
    pub n_buffers: u32,
    /// Number of tables supported by the datapath.
    pub n_tables: u8,
    /// Identifies auxiliary connections.
    pub auxiliary_id: u8,
    /// Bitmap of supported capabilities.
    pub capabilities: Capabilities,
    /// Reserved.
    pub reserved: u32,
}

impl SwitchFeatures {
    /// Every field holds a value that the wire format can carry.
    pub open spec fn wf(self) -> bool {
        &&& self.capabilities.wf()
    }

    /// What `b` decodes to: a slice of another length than 24 is refused, then
    /// each field is decoded in wire order and the first failure is the result.
    pub open spec fn spec_try_from(b: Seq<u8>) -> Result<SwitchFeatures, Error> {
        if b.len() != 24 {
            Err(Error::InvalidSliceLength(24, b.len() as usize, "SwitchFeatures"))
        } else {
            match Capabilities::spec_decode(spec_u32_at(b, 16)) {
                Err(e) => Err(e),
                Ok(capabilities) => Ok(
                    SwitchFeatures {
                        datapath_id: spec_u64_at(b, 0),
                        n_buffers: spec_u32_at(b, 8),
                        n_tables: b[12],
                        auxiliary_id: b[13],
                        capabilities,
                        reserved: spec_u32_at(b, 20),
                    },
                ),
            }
        }
    }

    /// Decodes the 24 bytes of a `SwitchFeatures`.
    pub fn try_from(bytes: &[u8]) -> (res: Result<SwitchFeatures, Error>)
        ensures
            res == Self::spec_try_from(bytes@),
    {
        if bytes.len() != 24 {
            return Err(Error::InvalidSliceLength(24, bytes.len(), "SwitchFeatures"));
        }
        let datapath_id: u64 = get_u64(bytes, 0);
        let n_buffers: u32 = get_u32(bytes, 8);
        let n_tables: u8 = bytes[12];
        let auxiliary_id: u8 = bytes[13];
        let capabilities = match Capabilities::decode(get_u32(bytes, 16)) {
            Ok(v) => v,
            Err(e) => return Err(e),
        };
        let reserved: u32 = get_u32(bytes, 20);
        Ok(SwitchFeatures {
            datapath_id,
            n_buffers,
            n_tables,
            auxiliary_id,
            capabilities,
            reserved,
        })
    }

    /// The 24 bytes of the record on the wire; padding is zero.
    pub open spec fn wire(self) -> Seq<u8> {
        spec_u64_bytes(self.datapath_id)
            + spec_u32_bytes(self.n_buffers)
            + seq![self.n_tables]
            + seq![self.auxiliary_id]
            + zeros(2)
            + spec_u32_bytes(self.capabilities.bits)
            + spec_u32_bytes(self.reserved)
    }

    /// Appends the wire form to `out`.
    pub fn encode(&self, out: &mut Vec<u8>)
        ensures
            final(out)@ == old(out)@ + self.wire(),
    {
        put_u64(out, self.datapath_id);
        put_u32(out, self.n_buffers);
        out.push(self.n_tables);
        out.push(self.auxiliary_id);
        put_zeros(out, 2);
        put_u32(out, self.capabilities.bits);
        put_u32(out, self.reserved);
        assert(out@ =~= old(out)@ + self.wire());
    }

    /// The wire form as a vector of its own.
    pub fn into_bytes(&self) -> (res: Vec<u8>)
        ensures
            res@ == self.wire(),
    {
        let mut out: Vec<u8> = Vec::new();
        self.encode(&mut out);
        out
    }

    /// The wire form is 24 bytes long, and decoding it gives the record back.
    pub proof fn lemma_roundtrip(self)
        requires
            self.wf(),
        ensures
            self.wire().len() == 24,
            Self::spec_try_from(self.wire()) == Ok::<SwitchFeatures, Error>(self),
    {
        let w = self.wire();
        assert(spec_u64_at(w, 0) == self.datapath_id) by {
            lemma_u64_at_bytes(w, 0, self.datapath_id);
        }
        assert(spec_u32_at(w, 8) == self.n_buffers) by {
            lemma_u32_at_bytes(w, 8, self.n_buffers);
        }
        assert(w[12] == self.n_tables);
        assert(w[13] == self.auxiliary_id);
        assert(spec_u32_at(w, 16) == self.capabilities.bits) by {
            lemma_u32_at_bytes(w, 16, self.capabilities.bits);
        }
        assert(spec_u32_at(w, 20) == self.reserved) by {
            lemma_u32_at_bytes(w, 20, self.reserved);
        }
    }

    /// What a slice decodes to holds what the wire format can carry, and is as
    /// long on the wire as the slice.
    pub proof fn lemma_decoded(b: Seq<u8>)
        requires
            Self::spec_try_from(b) is Ok,
        ensures
            Self::spec_try_from(b)->Ok_0.wf(),
            Self::spec_try_from(b)->Ok_0.wire().len() == b.len(),
    {
    }
}

} // verus!
