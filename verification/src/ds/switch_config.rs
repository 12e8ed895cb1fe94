//! Switch configuration.

use crate::err::Error;
use crate::wire::{get_u16, lemma_u16_at_bytes, put_u16, spec_u16_at, spec_u16_bytes};
use vstd::prelude::*;

verus! {

/// Drop fragments.
pub const CONFIG_FLAGS_FRAG_DROP: u16 = 0x1;

/// Reassemble, only if the switch can.
pub const CONFIG_FLAGS_FRAG_REASM: u16 = 0x2;

/// Every bit that `ConfigFlags` defines.
pub const CONFIG_FLAGS_ALL: u16 = 0x3;

/// How a switch handles IP fragments. No bit set means no special handling.
#[derive(Debug, PartialEq, Eq, Clone, Copy)]
pub struct ConfigFlags {
    /// The raw bits.
    pub bits: u16,
}

impl ConfigFlags {
    /// No bit is set outside the defined ones.
    pub open spec fn wf(self) -> bool {
        self.bits & !CONFIG_FLAGS_ALL == 0
    }

    /// The flag set with the bits of `raw`, if all of them are defined.
    pub open spec fn spec_from_bits(raw: u16) -> Option<ConfigFlags> {
        if raw & !CONFIG_FLAGS_ALL == 0 {
            Some(ConfigFlags { bits: raw })
        } else {
            None
        }
    }

    /// The flag set with the bits of `raw`, if all of them are defined.
    pub fn from_bits(raw: u16) -> (res: Option<ConfigFlags>)
        ensures
            res == Self::spec_from_bits(raw),
    {
        if raw & !CONFIG_FLAGS_ALL == 0 {
            Some(ConfigFlags { bits: raw })
        } else {
            None
        }
    }

    /// What decoding `raw` gives: the flag set, or `UnknownBits` with the value.
    pub open spec fn spec_decode(raw: u16) -> Result<ConfigFlags, Error> {
        match Self::spec_from_bits(raw) {
            Some(v) => Ok(v),
            None => Err(Error::UnknownBits(raw as u64, "ConfigFlags")),
        }
    }

    /// Decodes a raw word; bits outside the defined ones are an `UnknownBits` error.
    pub fn decode(raw: u16) -> (res: Result<ConfigFlags, Error>)
        ensures
            res == Self::spec_decode(raw),
    {
        match Self::from_bits(raw) {
            Some(v) => Ok(v),
            None => Err(Error::UnknownBits(raw as u64, "ConfigFlags")),
        }
    }

    /// The empty flag set.
    pub fn empty() -> (res: ConfigFlags)
        ensures
            res.bits == 0,
    {
        ConfigFlags { bits: 0 }
    }

    /// The raw bits.
    pub fn bits(&self) -> (r: u16)
        ensures
            r == self.bits,
    {
        self.bits
    }

    /// Whether every bit of `flag` is set.
    pub fn contains(&self, flag: u16) -> (r: bool)
        ensures
            r == (self.bits & flag == flag),
    {
        self.bits & flag == flag
    }
}

/// The bits that say how fragments are handled.
pub const CONFIG_FLAGS_FRAG_MASK: u16 = 0x3;

/// The configuration of a switch.
#[derive(Debug, PartialEq, Eq, Clone, Copy)]
pub struct SwitchConfig {
    /// The configuration flags.
    pub flags: ConfigFlags,
    /// Max bytes of a packet that the datapath sends to the controller.
    pub miss_send_len: u16,
}

impl SwitchConfig {
    /// Every field holds a value that the wire format can carry.
    pub open spec fn wf(self) -> bool {
        &&& self.flags.wf()
    }

    /// What `b` decodes to: a slice of another length than 4 is refused, then
    /// each field is decoded in wire order and the first failure is the result.
    pub open spec fn spec_try_from(b: Seq<u8>) -> Result<SwitchConfig, Error> {
        if b.len() != 4 {
            Err(Error::InvalidSliceLength(4, b.len() as usize, "SwitchConfig"))
        } else {
            match ConfigFlags::spec_decode(spec_u16_at(b, 0)) {
                Err(e) => Err(e),
                Ok(flags) => Ok(SwitchConfig { flags, miss_send_len: spec_u16_at(b, 2) }),
            }
        }
    }

    /// Decodes the 4 bytes of a `SwitchConfig`.
    pub fn try_from(bytes: &[u8]) -> (res: Result<SwitchConfig, Error>)
        ensures
            res == Self::spec_try_from(bytes@),
    {
        if bytes.len() != 4 {
            return Err(Error::InvalidSliceLength(4, bytes.len(), "SwitchConfig"));
        }
        let flags = match ConfigFlags::decode(get_u16(bytes, 0)) {
            Ok(v) => v,
            Err(e) => return Err(e),
        };
        let miss_send_len: u16 = get_u16(bytes, 2);
        Ok(SwitchConfig { flags, miss_send_len })
    }

    /// The 4 bytes of the record on the wire; padding is zero.
    pub open spec fn wire(self) -> Seq<u8> {
        spec_u16_bytes(self.flags.bits)
            + spec_u16_bytes(self.miss_send_len)
    }

    /// Appends the wire form to `out`.
    pub fn encode(&self, out: &mut Vec<u8>)
        ensures
            final(out)@ == old(out)@ + self.wire(),
    {
        put_u16(out, self.flags.bits);
        put_u16(out, self.miss_send_len);
        assert(out@ =~= old(out)@ + self.wire());
    }

    /// The wire form as a vector of its own.
    pub fn into_bytes(&self) -> (res: Vec<u8>)
        ensures
            res@ == self.wire(),
    {
        let mut out: Vec<u8> = Vec::new();
        self.encode(&mut out);
        out
    }

    /// The wire form is 4 bytes long, and decoding it gives the record back.
    pub proof fn lemma_roundtrip(self)
        requires
            self.wf(),
        ensures
            self.wire().len() == 4,
            Self::spec_try_from(self.wire()) == Ok::<SwitchConfig, Error>(self),
    {
        let w = self.wire();
        assert(spec_u16_at(w, 0) == self.flags.bits) by {
            lemma_u16_at_bytes(w, 0, self.flags.bits);
        }
        assert(spec_u16_at(w, 2) == self.miss_send_len) by {
            lemma_u16_at_bytes(w, 2, self.miss_send_len);
        }
    }

    /// What a slice decodes to holds what the wire format can carry, and is as
    /// long on the wire as the slice.
    pub proof fn lemma_decoded(b: Seq<u8>)
        requires
            Self::spec_try_from(b) is Ok,
        ensures
            Self::spec_try_from(b)->Ok_0.wf(),
            Self::spec_try_from(b)->Ok_0.wire().len() == b.len(),
    {
    }
}

} // verus!
