//! Port modification.

use crate::err::Error;
use crate::ds::hw_addr::spec_eth;
use crate::ds::ports::{PortConfig, PortFeatures, PortNumber};
use crate::wire::{
    get_u32, lemma_u32_at_bytes, put_bytes, put_u32, put_zeros, spec_u32_at, spec_u32_bytes,
    zeros,
};
use vstd::array::array_as_slice;
use vstd::prelude::*;

verus! {

/// Modifies the behaviour of a port.
#[derive(Debug, PartialEq, Eq, Clone, Copy)]
pub struct PortMod {
    /// The port to modify.
    pub port_no: PortNumber,
    /// The hardware address of the port, as a check.
    pub hw_addr: [u8; 6],
    /// Bitmap of configuration flags.
    pub config: PortConfig,
    /// Bitmap of the configuration flags to be changed.
    pub mask: PortConfig,
    /// Bitmap of the features to advertise; zero to leave them.
    pub advertise: PortFeatures,
}

impl PortMod {
    /// Every field holds a value that the wire format can carry.
    pub open spec fn wf(self) -> bool {
        &&& self.port_no.wf()
        &&& self.config.wf()
        &&& self.mask.wf()
        &&& self.advertise.wf()
    }

    /// What `b` decodes to: a slice of another length than 32 is refused, then
    /// each field is decoded in wire order and the first failure is the result.
    pub open spec fn spec_try_from(b: Seq<u8>) -> Result<PortMod, Error> {
        if b.len() != 32 {
            Err(Error::InvalidSliceLength(32, b.len() as usize, "PortMod"))
        } else {
            match PortNumber::spec_try_from(spec_u32_at(b, 0)) {
                Err(e) => Err(e),
                Ok(port_no) => match PortConfig::spec_decode(spec_u32_at(b, 16)) {
                    Err(e) => Err(e),
                    Ok(config) => match PortConfig::spec_decode(spec_u32_at(b, 20)) {
                        Err(e) => Err(e),
                        Ok(mask) => match PortFeatures::spec_decode(spec_u32_at(b, 24)) {
                            Err(e) => Err(e),
                            Ok(advertise) => Ok(
                                PortMod {
                                    port_no,
                                    hw_addr: spec_eth(b, 8),
                                    config,
                                    mask,
                                    advertise,
                                },
                            ),
                        },
                    },
                },
            }
        }
    }

    /// Decodes the 32 bytes of a `PortMod`.
    pub fn try_from(bytes: &[u8]) -> (res: Result<PortMod, Error>)
        ensures
            res == Self::spec_try_from(bytes@),
    {
        if bytes.len() != 32 {
            return Err(Error::InvalidSliceLength(32, bytes.len(), "PortMod"));
        }
        let port_no = match PortNumber::try_from(get_u32(bytes, 0)) {
            Ok(v) => v,
            Err(e) => return Err(e),
        };
        let hw_addr: [u8; 6] = [bytes[8], bytes[9], bytes[10], bytes[11], bytes[12], bytes[13]];
        assert(hw_addr =~= spec_eth(bytes@, 8));
        let config = match PortConfig::decode(get_u32(bytes, 16)) {
            Ok(v) => v,
            Err(e) => return Err(e),
        };
        let mask = match PortConfig::decode(get_u32(bytes, 20)) {
            Ok(v) => v,
            Err(e) => return Err(e),
        };
        let advertise = match PortFeatures::decode(get_u32(bytes, 24)) {
            Ok(v) => v,
            Err(e) => return Err(e),
        };
        Ok(PortMod { port_no, hw_addr, config, mask, advertise })
    }

    /// The 32 bytes of the record on the wire; padding is zero.
    pub open spec fn wire(self) -> Seq<u8> {
        spec_u32_bytes(self.port_no.spec_to_u32())
            + zeros(4)
            + self.hw_addr@
            + zeros(2)
            + spec_u32_bytes(self.config.bits)
            + spec_u32_bytes(self.mask.bits)
            + spec_u32_bytes(self.advertise.bits)
            + zeros(4)
    }

    /// Appends the wire form to `out`.
    pub fn encode(&self, out: &mut Vec<u8>)
        ensures
            final(out)@ == old(out)@ + self.wire(),
    {
        put_u32(out, self.port_no.to_u32());
        put_zeros(out, 4);
        put_bytes(out, array_as_slice(&self.hw_addr));
        put_zeros(out, 2);
        put_u32(out, self.config.bits);
        put_u32(out, self.mask.bits);
        put_u32(out, self.advertise.bits);
        put_zeros(out, 4);
        assert(out@ =~= old(out)@ + self.wire());
    }

    /// The wire form as a vector of its own.
    pub fn into_bytes(&self) -> (res: Vec<u8>)
        ensures
            res@ == self.wire(),
    {
        let mut out: Vec<u8> = Vec::new();
        self.encode(&mut out);
        out
    }

    /// The wire form is 32 bytes long, and decoding it gives the record back.
    pub proof fn lemma_roundtrip(self)
        requires
            self.wf(),
        ensures
            self.wire().len() == 32,
            Self::spec_try_from(self.wire()) == Ok::<PortMod, Error>(self),
    {
        let w = self.wire();
        assert(spec_u32_at(w, 0) == self.port_no.spec_to_u32()) by {
            lemma_u32_at_bytes(w, 0, self.port_no.spec_to_u32());
        }
        self.port_no.lemma_wire_value();
        assert(spec_eth(w, 8) == self.hw_addr) by {
            assert(self.hw_addr@.len() == 6);
            assert(spec_eth(w, 8) =~= self.hw_addr);
        }
        assert(spec_u32_at(w, 16) == self.config.bits) by {
            lemma_u32_at_bytes(w, 16, self.config.bits);
        }
        assert(spec_u32_at(w, 20) == self.mask.bits) by {
            lemma_u32_at_bytes(w, 20, self.mask.bits);
        }
        assert(spec_u32_at(w, 24) == self.advertise.bits) by {
            lemma_u32_at_bytes(w, 24, self.advertise.bits);
        }
    }

    /// What a slice decodes to holds what the wire format can carry, and is as
    /// long on the wire as the slice.
    pub proof fn lemma_decoded(b: Seq<u8>)
        requires
            Self::spec_try_from(b) is Ok,
        ensures
            Self::spec_try_from(b)->Ok_0.wf(),
            Self::spec_try_from(b)->Ok_0.wire().len() == b.len(),
    {
    }
}

} // verus!
