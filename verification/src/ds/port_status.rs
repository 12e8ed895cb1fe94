//! Port status: a switch reports a change of a port.

use crate::ds::ports::Port;
use crate::err::Error;
use crate::wire::{put_zeros, zeros};
use vstd::prelude::*;
use vstd::slice::slice_subrange;

verus! {

/// What changed about a port.
#[derive(Debug, PartialEq, Eq, Clone, Copy)]
pub enum PortReason {
    /// The port was added.
    Add,
    /// The port was removed.
    Delete,
    /// Some attribute of the port has changed.
    Modifiy,
}

impl PortReason {
    /// The variant whose wire value is `raw`, if there is one.
    pub open spec fn spec_from_u8(raw: u8) -> Option<PortReason> {
        match raw {
            0 => Some(PortReason::Add),
            1 => Some(PortReason::Delete),
            2 => Some(PortReason::Modifiy),
            _ => None,
        }
    }

    /// The variant whose wire value is `raw`, if there is one.
    pub fn from_u8(raw: u8) -> (res: Option<PortReason>)
        ensures
            res == Self::spec_from_u8(raw),
    {
        match raw {
            0 => Some(PortReason::Add),
            1 => Some(PortReason::Delete),
            2 => Some(PortReason::Modifiy),
            _ => None,
        }
    }

    /// The wire value of the variant.
    pub open spec fn spec_to_u8(self) -> u8 {
        match self {
            PortReason::Add => 0,
            PortReason::Delete => 1,
            PortReason::Modifiy => 2,
        }
    }

    /// The wire value of the variant.
    pub fn to_u8(&self) -> (r: u8)
        ensures
            r == self.spec_to_u8(),
    {
        match self {
            PortReason::Add => 0,
            PortReason::Delete => 1,
            PortReason::Modifiy => 2,
        }
    }

    /// What decoding `raw` gives: its variant, or `UnknownEnum` with the value.
    pub open spec fn spec_decode(raw: u8) -> Result<PortReason, Error> {
        match Self::spec_from_u8(raw) {
            Some(v) => Ok(v),
            None => Err(Error::UnknownEnum(raw as u64, "PortReason")),
        }
    }

    /// Decodes a wire value; an unknown one is an `UnknownEnum` error.
    pub fn decode(raw: u8) -> (res: Result<PortReason, Error>)
        ensures
            res == Self::spec_decode(raw),
    {
        match Self::from_u8(raw) {
            Some(v) => Ok(v),
            None => Err(Error::UnknownEnum(raw as u64, "PortReason")),
        }
    }

    /// Every variant is what its own wire value decodes to, and only that
    /// value decodes to it.
    pub proof fn lemma_wire_value(self)
        ensures
            Self::spec_decode(self.spec_to_u8()) == Ok::<PortReason, Error>(self),
            forall|raw: u8| Self::spec_from_u8(raw) == Some(self) ==> raw == self.spec_to_u8(),
    {
    }
}

/// Length of a port status message on the wire.
pub const PORT_STATUS_LENGTH: usize = 72;

/// A change of a port: what happened, and the port as it is now.
#[derive(Debug, PartialEq, Eq, Clone, Copy)]
pub struct PortStatus {
    /// What changed.
    pub reason: PortReason,
    /// The port.
    pub desc: Port,
}

impl PortStatus {
    /// The port holds what the wire format can carry.
    pub open spec fn wf(self) -> bool {
        self.desc.wf()
    }

    /// What `b` decodes to: a slice of another length than 72 is refused,
    /// then the reason is decoded, then the port from the last 64 bytes.
    pub open spec fn spec_try_from(b: Seq<u8>) -> Result<PortStatus, Error> {
        if b.len() != 72 {
            Err(Error::InvalidSliceLength(72, b.len() as usize, "PortStatus"))
        } else {
            match PortReason::spec_decode(b[0]) {
                Err(e) => Err(e),
                Ok(reason) => match Port::spec_try_from(b.subrange(8, 72)) {
                    Err(e) => Err(e),
                    Ok(desc) => Ok(PortStatus { reason, desc }),
                },
            }
        }
    }

    /// Decodes the 72 bytes of a `PortStatus`.
    pub fn try_from(bytes: &[u8]) -> (res: Result<PortStatus, Error>)
        ensures
            res == Self::spec_try_from(bytes@),
    {
        if bytes.len() != PORT_STATUS_LENGTH {
            return Err(Error::InvalidSliceLength(PORT_STATUS_LENGTH, bytes.len(), "PortStatus"));
        }
        let reason = match PortReason::decode(bytes[0]) {
            Ok(v) => v,
            Err(e) => return Err(e),
        };
        match Port::try_from(slice_subrange(bytes, 8, 72)) {
            Ok(desc) => Ok(PortStatus { reason, desc }),
            Err(e) => Err(e),
        }
    }

    /// The 72 bytes on the wire; padding is zero.
    pub open spec fn wire(self) -> Seq<u8> {
        seq![self.reason.spec_to_u8()] + zeros(7) + self.desc.wire()
    }

    /// Appends the wire form to `out`.
    pub fn encode(&self, out: &mut Vec<u8>)
        ensures
            final(out)@ == old(out)@ + self.wire(),
    {
        out.push(self.reason.to_u8());
        put_zeros(out, 7);
        self.desc.encode(out);
        assert(out@ =~= old(out)@ + self.wire());
    }

    /// The wire form as a vector of its own.
    pub fn into_bytes(&self) -> (res: Vec<u8>)
        ensures
            res@ == self.wire(),
    {
        let mut out: Vec<u8> = Vec::new();
        self.encode(&mut out);
        out
    }

    /// The wire form is 72 bytes long, and decoding it gives the record back.
    pub proof fn lemma_roundtrip(self)
        requires
            self.wf(),
        ensures
            self.wire().len() == 72,
            Self::spec_try_from(self.wire()) == Ok::<PortStatus, Error>(self),
    {
        self.desc.lemma_roundtrip();
        self.reason.lemma_wire_value();
        assert(self.wire().subrange(8, 72) =~= self.desc.wire());
    }

    /// What a slice decodes to holds what the wire format can carry, and is as
    /// long on the wire as the slice.
    pub proof fn lemma_decoded(b: Seq<u8>)
        requires
            Self::spec_try_from(b) is Ok,
        ensures
            Self::spec_try_from(b)->Ok_0.wf(),
            Self::spec_try_from(b)->Ok_0.wire().len() == b.len(),
    {
        Port::lemma_decoded(b.subrange(8, 72));
    }
}

} // verus!
