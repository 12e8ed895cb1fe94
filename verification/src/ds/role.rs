//! Controller roles.

use crate::err::Error;
use crate::wire::{
    get_u32, get_u64, lemma_u32_at_bytes, lemma_u64_at_bytes, put_u32, put_u64, put_zeros,
    spec_u32_at, spec_u32_bytes, spec_u64_at, spec_u64_bytes, zeros,
};
use vstd::prelude::*;

verus! {

/// The roles of a controller.
#[derive(Debug, PartialEq, Eq, Clone, Copy)]
pub enum ControllerRole {
    /// Do not change the current role.
    NoChange,
    /// Default role, full access.
    Equal,
    /// Full access, at most one master.
    Master,
    /// Read-only access.
    Slave,
}

impl ControllerRole {
    /// The variant whose wire value is `raw`, if there is one.
    pub open spec fn spec_from_u32(raw: u32) -> Option<ControllerRole> {
        match raw {
            0 => Some(ControllerRole::NoChange),
            1 => Some(ControllerRole::Equal),
            2 => Some(ControllerRole::Master),
            3 => Some(ControllerRole::Slave),
            _ => None,
        }
    }

    /// The variant whose wire value is `raw`, if there is one.
    pub fn from_u32(raw: u32) -> (res: Option<ControllerRole>)
        ensures
            res == Self::spec_from_u32(raw),
    {
        match raw {
            0 => Some(ControllerRole::NoChange),
            1 => Some(ControllerRole::Equal),
            2 => Some(ControllerRole::Master),
            3 => Some(ControllerRole::Slave),
            _ => None,
        }
    }

    /// The wire value of the variant.
    pub open spec fn spec_to_u32(self) -> u32 {
        match self {
            ControllerRole::NoChange => 0,
            ControllerRole::Equal => 1,
            ControllerRole::Master => 2,
            ControllerRole::Slave => 3,
        }
    }

    /// The wire value of the variant.
    pub fn to_u32(&self) -> (r: u32)
        ensures
            r == self.spec_to_u32(),
    {
        match self {
            ControllerRole::NoChange => 0,
            ControllerRole::Equal => 1,
            ControllerRole::Master => 2,
            ControllerRole::Slave => 3,
        }
    }

    /// What decoding `raw` gives: its variant, or `UnknownEnum` with the value.
    pub open spec fn spec_decode(raw: u32) -> Result<ControllerRole, Error> {
        match Self::spec_from_u32(raw) {
            Some(v) => Ok(v),
            None => Err(Error::UnknownEnum(raw as u64, "ControllerRole")),
        }
    }

    /// Decodes a wire value; an unknown one is an `UnknownEnum` error.
    pub fn decode(raw: u32) -> (res: Result<ControllerRole, Error>)
        ensures
            res == Self::spec_decode(raw),
    {
        match Self::from_u32(raw) {
            Some(v) => Ok(v),
            None => Err(Error::UnknownEnum(raw as u64, "ControllerRole")),
        }
    }

    /// Every variant is what its own wire value decodes to, and only that
    /// value decodes to it.
    pub proof fn lemma_wire_value(self)
        ensures
            Self::spec_decode(self.spec_to_u32()) == Ok::<ControllerRole, Error>(self),
            forall|raw: u32| Self::spec_from_u32(raw) == Some(self) ==> raw == self.spec_to_u32(),
    {
    }
}

/// A role request or reply.
#[derive(Debug, PartialEq, Eq, Clone, Copy)]
pub struct Role {
    /// The role.
    pub role: ControllerRole,
    /// Master election generation id.
    pub generation_id: u64,
}

impl Role {
    /// Every field holds a value that the wire format can carry.
    pub open spec fn wf(self) -> bool {
        true
    }

    /// What `b` decodes to: a slice of another length than 16 is refused, then
    /// each field is decoded in wire order and the first failure is the result.
    pub open spec fn spec_try_from(b: Seq<u8>) -> Result<Role, Error> {
        if b.len() != 16 {
            Err(Error::InvalidSliceLength(16, b.len() as usize, "Role"))
        } else {
            match ControllerRole::spec_decode(spec_u32_at(b, 0)) {
                Err(e) => Err(e),
                Ok(role) => Ok(Role { role, generation_id: spec_u64_at(b, 8) }),
            }
        }
    }

    /// Decodes the 16 bytes of a `Role`.
    pub fn try_from(bytes: &[u8]) -> (res: Result<Role, Error>)
        ensures
            res == Self::spec_try_from(bytes@),
    {
        if bytes.len() != 16 {
            return Err(Error::InvalidSliceLength(16, bytes.len(), "Role"));
        }
        let role = match ControllerRole::decode(get_u32(bytes, 0)) {
            Ok(v) => v,
            Err(e) => return Err(e),
        };
        let generation_id: u64 = get_u64(bytes, 8);
        Ok(Role { role, generation_id })
    }

    /// The 16 bytes of the record on the wire; padding is zero.
    pub open spec fn wire(self) -> Seq<u8> {
        spec_u32_bytes(self.role.spec_to_u32())
            + zeros(4)
            + spec_u64_bytes(self.generation_id)
    }

    /// Appends the wire form to `out`.
    pub fn encode(&self, out: &mut Vec<u8>)
        ensures
            final(out)@ == old(out)@ + self.wire(),
    {
        put_u32(out, self.role.to_u32());
        put_zeros(out, 4);
        put_u64(out, self.generation_id);
        assert(out@ =~= old(out)@ + self.wire());
    }

    /// The wire form as a vector of its own.
    pub fn into_bytes(&self) -> (res: Vec<u8>)
        ensures
            res@ == self.wire(),
    {
        let mut out: Vec<u8> = Vec::new();
        self.encode(&mut out);
        out
    }

    /// The wire form is 16 bytes long, and decoding it gives the record back.
    pub proof fn lemma_roundtrip(self)
        requires
            self.wf(),
        ensures
            self.wire().len() == 16,
            Self::spec_try_from(self.wire()) == Ok::<Role, Error>(self),
    {
        let w = self.wire();
        assert(spec_u32_at(w, 0) == self.role.spec_to_u32()) by {
            lemma_u32_at_bytes(w, 0, self.role.spec_to_u32());
        }
        self.role.lemma_wire_value();
        assert(spec_u64_at(w, 8) == self.generation_id) by {
            lemma_u64_at_bytes(w, 8, self.generation_id);
        }
    }

    /// What a slice decodes to holds what the wire format can carry, and is as
    /// long on the wire as the slice.
    pub proof fn lemma_decoded(b: Seq<u8>)
        requires
            Self::spec_try_from(b) is Ok,
        ensures
            Self::spec_try_from(b)->Ok_0.wf(),
            Self::spec_try_from(b)->Ok_0.wire().len() == b.len(),
    {
    }
}

} // verus!
