//! Table modification.

use crate::err::Error;
use crate::wire::{
    get_u32, lemma_u32_at_bytes, put_u32, put_zeros, spec_u32_at, spec_u32_bytes, zeros,
};
use vstd::prelude::*;

verus! {

/// Configures the behaviour of a flow table.
#[derive(Debug, PartialEq, Eq, Clone, Copy)]
pub struct TableMod {
    /// Id of the table; 0xff for all tables.
    pub table_id: u8,
    /// Bitmap of table configuration flags.
    pub config: u32,
}

impl TableMod {
    /// Every field holds a value that the wire format can carry.
    pub open spec fn wf(self) -> bool {
        true
    }

    /// What `b` decodes to: a slice of another length than 8 is refused, then
    /// each field is decoded in wire order and the first failure is the result.
    pub open spec fn spec_try_from(b: Seq<u8>) -> Result<TableMod, Error> {
        if b.len() != 8 {
            Err(Error::InvalidSliceLength(8, b.len() as usize, "TableMod"))
        } else {
            Ok(TableMod { table_id: b[0], config: spec_u32_at(b, 4) })
        }
    }

    /// Decodes the 8 bytes of a `TableMod`.
    pub fn try_from(bytes: &[u8]) -> (res: Result<TableMod, Error>)
        ensures
            res == Self::spec_try_from(bytes@),
    {
        if bytes.len() != 8 {
            return Err(Error::InvalidSliceLength(8, bytes.len(), "TableMod"));
        }
        let table_id: u8 = bytes[0];
        let config: u32 = get_u32(bytes, 4);
        Ok(TableMod { table_id, config })
    }

    /// The 8 bytes of the record on the wire; padding is zero.
    pub open spec fn wire(self) -> Seq<u8> {
        seq![self.table_id]
            + zeros(3)
            + spec_u32_bytes(self.config)
    }

    /// Appends the wire form to `out`.
    pub fn encode(&self, out: &mut Vec<u8>)
        ensures
            final(out)@ == old(out)@ + self.wire(),
    {
        out.push(self.table_id);
        put_zeros(out, 3);
        put_u32(out, self.config);
        assert(out@ =~= old(out)@ + self.wire());
    }

    /// The wire form as a vector of its own.
    pub fn into_bytes(&self) -> (res: Vec<u8>)
        ensures
            res@ == self.wire(),
    {
        let mut out: Vec<u8> = Vec::new();
        self.encode(&mut out);
        out
    }

    /// The wire form is 8 bytes long, and decoding it gives the record back.
    pub proof fn lemma_roundtrip(self)
        requires
            self.wf(),
        ensures
            self.wire().len() == 8,
            Self::spec_try_from(self.wire()) == Ok::<TableMod, Error>(self),
    {
        let w = self.wire();
        assert(w[0] == self.table_id);
        assert(spec_u32_at(w, 4) == self.config) by {
            lemma_u32_at_bytes(w, 4, self.config);
        }
    }

    /// What a slice decodes to holds what the wire format can carry, and is as
    /// long on the wire as the slice.
    pub proof fn lemma_decoded(b: Seq<u8>)
        requires
            Self::spec_try_from(b) is Ok,
        ensures
            Self::spec_try_from(b)->Ok_0.wf(),
            Self::spec_try_from(b)->Ok_0.wire().len() == b.len(),
    {
    }
}

} // verus!
