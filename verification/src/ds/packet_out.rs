//! Packet-out: the controller sends a packet through a switch.

use crate::err::Error;
use crate::ds::actions::{
    calc_actions_len, checked_actions_len, lemma_actions_len_wire, spec_actions_len, ActionHeader,
};
use crate::ds::ports::PortNumber;
use crate::wire::{
    get_u16, get_u32, lemma_u16_at_bytes, lemma_u32_at_bytes, put_bytes, put_u16, put_u32,
    put_zeros, spec_u16_at, spec_u16_bytes, spec_u32_at, spec_u32_bytes, zeros,
};
use vstd::prelude::*;
use vstd::slice::{slice_subrange, slice_to_vec};

verus! {

/// Length of the fixed part of a packet-out message.
pub const PACKET_OUT_LEN: usize = 16;

/// A packet that the controller sends through the datapath.
#[derive(Debug, PartialEq, Eq, Clone)]
pub struct PacketOut {
    /// Id assigned by the datapath, or no buffer.
    pub buffer_id: u32,
    /// The input port of the packet, or the controller port.
    pub in_port: PortNumber,
    /// The number of bytes that the actions occupy on the wire.
    pub actions_len: u16,
    /// The actions to apply.
    pub actions: Vec<ActionHeader>,
    /// The packet, where no buffer is named.
    pub data: Vec<u8>,
}

/// The mathematical value of `PacketOut`.
pub struct PacketOutView {
    /// Id assigned by the datapath, or no buffer.
    pub buffer_id: u32,
    /// The input port of the packet, or the controller port.
    pub in_port: PortNumber,
    /// The number of bytes that the actions occupy on the wire.
    pub actions_len: u16,
    /// The actions to apply.
    pub actions: Seq<ActionHeader>,
    /// The packet, where no buffer is named.
    pub data: Seq<u8>,
}

impl View for PacketOut {
    type V = PacketOutView;

    open spec fn view(&self) -> PacketOutView {
        PacketOutView {
            buffer_id: self.buffer_id,
            in_port: self.in_port,
            actions_len: self.actions_len,
            actions: self.actions@,
            data: self.data@,
        }
    }
}

impl PacketOutView {
    /// The port and the actions are well-formed, and `actions_len` is the
    /// number of bytes that the actions occupy.
    pub open spec fn wf(self) -> bool {
        &&& self.in_port.wf()
        &&& forall|i: int| 0 <= i < self.actions.len() ==> (#[trigger] self.actions[i]).wf()
        &&& self.actions_len == spec_actions_len(self.actions)
    }

    /// The bytes on the wire; padding is zero.
    pub open spec fn wire(self) -> Seq<u8> {
        spec_u32_bytes(self.buffer_id) + spec_u32_bytes(self.in_port.spec_to_u32())
            + spec_u16_bytes(self.actions_len) + zeros(6) + ActionHeader::spec_wire_list(
            self.actions,
        ) + self.data
    }
}

impl PacketOutView {
    /// Decoding the wire form gives the value back.
    #[verifier::rlimit(60)]
    pub proof fn lemma_roundtrip(self)
        requires
            self.wf(),
        ensures
            PacketOut::spec_try_from(self.wire()) == Ok::<PacketOutView, Error>(self),
    {
        reveal(PacketOut::spec_try_from);
        let w = self.wire();
        lemma_actions_len_wire(self.actions);
        assert(spec_u32_at(w, 0) == self.buffer_id) by {
            lemma_u32_at_bytes(w, 0, self.buffer_id);
        }
        assert(spec_u32_at(w, 4) == self.in_port.spec_to_u32()) by {
            lemma_u32_at_bytes(w, 4, self.in_port.spec_to_u32());
        }
        self.in_port.lemma_wire_value();
        assert(spec_u16_at(w, 8) == self.actions_len) by {
            lemma_u16_at_bytes(w, 8, self.actions_len);
        }
        let end = 16 + self.actions_len;
        let sub = w.subrange(16, end);
        assert(sub =~= ActionHeader::spec_wire_list(self.actions));
        assert(sub.subrange(0, sub.len() as int) =~= sub);
        ActionHeader::lemma_list_roundtrip(sub, 0, Seq::empty(), self.actions);
        assert(Seq::<ActionHeader>::empty() + self.actions =~= self.actions);
        assert(w.subrange(end, w.len() as int) =~= self.data);
    }
}

impl PacketOut {
    /// A packet-out message whose `actions_len` is computed from its actions.
    pub fn new(
        buffer_id: u32,
        in_port: PortNumber,
        actions: Vec<ActionHeader>,
        data: Vec<u8>,
    ) -> (res:
        PacketOut)
        requires
            spec_actions_len(actions@) <= 0xffff,
        ensures
            res.buffer_id == buffer_id,
            res.in_port == in_port,
            res.actions_len == spec_actions_len(actions@),
            res.actions == actions,
            res.data == data,
    {
        let actions_len = calc_actions_len(&actions);
        PacketOut { buffer_id, in_port, actions_len, actions, data }
    }

    /// A packet-out message whose `actions_len` is computed from its actions,
    /// or `None` where the actions occupy more bytes than the field can say.
    pub fn try_new(
        buffer_id: u32,
        in_port: PortNumber,
        actions: Vec<ActionHeader>,
        data: Vec<u8>,
    ) -> (res: Option<PacketOut>)
        ensures
            res is None <==> spec_actions_len(actions@) > 0xffff,
            res matches Some(p) ==> p.buffer_id == buffer_id && p.in_port == in_port
                && p.actions_len == spec_actions_len(actions@) && p.actions == actions && p.data
                == data,
    {
        match checked_actions_len(&actions) {
            Some(actions_len) => Some(PacketOut { buffer_id, in_port, actions_len, actions, data }),
            None => None,
        }
    }

    /// What `b` decodes to. The slice must hold the 16 bytes of the fixed part
    /// and the bytes of the actions that `actions_len` announces; the port
    /// must decode; the actions must fill their bytes; what follows is the
    /// packet.
    #[verifier::opaque]
    pub open spec fn spec_try_from(b: Seq<u8>) -> Result<PacketOutView, Error> {
        if b.len() < 16 {
            Err(Error::InvalidSliceLength(16, b.len() as usize, "PacketOut"))
        } else {
            match PortNumber::spec_try_from(spec_u32_at(b, 4)) {
                Err(e) => Err(e),
                Ok(in_port) => {
                    let actions_len = spec_u16_at(b, 8);
                    if 16 + actions_len > b.len() {
                        Err(
                            Error::InvalidSliceLength(
                                (16 + actions_len) as usize,
                                b.len() as usize,
                                "PacketOut",
                            ),
                        )
                    } else {
                        match ActionHeader::spec_parse_list(
                            b.subrange(16, 16 + actions_len),
                            0,
                            Seq::empty(),
                        ) {
                            Err(e) => Err(e),
                            Ok(actions) => Ok(
                                PacketOutView {
                                    buffer_id: spec_u32_at(b, 0),
                                    in_port,
                                    actions_len,
                                    actions,
                                    data: b.subrange(16 + actions_len, b.len() as int),
                                },
                            ),
                        }
                    }
                },
            }
        }
    }

    /// Decodes a `PacketOut`.
    pub fn try_from(bytes: &[u8]) -> (res: Result<PacketOut, Error>)
        ensures
            match res {
                Ok(m) => Self::spec_try_from(bytes@) == Ok::<PacketOutView, Error>(m@),
                Err(e) => Self::spec_try_from(bytes@) == Err::<PacketOutView, Error>(e),
            },
    {
        proof {
            reveal(PacketOut::spec_try_from);
        }
        if bytes.len() < PACKET_OUT_LEN {
            return Err(Error::InvalidSliceLength(PACKET_OUT_LEN, bytes.len(), "PacketOut"));
        }
        let buffer_id: u32 = get_u32(bytes, 0);
        let in_port = match PortNumber::try_from(get_u32(bytes, 4)) {
            Ok(v) => v,
            Err(e) => return Err(e),
        };
        let actions_len: u16 = get_u16(bytes, 8);
        let end: usize = PACKET_OUT_LEN + actions_len as usize;
        if end > bytes.len() {
            return Err(Error::InvalidSliceLength(end, bytes.len(), "PacketOut"));
        }
        let actions = match ActionHeader::parse_list(slice_subrange(bytes, PACKET_OUT_LEN, end)) {
            Ok(v) => v,
            Err(e) => return Err(e),
        };
        let data: Vec<u8> = slice_to_vec(slice_subrange(bytes, end, bytes.len()));
        Ok(PacketOut { buffer_id, in_port, actions_len, actions, data })
    }

    /// Appends the wire form to `out`.
    pub fn encode(&self, out: &mut Vec<u8>)
        ensures
            final(out)@ == old(out)@ + self@.wire(),
    {
        put_u32(out, self.buffer_id);
        put_u32(out, self.in_port.to_u32());
        put_u16(out, self.actions_len);
        put_zeros(out, 6);
        ActionHeader::encode_list(&self.actions, out);
        put_bytes(out, self.data.as_slice());
        assert(out@ =~= old(out)@ + self@.wire());
    }

    /// The wire form as a vector of its own.
    pub fn into_bytes(&self) -> (res: Vec<u8>)
        ensures
            res@ == self@.wire(),
    {
        let mut out: Vec<u8> = Vec::new();
        self.encode(&mut out);
        out
    }

    /// What a slice decodes to is well-formed and as long on the wire as the
    /// slice.
    pub proof fn lemma_decoded(b: Seq<u8>)
        requires
            Self::spec_try_from(b) is Ok,
        ensures
            Self::spec_try_from(b)->Ok_0.wf(),
            Self::spec_try_from(b)->Ok_0.wire().len() == b.len(),
    {
        reveal(PacketOut::spec_try_from);
        let actions_len = spec_u16_at(b, 8);
        let sub = b.subrange(16, 16 + actions_len);
        ActionHeader::lemma_list_decoded(sub, 0, Seq::empty(), 0);
        let actions = ActionHeader::spec_parse_list(sub, 0, Seq::empty())->Ok_0;
        lemma_actions_len_wire(actions);
    }

    /// Encoding what a slice decodes to gives as many bytes as the slice has,
    /// and these decode to the same value: only padding can differ.
    pub proof fn lemma_reencode(b: Seq<u8>)
        requires
            Self::spec_try_from(b) is Ok,
        ensures
            Self::spec_try_from(b)->Ok_0.wire().len() == b.len(),
            Self::spec_try_from(Self::spec_try_from(b)->Ok_0.wire()) == Self::spec_try_from(b),
    {
        Self::lemma_decoded(b);
        Self::spec_try_from(b)->Ok_0.lemma_roundtrip();
    }
}

} // verus!
