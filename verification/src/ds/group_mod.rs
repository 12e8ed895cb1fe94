//! Group modification.

use crate::err::Error;
use crate::ds::actions::ActionHeader;
use crate::ds::ports::PortNumber;
use crate::wire::{
    get_u16, get_u32, lemma_u16_at_bytes, lemma_u32_at_bytes, put_u16, put_u32, put_zeros,
    spec_u16_at, spec_u16_bytes, spec_u32_at, spec_u32_bytes, zeros,
};
use vstd::prelude::*;
use vstd::slice::slice_subrange;

verus! {

/// What a group mod does.
#[derive(Debug, PartialEq, Eq, Clone, Copy)]
pub enum GroupModCommand {
    /// New group.
    Add,
    /// Modify all matching groups.
    Modify,
    /// Delete all matching groups.
    Delete,
}

impl GroupModCommand {
    /// The variant whose wire value is `raw`, if there is one.
    pub open spec fn spec_from_u16(raw: u16) -> Option<GroupModCommand> {
        match raw {
            0 => Some(GroupModCommand::Add),
            1 => Some(GroupModCommand::Modify),
            2 => Some(GroupModCommand::Delete),
            _ => None,
        }
    }

    /// The variant whose wire value is `raw`, if there is one.
    pub fn from_u16(raw: u16) -> (res: Option<GroupModCommand>)
        ensures
            res == Self::spec_from_u16(raw),
    {
        match raw {
            0 => Some(GroupModCommand::Add),
            1 => Some(GroupModCommand::Modify),
            2 => Some(GroupModCommand::Delete),
            _ => None,
        }
    }

    /// The wire value of the variant.
    pub open spec fn spec_to_u16(self) -> u16 {
        match self {
            GroupModCommand::Add => 0,
            GroupModCommand::Modify => 1,
            GroupModCommand::Delete => 2,
        }
    }

    /// The wire value of the variant.
    pub fn to_u16(&self) -> (r: u16)
        ensures
            r == self.spec_to_u16(),
    {
        match self {
            GroupModCommand::Add => 0,
            GroupModCommand::Modify => 1,
            GroupModCommand::Delete => 2,
        }
    }

    /// What decoding `raw` gives: its variant, or `UnknownEnum` with the value.
    pub open spec fn spec_decode(raw: u16) -> Result<GroupModCommand, Error> {
        match Self::spec_from_u16(raw) {
            Some(v) => Ok(v),
            None => Err(Error::UnknownEnum(raw as u64, "GroupModCommand")),
        }
    }

    /// Decodes a wire value; an unknown one is an `UnknownEnum` error.
    pub fn decode(raw: u16) -> (res: Result<GroupModCommand, Error>)
        ensures
            res == Self::spec_decode(raw),
    {
        match Self::from_u16(raw) {
            Some(v) => Ok(v),
            None => Err(Error::UnknownEnum(raw as u64, "GroupModCommand")),
        }
    }

    /// Every variant is what its own wire value decodes to, and only that
    /// value decodes to it.
    pub proof fn lemma_wire_value(self)
        ensures
            Self::spec_decode(self.spec_to_u16()) == Ok::<GroupModCommand, Error>(self),
            forall|raw: u16| Self::spec_from_u16(raw) == Some(self) ==> raw == self.spec_to_u16(),
    {
    }
}

/// The types of group.
#[derive(Debug, PartialEq, Eq, Clone, Copy)]
pub enum GroupType {
    /// All (multicast/broadcast) group.
    All,
    /// Select group.
    Select,
    /// Indirect group.
    Indirect,
    /// Fast failover group.
    Ff,
}

impl GroupType {
    /// The variant whose wire value is `raw`, if there is one.
    pub open spec fn spec_from_u8(raw: u8) -> Option<GroupType> {
        match raw {
            0 => Some(GroupType::All),
            1 => Some(GroupType::Select),
            2 => Some(GroupType::Indirect),
            3 => Some(GroupType::Ff),
            _ => None,
        }
    }

    /// The variant whose wire value is `raw`, if there is one.
    pub fn from_u8(raw: u8) -> (res: Option<GroupType>)
        ensures
            res == Self::spec_from_u8(raw),
    {
        match raw {
            0 => Some(GroupType::All),
            1 => Some(GroupType::Select),
            2 => Some(GroupType::Indirect),
            3 => Some(GroupType::Ff),
            _ => None,
        }
    }

    /// The wire value of the variant.
    pub open spec fn spec_to_u8(self) -> u8 {
        match self {
            GroupType::All => 0,
            GroupType::Select => 1,
            GroupType::Indirect => 2,
            GroupType::Ff => 3,
        }
    }

    /// The wire value of the variant.
    pub fn to_u8(&self) -> (r: u8)
        ensures
            r == self.spec_to_u8(),
    {
        match self {
            GroupType::All => 0,
            GroupType::Select => 1,
            GroupType::Indirect => 2,
            GroupType::Ff => 3,
        }
    }

    /// What decoding `raw` gives: its variant, or `UnknownEnum` with the value.
    pub open spec fn spec_decode(raw: u8) -> Result<GroupType, Error> {
        match Self::spec_from_u8(raw) {
            Some(v) => Ok(v),
            None => Err(Error::UnknownEnum(raw as u64, "GroupType")),
        }
    }

    /// Decodes a wire value; an unknown one is an `UnknownEnum` error.
    pub fn decode(raw: u8) -> (res: Result<GroupType, Error>)
        ensures
            res == Self::spec_decode(raw),
    {
        match Self::from_u8(raw) {
            Some(v) => Ok(v),
            None => Err(Error::UnknownEnum(raw as u64, "GroupType")),
        }
    }

    /// Every variant is what its own wire value decodes to, and only that
    /// value decodes to it.
    pub proof fn lemma_wire_value(self)
        ensures
            Self::spec_decode(self.spec_to_u8()) == Ok::<GroupType, Error>(self),
            forall|raw: u8| Self::spec_from_u8(raw) == Some(self) ==> raw == self.spec_to_u8(),
    {
    }
}

/// A bucket of a group: a set of actions.
#[derive(Debug, PartialEq, Eq, Clone)]
pub struct Bucket {
    /// Length of the bucket in bytes, this header included.
    pub len: u16,
    /// Relative weight of the bucket, for select groups.
    pub weight: u16,
    /// Port whose state affects whether the bucket is live.
    pub watch_port: PortNumber,
    /// Group whose state affects whether the bucket is live.
    pub watch_group: u32,
    /// The actions of the bucket.
    pub actions: Vec<ActionHeader>,
}

/// The mathematical value of `Bucket`.
pub struct BucketView {
    /// Length of the bucket in bytes, this header included.
    pub len: u16,
    /// Relative weight of the bucket, for select groups.
    pub weight: u16,
    /// Port whose state affects whether the bucket is live.
    pub watch_port: PortNumber,
    /// Group whose state affects whether the bucket is live.
    pub watch_group: u32,
    /// The actions of the bucket.
    pub actions: Seq<ActionHeader>,
}

impl View for Bucket {
    type V = BucketView;

    open spec fn view(&self) -> BucketView {
        BucketView {
            len: self.len,
            weight: self.weight,
            watch_port: self.watch_port,
            watch_group: self.watch_group,
            actions: self.actions@,
        }
    }
}

impl BucketView {
    /// The bytes on the wire; padding is zero.
    pub open spec fn wire(self) -> Seq<u8> {
        spec_u16_bytes(self.len)
            + spec_u16_bytes(self.weight)
            + spec_u32_bytes(self.watch_port.spec_to_u32())
            + spec_u32_bytes(self.watch_group)
            + zeros(4)
            + ActionHeader::spec_wire_list(self.actions)
    }

    /// Every part holds what the wire format can carry, and the length field says
    /// how long the wire form is.
    pub open spec fn wf(self) -> bool {
        &&& self.watch_port.wf()
        &&& forall|i: int| 0 <= i < self.actions.len() ==> (#[trigger] self.actions[i]).wf()
        &&& self.len == self.wire().len()
    }

    /// What is read at the offsets of the fixed part of the wire form: the fields,
    /// and after the 16 bytes of the fixed part what follows it.
    #[verifier::rlimit(60)]
    pub proof fn lemma_fixed_part(self)
        ensures
            ({
                let w = self.wire();
                &&& w.len() >= 16
                &&& w.subrange(16, w.len() as int) == ActionHeader::spec_wire_list(self.actions)
                &&& spec_u16_at(w, 0) == self.len
                &&& spec_u16_at(w, 2) == self.weight
                &&& spec_u32_at(w, 4) == self.watch_port.spec_to_u32()
                &&& spec_u32_at(w, 8) == self.watch_group
            }),
    {
        let w = self.wire();
        let h = spec_u16_bytes(self.len)
            + spec_u16_bytes(self.weight)
            + spec_u32_bytes(self.watch_port.spec_to_u32())
            + spec_u32_bytes(self.watch_group)
            + zeros(4);
        let t = ActionHeader::spec_wire_list(self.actions);
        assert(h.len() == 16);
        assert(w =~= h + t);
        assert(spec_u16_at(w, 0) == self.len) by {
            assert(w[0] == h[0] && w[1] == h[1]);
            lemma_u16_at_bytes(h, 0, self.len);
        }
        assert(spec_u16_at(w, 2) == self.weight) by {
            assert(w[2] == h[2] && w[3] == h[3]);
            lemma_u16_at_bytes(h, 2, self.weight);
        }
        assert(spec_u32_at(w, 4) == self.watch_port.spec_to_u32()) by {
            assert(w[4] == h[4] && w[5] == h[5] && w[6] == h[6] && w[7] == h[7]);
            lemma_u32_at_bytes(h, 4, self.watch_port.spec_to_u32());
        }
        assert(spec_u32_at(w, 8) == self.watch_group) by {
            assert(w[8] == h[8] && w[9] == h[9] && w[10] == h[10] && w[11] == h[11]);
            lemma_u32_at_bytes(h, 8, self.watch_group);
        }
        assert(w.subrange(16, w.len() as int) =~= t);
    }

    /// Decoding the wire form gives the value back. The wire form announces its
    /// own length.
    #[verifier::rlimit(60)]
    pub proof fn lemma_roundtrip(self)
        requires
            self.wf(),
        ensures
            Bucket::spec_try_from(self.wire()) == Ok::<BucketView, Error>(self),
            16 <= self.wire().len() <= 0xffff,
            Bucket::spec_read_len(self.wire(), 0) == Ok::<usize, Error>(self.wire().len() as usize),
    {
        reveal(Bucket::spec_try_from);
        let w = self.wire();
        self.lemma_fixed_part();
        self.watch_port.lemma_wire_value();
        let t = w.subrange(16, w.len() as int);
        let sub = w.subrange(16, w.len() as int);
        assert(sub == ActionHeader::spec_wire_list(self.actions)) by {
            assert(sub =~= t.subrange(0, t.len() as int));
            assert(t.subrange(0, t.len() as int) =~= ActionHeader::spec_wire_list(self.actions));
        }
        assert(ActionHeader::spec_parse_list(sub, 0, Seq::empty()) == Ok::<Seq<ActionHeader>, Error>(self.actions)) by {
            assert(sub.subrange(0, sub.len() as int) =~= sub);
            ActionHeader::lemma_list_roundtrip(sub, 0, Seq::empty(), self.actions);
            assert(Seq::<ActionHeader>::empty() + self.actions =~= self.actions);
        }
    }
}

impl Bucket {
    /// What `b` decodes to. The slice must hold the 16 bytes of the fixed part and be as long as its own length field says;
    /// then every part is decoded in wire order, and the first failure is the result.
    #[verifier::opaque]
    pub open spec fn spec_try_from(b: Seq<u8>) -> Result<BucketView, Error> {
        if b.len() < 16 {
            Err(Error::InvalidSliceLength(16, b.len() as usize, "Bucket"))
        } else if spec_u16_at(b, 0) != b.len() {
            Err(Error::InvalidSliceLength(spec_u16_at(b, 0) as usize, b.len() as usize, "Bucket"))
        } else {
            match PortNumber::spec_try_from(spec_u32_at(b, 4)) {
                Err(e) => Err(e),
                Ok(watch_port) => match ActionHeader::spec_parse_list(b.subrange(16, b.len() as int), 0, Seq::empty()) {
                    Err(e) => Err(e),
                    Ok(actions) => Ok(
                        BucketView {
                            len: spec_u16_at(b, 0),
                            weight: spec_u16_at(b, 2),
                            watch_port,
                            watch_group: spec_u32_at(b, 8),
                            actions,
                        },
                    ),
                },
            }
        }
    }

    /// Decodes a `Bucket`.
    pub fn try_from(bytes: &[u8]) -> (res: Result<Bucket, Error>)
        ensures
            match res {
                Ok(m) => Self::spec_try_from(bytes@) == Ok::<BucketView, Error>(m@),
                Err(e) => Self::spec_try_from(bytes@) == Err::<BucketView, Error>(e),
            },
    {
        proof {
            reveal(Bucket::spec_try_from);
        }
        if bytes.len() < 16 {
            return Err(Error::InvalidSliceLength(16, bytes.len(), "Bucket"));
        }
        if get_u16(bytes, 0) as usize != bytes.len() {
            return Err(
                Error::InvalidSliceLength(
                    get_u16(bytes, 0) as usize,
                    bytes.len(),
                    "Bucket",
                ),
            );
        }
        let len: u16 = get_u16(bytes, 0);
        let weight: u16 = get_u16(bytes, 2);
        let watch_port = match PortNumber::try_from(get_u32(bytes, 4)) {
            Ok(v) => v,
            Err(e) => return Err(e),
        };
        let watch_group: u32 = get_u32(bytes, 8);
        let pos: usize = 16;
        let actions = match ActionHeader::parse_list(slice_subrange(bytes, pos, bytes.len())) {
            Ok(v) => v,
            Err(e) => return Err(e),
        };
        Ok(Bucket {
            len,
            weight,
            watch_port,
            watch_group,
            actions,
        })
    }

    /// Appends the wire form to `out`.
    pub fn encode(&self, out: &mut Vec<u8>)
        ensures
            final(out)@ == old(out)@ + self@.wire(),
    {
        put_u16(out, self.len);
        put_u16(out, self.weight);
        put_u32(out, self.watch_port.to_u32());
        put_u32(out, self.watch_group);
        put_zeros(out, 4);
        ActionHeader::encode_list(&self.actions, out);
        assert(out@ =~= old(out)@ + self@.wire());
    }

    /// The wire form as a vector of its own.
    pub fn into_bytes(&self) -> (res: Vec<u8>)
        ensures
            res@ == self@.wire(),
    {
        let mut out: Vec<u8> = Vec::new();
        self.encode(&mut out);
        out
    }

    /// What a slice decodes to holds what the wire format can carry, and is as
    /// long on the wire as the slice.
    #[verifier::rlimit(60)]
    pub proof fn lemma_decoded(b: Seq<u8>)
        requires
            Self::spec_try_from(b) is Ok,
        ensures
            Self::spec_try_from(b)->Ok_0.wf(),
            Self::spec_try_from(b)->Ok_0.wire().len() == b.len(),
    {
        reveal(Bucket::spec_try_from);
        ActionHeader::lemma_list_decoded(b.subrange(16, b.len() as int), 0, Seq::empty(), 0);
    }

    /// Encoding what a slice decodes to gives as many bytes as the slice has, and
    /// these decode to the same value: only padding can differ.
    pub proof fn lemma_reencode(b: Seq<u8>)
        requires
            Self::spec_try_from(b) is Ok,
        ensures
            Self::spec_try_from(b)->Ok_0.wire().len() == b.len(),
            Self::spec_try_from(Self::spec_try_from(b)->Ok_0.wire()) == Self::spec_try_from(b),
    {
        Self::lemma_decoded(b);
        Self::spec_try_from(b)->Ok_0.lemma_roundtrip();
    }

    /// How long the bucket that starts at `pos` says it is; an error where
    /// fewer than two bytes are left to hold its length field.
    pub open spec fn spec_read_len(b: Seq<u8>, pos: int) -> Result<usize, Error> {
        if pos + 2 > b.len() {
            Err(Error::CouldNotReadLength(0, "Bucket"))
        } else {
            Ok(spec_u16_at(b, pos) as usize)
        }
    }

    /// Reads the length of the bucket that starts at `pos`, without consuming
    /// anything.
    pub fn read_len(bytes: &[u8], pos: usize) -> (res: Result<usize, Error>)
        ensures
            res == Self::spec_read_len(bytes@, pos as int),
    {
        if bytes.len() < 2 || pos > bytes.len() - 2 {
            return Err(Error::CouldNotReadLength(0, "Bucket"));
        }
        Ok(get_u16(bytes, pos) as usize)
    }
}

impl Bucket {
    /// What the bytes of `b` from `pos` on decode to as a run of buckets, after
    /// those in `acc`: each block is as long as its own length field says, none may
    /// reach past the end of `b`, and the first failure is the result.
    pub open spec fn spec_parse_list(b: Seq<u8>, pos: int, acc: Seq<BucketView>) -> Result<
        Seq<BucketView>,
        Error,
    >
        decreases b.len() - pos,
    {
        if pos >= b.len() {
            Ok(acc)
        } else {
            match Self::spec_read_len(b, pos) {
                Err(e) => Err(e),
                Ok(n) => if n < 16 || pos + n > b.len() {
                    Err(Error::InvalidSliceLength(n, (b.len() - pos) as usize, "Bucket"))
                } else {
                    match Self::spec_try_from(b.subrange(pos, pos + n)) {
                        Err(e) => Err(e),
                        Ok(t) => Self::spec_parse_list(b, pos + n, acc.push(t)),
                    }
                },
            }
        }
    }

    /// Decodes a slice that holds a run of buckets and nothing else.
    pub fn parse_list(bytes: &[u8]) -> (res: Result<Vec<Bucket>, Error>)
        ensures
            match res {
                Ok(v) => Self::spec_parse_list(bytes@, 0, Seq::empty()) == Ok::<Seq<BucketView>, Error>(
                    v@.map_values(|t: Bucket| t@),
                ),
                Err(e) => Self::spec_parse_list(bytes@, 0, Seq::empty()) == Err::<Seq<BucketView>, Error>(
                    e,
                ),
            },
    {
        let mut items: Vec<Bucket> = Vec::new();
        let mut pos: usize = 0;
        assert(items@.map_values(|t: Bucket| t@) =~= Seq::<BucketView>::empty());
        while pos < bytes.len()
            invariant
                pos <= bytes@.len(),
                Self::spec_parse_list(bytes@, pos as int, items@.map_values(|t: Bucket| t@))
                    == Self::spec_parse_list(bytes@, 0, Seq::empty()),
            decreases bytes@.len() - pos,
        {
            let n: usize = match Self::read_len(bytes, pos) {
                Ok(n) => n,
                Err(e) => return Err(e),
            };
            if n < 16 || n > bytes.len() - pos {
                return Err(Error::InvalidSliceLength(n, bytes.len() - pos, "Bucket"));
            }
            let item = match Self::try_from(slice_subrange(bytes, pos, pos + n)) {
                Ok(t) => t,
                Err(e) => return Err(e),
            };
            proof {
                assert(items@.map_values(|t: Bucket| t@).push(item@) =~= items@.push(item).map_values(|t: Bucket| t@));
            }
            items.push(item);
            pos = pos + n;
        }
        Ok(items)
    }

    /// The wire forms of the buckets of `s`, one after the other.
    pub open spec fn spec_wire_list(s: Seq<BucketView>) -> Seq<u8>
        decreases s.len(),
    {
        if s.len() == 0 {
            Seq::empty()
        } else {
            Self::spec_wire_list(s.drop_last()) + s.last().wire()
        }
    }

    /// Appends the wire forms of `items`, in order.
    pub fn encode_list(items: &Vec<Bucket>, out: &mut Vec<u8>)
        ensures
            final(out)@ == old(out)@ + Self::spec_wire_list(items@.map_values(|t: Bucket| t@)),
    {
        let ghost all = items@.map_values(|t: Bucket| t@);
        let mut i: usize = 0;
        assert(old(out)@ + Self::spec_wire_list(all.take(0)) =~= old(out)@);
        while i < items.len()
            invariant
                i <= items@.len(),
                all == items@.map_values(|t: Bucket| t@),
                out@ == old(out)@ + Self::spec_wire_list(all.take(i as int)),
            decreases items@.len() - i,
        {
            let ghost before = out@;
            items[i].encode(out);
            proof {
                let next = all.take(i + 1);
                assert(next.drop_last() =~= all.take(i as int));
                assert(next.last() == items@[i as int]@);
                assert(out@ =~= old(out)@ + Self::spec_wire_list(next));
            }
            i = i + 1;
        }
        assert(all.take(items@.len() as int) =~= all);
    }

    /// The wire forms of a run of buckets are that of the first, then those of
    /// the others.
    pub proof fn lemma_wire_list_front(s: Seq<BucketView>)
        requires
            s.len() > 0,
        ensures
            Self::spec_wire_list(s) == s[0].wire() + Self::spec_wire_list(s.drop_first()),
        decreases s.len(),
    {
        if s.len() == 1 {
            assert(s.drop_last() =~= Seq::<BucketView>::empty());
            assert(s.drop_first() =~= Seq::<BucketView>::empty());
            assert(Self::spec_wire_list(s) =~= s[0].wire() + Self::spec_wire_list(s.drop_first()));
        } else {
            Self::lemma_wire_list_front(s.drop_last());
            assert(s.drop_first().drop_last() =~= s.drop_last().drop_first());
            assert(s.drop_last()[0] == s[0]);
            assert(s.drop_first().last() == s.last());
            assert(Self::spec_wire_list(s) =~= s[0].wire() + Self::spec_wire_list(s.drop_first()));
        }
    }

    /// The length that is read at `pos` of `b` is the one that is read from the
    /// bytes that start there.
    pub proof fn lemma_read_len_at(b: Seq<u8>, pos: int, w: Seq<u8>)
        requires
            0 <= pos,
            pos + w.len() <= b.len(),
            w.len() >= 2,
            b.subrange(pos, pos + w.len()) == w,
        ensures
            Self::spec_read_len(b, pos) == Self::spec_read_len(w, 0),
    {
        let sub = b.subrange(pos, pos + w.len());
        assert(sub[0] == b[pos + 0]);
        assert(sub[1] == b[pos + 1]);
    }

    /// Where the bytes of `b` from `pos` on are the wire forms of well-formed
    /// buckets, they decode to these, in order, after what was decoded before.
    #[verifier::rlimit(100)]
    pub proof fn lemma_list_roundtrip(
        b: Seq<u8>,
        pos: int,
        acc: Seq<BucketView>,
        s: Seq<BucketView>,
    )
        requires
            0 <= pos <= b.len(),
            b.subrange(pos, b.len() as int) == Self::spec_wire_list(s),
            forall|i: int| 0 <= i < s.len() ==> (#[trigger] s[i]).wf(),
        ensures
            Self::spec_parse_list(b, pos, acc) == Ok::<Seq<BucketView>, Error>(acc + s),
        decreases s.len(),
    {
        if s.len() == 0 {
            assert(acc + s =~= acc);
            assert(b.subrange(pos, b.len() as int).len() == 0);
        } else {
            let first = s[0];
            let rest = s.drop_first();
            let w0 = first.wire();
            let n = w0.len() as int;
            let tail = b.subrange(pos, b.len() as int);
            assert(tail == w0 + Self::spec_wire_list(rest)) by {
                Self::lemma_wire_list_front(s);
            }
            assert(tail.len() == b.len() - pos);
            assert(tail.len() == n + Self::spec_wire_list(rest).len());
            assert(b.subrange(pos, pos + n) == w0) by {
                assert(b.subrange(pos, pos + n) =~= tail.subrange(0, n));
                assert(tail.subrange(0, n) =~= w0);
            }
            assert(b.subrange(pos + n, b.len() as int) == Self::spec_wire_list(rest)) by {
                assert(b.subrange(pos + n, b.len() as int) =~= tail.subrange(n, tail.len() as int));
                assert(tail.subrange(n, tail.len() as int) =~= Self::spec_wire_list(rest));
            }
            assert(16 <= n <= 0x1_0007 && Self::spec_read_len(w0, 0) == Ok::<usize, Error>(
                n as usize,
            ) && Self::spec_try_from(w0) == Ok::<BucketView, Error>(first)) by {
                first.lemma_roundtrip();
            }
            assert(Self::spec_read_len(b, pos) == Ok::<usize, Error>(n as usize)) by {
                Self::lemma_read_len_at(b, pos, w0);
            }
            assert forall|i: int| 0 <= i < rest.len() implies (#[trigger] rest[i]).wf() by {
                assert(rest[i] == s[i + 1]);
            }
            assert(Self::spec_parse_list(b, pos + n, acc.push(first)) == Ok::<Seq<BucketView>, Error>(
                acc + s,
            )) by {
                Self::lemma_list_roundtrip(b, pos + n, acc.push(first), rest);
                assert(acc.push(first) + rest =~= acc + s);
            }
        }
    }
}

impl Bucket {
    /// The wire forms of a run of buckets followed by one more are those of the
    /// run, then that of the one.
    pub proof fn lemma_wire_list_len(s: Seq<BucketView>, t: BucketView)
        ensures
            Self::spec_wire_list(s.push(t)).len() == Self::spec_wire_list(s).len() + t.wire().len(),
    {
        assert(s.push(t).drop_last() =~= s);
        assert(s.push(t).last() == t);
    }

    /// What a run of buckets decodes to, after those in `acc`: the buckets of `acc`,
    /// then buckets that hold what the wire format can carry. Together the new ones
    /// are as long on the wire as the bytes that were decoded.
    #[verifier::rlimit(100)]
    pub proof fn lemma_list_decoded(b: Seq<u8>, pos: int, acc: Seq<BucketView>, n0: int)
        requires
            0 <= pos <= b.len(),
            0 <= n0 <= acc.len(),
            forall|i: int| n0 <= i < acc.len() ==> (#[trigger] acc[i]).wf(),
            Self::spec_parse_list(b, pos, acc) is Ok,
        ensures
            ({
                let r = Self::spec_parse_list(b, pos, acc)->Ok_0;
                &&& r.len() >= acc.len()
                &&& r.subrange(0, acc.len() as int) == acc
                &&& forall|i: int| n0 <= i < r.len() ==> (#[trigger] r[i]).wf()
                &&& Self::spec_wire_list(r).len() == Self::spec_wire_list(acc).len() + b.len() - pos
            }),
        decreases b.len() - pos,
    {
        if pos >= b.len() {
            assert(acc.subrange(0, acc.len() as int) =~= acc);
        } else {
            let n = Self::spec_read_len(b, pos)->Ok_0 as int;
            let block = b.subrange(pos, pos + n);
            let t = Self::spec_try_from(block)->Ok_0;
            assert(t.wf() && t.wire().len() == n) by {
                Self::lemma_decoded(block);
            }
            let acc2 = acc.push(t);
            assert forall|i: int| n0 <= i < acc2.len() implies (#[trigger] acc2[i]).wf() by {
                if i < acc.len() {
                    assert(acc2[i] == acc[i]);
                }
            }
            Self::lemma_list_decoded(b, pos + n, acc2, n0);
            Self::lemma_wire_list_len(acc, t);
            let r = Self::spec_parse_list(b, pos, acc)->Ok_0;
            assert(r.subrange(0, acc.len() as int) =~= acc) by {
                assert(r.subrange(0, acc2.len() as int) == acc2);
                assert forall|i: int| 0 <= i < acc.len() implies r[i] == acc[i] by {
                    assert(r.subrange(0, acc2.len() as int)[i] == r[i]);
                    assert(acc2[i] == acc[i]);
                }
            }
        }
    }
}

/// Sets up or changes a group.
#[derive(Debug, PartialEq, Eq, Clone)]
pub struct GroupMod {
    /// What to do.
    pub command: GroupModCommand,
    /// The type of the group.
    pub ttype: GroupType,
    /// The id of the group.
    pub group_id: u32,
    /// The buckets of the group.
    pub buckets: Vec<Bucket>,
}

/// The mathematical value of `GroupMod`.
pub struct GroupModView {
    /// What to do.
    pub command: GroupModCommand,
    /// The type of the group.
    pub ttype: GroupType,
    /// The id of the group.
    pub group_id: u32,
    /// The buckets of the group.
    pub buckets: Seq<BucketView>,
}

impl View for GroupMod {
    type V = GroupModView;

    open spec fn view(&self) -> GroupModView {
        GroupModView {
            command: self.command,
            ttype: self.ttype,
            group_id: self.group_id,
            buckets: self.buckets@.map_values(|t: Bucket| t@),
        }
    }
}

impl GroupModView {
    /// The bytes on the wire; padding is zero.
    pub open spec fn wire(self) -> Seq<u8> {
        spec_u16_bytes(self.command.spec_to_u16())
            + seq![self.ttype.spec_to_u8()]
            + zeros(1)
            + spec_u32_bytes(self.group_id)
            + Bucket::spec_wire_list(self.buckets)
    }

    /// Every part holds what the wire format can carry.
    pub open spec fn wf(self) -> bool {
        &&& forall|i: int| 0 <= i < self.buckets.len() ==> (#[trigger] self.buckets[i]).wf()
    }

    /// What is read at the offsets of the fixed part of the wire form: the fields,
    /// and after the 8 bytes of the fixed part what follows it.
    #[verifier::rlimit(60)]
    pub proof fn lemma_fixed_part(self)
        ensures
            ({
                let w = self.wire();
                &&& w.len() >= 8
                &&& w.subrange(8, w.len() as int) == Bucket::spec_wire_list(self.buckets)
                &&& spec_u16_at(w, 0) == self.command.spec_to_u16()
                &&& w[2] == self.ttype.spec_to_u8()
                &&& spec_u32_at(w, 4) == self.group_id
            }),
    {
        let w = self.wire();
        let h = spec_u16_bytes(self.command.spec_to_u16())
            + seq![self.ttype.spec_to_u8()]
            + zeros(1)
            + spec_u32_bytes(self.group_id);
        let t = Bucket::spec_wire_list(self.buckets);
        assert(h.len() == 8);
        assert(w =~= h + t);
        assert(spec_u16_at(w, 0) == self.command.spec_to_u16()) by {
            assert(w[0] == h[0] && w[1] == h[1]);
            lemma_u16_at_bytes(h, 0, self.command.spec_to_u16());
        }
        assert(w[2] == self.ttype.spec_to_u8());
        assert(spec_u32_at(w, 4) == self.group_id) by {
            assert(w[4] == h[4] && w[5] == h[5] && w[6] == h[6] && w[7] == h[7]);
            lemma_u32_at_bytes(h, 4, self.group_id);
        }
        assert(w.subrange(8, w.len() as int) =~= t);
    }

    /// Decoding the wire form gives the value back.
    #[verifier::rlimit(60)]
    pub proof fn lemma_roundtrip(self)
        requires
            self.wf(),
        ensures
            GroupMod::spec_try_from(self.wire()) == Ok::<GroupModView, Error>(self),
    {
        reveal(GroupMod::spec_try_from);
        let w = self.wire();
        self.lemma_fixed_part();
        self.command.lemma_wire_value();
        self.ttype.lemma_wire_value();
        let t = w.subrange(8, w.len() as int);
        let sub = w.subrange(8, w.len() as int);
        assert(sub == Bucket::spec_wire_list(self.buckets)) by {
            assert(sub =~= t.subrange(0, t.len() as int));
            assert(t.subrange(0, t.len() as int) =~= Bucket::spec_wire_list(self.buckets));
        }
        assert(Bucket::spec_parse_list(sub, 0, Seq::empty()) == Ok::<Seq<BucketView>, Error>(self.buckets)) by {
            assert(sub.subrange(0, sub.len() as int) =~= sub);
            Bucket::lemma_list_roundtrip(sub, 0, Seq::empty(), self.buckets);
            assert(Seq::<BucketView>::empty() + self.buckets =~= self.buckets);
        }
    }
}

impl GroupMod {
    /// What `b` decodes to. The slice must hold the 8 bytes of the fixed part;
    /// then every part is decoded in wire order, and the first failure is the result.
    #[verifier::opaque]
    pub open spec fn spec_try_from(b: Seq<u8>) -> Result<GroupModView, Error> {
        if b.len() < 8 {
            Err(Error::InvalidSliceLength(8, b.len() as usize, "GroupMod"))
        } else {
            match GroupModCommand::spec_decode(spec_u16_at(b, 0)) {
                Err(e) => Err(e),
                Ok(command) => match GroupType::spec_decode(b[2]) {
                    Err(e) => Err(e),
                    Ok(ttype) => match Bucket::spec_parse_list(b.subrange(8, b.len() as int), 0, Seq::empty()) {
                        Err(e) => Err(e),
                        Ok(buckets) => Ok(
                            GroupModView {
                                command,
                                ttype,
                                group_id: spec_u32_at(b, 4),
                                buckets,
                            },
                        ),
                    },
                },
            }
        }
    }

    /// Decodes a `GroupMod`.
    pub fn try_from(bytes: &[u8]) -> (res: Result<GroupMod, Error>)
        ensures
            match res {
                Ok(m) => Self::spec_try_from(bytes@) == Ok::<GroupModView, Error>(m@),
                Err(e) => Self::spec_try_from(bytes@) == Err::<GroupModView, Error>(e),
            },
    {
        proof {
            reveal(GroupMod::spec_try_from);
        }
        if bytes.len() < 8 {
            return Err(Error::InvalidSliceLength(8, bytes.len(), "GroupMod"));
        }
        let command = match GroupModCommand::decode(get_u16(bytes, 0)) {
            Ok(v) => v,
            Err(e) => return Err(e),
        };
        let ttype = match GroupType::decode(bytes[2]) {
            Ok(v) => v,
            Err(e) => return Err(e),
        };
        let group_id: u32 = get_u32(bytes, 4);
        let pos: usize = 8;
        let buckets = match Bucket::parse_list(slice_subrange(bytes, pos, bytes.len())) {
            Ok(v) => v,
            Err(e) => return Err(e),
        };
        Ok(GroupMod {
            command,
            ttype,
            group_id,
            buckets,
        })
    }

    /// Appends the wire form to `out`.
    pub fn encode(&self, out: &mut Vec<u8>)
        ensures
            final(out)@ == old(out)@ + self@.wire(),
    {
        put_u16(out, self.command.to_u16());
        out.push(self.ttype.to_u8());
        put_zeros(out, 1);
        put_u32(out, self.group_id);
        Bucket::encode_list(&self.buckets, out);
        assert(out@ =~= old(out)@ + self@.wire());
    }

    /// The wire form as a vector of its own.
    pub fn into_bytes(&self) -> (res: Vec<u8>)
        ensures
            res@ == self@.wire(),
    {
        let mut out: Vec<u8> = Vec::new();
        self.encode(&mut out);
        out
    }

    /// What a slice decodes to holds what the wire format can carry, and is as
    /// long on the wire as the slice.
    #[verifier::rlimit(60)]
    pub proof fn lemma_decoded(b: Seq<u8>)
        requires
            Self::spec_try_from(b) is Ok,
        ensures
            Self::spec_try_from(b)->Ok_0.wf(),
            Self::spec_try_from(b)->Ok_0.wire().len() == b.len(),
    {
        reveal(GroupMod::spec_try_from);
        Bucket::lemma_list_decoded(b.subrange(8, b.len() as int), 0, Seq::empty(), 0);
    }

    /// Encoding what a slice decodes to gives as many bytes as the slice has, and
    /// these decode to the same value: only padding can differ.
    pub proof fn lemma_reencode(b: Seq<u8>)
        requires
            Self::spec_try_from(b) is Ok,
        ensures
            Self::spec_try_from(b)->Ok_0.wire().len() == b.len(),
            Self::spec_try_from(Self::spec_try_from(b)->Ok_0.wire()) == Self::spec_try_from(b),
    {
        Self::lemma_decoded(b);
        Self::spec_try_from(b)->Ok_0.lemma_roundtrip();
    }
}

} // verus!
