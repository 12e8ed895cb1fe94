//! The session of one switch: how its byte stream is cut into messages, what
//! becomes of each message, and when the session ends.

use crate::ds::{Header, OfMsg, OfMsgView, Type, Version};
use crate::err::Error;
use crate::wire::{get_u16, spec_u16_at};
use vstd::prelude::*;
use vstd::slice::slice_subrange;

verus! {

/// The most bytes that one read asks the socket for.
pub const READ_BUFFER_SIZE: usize = 128;

/// A message that came in from a switch, with the session that it came
/// from. Replies to the message go to the writer queue of that session.
#[derive(Debug, PartialEq, Eq, Clone)]
pub struct IncomingMsg {
    /// The session that received the message.
    pub session: u64,
    /// The message.
    pub msg: OfMsg,
}

/// How many bytes to ask the socket for, when `read` of `len` bytes have
/// arrived: what is missing, but no more than one buffer.
pub open spec fn spec_next_read_size(len: int, read: int) -> int {
    if len - read < READ_BUFFER_SIZE {
        len - read
    } else {
        READ_BUFFER_SIZE as int
    }
}

/// How many bytes to ask the socket for next.
pub fn next_read_size(len: usize, read: usize) -> (r: usize)
    requires
        read <= len,
    ensures
        r == spec_next_read_size(len as int, read as int),
        read < len ==> 0 < r,
        read + r <= len,
{
    let missing: usize = len - read;
    if missing < READ_BUFFER_SIZE {
        missing
    } else {
        READ_BUFFER_SIZE
    }
}

/// How many bytes of a chunk a part takes that has `have` of its `want`
/// bytes: the whole chunk, or what the part still misses where the chunk is
/// longer.
pub open spec fn spec_taken(chunk_len: int, want: int, have: int) -> int {
    if chunk_len <= want - have {
        chunk_len
    } else {
        want - have
    }
}

/// What one read means to the part that is being read.
#[derive(Debug, PartialEq, Eq, Clone, Copy)]
pub enum ReadStep {
    /// The read returned no bytes while the part still misses some: the
    /// stream has ended.
    Eof,
    /// The part has all its bytes.
    Complete,
    /// The part misses bytes; another read is due.
    More,
}

/// The bytes of one part of a message, header or body, as they arrive.
pub struct ReadBuffer {
    /// What has arrived so far.
    pub data: Vec<u8>,
    /// How many bytes the part has.
    pub want: usize,
}

impl ReadBuffer {
    /// No more bytes have arrived than the part has.
    pub open spec fn wf(&self) -> bool {
        self.data@.len() <= self.want
    }

    /// An empty buffer for a part of `want` bytes.
    pub fn new(want: usize) -> (res: ReadBuffer)
        ensures
            res.wf(),
            res.want == want,
            res.data@ == Seq::<u8>::empty(),
    {
        ReadBuffer { data: Vec::new(), want }
    }

    /// Whether the part is complete.
    pub fn is_complete(&self) -> (r: bool)
        requires
            self.wf(),
        ensures
            r == (self.data@.len() == self.want),
    {
        self.data.len() == self.want
    }

    /// How many bytes to ask the socket for next.
    pub fn remaining(&self) -> (r: usize)
        requires
            self.wf(),
        ensures
            r == spec_next_read_size(self.want as int, self.data@.len() as int),
    {
        next_read_size(self.want, self.data.len())
    }

    /// Takes what one read returned. The bytes that the part still misses
    /// are appended, in order; the result is their number. A chunk that splits
    /// the part is so put together again by the next calls.
    pub fn feed(&mut self, chunk: &[u8]) -> (taken: usize)
        requires
            old(self).wf(),
        ensures
            final(self).wf(),
            final(self).want == old(self).want,
            taken == spec_taken(
                chunk@.len() as int,
                old(self).want as int,
                old(self).data@.len() as int,
            ),
            final(self).data@ == old(self).data@ + chunk@.subrange(0, taken as int),
    {
        let missing: usize = self.want - self.data.len();
        let taken: usize = if chunk.len() <= missing {
            chunk.len()
        } else {
            missing
        };
        self.data.extend_from_slice(slice_subrange(chunk, 0, taken));
        taken
    }

    /// Takes what one read returned and says what it means. A read of no
    /// bytes while the part misses some is the end of the stream, and the part
    /// stays as it is. Otherwise the bytes that the part still misses are
    /// appended, in order, and the part is complete or wants more.
    pub fn on_read(&mut self, chunk: &[u8]) -> (res: ReadStep)
        requires
            old(self).wf(),
        ensures
            final(self).wf(),
            final(self).want == old(self).want,
            final(self).data@ == old(self).data@ + chunk@.subrange(
                0,
                spec_taken(chunk@.len() as int, old(self).want as int, old(self).data@.len() as int),
            ),
            res == (if chunk@.len() == 0 && old(self).data@.len() < old(self).want {
                ReadStep::Eof
            } else if final(self).data@.len() == final(self).want {
                ReadStep::Complete
            } else {
                ReadStep::More
            }),
    {
        if chunk.len() == 0 && self.data.len() < self.want {
            assert(self.data@ + chunk@.subrange(0, 0) =~= self.data@);
            return ReadStep::Eof;
        }
        let _taken: usize = self.feed(chunk);
        if self.data.len() == self.want {
            ReadStep::Complete
        } else {
            ReadStep::More
        }
    }
}

/// How many bytes of body follow a header, by its length field alone: a
/// slice of another length than eight is refused, and so is a length below
/// eight.
pub open spec fn spec_frame_payload_length(h: Seq<u8>) -> Result<usize, Error> {
    if h.len() != 8 {
        Err(Error::InvalidSliceLength(8, h.len() as usize, "Header"))
    } else if spec_u16_at(h, 2) < 8 {
        Err(Error::IllegalValue(spec_u16_at(h, 2) as u64, "Header"))
    } else {
        Ok((spec_u16_at(h, 2) - 8) as usize)
    }
}

/// How many bytes of body follow the header `header_bytes`. The type of
/// the message is not looked at, so that a message of an unknown type can be
/// read to its end and dropped.
pub fn frame_payload_length(header_bytes: &[u8]) -> (res: Result<usize, Error>)
    ensures
        res == spec_frame_payload_length(header_bytes@),
{
    if header_bytes.len() != 8 {
        return Err(Error::InvalidSliceLength(8, header_bytes.len(), "Header"));
    }
    let length: u16 = get_u16(header_bytes, 2);
    if length < 8 {
        return Err(Error::IllegalValue(length as u64, "Header"));
    }
    Ok((length - 8) as usize)
}

/// What becomes of a message that was read.
#[derive(Debug, PartialEq, Eq, Clone)]
pub enum Received {
    /// The message decoded; it goes to the dispatcher.
    Deliver(OfMsg),
    /// The message is of an unknown type; it is dropped and the session
    /// goes on.
    Dropped,
    /// The message did not decode; the session ends.
    Fatal(Error),
}

/// The mathematical value of `Received`.
pub enum ReceivedView {
    /// The message decoded; it goes to the dispatcher.
    Deliver(OfMsgView),
    /// The message is of an unknown type; it is dropped and the session
    /// goes on.
    Dropped,
    /// The message did not decode; the session ends.
    Fatal(Error),
}

impl View for Received {
    type V = ReceivedView;

    open spec fn view(&self) -> ReceivedView {
        match self {
            Received::Deliver(m) => ReceivedView::Deliver(m@),
            Received::Dropped => ReceivedView::Dropped,
            Received::Fatal(e) => ReceivedView::Fatal(*e),
        }
    }
}

/// Whether `h` is a header of version 1.3 whose type is not known.
pub open spec fn spec_unknown_type(h: Seq<u8>) -> bool {
    &&& h.len() == 8
    &&& Version::spec_from_u8(h[0]) == Some(Version::V1_3)
    &&& Type::spec_from_u8(h[1]) is None
}

/// What becomes of the message with header `h` and body `p`: it is
/// delivered where header and body decode, dropped where only the type of the
/// message is unknown, and fatal with the decode error otherwise.
pub open spec fn spec_receive(h: Seq<u8>, p: Seq<u8>) -> ReceivedView {
    match Header::spec_try_from(h) {
        Ok(header) => match OfMsg::spec_decode_payload(header, p) {
            Ok(payload) => ReceivedView::Deliver(OfMsgView { header, payload }),
            Err(e) => ReceivedView::Fatal(e),
        },
        Err(e) => if spec_unknown_type(h) {
            ReceivedView::Dropped
        } else {
            ReceivedView::Fatal(e)
        },
    }
}

/// Decides what becomes of a message that was read as header and body.
pub fn receive(header_bytes: &[u8], payload_bytes: &[u8]) -> (res: Received)
    ensures
        res@ == spec_receive(header_bytes@, payload_bytes@),
{
    match Header::try_from(header_bytes) {
        Ok(header) => match OfMsg::decode_payload(&header, payload_bytes) {
            Ok(payload) => Received::Deliver(OfMsg::new(header, payload)),
            Err(e) => Received::Fatal(e),
        },
        Err(e) => {
            if header_bytes.len() == 8 {
                match (Version::from_u8(header_bytes[0]), Type::from_u8(header_bytes[1])) {
                    (Some(Version::V1_3), None) => {
                        return Received::Dropped;
                    },
                    _ => {},
                }
            }
            Received::Fatal(e)
        },
    }
}

/// The states of a session.
#[derive(Debug, PartialEq, Eq, Clone, Copy)]
pub enum SessionState {
    /// The connection is not accepted yet.
    New,
    /// Messages flow.
    Open,
    /// The session has ended.
    Closed,
}

/// What can happen to a session.
#[derive(Debug, PartialEq, Eq, Clone, Copy)]
pub enum SessionEvent {
    /// The connection was accepted.
    Accepted,
    /// A message was read and delivered.
    Delivered,
    /// A message of an unknown type was read and dropped.
    Dropped,
    /// A message did not decode.
    FatalDecode,
    /// The switch closed the connection.
    Eof,
    /// Reading from the socket failed.
    ReadFailed,
    /// Writing to the socket failed.
    WriteFailed,
}

/// The state that follows `state` on `event`. Accepting opens a new
/// session; an open session stays open on messages that are delivered or
/// dropped and closes on everything else; a closed session stays closed.
pub open spec fn spec_next_state(state: SessionState, event: SessionEvent) -> SessionState {
    match state {
        SessionState::New => match event {
            SessionEvent::Accepted => SessionState::Open,
            _ => SessionState::New,
        },
        SessionState::Open => match event {
            SessionEvent::Accepted | SessionEvent::Delivered | SessionEvent::Dropped => SessionState::Open,
            _ => SessionState::Closed,
        },
        SessionState::Closed => SessionState::Closed,
    }
}

/// The state that follows `state` on `event`.
pub fn next_state(state: SessionState, event: SessionEvent) -> (res: SessionState)
    ensures
        res == spec_next_state(state, event),
{
    match state {
        SessionState::New => match event {
            SessionEvent::Accepted => SessionState::Open,
            _ => SessionState::New,
        },
        SessionState::Open => match event {
            SessionEvent::Accepted | SessionEvent::Delivered | SessionEvent::Dropped => SessionState::Open,
            _ => SessionState::Closed,
        },
        SessionState::Closed => SessionState::Closed,
    }
}

/// The event that a received message is to its session.
pub fn event_of(received: &Received) -> (res: SessionEvent)
    ensures
        res == match received@ {
            ReceivedView::Deliver(_) => SessionEvent::Delivered,
            ReceivedView::Dropped => SessionEvent::Dropped,
            ReceivedView::Fatal(_) => SessionEvent::FatalDecode,
        },
{
    match received {
        Received::Deliver(_) => SessionEvent::Delivered,
        Received::Dropped => SessionEvent::Dropped,
        Received::Fatal(_) => SessionEvent::FatalDecode,
    }
}

/// A session that has ended stays so, whatever happens.
pub proof fn lemma_closed_stays_closed(event: SessionEvent)
    ensures
        spec_next_state(SessionState::Closed, event) == SessionState::Closed,
{
}

/// A message of an unknown type never ends a session, and a message that
/// does not decode for another reason always does.
pub proof fn lemma_unknown_type_is_dropped(h: Seq<u8>, p: Seq<u8>)
    ensures
        spec_unknown_type(h) ==> spec_receive(h, p) == ReceivedView::Dropped,
        spec_receive(h, p) is Fatal ==> !spec_unknown_type(h),
{
}

} // verus!
