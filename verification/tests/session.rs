use oath2::ctl::switch::{
    event_of, frame_payload_length, next_read_size, next_state, receive, IncomingMsg, ReadBuffer,
    ReadStep, Received, SessionEvent, SessionState, READ_BUFFER_SIZE,
};
use oath2::ds::packet_in::{InReason, PacketIn};
use oath2::ctl::{dispatch, dispatch_all, handle_echo_request, handle_hello, Dispatch};
use oath2::ds::actions::{calc_actions_len, ActionHeader, PayloadOutput};
use oath2::ds::packet_out::PacketOut;
use oath2::ds::ports::{PortNo, PortNumber};
use oath2::ds::{Header, OfMsg, OfPayload, Type};
use oath2::err::Error;

fn incoming(bytes: &[u8]) -> IncomingMsg {
    match receive(&bytes[..8], &bytes[8..]) {
        Received::Deliver(msg) => IncomingMsg { session: 1, msg },
        other => panic!("not delivered: {:?}", other),
    }
}

#[test]
fn hello_is_answered_with_the_same_bytes() {
    let hello = [0x04u8, 0x00, 0x00, 0x08, 0x00, 0x00, 0x00, 0x2a];
    let msg = incoming(&hello);
    match dispatch(&msg) {
        Dispatch::Reply(reply) => assert_eq!(reply.into_bytes(), hello.to_vec()),
        Dispatch::Deliver => panic!("the handler must not see a hello"),
    }
    assert_eq!(handle_hello(&msg).into_bytes(), hello.to_vec());
}

#[test]
fn echo_request_is_answered_with_an_echo_reply() {
    let msg = incoming(&[0x04, 0x02, 0x00, 0x08, 0x00, 0x00, 0x00, 0x07]);
    match dispatch(&msg) {
        Dispatch::Reply(reply) => {
            assert_eq!(reply.into_bytes(), vec![0x04, 0x03, 0x00, 0x08, 0x00, 0x00, 0x00, 0x07])
        }
        Dispatch::Deliver => panic!("the handler must not see an echo request"),
    }
    assert_eq!(
        handle_echo_request(&msg).into_bytes(),
        vec![0x04, 0x03, 0x00, 0x08, 0x00, 0x00, 0x00, 0x07]
    );
}

#[test]
fn echo_request_with_a_body_gets_an_empty_reply() {
    let msg = incoming(&[0x04, 0x02, 0x00, 0x0a, 0x00, 0x00, 0x01, 0x07, 0xaa, 0xbb]);
    match dispatch(&msg) {
        Dispatch::Reply(reply) => {
            assert_eq!(reply.into_bytes(), vec![0x04, 0x03, 0x00, 0x08, 0x00, 0x00, 0x01, 0x07])
        }
        Dispatch::Deliver => panic!("the handler must not see an echo request"),
    }
}

#[test]
fn unknown_message_type_is_dropped() {
    let bytes = [0x04u8, 0x7f, 0x00, 0x08, 0x00, 0x00, 0x00, 0x01];
    assert_eq!(frame_payload_length(&bytes[..]), Ok(0));
    let received = receive(&bytes[..], &[]);
    assert_eq!(received, Received::Dropped);
    assert_eq!(event_of(&received), SessionEvent::Dropped);
    assert_eq!(next_state(SessionState::Open, event_of(&received)), SessionState::Open);
}

#[test]
fn unknown_type_with_a_body_can_be_skipped() {
    let bytes = [0x04u8, 0x7f, 0x00, 0x0b, 0x00, 0x00, 0x00, 0x01, 1, 2, 3];
    assert_eq!(frame_payload_length(&bytes[..8]), Ok(3));
    assert_eq!(receive(&bytes[..8], &bytes[8..]), Received::Dropped);
}

#[test]
fn decode_failure_of_a_known_type_closes_the_session() {
    // a packet-out whose input port is zero
    let mut bytes = vec![0x04u8, 13, 0, 24, 0, 0, 0, 9];
    bytes.extend_from_slice(&[0, 0, 0, 1, 0, 0, 0, 0, 0, 0, 0, 0, 0, 0, 0, 0]);
    let received = receive(&bytes[..8], &bytes[8..]);
    assert_eq!(received, Received::Fatal(Error::IllegalValue(0, "PortNumber")));
    assert_eq!(next_state(SessionState::Open, event_of(&received)), SessionState::Closed);
    // a header of another version
    assert_eq!(
        receive(&[1u8, 0x7f, 0, 8, 0, 0, 0, 1][..], &[]),
        Received::Fatal(Error::UnsupportedType(1, "Version"))
    );
    assert_eq!(
        receive(&[4u8, 0, 0, 8, 0, 0, 0][..], &[]),
        Received::Fatal(Error::InvalidSliceLength(8, 7, "Header"))
    );
}

#[test]
fn port_zero_in_packet_out_is_rejected() {
    let bytes = [0u8, 0, 0, 1, 0, 0, 0, 0, 0, 0, 0, 0, 0, 0, 0, 0];
    assert_eq!(PacketOut::try_from(&bytes[..]), Err(Error::IllegalValue(0, "PortNumber")));
}

#[test]
fn session_states_follow_the_events() {
    assert_eq!(next_state(SessionState::New, SessionEvent::Accepted), SessionState::Open);
    assert_eq!(next_state(SessionState::New, SessionEvent::Eof), SessionState::New);
    assert_eq!(next_state(SessionState::Open, SessionEvent::Delivered), SessionState::Open);
    assert_eq!(next_state(SessionState::Open, SessionEvent::Eof), SessionState::Closed);
    assert_eq!(next_state(SessionState::Open, SessionEvent::FatalDecode), SessionState::Closed);
    assert_eq!(next_state(SessionState::Open, SessionEvent::ReadFailed), SessionState::Closed);
    assert_eq!(next_state(SessionState::Open, SessionEvent::WriteFailed), SessionState::Closed);
    assert_eq!(next_state(SessionState::Closed, SessionEvent::Accepted), SessionState::Closed);
    assert_eq!(next_state(SessionState::Closed, SessionEvent::Delivered), SessionState::Closed);
}

#[test]
fn a_header_split_across_two_reads_is_put_together() {
    let bytes = [0x04u8, 0x02, 0x00, 0x0a, 0x00, 0x00, 0x00, 0x07, 0x55, 0x66];
    let mut head = ReadBuffer::new(8);
    assert_eq!(head.remaining(), 8);
    assert_eq!(head.feed(&bytes[0..3]), 3);
    assert!(!head.is_complete());
    assert_eq!(head.remaining(), 5);
    assert_eq!(head.feed(&bytes[3..]), 5);
    assert!(head.is_complete());
    assert_eq!(head.data, bytes[..8].to_vec());
    let want = frame_payload_length(&head.data[..]).unwrap();
    assert_eq!(want, 2);
    let mut body = ReadBuffer::new(want);
    assert_eq!(body.feed(&bytes[8..9]), 1);
    assert_eq!(body.feed(&bytes[9..]), 1);
    assert!(body.is_complete());
    assert_eq!(
        receive(&head.data[..], &body.data[..]),
        Received::Deliver(OfMsg::new(
            Header::try_from(&bytes[..8]).unwrap(),
            OfPayload::EchoRequest(vec![0x55, 0x66])
        ))
    );
}

#[test]
fn reads_ask_for_what_is_missing_but_one_buffer_at_most() {
    assert_eq!(READ_BUFFER_SIZE, 128);
    assert_eq!(next_read_size(8, 0), 8);
    assert_eq!(next_read_size(8, 3), 5);
    assert_eq!(next_read_size(128, 0), 128);
    assert_eq!(next_read_size(256, 128), 128);
    assert_eq!(next_read_size(300, 256), 44);
    assert_eq!(next_read_size(300, 300), 0);
    let empty = ReadBuffer::new(0);
    assert!(empty.is_complete());
}

#[test]
fn messages_are_dispatched_in_order() {
    let msgs = vec![
        incoming(&[4, 0, 0, 8, 0, 0, 0, 1]),
        incoming(&[4, 20, 0, 8, 0, 0, 0, 2]),
        incoming(&[4, 2, 0, 8, 0, 0, 0, 3]),
        incoming(&[4, 21, 0, 8, 0, 0, 0, 4]),
    ];
    let out = dispatch_all(&msgs);
    assert_eq!(out.len(), 4);
    assert_eq!(out[0], Dispatch::Reply(OfMsg::generate(1, OfPayload::Hello)));
    assert_eq!(out[1], Dispatch::Deliver);
    assert_eq!(out[2], Dispatch::Reply(OfMsg::generate(3, OfPayload::EchoReply(Vec::new()))));
    assert_eq!(out[3], Dispatch::Deliver);
}

#[test]
fn packet_in_is_answered_with_a_flood() {
    let frame: Vec<u8> = (0u8..60).collect();
    let mut bytes = vec![0x04u8, 10, 0, 94, 0, 0, 0, 0x10];
    bytes.extend_from_slice(&[0, 0, 0, 1, 0, 60, 0, 0, 0, 0, 0, 0, 0, 0, 0, 0]);
    bytes.extend_from_slice(&[0, 0, 0, 8, 0, 0, 0, 0]);
    bytes.extend_from_slice(&[0, 0]);
    bytes.extend_from_slice(&frame);
    assert_eq!(bytes.len(), 94);
    let msg = incoming(&bytes);
    assert_eq!(dispatch(&msg), Dispatch::Deliver);
    let packet_in = match msg.msg.payload() {
        OfPayload::PacketIn(p) => p.clone(),
        other => panic!("not a packet-in: {:?}", other),
    };
    assert_eq!(packet_in.buffer_id, 1);
    assert_eq!(packet_in.total_len, 60);
    assert_eq!(packet_in.cookie, 0);
    assert_eq!(packet_in.mmatch.matches.len(), 0);
    assert_eq!(packet_in.ethernet_frame, frame);

    let actions: Vec<ActionHeader> = vec![PayloadOutput {
        port: PortNumber::Reserved(PortNo::Flood),
        max_len: 0,
    }
    .into_action()];
    assert_eq!(calc_actions_len(&actions), 16);
    let out = PacketOut::new(
        packet_in.buffer_id,
        PortNo::Controller.into_port_number(),
        actions,
        packet_in.ethernet_frame.clone(),
    );
    assert_eq!(out.actions_len, 16);
    let response = OfMsg::generate(msg.msg.header().xid(), OfPayload::PacketOut(out));
    let written = response.into_bytes();
    let mut expected = vec![0x04u8, 13, 0, 100, 0, 0, 0, 0x10];
    expected.extend_from_slice(&[0, 0, 0, 1, 0xff, 0xff, 0xff, 0xfd, 0, 16, 0, 0, 0, 0, 0, 0]);
    expected.extend_from_slice(&[0, 0, 0, 16, 0xff, 0xff, 0xff, 0xfb, 0, 0, 0, 0, 0, 0, 0, 0]);
    expected.extend_from_slice(&frame);
    assert_eq!(written, expected);
    assert_eq!(OfMsg::try_from(&written[..]).unwrap().header().ttype(), Type::PacketOut);
}

#[test]
fn packet_in_with_an_empty_match_of_length_eight_decodes() {
    let mut bytes = vec![0u8, 0, 0, 1, 0, 60, 0, 0, 0, 0, 0, 0, 0, 0, 0, 0];
    bytes.extend_from_slice(&[0, 0, 0, 8, 0, 0, 0, 0]);
    bytes.extend_from_slice(&[0, 0]);
    bytes.extend_from_slice(&[0xab; 60]);
    assert_eq!(bytes.len(), 86);
    let p = PacketIn::try_from(&bytes[..]).unwrap();
    assert_eq!(p.buffer_id, 1);
    assert_eq!(p.total_len, 60);
    assert_eq!(p.reason, InReason::NoMatch);
    assert_eq!(p.table_id, 0);
    assert_eq!(p.cookie, 0);
    assert_eq!(p.mmatch.length, 8);
    assert!(p.mmatch.matches.is_empty());
    assert_eq!(p.ethernet_frame, vec![0xab; 60]);
    assert_eq!(p.into_bytes(), bytes);
}

#[test]
fn a_read_of_no_bytes_ends_the_stream_only_while_bytes_are_missing() {
    let mut part = ReadBuffer::new(4);
    assert_eq!(part.on_read(&[1, 2]), ReadStep::More);
    assert_eq!(part.data, vec![1, 2]);
    assert_eq!(part.on_read(&[]), ReadStep::Eof);
    assert_eq!(part.data, vec![1, 2]);
    assert_eq!(part.on_read(&[3, 4, 5]), ReadStep::Complete);
    assert_eq!(part.data, vec![1, 2, 3, 4]);
    assert_eq!(part.on_read(&[]), ReadStep::Complete);
    assert_eq!(part.on_read(&[9]), ReadStep::Complete);
    assert_eq!(part.data, vec![1, 2, 3, 4]);

    let mut empty = ReadBuffer::new(0);
    assert_eq!(empty.on_read(&[]), ReadStep::Complete);
    let mut fresh = ReadBuffer::new(8);
    assert_eq!(fresh.on_read(&[]), ReadStep::Eof);
    let mut whole = ReadBuffer::new(3);
    assert_eq!(whole.on_read(&[7, 8, 9]), ReadStep::Complete);
    assert_eq!(whole.data, vec![7, 8, 9]);
}
