use frame_probe::codec::{encode, FrameError};
use frame_probe::json::{FaultKind, JsonFault};
use frame_probe::reader::{
    request, start, step, Fault, ReaderEvent, ReaderState, Request, DEFAULT_READ_BUDGET,
};
use serde_json::Value;

const FETCH: &str = "{\"command\":\"FETCH\",\"parameters\":[\"REPLAY\",\"archive_211015_123637\"]}";

fn fetch_message() -> Value {
    let mut object = serde_json::Map::new();
    object.insert("command".to_string(), Value::String("FETCH".to_string()));
    object.insert(
        "parameters".to_string(),
        Value::Array(vec![
            Value::String("REPLAY".to_string()),
            Value::String("archive_211015_123637".to_string()),
        ]),
    );
    Value::Object(object)
}

fn received(bytes: &[u8]) -> ReaderEvent {
    ReaderEvent::Received(bytes.to_vec())
}

/// Feeds one frame to a reader that awaits a header, and gives the state
/// after the message was shown.
fn consume(state: ReaderState, payload: &[u8]) -> ReaderState {
    let frame = encode(payload).unwrap();
    assert_eq!(request(&state), Request::Read(8));
    let state = step(state, received(&frame[..8]));
    assert_eq!(request(&state), Request::Read(payload.len()));
    let state = step(state, received(&frame[8..]));
    assert_eq!(request(&state), Request::Present);
    step(state, ReaderEvent::Presented)
}

#[test]
fn the_default_budget_is_a_hundred_frames() {
    assert_eq!(DEFAULT_READ_BUDGET, 100);
}

#[test]
fn a_reader_starts_by_reading_a_header() {
    let state = start(100);
    assert_eq!(state, ReaderState::ReadingHeader { budget: 100 });
    assert_eq!(request(&state), Request::Read(8));
}

#[test]
fn a_reader_without_budget_is_exhausted_at_once() {
    let state = start(0);
    assert_eq!(state, ReaderState::Exhausted);
    assert_eq!(request(&state), Request::Stop);
}

#[test]
fn a_header_leads_to_its_payload() {
    let state = step(start(5), received(b"00000043"));
    assert_eq!(state, ReaderState::ReadingPayload { budget: 5, declared_length: 67 });
    assert_eq!(request(&state), Request::Read(67));
}

#[test]
fn a_payload_leads_to_its_message() {
    let state = step(start(5), received(b"00000043"));
    let state = step(state, received(FETCH.as_bytes()));
    assert_eq!(state, ReaderState::Decoded { budget: 5, message: fetch_message() });
    assert_eq!(request(&state), Request::Present);
}

#[test]
fn a_shown_message_costs_one_of_the_budget() {
    let state = ReaderState::Decoded { budget: 5, message: Value::Null };
    assert_eq!(step(state, ReaderEvent::Presented), ReaderState::ReadingHeader { budget: 4 });
    let state = ReaderState::Decoded { budget: 2, message: Value::Null };
    assert_eq!(step(state, ReaderEvent::Presented), ReaderState::ReadingHeader { budget: 1 });
}

#[test]
fn the_last_frame_of_the_budget_exhausts_the_reader() {
    let state = ReaderState::Decoded { budget: 1, message: Value::Null };
    assert_eq!(step(state, ReaderEvent::Presented), ReaderState::Exhausted);
    let state = ReaderState::Decoded { budget: 0, message: Value::Null };
    assert_eq!(step(state, ReaderEvent::Presented), ReaderState::Exhausted);
}

#[test]
fn a_budget_of_three_is_spent_by_three_frames() {
    let state = start(3);
    let state = consume(state, FETCH.as_bytes());
    assert_eq!(state, ReaderState::ReadingHeader { budget: 2 });
    let state = consume(state, b"[]");
    assert_eq!(state, ReaderState::ReadingHeader { budget: 1 });
    let state = consume(state, b"\"any json will do\"");
    assert_eq!(state, ReaderState::Exhausted);
    assert_eq!(request(&state), Request::Stop);
}

#[test]
fn the_default_budget_is_spent_by_a_hundred_frames() {
    let mut state = start(DEFAULT_READ_BUDGET);
    let mut consumed: u64 = 0;
    while request(&state) != Request::Stop {
        assert_eq!(state, ReaderState::ReadingHeader { budget: DEFAULT_READ_BUDGET - consumed });
        state = consume(state, FETCH.as_bytes());
        consumed += 1;
    }
    assert_eq!(consumed, 100);
    assert_eq!(state, ReaderState::Exhausted);
}

#[test]
fn data_that_ends_before_a_header_cancels() {
    assert_eq!(step(start(100), received(b"")), ReaderState::Cancelled);
    assert_eq!(step(start(1), received(b"")), ReaderState::Cancelled);
    let state = consume(start(2), b"{}");
    assert_eq!(step(state, received(b"")), ReaderState::Cancelled);
}

#[test]
fn a_cancelled_reader_asks_for_nothing() {
    let state = step(start(100), received(b""));
    assert_eq!(request(&state), Request::Stop);
}

#[test]
fn data_that_ends_within_a_header_is_a_fault() {
    for partial in [&b"0"[..], &b"0000"[..], &b"0000004"[..]] {
        assert_eq!(
            step(start(100), received(partial)),
            ReaderState::Faulted(Fault::Frame(FrameError::MalformedHeader))
        );
    }
}

#[test]
fn a_malformed_header_is_a_fault() {
    assert_eq!(
        step(start(100), received(b"0000zz43")),
        ReaderState::Faulted(Fault::Frame(FrameError::MalformedHeader))
    );
    assert_eq!(
        step(start(100), received(b"000000043")),
        ReaderState::Faulted(Fault::Frame(FrameError::MalformedHeader))
    );
}

#[test]
fn a_header_with_a_sign_is_a_fault_and_no_payload_is_asked_for() {
    let state = step(start(100), received(b"+000001a"));
    assert_eq!(state, ReaderState::Faulted(Fault::Frame(FrameError::MalformedHeader)));
    assert_eq!(request(&state), Request::Stop);
}

#[test]
fn a_failed_read_is_a_fault() {
    assert_eq!(step(start(100), ReaderEvent::ReadFailed), ReaderState::Faulted(Fault::ReadFailed));
    let state = step(start(100), received(b"00000043"));
    assert_eq!(step(state, ReaderEvent::ReadFailed), ReaderState::Faulted(Fault::ReadFailed));
}

#[test]
fn a_truncated_payload_is_a_fault() {
    let state = step(start(100), received(b"00000043"));
    assert_eq!(
        step(state, received(&FETCH.as_bytes()[..30])),
        ReaderState::Faulted(Fault::Frame(FrameError::TruncatedPayload))
    );
    let state = step(start(100), received(b"00000043"));
    assert_eq!(
        step(state, received(b"")),
        ReaderState::Faulted(Fault::Frame(FrameError::TruncatedPayload))
    );
}

#[test]
fn a_payload_that_is_not_utf8_is_a_fault() {
    let state = step(start(100), received(b"00000003"));
    assert_eq!(
        step(state, received(b"\"\xff\"")),
        ReaderState::Faulted(Fault::Frame(FrameError::InvalidEncoding))
    );
}

#[test]
fn a_payload_that_is_not_json_is_a_fault() {
    let state = step(start(100), received(b"00000006"));
    assert_eq!(
        step(state, received(b"{\"a\":}")),
        ReaderState::Faulted(Fault::Frame(FrameError::MalformedJson(JsonFault {
            line: 1,
            column: 6,
            kind: FaultKind::Syntax
        })))
    );
}

#[test]
fn a_frame_without_payload_is_a_fault() {
    let state = step(start(100), received(b"00000000"));
    assert_eq!(state, ReaderState::ReadingPayload { budget: 100, declared_length: 0 });
    assert_eq!(
        step(state, received(b"")),
        ReaderState::Faulted(Fault::Frame(FrameError::MalformedJson(JsonFault {
            line: 1,
            column: 0,
            kind: FaultKind::Eof
        })))
    );
}

#[test]
fn a_faulted_reader_asks_for_nothing() {
    let state = step(start(100), ReaderEvent::ReadFailed);
    assert_eq!(request(&state), Request::Stop);
}

#[test]
fn a_report_out_of_turn_is_a_fault() {
    assert_eq!(step(start(100), ReaderEvent::Presented), ReaderState::Faulted(Fault::OutOfTurn));
    let state = step(start(100), received(b"00000002"));
    assert_eq!(step(state, ReaderEvent::Presented), ReaderState::Faulted(Fault::OutOfTurn));
    let state = ReaderState::Decoded { budget: 3, message: Value::Null };
    assert_eq!(step(state, received(b"00000002")), ReaderState::Faulted(Fault::OutOfTurn));
    let state = ReaderState::Decoded { budget: 3, message: Value::Null };
    assert_eq!(step(state, ReaderEvent::ReadFailed), ReaderState::Faulted(Fault::OutOfTurn));
}

#[test]
fn a_reader_that_is_done_stays_as_it_is() {
    for event in [received(b"00000002"), received(b""), ReaderEvent::ReadFailed, ReaderEvent::Presented] {
        assert_eq!(step(ReaderState::Exhausted, event), ReaderState::Exhausted);
    }
    for event in [received(b"00000002"), received(b""), ReaderEvent::ReadFailed, ReaderEvent::Presented] {
        assert_eq!(step(ReaderState::Cancelled, event), ReaderState::Cancelled);
    }
    for event in [received(b"00000002"), received(b""), ReaderEvent::ReadFailed, ReaderEvent::Presented] {
        assert_eq!(
            step(ReaderState::Faulted(Fault::ReadFailed), event),
            ReaderState::Faulted(Fault::ReadFailed)
        );
    }
}

#[test]
fn the_message_of_a_frame_does_not_matter_to_the_budget() {
    for payload in [&b"null"[..], &b"0"[..], &b"{\"command\":\"STOP\"}"[..], &b"[[],[]]"[..]] {
        assert_eq!(consume(start(7), payload), ReaderState::ReadingHeader { budget: 6 });
    }
}

#[test]
fn a_peer_that_echoes_the_request_is_decoded() {
    let frame = encode(FETCH.as_bytes()).unwrap();
    assert_eq!(&frame[..8], b"00000043");
    assert_eq!(&frame[8..], FETCH.as_bytes());
    let state = step(start(DEFAULT_READ_BUDGET), received(&frame[..8]));
    let state = step(state, received(&frame[8..]));
    match state {
        ReaderState::Decoded { budget, message } => {
            assert_eq!(budget, 100);
            assert_eq!(message, fetch_message());
            assert_eq!(message, serde_json::from_str::<Value>(FETCH).unwrap());
        }
        other => panic!("not decoded: {:?}", other),
    }
}
