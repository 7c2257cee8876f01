use octo::decode::{decode_envelope, Choice, Envelope, WireMessage};
use octo::error::ChatError;
use octo::event::{State, StreamState};
use octo::frame::LineBuffer;
use octo::stream::{classify_line, single_shot_events, Delta, LineKind, StreamDecoder};

const WIRE: &str = "data: {\"choices\":[{\"delta\":{\"role\":\"assistant\",\"content\":\"\"}}]}\n\n: keep-alive\n\ndata: {\"choices\":[{\"delta\":{\"content\":\"Hel\"}}]}\n\ndata: {\"choices\":[{\"delta\":{\"content\":\"lo, wo\"}}]}\r\n\r\ndata: {\"choices\":[{\"delta\":{\"content\":\"rld\"}}]}\n\ndata: {\"choices\":[{\"delta\":{},\"finish_reason\":\"stop\"}]}\n\ndata: [DONE]\n\n";

fn s(v: &serde_json::Value, key: &str) -> Option<String> {
    v.get(key).and_then(|x| x.as_str()).map(|t| t.to_string())
}

fn delta_from_json(payload: &[u8]) -> Delta {
    let v: serde_json::Value = serde_json::from_slice(payload).unwrap();
    let c = &v["choices"][0];
    Delta {
        role: s(&c["delta"], "role"),
        content: s(&c["delta"], "content"),
        finish_reason: s(c, "finish_reason"),
    }
}

/// Runs the wire bytes, cut at the given offsets, through the decoder.
fn run(wire: &[u8], cuts: &[usize]) -> (Vec<State>, Result<String, ChatError>) {
    let mut lines = LineBuffer::new();
    let mut dec = StreamDecoder::new();
    let mut events = Vec::new();
    let mut start = 0;
    let mut bounds: Vec<usize> = cuts.to_vec();
    bounds.push(wire.len());
    for end in bounds {
        for line in lines.push(&wire[start..end]) {
            match classify_line(&line) {
                LineKind::Data(p) => events.extend(dec.on_delta(delta_from_json(&p)).unwrap()),
                LineKind::Sentinel => events.extend(dec.on_sentinel().unwrap()),
                LineKind::Ignore => {}
            }
        }
        start = end;
    }
    (events, dec.finish())
}

fn kinds(events: &[State]) -> Vec<StreamState> {
    events.iter().map(|e| e.kind()).collect()
}

fn chunk_text(events: &[State]) -> String {
    let mut t = String::new();
    for e in events {
        if let State::Message(m) = e {
            t.push_str(m);
        }
    }
    t
}

#[test]
fn streamed_events_come_in_order() {
    let (events, r) = run(WIRE.as_bytes(), &[]);
    assert_eq!(r.unwrap(), "Hello, world");
    assert_eq!(
        kinds(&events),
        vec![
            StreamState::Start,
            StreamState::Chunk,
            StreamState::Chunk,
            StreamState::Chunk,
            StreamState::Stop,
            StreamState::Done
        ]
    );
}

#[test]
fn frame_splits_do_not_change_content() {
    let wire = WIRE.as_bytes();
    let (whole, r0) = run(wire, &[]);
    let r0 = r0.unwrap();
    for cuts in [vec![1], vec![7, 60], vec![50, 51, 52, 120, 200], (1..wire.len()).collect::<Vec<_>>()] {
        let (events, r) = run(wire, &cuts);
        assert_eq!(r.unwrap(), r0);
        assert_eq!(kinds(&events), kinds(&whole));
    }
}

#[test]
fn single_shot_and_streaming_agree() {
    let env = Envelope {
        error: None,
        choices: Some(vec![Choice {
            index: 0,
            message: WireMessage {
                role: "assistant".to_string(),
                content: Some("Hello, world".to_string()),
                tool_calls: Vec::new(),
            },
            finish_reason: Some("stop".to_string()),
        }]),
    };
    let d = decode_envelope(env).unwrap();
    let (_, streamed) = run(WIRE.as_bytes(), &[33, 90]);
    assert_eq!(streamed.unwrap().as_bytes(), d.content.as_bytes());
    let events = single_shot_events(d.content.clone(), d.finish);
    assert_eq!(chunk_text(&events), d.content);
    assert_eq!(kinds(&events), vec![StreamState::Start, StreamState::Chunk, StreamState::Stop]);
}

#[test]
fn single_shot_empty_reply_has_no_chunk() {
    let events = single_shot_events(String::new(), StreamState::OutOfCharacters);
    assert_eq!(kinds(&events), vec![StreamState::Start, StreamState::OutOfCharacters]);
}

#[test]
fn chunk_after_terminal_is_rejected() {
    let mut dec = StreamDecoder::new();
    dec.on_delta(Delta { role: None, content: Some("a".to_string()), finish_reason: None }).unwrap();
    dec.on_delta(Delta { role: None, content: None, finish_reason: Some("length".to_string()) }).unwrap();
    let r = dec.on_delta(Delta { role: None, content: Some("b".to_string()), finish_reason: None });
    assert!(matches!(r, Err(ChatError::Protocol(_))));
    let r = dec.on_delta(Delta { role: None, content: None, finish_reason: Some("stop".to_string()) });
    assert!(matches!(r, Err(ChatError::Protocol(_))));
    assert_eq!(dec.finish().unwrap(), "a");
}

#[test]
fn unknown_streamed_finish_reason_is_protocol_error() {
    let mut dec = StreamDecoder::new();
    let r = dec.on_delta(Delta { role: None, content: Some("a".to_string()), finish_reason: Some("bogus_reason".to_string()) });
    assert!(matches!(r, Err(ChatError::Protocol(_))));
}

#[test]
fn length_in_stream_is_out_of_characters() {
    let mut dec = StreamDecoder::new();
    let ev = dec.on_delta(Delta { role: None, content: Some("ab".to_string()), finish_reason: Some("length".to_string()) }).unwrap();
    assert_eq!(kinds(&ev), vec![StreamState::Start, StreamState::Chunk, StreamState::OutOfCharacters]);
}

#[test]
fn dropped_stream_is_transport_error_after_delivered_events() {
    let cut = WIRE.find("data: {\"choices\":[{\"delta\":{},").unwrap();
    let (events, r) = run(&WIRE.as_bytes()[..cut], &[]);
    assert_eq!(kinds(&events), vec![StreamState::Start, StreamState::Chunk, StreamState::Chunk, StreamState::Chunk]);
    assert!(matches!(r, Err(ChatError::Transport(_))));
}

#[test]
fn sentinel_before_finish_reason_is_protocol_error() {
    let mut dec = StreamDecoder::new();
    assert!(matches!(dec.on_sentinel(), Err(ChatError::Protocol(_))));
}

#[test]
fn classify_lines() {
    assert!(matches!(classify_line(&b"data: [DONE]".to_vec()), LineKind::Sentinel));
    assert!(matches!(classify_line(&b"data:[DONE]\r".to_vec()), LineKind::Sentinel));
    assert!(matches!(classify_line(&b": ping".to_vec()), LineKind::Ignore));
    assert!(matches!(classify_line(&b"".to_vec()), LineKind::Ignore));
    assert!(matches!(classify_line(&b"event: x".to_vec()), LineKind::Ignore));
    match classify_line(&b"data: {}".to_vec()) {
        LineKind::Data(p) => assert_eq!(p, b"{}".to_vec()),
        other => panic!("{:?}", other),
    }
}

#[test]
fn line_buffer_joins_pieces() {
    let mut b = LineBuffer::new();
    assert!(b.push(b"ab").is_empty());
    assert_eq!(b.push(b"c\nde\n\nf"), vec![b"abc".to_vec(), b"de".to_vec(), Vec::new()]);
    assert_eq!(b.push(b"\n"), vec![b"f".to_vec()]);
}
