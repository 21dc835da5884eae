//! Channel framing tests.

use razer_control::frame::{frame_message, parse_frame, FrameStatus, MAX_FRAME};

#[test]
fn frame_then_parse_gives_the_payload_back() {
    let payload = vec![1u8, 2, 3, 4, 5];
    let framed = frame_message(&payload).expect("small payload");
    match parse_frame(framed.as_slice()) {
        FrameStatus::Complete { payload: got, used } => {
            assert_eq!(got, payload);
            assert_eq!(used, framed.len());
        }
        _ => panic!("a whole frame must parse"),
    }
}

#[test]
fn empty_payload_frames_and_parses() {
    let framed = frame_message(&Vec::new()).expect("empty payload");
    assert_eq!(framed, vec![0u8, 0, 0, 0]);
    match parse_frame(framed.as_slice()) {
        FrameStatus::Complete { payload, used } => {
            assert!(payload.is_empty());
            assert_eq!(used, 4);
        }
        _ => panic!("a whole frame must parse"),
    }
}

#[test]
fn trailing_bytes_are_left_for_the_next_frame() {
    let mut buf = frame_message(&vec![9u8, 8]).expect("small payload");
    let second = frame_message(&vec![7u8]).expect("small payload");
    buf.extend_from_slice(&second);
    match parse_frame(buf.as_slice()) {
        FrameStatus::Complete { payload, used } => {
            assert_eq!(payload, vec![9u8, 8]);
            assert_eq!(used, 6);
            match parse_frame(&buf[used..]) {
                FrameStatus::Complete { payload: p2, .. } => assert_eq!(p2, vec![7u8]),
                _ => panic!("the second frame must parse"),
            }
        }
        _ => panic!("the first frame must parse"),
    }
}

#[test]
fn short_buffer_is_incomplete() {
    assert!(matches!(parse_frame(&[]), FrameStatus::Incomplete));
    assert!(matches!(parse_frame(&[5, 0, 0]), FrameStatus::Incomplete));
    // Length prefix says five bytes follow; only two arrived so far.
    assert!(matches!(parse_frame(&[5, 0, 0, 0, 1, 2]), FrameStatus::Incomplete));
}

#[test]
fn oversized_declared_length_is_refused() {
    assert!(matches!(parse_frame(&[255, 255, 255, 255]), FrameStatus::Oversized));
}

#[test]
fn oversized_payload_is_not_framed() {
    assert!(frame_message(&vec![0u8; MAX_FRAME + 1]).is_none());
    assert!(frame_message(&vec![0u8; MAX_FRAME]).is_some());
}
