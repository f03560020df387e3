use passepartout::stream::{find_frame_break, frame_payload, EventFrames};

#[test]
fn frames_are_reassembled_across_chunks() {
    let mut frames = EventFrames::new();
    assert!(frames.push_text("data: {\"a\"").is_empty());
    assert!(frames.push_text(":1}\n").is_empty());
    assert_eq!(frames.push_text("\ndata: 2\n\ndata: 3"), vec!["{\"a\":1}".to_string(), "2".to_string()]);
    assert_eq!(frames.push_text("\n\n"), vec!["3".to_string()]);
}

#[test]
fn frames_without_data_prefix_are_dropped() {
    let mut frames = EventFrames::new();
    assert_eq!(frames.push_text(": keepalive\n\nevent: x\n\ndata: y\n\n"), vec!["y".to_string()]);
}

#[test]
fn byte_chunks_are_decoded() {
    let mut frames = EventFrames::new();
    assert_eq!(frames.push_bytes(b"data: caf\xc3\xa9\n\n"), vec!["café".to_string()]);
    assert_eq!(frames.push_bytes(b"data: \xff\n\n"), vec!["\u{fffd}".to_string()]);
}

#[test]
fn frame_helpers() {
    assert_eq!(find_frame_break("ab\n\ncd"), Some(2));
    assert_eq!(find_frame_break("ab\ncd\n"), None);
    assert_eq!(frame_payload("data: x"), Some("x".to_string()));
    assert_eq!(frame_payload("data:x"), None);
}
