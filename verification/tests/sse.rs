use wordpick::sse::{take_sse_events, SseReader};

#[test]
fn complete_events_are_read() {
    let b = take_sse_events("data: {\"a\":1}\n\ndata:{\"b\":2}\n\n");
    assert_eq!(b.payloads, vec!["{\"a\":1}".to_string(), "{\"b\":2}".to_string()]);
    assert!(!b.done);
    assert_eq!(b.rest, "");
}

#[test]
fn incomplete_event_stays_in_buffer() {
    let b = take_sse_events("data: one\n\ndata: tw");
    assert_eq!(b.payloads, vec!["one".to_string()]);
    assert_eq!(b.rest, "data: tw");
    let b = take_sse_events("data: x\n");
    assert!(b.payloads.is_empty());
    assert_eq!(b.rest, "data: x\n");
}

#[test]
fn done_marker_ends_the_stream() {
    let b = take_sse_events("data: a\n\ndata: [DONE]\n\ndata: late\n\n");
    assert_eq!(b.payloads, vec!["a".to_string()]);
    assert!(b.done);
}

#[test]
fn other_lines_are_skipped() {
    let b = take_sse_events(": keep-alive\nevent: message\r\ndata:  padded  \r\n\n");
    assert_eq!(b.payloads, vec!["padded".to_string()]);
    assert!(!b.done);
}

#[test]
fn several_data_lines_in_one_event() {
    let b = take_sse_events("data: a\ndata: b\n\n");
    assert_eq!(b.payloads, vec!["a".to_string(), "b".to_string()]);
}

#[test]
fn chunking_does_not_matter() {
    let whole = "data: α\n\ndata: β\n\ndata: [DONE]\n\n";
    let at_once = take_sse_events(whole);
    for cut in 0..whole.len() {
        if !whole.is_char_boundary(cut) {
            continue;
        }
        let mut r = SseReader::new();
        let (mut got, mut done) = r.feed(&whole[..cut]);
        if !done {
            let (more, d) = r.feed(&whole[cut..]);
            got.extend(more);
            done = d;
        }
        assert_eq!(got, at_once.payloads, "cut at {cut}");
        assert_eq!(done, at_once.done);
    }
}

#[test]
fn separator_split_across_chunks() {
    let mut r = SseReader::new();
    let (p, d) = r.feed("data: x\n");
    assert!(p.is_empty() && !d);
    let (p, d) = r.feed("\ndata: y");
    assert_eq!(p, vec!["x".to_string()]);
    assert!(!d);
    let (p, _) = r.feed("\n\n");
    assert_eq!(p, vec!["y".to_string()]);
}
