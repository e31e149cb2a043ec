use feasycom_protocol::framer::Framer;
use feasycom_protocol::framer::RECOMMENDED_CAPACITY;

fn drain(f: &mut Framer) -> Vec<Vec<u8>> {
    let mut out = Vec::new();
    while let Some(msg) = f.try_take_message() {
        out.push(msg);
    }
    out
}

#[test]
fn frames_one_line() {
    let mut f = Framer::new(96);
    let overflowed = f.feed(b"OK\r\n");
    assert!(!overflowed);
    assert_eq!(f.try_take_message(), Some(b"OK".to_vec()));
    assert_eq!(f.try_take_message(), None);
}

#[test]
fn incomplete_line_stays_pending() {
    let mut f = Framer::new(96);
    f.feed(b"+PLAYSTAT=1");
    assert_eq!(f.try_take_message(), None);
    f.feed(b"\r\n");
    assert_eq!(f.try_take_message(), Some(b"+PLAYSTAT=1".to_vec()));
}

#[test]
fn trims_whitespace() {
    let mut f = Framer::new(96);
    f.feed(b"  OK \t \r\n");
    assert_eq!(f.try_take_message(), Some(b"OK".to_vec()));
}

#[test]
fn skips_empty_lines() {
    let mut f = Framer::new(96);
    f.feed(b"\r\n  \r\nOK\r\n\r\n");
    assert_eq!(drain(&mut f), vec![b"OK".to_vec()]);
}

#[test]
fn bare_line_feed_is_no_delimiter() {
    let mut f = Framer::new(96);
    f.feed(b"a\nb\r\n");
    // the lone line feed does not complete a line; trimming strips nothing inside
    assert_eq!(f.try_take_message(), Some(b"a\nb".to_vec()));
}

#[test]
fn carriage_return_kept_inside_content() {
    let mut f = Framer::new(96);
    f.feed(b"a\rb\r\n");
    assert_eq!(f.try_take_message(), Some(b"a\rb".to_vec()));
}

#[test]
fn preserves_message_order() {
    let mut f = Framer::new(96);
    f.feed(b"ONE\r\nTWO\r\nTHREE\r\n");
    assert_eq!(drain(&mut f), vec![b"ONE".to_vec(), b"TWO".to_vec(), b"THREE".to_vec()]);
}

#[test]
fn chunking_does_not_change_messages() {
    let stream: &[u8] = b"  OK\r\n+TRACKSTAT=1,2,3\r\npartial\r\nlast";
    let mut whole = Framer::new(32);
    whole.feed(stream);
    let expected = drain(&mut whole);

    for chunk_len in 1..stream.len() {
        let mut f = Framer::new(32);
        for chunk in stream.chunks(chunk_len) {
            f.feed(chunk);
        }
        assert_eq!(drain(&mut f), expected, "chunk size {}", chunk_len);
    }
}

#[test]
fn overflow_clears_and_reports() {
    let mut f = Framer::new(8);
    let overflowed = f.feed(b"0123456789abcdef");
    assert!(overflowed);
    assert_eq!(f.try_take_message(), None);
}

#[test]
fn overflow_recovers_on_next_line() {
    let mut f = Framer::new(8);
    // more bytes than the buffer holds, no delimiter: the line is dropped
    assert!(f.feed(b"0123456789abcdef"));
    assert_eq!(f.try_take_message(), None);
    // the overlong line's terminator arrives; still nothing is produced
    assert!(!f.feed(b"\r\n"));
    assert_eq!(f.try_take_message(), None);
    // well-formed input afterwards parses as if the framer were fresh
    assert!(!f.feed(b"OK\r\n"));
    assert_eq!(f.try_take_message(), Some(b"OK".to_vec()));
}

#[test]
fn overlong_line_dropped_whole() {
    let mut f = Framer::new(8);
    f.feed(b"0123456789\r\nOK\r\n");
    assert_eq!(drain(&mut f), vec![b"OK".to_vec()]);
}

#[test]
fn capacity_is_reported() {
    let f = Framer::new(96);
    assert_eq!(f.capacity(), 96);
}

#[test]
fn substituting_feed_replaces_marker_bytes() {
    let mut f = Framer::new(96);
    f.feed_substituting(b"a\xffb\r\n");
    assert_eq!(f.try_take_message(), Some(b"a,b".to_vec()));
}

#[test]
fn recommended_capacity_fits_registry_lines() {
    let mut f = Framer::new(RECOMMENDED_CAPACITY);
    let line = b"+TRACKINFO=A Fairly Long Song Title\xffSome Band Name\xffAn Album Name Too\r\n";
    assert!(line.len() <= RECOMMENDED_CAPACITY);
    assert!(!f.feed(line));
    assert!(f.try_take_message().is_some());
}
