use capmux::demux::{demultiplex, read_tag};
use capmux::error::Error;
use capmux::record::{PacketRecord, MAX_FRAME_LEN};

fn envelope(tag: &[u8], frame: &[u8], extra_on_wire: u32) -> PacketRecord {
    let mut payload = vec![tag.len() as u8];
    payload.extend_from_slice(tag);
    payload.extend_from_slice(frame);
    let original = payload.len() as u32 + extra_on_wire;
    PacketRecord::new(7, 8, original, payload).unwrap()
}

#[test]
fn new_keeps_every_field() {
    let record = PacketRecord::new(11, 22, 9, vec![1, 2, 3]).unwrap();
    assert_eq!(record.capture_seconds(), 11);
    assert_eq!(record.capture_nanoseconds(), 22);
    assert_eq!(record.captured_length(), 3);
    assert_eq!(record.original_length(), 9);
    assert_eq!(record.payload(), &[1u8, 2, 3][..]);
}

#[test]
fn new_accepts_payload_as_long_as_the_wire_length() {
    let record = PacketRecord::new(0, 0, 3, vec![1, 2, 3]).unwrap();
    assert_eq!(record.captured_length(), 3);
    assert_eq!(record.original_length(), 3);
}

#[test]
fn new_refuses_more_stored_than_seen() {
    let refused = PacketRecord::new(0, 0, 2, vec![1, 2, 3]);
    assert!(matches!(refused, Err(Error::Malformed)));
}

#[test]
fn new_accepts_an_empty_payload() {
    let record = PacketRecord::new(1, 2, 0, Vec::new()).unwrap();
    assert_eq!(record.captured_length(), 0);
    assert_eq!(record.payload().len(), 0);
}

#[test]
fn from_frame_sets_both_lengths_to_the_bytes_read() {
    let frame = [9u8, 8, 7, 6, 5];
    let record = PacketRecord::from_frame(1_700_000_000, 123_456_789, &frame);
    assert_eq!(record.capture_seconds(), 1_700_000_000);
    assert_eq!(record.capture_nanoseconds(), 123_456_789);
    assert_eq!(record.captured_length(), 5);
    assert_eq!(record.original_length(), 5);
    assert_eq!(record.payload(), &frame[..]);
}

#[test]
fn from_frame_wraps_seconds_beyond_32_bits() {
    let record = PacketRecord::from_frame(0x1_0000_0005, 0, &[1]);
    assert_eq!(record.capture_seconds(), 5);
}

#[test]
fn from_frame_takes_the_largest_frame() {
    let frame = vec![0xabu8; MAX_FRAME_LEN];
    let record = PacketRecord::from_frame(1, 2, &frame);
    assert_eq!(record.captured_length(), 65536);
    assert_eq!(record.original_length(), 65536);
    assert_eq!(record.payload().len(), 65536);
}

#[test]
fn truncate_cuts_to_the_limit_and_keeps_the_wire_length() {
    let mut record = PacketRecord::new(1, 2, 10, vec![0, 1, 2, 3, 4, 5, 6, 7]).unwrap();
    record.truncate(3);
    assert_eq!(record.captured_length(), 3);
    assert_eq!(record.original_length(), 10);
    assert_eq!(record.payload(), &[0u8, 1, 2][..]);
    assert_eq!(record.capture_seconds(), 1);
    assert_eq!(record.capture_nanoseconds(), 2);
}

#[test]
fn truncate_leaves_a_short_record_alone() {
    let mut record = PacketRecord::new(1, 2, 4, vec![5, 6, 7, 8]).unwrap();
    record.truncate(4);
    assert_eq!(record.captured_length(), 4);
    assert_eq!(record.payload(), &[5u8, 6, 7, 8][..]);
    record.truncate(1000);
    assert_eq!(record.captured_length(), 4);
    assert_eq!(record.original_length(), 4);
    assert_eq!(record.payload(), &[5u8, 6, 7, 8][..]);
}

#[test]
fn truncate_to_nothing() {
    let mut record = PacketRecord::new(1, 2, 4, vec![5, 6, 7, 8]).unwrap();
    record.truncate(0);
    assert_eq!(record.captured_length(), 0);
    assert_eq!(record.original_length(), 4);
    assert_eq!(record.payload().len(), 0);
}

#[test]
fn truncated_payload_length_equals_captured_length() {
    for limit in 0..12usize {
        let mut record = PacketRecord::new(1, 2, 20, vec![1, 2, 3, 4, 5, 6, 7, 8]).unwrap();
        record.truncate(limit);
        assert_eq!(record.payload().len(), record.captured_length() as usize);
        assert!(record.captured_length() <= 8);
        assert!(record.captured_length() as usize <= limit);
        assert_eq!(record.original_length(), 20);
    }
}

#[test]
fn demultiplex_splits_tag_and_frame() {
    let payload = vec![3u8, b'a', b'b', b'c', 10, 11, 12, 13, 14, 15];
    let original = payload.clone();
    let envelope = PacketRecord::new(100, 200, 10, payload).unwrap();
    assert_eq!(envelope.captured_length(), 10);
    let (tag, record) = demultiplex(envelope).unwrap();
    assert_eq!(tag, "abc");
    assert_eq!(record.captured_length(), 6);
    assert_eq!(record.original_length(), 6);
    assert_eq!(record.payload(), &original[4..10]);
    assert_eq!(record.capture_seconds(), 100);
    assert_eq!(record.capture_nanoseconds(), 200);
}

#[test]
fn demultiplex_shortens_the_wire_length_by_the_tag_overhead() {
    let (tag, record) = demultiplex(envelope(b"eth0", &[1, 2, 3], 40)).unwrap();
    assert_eq!(tag, "eth0");
    assert_eq!(record.captured_length(), 3);
    assert_eq!(record.original_length(), 43);
    assert_eq!(record.payload(), &[1u8, 2, 3][..]);
}

#[test]
fn demultiplex_accepts_an_empty_tag() {
    let (tag, record) = demultiplex(envelope(b"", &[1, 2], 0)).unwrap();
    assert_eq!(tag, "");
    assert_eq!(record.captured_length(), 2);
    assert_eq!(record.payload(), &[1u8, 2][..]);
}

#[test]
fn demultiplex_accepts_a_tag_with_no_frame_behind_it() {
    let (tag, record) = demultiplex(envelope(b"lo", &[], 0)).unwrap();
    assert_eq!(tag, "lo");
    assert_eq!(record.captured_length(), 0);
    assert_eq!(record.original_length(), 0);
    assert_eq!(record.payload().len(), 0);
}

#[test]
fn demultiplex_replaces_invalid_utf8_in_the_tag() {
    let (tag, record) = demultiplex(envelope(&[b'a', 0xff, b'b'], &[9], 0)).unwrap();
    assert_eq!(tag, "a\u{fffd}b");
    assert_eq!(record.payload(), &[9u8][..]);
}

#[test]
fn demultiplex_reads_a_multibyte_tag() {
    let (tag, _) = demultiplex(envelope("é1".as_bytes(), &[9], 0)).unwrap();
    assert_eq!(tag, "é1");
}

#[test]
fn demultiplex_refuses_an_envelope_shorter_than_its_tag() {
    let short = PacketRecord::new(1, 2, 3, vec![5, b'a', b'b']).unwrap();
    assert!(matches!(demultiplex(short), Err(Error::Malformed)));
}

#[test]
fn demultiplex_refuses_an_empty_envelope() {
    let empty = PacketRecord::new(1, 2, 0, Vec::new()).unwrap();
    assert!(matches!(demultiplex(empty), Err(Error::Malformed)));
}

#[test]
fn a_refused_envelope_leaves_later_ones_untouched() {
    let short = PacketRecord::new(1, 2, 2, vec![9, b'x']).unwrap();
    assert!(demultiplex(short).is_err());
    let (tag, record) = demultiplex(envelope(b"ok", &[4, 5], 0)).unwrap();
    assert_eq!(tag, "ok");
    assert_eq!(record.payload(), &[4u8, 5][..]);
}

#[test]
fn tag_end_is_one_past_the_tag() {
    let record = envelope(b"abc", &[1, 2, 3], 0);
    assert_eq!(record.tag_end(), Some(4));
    let short = PacketRecord::new(1, 2, 1, vec![1]).unwrap();
    assert_eq!(short.tag_end(), None);
    let full = PacketRecord::new(1, 2, 256, {
        let mut v = vec![255u8];
        v.extend_from_slice(&[b'z'; 255]);
        v
    })
    .unwrap();
    assert_eq!(full.tag_end(), Some(256));
}

#[test]
fn strip_tag_keeps_the_frame() {
    let record = envelope(b"abc", &[1, 2, 3], 5).strip_tag().unwrap();
    assert_eq!(record.payload(), &[1u8, 2, 3][..]);
    assert_eq!(record.captured_length(), 3);
    assert_eq!(record.original_length(), 8);
}

#[test]
fn read_tag_gives_the_tag_alone() {
    let record = envelope(b"wlan0", &[1, 2, 3], 0);
    assert_eq!(read_tag(&record).unwrap(), "wlan0");
    let short = PacketRecord::new(1, 2, 2, vec![2, b'a']).unwrap();
    assert!(matches!(read_tag(&short), Err(Error::Malformed)));
}
