use pgs_subtitles::segments::{
    decode_header, parse_segments, parse_segments_with_limit, CompositionType, PGSParseError, SegmentPayload,
    Timestamp,
};

fn segment(tag: u8, pts: u32, dts: u32, payload: &[u8]) -> Vec<u8> {
    let mut v = vec![b'P', b'G'];
    v.extend_from_slice(&pts.to_be_bytes());
    v.extend_from_slice(&dts.to_be_bytes());
    v.push(tag);
    v.extend_from_slice(&(payload.len() as u16).to_be_bytes());
    v.extend_from_slice(payload);
    v
}

fn composition_payload(count: u8, objects: &[u8]) -> Vec<u8> {
    let mut p = vec![0x07, 0x80, 0x04, 0x38, 0x10, 0x00, 0x05, 0x80, 0x80, 0x02, count];
    p.extend_from_slice(objects);
    p
}

fn sample_stream() -> Vec<u8> {
    let mut s = Vec::new();
    // one object, not cropped, forced
    let object = [0x00, 0x01, 0x00, 0x40, 0x00, 0x10, 0x00, 0x20];
    s.extend(segment(0x16, 900, 800, &composition_payload(1, &object)));
    s.extend(segment(0x17, 900, 800, &[0x01, 0x01, 0x00, 0x0A, 0x00, 0x14, 0x01, 0x00, 0x00, 0x40]));
    s.extend(segment(0x14, 900, 800, &[0x03, 0x01, 0x00, 0x10, 0x80, 0x80, 0xFF, 0x01, 0xEB, 0x80, 0x80, 0xFF]));
    s.extend(segment(
        0x15,
        900,
        700,
        &[0x00, 0x01, 0x00, 0xC0, 0x00, 0x00, 0x07, 0x00, 0x02, 0x00, 0x01, 0x01, 0x00, 0x81, 0x02],
    ));
    s.extend(segment(0x80, 1800, 0, &[]));
    s
}

#[test]
fn decode_whole_stream() {
    let segments = parse_segments(&sample_stream()).unwrap();
    assert_eq!(segments.len(), 5);
    assert!(matches!(segments[0].payload, SegmentPayload::PCS(_)));
    assert!(matches!(segments[1].payload, SegmentPayload::WDS(_)));
    assert!(matches!(segments[2].payload, SegmentPayload::PDS(_)));
    assert!(matches!(segments[3].payload, SegmentPayload::ODS(_)));
    assert!(matches!(segments[4].payload, SegmentPayload::END(_)));
    assert_eq!(segments[0].presentation_timestamp, Timestamp::new(900));
    assert_eq!(segments[3].decoding_timestamp.raw_value(), 700);
    assert_eq!(segments[4].presentation_timestamp.raw_value(), 1800);
}

#[test]
fn decode_fields_of_each_payload() {
    let segments = parse_segments(&sample_stream()).unwrap();
    match &segments[0].payload {
        SegmentPayload::PCS(c) => {
            assert_eq!((c.width, c.height, c.framerate, c.composition_id), (1920, 1080, 0x10, 5));
            assert_eq!(c.composition_type, CompositionType::EpochStart);
            assert!(c.is_palette_update_only);
            assert_eq!(c.palette_id.raw_id, 2);
            assert_eq!(c.objects.len(), 1);
            assert_eq!(c.objects[0].object_id.raw_id, 1);
            assert!(c.objects[0].is_forced);
            assert_eq!((c.objects[0].position.x, c.objects[0].position.y), (16, 32));
            assert_eq!(c.objects[0].crop_window, None);
        }
        _ => panic!("expected a presentation composition"),
    }
    match &segments[1].payload {
        SegmentPayload::WDS(w) => {
            assert_eq!(w.windows.len(), 1);
            assert_eq!(w.windows[0].window_id.raw_id, 1);
            assert_eq!(w.windows[0].bounds.origin_x, 10);
            assert_eq!(w.windows[0].bounds.origin_y, 20);
            assert_eq!(w.windows[0].bounds.width, 256);
            assert_eq!(w.windows[0].bounds.height, 64);
        }
        _ => panic!("expected a window definition"),
    }
    match &segments[2].payload {
        SegmentPayload::PDS(p) => {
            assert_eq!(p.id.raw_id, 3);
            assert_eq!(p.palette_version, 1);
            assert_eq!(p.palette_entries.len(), 2);
            assert_eq!(p.palette_entries[1].id.raw_id, 1);
            assert_eq!(p.palette_entries[1].luma, 0xEB);
            assert_eq!(p.palette_entries[1].alpha, 0xFF);
        }
        _ => panic!("expected a palette definition"),
    }
    match &segments[3].payload {
        SegmentPayload::ODS(o) => {
            assert_eq!(o.id.raw_id, 1);
            assert!(o.is_first_in_sequence);
            assert!(o.is_last_in_sequence);
            assert_eq!(o.data_size, 7);
            assert_eq!((o.width, o.height), (2, 1));
            assert_eq!(o.rle_data, vec![0x01, 0x00, 0x81]);
        }
        _ => panic!("expected an object definition"),
    }
}

#[test]
fn decode_is_idempotent() {
    let bytes = sample_stream();
    let first = parse_segments(&bytes).unwrap();
    let second = parse_segments(&bytes).unwrap();
    assert_eq!(format!("{:?}", first), format!("{:?}", second));
}

#[test]
fn decode_empty_input() {
    assert_eq!(parse_segments(&[]).unwrap().len(), 0);
}

#[test]
fn bad_magic_is_malformed_header() {
    let mut bytes = sample_stream();
    bytes[0] = b'X';
    assert_eq!(decode_header(&bytes), Err(PGSParseError::MalformedHeader));
    assert_eq!(parse_segments(&bytes).unwrap_err(), PGSParseError::MalformedHeader);
    assert_eq!(parse_segments(b"GP").unwrap_err(), PGSParseError::MalformedHeader);
    assert_eq!(parse_segments(b"Q").unwrap_err(), PGSParseError::MalformedHeader);
}

#[test]
fn short_header_is_malformed() {
    assert_eq!(decode_header(b"PG\x00\x00"), Err(PGSParseError::MalformedHeader));
    assert_eq!(parse_segments(b"PG\x00\x00").unwrap_err(), PGSParseError::MalformedHeader);
}

#[test]
fn header_fields() {
    let bytes = segment(0x80, 0x01020304, 0x0A0B0C0D, &[]);
    let h = decode_header(&bytes).unwrap();
    assert_eq!(h.presentation_timestamp.raw_value(), 0x01020304);
    assert_eq!(h.decoding_timestamp.raw_value(), 0x0A0B0C0D);
    assert_eq!(h.segment_type, 0x80);
    assert_eq!(h.segment_size, 0);
}

#[test]
fn unknown_segment_type() {
    let bytes = segment(0x99, 0, 0, &[]);
    assert_eq!(parse_segments(&bytes).unwrap_err(), PGSParseError::UnknownSegmentType(0x99));
}

#[test]
fn declared_size_past_end_is_truncated_payload() {
    let mut bytes = segment(0x17, 0, 0, &[0x00, 0x00]);
    bytes.truncate(bytes.len() - 1);
    assert_eq!(parse_segments(&bytes).unwrap_err(), PGSParseError::TruncatedPayload);
}

#[test]
fn sub_list_past_payload_is_truncated_payload() {
    // two windows declared, one present
    let bytes = segment(0x17, 0, 0, &[0x02, 0x00, 0x00, 0x0A, 0x00, 0x14, 0x01, 0x00, 0x00, 0x40]);
    assert_eq!(parse_segments(&bytes).unwrap_err(), PGSParseError::TruncatedPayload);
}

#[test]
fn object_data_size_below_four_is_truncated_payload() {
    let bytes = segment(0x15, 0, 0, &[0x00, 0x01, 0x00, 0xC0, 0x00, 0x00, 0x03, 0x00, 0x02, 0x00, 0x01]);
    assert_eq!(parse_segments(&bytes).unwrap_err(), PGSParseError::TruncatedPayload);
}

#[test]
fn trailing_bytes_are_an_incomplete_read() {
    let mut bytes = segment(0x80, 0, 0, &[]);
    bytes.extend_from_slice(&[b'P', b'G', 0, 0, 0]);
    assert_eq!(parse_segments(&bytes).unwrap_err(), PGSParseError::IncompleteTrailingBytes(5));
}

#[test]
fn palette_ignores_partial_entry() {
    let bytes = segment(0x14, 0, 0, &[0x00, 0x00, 1, 2, 3, 4, 5, 9, 9]);
    let segments = parse_segments(&bytes).unwrap();
    match &segments[0].payload {
        SegmentPayload::PDS(p) => {
            assert_eq!(p.palette_entries.len(), 1);
            assert_eq!(p.palette_entries[0].chroma_red, 3);
            assert_eq!(p.palette_entries[0].chroma_blue, 4);
        }
        _ => panic!("expected a palette definition"),
    }
}

#[test]
fn palette_payload_shorter_than_two_bytes() {
    let bytes = segment(0x14, 0, 0, &[0x00]);
    assert_eq!(parse_segments(&bytes).unwrap_err(), PGSParseError::TruncatedPayload);
}

#[test]
fn composition_object_count_is_clamped() {
    let plain = [0x00, 0x01, 0x00, 0x00, 0x00, 0x00, 0x00, 0x00];
    let cropped = [0x00, 0x02, 0x01, 0x80, 0x00, 0x05, 0x00, 0x06, 0x00, 0x01, 0x00, 0x02, 0x00, 0x03, 0x00, 0x04];
    let mut objects = Vec::new();
    objects.extend_from_slice(&plain);
    objects.extend_from_slice(&cropped);
    objects.extend_from_slice(&plain);
    let bytes = segment(0x16, 0, 0, &composition_payload(3, &objects));
    let clamped = parse_segments(&bytes).unwrap();
    match &clamped[0].payload {
        SegmentPayload::PCS(c) => {
            assert_eq!(c.objects.len(), 2);
            assert!(!c.objects[1].is_forced);
            let r = c.objects[1].crop_window.unwrap();
            assert_eq!((r.origin_x, r.origin_y, r.width, r.height), (1, 2, 3, 4));
        }
        _ => panic!("expected a presentation composition"),
    }
    let all = parse_segments_with_limit(&bytes, 3).unwrap();
    match &all[0].payload {
        SegmentPayload::PCS(c) => assert_eq!(c.objects.len(), 3),
        _ => panic!("expected a presentation composition"),
    }
}

#[test]
fn composition_types_from_top_bits() {
    let expected = [
        (0x00, CompositionType::Normal),
        (0x7F, CompositionType::AcquisitionPoint),
        (0x80, CompositionType::EpochStart),
        (0xC1, CompositionType::EpochContinuation),
    ];
    for (byte, kind) in expected {
        let mut p = composition_payload(0, &[]);
        p[7] = byte;
        let segments = parse_segments(&segment(0x16, 0, 0, &p)).unwrap();
        match &segments[0].payload {
            SegmentPayload::PCS(c) => assert_eq!(c.composition_type, kind),
            _ => panic!("expected a presentation composition"),
        }
    }
}

#[test]
fn timestamp_clock_parts() {
    let ticks = 90 * (3_600_000 + 2 * 60_000 + 3 * 1000 + 4);
    assert_eq!(Timestamp::new(ticks).clock_parts(), (1, 2, 3, 4));
    assert_eq!(Timestamp::new(89).clock_parts(), (0, 0, 0, 0));
}
