use pgs_subtitles::segments::parser::segment;
use pgs_subtitles::segments::types::{PCSCompositionType, PGSHeader, PGSSegment, PGSSegmentType, PGSTimestamp};
use pgs_subtitles::segments::PGSParseError;
use pgs_subtitles::types::util::{ObjectId, PaletteId, Rect, WindowId};
use std::time::Duration;

fn framed(tag: u8, pts: u32, dts: u32, payload: &[u8]) -> Vec<u8> {
    let mut v = vec![b'P', b'G'];
    v.extend_from_slice(&pts.to_be_bytes());
    v.extend_from_slice(&dts.to_be_bytes());
    v.push(tag);
    v.extend_from_slice(&(payload.len() as u16).to_be_bytes());
    v.extend_from_slice(payload);
    v
}

#[test]
fn timestamp_from_ticks() {
    assert_eq!(PGSTimestamp::from_raw_timestamp(90).duration(), Duration::from_millis(1));
    assert_eq!(PGSTimestamp::from_raw_timestamp(1).duration(), Duration::from_nanos(11_111));
    assert_eq!(PGSTimestamp::from_raw_timestamp(u32::MAX).duration(), Duration::from_nanos(47_721_858_833_333));
    assert!(PGSTimestamp::from_raw_timestamp(5) < PGSTimestamp::from_raw_timestamp(6));
}

#[test]
fn header_getters() {
    let h = PGSHeader::new(
        PGSTimestamp::from_raw_timestamp(180),
        PGSTimestamp::from_raw_timestamp(90),
        PGSSegmentType::WDS,
        42,
    );
    assert_eq!(h.presentation_timestamp().duration(), Duration::from_millis(2));
    assert_eq!(h.decoding_timestamp().duration(), Duration::from_millis(1));
    assert!(matches!(h.segment_type(), PGSSegmentType::WDS));
    assert_eq!(h.segment_size(), 42);
}

#[test]
fn rect_keeps_width_and_height() {
    let r = Rect::new(65000, 10, 1000, 20);
    assert_eq!(r.width(), 1000);
    assert_eq!(r.height(), 20);
}

#[test]
fn ids_keep_their_values() {
    assert_eq!(ObjectId::new(513).raw_value(), 513);
    assert_eq!(WindowId::new(7).raw_value(), 7);
    assert_eq!(PaletteId::new(9).raw_value(), 9);
}

#[test]
fn single_segment_presentation_composition() {
    let payload = [
        0x07, 0x80, 0x04, 0x38, 0x10, 0x00, 0x05, 0x40, 0x00, 0x02, 0x01, 0x00, 0x03, 0x01, 0x80, 0x00, 0x05, 0x00,
        0x06, 0x00, 0x01, 0x00, 0x02, 0x00, 0x03, 0x00, 0x04,
    ];
    let mut bytes = framed(0x16, 180, 90, &payload);
    bytes.extend_from_slice(&[0xAA, 0xBB]);
    let (rest, seg) = segment(&bytes).unwrap();
    assert_eq!(rest, &[0xAA, 0xBB]);
    match seg {
        PGSSegment::PCS(c) => {
            assert_eq!(c.presentation_timestamp().duration(), Duration::from_millis(2));
            assert_eq!(c.decoding_timestamp().duration(), Duration::from_millis(1));
            assert_eq!((c.width(), c.height(), c.framerate()), (1920, 1080, 0x10));
            assert_eq!(c.composition_number(), 5);
            assert!(matches!(c.composition_type(), PCSCompositionType::AcquisitionPoint));
            assert!(!c.is_palette_update_only());
            assert_eq!(c.palette_id(), PaletteId::new(2));
            let objs = c.composition_objs();
            assert_eq!(objs.len(), 1);
            assert_eq!(objs[0].object_id(), ObjectId::new(3));
            assert_eq!(objs[0].window_id(), WindowId::new(1));
            assert_eq!((objs[0].object_position().x, objs[0].object_position().y), (5, 6));
            let crop = objs[0].crop_window().unwrap();
            assert_eq!(crop, Rect::new(1, 2, 3, 4));
        }
        _ => panic!("expected a presentation composition"),
    }
}

#[test]
fn single_segment_other_kinds() {
    let bytes = framed(0x80, 0, 0, &[]);
    let (rest, seg) = segment(&bytes).unwrap();
    assert!(rest.is_empty());
    assert!(matches!(seg, PGSSegment::END));
    let bytes = framed(0x17, 0, 0, &[0x00]);
    assert!(matches!(segment(&bytes).unwrap().1, PGSSegment::WDS));
    assert_eq!(segment(&framed(0x42, 0, 0, &[])).unwrap_err(), PGSParseError::UnknownSegmentType(0x42));
    assert_eq!(segment(b"XX").unwrap_err(), PGSParseError::MalformedHeader);
}
