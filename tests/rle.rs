use pgs_subtitles::segments::shared::{ColorId, ObjectId};
use pgs_subtitles::segments::{ObjectDefinition, PGSParseError, RLEIterator};

fn expand(bytes: &[u8]) -> Result<Vec<u8>, PGSParseError> {
    let mut it = RLEIterator::from_rle_data(bytes, true);
    it.collect_pixels().map(|v| v.iter().map(|c| c.raw_id).collect())
}

fn object_with(rle_data: Vec<u8>) -> ObjectDefinition {
    ObjectDefinition {
        id: ObjectId { raw_id: 1 },
        version: 0,
        is_first_in_sequence: true,
        is_last_in_sequence: true,
        data_size: 4 + rle_data.len() as u32,
        width: 10,
        height: 10,
        rle_data,
    }
}

#[test]
fn rle_single_literal_pixel() {
    assert_eq!(expand(&[0x05]), Ok(vec![5]));
}

#[test]
fn rle_short_run_of_color_zero() {
    assert_eq!(expand(&[0x00, 0x03]), Ok(vec![0, 0, 0]));
}

#[test]
fn rle_short_run_of_given_color() {
    assert_eq!(expand(&[0x00, 0x81, 0x07]), Ok(vec![7]));
}

#[test]
fn rle_line_end_ends_the_bitmap() {
    assert_eq!(expand(&[0x00, 0x00]), Ok(vec![]));
    assert_eq!(expand(&[0x03, 0x00, 0x00, 0x05]), Ok(vec![3]));
}

#[test]
fn rle_line_end_as_row_boundary() {
    let mut it = RLEIterator::from_rle_data(&[0x03, 0x00, 0x00, 0x05], false);
    let pixels: Vec<u8> = it.collect_pixels().unwrap().iter().map(|c| c.raw_id).collect();
    assert_eq!(pixels, vec![3, 5]);
}

#[test]
fn rle_truncated_escape_is_an_error() {
    assert_eq!(expand(&[0x00, 0x40]), Err(PGSParseError::TruncatedRLEEscape));
    assert_eq!(expand(&[0x00]), Err(PGSParseError::TruncatedRLEEscape));
    assert_eq!(expand(&[0x00, 0xC1, 0x02]), Err(PGSParseError::TruncatedRLEEscape));
    assert_eq!(expand(&[0x00, 0x81]), Err(PGSParseError::TruncatedRLEEscape));
}

#[test]
fn rle_truncated_escape_after_pixels() {
    let data = [0x09, 0x00, 0x40];
    let mut it = RLEIterator::from_rle_data(&data, true);
    assert_eq!(it.next(), Some(Ok(ColorId { raw_id: 9 })));
    assert_eq!(it.next(), Some(Err(PGSParseError::TruncatedRLEEscape)));
    assert_eq!(it.next(), None);
}

#[test]
fn rle_long_run_of_color_zero() {
    let pixels = expand(&[0x00, 0x41, 0x02]).unwrap();
    assert_eq!(pixels.len(), 258);
    assert!(pixels.iter().all(|&p| p == 0));
}

#[test]
fn rle_long_run_of_given_color() {
    let pixels = expand(&[0x00, 0xFF, 0xFF, 0x0C]).unwrap();
    assert_eq!(pixels.len(), 16383);
    assert!(pixels.iter().all(|&p| p == 12));
}

#[test]
fn rle_zero_length_run_yields_nothing() {
    assert_eq!(expand(&[0x00, 0x80, 0x04, 0x06]), Ok(vec![6]));
    assert_eq!(expand(&[0x00, 0x40, 0x00, 0x06]), Ok(vec![6]));
}

#[test]
fn rle_empty_input() {
    assert_eq!(expand(&[]), Ok(vec![]));
}

#[test]
fn object_pixel_count_is_sum_of_run_lengths() {
    // runs: 1 literal, 3 zeros, 2 of color 4, 300 zeros, 257 of color 8, 1 literal
    let rle = vec![0x07, 0x00, 0x03, 0x00, 0x82, 0x04, 0x00, 0x41, 0x2C, 0x00, 0xC1, 0x01, 0x08, 0x02];
    let object = object_with(rle);
    let mut it = object.decoded_iter();
    let mut count = 0usize;
    while let Some(p) = it.next() {
        p.unwrap();
        count += 1;
    }
    assert_eq!(count, 1 + 3 + 2 + 300 + 257 + 1);
}

#[test]
fn object_decoded_iter_with_row_boundaries() {
    let object = object_with(vec![0x01, 0x02, 0x00, 0x00, 0x03, 0x04, 0x00, 0x00]);
    let first: Vec<u8> = object.decoded_iter().collect_pixels().unwrap().iter().map(|c| c.raw_id).collect();
    assert_eq!(first, vec![1, 2]);
    let all: Vec<u8> =
        object.decoded_iter_with(false).collect_pixels().unwrap().iter().map(|c| c.raw_id).collect();
    assert_eq!(all, vec![1, 2, 3, 4]);
}
