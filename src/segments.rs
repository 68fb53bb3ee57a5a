use vstd::prelude::*;

pub mod end_of_display_set;
pub mod fields;
pub mod object_definition;
pub mod palette_definition;
pub mod parser;
pub mod presentation_composition;
pub mod shared;
pub mod types;
pub mod window_definition;

pub use end_of_display_set::EndOfDisplaySet;
pub use object_definition::{ObjectDefinition, ObjectDefinitionView, RLEIterator};
pub use palette_definition::{PaletteDefinition, PaletteDefinitionView, PaletteEntry};
pub use presentation_composition::{
    CompositionObject, CompositionType, PresentationComposition, PresentationCompositionView,
    MAX_COMPOSITION_OBJECTS,
};
pub use window_definition::{Window, WindowDefinition, WindowDefinitionView};

use fields::{be16, be32, read_u16, read_u32};
use object_definition::object_from;
use palette_definition::palette_from;
use presentation_composition::composition_from;
use vstd::slice::slice_subrange;
use window_definition::windows_from;

verus! {

/// The ways in which decoding a stream or a bitmap can fail.
#[derive(Debug, Clone, Copy, PartialEq, Eq, Structural)]
pub enum PGSParseError {
    /// The segment does not start with `"PG"`, or the header is cut short.
    MalformedHeader,
    /// The header carries a segment type tag outside the five known ones.
    UnknownSegmentType(u8),
    /// The declared payload runs past the end of the input, or a field or
    /// sub-list runs past the end of the declared payload.
    TruncatedPayload,
    /// A run-length escape sequence of a bitmap is cut short.
    TruncatedRLEEscape,
    /// After the last complete segment fewer bytes are left than a header needs.
    IncompleteTrailingBytes(usize),
}

/// A tick count of the 90 kHz presentation clock.
#[derive(Debug, Clone, Copy, PartialEq, Eq, PartialOrd, Ord, Structural)]
pub struct Timestamp {
    pub raw_value: u32,
}

impl Timestamp {
    pub open spec fn ticks(&self) -> u32 {
        self.raw_value
    }

    pub fn new(raw_value: u32) -> (r: Self)
        ensures
            r.ticks() == raw_value,
    {
        Self { raw_value }
    }

    pub fn raw_value(&self) -> (r: u32)
        ensures
            r == self.ticks(),
    {
        self.raw_value
    }

    /// The time as hours, minutes, seconds and milliseconds, one millisecond
    /// being 90 ticks.
    pub fn clock_parts(&self) -> (r: (u32, u32, u32, u32))
        ensures
            r.3 == (self.ticks() / 90) % 1000,
            r.2 == (self.ticks() / 90 / 1000) % 60,
            r.1 == (self.ticks() / 90 / 1000 / 60) % 60,
            r.0 == self.ticks() / 90 / 1000 / 60 / 60,
    {
        let all_millis = self.raw_value / 90;
        let (all_seconds, millis) = (all_millis / 1000, all_millis % 1000);
        let (all_minutes, seconds) = (all_seconds / 60, all_seconds % 60);
        let (hours, minutes) = (all_minutes / 60, all_minutes % 60);
        (hours, minutes, seconds, millis)
    }
}

/// The type tag of a Palette Definition segment.
pub const PALETTE_DEFINITION_TAG: u8 = 0x14;

/// The type tag of an Object Definition segment.
pub const OBJECT_DEFINITION_TAG: u8 = 0x15;

/// The type tag of a Presentation Composition segment.
pub const PRESENTATION_COMPOSITION_TAG: u8 = 0x16;

/// The type tag of a Window Definition segment.
pub const WINDOW_DEFINITION_TAG: u8 = 0x17;

/// The type tag of an End of Display Set segment.
pub const END_OF_DISPLAY_SET_TAG: u8 = 0x80;

/// The size in bytes of a segment header.
pub const HEADER_SIZE: usize = 13;

/// The fields of the header that starts each segment.
#[derive(Debug, Clone, Copy, PartialEq, Eq, Structural)]
pub struct SegmentHeader {
    pub presentation_timestamp: Timestamp,
    pub decoding_timestamp: Timestamp,
    pub segment_type: u8,
    pub segment_size: u16,
}

/// The decoded content of a segment, by its type.
#[derive(Debug, Clone)]
pub enum SegmentPayload {
    PDS(PaletteDefinition),
    ODS(ObjectDefinition),
    PCS(PresentationComposition),
    WDS(WindowDefinition),
    END(EndOfDisplaySet),
}

/// One decoded segment.
#[derive(Debug, Clone)]
pub struct Segment {
    pub presentation_timestamp: Timestamp,
    pub decoding_timestamp: Timestamp,
    pub payload: SegmentPayload,
}

/// What a `SegmentPayload` holds.
pub ghost enum SegmentPayloadView {
    PDS(PaletteDefinitionView),
    ODS(ObjectDefinitionView),
    PCS(PresentationCompositionView),
    WDS(WindowDefinitionView),
    END(EndOfDisplaySet),
}

/// What a `Segment` holds.
pub ghost struct SegmentView {
    pub presentation_timestamp: Timestamp,
    pub decoding_timestamp: Timestamp,
    pub payload: SegmentPayloadView,
}

impl View for SegmentPayload {
    type V = SegmentPayloadView;

    open spec fn view(&self) -> SegmentPayloadView {
        match self {
            SegmentPayload::PDS(d) => SegmentPayloadView::PDS(d@),
            SegmentPayload::ODS(d) => SegmentPayloadView::ODS(d@),
            SegmentPayload::PCS(d) => SegmentPayloadView::PCS(d@),
            SegmentPayload::WDS(d) => SegmentPayloadView::WDS(d@),
            SegmentPayload::END(d) => SegmentPayloadView::END(*d),
        }
    }
}

impl View for Segment {
    type V = SegmentView;

    open spec fn view(&self) -> SegmentView {
        SegmentView {
            presentation_timestamp: self.presentation_timestamp,
            decoding_timestamp: self.decoding_timestamp,
            payload: self.payload@,
        }
    }
}

/// The segments of a decoded stream, as values.
pub open spec fn segments_view(v: Seq<Segment>) -> Seq<SegmentView> {
    v.map_values(|seg: Segment| seg@)
}

/// The outcome of decoding a stream, as values.
pub open spec fn decode_view(r: Result<Vec<Segment>, PGSParseError>) -> Result<Seq<SegmentView>, PGSParseError> {
    match r {
        Ok(v) => Ok(segments_view(v@)),
        Err(e) => Err(e),
    }
}

/// Whether `s` starts with the magic bytes `"PG"`.
pub open spec fn has_magic(s: Seq<u8>) -> bool {
    s.len() >= 2 && s[0] == 0x50 && s[1] == 0x47
}

/// The header fields that the thirteen bytes of `s` from its start hold.
pub open spec fn header_at(s: Seq<u8>) -> SegmentHeader {
    SegmentHeader {
        presentation_timestamp: Timestamp { raw_value: be32(s, 2) },
        decoding_timestamp: Timestamp { raw_value: be32(s, 6) },
        segment_type: s[10],
        segment_size: be16(s, 11),
    }
}

/// The header at the start of `s`.
pub open spec fn header_from(s: Seq<u8>) -> Result<SegmentHeader, PGSParseError> {
    if !has_magic(s) || s.len() < 13 {
        Err(PGSParseError::MalformedHeader)
    } else {
        Ok(header_at(s))
    }
}

/// Whether `tag` is one of the five known segment types.
pub open spec fn is_known_tag(tag: u8) -> bool {
    tag == PALETTE_DEFINITION_TAG || tag == OBJECT_DEFINITION_TAG || tag == PRESENTATION_COMPOSITION_TAG
        || tag == WINDOW_DEFINITION_TAG || tag == END_OF_DISPLAY_SET_TAG
}

/// The type tag of a payload.
pub open spec fn tag_of(p: SegmentPayloadView) -> u8 {
    match p {
        SegmentPayloadView::PDS(_) => PALETTE_DEFINITION_TAG,
        SegmentPayloadView::ODS(_) => OBJECT_DEFINITION_TAG,
        SegmentPayloadView::PCS(_) => PRESENTATION_COMPOSITION_TAG,
        SegmentPayloadView::WDS(_) => WINDOW_DEFINITION_TAG,
        SegmentPayloadView::END(_) => END_OF_DISPLAY_SET_TAG,
    }
}

/// The payload of type `tag` that the bytes `p` hold, `p` being exactly the
/// declared payload.
pub open spec fn payload_from(tag: u8, p: Seq<u8>, max_objects: u8) -> Result<SegmentPayloadView, PGSParseError> {
    if tag == PALETTE_DEFINITION_TAG {
        match palette_from(p) {
            Some(d) => Ok(SegmentPayloadView::PDS(d)),
            None => Err(PGSParseError::TruncatedPayload),
        }
    } else if tag == OBJECT_DEFINITION_TAG {
        match object_from(p) {
            Some(d) => Ok(SegmentPayloadView::ODS(d)),
            None => Err(PGSParseError::TruncatedPayload),
        }
    } else if tag == PRESENTATION_COMPOSITION_TAG {
        match composition_from(p, max_objects) {
            Some(d) => Ok(SegmentPayloadView::PCS(d)),
            None => Err(PGSParseError::TruncatedPayload),
        }
    } else if tag == WINDOW_DEFINITION_TAG {
        match windows_from(p) {
            Some(d) => Ok(SegmentPayloadView::WDS(d)),
            None => Err(PGSParseError::TruncatedPayload),
        }
    } else if tag == END_OF_DISPLAY_SET_TAG {
        Ok(SegmentPayloadView::END(EndOfDisplaySet))
    } else {
        Err(PGSParseError::UnknownSegmentType(tag))
    }
}

/// The number of bytes that the segment at the start of `s` takes up, as its
/// header declares.
pub open spec fn segment_len(s: Seq<u8>) -> int {
    13 + be16(s, 11)
}

/// The segment at the start of `s`.
pub open spec fn segment_from(s: Seq<u8>, max_objects: u8) -> Result<SegmentView, PGSParseError> {
    match header_from(s) {
        Err(e) => Err(e),
        Ok(h) => if !is_known_tag(h.segment_type) {
            Err(PGSParseError::UnknownSegmentType(h.segment_type))
        } else if s.len() < segment_len(s) {
            Err(PGSParseError::TruncatedPayload)
        } else {
            match payload_from(h.segment_type, s.subrange(13, segment_len(s)), max_objects) {
                Err(e) => Err(e),
                Ok(payload) => Ok(
                    SegmentView {
                        presentation_timestamp: h.presentation_timestamp,
                        decoding_timestamp: h.decoding_timestamp,
                        payload,
                    },
                ),
            }
        },
    }
}

/// `rest` with `front` put before it, where it is no error.
pub open spec fn prepend_segments(front: Seq<SegmentView>, rest: Result<Seq<SegmentView>, PGSParseError>) -> Result<
    Seq<SegmentView>,
    PGSParseError,
> {
    match rest {
        Ok(r) => Ok(front + r),
        Err(e) => Err(e),
    }
}

/// The segments that `s` holds back to back, to its last byte. `at_start`
/// tells whether `s` is the whole input, before any segment.
pub open spec fn segments_from(s: Seq<u8>, at_start: bool, max_objects: u8) -> Result<
    Seq<SegmentView>,
    PGSParseError,
>
    decreases s.len(),
{
    if s.len() == 0 {
        Ok(seq![])
    } else if !at_start && s.len() < 13 {
        Err(PGSParseError::IncompleteTrailingBytes(s.len() as usize))
    } else {
        match segment_from(s, max_objects) {
            Err(e) => Err(e),
            Ok(seg) => prepend_segments(seq![seg], segments_from(s.skip(segment_len(s)), false, max_objects)),
        }
    }
}

/// Decodes the segment header at the start of `s`; nothing is consumed
/// where it fails.
pub fn decode_header(s: &[u8]) -> (r: Result<SegmentHeader, PGSParseError>)
    ensures
        r == header_from(s@),
{
    if s.len() < HEADER_SIZE || s[0] != 0x50 || s[1] != 0x47 {
        return Err(PGSParseError::MalformedHeader);
    }
    Ok(
        SegmentHeader {
            presentation_timestamp: Timestamp { raw_value: read_u32(s, 2) },
            decoding_timestamp: Timestamp { raw_value: read_u32(s, 6) },
            segment_type: s[10],
            segment_size: read_u16(s, 11),
        },
    )
}

/// Decodes the payload of type `tag` from the bytes `p`, which are exactly
/// the declared payload.
pub fn decode_payload(tag: u8, p: &[u8], max_objects: u8) -> (r: Result<SegmentPayload, PGSParseError>)
    ensures
        match r {
            Ok(d) => payload_from(tag, p@, max_objects) == Ok::<SegmentPayloadView, PGSParseError>(d@),
            Err(e) => payload_from(tag, p@, max_objects) == Err::<SegmentPayloadView, PGSParseError>(e),
        },
{
    if tag == PALETTE_DEFINITION_TAG {
        match PaletteDefinition::parse(p) {
            Some(d) => Ok(SegmentPayload::PDS(d)),
            None => Err(PGSParseError::TruncatedPayload),
        }
    } else if tag == OBJECT_DEFINITION_TAG {
        match ObjectDefinition::parse(p) {
            Some(d) => Ok(SegmentPayload::ODS(d)),
            None => Err(PGSParseError::TruncatedPayload),
        }
    } else if tag == PRESENTATION_COMPOSITION_TAG {
        match PresentationComposition::parse(p, max_objects) {
            Some(d) => Ok(SegmentPayload::PCS(d)),
            None => Err(PGSParseError::TruncatedPayload),
        }
    } else if tag == WINDOW_DEFINITION_TAG {
        match WindowDefinition::parse(p) {
            Some(d) => Ok(SegmentPayload::WDS(d)),
            None => Err(PGSParseError::TruncatedPayload),
        }
    } else if tag == END_OF_DISPLAY_SET_TAG {
        Ok(SegmentPayload::END(EndOfDisplaySet))
    } else {
        Err(PGSParseError::UnknownSegmentType(tag))
    }
}

/// Decodes the segment at the start of `s`, and the number of bytes that it
/// takes up.
pub fn decode_segment(s: &[u8], max_objects: u8) -> (r: Result<(Segment, usize), PGSParseError>)
    ensures
        match r {
            Ok((seg, n)) => segment_from(s@, max_objects) == Ok::<SegmentView, PGSParseError>(seg@)
                && n == segment_len(s@) && n <= s.len(),
            Err(e) => segment_from(s@, max_objects) == Err::<SegmentView, PGSParseError>(e),
        },
{
    let header = match decode_header(s) {
        Ok(h) => h,
        Err(e) => {
            return Err(e);
        },
    };
    let tag = header.segment_type;
    if !(tag == PALETTE_DEFINITION_TAG || tag == OBJECT_DEFINITION_TAG || tag == PRESENTATION_COMPOSITION_TAG
        || tag == WINDOW_DEFINITION_TAG || tag == END_OF_DISPLAY_SET_TAG) {
        return Err(PGSParseError::UnknownSegmentType(tag));
    }
    let n = HEADER_SIZE + header.segment_size as usize;
    if s.len() < n {
        return Err(PGSParseError::TruncatedPayload);
    }
    let p = slice_subrange(s, HEADER_SIZE, n);
    match decode_payload(tag, p, max_objects) {
        Ok(payload) => Ok(
            (
                Segment {
                    presentation_timestamp: header.presentation_timestamp,
                    decoding_timestamp: header.decoding_timestamp,
                    payload,
                },
                n,
            ),
        ),
        Err(e) => Err(e),
    }
}

/// Decodes a whole stream of back-to-back segments, reading at most
/// `max_objects` composition objects of each Presentation Composition.
pub fn parse_segments_with_limit(bytes: &[u8], max_objects: u8) -> (r: Result<Vec<Segment>, PGSParseError>)
    ensures
        decode_view(r) == segments_from(bytes@, true, max_objects),
{
    let mut segments: Vec<Segment> = Vec::new();
    let mut pos: usize = 0;
    let len = bytes.len();
    assert(bytes@.skip(0) =~= bytes@);
    assert(segments_view(segments@) =~= Seq::<SegmentView>::empty());
    assert(match segments_from(bytes@, true, max_objects) {
        Ok(t) => Seq::<SegmentView>::empty() + t =~= t,
        Err(_) => true,
    });
    while pos < len
        invariant
            len == bytes@.len(),
            pos <= len,
            segments_from(bytes@, true, max_objects) == prepend_segments(
                segments_view(segments@),
                segments_from(bytes@.skip(pos as int), pos == 0, max_objects),
            ),
        decreases len - pos,
    {
        let rest = slice_subrange(bytes, pos, len);
        assert(rest@ =~= bytes@.skip(pos as int));
        if pos > 0 && len - pos < HEADER_SIZE {
            return Err(PGSParseError::IncompleteTrailingBytes(len - pos));
        }
        match decode_segment(rest, max_objects) {
            Err(e) => {
                return Err(e);
            },
            Ok((seg, n)) => {
                let ghost before = segments_view(segments@);
                let ghost tail = segments_from(rest@.skip(n as int), false, max_objects);
                segments.push(seg);
                assert(rest@.skip(n as int) =~= bytes@.skip(pos + n));
                pos = pos + n;
                assert(segments_view(segments@) =~= before + seq![seg@]);
                assert(match tail {
                    Ok(t) => segments_view(segments@) + t =~= before + (seq![seg@] + t),
                    Err(_) => true,
                });
            },
        }
    }
    assert(bytes@.skip(pos as int) =~= Seq::<u8>::empty());
    assert(segments_view(segments@) + seq![] =~= segments_view(segments@));
    Ok(segments)
}

/// Decodes a whole stream of back-to-back segments, reading at most
/// `MAX_COMPOSITION_OBJECTS` composition objects of each Presentation
/// Composition.
pub fn parse_segments(bytes: &[u8]) -> (r: Result<Vec<Segment>, PGSParseError>)
    ensures
        decode_view(r) == segments_from(bytes@, true, MAX_COMPOSITION_OBJECTS),
{
    parse_segments_with_limit(bytes, MAX_COMPOSITION_OBJECTS)
}

/// The headers that cut `s` into segments, each header's declared size
/// leading to the next, where every one starts with `"PG"` and they cover `s`
/// to its last byte.
pub open spec fn framing(s: Seq<u8>) -> Option<Seq<SegmentHeader>>
    decreases s.len(),
{
    if s.len() == 0 {
        Some(seq![])
    } else if s.len() < 13 || !has_magic(s) || s.len() < segment_len(s) {
        None
    } else {
        match framing(s.skip(segment_len(s))) {
            None => None,
            Some(rest) => Some(seq![header_at(s)] + rest),
        }
    }
}

/// Whether the header `h` is the one that the decoded segment `seg` came
/// from: same timestamps, and the type tag of its payload.
pub open spec fn header_of_segment(h: SegmentHeader, seg: SegmentView) -> bool {
    h.presentation_timestamp == seg.presentation_timestamp && h.decoding_timestamp == seg.decoding_timestamp
        && h.segment_type == tag_of(seg.payload)
}

proof fn lemma_framing(s: Seq<u8>, at_start: bool, max_objects: u8)
    ensures
        segments_from(s, at_start, max_objects) matches Ok(v) ==> framing(s) matches Some(f) && f.len() == v.len()
            && forall|i: int| 0 <= i < v.len() ==> header_of_segment(#[trigger] f[i], v[i]),
    decreases s.len(),
{
    if s.len() > 0 {
        if let Ok(v) = segments_from(s, at_start, max_objects) {
            let n = segment_len(s);
            let seg = segment_from(s, max_objects).unwrap();
            lemma_framing(s.skip(n), false, max_objects);
            let rest = segments_from(s.skip(n), false, max_objects).unwrap();
            let f = framing(s).unwrap();
            let f_rest = framing(s.skip(n)).unwrap();
            assert(v == seq![seg] + rest);
            assert(f == seq![header_at(s)] + f_rest);
            assert forall|i: int| 0 <= i < v.len() implies header_of_segment(#[trigger] f[i], v[i]) by {
                if i > 0 {
                    assert(f[i] == f_rest[i - 1]);
                    assert(v[i] == rest[i - 1]);
                }
            }
        }
    }
}

/// A stream that decodes is consumed to its last byte: its headers cut it
/// into exactly as many segments as were decoded, and each decoded segment
/// keeps the timestamps and the type tag of its header.
pub proof fn lemma_decode_consumes_all(s: Seq<u8>, max_objects: u8)
    requires
        segments_from(s, true, max_objects) is Ok,
    ensures
        framing(s) matches Some(f) && f.len() == segments_from(s, true, max_objects).unwrap().len()
            && forall|i: int|
            0 <= i < f.len() ==> header_of_segment(#[trigger] f[i], segments_from(s, true, max_objects).unwrap()[i]),
{
    lemma_framing(s, true, max_objects);
}

/// Bytes that do not start with `"PG"` hold no header, and a stream that
/// starts with them fails with `MalformedHeader` before anything is consumed.
pub proof fn lemma_bad_magic(s: Seq<u8>, max_objects: u8)
    requires
        !has_magic(s),
    ensures
        header_from(s) == Err::<SegmentHeader, PGSParseError>(PGSParseError::MalformedHeader),
        s.len() > 0 ==> segments_from(s, true, max_objects) == Err::<Seq<SegmentView>, PGSParseError>(
            PGSParseError::MalformedHeader,
        ),
{
}

/// Decoding keeps no state between calls: two decodings of the same bytes
/// give equal results.
pub proof fn lemma_decode_deterministic(
    bytes: Seq<u8>,
    first: Result<Vec<Segment>, PGSParseError>,
    second: Result<Vec<Segment>, PGSParseError>,
)
    requires
        decode_view(first) == segments_from(bytes, true, MAX_COMPOSITION_OBJECTS),
        decode_view(second) == segments_from(bytes, true, MAX_COMPOSITION_OBJECTS),
    ensures
        decode_view(first) == decode_view(second),
{
}

} // verus!
